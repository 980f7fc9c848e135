//! The records that are joined: rooms, hotels, booking rows and enriched rows.

use crate::date::Date;
use vstd::prelude::*;
use vstd::string::*;

verus! {

/// Number of guests of one kind in a booking.
pub type PeopleAmount = u8;

/// The text that separates the parts of a room key.
pub open spec fn key_separator() -> Seq<char> {
    seq!['-']
}

/// The key of a room: hotel code, room code and source, in that order, joined by hyphens.
pub open spec fn room_key(hotel_code: Seq<char>, room_code: Seq<char>, source: Seq<char>) -> Seq<
    char,
> {
    hotel_code + key_separator() + room_code + key_separator() + source
}

/// Builds the key under which a room is stored, from the three properties that a booking
/// row carries, so that rooms that share some of them stay apart.
pub fn generate_room_key(hotel_code: &str, room_code: &str, source: &str) -> (key: String)
    ensures
        key@ == room_key(hotel_code@, room_code@, source@),
{
    proof {
        reveal_strlit("-");
    }
    let mut key = String::from_str(hotel_code);
    key.append("-");
    key.append(room_code);
    key.append("-");
    key.append(source);
    assert(key@ =~= room_key(hotel_code@, room_code@, source@));
    key
}

/// A room of a hotel as one source names it.
#[derive(Debug, PartialEq)]
pub struct Room {
    pub hotel_code: String,
    pub source: String,
    pub room_name: String,
    pub room_code: String,
}

impl Room {
    /// The key under which the room is stored.
    pub fn key(&self) -> (key: String)
        ensures
            key@ == room_key(self.hotel_code@, self.room_code@, self.source@),
    {
        generate_room_key(self.hotel_code.as_str(), self.room_code.as_str(), self.source.as_str())
    }
}

/// A hotel, stored under its `id`. The category is a rating that is carried and never
/// computed with: `C` is the type the caller holds it in.
#[derive(Debug, PartialEq)]
pub struct Hotel<C> {
    pub id: String,
    pub city_code: String,
    pub name: String,
    pub category: C,
    pub country_code: String,
    pub city: String,
}

/// One booking row as it comes in. The price is that of the whole stay, in the type `P`
/// that the caller holds prices in.
#[derive(Debug, PartialEq)]
pub struct Input<P> {
    pub city_code: String,
    pub hotel_code: String,
    pub room_type: String,
    pub room_code: String,
    pub meal: String,
    pub checkin: Date,
    pub adults: PeopleAmount,
    pub children: PeopleAmount,
    pub price: P,
    pub source: String,
}

/// One booking row with what the room and the hotel add to it. The price is that of one
/// guest.
#[derive(Debug, PartialEq)]
pub struct Output<P, C> {
    pub room_type_meal: String,
    pub room_code: String,
    pub source: String,
    pub hotel_name: String,
    pub city_name: String,
    pub city_code: String,
    pub hotel_category: C,
    pub pax: PeopleAmount,
    pub adults: PeopleAmount,
    pub children: PeopleAmount,
    pub room_name: String,
    pub checkin: Date,
    pub checkout: Date,
    pub price: P,
}

} // verus!
