//! The join of one booking row with the room and the hotel that it names.

use crate::data_source::{HotelDataSource, RoomDataSource};
use crate::date::{next_calendar_date, MAX_YEAR};
use crate::entities::{generate_room_key, room_key, Hotel, Input, Output, PeopleAmount, Room};
use crate::errors::IntegrationError;
use vstd::prelude::*;
use vstd::string::*;

verus! {

/// The number of guests of a row: adults and children together.
pub open spec fn guests<P>(input: Input<P>) -> int {
    input.adults + input.children
}

/// Why `input` cannot be joined with the two tables, or `None` where it can. The room is
/// looked up first, under the key made of the row's hotel code, room code and source;
/// then the hotel, under the row's hotel code.
pub open spec fn failure<P, C>(
    rooms: Map<Seq<char>, Room>,
    hotels: Map<Seq<char>, Hotel<C>>,
    input: Input<P>,
) -> Option<IntegrationError<P>> {
    if !rooms.contains_key(room_key(input.hotel_code@, input.room_code@, input.source@)) {
        Some(IntegrationError::MissingRoom { input })
    } else if !hotels.contains_key(input.hotel_code@) {
        Some(IntegrationError::MissingHotel { input })
    } else if guests(input) > PeopleAmount::MAX {
        Some(IntegrationError::TooManyGuests { input })
    } else if guests(input) == 0 {
        Some(IntegrationError::NoGuests { input })
    } else if input.checkin@ == (MAX_YEAR as int, 12int, 31int) {
        Some(IntegrationError::NoCheckout { input })
    } else {
        None
    }
}

/// Whether `output` holds what `input`, `room` and `hotel` give it, the price left aside:
/// the guests are counted, the stay ends on the day after it began, and room type and
/// meal are joined by a space.
pub open spec fn is_enriched<P, C>(
    output: Output<P, C>,
    input: Input<P>,
    room: Room,
    hotel: Hotel<C>,
) -> bool {
    &&& output.room_type_meal@ == input.room_type@ + seq![' '] + input.meal@
    &&& output.room_code@ == room.room_code@
    &&& output.source@ == input.source@
    &&& output.hotel_name@ == hotel.name@
    &&& output.city_name@ == hotel.city@
    &&& output.city_code@ == input.city_code@
    &&& output.hotel_category == hotel.category
    &&& output.pax == guests(input)
    &&& output.adults == input.adults
    &&& output.children == input.children
    &&& output.room_name@ == room.room_name@
    &&& output.checkin == input.checkin
    &&& output.checkout@ == next_calendar_date(
        input.checkin@.0,
        input.checkin@.1,
        input.checkin@.2,
    )
}

/// Whether `outcome` is what joining `input` with the two tables comes to, where
/// `per_person` shares the price of a stay among its guests.
pub open spec fn is_outcome<P, C, F: Fn(P, PeopleAmount) -> P>(
    rooms: Map<Seq<char>, Room>,
    hotels: Map<Seq<char>, Hotel<C>>,
    input: Input<P>,
    per_person: F,
    outcome: Result<Output<P, C>, IntegrationError<P>>,
) -> bool {
    match outcome {
        Ok(output) => {
            &&& failure(rooms, hotels, input) is None
            &&& is_enriched(
                output,
                input,
                rooms[room_key(input.hotel_code@, input.room_code@, input.source@)],
                hotels[input.hotel_code@],
            )
            &&& call_ensures(per_person, (input.price, output.pax), output.price)
        },
        Err(error) => failure(rooms, hotels, input) == Some(error),
    }
}

/// A row that names a room or a hotel which the tables do not hold fails, and the error
/// holds the row. The room is matched by the whole of its key: a room that is stored
/// under another hotel code, room code or source is no match.
pub proof fn lemma_lookup_miss_holds_the_row<P, C, F: Fn(P, PeopleAmount) -> P>(
    rooms: Map<Seq<char>, Room>,
    hotels: Map<Seq<char>, Hotel<C>>,
    input: Input<P>,
    per_person: F,
    outcome: Result<Output<P, C>, IntegrationError<P>>,
)
    requires
        is_outcome(rooms, hotels, input, per_person, outcome),
        !rooms.contains_key(room_key(input.hotel_code@, input.room_code@, input.source@))
            || !hotels.contains_key(input.hotel_code@),
    ensures
        outcome is Err,
        outcome->Err_0.row() == Some(&input),
        !rooms.contains_key(room_key(input.hotel_code@, input.room_code@, input.source@))
            ==> outcome == Err::<Output<P, C>, IntegrationError<P>>(
            IntegrationError::MissingRoom { input },
        ),
        rooms.contains_key(room_key(input.hotel_code@, input.room_code@, input.source@))
            ==> outcome == Err::<Output<P, C>, IntegrationError<P>>(
            IntegrationError::MissingHotel { input },
        ),
{
}

/// A row that is joined has at least one guest, and its price is what `per_person` gave
/// for the price of the stay and the number of guests.
pub proof fn lemma_joined_row_has_guests<P, C, F: Fn(P, PeopleAmount) -> P>(
    rooms: Map<Seq<char>, Room>,
    hotels: Map<Seq<char>, Hotel<C>>,
    input: Input<P>,
    per_person: F,
    output: Output<P, C>,
)
    requires
        is_outcome(rooms, hotels, input, per_person, Ok::<Output<P, C>, IntegrationError<P>>(output)),
    ensures
        1 <= output.pax == input.adults + input.children,
        call_ensures(per_person, (input.price, output.pax), output.price),
{
}

/// Enriches booking rows with the rooms and the hotels of two tables. It holds the
/// tables and no row: rows are handed to it one at a time, as they are read.
#[verifier::reject_recursive_types(C)]
pub struct DataIntegrator<C> {
    rooms: RoomDataSource,
    hotels: HotelDataSource<C>,
}

impl<C: Copy> DataIntegrator<C> {
    /// The rooms that rows are joined with.
    pub closed spec fn rooms(&self) -> Map<Seq<char>, Room> {
        self.rooms@
    }

    /// The hotels that rows are joined with.
    pub closed spec fn hotels(&self) -> Map<Seq<char>, Hotel<C>> {
        self.hotels@
    }

    /// An integrator over the two tables, which are read and never changed from here on.
    pub fn new(rooms: RoomDataSource, hotels: HotelDataSource<C>) -> (integrator: Self)
        ensures
            integrator.rooms() == rooms@,
            integrator.hotels() == hotels@,
    {
        DataIntegrator { rooms, hotels }
    }

    /// Joins one row with its room and its hotel. `per_person` is only called with at
    /// least one guest. A row that cannot be joined comes back inside the error.
    pub fn integrate<P, F>(&self, input: Input<P>, per_person: F) -> (outcome: Result<
        Output<P, C>,
        IntegrationError<P>,
    >) where F: Fn(P, PeopleAmount) -> P
        requires
            forall|price: P, pax: PeopleAmount| pax > 0 ==> call_requires(per_person, (price, pax)),
        ensures
            is_outcome(self.rooms(), self.hotels(), input, per_person, outcome),
    {
        let key = generate_room_key(
            input.hotel_code.as_str(),
            input.room_code.as_str(),
            input.source.as_str(),
        );
        let room = match self.rooms.find(&key) {
            Some(room) => room,
            None => {
                return Err(IntegrationError::MissingRoom { input });
            },
        };
        let hotel = match self.hotels.find(&input.hotel_code) {
            Some(hotel) => hotel,
            None => {
                return Err(IntegrationError::MissingHotel { input });
            },
        };
        let pax: PeopleAmount = match input.adults.checked_add(input.children) {
            Some(pax) => pax,
            None => {
                return Err(IntegrationError::TooManyGuests { input });
            },
        };
        if pax == 0 {
            return Err(IntegrationError::NoGuests { input });
        }
        let checkout = match input.checkin.succ_opt() {
            Some(checkout) => checkout,
            None => {
                return Err(IntegrationError::NoCheckout { input });
            },
        };
        proof {
            reveal_strlit(" ");
        }
        let mut room_type_meal = input.room_type.clone();
        room_type_meal.append(" ");
        room_type_meal.append(input.meal.as_str());
        let ghost row = input;
        let Input { city_code, source, checkin, adults, children, price, .. } = input;
        let price = per_person(price, pax);
        let output = Output {
            room_type_meal,
            room_code: room.room_code.clone(),
            source,
            hotel_name: hotel.name.clone(),
            city_name: hotel.city.clone(),
            city_code,
            hotel_category: hotel.category,
            pax,
            adults,
            children,
            room_name: room.room_name.clone(),
            checkin,
            checkout,
            price,
        };
        assert(output.room_type_meal@ =~= row.room_type@ + seq![' '] + row.meal@);
        Ok(output)
    }

    /// What the integrator yields for the next thing read from the input: nothing at its
    /// end, an error for a row that could not be read, and else the join of the row.
    pub fn next<P, F, E>(&self, row: Option<Result<Input<P>, E>>, per_person: F) -> (item: Option<
        Result<Output<P, C>, IntegrationError<P>>,
    >) where F: Fn(P, PeopleAmount) -> P
        requires
            forall|price: P, pax: PeopleAmount| pax > 0 ==> call_requires(per_person, (price, pax)),
        ensures
            match row {
                None => item is None,
                Some(Err(_)) => item == Some(
                    Err::<Output<P, C>, IntegrationError<P>>(IntegrationError::MalformedInputRow),
                ),
                Some(Ok(input)) => item matches Some(outcome) && is_outcome(
                    self.rooms(),
                    self.hotels(),
                    input,
                    per_person,
                    outcome,
                ),
            },
    {
        match row {
            None => None,
            Some(Err(_)) => Some(Err(IntegrationError::MalformedInputRow)),
            Some(Ok(input)) => Some(self.integrate(input, per_person)),
        }
    }
}

} // verus!
