//! Readers of the two reference files: rooms as rows of fields between bars, hotels
//! as lines that each hold one JSON object.

use crate::entities::{room_key, Hotel, Room};
use crate::errors::{ImportError, Table};
use crate::json::{
    find_member, json_object, member_views, number_member, read_object, text_member, JsonText,
    JsonValue,
};
use vstd::prelude::*;

verus! {

/// The byte between two fields of a row of the rooms file: a vertical bar.
pub const FIELD_DELIMITER: u8 = 0x7c;

/// The number of fields of a row of the rooms file: hotel code, room code, source and
/// room name, in that order.
pub const ROOM_FIELDS: usize = 4;

/// Each text by its characters.
pub open spec fn texts(items: Seq<String>) -> Seq<Seq<char>> {
    items.map_values(|item: String| item@)
}

/// Each row by the characters of its fields.
pub open spec fn row_texts(rows: Seq<Vec<String>>) -> Seq<Seq<Seq<char>>> {
    rows.map_values(|row: Vec<String>| texts(row@))
}

/// The place of the first line feed of `text`, or its length where it holds none.
pub open spec fn first_line_feed(text: Seq<char>) -> nat
    decreases text.len(),
{
    if text.len() == 0 || text[0] == '\n' {
        0
    } else {
        1 + first_line_feed(text.drop_first())
    }
}

/// `line` without the carriage return that it may end with.
pub open spec fn without_carriage_return(line: Seq<char>) -> Seq<char> {
    if line.len() > 0 && line.last() == '\r' {
        line.drop_last()
    } else {
        line
    }
}

/// The lines of `text`. A line ends with a line feed, or with a carriage return and a
/// line feed, and holds neither; what follows the last line feed is a line as it stands,
/// unless it is empty.
pub open spec fn lines_of(text: Seq<char>) -> Seq<Seq<char>>
    decreases text.len(),
{
    if text.len() == 0 {
        Seq::empty()
    } else {
        let end = first_line_feed(text) as int;
        if end >= text.len() {
            seq![text]
        } else {
            seq![without_carriage_return(text.take(end))] + lines_of(text.skip(end + 1))
        }
    }
}

/// The rows that the csv crate reads from `content`, without a header row and with
/// `delimiter` between the fields, or `None` where it reports an error.
pub uninterp spec fn delimited_rows(content: Seq<char>, delimiter: u8) -> Option<
    Seq<Seq<Seq<char>>>,
>;

/// The error of the csv crate, which is handed on unread.
#[verifier::external_type_specification]
#[verifier::external_body]
pub struct ExCsvError(csv::Error);

/// Whether `entries` are the rooms of `rows`, each under its key.
pub open spec fn are_rooms_of(entries: Seq<(String, Room)>, rows: Seq<Seq<Seq<char>>>) -> bool {
    &&& entries.len() == rows.len()
    &&& forall|i: int|
        0 <= i < entries.len() ==> {
            let room = (#[trigger] entries[i]).1;
            &&& rows[i].len() == ROOM_FIELDS
            &&& room.hotel_code@ == rows[i][0]
            &&& room.room_code@ == rows[i][1]
            &&& room.source@ == rows[i][2]
            &&& room.room_name@ == rows[i][3]
            &&& entries[i].0@ == room_key(rows[i][0], rows[i][1], rows[i][2])
        }
}

/// Whether every row has the fields of a room.
pub open spec fn are_room_rows(rows: Seq<Seq<Seq<char>>>) -> bool {
    forall|i: int| 0 <= i < rows.len() ==> (#[trigger] rows[i]).len() == ROOM_FIELDS
}

/// Whether `read` is what reading rooms from `rows` comes to: the rooms of all the rows,
/// or a failure where a row has not the fields of a room.
pub open spec fn is_rooms_outcome(
    rows: Seq<Seq<Seq<char>>>,
    read: Result<Vec<(String, Room)>, ImportError>,
) -> bool {
    match read {
        Ok(entries) => are_room_rows(rows) && are_rooms_of(entries@, rows),
        Err(error) => !are_room_rows(rows) && error == ImportError::MalformedRoom,
    }
}

/// One malformed row fails the whole rooms file, wherever it stands.
pub proof fn lemma_malformed_row_fails_rooms(
    rows: Seq<Seq<Seq<char>>>,
    read: Result<Vec<(String, Room)>, ImportError>,
    malformed: int,
)
    requires
        is_rooms_outcome(rows, read),
        0 <= malformed < rows.len(),
        rows[malformed].len() != ROOM_FIELDS,
    ensures
        read == Err::<Vec<(String, Room)>, ImportError>(ImportError::MalformedRoom),
{
}

/// The rooms of the rows, each under its key, in the order of the rows. A row that has
/// not exactly the four fields of a room fails them all.
pub fn rooms_from_rows(rows: Vec<Vec<String>>) -> (read: Result<Vec<(String, Room)>, ImportError>)
    ensures
        is_rooms_outcome(row_texts(rows@), read),
{
    let ghost all = row_texts(rows@);
    let mut entries: Vec<(String, Room)> = Vec::new();
    for row in it: rows
        invariant
            all == row_texts(it.seq()),
            are_room_rows(all.take(it.index() as int)),
            are_rooms_of(entries@, all.take(it.index() as int)),
    {
        let ghost done = it.index() as int;
        assert(all[done] == texts(row@));
        let mut row = row;
        if row.len() != ROOM_FIELDS {
            return Err(ImportError::MalformedRoom);
        }
        let room_name = row.pop().unwrap();
        let source = row.pop().unwrap();
        let room_code = row.pop().unwrap();
        let hotel_code = row.pop().unwrap();
        let room = Room { hotel_code, source, room_name, room_code };
        let key = room.key();
        entries.push((key, room));
        proof {
            let read = all.take(done + 1);
            assert forall|i: int| 0 <= i < done implies read[i] == all.take(done)[i] by {}
            assert(are_room_rows(read));
            assert(are_rooms_of(entries@, read));
        }
    }
    assert(all.take(all.len() as int) == all);
    Ok(entries)
}

/// Reads the rooms file. `contents` is the text of the file, or `None` where the file is
/// missing or cannot be read. The rows are read by the csv crate, without a header row
/// and with a bar between the fields; one malformed row fails the whole file.
pub fn rooms_reader(contents: Option<&str>) -> (read: Result<Vec<(String, Room)>, ImportError>)
    ensures
        contents is None ==> read == Err::<Vec<(String, Room)>, ImportError>(
            ImportError::InvalidPath { table: Table::Rooms },
        ),
        contents matches Some(text) ==> match delimited_rows(text@, FIELD_DELIMITER) {
            Some(rows) => is_rooms_outcome(rows, read),
            None => read == Err::<Vec<(String, Room)>, ImportError>(ImportError::MalformedRoom),
        },
{
    match contents {
        None => Err(ImportError::InvalidPath { table: Table::Rooms }),
        Some(text) => match read_rows(text, FIELD_DELIMITER) {
            Ok(rows) => rooms_from_rows(rows),
            Err(_) => Err(ImportError::MalformedRoom),
        },
    }
}

/// The number of members of a hotel: `id`, `city_code`, `name`, `category`,
/// `country_code` and `city`.
pub const HOTEL_FIELDS: usize = 6;

/// Whether the members are those of a hotel: the six of them and no other, the category
/// a number and the others texts.
pub open spec fn is_hotel_object(members: Seq<(Seq<char>, JsonText)>) -> bool {
    &&& members.len() == HOTEL_FIELDS
    &&& text_member(members, "id"@) is Some
    &&& text_member(members, "city_code"@) is Some
    &&& text_member(members, "name"@) is Some
    &&& number_member(members, "category"@) is Some
    &&& text_member(members, "country_code"@) is Some
    &&& text_member(members, "city"@) is Some
}

/// Whether the texts of `hotel` are those of the members.
pub open spec fn has_texts_of<C>(hotel: Hotel<C>, members: Seq<(Seq<char>, JsonText)>) -> bool {
    &&& text_member(members, "id"@) == Some(hotel.id@)
    &&& text_member(members, "city_code"@) == Some(hotel.city_code@)
    &&& text_member(members, "name"@) == Some(hotel.name@)
    &&& text_member(members, "country_code"@) == Some(hotel.country_code@)
    &&& text_member(members, "city"@) == Some(hotel.city@)
}

/// Whether `rating` can give `outcome` for a numeral of the characters `numeral`.
pub open spec fn rating_gives<C, F: Fn(&str) -> Option<C>>(
    rating: F,
    numeral: Seq<char>,
    outcome: Option<C>,
) -> bool {
    exists|text: &str| text@ == numeral && call_ensures(rating, (text,), outcome)
}

/// Whether `outcome` is what the members of an object come to: a hotel where they are
/// those of a hotel and `rating` takes the numeral of the category, else none.
pub open spec fn members_give<C, F: Fn(&str) -> Option<C>>(
    rating: F,
    members: Seq<(Seq<char>, JsonText)>,
    outcome: Option<Hotel<C>>,
) -> bool {
    match outcome {
        Some(hotel) => {
            &&& is_hotel_object(members)
            &&& has_texts_of(hotel, members)
            &&& rating_gives(rating, number_member(members, "category"@)->0, Some(hotel.category))
        },
        None => !is_hotel_object(members) || rating_gives(
            rating,
            number_member(members, "category"@)->0,
            None,
        ),
    }
}

/// Whether `outcome` is what a line comes to: the hotel of the JSON object that the
/// line holds, or none.
pub open spec fn line_gives<C, F: Fn(&str) -> Option<C>>(
    rating: F,
    line: Seq<char>,
    outcome: Option<Hotel<C>>,
) -> bool {
    match json_object(line) {
        Some(members) => members_give(rating, members, outcome),
        None => outcome is None,
    }
}

/// Whether a line can come to a hotel.
pub open spec fn line_gives_hotel<C, F: Fn(&str) -> Option<C>>(rating: F, line: Seq<char>) -> bool {
    exists|hotel: Hotel<C>| line_gives(rating, line, Some(hotel))
}

/// Whether `entries` are the hotels of `lines`, line by line, each under its id.
pub open spec fn are_hotels_of<C, F: Fn(&str) -> Option<C>>(
    rating: F,
    entries: Seq<(String, Hotel<C>)>,
    lines: Seq<Seq<char>>,
) -> bool {
    &&& entries.len() == lines.len()
    &&& forall|i: int|
        0 <= i < entries.len() ==> {
            &&& line_gives(rating, lines[i], Some((#[trigger] entries[i]).1))
            &&& entries[i].0@ == entries[i].1.id@
        }
}

/// Whether line `bad` is the first of `lines` that came to no hotel.
pub open spec fn is_first_bad_line<C, F: Fn(&str) -> Option<C>>(
    rating: F,
    lines: Seq<Seq<char>>,
    bad: int,
) -> bool {
    &&& 0 <= bad < lines.len()
    &&& line_gives(rating, lines[bad], None::<Hotel<C>>)
    &&& forall|i: int| 0 <= i < bad ==> line_gives_hotel::<C, F>(rating, #[trigger] lines[i])
}

/// Whether `read` is what reading `lines` comes to: the hotels of all the lines, or the
/// first line that came to none.
pub open spec fn is_hotels_outcome<C, F: Fn(&str) -> Option<C>>(
    rating: F,
    lines: Seq<Seq<char>>,
    read: Result<Vec<(String, Hotel<C>)>, ImportError>,
) -> bool {
    match read {
        Ok(entries) => are_hotels_of(rating, entries@, lines),
        Err(ImportError::MalformedHotel { line }) => exists|bad: int| #[trigger]
            is_first_bad_line::<C, F>(rating, lines, bad) && line@ == lines[bad],
        Err(_) => false,
    }
}

/// One malformed line fails the whole hotels file, wherever it stands: a line that
/// holds no JSON object, or an object that has not the members of a hotel.
pub proof fn lemma_malformed_line_fails_hotels<C, F: Fn(&str) -> Option<C>>(
    rating: F,
    lines: Seq<Seq<char>>,
    read: Result<Vec<(String, Hotel<C>)>, ImportError>,
    malformed: int,
)
    requires
        is_hotels_outcome(rating, lines, read),
        0 <= malformed < lines.len(),
        json_object(lines[malformed]) matches Some(members) ==> !is_hotel_object(members),
    ensures
        read is Err,
{
    if let Ok(entries) = read {
        assert(line_gives(rating, lines[malformed], Some(entries@[malformed].1)));
    }
}

/// The text of the member called `name`, where there is one and it holds a text.
fn text_of(members: &Vec<(String, JsonValue)>, name: &str) -> (text: Option<String>)
    ensures
        text is Some <==> text_member(member_views(members@), name@) is Some,
        text matches Some(found) ==> text_member(member_views(members@), name@) == Some(found@),
{
    match find_member(members, name) {
        Some(JsonValue::Text(text)) => Some(text.clone()),
        _ => None,
    }
}

/// The hotel that the members of a JSON object make up. They are those of a hotel where
/// they are six, `category` is a number and `id`, `city_code`, `name`, `country_code` and
/// `city` are texts; `rating` is then handed the numeral of the category and gives the
/// category, or none where it does not take the numeral.
pub fn hotel_from_members<C, F>(members: &Vec<(String, JsonValue)>, rating: &F) -> (hotel: Option<
    Hotel<C>,
>) where F: Fn(&str) -> Option<C>
    requires
        forall|numeral: &str| call_requires(*rating, (numeral,)),
    ensures
        members_give(*rating, member_views(members@), hotel),
{
    if members.len() != HOTEL_FIELDS {
        return None;
    }
    let id = text_of(members, "id")?;
    let city_code = text_of(members, "city_code")?;
    let name = text_of(members, "name")?;
    let numeral = match find_member(members, "category") {
        Some(JsonValue::Number(numeral)) => numeral,
        _ => {
            return None;
        },
    };
    let country_code = text_of(members, "country_code")?;
    let city = text_of(members, "city")?;
    let category = rating(numeral.as_str())?;
    Some(Hotel { id, city_code, name, category, country_code, city })
}

/// Reads the hotels file. `contents` is the text of the file, or `None` where the file
/// is missing or cannot be read. Each line holds one hotel as a JSON object, which
/// serde_json reads; `rating` turns the numeral of a category into a category. The first
/// line that holds no hotel fails the whole file, and the error holds that line.
pub fn hotels_reader<C, F>(contents: Option<&str>, rating: F) -> (read: Result<
    Vec<(String, Hotel<C>)>,
    ImportError,
>) where F: Fn(&str) -> Option<C>
    requires
        forall|numeral: &str| call_requires(rating, (numeral,)),
    ensures
        contents is None ==> read == Err::<Vec<(String, Hotel<C>)>, ImportError>(
            ImportError::InvalidPath { table: Table::Hotels },
        ),
        contents matches Some(text) ==> is_hotels_outcome(rating, lines_of(text@), read),
{
    let text = match contents {
        None => {
            return Err(ImportError::InvalidPath { table: Table::Hotels });
        },
        Some(text) => text,
    };
    let lines = text_lines(text);
    let ghost all = texts(lines@);
    let mut entries: Vec<(String, Hotel<C>)> = Vec::new();
    for line in it: lines
        invariant
            contents == Some(text),
            all == lines_of(text@),
            all == texts(it.seq()),
            forall|numeral: &str| call_requires(rating, (numeral,)),
            are_hotels_of(rating, entries@, all.take(it.index() as int)),
    {
        let ghost done = it.index() as int;
        assert(all[done] == line@);
        let hotel = match read_object(line.as_str()) {
            Ok(members) => hotel_from_members(&members, &rating),
            Err(_) => None,
        };
        assert(line_gives(rating, all[done], hotel));
        match hotel {
            Some(hotel) => {
                let id = hotel.id.clone();
                entries.push((id, hotel));
                assert forall|i: int| 0 <= i < entries.len() implies {
                    &&& line_gives(rating, all.take(done + 1)[i], Some((#[trigger] entries[i]).1))
                    &&& entries[i].0@ == entries[i].1.id@
                } by {
                    if i < done {
                        assert(all.take(done + 1)[i] == all.take(done)[i]);
                    }
                }
            },
            None => {
                proof {
                    assert forall|i: int| 0 <= i < done implies line_gives_hotel::<C, F>(
                        rating,
                        #[trigger] all[i],
                    ) by {
                        assert(all.take(done)[i] == all[i]);
                        assert(line_gives(rating, all[i], Some(entries[i].1)));
                    }
                    assert(is_first_bad_line::<C, F>(rating, all, done));
                }
                let failed = Err(ImportError::MalformedHotel { line });
                assert(is_hotels_outcome(rating, all, failed));
                return failed;
            },
        }
    }
    assert(all.take(all.len() as int) == all);
    Ok(entries)
}

/// Calls `str::lines` and collects the lines. The contract claims what std documents of
/// it: lines end at a line feed or at a carriage return with a line feed, which are left
/// out, and the last line needs no line ending.
#[verifier::external_body]
fn text_lines(text: &str) -> (lines: Vec<String>)
    ensures
        texts(lines@) == lines_of(text@),
{
    text.lines().map(String::from).collect()
}

/// Reads `content` with a `csv::Reader` that takes no header row and has `delimiter`
/// between the fields, and collects the fields of every record. The contract names the
/// rows and says that the call fails where there are none. The reader is only asked for
/// the bar as delimiter.
#[verifier::external_body]
fn read_rows(content: &str, delimiter: u8) -> (rows: Result<Vec<Vec<String>>, csv::Error>)
    requires
        delimiter == FIELD_DELIMITER,
    ensures
        rows is Ok <==> delimited_rows(content@, delimiter) is Some,
        rows matches Ok(read) ==> delimited_rows(content@, delimiter) == Some(row_texts(read@)),
{
    let mut reader = csv::ReaderBuilder::new().has_headers(false).delimiter(delimiter).from_reader(
        content.as_bytes(),
    );
    let mut rows: Vec<Vec<String>> = Vec::new();
    for record in reader.records() {
        rows.push(record?.iter().map(String::from).collect());
    }
    Ok(rows)
}

} // verus!
