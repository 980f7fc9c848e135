use axiv::{generate_room_key, Room, Settings};

#[test]
fn generate_key() {
    assert_eq!(generate_room_key("HOTEL", "ROOM", "SRC"), "HOTEL-ROOM-SRC");
    assert_eq!(generate_room_key("aaa", "bbb", "ccc"), "aaa-bbb-ccc");
    assert_eq!(generate_room_key("000", "111", "222"), "000-111-222");
}

#[test]
fn key_parts_are_taken_as_they_are() {
    assert_eq!(generate_room_key("", "", ""), "--");
    assert_eq!(generate_room_key("a-b", "c", ""), "a-b-c-");
    assert_eq!(generate_room_key("Zürich", " 12 ", "src"), "Zürich- 12 -src");
}

#[test]
fn a_room_is_stored_under_the_key_of_its_parts() {
    let room = Room {
        hotel_code: String::from("BER00003"),
        source: String::from("MARR"),
        room_name: String::from("Single Standard"),
        room_code: String::from("BER849"),
    };
    assert_eq!(room.key(), "BER00003-BER849-MARR");
    assert_eq!(room.key(), generate_room_key("BER00003", "BER849", "MARR"));
}

#[test]
fn a_run_that_names_no_file_takes_the_usual_ones() {
    assert_eq!(
        Settings::default(),
        Settings {
            input: String::from("input.csv"),
            output: String::from("output.csv"),
            rooms: String::from("room_names.csv"),
            hotels: String::from("hotels.json"),
        }
    );
}
