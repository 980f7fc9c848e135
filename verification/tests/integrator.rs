use axiv::date::MAX_YEAR;
use axiv::{
    custom_date, DataIntegrator, DataSource, Date, Hotel, Input, IntegrationError, Output, Room,
};

fn share(price: f64, pax: u8) -> f64 {
    price / f64::from(pax)
}

fn room(hotel_code: &str, room_code: &str, source: &str, room_name: &str) -> (String, Room) {
    let room = Room {
        hotel_code: String::from(hotel_code),
        room_code: String::from(room_code),
        source: String::from(source),
        room_name: String::from(room_name),
    };
    (room.key(), room)
}

fn hotel(id: &str, name: &str, category: f32, city: &str) -> (String, Hotel<f32>) {
    (
        String::from(id),
        Hotel {
            id: String::from(id),
            city_code: String::from("BER"),
            name: String::from(name),
            category,
            country_code: String::from("DE"),
            city: String::from(city),
        },
    )
}

fn integrator() -> DataIntegrator<f32> {
    let mut rooms: DataSource<Room> = DataSource::new();
    rooms.extend(vec![
        room("BER00003", "BER849", "MARR", "Single Standard"),
        room("BER00002", "BER898", "IHG", "Einzelzimmer"),
    ]);
    let mut hotels: DataSource<Hotel<f32>> = DataSource::new();
    hotels.extend(vec![hotel("BER00002", "Crowne Plaza Berlin City Centre", 4.0, "Berlin")]);
    DataIntegrator::new(rooms, hotels)
}

fn input(hotel_code: &str, room_code: &str, source: &str) -> Input<f64> {
    Input {
        city_code: String::from("BER"),
        hotel_code: String::from(hotel_code),
        room_type: String::from("EZ"),
        room_code: String::from(room_code),
        meal: String::from("F"),
        checkin: custom_date::deserialize("20190730").unwrap(),
        adults: 2,
        children: 1,
        price: 90.00,
        source: String::from(source),
    }
}

#[test]
fn a_row_is_joined_with_its_room_and_hotel() {
    let output = integrator()
        .integrate(input("BER00002", "BER898", "IHG"), share)
        .expect("room and hotel are there");
    assert_eq!(
        output,
        Output {
            room_type_meal: String::from("EZ F"),
            room_code: String::from("BER898"),
            source: String::from("IHG"),
            hotel_name: String::from("Crowne Plaza Berlin City Centre"),
            city_name: String::from("Berlin"),
            city_code: String::from("BER"),
            hotel_category: 4.0,
            pax: 3,
            adults: 2,
            children: 1,
            room_name: String::from("Einzelzimmer"),
            checkin: Date::from_ymd_opt(2019, 7, 30).unwrap(),
            checkout: Date::from_ymd_opt(2019, 7, 31).unwrap(),
            price: 30.0,
        }
    );
    assert_eq!(custom_date::serialize(&output.checkin), "2019-07-30");
    assert_eq!(custom_date::serialize(&output.checkout), "2019-07-31");
    assert_eq!(format!("{:.2}", output.price), "30.00");
}

#[test]
fn a_room_of_another_hotel_is_no_match() {
    let row = input("BER00002", "BER849", "MARR");
    assert_eq!(
        integrator().integrate(input("BER00002", "BER849", "MARR"), share),
        Err(IntegrationError::MissingRoom { input: row })
    );
}

#[test]
fn a_missing_hotel_fails_the_row() {
    let row = input("BER00003", "BER849", "MARR");
    let error = integrator()
        .integrate(input("BER00003", "BER849", "MARR"), share)
        .expect_err("no such hotel");
    assert_eq!(error.input(), Some(&row));
    assert_eq!(error, IntegrationError::MissingHotel { input: row });
    assert_eq!(
        error.message(),
        format!("Input links to a non existent hotel: {:#?}", input("BER00003", "BER849", "MARR"))
    );
    assert!(error.message().contains("BER00003"));
    assert!(error.message().contains("BER849"));
    assert!(error.message().contains("MARR"));
}

#[test]
fn a_missing_room_is_reported_before_a_missing_hotel() {
    let error = integrator()
        .integrate(input("BER00009", "BER849", "MARR"), share)
        .expect_err("neither room nor hotel");
    assert_eq!(
        error.message(),
        format!("Input links to a non existent room: {:#?}", input("BER00009", "BER849", "MARR"))
    );
    assert_eq!(error.input(), Some(&input("BER00009", "BER849", "MARR")));
}

#[test]
fn keys_are_matched_letter_for_letter() {
    assert!(integrator().integrate(input("ber00002", "BER898", "IHG"), share).is_err());
    assert!(integrator().integrate(input("BER00002", "BER898", "ihg"), share).is_err());
    assert!(integrator().integrate(input("BER00002", "BER898 ", "IHG"), share).is_err());
}

#[test]
fn more_guests_than_a_row_can_count() {
    let mut row = input("BER00002", "BER898", "IHG");
    row.adults = 200;
    row.children = 56;
    let same = Input { adults: 200, children: 56, ..input("BER00002", "BER898", "IHG") };
    let error = integrator().integrate(row, share).expect_err("256 guests");
    assert_eq!(error, IntegrationError::TooManyGuests { input: same });
    assert!(error
        .message()
        .starts_with("Input counts more guests than a row can hold: Input {"));
    let full = Input { adults: 200, children: 55, ..input("BER00002", "BER898", "IHG") };
    let output = integrator().integrate(full, share).expect("255 guests can be counted");
    assert_eq!(output.pax, 255);
    assert_eq!(output.price, 90.0 / 255.0);
}

#[test]
fn a_row_without_guests() {
    let empty = Input { adults: 0, children: 0, ..input("BER00002", "BER898", "IHG") };
    let same = Input { adults: 0, children: 0, ..input("BER00002", "BER898", "IHG") };
    let error = integrator().integrate(empty, share).expect_err("nobody to share the price");
    assert_eq!(error, IntegrationError::NoGuests { input: same });
    assert!(error.message().starts_with("Input has no guest to share the price: Input {"));
}

#[test]
fn a_stay_that_begins_on_the_last_day() {
    let last = Date::from_ymd_opt(MAX_YEAR, 12, 31).unwrap();
    let late = Input { checkin: last, ..input("BER00002", "BER898", "IHG") };
    let error = integrator().integrate(late, share).expect_err("no day after the last");
    assert_eq!(error.input().map(|row| row.checkin), Some(last));
    assert!(error
        .message()
        .starts_with("Input checks in on the last day of the calendar: Input {"));
}

#[test]
fn single_guest_pays_the_whole_price() {
    let alone = Input { adults: 1, children: 0, price: 8.5, ..input("BER00002", "BER898", "IHG") };
    let output = integrator().integrate(alone, share).unwrap();
    assert_eq!(output.pax, 1);
    assert_eq!(output.price, 8.5);
    assert_eq!(format!("{:.2}", output.price), "8.50");
}

#[test]
fn the_end_of_the_input_ends_the_output() {
    let nothing: Option<Result<Input<f64>, ()>> = None;
    assert_eq!(integrator().next(nothing, share), None);
}

#[test]
fn an_unreadable_row_yields_an_error() {
    let unreadable: Option<Result<Input<f64>, &str>> = Some(Err("not a row"));
    let item = integrator().next(unreadable, share).expect("one item for one row");
    let error = item.expect_err("the row was not read");
    assert_eq!(error, IntegrationError::MalformedInputRow);
    assert_eq!(error.input(), None);
    assert_eq!(error.message(), "Input contains data that can't be deserialized!");
}

#[test]
fn rows_are_joined_one_by_one_in_their_order() {
    let integrator = integrator();
    let rows: Vec<Result<Input<f64>, ()>> = vec![
        Ok(input("BER00002", "BER898", "IHG")),
        Ok(input("BER00002", "BER849", "MARR")),
        Err(()),
        Ok(Input { adults: 1, children: 1, ..input("BER00002", "BER898", "IHG") }),
    ];
    let mut items = Vec::new();
    for row in rows {
        items.push(integrator.next(Some(row), share).expect("one item for one row"));
    }
    assert_eq!(items.len(), 4);
    assert_eq!(items[0].as_ref().map(|output| output.price), Ok(30.0));
    assert!(matches!(items[1], Err(IntegrationError::MissingRoom { .. })));
    assert_eq!(items[2], Err(IntegrationError::MalformedInputRow));
    assert_eq!(items[3].as_ref().map(|output| (output.pax, output.price)), Ok((2, 45.0)));
}

#[test]
fn the_share_is_not_asked_for_a_row_that_fails() {
    let never = |_price: f64, _pax: u8| -> f64 { panic!("no price to share") };
    assert!(integrator().integrate(input("BER00002", "BER849", "MARR"), never).is_err());
    let empty = Input { adults: 0, children: 0, ..input("BER00002", "BER898", "IHG") };
    assert!(integrator().integrate(empty, never).is_err());
}
