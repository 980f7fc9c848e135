use std::path::Path;

use anyhow::Result;
use axiv::DataSource;

fn mock_data(_path: &Path) -> Result<Vec<(String, usize)>> {
    Ok(vec![
        (String::from("one"), 1),
        (String::from("two"), 2),
        (String::from("three"), 3),
        (String::from("four"), 4),
        (String::from("five"), 5),
    ])
}

#[test]
fn import_from() -> Result<()> {
    let mut data_source: DataSource<usize> = DataSource::new();
    data_source.import_from(Path::new("some_path"), &mock_data)?;
    assert_eq!(data_source.len(), 5);
    Ok(())
}

#[test]
fn find() -> Result<()> {
    let mut data_source: DataSource<usize> = DataSource::new();
    data_source.import_from(Path::new("some_path"), &mock_data)?;

    assert_eq!(
        data_source
            .find(&String::from("one"))
            .expect("Unable to find item in data source for given key!"),
        &1
    );
    assert_eq!(
        data_source
            .find(&String::from("two"))
            .expect("Unable to find item in data source for given key!"),
        &2
    );
    assert_eq!(
        data_source
            .find(&String::from("three"))
            .expect("Unable to find item in data source for given key!"),
        &3
    );
    assert_eq!(
        data_source
            .find(&String::from("four"))
            .expect("Unable to find item in data source for given key!"),
        &4
    );
    assert_eq!(
        data_source
            .find(&String::from("five"))
            .expect("Unable to find item in data source for given key!"),
        &5
    );

    Ok(())
}

fn numbers(entries: &[(&str, usize)]) -> Vec<(String, usize)> {
    entries.iter().map(|(key, item)| (String::from(*key), *item)).collect()
}

#[test]
fn a_new_source_is_empty() {
    let data_source: DataSource<usize> = DataSource::new();
    assert_eq!(data_source.len(), 0);
    assert_eq!(data_source.find(&String::from("one")), None);
}

#[test]
fn a_key_that_was_not_imported_is_not_found() {
    let mut data_source: DataSource<usize> = DataSource::new();
    data_source.extend(numbers(&[("one", 1), ("two", 2)]));
    assert_eq!(data_source.find(&String::from("three")), None);
    assert_eq!(data_source.find(&String::from("One")), None);
    assert_eq!(data_source.find(&String::from("")), None);
}

#[test]
fn the_later_entry_replaces_the_earlier() {
    let mut data_source: DataSource<usize> = DataSource::new();
    data_source.extend(numbers(&[("one", 1), ("two", 2), ("one", 3)]));
    assert_eq!(data_source.len(), 2);
    assert_eq!(data_source.find(&String::from("one")), Some(&3));
    assert_eq!(data_source.find(&String::from("two")), Some(&2));
    data_source.extend(numbers(&[("two", 4), ("three", 5)]));
    assert_eq!(data_source.len(), 3);
    assert_eq!(data_source.find(&String::from("one")), Some(&3));
    assert_eq!(data_source.find(&String::from("two")), Some(&4));
    assert_eq!(data_source.find(&String::from("three")), Some(&5));
}

#[test]
fn a_failed_import_leaves_the_source_as_it_was() {
    let mut data_source: DataSource<usize> = DataSource::new();
    data_source.extend(numbers(&[("one", 1)]));
    let failed = data_source.import_from("nowhere", |origin: &str| {
        Err::<Vec<(String, usize)>, String>(format!("nothing at {}", origin))
    });
    assert_eq!(failed, Err(String::from("nothing at nowhere")));
    assert_eq!(data_source.len(), 1);
    assert_eq!(data_source.find(&String::from("one")), Some(&1));
}

#[test]
fn the_reader_is_handed_the_origin() {
    let mut data_source: DataSource<usize> = DataSource::new();
    let read = data_source.import_from(7usize, |count: usize| {
        Ok::<Vec<(String, usize)>, ()>((0..count).map(|n| (n.to_string(), n * n)).collect())
    });
    assert_eq!(read, Ok(()));
    assert_eq!(data_source.len(), 7);
    assert_eq!(data_source.find(&String::from("6")), Some(&36));
}

#[test]
fn a_malformed_file_leaves_the_source_empty() {
    let mut rooms: DataSource<axiv::Room> = DataSource::new();
    let failed = rooms.import_from(Some("a|b|c|d\ne|f\n"), axiv::rooms_reader);
    assert_eq!(failed, Err(axiv::ImportError::MalformedRoom));
    assert_eq!(rooms.len(), 0);
    let missing = rooms.import_from(None, axiv::rooms_reader);
    assert_eq!(missing, Err(axiv::ImportError::InvalidPath { table: axiv::Table::Rooms }));
    assert_eq!(rooms.len(), 0);
    assert_eq!(rooms.import_from(Some("a|b|c|d\ne|f|g|h\n"), axiv::rooms_reader), Ok(()));
    assert_eq!(rooms.len(), 2);
    assert_eq!(rooms.find(&String::from("e-f-g")).map(|room| room.room_name.as_str()), Some("h"));
}
