//! The four files of a run.

use vstd::prelude::*;
use vstd::string::*;

verus! {

/// The paths of the files that a run reads and writes.
#[derive(Debug, PartialEq, Eq)]
pub struct Settings {
    /// The file of booking rows.
    pub input: String,
    /// The file that the enriched rows are written to; it is created where it is missing.
    pub output: String,
    /// The file of rooms.
    pub rooms: String,
    /// The file of hotels.
    pub hotels: String,
}

impl Default for Settings {
    /// The files of a run that names none: all four in the working directory.
    fn default() -> (settings: Settings)
        ensures
            settings.input@ == "input.csv"@,
            settings.output@ == "output.csv"@,
            settings.rooms@ == "room_names.csv"@,
            settings.hotels@ == "hotels.json"@,
    {
        Settings {
            input: String::from_str("input.csv"),
            output: String::from_str("output.csv"),
            rooms: String::from_str("room_names.csv"),
            hotels: String::from_str("hotels.json"),
        }
    }
}

} // verus!
