//! Enrichment of partial hotel-booking rows with reference data on rooms and
//! hotels, looked up by text keys.

pub mod custom_date;
pub mod data_source;
pub mod date;
pub mod entities;
pub mod errors;
pub mod integrator;
pub mod json;
pub mod readers;
pub mod settings;

pub use crate::data_source::{DataSource, HotelDataSource, RoomDataSource};
pub use crate::date::Date;
pub use crate::entities::{generate_room_key, Hotel, Input, Output, PeopleAmount, Room};
pub use crate::errors::{ImportError, IntegrationError, Table};
pub use crate::integrator::DataIntegrator;
pub use crate::readers::{hotels_reader, rooms_reader};
pub use crate::settings::Settings;
