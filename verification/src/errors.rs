//! What can go wrong while reference data is imported and while rows are joined.

use crate::entities::Input;
use vstd::prelude::*;
use vstd::string::*;

verus! {

/// One of the two tables of reference data.
#[derive(Clone, Copy, Debug, PartialEq, Eq)]
pub enum Table {
    Rooms,
    Hotels,
}

/// Why an import of reference data failed.
#[derive(Debug, PartialEq)]
pub enum ImportError {
    /// The file of the table is missing or cannot be read.
    InvalidPath { table: Table },
    /// A row of the rooms file is not a room.
    MalformedRoom,
    /// A line of the hotels file is not a hotel; `line` is that line.
    MalformedHotel { line: String },
}

impl ImportError {
    /// The text of [`ImportError::message`].
    pub open spec fn message_text(&self) -> Seq<char> {
        match self {
            ImportError::InvalidPath { table: Table::Rooms } => "Path to the rooms data is invalid!"@,
            ImportError::InvalidPath { table: Table::Hotels } => "Path to the hotels data is invalid!"@,
            ImportError::MalformedRoom => "Encountered unparsable entity during parsing rooms data."@,
            ImportError::MalformedHotel { line } =>
                "Encountered unparsable entity during parsing hotels data at line: "@ + line@,
        }
    }

    /// What went wrong, for a reader. For a hotel it ends with the offending line.
    pub fn message(&self) -> (text: String)
        ensures
            text@ == self.message_text(),
    {
        match self {
            ImportError::InvalidPath { table: Table::Rooms } => String::from_str(
                "Path to the rooms data is invalid!",
            ),
            ImportError::InvalidPath { table: Table::Hotels } => String::from_str(
                "Path to the hotels data is invalid!",
            ),
            ImportError::MalformedRoom => String::from_str(
                "Encountered unparsable entity during parsing rooms data.",
            ),
            ImportError::MalformedHotel { line } => {
                let mut text = String::from_str(
                    "Encountered unparsable entity during parsing hotels data at line: ",
                );
                text.append(line.as_str());
                text
            },
        }
    }
}

/// Why a booking row gave no enriched row. Where the row itself was read, the error
/// holds it.
#[derive(Debug, PartialEq)]
pub enum IntegrationError<P> {
    /// The row could not be read as a booking row.
    MalformedInputRow,
    /// No room is stored under the row's room key.
    MissingRoom { input: Input<P> },
    /// No hotel is stored under the row's hotel code.
    MissingHotel { input: Input<P> },
    /// Adults and children together are more than [`u8::MAX`].
    TooManyGuests { input: Input<P> },
    /// The row has no guest to share the price.
    NoGuests { input: Input<P> },
    /// The row checks in on the last day of the calendar.
    NoCheckout { input: Input<P> },
}

impl<P> IntegrationError<P> {
    /// What went wrong, in a few words.
    pub open spec fn headline(&self) -> Seq<char> {
        match self {
            IntegrationError::MalformedInputRow => "Input contains data that can't be deserialized!"@,
            IntegrationError::MissingRoom { .. } => "Input links to a non existent room"@,
            IntegrationError::MissingHotel { .. } => "Input links to a non existent hotel"@,
            IntegrationError::TooManyGuests { .. } => "Input counts more guests than a row can hold"@,
            IntegrationError::NoGuests { .. } => "Input has no guest to share the price"@,
            IntegrationError::NoCheckout { .. } => "Input checks in on the last day of the calendar"@,
        }
    }

    /// The row that the error is about, where it was read.
    pub open spec fn row(&self) -> Option<&Input<P>> {
        match self {
            IntegrationError::MalformedInputRow => None,
            IntegrationError::MissingRoom { input } => Some(input),
            IntegrationError::MissingHotel { input } => Some(input),
            IntegrationError::TooManyGuests { input } => Some(input),
            IntegrationError::NoGuests { input } => Some(input),
            IntegrationError::NoCheckout { input } => Some(input),
        }
    }

    /// Whether `text` is a message of the error: the headline, and behind it a colon, a
    /// space and the row where the error holds one.
    pub open spec fn is_message(&self, text: Seq<char>) -> bool {
        match self.row() {
            None => text == self.headline(),
            Some(_) => exists|row: Seq<char>| text == self.headline() + seq![':', ' '] + row,
        }
    }

    /// What went wrong, in a few words.
    fn title(&self) -> (text: String)
        ensures
            text@ == self.headline(),
    {
        match self {
            IntegrationError::MalformedInputRow => String::from_str(
                "Input contains data that can't be deserialized!",
            ),
            IntegrationError::MissingRoom { .. } => String::from_str(
                "Input links to a non existent room",
            ),
            IntegrationError::MissingHotel { .. } => String::from_str(
                "Input links to a non existent hotel",
            ),
            IntegrationError::TooManyGuests { .. } => String::from_str(
                "Input counts more guests than a row can hold",
            ),
            IntegrationError::NoGuests { .. } => String::from_str(
                "Input has no guest to share the price",
            ),
            IntegrationError::NoCheckout { .. } => String::from_str(
                "Input checks in on the last day of the calendar",
            ),
        }
    }

    /// The row that the error is about, where it was read.
    pub fn input(&self) -> (row: Option<&Input<P>>)
        ensures
            row == self.row(),
    {
        match self {
            IntegrationError::MalformedInputRow => None,
            IntegrationError::MissingRoom { input } => Some(input),
            IntegrationError::MissingHotel { input } => Some(input),
            IntegrationError::TooManyGuests { input } => Some(input),
            IntegrationError::NoGuests { input } => Some(input),
            IntegrationError::NoCheckout { input } => Some(input),
        }
    }
}

impl<P: core::fmt::Debug> IntegrationError<P> {
    /// What went wrong, for a reader: the headline, and behind it the row that the
    /// error is about, written out field by field.
    pub fn message(&self) -> (text: String)
        ensures
            self.is_message(text@),
    {
        let mut text = self.title();
        match self.input() {
            None => {},
            Some(input) => {
                proof {
                    reveal_strlit(": ");
                }
                let row = describe(input);
                text.append(": ");
                text.append(row.as_str());
                assert(text@ == self.headline() + seq![':', ' '] + row@);
            },
        }
        text
    }
}

/// Writes a row out with the `{:#?}` of `format!`, field by field. Nothing is claimed of
/// the text.
#[verifier::external_body]
fn describe<P: core::fmt::Debug>(input: &Input<P>) -> (text: String) {
    format!("{:#?}", input)
}

} // verus!
