//! The failures that the serving engine reports.

use crate::json::{MappingError, TimeUnit};
use crate::text::{i128_to_string, int_text};
use vstd::prelude::*;
use vstd::string::*;

verus! {

/// Why a request could not be served.
#[derive(Debug, PartialEq)]
pub enum ServeError {
    /// A name holds a character other than a letter, a digit, `-` or `_`.
    InvalidIdentifier { name: String },
    /// No query has the requested name.
    QueryNotFound,
    /// The command of a source ended with a failure status.
    RefreshFailed { name: String, status: String, command: String, stderr: String },
    /// A value in the given column of a row has no JSON form.
    Mapping { column: usize, error: MappingError },
}

/// The message of a refresh failure.
pub open spec fn refresh_message(
    name: Seq<char>,
    status: Seq<char>,
    command: Seq<char>,
    stderr: Seq<char>,
) -> Seq<char> {
    "Error refreshing source `"@ + name + "` ("@ + status + ").\n\n$ "@ + command + "\n"@ + stderr
}

/// The name of a unit of time.
pub open spec fn unit_name(unit: TimeUnit) -> Seq<char> {
    match unit {
        TimeUnit::Second => "Second"@,
        TimeUnit::Millisecond => "Millisecond"@,
        TimeUnit::Microsecond => "Microsecond"@,
        TimeUnit::Nanosecond => "Nanosecond"@,
    }
}

/// What went wrong, followed by the unit and the amount that it went wrong
/// with.
pub open spec fn unit_amount_message(what: Seq<char>, unit: TimeUnit, amount: int) -> Seq<char> {
    what + " unit: "@ + unit_name(unit) + ", amount: "@ + int_text(amount)
}

/// The message of a mapping failure: what went wrong, and the value that
/// it went wrong with.
pub open spec fn mapping_message(error: MappingError) -> Seq<char> {
    match error {
        MappingError::Timestamp { unit, amount } => unit_amount_message(
            "Timestamp outside the representable range."@,
            unit,
            amount as int,
        ),
        MappingError::Date { days } => "Date outside the representable range. amount: "@
            + int_text(days as int),
        MappingError::Time { unit, amount } => unit_amount_message(
            "Value is no time of day."@,
            unit,
            amount as int,
        ),
        MappingError::MapKey => "Map key must be a scalar value"@,
        MappingError::Unsupported => "Value of an unsupported type"@,
    }
}

/// Writes what went wrong, followed by the unit and the amount.
fn write_unit_amount(what: &str, unit: TimeUnit, amount: i64) -> (text: String)
    ensures
        text@ == unit_amount_message(what@, unit, amount as int),
{
    let mut text = String::from_str(what);
    text.append(" unit: ");
    match unit {
        TimeUnit::Second => text.append("Second"),
        TimeUnit::Millisecond => text.append("Millisecond"),
        TimeUnit::Microsecond => text.append("Microsecond"),
        TimeUnit::Nanosecond => text.append("Nanosecond"),
    }
    text.append(", amount: ");
    text.append(i128_to_string(amount as i128).as_str());
    text
}

/// Writes the message of a mapping failure.
pub fn write_mapping_message(error: &MappingError) -> (text: String)
    ensures
        text@ == mapping_message(*error),
{
    match error {
        MappingError::Timestamp { unit, amount } => write_unit_amount(
            "Timestamp outside the representable range.",
            *unit,
            *amount,
        ),
        MappingError::Date { days } => {
            let mut text = String::from_str("Date outside the representable range. amount: ");
            text.append(i128_to_string(*days as i128).as_str());
            text
        },
        MappingError::Time { unit, amount } => write_unit_amount(
            "Value is no time of day.",
            *unit,
            *amount,
        ),
        MappingError::MapKey => String::from_str("Map key must be a scalar value"),
        MappingError::Unsupported => String::from_str("Value of an unsupported type"),
    }
}

impl ServeError {
    /// The text shown to whoever made the request.
    pub open spec fn message_text(self) -> Seq<char> {
        match self {
            ServeError::InvalidIdentifier { name } => "Invalid table name: "@ + name@,
            ServeError::QueryNotFound => "Query not found"@,
            ServeError::RefreshFailed { name, status, command, stderr } => refresh_message(
                name@,
                status@,
                command@,
                stderr@,
            ),
            ServeError::Mapping { column, error } => mapping_message(error),
        }
    }

    /// Writes the failure out.
    pub fn message(&self) -> (text: String)
        ensures
            text@ == self.message_text(),
    {
        match self {
            ServeError::InvalidIdentifier { name } => {
                let mut text = String::from_str("Invalid table name: ");
                text.append(name.as_str());
                text
            },
            ServeError::QueryNotFound => String::from_str("Query not found"),
            ServeError::RefreshFailed { name, status, command, stderr } => {
                let mut text = String::from_str("Error refreshing source `");
                text.append(name.as_str());
                text.append("` (");
                text.append(status.as_str());
                text.append(").\n\n$ ");
                text.append(command.as_str());
                text.append("\n");
                text.append(stderr.as_str());
                text
            },
            ServeError::Mapping { column, error } => write_mapping_message(error),
        }
    }
}

} // verus!
