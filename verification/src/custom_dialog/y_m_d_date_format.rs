//! The format in which a layout writes a date: year, month and day with
//! hyphens between them, whatever format the field shows its date in.

use crate::date::{layout_format, parsed_date, Date, DateParseError};
use vstd::prelude::*;

verus! {

/// Reads the date of a calendar field from the text that the layout holds.
pub fn deserialize(text: &str) -> (date: Result<Date, DateParseError>)
    ensures
        match date {
            Ok(read) => parsed_date(text@, layout_format()) == Some(read@),
            Err(_) => parsed_date(text@, layout_format()) is None,
        },
{
    Date::parse_from_layout(text)
}

} // verus!
