//! Points in time as the registry stores them, and their text in listings.

use vstd::prelude::*;

verus! {

/// Pattern of the time column: date and time of day, to the second.
pub const DATETIME_FORMAT: &'static str = "%Y-%m-%d %H:%M:%S";

/// A point in time on the UTC scale: whole seconds since 1970-01-01 00:00:00
/// and the nanoseconds past that second.
#[derive(Clone, Copy, Debug, PartialEq, Eq, Structural)]
pub struct Timestamp {
    pub secs: i64,
    pub nanos: u32,
}

/// Text that chrono's `DateTime::<Utc>::format` gives for the moment `secs`,
/// `nanos` under the strftime-style `pattern`.  `None` where chrono's calendar
/// has no such moment or the pattern holds an item it cannot format.
pub uninterp spec fn formatted_utc(secs: i64, nanos: u32, pattern: Seq<char>) -> Option<Seq<char>>;

/// `formatted` where there is text, empty text where there is none.
pub open spec fn text_or_empty(formatted: Option<Seq<char>>) -> Seq<char> {
    match formatted {
        Some(text) => text,
        None => Seq::empty(),
    }
}

/// Text of the moment `at` in the time column of a listing.
pub open spec fn time_text(at: Timestamp) -> Seq<char> {
    text_or_empty(formatted_utc(at.secs, at.nanos, DATETIME_FORMAT@))
}

/// Builds the moment with chrono's `DateTime::from_timestamp` and writes it
/// with `DateTime::format` and `DelayedFormat::write_to`.  The result is the
/// text that `formatted_utc` names; both steps report failure as a value, so
/// the call returns on every input.
#[verifier::external_body]
pub(crate) fn format_utc(at: Timestamp, pattern: &str) -> (formatted: Option<String>)
    ensures
        match formatted {
            Some(text) => formatted_utc(at.secs, at.nanos, pattern@) == Some(text@),
            None => formatted_utc(at.secs, at.nanos, pattern@) is None,
        },
{
    let moment = chrono::DateTime::from_timestamp(at.secs, at.nanos)?;
    let mut text = String::new();
    moment.format(pattern).write_to(&mut text).ok()?;
    Some(text)
}

/// The cell that a listing shows for `formatted`: the text, or an empty cell
/// for a moment that could not be written.
pub fn cell_text(formatted: Option<String>) -> (cell: String)
    ensures
        cell@ == match formatted {
            Some(text) => text@,
            None => Seq::<char>::empty(),
        },
{
    match formatted {
        Some(text) => text,
        None => String::new(),
    }
}

impl Timestamp {
    /// The moment as a listing shows it.
    pub fn to_text(&self) -> (text: String)
        ensures
            text@ == time_text(*self),
    {
        cell_text(format_utc(*self, DATETIME_FORMAT))
    }
}

} // verus!
