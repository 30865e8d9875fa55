//! The wall clock, as far as the library needs it.

use vstd::prelude::*;
use chrono::Datelike;

verus! {

/// A day of the calendar.
#[derive(Clone, Copy, Debug, PartialEq, Eq, Structural)]
pub struct CalendarDate {
    pub year: i32,
    pub month: u32,
    pub day: u32,
}

impl CalendarDate {
    /// The month is one of twelve and the day one of at most thirty-one.
    pub open spec fn wf(self) -> bool {
        1 <= self.month <= 12 && 1 <= self.day <= 31
    }
}

/// `chrono::Local::now`, read through `Datelike::year`, `month` and `day`:
/// today's date in the machine's time zone. Nothing is claimed of which day
/// it is, only that the month and the day lie in the ranges that chrono
/// documents for them. On a machine whose clock stands before 1970 chrono
/// stops the program.
#[verifier::external_body]
pub(crate) fn today() -> (date: CalendarDate)
    ensures
        date.wf(),
{
    let now = chrono::Local::now();
    CalendarDate { year: now.year(), month: now.month(), day: now.day() }
}

/// `chrono::Utc::now` followed by `DateTime::timestamp`: the seconds since
/// the Unix epoch. Nothing is claimed of the number. On a machine whose
/// clock stands before 1970 chrono stops the program.
#[verifier::external_body]
pub(crate) fn unix_now() -> (seconds: i64) {
    chrono::Utc::now().timestamp()
}

} // verus!
