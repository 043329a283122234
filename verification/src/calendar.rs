//! The calendar: which day it is after some days at sea.

use vstd::prelude::*;
use chrono::{Datelike, NaiveDate, TimeDelta};
use crate::model::GameDate;

verus! {

/// The calendar day that lies `days` days after the given one, as year, month
/// and day of the month. It is `None` where the given day does not exist, or
/// where the calendar that the game keeps cannot hold the result.
pub uninterp spec fn date_after(year: int, month: int, day: int, days: int) -> Option<(int, int, int)>;

impl GameDate {
    /// The day as year, month and day of the month.
    pub open spec fn ymd(self) -> (int, int, int) {
        (self.year as int, self.month as int, self.day as int)
    }

    /// The day that lies `days` days after this one, if the calendar holds it.
    pub open spec fn after(self, days: int) -> Option<(int, int, int)> {
        date_after(self.year as int, self.month as int, self.day as int, days)
    }
}

/// A day that may be missing, as year, month and day of the month.
pub open spec fn ymd_of(date: Option<GameDate>) -> Option<(int, int, int)> {
    match date {
        Some(d) => Some(d.ymd()),
        None => None,
    }
}

/// Calls `chrono::NaiveDate::checked_add_signed` on the day that
/// `chrono::NaiveDate::from_ymd_opt` makes of `date`, with the span that
/// `chrono::TimeDelta::try_days` makes of `days`. The contract claims that
/// the result is a function of the four numbers alone, which it names
/// `date_after`; it claims nothing about which day that is.
#[verifier::external_body]
pub(crate) fn days_later(date: GameDate, days: i64) -> (r: Option<GameDate>)
    ensures
        date_after(date.year as int, date.month as int, date.day as int, days as int) == ymd_of(r),
{
    let start = NaiveDate::from_ymd_opt(date.year, date.month, date.day)?;
    let end = start.checked_add_signed(TimeDelta::try_days(days)?)?;
    Some(GameDate { year: end.year(), month: end.month(), day: end.day() })
}

} // verus!
