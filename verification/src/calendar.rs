//! Calendar dates, as far as the rotation needs them.

use vstd::prelude::*;
use chrono::NaiveDate;

verus! {

/// What `chrono::NaiveDate::format` writes for the pattern `%b %d, %Y` on the
/// date that `chrono::NaiveDate::from_ymd_opt` makes of a year, a month and
/// a day; nothing where it makes no date of them.
pub uninterp spec fn date_label(year: i32, month: u32, day: u32) -> Option<Seq<char>>;

/// Makes a date with `chrono::NaiveDate::from_ymd_opt` and writes it with
/// `chrono::NaiveDate::format`, as month name, day and year. Nothing is
/// proved of either call: the contract only gives the result the name
/// above.
#[verifier::external_body]
fn format_date(year: i32, month: u32, day: u32) -> (label: Option<String>)
    ensures
        label.deep_view() == date_label(year, month, day),
{
    match NaiveDate::from_ymd_opt(year, month, day) {
        Some(date) => Some(date.format("%b %d, %Y").to_string()),
        None => None,
    }
}

/// A calendar date in the zone in which the rotation counts its days.
#[derive(Clone, Copy, Debug, PartialEq, Eq, Structural)]
pub struct CalendarDate {
    pub year: i32,
    pub month: u32,
    pub day: u32,
}

impl CalendarDate {
    /// Whether `self` is a strictly earlier day than `other`.
    pub open spec fn before(self, other: CalendarDate) -> bool {
        ||| self.year < other.year
        ||| (self.year == other.year && self.month < other.month)
        ||| (self.year == other.year && self.month == other.month && self.day < other.day)
    }

    /// Whether `self` is a strictly earlier day than `other`: the years are
    /// compared first, then the months, then the days.
    pub fn is_before(&self, other: &CalendarDate) -> (earlier: bool)
        ensures
            earlier == self.before(*other),
    {
        if self.year != other.year {
            self.year < other.year
        } else if self.month != other.month {
            self.month < other.month
        } else {
            self.day < other.day
        }
    }

    /// The date as the rotation writes it, where the calendar has such a
    /// day.
    pub fn label(&self) -> (label: Option<String>)
        ensures
            label.deep_view() == date_label(self.year, self.month, self.day),
    {
        format_date(self.year, self.month, self.day)
    }
}

} // verus!
