//! The current local date, read from the system clock through chrono.
//!
//! Which date comes back depends on the wall clock, so nothing is promised
//! about the value beyond its well-formedness; everything that decides on the
//! date is a pure function that takes a [`Today`] as an argument.

use vstd::prelude::*;

use crate::dates::DateSpec;
use crate::dates::PlainDate;
use crate::dates::valid_date;
use chrono::Datelike;

verus! {

/// Mathematical model of the current day.
pub ghost struct TodaySpec {
    pub date: DateSpec,
    pub days_from_monday: int,
}

/// The current local date together with its day of the week
/// (0 = Monday .. 6 = Sunday).
#[derive(Clone, Copy, Debug, PartialEq, Eq, Structural)]
pub struct Today {
    pub date: PlainDate,
    pub days_from_monday: u32,
}

impl View for Today {
    type V = TodaySpec;

    open spec fn view(&self) -> TodaySpec {
        TodaySpec { date: self.date@, days_from_monday: self.days_from_monday as int }
    }
}

impl Today {
    pub open spec fn wf(self) -> bool {
        today_wf(self@)
    }
}

/// A well-formed current day: a valid calendar date, a day of the week below
/// 7, and a year within chrono's representable range.
pub open spec fn today_wf(t: TodaySpec) -> bool {
    &&& valid_date(t.date)
    &&& 0 <= t.days_from_monday < 7
    &&& -262_144 <= t.date.year <= 262_143
}

/// Relies on chrono's `Local::now`, `DateTime::date_naive` and the `Datelike`
/// accessors `year`, `month`, `day` and `weekday`: a `NaiveDate` always holds
/// a valid proleptic Gregorian calendar date whose year lies within chrono's
/// representable range, and `Weekday::num_days_from_monday` returns a number
/// below 7. Which date comes back depends on the system clock, so nothing
/// more is promised.
#[verifier::external_body]
pub(crate) fn today() -> (t: Today)
    ensures
        t.wf(),
{
    let now = chrono::Local::now().date_naive();
    Today {
        date: PlainDate { year: now.year(), month: now.month(), day: now.day() },
        days_from_monday: now.weekday().num_days_from_monday(),
    }
}

} // verus!
