use vstd::prelude::*;

use crate::date::{weekday_of, Date};

verus! {

/// The weekly schedule of a chain: for each weekday, whether a link is
/// expected on it. Any subset may be set, none included.
#[derive(Clone, Copy, Debug, PartialEq, Eq, Structural)]
pub struct Cadence {
    pub sunday: bool,
    pub monday: bool,
    pub tuesday: bool,
    pub wednesday: bool,
    pub thursday: bool,
    pub friday: bool,
    pub saturday: bool,
}

impl Cadence {
    /// Whether weekday `w` (0 for Sunday through 6 for Saturday) is expected.
    pub open spec fn expects_weekday(self, w: int) -> bool {
        if w == 0 {
            self.sunday
        } else if w == 1 {
            self.monday
        } else if w == 2 {
            self.tuesday
        } else if w == 3 {
            self.wednesday
        } else if w == 4 {
            self.thursday
        } else if w == 5 {
            self.friday
        } else {
            self.saturday
        }
    }

    /// Whether the day with day number `n` is an active day.
    pub open spec fn active_on(self, n: int) -> bool {
        self.expects_weekday(weekday_of(n))
    }

    /// Whether `date` is an active day under this cadence.
    pub fn is_active(&self, date: &Date) -> (r: bool)
        ensures
            r == self.active_on(date@),
    {
        let w = date.weekday();
        if w == 0 {
            self.sunday
        } else if w == 1 {
            self.monday
        } else if w == 2 {
            self.tuesday
        } else if w == 3 {
            self.wednesday
        } else if w == 4 {
            self.thursday
        } else if w == 5 {
            self.friday
        } else {
            self.saturday
        }
    }

    /// A cadence that expects every day of the week.
    pub fn every_day() -> (r: Cadence)
        ensures
            forall|w: int| 0 <= w < 7 ==> r.expects_weekday(w),
    {
        Cadence {
            sunday: true,
            monday: true,
            tuesday: true,
            wednesday: true,
            thursday: true,
            friday: true,
            saturday: true,
        }
    }
}

} // verus!
