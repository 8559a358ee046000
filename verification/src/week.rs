//! Temperatures recorded over one week, one slot per weekday.

use vstd::prelude::*;

verus! {

#[derive(Debug, Clone)]
pub struct WeekTemperatures {
    pub days: [Option<i32>; 7],
}

#[derive(Debug, Clone, PartialEq)]
pub enum Weekday {
    Sunday,
    Monday,
    Tuesday,
    Wednesday,
    Thursday,
    Friday,
    Saturday,
}

/// The slot of a weekday: Sunday is 0, Saturday is 6.
pub open spec fn day_index(day: Weekday) -> int {
    match day {
        Weekday::Sunday => 0,
        Weekday::Monday => 1,
        Weekday::Tuesday => 2,
        Weekday::Wednesday => 3,
        Weekday::Thursday => 4,
        Weekday::Friday => 5,
        Weekday::Saturday => 6,
    }
}

pub fn weekday_to_idx(day: Weekday) -> (idx: usize)
    ensures
        idx == day_index(day),
        idx < 7,
{
    match day {
        Weekday::Sunday => 0,
        Weekday::Monday => 1,
        Weekday::Tuesday => 2,
        Weekday::Wednesday => 3,
        Weekday::Thursday => 4,
        Weekday::Friday => 5,
        Weekday::Saturday => 6,
    }
}

impl WeekTemperatures {
    /// What is recorded for `day`, if anything.
    pub open spec fn temperature(&self, day: Weekday) -> Option<i32> {
        self.days@[day_index(day)]
    }

    /// A week with nothing recorded.
    pub fn new() -> (week: Self)
        ensures
            forall|day: Weekday| week.temperature(day) == None::<i32>,
    {
        Self { days: [None; 7] }
    }

    pub fn get_temperature(&self, day: Weekday) -> (temperature: Option<i32>)
        ensures
            temperature == self.temperature(day),
    {
        self.days[weekday_to_idx(day)]
    }

    /// Records `temperature` for `day`, replacing what was there; the other
    /// days keep what they had.
    pub fn set_temperature(&mut self, day: Weekday, temperature: i32)
        ensures
            final(self).days@ == old(self).days@.update(day_index(day), Some(temperature)),
            final(self).temperature(day) == Some(temperature),
            forall|other: Weekday|
                other != day ==> final(self).temperature(other) == old(self).temperature(other),
    {
        self.days[weekday_to_idx(day)] = Some(temperature);
    }
}

} // verus!
