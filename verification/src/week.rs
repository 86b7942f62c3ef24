use vstd::prelude::*;

verus! {

/// The days of a week, Monday first.
#[derive(Copy, Clone, Debug, PartialEq, Eq, Structural)]
pub enum Weekday {
    Monday,
    Tuesday,
    Wednesday,
    Thursday,
    Friday,
    Saturday,
    Sunday,
}

/// Position of a day in the week, Monday being 0.
pub open spec fn day_index(day: Weekday) -> int {
    match day {
        Weekday::Monday => 0,
        Weekday::Tuesday => 1,
        Weekday::Wednesday => 2,
        Weekday::Thursday => 3,
        Weekday::Friday => 4,
        Weekday::Saturday => 5,
        Weekday::Sunday => 6,
    }
}

impl Weekday {
    /// Position of the day in the week, Monday being 0.
    pub fn index(self) -> (i: usize)
        ensures
            i == day_index(self),
            i < 7,
    {
        match self {
            Weekday::Monday => 0,
            Weekday::Tuesday => 1,
            Weekday::Wednesday => 2,
            Weekday::Thursday => 3,
            Weekday::Friday => 4,
            Weekday::Saturday => 5,
            Weekday::Sunday => 6,
        }
    }
}

/// One optional temperature per day of a week.
pub struct WeekTemperatures {
    temp: [Option<i32>; 7],
}

impl View for WeekTemperatures {
    type V = Seq<Option<i32>>;

    /// The recorded temperatures, Monday first.
    closed spec fn view(&self) -> Seq<Option<i32>> {
        self.temp@
    }
}

impl WeekTemperatures {
    /// Every week holds exactly seven entries.
    pub proof fn lemma_seven_days(&self)
        ensures
            self@.len() == 7,
    {
    }

    /// A week with no temperature recorded.
    pub fn new() -> (week: Self)
        ensures
            week@.len() == 7,
            forall|i: int| 0 <= i < 7 ==> week@[i] is None,
    {
        let week = WeekTemperatures { temp: [None, None, None, None, None, None, None] };
        week
    }

    /// The temperature recorded for `day`, if any.
    pub fn get_temperature(&self, day: Weekday) -> (t: Option<i32>)
        ensures
            t == self@[day_index(day)],
    {
        self.temp[day.index()]
    }

    /// Records `temperature` for `day`, replacing any earlier value of that day.
    pub fn set_temperature(&mut self, day: Weekday, temperature: i32)
        ensures
            final(self)@.len() == 7,
            final(self)@ == old(self)@.update(day_index(day), Some(temperature)),
    {
        self.temp[day.index()] = Some(temperature);
    }
}

/// Reading a day gives back the temperature last set for it, and setting a
/// day leaves every other day as it was.
pub proof fn law_set_then_get(before: Seq<Option<i32>>, day: Weekday, other: Weekday, temperature: i32)
    requires
        before.len() == 7,
        other != day,
    ensures
        before.update(day_index(day), Some(temperature))[day_index(day)] == Some(temperature),
        before.update(day_index(day), Some(temperature))[day_index(other)] == before[day_index(other)],
{
}

/// The days in the order of the week, Monday first.
pub open spec fn week_order() -> Seq<Weekday> {
    seq![
        Weekday::Monday,
        Weekday::Tuesday,
        Weekday::Wednesday,
        Weekday::Thursday,
        Weekday::Friday,
        Weekday::Saturday,
        Weekday::Sunday,
    ]
}

/// Each day's position is its place in the week: Monday is 0 and every day
/// comes one after the day before it, up to Sunday at 6; every day has its
/// place.
pub proof fn law_days_in_week_order(day: Weekday)
    ensures
        forall|i: int| 0 <= i < 7 ==> day_index(#[trigger] week_order()[i]) == i,
        exists|i: int| 0 <= i < 7 && week_order()[i] == day,
        0 <= day_index(day) < 7,
        week_order()[day_index(day)] == day,
{
    assert forall|i: int| 0 <= i < 7 implies day_index(#[trigger] week_order()[i]) == i by {
        if i == 0 {} else if i == 1 {} else if i == 2 {} else if i == 3 {} else if i == 4 {} else if i == 5 {} else {}
    }
    assert(week_order()[day_index(day)] == day);
}

} // verus!
