//! The built-in weekly timetable, used when the timetable service cannot be
//! reached.

use vstd::prelude::*;
use vstd::string::*;
use crate::clock::{Date, TimeOfDay, Weekday, weekday_of, weekday_on};
use crate::schedule::{
    BellEvent, BellView, DaySchedule, ScheduleView, WeekType, bells_view, lemma_adjacent_ordered,
    time_ordered,
};

verus! {

/// The bell named `label` that rings at `hour:min`.
pub open spec fn entry(label: Seq<char>, hour: int, min: int) -> BellView {
    BellView { label, time: TimeOfDay::at(hour, min, 0) }
}

/// The bells of a Monday or a Tuesday.
pub open spec fn monday_tuesday_bells() -> Seq<BellView> {
    seq![
        entry("Warning Bell"@, 9, 0),
        entry("Period 1"@, 9, 5),
        entry("Transition"@, 10, 5),
        entry("Period 2"@, 10, 10),
        entry("Lunch 1"@, 11, 10),
        entry("Lunch 2"@, 11, 30),
        entry("Period 3"@, 11, 50),
        entry("Transition"@, 12, 50),
        entry("Period 4"@, 12, 55),
        entry("Recess"@, 13, 55),
        entry("Period 5"@, 14, 15),
        entry("End of Day"@, 15, 15),
    ]
}

/// The bells of a Wednesday or a Thursday.
pub open spec fn wednesday_thursday_bells() -> Seq<BellView> {
    seq![
        entry("Warning Bell"@, 9, 0),
        entry("Period 1"@, 9, 5),
        entry("Transition"@, 10, 5),
        entry("Period 2"@, 10, 10),
        entry("Recess"@, 11, 10),
        entry("Period 3"@, 11, 30),
        entry("Lunch 1"@, 12, 30),
        entry("Lunch 2"@, 12, 50),
        entry("Period 4"@, 13, 10),
        entry("Transition"@, 14, 10),
        entry("Period 5"@, 14, 15),
        entry("End of Day"@, 15, 15),
    ]
}

/// The bells of a Friday: Scripture at 08:50, the warning bell at 09:25,
/// Period 1 at 09:30 and so on to the end of the day at 15:15.
///
/// The table is held to twelve bells, as on the other school days, and with
/// Scripture a Friday has one event more than that.  Which one to leave out
/// is a choice of this table and no rule of the school day: it is the
/// transition bell at 14:15 between Period 4 and Period 5.  Period 5 itself
/// rings at 14:20.
pub open spec fn friday_bells() -> Seq<BellView> {
    seq![
        entry("Scripture"@, 8, 50),
        entry("Warning Bell"@, 9, 25),
        entry("Period 1"@, 9, 30),
        entry("Transition"@, 10, 25),
        entry("Period 2"@, 10, 30),
        entry("Recess"@, 11, 25),
        entry("Period 3"@, 11, 45),
        entry("Lunch 1"@, 12, 40),
        entry("Lunch 2"@, 13, 0),
        entry("Period 4"@, 13, 20),
        entry("Period 5"@, 14, 20),
        entry("End of Day"@, 15, 15),
    ]
}

/// The bells of the built-in timetable on `day`: none at the weekend.
pub open spec fn offline_sequence(day: Weekday) -> Seq<BellView> {
    match day {
        Weekday::Mon | Weekday::Tue => monday_tuesday_bells(),
        Weekday::Wed | Weekday::Thu => wednesday_thursday_bells(),
        Weekday::Fri => friday_bells(),
        Weekday::Sat | Weekday::Sun => Seq::empty(),
    }
}

/// The schedule that the built-in timetable gives for the date `today`, which
/// falls on `day`.  The table knows no alterations, terms or rotations: the
/// schedule is unaltered, in term 1, week 1, of week type A.
pub open spec fn offline_view(today: Date, day: Weekday) -> ScheduleView {
    ScheduleView {
        status: "OK"@,
        altered_flag: false,
        altered_reason: ""@,
        bells: offline_sequence(day),
        date: today,
        day,
        term: 1,
        week: 1,
        week_type: WeekType::A,
    }
}

/// On each of the five school days the built-in timetable has twelve bells,
/// in the order of their times, the last at 15:15; at the weekend it has
/// none.  Monday to Thursday open at 09:00.  Friday opens with Scripture at
/// 08:50, followed by the warning bell at 09:25 and Period 1 at 09:30.
pub proof fn law_offline_sequences(day: Weekday)
    ensures
        day != Weekday::Sat && day != Weekday::Sun ==> offline_sequence(day).len() > 0,
        day == Weekday::Sat || day == Weekday::Sun ==> offline_sequence(day).len() == 0,
        time_ordered(offline_sequence(day)),
        day == Weekday::Mon || day == Weekday::Tue ==> offline_sequence(day).len() == 12
            && offline_sequence(day).first().time == TimeOfDay::at(9, 0, 0)
            && offline_sequence(day).last().time == TimeOfDay::at(15, 15, 0),
        day == Weekday::Wed || day == Weekday::Thu ==> offline_sequence(day).len() == 12
            && offline_sequence(day).first().time == TimeOfDay::at(9, 0, 0)
            && offline_sequence(day).last().time == TimeOfDay::at(15, 15, 0),
        day == Weekday::Fri ==> offline_sequence(day).len() == 12
            && offline_sequence(day)[0] == entry("Scripture"@, 8, 50)
            && offline_sequence(day)[1] == entry("Warning Bell"@, 9, 25)
            && offline_sequence(day)[2] == entry("Period 1"@, 9, 30)
            && offline_sequence(day).last() == entry("End of Day"@, 15, 15),
{
    lemma_adjacent_ordered(offline_sequence(day));
}

/// The bell named `label` that rings at `hour:min`.
fn bell(label: &str, hour: u32, min: u32) -> (r: BellEvent)
    requires
        hour < 24,
        min < 60,
    ensures
        r@ == entry(label@, hour as int, min as int),
{
    BellEvent { label: String::from_str(label), time: TimeOfDay::from_hms(hour, min, 0) }
}

/// The bells of a Monday or a Tuesday.
fn monday_tuesday() -> (bells: Vec<BellEvent>)
    ensures
        bells_view(bells@) == monday_tuesday_bells(),
{
    let mut bells: Vec<BellEvent> = Vec::new();
    bells.push(bell("Warning Bell", 9, 0));
    bells.push(bell("Period 1", 9, 5));
    bells.push(bell("Transition", 10, 5));
    bells.push(bell("Period 2", 10, 10));
    bells.push(bell("Lunch 1", 11, 10));
    bells.push(bell("Lunch 2", 11, 30));
    bells.push(bell("Period 3", 11, 50));
    bells.push(bell("Transition", 12, 50));
    bells.push(bell("Period 4", 12, 55));
    bells.push(bell("Recess", 13, 55));
    bells.push(bell("Period 5", 14, 15));
    bells.push(bell("End of Day", 15, 15));
    assert(bells_view(bells@) =~= monday_tuesday_bells());
    bells
}

/// The bells of a Wednesday or a Thursday.
fn wednesday_thursday() -> (bells: Vec<BellEvent>)
    ensures
        bells_view(bells@) == wednesday_thursday_bells(),
{
    let mut bells: Vec<BellEvent> = Vec::new();
    bells.push(bell("Warning Bell", 9, 0));
    bells.push(bell("Period 1", 9, 5));
    bells.push(bell("Transition", 10, 5));
    bells.push(bell("Period 2", 10, 10));
    bells.push(bell("Recess", 11, 10));
    bells.push(bell("Period 3", 11, 30));
    bells.push(bell("Lunch 1", 12, 30));
    bells.push(bell("Lunch 2", 12, 50));
    bells.push(bell("Period 4", 13, 10));
    bells.push(bell("Transition", 14, 10));
    bells.push(bell("Period 5", 14, 15));
    bells.push(bell("End of Day", 15, 15));
    assert(bells_view(bells@) =~= wednesday_thursday_bells());
    bells
}

/// The bells of a Friday.
fn friday() -> (bells: Vec<BellEvent>)
    ensures
        bells_view(bells@) == friday_bells(),
{
    let mut bells: Vec<BellEvent> = Vec::new();
    bells.push(bell("Scripture", 8, 50));
    bells.push(bell("Warning Bell", 9, 25));
    bells.push(bell("Period 1", 9, 30));
    bells.push(bell("Transition", 10, 25));
    bells.push(bell("Period 2", 10, 30));
    bells.push(bell("Recess", 11, 25));
    bells.push(bell("Period 3", 11, 45));
    bells.push(bell("Lunch 1", 12, 40));
    bells.push(bell("Lunch 2", 13, 0));
    bells.push(bell("Period 4", 13, 20));
    bells.push(bell("Period 5", 14, 20));
    bells.push(bell("End of Day", 15, 15));
    assert(bells_view(bells@) =~= friday_bells());
    bells
}

/// The bells of the built-in timetable on `day`.
pub fn offline_bells(day: Weekday) -> (bells: Vec<BellEvent>)
    ensures
        bells_view(bells@) == offline_sequence(day),
        bells@.len() == offline_sequence(day).len(),
{
    match day {
        Weekday::Mon | Weekday::Tue => monday_tuesday(),
        Weekday::Wed | Weekday::Thu => wednesday_thursday(),
        Weekday::Fri => friday(),
        Weekday::Sat | Weekday::Sun => {
            let bells: Vec<BellEvent> = Vec::new();
            assert(bells_view(bells@) =~= offline_sequence(day));
            bells
        },
    }
}

/// The schedule that the built-in timetable gives for the date `today`, which
/// falls on `day`.
pub fn offline_schedule_for(today: Date, day: Weekday) -> (schedule: DaySchedule)
    ensures
        schedule@ == offline_view(today, day),
{
    DaySchedule {
        status: String::from_str("OK"),
        altered_flag: false,
        altered_reason: String::from_str(""),
        bells: offline_bells(day),
        date: today,
        day,
        term: 1,
        week: 1,
        week_type: WeekType::A,
    }
}

/// The schedule that the built-in timetable gives for the date `today`, or
/// `None` where no weekday is known for that date.
pub fn offline_schedule(today: Date) -> (r: Option<DaySchedule>)
    ensures
        match weekday_on(today.days as int) {
            Some(day) => r is Some && r->Some_0@ == offline_view(today, day),
            None => r is None,
        },
{
    match weekday_of(today) {
        Some(day) => Some(offline_schedule_for(today, day)),
        None => None,
    }
}

} // verus!
