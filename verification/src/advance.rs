//! The day advancer: when the day of a schedule is over.

use vstd::prelude::*;
use crate::clock::Date;

verus! {

/// What the caller does after it has sampled today's date.
#[derive(Clone, Copy, Debug, PartialEq, Eq, Structural)]
pub enum DayAction {
    /// The schedule's day is not over: sample again.
    KeepWaiting,
    /// The schedule's day is over: fetch the next schedule.
    Advance,
}

/// The action that follows a sample `today` while the schedule of
/// `schedule_date` is the current one.
pub open spec fn day_action(schedule_date: Date, today: Date) -> DayAction {
    if today.days > schedule_date.days {
        DayAction::Advance
    } else {
        DayAction::KeepWaiting
    }
}

/// Decides from one sample of today's date whether the day of the schedule
/// is over: it is once today is a later day, never on the day itself.
pub fn day_step(schedule_date: Date, today: Date) -> (action: DayAction)
    ensures
        action == day_action(schedule_date, today),
        action == DayAction::Advance <==> today.days >= schedule_date.days + 1,
        today == schedule_date ==> action == DayAction::KeepWaiting,
{
    if today.after(&schedule_date) {
        DayAction::Advance
    } else {
        DayAction::KeepWaiting
    }
}

/// Waits for the day after `schedule_date` on a clock that shows the dates
/// of `samples` one after the other.  Returns the position of the sample at
/// which the wait ends, or `None` if it has not ended when the samples run
/// out.
pub fn await_next_day(schedule_date: Date, samples: &Vec<Date>) -> (r: Option<usize>)
    ensures
        match r {
            Some(at) => {
                &&& at < samples@.len()
                &&& samples@[at as int].days >= schedule_date.days + 1
                &&& forall|j: int| 0 <= j < at ==> (#[trigger] samples@[j]).days <= schedule_date.days
            },
            None => forall|j: int|
                0 <= j < samples@.len() ==> (#[trigger] samples@[j]).days <= schedule_date.days,
        },
{
    let mut i: usize = 0;
    while i < samples.len()
        invariant
            i <= samples.len(),
            forall|j: int| 0 <= j < i ==> (#[trigger] samples@[j]).days <= schedule_date.days,
        decreases samples.len() - i,
    {
        match day_step(schedule_date, samples[i]) {
            DayAction::Advance => {
                return Some(i);
            },
            DayAction::KeepWaiting => {},
        }
        i += 1;
    }
    None
}

/// The wait for the next day ends at the first sample of a later day and at
/// no other: not while the clock still shows the schedule's own day or an
/// earlier one.
pub proof fn law_wait_ends_on_later_day(schedule_date: Date, samples: Seq<Date>, at: int)
    requires
        0 <= at < samples.len(),
        forall|j: int|
            0 <= j < at ==> day_action(schedule_date, #[trigger] samples[j])
                == DayAction::KeepWaiting,
        day_action(schedule_date, samples[at]) == DayAction::Advance,
    ensures
        samples[at].days >= schedule_date.days + 1,
        samples[at] != schedule_date,
        forall|j: int| 0 <= j < at ==> (#[trigger] samples[j]).days <= schedule_date.days,
{
    assert forall|j: int| 0 <= j < at implies (#[trigger] samples[j]).days <= schedule_date.days by {
        assert(day_action(schedule_date, samples[j]) == DayAction::KeepWaiting);
    }
}

} // verus!
