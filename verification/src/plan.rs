//! The plan for one day: which schedule is in force and which notices are
//! due before the first bell.

use vstd::prelude::*;
use crate::clock::{Date, Weekday, weekday_on};
use crate::notice::{
    Announcement, AnnouncementView, deviation_announcement, deviation_of, notices_view,
    offline_announcement, offline_notice,
};
use crate::offline::{offline_schedule, offline_view};
use crate::schedule::{DaySchedule, RawPayload, RawPayloadView, ScheduleView, normalize, normalized};

verus! {

/// Why a fetch of the day's timetable brought no payload.
#[derive(Clone, Copy, Debug, PartialEq, Eq, Structural)]
pub enum FetchError {
    /// The service could not be reached or did not answer.
    Transport,
    /// The service answered with something that is not a timetable.
    Deserialization,
}

/// The schedule of a day, whether it comes from the built-in timetable, and
/// the notices to show before its bells are scheduled.
#[derive(Clone, Debug)]
pub struct DayPlan {
    pub schedule: DaySchedule,
    pub offline: bool,
    pub notices: Vec<Announcement>,
}

/// A day's plan as a specification value.
pub struct PlanView {
    pub schedule: ScheduleView,
    pub offline: bool,
    pub notices: Seq<AnnouncementView>,
}

impl View for DayPlan {
    type V = PlanView;

    open spec fn view(&self) -> PlanView {
        PlanView {
            schedule: self.schedule@,
            offline: self.offline,
            notices: notices_view(self.notices@),
        }
    }
}

/// The plan for a day whose schedule the service delivered: the schedule as
/// it is, with the deviation notice if its bells were altered.
pub open spec fn remote_plan(schedule: ScheduleView) -> PlanView {
    PlanView {
        schedule,
        offline: false,
        notices: match deviation_of(schedule) {
            Some(notice) => seq![notice],
            None => Seq::empty(),
        },
    }
}

/// The plan for the date `today`, which falls on `day`, when the service
/// delivered nothing usable: the built-in timetable, with the offline notice.
pub open spec fn offline_plan(today: Date, day: Weekday) -> PlanView {
    PlanView { schedule: offline_view(today, day), offline: true, notices: seq![offline_notice()] }
}

/// The plan for `today` given the payload that the fetch brought, `None`
/// where it failed.  A payload that normalizes is used; a failed fetch and
/// a payload that does not normalize both fall back to the built-in
/// timetable.  There is no plan where the fallback is needed and no weekday
/// is known for `today`.
pub open spec fn planned(fetched: Option<RawPayloadView>, today: Date) -> Option<PlanView> {
    if fetched is Some && normalized(fetched->Some_0) is Ok {
        Some(remote_plan(normalized(fetched->Some_0)->Ok_0))
    } else {
        match weekday_on(today.days as int) {
            Some(day) => Some(offline_plan(today, day)),
            None => None,
        }
    }
}

/// The plan for a day whose schedule the service delivered.
pub fn plan_remote(schedule: DaySchedule) -> (plan: DayPlan)
    ensures
        plan@ == remote_plan(schedule@),
        plan.notices@.len() == (if schedule.altered_flag { 1nat } else { 0nat }),
{
    let mut notices: Vec<Announcement> = Vec::new();
    match deviation_announcement(&schedule) {
        Some(notice) => {
            notices.push(notice);
        },
        None => {},
    }
    assert(notices_view(notices@) =~= remote_plan(schedule@).notices);
    DayPlan { schedule, offline: false, notices }
}

/// The plan for `today` from the built-in timetable, or `None` where no
/// weekday is known for `today`.
pub fn plan_offline(today: Date) -> (r: Option<DayPlan>)
    ensures
        match weekday_on(today.days as int) {
            Some(day) => r is Some && r->Some_0@ == offline_plan(today, day),
            None => r is None,
        },
{
    match offline_schedule(today) {
        Some(schedule) => {
            let mut notices: Vec<Announcement> = Vec::new();
            notices.push(offline_announcement());
            assert(notices_view(notices@) =~= seq![offline_notice()]);
            Some(DayPlan { schedule, offline: true, notices })
        },
        None => None,
    }
}

/// The plan for `today` given the outcome of the fetch.  No fetch error is
/// fatal: each leads to the built-in timetable, as does a payload that does
/// not normalize.  The result is `None` only where that timetable is needed
/// and no weekday is known for `today`.
pub fn plan_day(fetched: Result<RawPayload, FetchError>, today: Date) -> (r: Option<DayPlan>)
    ensures
        match planned(
            match fetched {
                Ok(raw) => Some(raw@),
                Err(_) => None,
            },
            today,
        ) {
            Some(plan) => r is Some && r->Some_0@ == plan,
            None => r is None,
        },
{
    match fetched {
        Ok(raw) => match normalize(raw) {
            Ok(schedule) => Some(plan_remote(schedule)),
            Err(_) => plan_offline(today),
        },
        Err(_) => plan_offline(today),
    }
}

} // verus!
