//! The notices that the engine raises: what is shown, never how.

use vstd::prelude::*;
use vstd::string::*;
use crate::schedule::{BellEvent, BellView, DaySchedule, ScheduleView};

verus! {

/// A notice for the user: a title and a body.
#[derive(Clone, Debug)]
pub struct Announcement {
    pub title: String,
    pub body: String,
}

/// A notice as a specification value.
pub struct AnnouncementView {
    pub title: Seq<char>,
    pub body: Seq<char>,
}

impl View for Announcement {
    type V = AnnouncementView;

    open spec fn view(&self) -> AnnouncementView {
        AnnouncementView { title: self.title@, body: self.body@ }
    }
}

/// The notices of a vector as specification values, in the same order.
pub open spec fn notices_view(notices: Seq<Announcement>) -> Seq<AnnouncementView> {
    Seq::new(notices.len(), |i: int| notices[i]@)
}

/// The notice shown once when the engine starts.
pub open spec fn startup_notice() -> AnnouncementView {
    AnnouncementView {
        title: "RunToClass | Active"@,
        body: "RunToClass is active and will notify you of school belltimes."@,
    }
}

/// The notice shown when the built-in timetable stands in for the service.
pub open spec fn offline_notice() -> AnnouncementView {
    AnnouncementView {
        title: "RunToClass | Offline Mode"@,
        body: "RunToClass cannot connect to the SBHS Student Portal API and will use offline mode. Keep in mind that you will not be notified of changed bell times this way."@,
    }
}

/// The notice shown for a day whose bells were altered for `reason`.
pub open spec fn deviation_notice(reason: Seq<char>) -> AnnouncementView {
    AnnouncementView {
        title: "RunToClass | Bells Changed"@,
        body: "The bell times have been changed for today. Reason: "@ + reason,
    }
}

/// The notice shown when `bell` rings: its label is the title.
pub open spec fn bell_notice(bell: BellView) -> AnnouncementView {
    AnnouncementView { title: bell.label, body: "This notification was sent by RunToClass."@ }
}

/// The deviation notice that `schedule` calls for: one if its bells were
/// altered, none otherwise.
pub open spec fn deviation_of(schedule: ScheduleView) -> Option<AnnouncementView> {
    if schedule.altered_flag {
        Some(deviation_notice(schedule.altered_reason))
    } else {
        None
    }
}

/// The notice shown once when the engine starts.
pub fn startup_announcement() -> (r: Announcement)
    ensures
        r@ == startup_notice(),
{
    Announcement {
        title: String::from_str("RunToClass | Active"),
        body: String::from_str("RunToClass is active and will notify you of school belltimes."),
    }
}

/// The notice shown when the built-in timetable stands in for the service.
pub fn offline_announcement() -> (r: Announcement)
    ensures
        r@ == offline_notice(),
{
    Announcement {
        title: String::from_str("RunToClass | Offline Mode"),
        body: String::from_str(
            "RunToClass cannot connect to the SBHS Student Portal API and will use offline mode. Keep in mind that you will not be notified of changed bell times this way.",
        ),
    }
}

/// The notice shown when `bell` rings.
pub fn bell_announcement(bell: &BellEvent) -> (r: Announcement)
    ensures
        r@ == bell_notice(bell@),
{
    Announcement {
        title: bell.label.clone(),
        body: String::from_str("This notification was sent by RunToClass."),
    }
}

/// The deviation notice that `schedule` calls for: exactly one, with the
/// reason at the end of its body, if the day's bells were altered; none
/// otherwise.
pub fn deviation_announcement(schedule: &DaySchedule) -> (r: Option<Announcement>)
    ensures
        r is Some <==> schedule.altered_flag,
        r is Some ==> r->Some_0@ == deviation_notice(schedule.altered_reason@),
        match deviation_of(schedule@) {
            Some(notice) => r is Some && r->Some_0@ == notice,
            None => r is None,
        },
{
    if schedule.altered_flag {
        let body = String::from_str("The bell times have been changed for today. Reason: ").concat(
            schedule.altered_reason.as_str(),
        );
        Some(Announcement { title: String::from_str("RunToClass | Bells Changed"), body })
    } else {
        None
    }
}

} // verus!
