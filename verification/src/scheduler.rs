//! The bell scheduler: a state machine that is fed samples of the wall clock
//! and answers each with what to do about the bell it is waiting on.
//!
//! The scheduler never waits itself.  Whoever drives it samples the clock,
//! calls [`step`], performs the action and samples again.

use vstd::prelude::*;
use crate::clock::TimeOfDay;
use crate::notice::bell_notice;
use crate::schedule::{BellEvent, BellView, bells_view, time_ordered};

verus! {

/// Where the scheduler stands in the day's bells.
#[derive(Clone, Copy, Debug, PartialEq, Eq, Structural)]
pub enum SchedulerState {
    /// Waiting on the bell at position `bell`.  `polling` is set once a
    /// sample has shown that the bell was not yet past, so that it will be
    /// announced however late the next sample comes.
    Waiting { bell: usize, polling: bool },
    /// Every bell has been announced or skipped.
    Done,
}

/// What the driver does after a sample.
#[derive(Clone, Copy, Debug, PartialEq, Eq, Structural)]
pub enum Action {
    /// The bell was already past: nothing is shown.
    Skip { bell: usize },
    /// The bell's time has not come: sample again, at that time or later.
    Wait { bell: usize },
    /// The bell's time has come: announce it.
    Announce { bell: usize },
    /// No bell is left.
    Finish,
}

/// One announcement of a run: the bell, and the sample that set it off.
#[derive(Clone, Copy, Debug, PartialEq, Eq, Structural)]
pub struct Firing {
    pub bell: usize,
    pub sample: usize,
}

/// The state in which a day of `count` bells begins.
pub open spec fn start_state(count: nat) -> SchedulerState {
    if count == 0 {
        SchedulerState::Done
    } else {
        SchedulerState::Waiting { bell: 0, polling: false }
    }
}

/// The state that follows once the bell at position `bell` is dealt with.
pub open spec fn state_after(bell: usize, count: nat) -> SchedulerState {
    if bell + 1 < count {
        SchedulerState::Waiting { bell: (bell + 1) as usize, polling: false }
    } else {
        SchedulerState::Done
    }
}

/// The number of bells that are dealt with in `state`.
pub open spec fn cursor(state: SchedulerState, count: nat) -> nat {
    match state {
        SchedulerState::Waiting { bell, .. } => if bell < count {
            bell as nat
        } else {
            count
        },
        SchedulerState::Done => count,
    }
}

/// The transition rule.  A bell that the scheduler has just turned to is
/// skipped if the sample is strictly after its time; otherwise it is
/// announced as soon as a sample is at its time or after it, and until then
/// the scheduler waits.
pub open spec fn step_spec(state: SchedulerState, bells: Seq<BellView>, now: TimeOfDay) -> (
    SchedulerState,
    Action,
) {
    match state {
        SchedulerState::Done => (SchedulerState::Done, Action::Finish),
        SchedulerState::Waiting { bell, polling } => {
            if bell >= bells.len() {
                (SchedulerState::Done, Action::Finish)
            } else if !polling && now.is_after(bells[bell as int].time) {
                (state_after(bell, bells.len()), Action::Skip { bell })
            } else if now.has_reached(bells[bell as int].time) {
                (state_after(bell, bells.len()), Action::Announce { bell })
            } else {
                (SchedulerState::Waiting { bell, polling: true }, Action::Wait { bell })
            }
        },
    }
}

/// The firing that `action` stands for when the sample at position `sample`
/// set it off, as a sequence of one or none.
pub open spec fn fired(action: Action, sample: int) -> Seq<Firing> {
    match action {
        Action::Announce { bell } => seq![Firing { bell, sample: sample as usize }],
        _ => Seq::empty(),
    }
}

/// The bell that `action` passes over, as a sequence of one or none.
pub open spec fn passed_over(action: Action) -> Seq<usize> {
    match action {
        Action::Skip { bell } => seq![bell],
        _ => Seq::empty(),
    }
}

/// What a run comes to: the state reached, the firings made and the bells
/// skipped, each in the order in which it happened.
pub struct Run {
    pub state: SchedulerState,
    pub firings: Seq<Firing>,
    pub skipped: Seq<usize>,
}

/// A whole run: what it comes to when a fresh scheduler is fed `samples` one
/// after the other.
pub open spec fn run_spec(bells: Seq<BellView>, samples: Seq<TimeOfDay>) -> Run
    decreases samples.len(),
{
    if samples.len() == 0 {
        Run { state: start_state(bells.len()), firings: Seq::empty(), skipped: Seq::empty() }
    } else {
        let before = run_spec(bells, samples.drop_last());
        let stepped = step_spec(before.state, bells, samples.last());
        Run {
            state: stepped.0,
            firings: before.firings + fired(stepped.1, samples.len() - 1),
            skipped: before.skipped + passed_over(stepped.1),
        }
    }
}

/// The outcome of a run on a simulated clock.
#[derive(Clone, Debug)]
pub struct RunReport {
    pub state: SchedulerState,
    pub firings: Vec<Firing>,
    pub skipped: Vec<usize>,
}

impl View for RunReport {
    type V = Run;

    open spec fn view(&self) -> Run {
        Run { state: self.state, firings: self.firings@, skipped: self.skipped@ }
    }
}

/// The state in which the day of `bells` begins: waiting on the first bell,
/// or done at once where there is none.
pub fn start(bells: &Vec<BellEvent>) -> (state: SchedulerState)
    ensures
        state == start_state(bells@.len()),
{
    if bells.len() == 0 {
        SchedulerState::Done
    } else {
        SchedulerState::Waiting { bell: 0, polling: false }
    }
}

/// Answers one sample `now` of the wall clock: the next state and what the
/// driver is to do.
pub fn step(state: SchedulerState, bells: &Vec<BellEvent>, now: TimeOfDay) -> (r: (
    SchedulerState,
    Action,
))
    ensures
        r == step_spec(state, bells_view(bells@), now),
        r.1 matches Action::Announce { bell } ==> bell < bells@.len() && now.has_reached(
            bells@[bell as int].time,
        ) && state == (SchedulerState::Waiting { bell, polling: state->polling }),
        r.1 matches Action::Skip { bell } ==> bell < bells@.len() && now.is_after(
            bells@[bell as int].time,
        ),
        r.1 matches Action::Wait { bell } ==> bell < bells@.len() && !now.has_reached(
            bells@[bell as int].time,
        ) && r.0 == (SchedulerState::Waiting { bell, polling: true }),
        cursor(state, bells@.len()) <= cursor(r.0, bells@.len()) <= cursor(state, bells@.len()) + 1,
{
    match state {
        SchedulerState::Done => (SchedulerState::Done, Action::Finish),
        SchedulerState::Waiting { bell, polling } => {
            if bell >= bells.len() {
                return (SchedulerState::Done, Action::Finish);
            }
            let due = bells[bell].time;
            let next = if bell + 1 < bells.len() {
                SchedulerState::Waiting { bell: bell + 1, polling: false }
            } else {
                SchedulerState::Done
            };
            if !polling && now.after(&due) {
                (next, Action::Skip { bell })
            } else if now.reached(&due) {
                (next, Action::Announce { bell })
            } else {
                (SchedulerState::Waiting { bell, polling: true }, Action::Wait { bell })
            }
        },
    }
}

/// The whole seconds from `now` to `due`, and one second where `due` is less
/// than a second away or past.
pub open spec fn wait_spec(now: TimeOfDay, due: TimeOfDay) -> int {
    if due.secs - now.secs >= 1 {
        due.secs - now.secs
    } else {
        1
    }
}

/// How many seconds a driver sleeps after `Action::Wait` before it samples
/// the clock again: the whole seconds from `now` to the bell's time `due`,
/// and never less than one.
pub fn seconds_to_wait(now: TimeOfDay, due: TimeOfDay) -> (seconds: u64)
    ensures
        seconds == wait_spec(now, due),
        seconds >= 1,
{
    if due.secs > now.secs {
        let whole: u32 = due.secs - now.secs;
        whole as u64
    } else {
        1
    }
}

/// Runs a fresh scheduler on a clock that shows the times of `samples` one
/// after the other, and reports the state reached, the firings made and the
/// bells skipped.
pub fn run(bells: &Vec<BellEvent>, samples: &Vec<TimeOfDay>) -> (report: RunReport)
    ensures
        report@ == run_spec(bells_view(bells@), samples@),
{
    let mut state = start(bells);
    let mut firings: Vec<Firing> = Vec::new();
    let mut skipped: Vec<usize> = Vec::new();
    let mut i: usize = 0;
    assert(samples@.take(0) =~= Seq::empty());
    while i < samples.len()
        invariant
            i <= samples.len(),
            (Run { state, firings: firings@, skipped: skipped@ }) == run_spec(
                bells_view(bells@),
                samples@.take(i as int),
            ),
        decreases samples.len() - i,
    {
        let (next, action) = step(state, bells, samples[i]);
        proof {
            let taken = samples@.take(i + 1);
            assert(taken.drop_last() =~= samples@.take(i as int));
            assert(taken.last() == samples@[i as int]);
        }
        let ghost fired_before = firings@;
        let ghost skipped_before = skipped@;
        match action {
            Action::Announce { bell } => {
                firings.push(Firing { bell, sample: i });
            },
            Action::Skip { bell } => {
                skipped.push(bell);
            },
            _ => {},
        }
        assert(firings@ =~= fired_before + fired(action, i as int));
        assert(skipped@ =~= skipped_before + passed_over(action));
        state = next;
        i += 1;
    }
    assert(samples@.take(samples@.len() as int) =~= samples@);
    RunReport { state, firings, skipped }
}

/// The times at which the bells of `bells` ring, in the same order.
pub open spec fn bell_times(bells: Seq<BellView>) -> Seq<TimeOfDay> {
    Seq::new(bells.len(), |i: int| bells[i].time)
}

/// The firings of a run in which every bell is announced at the sample that
/// follows the opening one: bell `i` at sample `i + 1`.
pub open spec fn every_bell_once(count: nat) -> Seq<Firing> {
    Seq::new(count, |i: int| Firing { bell: i as usize, sample: (i + 1) as usize })
}

/// The first `count` positions of a sequence of bells, in order.
pub open spec fn first_bells(count: nat) -> Seq<usize> {
    Seq::new(count, |i: int| i as usize)
}

/// A scheduler that starts when every bell is already past skips them all:
/// whatever the samples, if each is strictly after each bell's time, nothing
/// is announced, each sample skips the next bell, and after as many samples
/// as there are bells the scheduler is done with every bell skipped.
pub proof fn law_late_start_skips_every_bell(bells: Seq<BellView>, samples: Seq<TimeOfDay>)
    requires
        bells.len() <= usize::MAX,
        forall|k: int, i: int|
            0 <= k < samples.len() && 0 <= i < bells.len() ==> (#[trigger] samples[k]).is_after(
                (#[trigger] bells[i]).time,
            ),
    ensures
        run_spec(bells, samples).firings == Seq::<Firing>::empty(),
        samples.len() >= bells.len() ==> run_spec(bells, samples).state == SchedulerState::Done
            && run_spec(bells, samples).skipped == first_bells(bells.len()),
        samples.len() < bells.len() ==> run_spec(bells, samples).state == (
        SchedulerState::Waiting { bell: samples.len() as usize, polling: false })
            && run_spec(bells, samples).skipped == first_bells(samples.len()),
    decreases samples.len(),
{
    if samples.len() > 0 {
        let earlier = samples.drop_last();
        assert forall|k: int, i: int|
            0 <= k < earlier.len() && 0 <= i < bells.len() implies (#[trigger] earlier[k]).is_after(
            (#[trigger] bells[i]).time,
        ) by {
            assert(earlier[k] == samples[k]);
        }
        law_late_start_skips_every_bell(bells, earlier);
        let before = run_spec(bells, earlier);
        if earlier.len() < bells.len() {
            assert(samples.last().is_after(bells[earlier.len() as int].time));
        }
        let stepped = step_spec(before.state, bells, samples.last());
        assert(before.firings + fired(stepped.1, samples.len() - 1) =~= Seq::empty());
        if earlier.len() < bells.len() {
            assert(before.skipped + passed_over(stepped.1) =~= first_bells(samples.len()));
        } else {
            assert(before.skipped + passed_over(stepped.1) =~= first_bells(bells.len()));
        }
    } else {
        assert(run_spec(bells, samples).skipped =~= first_bells(0));
    }
}

/// Whatever the samples, bells are announced in the order of the sequence,
/// each at most once, each at a sample of its own, and each only at a sample
/// that has reached the bell's time; and every bell that the scheduler has
/// left behind was either announced or skipped.
pub proof fn law_firings_in_order_and_on_time(bells: Seq<BellView>, samples: Seq<TimeOfDay>)
    requires
        bells.len() <= usize::MAX,
        samples.len() <= usize::MAX,
    ensures
        forall|i: int|
            0 <= i < run_spec(bells, samples).firings.len() ==> {
                let firing = #[trigger] run_spec(bells, samples).firings[i];
                &&& firing.bell < cursor(run_spec(bells, samples).state, bells.len())
                &&& firing.bell < bells.len()
                &&& firing.sample < samples.len()
                &&& samples[firing.sample as int].has_reached(bells[firing.bell as int].time)
            },
        forall|i: int, j: int|
            0 <= i < j < run_spec(bells, samples).firings.len() ==> {
                &&& (#[trigger] run_spec(bells, samples).firings[i]).bell < (#[trigger] run_spec(
                    bells,
                    samples,
                ).firings[j]).bell
                &&& run_spec(bells, samples).firings[i].sample < run_spec(
                    bells,
                    samples,
                ).firings[j].sample
            },
        run_spec(bells, samples).firings.len() + run_spec(bells, samples).skipped.len() == cursor(
            run_spec(bells, samples).state,
            bells.len(),
        ),
    decreases samples.len(),
{
    if samples.len() > 0 {
        let earlier = samples.drop_last();
        law_firings_in_order_and_on_time(bells, earlier);
        let before = run_spec(bells, earlier);
        let stepped = step_spec(before.state, bells, samples.last());
        let after = run_spec(bells, samples);
        let added = fired(stepped.1, samples.len() - 1);
        assert(after.firings == before.firings + added);
        assert(after.skipped == before.skipped + passed_over(stepped.1));
        assert(cursor(before.state, bells.len()) <= cursor(stepped.0, bells.len()));
        assert forall|i: int| 0 <= i < after.firings.len() implies {
            let firing = #[trigger] after.firings[i];
            &&& firing.bell < cursor(after.state, bells.len())
            &&& firing.bell < bells.len()
            &&& firing.sample < samples.len()
            &&& samples[firing.sample as int].has_reached(bells[firing.bell as int].time)
        } by {
            if i < before.firings.len() {
                assert(after.firings[i] == before.firings[i]);
                assert(earlier[before.firings[i].sample as int] == samples[before.firings[i].sample as int]);
            } else {
                assert(after.firings[i] == added[0]);
            }
        }
        assert forall|i: int, j: int| 0 <= i < j < after.firings.len() implies {
            &&& (#[trigger] after.firings[i]).bell < (#[trigger] after.firings[j]).bell
            &&& after.firings[i].sample < after.firings[j].sample
        } by {
            assert(after.firings[i] == before.firings[i]);
            if j < before.firings.len() {
                assert(after.firings[j] == before.firings[j]);
            } else {
                assert(after.firings[j] == added[0]);
            }
        }
    }
}

/// What the run has come to after the opening sample and the times of the
/// first `done` bells.
proof fn lemma_on_time_prefix(bells: Seq<BellView>, opening: TimeOfDay, done: nat)
    requires
        bells.len() < usize::MAX,
        bells.len() > 0 ==> bells[0].time.is_after(opening),
        done <= bells.len(),
    ensures
        run_spec(bells, (seq![opening] + bell_times(bells)).take(done as int + 1)) == (Run {
            state: if done == 0 {
                if bells.len() == 0 {
                    SchedulerState::Done
                } else {
                    SchedulerState::Waiting { bell: 0, polling: true }
                }
            } else {
                state_after((done - 1) as usize, bells.len())
            },
            firings: every_bell_once(done),
            skipped: Seq::empty(),
        }),
    decreases done,
{
    let samples = seq![opening] + bell_times(bells);
    let taken = samples.take(done as int + 1);
    let earlier = taken.drop_last();
    assert(earlier =~= samples.take(done as int));
    assert(taken.last() == samples[done as int]);
    if done == 0 {
        assert(earlier.len() == 0);
        assert(taken.last() == opening);
        let stepped = step_spec(start_state(bells.len()), bells, opening);
        assert(run_spec(bells, earlier).state == start_state(bells.len()));
        assert(run_spec(bells, earlier).firings == Seq::<Firing>::empty());
        assert(run_spec(bells, earlier).skipped == Seq::<usize>::empty());
        assert(Seq::<Firing>::empty() + fired(stepped.1, 0) =~= every_bell_once(0));
        assert(Seq::<usize>::empty() + passed_over(stepped.1) =~= Seq::empty());
    } else {
        lemma_on_time_prefix(bells, opening, (done - 1) as nat);
        let before = run_spec(bells, earlier);
        let due = bells[done - 1].time;
        assert(taken.last() == due);
        assert(before.firings == every_bell_once((done - 1) as nat));
        let stepped = step_spec(before.state, bells, due);
        assert(stepped.1 == Action::Announce { bell: (done - 1) as usize });
        assert(before.firings + fired(stepped.1, taken.len() - 1) =~= every_bell_once(done));
        assert(before.skipped + passed_over(stepped.1) =~= Seq::empty());
    }
}

/// A scheduler that starts before the first bell announces every bell: on a
/// clock that first shows a time before the first bell and then the time of
/// each bell in turn, each bell is announced exactly once, in the order of
/// the sequence, at the sample that shows its own time; none is skipped, and
/// the scheduler ends done.
pub proof fn law_early_start_announces_every_bell(bells: Seq<BellView>, opening: TimeOfDay)
    requires
        bells.len() < usize::MAX,
        bells.len() > 0 ==> bells[0].time.is_after(opening),
    ensures
        run_spec(bells, seq![opening] + bell_times(bells)) == (Run {
            state: SchedulerState::Done,
            firings: every_bell_once(bells.len()),
            skipped: Seq::empty(),
        }),
{
    let samples = seq![opening] + bell_times(bells);
    lemma_on_time_prefix(bells, opening, bells.len());
    assert(samples.take(bells.len() as int + 1) =~= samples);
}

/// A bell whose time is exactly the sample is announced, not skipped: only a
/// sample strictly after a bell's time passes it over.
pub proof fn law_bell_on_the_dot_is_announced(bells: Seq<BellView>, bell: usize, polling: bool)
    requires
        bell < bells.len(),
    ensures
        step_spec(SchedulerState::Waiting { bell, polling }, bells, bells[bell as int].time).1
            == (Action::Announce { bell }),
{
}

/// A scheduler that starts at the very time of the first bell begins by
/// announcing it: whatever samples follow, the first firing is the first
/// bell at the first sample, and the first bell is not among the skipped.
pub proof fn law_start_on_the_dot(bells: Seq<BellView>, samples: Seq<TimeOfDay>)
    requires
        0 < bells.len() <= usize::MAX,
        0 < samples.len() <= usize::MAX,
        samples[0] == bells[0].time,
    ensures
        run_spec(bells, samples).firings.len() > 0,
        run_spec(bells, samples).firings[0] == (Firing { bell: 0, sample: 0 }),
        forall|i: int|
            0 <= i < run_spec(bells, samples).skipped.len() ==> (#[trigger] run_spec(
                bells,
                samples,
            ).skipped[i]) != 0,
    decreases samples.len(),
{
    let earlier = samples.drop_last();
    let before = run_spec(bells, earlier);
    let stepped = step_spec(before.state, bells, samples.last());
    let after = run_spec(bells, samples);
    assert(after.firings == before.firings + fired(stepped.1, samples.len() - 1));
    assert(after.skipped == before.skipped + passed_over(stepped.1));
    if samples.len() == 1 {
        assert(samples.last() == samples[0]);
        assert(before.firings =~= Seq::<Firing>::empty());
        assert(before.skipped =~= Seq::<usize>::empty());
        assert(stepped.1 == Action::Announce { bell: 0 });
    } else {
        assert(earlier[0] == samples[0]);
        law_start_on_the_dot(bells, earlier);
        law_firings_in_order_and_on_time(bells, earlier);
        assert(before.firings[0].bell < cursor(before.state, bells.len()));
        assert(after.firings[0] == before.firings[0]);
        assert forall|i: int| 0 <= i < after.skipped.len() implies (#[trigger] after.skipped[i])
            != 0 by {
            if i < before.skipped.len() {
                assert(after.skipped[i] == before.skipped[i]);
            }
        }
    }
}

/// The bells of `firings` strictly increase from each firing to the next.
pub open spec fn bells_increase(firings: Seq<Firing>) -> bool {
    forall|i: int, j: int|
        0 <= i < j < firings.len() ==> (#[trigger] firings[i]).bell < (#[trigger] firings[j]).bell
}

/// Where the bells increase, the firing at position `at` is of a bell at
/// that position or a later one.
proof fn lemma_increasing_from_below(firings: Seq<Firing>, at: int)
    requires
        bells_increase(firings),
        0 <= at < firings.len(),
    ensures
        firings[at].bell >= at,
    decreases at,
{
    if at > 0 {
        lemma_increasing_from_below(firings, at - 1);
        assert(firings[at - 1].bell < firings[at].bell);
    }
}

/// Where the bells increase and there are no more bells than firings, the
/// firing at position `at` is of a bell at that position or an earlier one.
proof fn lemma_increasing_from_above(firings: Seq<Firing>, at: int)
    requires
        bells_increase(firings),
        forall|i: int| 0 <= i < firings.len() ==> (#[trigger] firings[i]).bell < firings.len(),
        0 <= at < firings.len(),
    ensures
        firings[at].bell <= at,
    decreases firings.len() - at,
{
    if at + 1 < firings.len() {
        lemma_increasing_from_above(firings, at + 1);
        assert(firings[at].bell < firings[at + 1].bell);
    }
}

/// A run that skips no bell announces every bell that it leaves behind,
/// exactly once and in the order of the sequence: its firings are of the
/// bells 0, 1, 2 and so on, and one that ends done has announced them all.
pub proof fn law_without_skips_every_bell_is_announced(
    bells: Seq<BellView>,
    samples: Seq<TimeOfDay>,
)
    requires
        bells.len() <= usize::MAX,
        samples.len() <= usize::MAX,
        run_spec(bells, samples).skipped.len() == 0,
    ensures
        run_spec(bells, samples).firings.len() == cursor(
            run_spec(bells, samples).state,
            bells.len(),
        ),
        forall|i: int|
            0 <= i < run_spec(bells, samples).firings.len() ==> (#[trigger] run_spec(
                bells,
                samples,
            ).firings[i]).bell == i,
        run_spec(bells, samples).state == SchedulerState::Done ==> run_spec(
            bells,
            samples,
        ).firings.len() == bells.len(),
{
    law_firings_in_order_and_on_time(bells, samples);
    let firings = run_spec(bells, samples).firings;
    assert(bells_increase(firings));
    assert forall|i: int| 0 <= i < firings.len() implies (#[trigger] firings[i]).bell == i by {
        lemma_increasing_from_below(firings, i);
        lemma_increasing_from_above(firings, i);
    }
}

/// The time that the clock of a deadline driver shows next, once it has
/// shown `shown`.  After `Action::Wait` such a driver sleeps until the
/// bell's time, so the clock then shows that time; after any other action it
/// samples again at once, and the clock shows the same time a second time.
pub open spec fn next_shown(bells: Seq<BellView>, shown: Seq<TimeOfDay>) -> TimeOfDay
    recommends
        shown.len() > 0,
{
    match step_spec(run_spec(bells, shown.drop_last()).state, bells, shown.last()).1 {
        Action::Wait { bell } => bells[bell as int].time,
        _ => shown.last(),
    }
}

/// The first `steps` samples of a deadline driver that starts at `opening`.
pub open spec fn driven_clock(bells: Seq<BellView>, opening: TimeOfDay, steps: nat) -> Seq<
    TimeOfDay,
>
    decreases steps,
{
    if steps == 0 {
        Seq::empty()
    } else if steps == 1 {
        seq![opening]
    } else {
        let shown = driven_clock(bells, opening, (steps - 1) as nat);
        shown.push(next_shown(bells, shown))
    }
}

/// Where a deadline driver stands after `steps` samples: it has skipped
/// nothing, its clock is not past the bell it waits on, and it has not
/// wasted a sample.
proof fn lemma_driven(bells: Seq<BellView>, opening: TimeOfDay, steps: nat)
    requires
        time_ordered(bells),
        bells.len() < usize::MAX,
        bells.len() > 0 ==> bells[0].time.is_after(opening),
        steps >= 1,
    ensures
        driven_clock(bells, opening, steps).len() == steps,
        run_spec(bells, driven_clock(bells, opening, steps)).skipped.len() == 0,
        match run_spec(bells, driven_clock(bells, opening, steps)).state {
            SchedulerState::Waiting { bell, polling } => {
                let next = next_shown(bells, driven_clock(bells, opening, steps));
                &&& bell < bells.len()
                &&& !next.is_after(bells[bell as int].time)
                &&& polling ==> next == bells[bell as int].time
                &&& 2 * bell + (if polling { 1int } else { 0int }) >= steps
            },
            SchedulerState::Done => true,
        },
    decreases steps,
{
    let shown = driven_clock(bells, opening, steps);
    if steps == 1 {
        assert(shown.drop_last() =~= Seq::<TimeOfDay>::empty());
        assert(shown.last() == opening);
        let before = run_spec(bells, shown.drop_last());
        assert(before.state == start_state(bells.len()));
        assert(before.skipped =~= Seq::<usize>::empty());
        let stepped = step_spec(before.state, bells, opening);
        assert(run_spec(bells, shown).state == stepped.0);
        assert(run_spec(bells, shown).skipped == before.skipped + passed_over(stepped.1));
        assert(before.skipped + passed_over(stepped.1) =~= Seq::<usize>::empty());
    } else {
        let earlier = driven_clock(bells, opening, (steps - 1) as nat);
        lemma_driven(bells, opening, (steps - 1) as nat);
        let next = next_shown(bells, earlier);
        assert(shown == earlier.push(next));
        assert(shown.drop_last() =~= earlier);
        assert(shown.last() == next);
        let before = run_spec(bells, earlier);
        let stepped = step_spec(before.state, bells, next);
        assert(run_spec(bells, shown).state == stepped.0);
        assert(run_spec(bells, shown).skipped == before.skipped + passed_over(stepped.1));
        match before.state {
            SchedulerState::Done => {},
            SchedulerState::Waiting { bell, polling } => {
                if bell + 1 < bells.len() {
                    assert(!bells[bell as int].time.is_after(bells[bell + 1].time));
                }
            },
        }
        assert(before.skipped + passed_over(stepped.1) =~= Seq::<usize>::empty());
    }
}

/// A deadline driver that starts before the first bell of a time-ordered
/// day announces every bell: on its clock, which shows the bell's time after
/// each wait and the same time again after each announcement, no bell is
/// skipped and none is announced twice; the firings are of the bells in the
/// order of the sequence, each under its own label, and after two samples
/// for each bell the scheduler is done.
pub proof fn law_deadline_driver_announces_every_bell(
    bells: Seq<BellView>,
    opening: TimeOfDay,
    steps: nat,
)
    requires
        time_ordered(bells),
        bells.len() < usize::MAX,
        bells.len() > 0 ==> bells[0].time.is_after(opening),
        1 <= steps <= usize::MAX,
        steps >= 2 * bells.len(),
    ensures
        run_spec(bells, driven_clock(bells, opening, steps)).state == SchedulerState::Done,
        run_spec(bells, driven_clock(bells, opening, steps)).skipped.len() == 0,
        run_spec(bells, driven_clock(bells, opening, steps)).firings.len() == bells.len(),
        forall|i: int|
            0 <= i < bells.len() ==> {
                let firing = #[trigger] run_spec(
                    bells,
                    driven_clock(bells, opening, steps),
                ).firings[i];
                &&& firing.bell == i
                &&& bell_notice(bells[firing.bell as int]).title == bells[i].label
            },
{
    lemma_driven(bells, opening, steps);
    law_without_skips_every_bell_is_announced(bells, driven_clock(bells, opening, steps));
}

} // verus!
