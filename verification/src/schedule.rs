//! The canonical schedule of one school day, the loosely typed payload it is
//! built from, and the normalizer that turns one into the other.

use vstd::prelude::*;
use vstd::string::*;
use crate::clock::{Date, TimeOfDay, Weekday, date_parsed, small_int_parsed, time_parsed};
use crate::clock::{parse_date, parse_small_int, parse_time};

verus! {

/// The rotation a week belongs to.
#[derive(Clone, Copy, Debug, PartialEq, Eq, Structural)]
pub enum WeekType {
    A,
    B,
    C,
}

/// One notification point within a day.
#[derive(Clone, Debug)]
pub struct BellEvent {
    pub label: String,
    pub time: TimeOfDay,
}

/// One bell as a specification value.
pub struct BellView {
    pub label: Seq<char>,
    pub time: TimeOfDay,
}

impl View for BellEvent {
    type V = BellView;

    open spec fn view(&self) -> BellView {
        BellView { label: self.label@, time: self.time }
    }
}

/// The bells of a vector as specification values, in the same order.
pub open spec fn bells_view(bells: Seq<BellEvent>) -> Seq<BellView> {
    Seq::new(bells.len(), |i: int| bells[i]@)
}

/// No bell of `bells` rings before one that stands earlier in the sequence.
pub open spec fn time_ordered(bells: Seq<BellView>) -> bool {
    forall|i: int, j: int|
        0 <= i <= j < bells.len() ==> !(#[trigger] bells[i]).time.is_after((#[trigger] bells[j]).time)
}

/// The schedule of one school day.
///
/// The scheduler takes the bells in the order in which they stand here; a
/// source is expected to deliver them in the order of their times, which
/// [`bells_in_order`] tests.
#[derive(Clone, Debug)]
pub struct DaySchedule {
    pub status: String,
    pub altered_flag: bool,
    pub altered_reason: String,
    pub bells: Vec<BellEvent>,
    pub date: Date,
    pub day: Weekday,
    pub term: u8,
    pub week: u8,
    pub week_type: WeekType,
}

/// A day's schedule as a specification value.
pub struct ScheduleView {
    pub status: Seq<char>,
    pub altered_flag: bool,
    pub altered_reason: Seq<char>,
    pub bells: Seq<BellView>,
    pub date: Date,
    pub day: Weekday,
    pub term: u8,
    pub week: u8,
    pub week_type: WeekType,
}

impl View for DaySchedule {
    type V = ScheduleView;

    open spec fn view(&self) -> ScheduleView {
        ScheduleView {
            status: self.status@,
            altered_flag: self.altered_flag,
            altered_reason: self.altered_reason@,
            bells: bells_view(self.bells@),
            date: self.date,
            day: self.day,
            term: self.term,
            week: self.week,
            week_type: self.week_type,
        }
    }
}

/// One bell as the timetable service reports it: a label and an `HH:MM` time.
#[derive(Clone, Debug)]
pub struct RawBell {
    pub bell: String,
    pub time: String,
}

/// A raw bell as a specification value.
pub struct RawBellView {
    pub bell: Seq<char>,
    pub time: Seq<char>,
}

impl View for RawBell {
    type V = RawBellView;

    open spec fn view(&self) -> RawBellView {
        RawBellView { bell: self.bell@, time: self.time@ }
    }
}

/// A day's schedule as the timetable service reports it, all but one field
/// textual and none of them validated.
#[derive(Clone, Debug)]
pub struct RawPayload {
    pub status: String,
    pub bells_altered: bool,
    pub bells_altered_reason: String,
    pub bells: Vec<RawBell>,
    pub date: String,
    pub day: String,
    pub term: String,
    pub week: String,
    pub week_type: String,
}

/// A raw payload as a specification value.
pub struct RawPayloadView {
    pub status: Seq<char>,
    pub bells_altered: bool,
    pub bells_altered_reason: Seq<char>,
    pub bells: Seq<RawBellView>,
    pub date: Seq<char>,
    pub day: Seq<char>,
    pub term: Seq<char>,
    pub week: Seq<char>,
    pub week_type: Seq<char>,
}

impl View for RawPayload {
    type V = RawPayloadView;

    open spec fn view(&self) -> RawPayloadView {
        RawPayloadView {
            status: self.status@,
            bells_altered: self.bells_altered,
            bells_altered_reason: self.bells_altered_reason@,
            bells: Seq::new(self.bells@.len(), |i: int| self.bells@[i]@),
            date: self.date@,
            day: self.day@,
            term: self.term@,
            week: self.week@,
            week_type: self.week_type@,
        }
    }
}

/// Why a raw payload could not be normalized.
#[derive(Clone, Copy, Debug, PartialEq, Eq, Structural)]
pub enum NormalizeError {
    /// A bell's time is not an `HH:MM` time.
    BadTime,
    /// The date is not a `YYYY-MM-DD` date.
    BadDate,
    /// The weekday is none of "Monday" to "Friday".
    UnknownWeekday,
    /// The term or the week is not a small number.
    BadInteger,
    /// The week type is none of "A", "B" and "C".
    UnknownWeekType,
}

impl NormalizeError {
    /// A sentence that describes the error.
    pub fn message(&self) -> (r: String)
        ensures
            r@ == (match *self {
                NormalizeError::BadTime => "a bell time is not of the form HH:MM"@,
                NormalizeError::BadDate => "the date is not of the form YYYY-MM-DD"@,
                NormalizeError::UnknownWeekday => "the weekday is not one of Monday to Friday"@,
                NormalizeError::BadInteger => "the term or the week is not a small number"@,
                NormalizeError::UnknownWeekType => "the week type is not one of A, B and C"@,
            }),
    {
        match self {
            NormalizeError::BadTime => String::from_str("a bell time is not of the form HH:MM"),
            NormalizeError::BadDate => String::from_str("the date is not of the form YYYY-MM-DD"),
            NormalizeError::UnknownWeekday => String::from_str(
                "the weekday is not one of Monday to Friday",
            ),
            NormalizeError::BadInteger => String::from_str(
                "the term or the week is not a small number",
            ),
            NormalizeError::UnknownWeekType => String::from_str(
                "the week type is not one of A, B and C",
            ),
        }
    }
}

/// Whether `label` is one of the period numbers "1" to "5".
pub open spec fn is_period_number(label: Seq<char>) -> bool {
    label.len() == 1 && '1' <= label[0] && label[0] <= '5'
}

/// The label a bell is shown under: a period number "N" becomes "Period N",
/// every other label stays as it is.
pub open spec fn canonical_label(label: Seq<char>) -> Seq<char> {
    if is_period_number(label) {
        "Period "@ + label
    } else {
        label
    }
}

/// The weekday that a name stands for, where it is a school day's name.
pub open spec fn weekday_named(name: Seq<char>) -> Option<Weekday> {
    if name == "Monday"@ {
        Some(Weekday::Mon)
    } else if name == "Tuesday"@ {
        Some(Weekday::Tue)
    } else if name == "Wednesday"@ {
        Some(Weekday::Wed)
    } else if name == "Thursday"@ {
        Some(Weekday::Thu)
    } else if name == "Friday"@ {
        Some(Weekday::Fri)
    } else {
        None
    }
}

/// The week type that a name stands for.
pub open spec fn week_type_named(name: Seq<char>) -> Option<WeekType> {
    if name == "A"@ {
        Some(WeekType::A)
    } else if name == "B"@ {
        Some(WeekType::B)
    } else if name == "C"@ {
        Some(WeekType::C)
    } else {
        None
    }
}

/// Whether every reading of `times` is a time.
pub open spec fn all_read(times: Seq<Option<TimeOfDay>>) -> bool {
    forall|i: int| 0 <= i < times.len() ==> (#[trigger] times[i]) is Some
}

/// What reading the time of each bell of `bells` gives, bell by bell.
pub open spec fn time_readings(bells: Seq<RawBellView>) -> Seq<Option<TimeOfDay>> {
    Seq::new(bells.len(), |i: int| time_parsed(bells[i].time, "%H:%M"@))
}

/// Whether every bell of `bells` carries a time that parses.
pub open spec fn times_parse(bells: Seq<RawBellView>) -> bool {
    all_read(time_readings(bells))
}

/// Whether every field of `raw` can be read: the payloads that normalize.
pub open spec fn payload_valid(raw: RawPayloadView) -> bool {
    &&& times_parse(raw.bells)
    &&& date_parsed(raw.date, "%Y-%m-%d"@) is Some
    &&& weekday_named(raw.day) is Some
    &&& small_int_parsed(raw.term) is Some
    &&& small_int_parsed(raw.week) is Some
    &&& week_type_named(raw.week_type) is Some
}

/// The schedule that `raw` and the readings of its parsed fields come to:
/// `times` holds the reading of each bell's time, `date`, `term` and `week`
/// those of the fields of the same names, `None` standing for a field that
/// did not parse.  Where a field cannot be read, the result is the first
/// fault in the order bell times, date, weekday, term, week, week type.
pub open spec fn assembled(
    raw: RawPayloadView,
    times: Seq<Option<TimeOfDay>>,
    date: Option<Date>,
    term: Option<u8>,
    week: Option<u8>,
) -> Result<ScheduleView, NormalizeError> {
    if !all_read(times) {
        Err(NormalizeError::BadTime)
    } else if date is None {
        Err(NormalizeError::BadDate)
    } else if weekday_named(raw.day) is None {
        Err(NormalizeError::UnknownWeekday)
    } else if term is None || week is None {
        Err(NormalizeError::BadInteger)
    } else if week_type_named(raw.week_type) is None {
        Err(NormalizeError::UnknownWeekType)
    } else {
        Ok(
            ScheduleView {
                status: raw.status,
                altered_flag: raw.bells_altered,
                altered_reason: raw.bells_altered_reason,
                bells: Seq::new(
                    raw.bells.len(),
                    |i: int|
                        BellView {
                            label: canonical_label(raw.bells[i].bell),
                            time: times[i].unwrap(),
                        },
                ),
                date: date.unwrap(),
                day: weekday_named(raw.day).unwrap(),
                term: term.unwrap(),
                week: week.unwrap(),
                week_type: week_type_named(raw.week_type).unwrap(),
            },
        )
    }
}

/// What normalizing `raw` gives: what its fields and their readings come
/// to.
pub open spec fn normalized(raw: RawPayloadView) -> Result<ScheduleView, NormalizeError> {
    assembled(
        raw,
        time_readings(raw.bells),
        date_parsed(raw.date, "%Y-%m-%d"@),
        small_int_parsed(raw.term),
        small_int_parsed(raw.week),
    )
}

/// Every valid payload normalizes, to a schedule with as many bells as the
/// payload has, each under its canonical label: "Period N" for a period
/// number "N", the payload's own label otherwise.
pub proof fn law_normalize_total_on_valid(raw: RawPayloadView)
    requires
        payload_valid(raw),
    ensures
        normalized(raw) is Ok,
        normalized(raw)->Ok_0.bells.len() == raw.bells.len(),
        forall|i: int|
            0 <= i < raw.bells.len() ==> (#[trigger] normalized(raw)->Ok_0.bells[i]).label == (
            if is_period_number(raw.bells[i].bell) {
                "Period "@ + raw.bells[i].bell
            } else {
                raw.bells[i].bell
            }),
{
}

/// A payload normalizes exactly when it is valid.
pub proof fn law_normalize_succeeds_exactly_on_valid(raw: RawPayloadView)
    ensures
        normalized(raw) is Ok <==> payload_valid(raw),
{
}

/// A sequence in which every bell rings no earlier than the one before it is
/// time-ordered.
pub proof fn lemma_adjacent_ordered(bells: Seq<BellView>)
    requires
        forall|i: int|
            0 <= i < bells.len() - 1 ==> !(#[trigger] bells[i]).time.is_after(bells[i + 1].time),
    ensures
        time_ordered(bells),
{
    assert forall|i: int, j: int| 0 <= i <= j < bells.len() implies !(#[trigger] bells[i]).time.is_after(
        (#[trigger] bells[j]).time,
    ) by {
        lemma_adjacent_reach(bells, i, j);
    }
}

/// In such a sequence no bell rings before any earlier one.
proof fn lemma_adjacent_reach(bells: Seq<BellView>, i: int, j: int)
    requires
        forall|k: int|
            0 <= k < bells.len() - 1 ==> !(#[trigger] bells[k]).time.is_after(bells[k + 1].time),
        0 <= i <= j < bells.len(),
    ensures
        !bells[i].time.is_after(bells[j].time),
    decreases j - i,
{
    if i < j {
        lemma_adjacent_reach(bells, i, j - 1);
        assert(!bells[j - 1].time.is_after(bells[j - 1 + 1].time));
    }
}

/// Whether the bells stand in the order of their times.
pub fn bells_in_order(bells: &Vec<BellEvent>) -> (r: bool)
    ensures
        r == time_ordered(bells_view(bells@)),
{
    let ghost views = bells_view(bells@);
    let mut i: usize = 1;
    while i < bells.len()
        invariant
            1 <= i,
            views == bells_view(bells@),
            forall|k: int|
                0 <= k < i - 1 && k < views.len() - 1 ==> !(#[trigger] views[k]).time.is_after(
                    views[k + 1].time,
                ),
        decreases bells.len() - i,
    {
        if bells[i - 1].time.after(&bells[i].time) {
            assert(views[i - 1].time.is_after(views[i as int].time));
            return false;
        }
        i += 1;
    }
    proof {
        lemma_adjacent_ordered(views);
    }
    true
}

/// Whether `text` reads exactly as `literal`.
fn text_is(text: &String, literal: &str) -> (r: bool)
    ensures
        r == (text@ == literal@),
{
    let other = String::from_str(literal);
    *text == other
}

/// The label a bell is shown under.
pub fn canonicalize_label(label: &String) -> (r: String)
    ensures
        r@ == canonical_label(label@),
{
    let text = label.as_str();
    if text.unicode_len() == 1 {
        let c = text.get_char(0);
        if '1' <= c && c <= '5' {
            return String::from_str("Period ").concat(text);
        }
    }
    label.clone()
}

/// Reads a weekday's name.
pub fn parse_weekday(name: &String) -> (r: Option<Weekday>)
    ensures
        r == weekday_named(name@),
{
    if text_is(name, "Monday") {
        Some(Weekday::Mon)
    } else if text_is(name, "Tuesday") {
        Some(Weekday::Tue)
    } else if text_is(name, "Wednesday") {
        Some(Weekday::Wed)
    } else if text_is(name, "Thursday") {
        Some(Weekday::Thu)
    } else if text_is(name, "Friday") {
        Some(Weekday::Fri)
    } else {
        None
    }
}

/// Reads a week type's name.
pub fn parse_week_type(name: &String) -> (r: Option<WeekType>)
    ensures
        r == week_type_named(name@),
{
    if text_is(name, "A") {
        Some(WeekType::A)
    } else if text_is(name, "B") {
        Some(WeekType::B)
    } else if text_is(name, "C") {
        Some(WeekType::C)
    } else {
        None
    }
}

/// Reads the time of each bell, bell by bell.
pub fn read_times(bells: &Vec<RawBell>) -> (times: Vec<Option<TimeOfDay>>)
    ensures
        times@ == time_readings(Seq::new(bells@.len(), |i: int| bells@[i]@)),
{
    let ghost views = Seq::new(bells@.len(), |i: int| bells@[i]@);
    let mut times: Vec<Option<TimeOfDay>> = Vec::new();
    let mut i: usize = 0;
    while i < bells.len()
        invariant
            i <= bells.len(),
            times@.len() == i,
            views == Seq::new(bells@.len(), |i: int| bells@[i]@),
            forall|j: int| 0 <= j < i ==> (#[trigger] times@[j]) == time_parsed(views[j].time, "%H:%M"@),
        decreases bells.len() - i,
    {
        times.push(parse_time(bells[i].time.as_str()));
        i += 1;
    }
    assert(times@ =~= time_readings(views));
    times
}

/// Puts a schedule together from a payload and the readings of its parsed
/// fields, one reading in `times` for each bell.
///
/// Succeeds exactly where every reading is there and the weekday and the
/// week type are known; otherwise it reports the first fault in the order
/// bell times, date, weekday, term, week, week type.
pub fn assemble(
    raw: RawPayload,
    times: Vec<Option<TimeOfDay>>,
    date: Option<Date>,
    term: Option<u8>,
    week: Option<u8>,
) -> (r: Result<DaySchedule, NormalizeError>)
    requires
        times@.len() == raw.bells@.len(),
    ensures
        match assembled(raw@, times@, date, term, week) {
            Ok(schedule) => r is Ok && r->Ok_0@ == schedule,
            Err(fault) => r == Err::<DaySchedule, NormalizeError>(fault),
        },
        r is Ok ==> r->Ok_0.bells@.len() == raw.bells@.len(),
{
    let mut bells: Vec<BellEvent> = Vec::new();
    let mut i: usize = 0;
    while i < raw.bells.len()
        invariant
            i <= raw.bells.len(),
            times@.len() == raw.bells@.len(),
            bells@.len() == i,
            forall|j: int| 0 <= j < i ==> (#[trigger] times@[j]) is Some,
            forall|j: int|
                0 <= j < i ==> (#[trigger] bells@[j])@ == (BellView {
                    label: canonical_label(raw.bells@[j].bell@),
                    time: times@[j].unwrap(),
                }),
        decreases raw.bells.len() - i,
    {
        match times[i] {
            Some(time) => {
                let label = canonicalize_label(&raw.bells[i].bell);
                bells.push(BellEvent { label, time });
            },
            None => {
                assert(times@[i as int] is None);
                return Err(NormalizeError::BadTime);
            },
        }
        i += 1;
    }
    let date = match date {
        Some(date) => date,
        None => { return Err(NormalizeError::BadDate); },
    };
    let day = match parse_weekday(&raw.day) {
        Some(day) => day,
        None => { return Err(NormalizeError::UnknownWeekday); },
    };
    let (term, week) = match (term, week) {
        (Some(term), Some(week)) => (term, week),
        _ => { return Err(NormalizeError::BadInteger); },
    };
    let week_type = match parse_week_type(&raw.week_type) {
        Some(week_type) => week_type,
        None => { return Err(NormalizeError::UnknownWeekType); },
    };
    proof {
        let target = assembled(raw@, times@, Some(date), Some(term), Some(week))->Ok_0;
        assert(bells_view(bells@) =~= target.bells);
    }
    Ok(
        DaySchedule {
            status: raw.status,
            altered_flag: raw.bells_altered,
            altered_reason: raw.bells_altered_reason,
            bells,
            date,
            day,
            term,
            week,
            week_type,
        },
    )
}

/// Turns a raw payload into the day's schedule.
///
/// Succeeds on exactly the valid payloads; on any other it reports the first
/// fault met when the fields are read in the order bell times, date, weekday,
/// term, week, week type.
pub fn normalize(raw: RawPayload) -> (r: Result<DaySchedule, NormalizeError>)
    ensures
        r is Ok <==> payload_valid(raw@),
        match normalized(raw@) {
            Ok(schedule) => r is Ok && r->Ok_0@ == schedule,
            Err(fault) => r == Err::<DaySchedule, NormalizeError>(fault),
        },
        r is Ok ==> r->Ok_0.bells@.len() == raw.bells@.len(),
{
    let times = read_times(&raw.bells);
    let date = parse_date(raw.date.as_str());
    let term = parse_small_int(raw.term.as_str());
    let week = parse_small_int(raw.week.as_str());
    assemble(raw, times, date, term, week)
}

} // verus!
