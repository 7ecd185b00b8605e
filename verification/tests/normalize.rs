use chrono::Datelike;
use run_to_class::clock::{parse_date, parse_small_int, parse_time, weekday_of, Date, TimeOfDay, Weekday};
use run_to_class::schedule::{
    assemble, canonicalize_label, normalize, parse_week_type, parse_weekday, read_times,
    NormalizeError, RawBell, RawPayload, WeekType,
};

fn raw_bell(bell: &str, time: &str) -> RawBell {
    RawBell { bell: String::from(bell), time: String::from(time) }
}

fn sample_payload() -> RawPayload {
    RawPayload {
        status: String::from("OK"),
        bells_altered: false,
        bells_altered_reason: String::from(""),
        bells: vec![
            raw_bell("Roll Call", "09:00"),
            raw_bell("1", "09:05"),
            raw_bell("Transition", "10:05"),
            raw_bell("2", "10:10"),
            raw_bell("Lunch 1", "11:10"),
            raw_bell("3", "11:50"),
            raw_bell("4", "12:55"),
            raw_bell("5", "14:15"),
            raw_bell("End of Day", "15:15"),
        ],
        date: String::from("2021-03-15"),
        day: String::from("Monday"),
        term: String::from("1"),
        week: String::from("8"),
        week_type: String::from("B"),
    }
}

#[test]
fn normalize_keeps_every_bell() {
    let schedule = normalize(sample_payload()).unwrap();
    assert_eq!(schedule.bells.len(), 9);
    let labels: Vec<&str> = schedule.bells.iter().map(|b| b.label.as_str()).collect();
    assert_eq!(
        labels,
        vec![
            "Roll Call",
            "Period 1",
            "Transition",
            "Period 2",
            "Lunch 1",
            "Period 3",
            "Period 4",
            "Period 5",
            "End of Day"
        ]
    );
}

#[test]
fn normalize_reads_times() {
    let schedule = normalize(sample_payload()).unwrap();
    assert_eq!(schedule.bells[0].time, TimeOfDay { secs: 32_400, frac: 0 });
    assert_eq!(schedule.bells[1].time, TimeOfDay::from_hms(9, 5, 0));
    assert_eq!(schedule.bells[8].time, TimeOfDay { secs: 54_900, frac: 0 });
}

#[test]
fn normalize_reads_the_other_fields() {
    let mut raw = sample_payload();
    raw.bells_altered = true;
    raw.bells_altered_reason = String::from("Assembly");
    let schedule = normalize(raw).unwrap();
    assert_eq!(schedule.status, "OK");
    assert!(schedule.altered_flag);
    assert_eq!(schedule.altered_reason, "Assembly");
    let expected = chrono::NaiveDate::from_ymd_opt(2021, 3, 15).unwrap().num_days_from_ce();
    assert_eq!(schedule.date, Date { days: expected });
    assert_eq!(schedule.date.days, 737_864);
    assert_eq!(schedule.day, Weekday::Mon);
    assert_eq!(schedule.term, 1);
    assert_eq!(schedule.week, 8);
    assert_eq!(schedule.week_type, WeekType::B);
}

#[test]
fn normalize_accepts_a_day_without_bells() {
    let mut raw = sample_payload();
    raw.bells = Vec::new();
    let schedule = normalize(raw).unwrap();
    assert!(schedule.bells.is_empty());
}

#[test]
fn normalize_rejects_a_bad_time() {
    let mut raw = sample_payload();
    raw.bells[3].time = String::from("ten past ten");
    assert_eq!(normalize(raw).unwrap_err(), NormalizeError::BadTime);
    let mut raw = sample_payload();
    raw.bells[0].time = String::from("25:00");
    assert_eq!(normalize(raw).unwrap_err(), NormalizeError::BadTime);
}

#[test]
fn normalize_rejects_a_bad_date() {
    let mut raw = sample_payload();
    raw.date = String::from("15/03/2021");
    assert_eq!(normalize(raw).unwrap_err(), NormalizeError::BadDate);
    let mut raw = sample_payload();
    raw.date = String::from("2021-02-30");
    assert_eq!(normalize(raw).unwrap_err(), NormalizeError::BadDate);
}

#[test]
fn normalize_rejects_an_unknown_weekday() {
    let mut raw = sample_payload();
    raw.day = String::from("Saturday");
    assert_eq!(normalize(raw).unwrap_err(), NormalizeError::UnknownWeekday);
    let mut raw = sample_payload();
    raw.day = String::from("monday");
    assert_eq!(normalize(raw).unwrap_err(), NormalizeError::UnknownWeekday);
}

#[test]
fn normalize_rejects_a_bad_integer() {
    let mut raw = sample_payload();
    raw.term = String::from("one");
    assert_eq!(normalize(raw).unwrap_err(), NormalizeError::BadInteger);
    let mut raw = sample_payload();
    raw.week = String::from("");
    assert_eq!(normalize(raw).unwrap_err(), NormalizeError::BadInteger);
    let mut raw = sample_payload();
    raw.week = String::from("256");
    assert_eq!(normalize(raw).unwrap_err(), NormalizeError::BadInteger);
}

#[test]
fn normalize_rejects_an_unknown_week_type() {
    let mut raw = sample_payload();
    raw.week_type = String::from("D");
    assert_eq!(normalize(raw).unwrap_err(), NormalizeError::UnknownWeekType);
}

#[test]
fn normalize_reports_the_first_fault() {
    let mut raw = sample_payload();
    raw.week_type = String::from("D");
    raw.term = String::from("x");
    raw.day = String::from("Sunday");
    assert_eq!(normalize(raw).unwrap_err(), NormalizeError::UnknownWeekday);
    let mut raw = sample_payload();
    raw.date = String::from("tomorrow");
    raw.bells[1].time = String::from("");
    assert_eq!(normalize(raw).unwrap_err(), NormalizeError::BadTime);
    let mut raw = sample_payload();
    raw.week_type = String::from("");
    raw.week = String::from("-1");
    assert_eq!(normalize(raw).unwrap_err(), NormalizeError::BadInteger);
}

#[test]
fn labels_are_canonicalized() {
    assert_eq!(canonicalize_label(&String::from("1")), "Period 1");
    assert_eq!(canonicalize_label(&String::from("3")), "Period 3");
    assert_eq!(canonicalize_label(&String::from("5")), "Period 5");
    assert_eq!(canonicalize_label(&String::from("0")), "0");
    assert_eq!(canonicalize_label(&String::from("6")), "6");
    assert_eq!(canonicalize_label(&String::from("12")), "12");
    assert_eq!(canonicalize_label(&String::from("")), "");
    assert_eq!(canonicalize_label(&String::from("Recess")), "Recess");
    assert_eq!(canonicalize_label(&String::from("Period 1")), "Period 1");
}

#[test]
fn weekday_names_are_read() {
    assert_eq!(parse_weekday(&String::from("Monday")), Some(Weekday::Mon));
    assert_eq!(parse_weekday(&String::from("Tuesday")), Some(Weekday::Tue));
    assert_eq!(parse_weekday(&String::from("Wednesday")), Some(Weekday::Wed));
    assert_eq!(parse_weekday(&String::from("Thursday")), Some(Weekday::Thu));
    assert_eq!(parse_weekday(&String::from("Friday")), Some(Weekday::Fri));
    assert_eq!(parse_weekday(&String::from("Sunday")), None);
    assert_eq!(parse_weekday(&String::from("Mon")), None);
}

#[test]
fn week_type_names_are_read() {
    assert_eq!(parse_week_type(&String::from("A")), Some(WeekType::A));
    assert_eq!(parse_week_type(&String::from("B")), Some(WeekType::B));
    assert_eq!(parse_week_type(&String::from("C")), Some(WeekType::C));
    assert_eq!(parse_week_type(&String::from("a")), None);
    assert_eq!(parse_week_type(&String::from("AB")), None);
}

#[test]
fn times_are_parsed() {
    assert_eq!(parse_time("00:00"), Some(TimeOfDay { secs: 0, frac: 0 }));
    assert_eq!(parse_time("09:05"), Some(TimeOfDay { secs: 9 * 3600 + 5 * 60, frac: 0 }));
    assert_eq!(parse_time("23:59"), Some(TimeOfDay { secs: 86_340, frac: 0 }));
    assert_eq!(parse_time("24:00"), None);
    assert_eq!(parse_time("12:60"), None);
    assert_eq!(parse_time("noon"), None);
    assert_eq!(parse_time(""), None);
}

#[test]
fn dates_are_parsed() {
    assert_eq!(parse_date("0001-01-01"), Some(Date { days: 1 }));
    assert_eq!(parse_date("1970-01-01"), Some(Date { days: 719_163 }));
    assert_eq!(parse_date("2024-02-29"), Some(Date { days: 738_945 }));
    assert_eq!(parse_date("2023-02-29"), None);
    assert_eq!(parse_date("2024-13-01"), None);
    assert_eq!(parse_date("yesterday"), None);
}

#[test]
fn weekdays_follow_the_calendar() {
    let monday = parse_date("2024-01-15").unwrap();
    assert_eq!(weekday_of(monday), Some(Weekday::Mon));
    assert_eq!(weekday_of(Date { days: monday.days + 1 }), Some(Weekday::Tue));
    assert_eq!(weekday_of(Date { days: monday.days + 2 }), Some(Weekday::Wed));
    assert_eq!(weekday_of(Date { days: monday.days + 3 }), Some(Weekday::Thu));
    assert_eq!(weekday_of(Date { days: monday.days + 4 }), Some(Weekday::Fri));
    assert_eq!(weekday_of(Date { days: monday.days + 5 }), Some(Weekday::Sat));
    assert_eq!(weekday_of(Date { days: monday.days + 6 }), Some(Weekday::Sun));
    assert_eq!(weekday_of(Date { days: 719_163 }), Some(Weekday::Thu));
    assert_eq!(weekday_of(Date { days: i32::MAX }), None);
    assert_eq!(weekday_of(Date { days: i32::MIN }), None);
}

#[test]
fn weekdays_repeat_every_seven_days_from_day_one() {
    let week = [
        Weekday::Mon,
        Weekday::Tue,
        Weekday::Wed,
        Weekday::Thu,
        Weekday::Fri,
        Weekday::Sat,
        Weekday::Sun,
    ];
    assert_eq!(weekday_of(Date { days: 1 }), Some(Weekday::Mon));
    assert_eq!(weekday_of(Date { days: 0 }), Some(Weekday::Sun));
    assert_eq!(weekday_of(Date { days: -1 }), Some(Weekday::Sat));
    for days in -5_000i32..5_000 {
        let index = (days - 1).rem_euclid(7) as usize;
        assert_eq!(weekday_of(Date { days }), Some(week[index]));
    }
    for days in 730_000i32..745_000 {
        let index = (days - 1).rem_euclid(7) as usize;
        assert_eq!(weekday_of(Date { days }), Some(week[index]));
    }
}

#[test]
fn the_calendar_ends_where_stated() {
    let week = [
        Weekday::Mon,
        Weekday::Tue,
        Weekday::Wed,
        Weekday::Thu,
        Weekday::Fri,
        Weekday::Sat,
        Weekday::Sun,
    ];
    let first: i32 = -95_746_129;
    let last: i32 = 95_745_399;
    assert_eq!(weekday_of(Date { days: first - 1 }), None);
    assert_eq!(weekday_of(Date { days: last + 1 }), None);
    assert_eq!(weekday_of(Date { days: first }), Some(week[(first - 1).rem_euclid(7) as usize]));
    assert_eq!(weekday_of(Date { days: last }), Some(week[(last - 1).rem_euclid(7) as usize]));
    let min = chrono::NaiveDate::MIN.num_days_from_ce();
    let max = chrono::NaiveDate::MAX.num_days_from_ce();
    assert_eq!((min, max), (first, last));
}

#[test]
fn small_integers_are_parsed() {
    assert_eq!(parse_small_int("0"), Some(0));
    assert_eq!(parse_small_int("4"), Some(4));
    assert_eq!(parse_small_int("11"), Some(11));
    assert_eq!(parse_small_int("255"), Some(255));
    assert_eq!(parse_small_int("256"), None);
    assert_eq!(parse_small_int("-1"), None);
    assert_eq!(parse_small_int("four"), None);
    assert_eq!(parse_small_int(""), None);
}

#[test]
fn small_integers_are_a_sign_and_digits_only() {
    assert_eq!(parse_small_int("+7"), Some(7));
    assert_eq!(parse_small_int("+255"), Some(255));
    assert_eq!(parse_small_int("007"), Some(7));
    assert_eq!(parse_small_int("+000"), Some(0));
    assert_eq!(parse_small_int("0000000000000000000000255"), Some(255));
    assert_eq!(parse_small_int("0000000000000000000000256"), None);
    assert_eq!(parse_small_int("+"), None);
    assert_eq!(parse_small_int("++7"), None);
    assert_eq!(parse_small_int("7+"), None);
    assert_eq!(parse_small_int("-0"), None);
    assert_eq!(parse_small_int(" 7"), None);
    assert_eq!(parse_small_int("7 "), None);
    assert_eq!(parse_small_int("1_0"), None);
    assert_eq!(parse_small_int("1.0"), None);
    assert_eq!(parse_small_int("0x10"), None);
    assert_eq!(parse_small_int("\u{663}"), None);
    assert_eq!(parse_small_int("\u{ff17}"), None);
    assert_eq!(parse_small_int("999"), None);
    for value in 0u16..=300 {
        let expected = if value <= 255 { Some(value as u8) } else { None };
        assert_eq!(parse_small_int(&value.to_string()), expected);
    }
}

#[test]
fn times_are_ordered_by_second_then_fraction() {
    let nine = TimeOfDay::from_hms(9, 0, 0);
    let later = TimeOfDay::new(32_400, 1).unwrap();
    let ten = TimeOfDay::from_hms(10, 0, 0);
    assert!(!nine.after(&nine));
    assert!(nine.reached(&nine));
    assert!(later.after(&nine));
    assert!(!nine.after(&later));
    assert!(!nine.reached(&later));
    assert!(ten.after(&later));
    assert!(ten.reached(&nine));
    assert!(!nine.reached(&ten));
}

#[test]
fn times_are_built_within_a_day() {
    assert_eq!(TimeOfDay::from_hms(0, 0, 0), TimeOfDay { secs: 0, frac: 0 });
    assert_eq!(TimeOfDay::from_hms(15, 15, 0), TimeOfDay { secs: 54_900, frac: 0 });
    assert_eq!(TimeOfDay::from_hms(23, 59, 59), TimeOfDay { secs: 86_399, frac: 0 });
    assert_eq!(TimeOfDay::from_hms_opt(8, 50, 0), Some(TimeOfDay { secs: 31_800, frac: 0 }));
    assert_eq!(TimeOfDay::from_hms_opt(24, 0, 0), None);
    assert_eq!(TimeOfDay::from_hms_opt(0, 60, 0), None);
    assert_eq!(TimeOfDay::from_hms_opt(0, 0, 60), None);
    assert_eq!(TimeOfDay::new(86_399, 999_999_999), Some(TimeOfDay { secs: 86_399, frac: 999_999_999 }));
    assert_eq!(TimeOfDay::new(86_400, 0), None);
    assert_eq!(TimeOfDay::new(0, 2_000_000_000), None);
    assert_eq!(TimeOfDay::new(58, 1_000_000_000), None);
    assert_eq!(TimeOfDay::new(59, 1_000_000_000), Some(TimeOfDay { secs: 59, frac: 1_000_000_000 }));
}

#[test]
fn error_messages_name_the_fault() {
    assert_eq!(NormalizeError::BadTime.message(), "a bell time is not of the form HH:MM");
    assert_eq!(NormalizeError::BadDate.message(), "the date is not of the form YYYY-MM-DD");
    assert_eq!(
        NormalizeError::UnknownWeekday.message(),
        "the weekday is not one of Monday to Friday"
    );
    assert_eq!(
        NormalizeError::BadInteger.message(),
        "the term or the week is not a small number"
    );
    assert_eq!(NormalizeError::UnknownWeekType.message(), "the week type is not one of A, B and C");
}

fn two_bells() -> RawPayload {
    let mut raw = sample_payload();
    raw.bells = vec![raw_bell("4", "not read here"), raw_bell("Recess", "nor here")];
    raw
}

fn readings() -> Vec<Option<TimeOfDay>> {
    vec![Some(TimeOfDay::from_hms(12, 55, 0)), Some(TimeOfDay::from_hms(13, 55, 0))]
}

#[test]
fn assemble_builds_the_schedule_from_the_readings() {
    let date = Date { days: 738_000 };
    let schedule = assemble(two_bells(), readings(), Some(date), Some(3), Some(9)).unwrap();
    assert_eq!(schedule.bells.len(), 2);
    assert_eq!(schedule.bells[0].label, "Period 4");
    assert_eq!(schedule.bells[0].time, TimeOfDay { secs: 46_500, frac: 0 });
    assert_eq!(schedule.bells[1].label, "Recess");
    assert_eq!(schedule.bells[1].time, TimeOfDay { secs: 50_100, frac: 0 });
    assert_eq!(schedule.date, date);
    assert_eq!(schedule.day, Weekday::Mon);
    assert_eq!(schedule.term, 3);
    assert_eq!(schedule.week, 9);
    assert_eq!(schedule.week_type, WeekType::B);
    assert_eq!(schedule.status, "OK");
    assert!(!schedule.altered_flag);
}

#[test]
fn assemble_reports_the_first_fault() {
    let date = Some(Date { days: 738_000 });
    let mut times = readings();
    times[1] = None;
    assert_eq!(
        assemble(two_bells(), times, None, None, None).unwrap_err(),
        NormalizeError::BadTime
    );
    assert_eq!(
        assemble(two_bells(), readings(), None, None, Some(1)).unwrap_err(),
        NormalizeError::BadDate
    );
    let mut raw = two_bells();
    raw.day = String::from("Someday");
    raw.week_type = String::from("?");
    assert_eq!(
        assemble(raw, readings(), date, None, Some(1)).unwrap_err(),
        NormalizeError::UnknownWeekday
    );
    let mut raw = two_bells();
    raw.week_type = String::from("?");
    assert_eq!(
        assemble(raw, readings(), date, Some(1), None).unwrap_err(),
        NormalizeError::BadInteger
    );
    assert_eq!(
        assemble(two_bells(), readings(), date, None, Some(1)).unwrap_err(),
        NormalizeError::BadInteger
    );
    let mut raw = two_bells();
    raw.week_type = String::from("?");
    assert_eq!(
        assemble(raw, readings(), date, Some(1), Some(1)).unwrap_err(),
        NormalizeError::UnknownWeekType
    );
}

#[test]
fn times_are_read_bell_by_bell() {
    let bells = vec![raw_bell("1", "09:05"), raw_bell("2", "late"), raw_bell("3", "11:50")];
    assert_eq!(
        read_times(&bells),
        vec![Some(TimeOfDay::from_hms(9, 5, 0)), None, Some(TimeOfDay::from_hms(11, 50, 0))]
    );
    assert!(read_times(&Vec::new()).is_empty());
}
