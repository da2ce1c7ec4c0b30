use chrono::Datelike;
use keylogger::clock::Today;
use keylogger::dates::PlainDate;
use keylogger::dates::PlainDateTime;
use keylogger::parser::CalendarEvent;
use keylogger::parser::parse;
use keylogger::parser::parse_on;

/// A pinned current day for the tests whose expected dates are written out in
/// full: Saturday, December 8th, 2018.
fn fixed_today() -> Today {
    Today { date: PlainDate { year: 2018, month: 12, day: 8 }, days_from_monday: 5 }
}

/// The real current day, read through chrono, for the tests whose expected
/// dates follow the wall clock.
fn real_today_ymd() -> (i32, u32, u32) {
    let d = chrono::Local::now().date_naive();
    (d.year(), d.month(), d.day())
}

/// The day after the real current day.
fn real_tomorrow_ymd() -> (i32, u32, u32) {
    let d = chrono::Local::now().date_naive().succ_opt().unwrap();
    (d.year(), d.month(), d.day())
}

fn check_dt(dt: &PlainDateTime, ymd: (i32, u32, u32), h: u32, mi: u32) {
    assert_eq!(dt.date.year, ymd.0);
    assert_eq!(dt.date.month, ymd.1);
    assert_eq!(dt.date.day, ymd.2);
    assert_eq!(dt.time.hour, h);
    assert_eq!(dt.time.minute, mi);
    assert_eq!(dt.time.second, 0);
}

/// Expects an event with the given start time and description and nothing
/// else, from the wall clock's current day.
fn test_live(input: &str, exp_ymd: (i32, u32, u32), exp_h: u32, exp_mi: u32, exp_desc: &str) {
    let out = parse(input);
    match out {
        Some(CalendarEvent { start_time, end_time: None, desc, location: None }) => {
            assert_eq!(desc, exp_desc);
            check_dt(&start_time, exp_ymd, exp_h, exp_mi);
        },
        _ => assert!(false),
    }
}

/// Expects an event with the given start time and description and nothing
/// else, from the pinned current day.
fn test_fixed(input: &str, exp_ymd: (i32, u32, u32), exp_h: u32, exp_mi: u32, exp_desc: &str) {
    let out = parse_on(input, fixed_today());
    match out {
        Some(CalendarEvent { start_time, end_time: None, desc, location: None }) => {
            assert_eq!(desc, exp_desc);
            check_dt(&start_time, exp_ymd, exp_h, exp_mi);
        },
        _ => assert!(false),
    }
}

fn failing_test(input: &str) {
    let out = parse(input);
    assert!(out.is_none())
}

#[test]
fn empty_as_my_heart() {
    failing_test("");
}

#[test]
fn today() {
    test_live("help me today", real_today_ymd(), 9, 0, "help me");
}

#[test]
fn tomorrow() {
    test_live("help me tomorrow", real_tomorrow_ymd(), 9, 0, "help me");
}

#[test]
fn ignores_extra() {
    test_live("you only see this today not this", real_today_ymd(), 9, 0, "you only see this");
}

#[test]
fn am1_10am() {
    test_live("test 10am", real_today_ymd(), 10, 0, "test");
}

#[test]
fn am1_8am() {
    test_live("test 8am", real_today_ymd(), 8, 0, "test");
}

#[test]
fn am1_1030am() {
    test_live("test 10:30am", real_today_ymd(), 10, 30, "test");
}

#[test]
fn am1_13am() {
    failing_test("test 13am");
}

#[test]
fn pm1_10am() {
    test_live("test 10pm", real_today_ymd(), 22, 0, "test");
}

#[test]
fn pm1_8am() {
    test_live("test 8p", real_today_ymd(), 20, 0, "test");
}

#[test]
fn pm_108p() {
    test_live("test 1:08p", real_today_ymd(), 13, 8, "test");
}

#[test]
fn am_garbage() {
    failing_test("test asdf8a");
}

#[test]
fn am1_moregarbage() {
    failing_test("test 10:333am");
}

#[test]
fn pm_garbage() {
    failing_test("test 8pasdf");
}

#[test]
fn weekday1() {
    test_fixed("test sun", (2018, 12, 9), 9, 0, "test");
}

#[test]
fn weekday2() {
    test_fixed("test monday 10p", (2018, 12, 10), 22, 0, "test");
}

#[test]
fn date1() {
    test_fixed("test 9-12", (2018, 9, 12), 9, 0, "test");
}

#[test]
fn date2() {
    test_fixed("test 10-12 10p garbage for fun", (2018, 10, 12), 22, 0, "test");
}

#[test]
fn date_next_year() {
    test_fixed("test asdf 10-12-2019 10p garbage for fun", (2019, 10, 12), 22, 0, "test asdf");
}

#[test]
fn date_other_format() {
    test_fixed("test jan12 10p", (2018, 1, 12), 22, 0, "test");
}

#[test]
fn date_other_format2() {
    test_fixed("test tomorrow asdf apr23 10p", (2018, 4, 23), 22, 0, "test");
}

#[test]
fn date_location() {
    let out = parse_on("test asdf at the park 10-12-2019 10p garbage for fun", fixed_today());
    match out {
        Some(CalendarEvent { start_time, end_time: None, desc, location: Some(location) }) => {
            assert_eq!(desc, "test asdf");
            assert_eq!(location, "the park");
            check_dt(&start_time, (2019, 10, 12), 22, 0);
        },
        _ => assert!(false),
    }
}

#[test]
fn date_location2() {
    let out = parse_on("test asdf at the park 10-12-2019 10p garbage for fun", fixed_today());
    match out {
        Some(CalendarEvent { start_time, end_time: None, desc, location: Some(location) }) => {
            assert_eq!(desc, "test asdf");
            assert_eq!(location, "the park");
            check_dt(&start_time, (2019, 10, 12), 22, 0);
        },
        _ => assert!(false),
    }
}

#[test]
fn date_end_time() {
    let out = parse_on("test asdf at the park feb2 10p to 10:30p garbage for fun", fixed_today());
    match out {
        Some(
            CalendarEvent { start_time, end_time: Some(end_time), desc, location: Some(location) },
        ) => {
            assert_eq!(desc, "test asdf");
            assert_eq!(location, "the park");
            check_dt(&start_time, (2018, 2, 2), 22, 0);
            check_dt(&end_time, (2018, 2, 2), 22, 30);
        },
        _ => assert!(false),
    }
}

#[test]
fn date_end_time_random_to() {
    let out = parse("take jenny to park at greens tomorrow 6am to 10:30p garbage for fun");
    match out {
        Some(
            CalendarEvent { start_time, end_time: Some(end_time), desc, location: Some(location) },
        ) => {
            assert_eq!(desc, "take jenny to park");
            assert_eq!(location, "greens");
            check_dt(&start_time, real_tomorrow_ymd(), 6, 0);
            check_dt(&end_time, real_tomorrow_ymd(), 22, 30);
        },
        _ => assert!(false),
    }
}
