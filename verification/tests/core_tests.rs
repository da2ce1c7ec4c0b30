use keylogger::capture::CaptureState;
use keylogger::chars::chars_match;
use keylogger::chars::chars_to_string;
use keylogger::chars::push_all;
use keylogger::chars::str_eq;
use keylogger::chars::str_to_chars;
use keylogger::clock::Today;
use keylogger::dates::PlainDate;
use keylogger::dates::add_days;
use keylogger::dates::date_is_valid;
use keylogger::dates::is_leap_year;
use keylogger::dates::month_length;
use keylogger::dates::next_day;
use keylogger::input::decode_input_event;
use keylogger::keys::key_name;
use keylogger::notification::Notifyer;
use keylogger::notification::TermOut;
use keylogger::parser::parse;
use keylogger::parser::parse_on;
use keylogger::token::DateTimeElt;
use keylogger::token::parse_as_time;
use keylogger::token::parse_month;

fn fixed_today() -> Today {
    Today { date: PlainDate { year: 2018, month: 12, day: 8 }, days_from_monday: 5 }
}

fn chars_of(s: &str) -> Vec<char> {
    s.chars().collect()
}

fn classify(token: &str, year: i32) -> Option<DateTimeElt> {
    parse_as_time(&chars_of(token), year)
}

#[test]
fn capture_start_marker_only_discards() {
    let mut st = CaptureState::new();
    for s in ["h", "e", "l", "l", "o", "/", "/"] {
        assert_eq!(st.step(s), None);
    }
}

#[test]
fn capture_second_pass_emits_hello() {
    let mut st = CaptureState::new();
    for s in ["h", "e", "l", "l", "o", "/", "/"] {
        assert_eq!(st.step(s), None);
    }
    let mut emitted = None;
    for s in ["h", "e", "l", "l", "o", "/", "/"] {
        assert_eq!(emitted, None);
        emitted = st.step(s);
    }
    assert_eq!(emitted, Some("hello".to_string()));
}

#[test]
fn capture_backspace_and_named_keys() {
    let mut st = CaptureState::new();
    let mut emitted = None;
    for s in ["/", "/", "a", "<Enter>", "b", "<Backspace>", "c", "/", "x", "/", "/"] {
        assert_eq!(emitted, None);
        emitted = st.step(s);
    }
    // "<Enter>" is ignored, "<Backspace>" removes "b", the lone "/" is kept.
    assert_eq!(emitted, Some("ac/x".to_string()));
}

#[test]
fn capture_backspace_on_empty_buffer() {
    let mut st = CaptureState::new();
    assert_eq!(st.step("/"), None);
    assert_eq!(st.step("/"), None);
    assert_eq!(st.step("<Backspace>"), None);
    assert_eq!(st.step("z"), None);
    assert_eq!(st.step("/"), None);
    assert_eq!(st.step("/"), Some("z".to_string()));
}

#[test]
fn capture_separated_slashes_are_no_marker() {
    let mut st = CaptureState::new();
    assert_eq!(st.step("/"), None);
    assert_eq!(st.step("a"), None);
    assert_eq!(st.step("/"), None);
    assert_eq!(st.step("/"), None);
    // Only the last two "/" formed the start marker; capture is on now.
    assert_eq!(st.step("q"), None);
    assert_eq!(st.step("/"), None);
    assert_eq!(st.step("/"), Some("q".to_string()));
}

#[test]
fn classify_case_insensitive_weekdays_and_literals() {
    assert_eq!(classify("MONDAY", 2018), classify("monday", 2018));
    assert_eq!(classify("Tue", 2018), classify("tue", 2018));
    assert_eq!(classify("TODAY", 2018), Some(DateTimeElt::Today));
    assert_eq!(classify("Tomorrow", 2018), Some(DateTimeElt::Tomorrow));
    assert_eq!(classify("monday", 2018), Some(DateTimeElt::RelativeWeekday(0)));
    assert_eq!(classify("sun", 2018), Some(DateTimeElt::RelativeWeekday(6)));
    assert_eq!(classify("JAN12", 2018), classify("jan12", 2018));
    assert_eq!(classify("10AM", 2018), classify("10am", 2018));
}

#[test]
fn classify_weekday_rejects_partial_names() {
    assert_eq!(classify("mond", 2018), None);
    assert_eq!(classify("tues", 2018), None);
    assert_eq!(classify("saturday", 2018), Some(DateTimeElt::RelativeWeekday(5)));
}

#[test]
fn classify_clock_forms() {
    match classify("8a", 2018) {
        Some(DateTimeElt::RelativeTime(pt)) => {
            assert_eq!((pt.hour, pt.minute, pt.second), (8, 0, 0));
        },
        _ => panic!("8a should be a time"),
    }
    match classify("12am", 2018) {
        Some(DateTimeElt::RelativeTime(pt)) => {
            assert_eq!((pt.hour, pt.minute), (12, 0));
        },
        _ => panic!("12am should be a time"),
    }
    match classify("10:30p", 2018) {
        Some(DateTimeElt::RelativeTime(pt)) => {
            assert_eq!((pt.hour, pt.minute), (22, 30));
        },
        _ => panic!("10:30p should be a time"),
    }
    assert_eq!(classify("0am", 2018), None);
    assert_eq!(classify("111am", 2018), None);
    assert_eq!(classify("10:3am", 2018), None);
}

#[test]
fn classify_clock_keeps_odd_noon_and_minute() {
    // Preserved oddities: "12pm" becomes hour 24, and a minute of exactly 60
    // is accepted.
    match classify("12pm", 2018) {
        Some(DateTimeElt::RelativeTime(pt)) => {
            assert_eq!((pt.hour, pt.minute), (24, 0));
        },
        _ => panic!("12pm should be a time"),
    }
    match classify("10:60am", 2018) {
        Some(DateTimeElt::RelativeTime(pt)) => {
            assert_eq!((pt.hour, pt.minute), (10, 60));
        },
        _ => panic!("10:60am should be a time"),
    }
    assert_eq!(classify("10:61am", 2018), None);
}

#[test]
fn classify_numeric_dates() {
    match classify("9-12", 2018) {
        Some(DateTimeElt::RelativeDate(d)) => {
            assert_eq!((d.year, d.month, d.day), (2018, 9, 12));
        },
        _ => panic!("9-12 should be a date"),
    }
    match classify("10/12/2019", 2018) {
        Some(DateTimeElt::RelativeDate(d)) => {
            assert_eq!((d.year, d.month, d.day), (2019, 10, 12));
        },
        _ => panic!("10/12/2019 should be a date"),
    }
    // The two separators may differ.
    match classify("10-12/2019", 2018) {
        Some(DateTimeElt::RelativeDate(d)) => {
            assert_eq!((d.year, d.month, d.day), (2019, 10, 12));
        },
        _ => panic!("10-12/2019 should be a date"),
    }
    // Invalid calendar dates are rejected.
    assert_eq!(classify("2-30", 2018), None);
    assert_eq!(classify("13-1", 2018), None);
    assert_eq!(classify("0-5", 2018), None);
    // February 29th exists only in leap years.
    assert!(classify("2-29", 2020).is_some());
    assert_eq!(classify("2-29", 2019), None);
    // The year must have exactly four digits.
    assert_eq!(classify("1-2-345", 2018), None);
    assert_eq!(classify("1-2-34567", 2018), None);
}

#[test]
fn classify_named_dates() {
    match classify("jan12", 2018) {
        Some(DateTimeElt::RelativeDate(d)) => {
            assert_eq!((d.year, d.month, d.day), (2018, 1, 12));
        },
        _ => panic!("jan12 should be a date"),
    }
    // The letters before the day need only start with a month abbreviation.
    match classify("january12", 2018) {
        Some(DateTimeElt::RelativeDate(d)) => {
            assert_eq!((d.year, d.month, d.day), (2018, 1, 12));
        },
        _ => panic!("january12 should be a date"),
    }
    assert_eq!(classify("jan0", 2018), None);
    assert_eq!(classify("jan123", 2018), None);
    assert_eq!(classify("ja1", 2018), None);
    assert_eq!(classify("feb30", 2018), None);
}

#[test]
fn classify_rejects_plain_words() {
    assert_eq!(classify("greens", 2018), None);
    assert_eq!(classify("at", 2018), None);
    assert_eq!(classify("to", 2018), None);
    assert_eq!(classify("", 2018), None);
}

#[test]
fn parse_month_prefixes() {
    assert_eq!(parse_month("january"), Some(1));
    assert_eq!(parse_month("jan"), Some(1));
    assert_eq!(parse_month("dec"), Some(12));
    assert_eq!(parse_month("sep"), Some(9));
    assert_eq!(parse_month("ja"), None);
    assert_eq!(parse_month("xyz"), None);
}

#[test]
fn parse_is_deterministic() {
    let a = parse_on("take jenny to park at greens tomorrow 6am to 10:30p", fixed_today());
    let b = parse_on("take jenny to park at greens tomorrow 6am to 10:30p", fixed_today());
    assert_eq!(a, b);
    let c = parse("help me today");
    let d = parse("help me today");
    assert_eq!(c, d);
}

#[test]
fn parse_no_anchor_date_is_rejected() {
    assert!(parse("buy milk at the store").is_none());
    assert!(parse("to to at at").is_none());
}

#[test]
fn parse_at_without_location_tokens() {
    // "at" alone switches collection to the location, which stays empty.
    let out = parse_on("meet someone at today", fixed_today()).expect("should parse");
    assert_eq!(out.desc, "meet someone");
    assert_eq!(out.location, None);
    assert_eq!(out.end_time, None);
}

#[test]
fn parse_to_before_any_date_is_plain_text() {
    // "to" counts as a keyword only once a start time was recognized.
    let out = parse_on("go to bed today", fixed_today()).expect("should parse");
    assert_eq!(out.desc, "go to bed");
}

#[test]
fn parse_weekday_of_today_resolves_to_today() {
    // Naming the current day's own weekday resolves to today, not a week out.
    let out = parse_on("test saturday", fixed_today()).expect("should parse");
    assert_eq!(
        (out.start_time.date.year, out.start_time.date.month, out.start_time.date.day),
        (2018, 12, 8),
    );
}

#[test]
fn parse_tomorrow_rolls_over_the_year() {
    let eve = Today { date: PlainDate { year: 2019, month: 12, day: 31 }, days_from_monday: 1 };
    let out = parse_on("party tomorrow 10p", eve).expect("should parse");
    assert_eq!(
        (out.start_time.date.year, out.start_time.date.month, out.start_time.date.day),
        (2020, 1, 1),
    );
    assert_eq!(out.start_time.time.hour, 22);
    assert_eq!(out.desc, "party");
}

#[test]
fn decode_key_down_record() {
    let mut buf = [0u8; 24];
    buf[16] = 1;  // kind: key event
    buf[18] = 35;  // code: "h"
    buf[20] = 1;  // value: down
    let e = decode_input_event(&buf);
    assert_eq!(e.my_type, 1);
    assert_eq!(e.code, 35);
    assert_eq!(e.value, 1);
    assert_eq!(e.tv_sec, 0);
    assert_eq!(e.tv_usec, 0);
    assert!(e.is_key_down());
}

#[test]
fn decode_little_endian_fields() {
    let mut buf = [0u8; 24];
    buf[0] = 0x15;
    buf[1] = 0xCD;
    buf[2] = 0x5B;
    buf[3] = 0x07;  // tv_sec = 123456789
    buf[16] = 0x01;
    buf[17] = 0x02;  // kind = 0x0201
    buf[18] = 0x35;
    buf[19] = 0x01;  // code = 0x0135
    buf[20] = 0xFF;
    buf[21] = 0xFF;
    buf[22] = 0xFF;
    buf[23] = 0xFF;  // value = -1
    let e = decode_input_event(&buf);
    assert_eq!(e.tv_sec, 123456789);
    assert_eq!(e.my_type, 0x0201);
    assert_eq!(e.code, 0x0135);
    assert_eq!(e.value, -1);
    assert!(!e.is_key_down());
}

#[test]
fn decode_negative_time_field() {
    let buf = [0xFFu8; 24];
    let e = decode_input_event(&buf);
    assert_eq!(e.tv_sec, -1);
    assert_eq!(e.tv_usec, -1);
    assert_eq!(e.value, -1);
    assert_eq!(e.my_type, 0xFFFF);
    assert_eq!(e.code, 0xFFFF);
}

#[test]
fn key_names_resolve() {
    assert_eq!(key_name(35), "h");
    assert_eq!(key_name(53), "/");
    assert_eq!(key_name(14), "<Backspace>");
    assert_eq!(key_name(57), " ");
    assert_eq!(key_name(0), "<UK>");
    assert_eq!(key_name(84), "<UK>");
    assert_eq!(key_name(111), "<Delete>");
    assert_eq!(key_name(112), "<UK>");
    assert_eq!(key_name(60000), "<UK>");
}

#[test]
fn keys_drive_capture_to_command() {
    // h e l l o, typed by key codes, between two double-slash markers.
    let mut st = CaptureState::new();
    let codes: [u16; 11] = [53, 53, 35, 18, 38, 38, 24, 57, 6, 53, 53];
    let mut emitted = None;
    for c in codes {
        assert_eq!(emitted, None);
        emitted = st.step(key_name(c));
    }
    assert_eq!(emitted, Some("hello 5".to_string()));
}

#[test]
fn calendar_math() {
    assert!(is_leap_year(2020));
    assert!(is_leap_year(2000));
    assert!(!is_leap_year(1900));
    assert!(!is_leap_year(2023));
    assert_eq!(month_length(2020, 2), 29);
    assert_eq!(month_length(2021, 2), 28);
    assert_eq!(month_length(2021, 4), 30);
    assert_eq!(month_length(2021, 12), 31);
    assert!(date_is_valid(2020, 2, 29));
    assert!(!date_is_valid(2019, 2, 29));
    assert!(!date_is_valid(2019, 0, 1));
    let d = next_day(PlainDate { year: 2019, month: 12, day: 31 });
    assert_eq!((d.year, d.month, d.day), (2020, 1, 1));
    let d = next_day(PlainDate { year: 2020, month: 2, day: 28 });
    assert_eq!((d.year, d.month, d.day), (2020, 2, 29));
    let d = add_days(PlainDate { year: 2018, month: 12, day: 28 }, 5);
    assert_eq!((d.year, d.month, d.day), (2019, 1, 2));
}

#[test]
fn char_helpers_round_trip() {
    let v = str_to_chars("hello world");
    assert_eq!(v.len(), 11);
    assert_eq!(chars_to_string(&v, 0, v.len()), "hello world");
    assert_eq!(chars_to_string(&v, 6, 11), "world");
    assert!(chars_match(&v, 0, 5, "hello"));
    assert!(!chars_match(&v, 0, 5, "hullo"));
    assert!(!chars_match(&v, 0, 4, "hello"));
    assert!(str_eq("abc", "abc"));
    assert!(!str_eq("abc", "abd"));
    assert!(!str_eq("abc", "ab"));
    let mut d = str_to_chars("ab");
    push_all(&mut d, &str_to_chars("cd"));
    assert_eq!(chars_to_string(&d, 0, d.len()), "abcd");
}

#[test]
fn client_secret_parses_console_json() {
    let good = r#"{"installed":{"client_id":"id","client_secret":"secret",
        "token_uri":"https://oauth2.googleapis.com/token",
        "auth_uri":"https://accounts.google.com/o/oauth2/auth",
        "redirect_uris":[]}}"#;
    let parsed = keylogger::secret::read_client_secret(good.as_bytes());
    let secret = parsed.expect("console secret should parse");
    assert_eq!(secret.client_id, "id");
    assert!(keylogger::secret::read_client_secret(b"not json").is_none());
    assert!(keylogger::secret::read_client_secret(b"{}").is_none());
}

#[test]
fn term_out_notifies() {
    let n = TermOut;
    assert!(n.notify_success().is_ok());
    assert!(n.notify_failure().is_ok());
}

#[test]
fn event_fields_are_plain_values() {
    let e = parse_on("lunch with sam at cafe jun1 11:30a to 1:30p", fixed_today())
        .expect("should parse");
    assert_eq!(e.desc, "lunch with sam");
    assert_eq!(e.location, Some("cafe".to_string()));
    let s = e.start_time;
    assert_eq!((s.date.year, s.date.month, s.date.day), (2018, 6, 1));
    assert_eq!((s.time.hour, s.time.minute), (11, 30));
    let en = e.end_time.expect("end time");
    assert_eq!((en.date.year, en.date.month, en.date.day), (2018, 6, 1));
    assert_eq!((en.time.hour, en.time.minute), (13, 30));
}
