use ms_todo_app::app::dialog::DateTimeInfo;
use ms_todo_app::clock;
use ms_todo_app::text;

#[test]
fn numbers_in_decimal_notation() {
    assert_eq!(text::decimal(0), "0");
    assert_eq!(text::decimal(7), "7");
    assert_eq!(text::decimal(10), "10");
    assert_eq!(text::decimal(9038), "9038");
    assert_eq!(text::decimal(u64::MAX), "18446744073709551615");
}

#[test]
fn text_is_joined_and_compared() {
    assert_eq!(text::join("a", "bc"), "abc");
    assert!(text::starts_with("https", "http"));
    assert!(text::starts_with("x", ""));
    assert!(!text::starts_with("htt", "http"));
    assert!(!text::starts_with("Http", "http"));
    assert!(text::before("", "a"));
    assert!(text::before("a", "ab"));
    assert!(text::before("Z", "a"));
    assert!(text::before("z", "\u{e4}"));
    assert!(!text::before("a", "a"));
    assert!(!text::before("b", "ab"));
}

#[test]
fn a_second_falls_on_its_day() {
    // January 1, 1970.
    assert!(clock::falls_on(0, 719163));
    assert!(clock::falls_on(86399, 719163));
    assert!(!clock::falls_on(86400, 719163));
    assert!(clock::falls_on(86400, 719164));
    assert!(clock::falls_on(-1, 719162));
    // June 15, 2024, 12:00.
    assert!(clock::falls_on(1718452800, 739052));
}

#[test]
fn days_end_with_the_calendar() {
    let first = (clock::FIRST_DAY as i64 - clock::EPOCH_DAY as i64) * 86400;
    let last = (clock::LAST_DAY as i64 - clock::EPOCH_DAY as i64 + 1) * 86400 - 1;
    assert!(clock::falls_on(first, clock::FIRST_DAY));
    assert!(!clock::falls_on(first - 1, clock::FIRST_DAY - 1));
    assert!(clock::falls_on(last, clock::LAST_DAY));
    assert!(!clock::falls_on(last + 1, clock::LAST_DAY + 1));
    assert!(!clock::falls_on(i64::MAX, 0));
    assert!(!clock::falls_on(i64::MIN, 0));
}

#[test]
fn a_day_and_a_time_make_a_point() {
    let mut info = DateTimeInfo::new(719164);
    assert_eq!(info.to_naive_datetime(), 86400);
    info.second_of_day = 3661;
    assert_eq!(info.to_naive_datetime(), 90061);
    assert_eq!(DateTimeInfo::new(719162).to_naive_datetime(), -86400);
}
