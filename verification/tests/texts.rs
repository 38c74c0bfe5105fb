use retclock::format::push_padded;
use retclock::time::{date_text, footer_text, time_text, ClockTime};

fn padded(n: i64, width: usize) -> String {
    let mut s = String::new();
    push_padded(&mut s, n, width);
    s
}

#[test]
fn padding_matches_the_format_directive() {
    for n in [-12345i64, -100, -5, -1, 0, 1, 5, 9, 10, 99, 100, 2024, 123456] {
        assert_eq!(padded(n, 2), format!("{:02}", n));
        assert_eq!(padded(n, 4), format!("{:04}", n));
        assert_eq!(padded(n, 0), format!("{:00}", n));
        assert_eq!(padded(n, 7), format!("{:07}", n));
    }
    assert_eq!(padded(i64::MIN, 2), format!("{:02}", i64::MIN));
    assert_eq!(padded(i64::MAX, 25), format!("{:025}", i64::MAX));
}

#[test]
fn padding_appends() {
    let mut s = String::from("t=");
    push_padded(&mut s, 7, 3);
    assert_eq!(s, "t=007");
}

#[test]
fn padded_two_digit_fields_read_back() {
    for n in 0..100i64 {
        let s = padded(n, 2);
        assert_eq!(s.len(), 2);
        assert_eq!(s.parse::<i64>().unwrap(), n);
    }
}

#[test]
fn footer_line() {
    let t = ClockTime { year: 2024, month: 1, day: 5, hour: 9, minute: 7, second: 3 };
    assert_eq!(footer_text(&t), "2024-01-05  09:07:03");
    assert_eq!(footer_text(&t).len(), 20);
}

#[test]
fn footer_line_of_odd_values() {
    let t = ClockTime { year: 12, month: 12, day: -1, hour: 123, minute: -45, second: 0 };
    assert_eq!(footer_text(&t), "0012-12--1  123:-45:00");
    let t = ClockTime { year: -7, month: 65535, day: 31, hour: 23, minute: 59, second: 59 };
    assert_eq!(footer_text(&t), "-007-65535-31  23:59:59");
}

#[test]
fn time_lines_with_and_without_seconds() {
    let t = ClockTime { year: 1999, month: 12, day: 31, hour: 23, minute: 59, second: 58 };
    assert_eq!(time_text(&t, true), "23:59:58");
    assert_eq!(time_text(&t, false), "23:59");
    let t = ClockTime { year: 1999, month: 12, day: 31, hour: 0, minute: 0, second: 0 };
    assert_eq!(time_text(&t, true), "00:00:00");
    assert_eq!(time_text(&t, false).len(), 5);
}

#[test]
fn date_lines() {
    let t = ClockTime { year: 987, month: 2, day: 28, hour: 1, minute: 2, second: 3 };
    assert_eq!(date_text(&t, "-"), "0987-02-28");
    assert_eq!(date_text(&t, "/"), "0987/02/28");
    assert_eq!(date_text(&t, ""), "09870228");
}
