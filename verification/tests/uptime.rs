use kbot_rust::decimal::{push_decimal, push_two_digits};
use kbot_rust::uptime::{seconds_to_days, Uptime};

fn formatted(seconds: u64) -> String {
    let days = seconds / 60 / 60 / 24;
    let hours = seconds / 3600 % 24;
    let minutes = seconds % 3600 / 60;
    let sec = seconds % 3600 % 60;
    if days == 0 {
        format!("{}:{:02}:{:02}", hours, minutes, sec)
    } else {
        format!("{} days {}:{:02}:{:02}", days, hours, minutes, sec)
    }
}

#[test]
fn spans_below_a_day_are_written_as_a_clock() {
    assert_eq!(seconds_to_days(0), "0:00:00");
    assert_eq!(seconds_to_days(1), "0:00:01");
    assert_eq!(seconds_to_days(59), "0:00:59");
    assert_eq!(seconds_to_days(60), "0:01:00");
    assert_eq!(seconds_to_days(3599), "0:59:59");
    assert_eq!(seconds_to_days(3600), "1:00:00");
    assert_eq!(seconds_to_days(3661), "1:01:01");
    assert_eq!(seconds_to_days(36_000), "10:00:00");
    assert_eq!(seconds_to_days(86_399), "23:59:59");
}

#[test]
fn spans_of_a_day_and_more_name_the_days() {
    assert_eq!(seconds_to_days(86_400), "1 days 0:00:00");
    assert_eq!(seconds_to_days(90_061), "1 days 1:01:01");
    assert_eq!(seconds_to_days(172_800 + 43_200 + 1_800 + 30), "2 days 12:30:30");
    assert_eq!(seconds_to_days(100 * 86_400 + 86_399), "100 days 23:59:59");
    assert_eq!(seconds_to_days(u64::MAX), "213503982334601 days 7:00:15");
}

#[test]
fn seconds_to_days_agrees_with_the_formatting_macro() {
    let mut seconds: u64 = 0;
    for step in 0..4000u64 {
        assert_eq!(seconds_to_days(seconds), formatted(seconds));
        seconds = seconds.wrapping_mul(6364136223846793005).wrapping_add(1442695040888963407 + step);
    }
    for seconds in 0..5000u64 {
        assert_eq!(seconds_to_days(seconds * 37), formatted(seconds * 37));
    }
}

#[test]
fn uptime_counts_from_the_start() {
    let uptime = Uptime::started(1_000);
    assert_eq!(uptime.started_at, 1_000);
    assert_eq!(uptime.elapsed(1_000), 0);
    assert_eq!(uptime.elapsed(4_661), 3_661);
    assert_eq!(uptime.elapsed(999), 0);
    assert_eq!(uptime.describe(4_661), "1:01:01");
    assert_eq!(uptime.describe(1_000 + 86_400), "1 days 0:00:00");
    assert_eq!(uptime.describe(0), "0:00:00");
}

#[test]
fn decimal_text_has_no_leading_zeros() {
    for (n, text) in [(0u64, "0"), (7, "7"), (10, "10"), (99, "99"), (100, "100"), (u64::MAX, "18446744073709551615")] {
        let mut out = String::from("n=");
        push_decimal(&mut out, n);
        assert_eq!(out, format!("n={}", text));
    }
}

#[test]
fn two_digit_text_pads_single_digits() {
    for (n, text) in [(0u64, "00"), (7, "07"), (10, "10"), (59, "59"), (100, "100")] {
        let mut out = String::new();
        push_two_digits(&mut out, n);
        assert_eq!(out, text);
    }
}
