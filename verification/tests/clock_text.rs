use preflight::dates::{relative_time, short_clock};

fn now_utc() -> i64 {
    chrono::DateTime::parse_from_str("2026-08-05 14:31:00 +00:00", "%Y-%m-%d %H:%M:%S %z")
        .unwrap()
        .timestamp()
}

// -- relative_time tests --

#[test]
fn test_relative_time_just_now() {
    let now = now_utc();
    // 30 seconds ago
    let ts = "2026-08-05 14:30:30 +00:00";
    assert_eq!(relative_time(ts, now), "just now");
}

#[test]
fn test_relative_time_minutes_ago() {
    let now = now_utc();
    let ts = "2026-08-05 14:28:00 +00:00"; // 3m ago
    assert_eq!(relative_time(ts, now), "3m ago");
}

#[test]
fn test_relative_time_hours_ago() {
    let now = now_utc();
    let ts = "2026-08-05 12:31:00 +00:00"; // 2h ago
    assert_eq!(relative_time(ts, now), "2h ago");
}

#[test]
fn test_relative_time_days_ago() {
    let now = now_utc();
    let ts = "2026-08-01 14:31:00 +00:00"; // 4 days ago
    assert_eq!(relative_time(ts, now), "4d ago");
}

#[test]
fn test_relative_time_unparseable_returns_empty() {
    let now = now_utc();
    assert_eq!(relative_time("not a date", now), "");
    assert_eq!(relative_time("", now), "");
}

// -- short_clock tests --

#[test]
fn test_short_clock_valid() {
    let ts = "2026-08-05 14:31:00 +00:00";
    assert_eq!(short_clock(ts), "14:31");
}

#[test]
fn test_short_clock_unparseable_returns_empty() {
    assert_eq!(short_clock("bad"), "");
    assert_eq!(short_clock(""), "");
}

#[test]
fn test_short_clock_midnight() {
    let ts = "2026-08-05 00:00:00 +00:00";
    assert_eq!(short_clock(ts), "00:00");
}

#[test]
fn test_short_clock_23_59() {
    let ts = "2026-08-05 23:59:00 +00:00";
    assert_eq!(short_clock(ts), "23:59");
}

