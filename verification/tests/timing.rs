use mvg::display::monitor_relative;
use mvg::models::{Departure, TransportType};
use mvg::timing::{departure_seconds, minutes_until};

fn at(time_ms: i64) -> Departure {
    Departure {
        time_ms,
        planned_ms: time_ms,
        delay_in_minutes: None,
        platform: None,
        realtime: true,
        label: "U6".to_string(),
        destination: "Garching".to_string(),
        transport_type: TransportType::Ubahn,
        cancelled: false,
        messages: vec![],
    }
}

const NOW: i64 = 1_700_000_000;

#[test]
fn ninety_seconds_ahead_is_one_minute() {
    let d = at((NOW + 90) * 1000);
    let m = d.time_to_departure(NOW, 0).unwrap();
    assert_eq!(m, 1);
    assert_eq!(monitor_relative(m), "1 min");
}

#[test]
fn minutes_truncate_toward_zero() {
    assert_eq!(minutes_until((NOW + 119) * 1000, NOW, 0), 1);
    assert_eq!(minutes_until((NOW + 120) * 1000, NOW, 0), 2);
    assert_eq!(minutes_until((NOW + 59) * 1000, NOW, 0), 0);
    assert_eq!(minutes_until((NOW - 90) * 1000, NOW, 0), -1);
    assert_eq!(minutes_until((NOW - 59) * 1000, NOW, 0), 0);
    // the sub-second part of the clock counts
    assert_eq!(minutes_until((NOW + 60) * 1000, NOW, 1), 0);
    // milliseconds of the departure are dropped
    assert_eq!(minutes_until((NOW + 60) * 1000 + 999, NOW, 0), 1);
    assert_eq!(monitor_relative(minutes_until((NOW - 90) * 1000, NOW, 0)), "Now");
}

#[test]
fn unrepresentable_departure_counts_as_epoch() {
    assert_eq!(departure_seconds(i64::MAX), 0);
    assert_eq!(departure_seconds(i64::MIN), 0);
    assert_eq!(departure_seconds(1_500), 1);
    assert_eq!(departure_seconds(-1_500), -1);
    let m = at(i64::MAX).time_to_departure(NOW, 0).unwrap();
    assert_eq!(m, -(NOW / 60));
}

#[test]
fn unrepresentable_clock_gives_none() {
    let d = at(NOW * 1000);
    assert_eq!(d.time_to_departure(i64::MAX, 0), None);
    assert_eq!(d.time_to_departure(NOW, 1_000_000_000), None);
    assert_eq!(d.time_to_departure(NOW, 0), Some(0));
}

#[test]
fn chrono_range_bounds() {
    const MAX_SECS: i64 = 8_210_266_876_799;
    const MIN_SECS: i64 = -8_334_601_228_800;
    assert_eq!(departure_seconds(MAX_SECS * 1000), MAX_SECS);
    assert_eq!(departure_seconds((MAX_SECS + 1) * 1000), 0);
    assert_eq!(departure_seconds(MIN_SECS * 1000), MIN_SECS);
    assert_eq!(departure_seconds((MIN_SECS - 1) * 1000), 0);
    let d = at(NOW * 1000);
    assert!(d.time_to_departure(MAX_SECS, 0).is_some());
    assert_eq!(d.time_to_departure(MAX_SECS + 1, 0), None);
    assert!(d.time_to_departure(MIN_SECS, 0).is_some());
    assert_eq!(d.time_to_departure(MIN_SECS - 1, 0), None);
}
