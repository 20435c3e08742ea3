use ora::logging::zone::{CHRONO_MAX_TIMESTAMP, CHRONO_MIN_TIMESTAMP};
use ora::logging::clock::{
    blank, configured_timezone, configured_timezone_name, local_offset, local_offset_millis,
    millis_from_unix_nanos, now_local, now_millis, offset_for_unix_timestamp, read_utc_clock,
    offset_from_seconds, offset_millis, reading_unix_nanos, unix_timestamp_nanos,
    UtcReading, DEFAULT_TIMEZONE,
};

#[test]
fn blank_detects_whitespace_only_values() {
    assert!(blank(""));
    assert!(blank("   \t\n"));
    assert!(blank("\u{3000}\u{a0}"));
    assert!(!blank(" UTC "));
    assert!(!blank("Asia/Tokyo"));
}

#[test]
fn prefers_application_timezone_variable() {
    let name = configured_timezone_name(
        Some("Europe/Paris".to_string()),
        Some("Asia/Tokyo".to_string()),
    );
    assert_eq!(name, "Europe/Paris");
}

#[test]
fn skips_blank_application_timezone_variable() {
    let name = configured_timezone_name(Some("  ".to_string()), Some("Asia/Tokyo".to_string()));
    assert_eq!(name, "Asia/Tokyo");
    let name = configured_timezone_name(None, Some("Asia/Tokyo".to_string()));
    assert_eq!(name, "Asia/Tokyo");
}

#[test]
fn defaults_to_shanghai_without_usable_variables() {
    assert_eq!(configured_timezone_name(None, None), DEFAULT_TIMEZONE);
    assert_eq!(
        configured_timezone_name(Some("".to_string()), Some("\t".to_string())),
        "Asia/Shanghai"
    );
}

#[test]
fn keeps_surrounding_whitespace_of_usable_values() {
    assert_eq!(
        configured_timezone_name(Some(" Asia/Tokyo".to_string()), None),
        " Asia/Tokyo"
    );
}

#[test]
fn resolves_known_zones_and_falls_back_to_utc() {
    assert_eq!(configured_timezone("Asia/Shanghai").name(), "Asia/Shanghai");
    assert_eq!(configured_timezone("Mars/Olympus").name(), "UTC");
    assert_eq!(configured_timezone("asia/shanghai").name(), "UTC");
    assert_eq!(configured_timezone("Europe/Berlin").name(), "Europe/Berlin");
    assert_eq!(configured_timezone("").name(), "UTC");
}

#[test]
fn zone_offsets_follow_zone_data() {
    let shanghai = configured_timezone("Asia/Shanghai");
    assert_eq!(offset_for_unix_timestamp(&shanghai, 0), 28_800);
    let new_york = configured_timezone("America/New_York");
    // 2023-11-14, standard time.
    assert_eq!(offset_for_unix_timestamp(&new_york, 1_700_000_000), -18_000);
    // 2023-07-01, daylight saving time.
    assert_eq!(offset_for_unix_timestamp(&new_york, 1_688_169_600), -14_400);
    assert_eq!(offset_for_unix_timestamp(&configured_timezone("UTC"), 1_700_000_000), 0);
}

#[test]
fn out_of_range_instants_use_offset_zero() {
    let shanghai = configured_timezone("Asia/Shanghai");
    assert_eq!(offset_for_unix_timestamp(&shanghai, i64::MAX), 0);
}

#[test]
fn invalid_offsets_become_utc() {
    assert_eq!(offset_from_seconds(93_599), 93_599);
    assert_eq!(offset_from_seconds(-93_599), -93_599);
    assert_eq!(offset_from_seconds(93_600), 0);
    assert_eq!(offset_from_seconds(i32::MIN), 0);
}

#[test]
fn combines_seconds_and_nanoseconds() {
    assert_eq!(unix_timestamp_nanos(1, 500_000_000), 1_500_000_000);
    assert_eq!(unix_timestamp_nanos(-1, 0), -1_000_000_000);
    assert_eq!(
        unix_timestamp_nanos(i64::MIN, 999_999_999),
        i64::MIN as i128 * 1_000_000_000 + 999_999_999
    );
}

#[test]
fn readings_outside_time_range_are_rejected() {
    let reading = UtcReading {
        timestamp: 1_546_300_800,
        subsec_nanos: 7,
    };
    assert_eq!(reading_unix_nanos(reading), Some(1_546_300_800_000_000_007));
    let far = UtcReading {
        timestamp: i64::MAX,
        subsec_nanos: 0,
    };
    assert_eq!(reading_unix_nanos(far), None);
}

#[test]
fn millis_round_toward_zero_without_truncation() {
    assert_eq!(millis_from_unix_nanos(1_999_999), 1);
    assert_eq!(millis_from_unix_nanos(-1_999_999), -1);
    assert_eq!(millis_from_unix_nanos(0), 0);
    assert_eq!(
        millis_from_unix_nanos(253_402_300_799_999_999_999),
        253_402_300_799_999
    );
}

#[test]
fn offset_millis_scales_seconds() {
    assert_eq!(offset_millis(28_800), 28_800_000);
    assert_eq!(offset_millis(-93_599), -93_599_000);
}

#[test]
fn current_readings_are_consistent() {
    let shanghai = configured_timezone("Asia/Shanghai");
    let local = now_local(&shanghai).unwrap();
    assert_eq!(local.offset_seconds, 28_800);
    assert!(local.unix_timestamp_nanos > 1_600_000_000_000_000_000);
    assert_eq!(local_offset(&shanghai), Some(28_800));
    assert_eq!(local_offset_millis(&shanghai), Some(28_800_000));
    let millis = now_millis(&shanghai).unwrap();
    assert!(millis > 1_600_000_000_000);
    assert!(millis >= (local.unix_timestamp_nanos / 1_000_000) as i64);
    let utc = configured_timezone("Nowhere/Invalid");
    assert_eq!(now_local(&utc).unwrap().offset_seconds, 0);
    assert_eq!(local_offset_millis(&utc), Some(0));
}

#[test]
fn clock_reads_representable_instants() {
    let reading = read_utc_clock().unwrap();
    assert!(reading.subsec_nanos < 1_000_000_000);
    assert!(reading.timestamp > 1_600_000_000);
}

#[test]
fn milliseconds_do_not_depend_on_the_zone() {
    let shanghai = configured_timezone("Asia/Shanghai");
    let new_york = configured_timezone("America/New_York");
    let first = now_millis(&shanghai).unwrap();
    let second = now_millis(&new_york).unwrap();
    assert!(second >= first);
    assert!(second - first < 60_000);
}

#[test]
fn time_range_bounds_are_exact() {
    let at = |timestamp: i64, subsec_nanos: u32| reading_unix_nanos(UtcReading { timestamp, subsec_nanos });
    assert!(at(253_402_300_799, 999_999_999).is_some());
    assert!(at(253_402_300_800, 0).is_none());
    assert!(at(-377_705_116_800, 0).is_some());
    assert!(at(-377_705_116_801, 999_999_999).is_none());
}

#[test]
fn chrono_range_bounds_are_exact() {
    let shanghai = configured_timezone("Asia/Shanghai");
    assert_eq!(offset_for_unix_timestamp(&shanghai, CHRONO_MAX_TIMESTAMP), 28_800);
    assert_eq!(offset_for_unix_timestamp(&shanghai, CHRONO_MAX_TIMESTAMP + 1), 0);
    assert_ne!(offset_for_unix_timestamp(&shanghai, CHRONO_MIN_TIMESTAMP), 0);
    assert_eq!(offset_for_unix_timestamp(&shanghai, CHRONO_MIN_TIMESTAMP - 1), 0);
}
