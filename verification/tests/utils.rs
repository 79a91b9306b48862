use config_agent::ids::unknown_id;
use config_agent::strings::{str_eq, u64_to_string};
use config_agent::time::{format_timestamp, parse_timestamp, parse_valid_timestamp, MAX_TIMESTAMP_MS, MIN_TIMESTAMP_MS};
use config_agent::utils::calc_exp_backoff;

#[test]
fn exp_backoff_values() {
    assert_eq!(calc_exp_backoff(15, 2, 0, 1000), 15);
    assert_eq!(calc_exp_backoff(15, 2, 3, 1000), 120);
    assert_eq!(calc_exp_backoff(15, 2, 10, 1000), 1000);
    // the power and the product saturate before the cap applies
    assert_eq!(calc_exp_backoff(15, 2, 200, i64::MAX), i64::MAX);
    assert_eq!(calc_exp_backoff(-3, 2, 2, 1000), -12);
    assert_eq!(calc_exp_backoff(i64::MAX / 2 + 1, 2, 1, i64::MAX), i64::MAX);
    assert_eq!(calc_exp_backoff(-(i64::MAX / 2) - 2, 2, 1, 0), i64::MIN);
    assert_eq!(calc_exp_backoff(3, -2, 63, i64::MAX), i64::MIN);
}

#[test]
fn decimal_rendering() {
    assert_eq!(u64_to_string(0), "0");
    assert_eq!(u64_to_string(907), "907");
    assert_eq!(u64_to_string(u64::MAX), u64::MAX.to_string());
    assert!(str_eq("ab", "ab"));
    assert!(!str_eq("ab", "abc"));
}

#[test]
fn timestamps_parse_and_format() {
    assert_eq!(parse_timestamp("1970-01-01T00:00:01Z"), Some(1000));
    assert_eq!(parse_timestamp("2024-02-29T12:00:00+02:00"), Some(1_709_200_800_000));
    assert_eq!(parse_timestamp("yesterday"), None);
    assert_eq!(format_timestamp(1_500), "1970-01-01T00:00:01.500+00:00");
    assert!(MIN_TIMESTAMP_MS < 0);
}

#[test]
fn leap_second_past_the_range_is_not_an_instant() {
    let text = "+262142-12-31T23:59:60.999Z";
    assert_eq!(parse_timestamp(text), Some(MAX_TIMESTAMP_MS + 1000));
    assert_eq!(parse_valid_timestamp(text), None);
    assert_eq!(parse_valid_timestamp("+262142-12-31T23:59:59.999Z"), Some(MAX_TIMESTAMP_MS));
    assert_eq!(parse_valid_timestamp("1970-01-01T00:00:01Z"), Some(1000));
}

#[test]
fn made_up_ids_are_prefixed() {
    assert_eq!(unknown_id("1234"), "unknown-1234");
    let u = uuid::Uuid::new_v4().to_string();
    let a = unknown_id(&u);
    assert!(a.starts_with("unknown-"));
    assert_eq!(a.len(), 44);
}
