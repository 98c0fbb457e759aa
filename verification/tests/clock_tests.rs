use cyborgtech::clock::{clamp_seconds, parse_timestamp};
use cyborgtech::error::ApiError;

#[test]
fn empty_timestamps_mean_absent() {
    assert_eq!(parse_timestamp(""), Ok(None));
}

#[test]
fn rfc3339_timestamps_parse_to_epoch_seconds() {
    assert_eq!(parse_timestamp("2024-01-15T12:00:00Z"), Ok(Some(1_705_320_000)));
    assert_eq!(parse_timestamp("2024-01-15T12:00:00+00:00"), Ok(Some(1_705_320_000)));
    // an offset is honoured
    assert_eq!(parse_timestamp("2024-01-15T13:00:00+01:00"), Ok(Some(1_705_320_000)));
}

#[test]
fn calendar_dates_parse_to_midnight() {
    assert_eq!(parse_timestamp("2024-01-15"), Ok(Some(1_705_276_800)));
}

#[test]
fn other_strings_are_invalid() {
    assert_eq!(parse_timestamp("yesterday"), Err(ApiError::InvalidRequest));
    assert_eq!(parse_timestamp("2024/01/15"), Err(ApiError::InvalidRequest));
    assert_eq!(parse_timestamp("2024-13-40"), Err(ApiError::InvalidRequest));
}

#[test]
fn clamping_floors_pre_epoch_readings_at_zero() {
    assert_eq!(clamp_seconds(-5), 0);
    assert_eq!(clamp_seconds(0), 0);
    assert_eq!(clamp_seconds(1_700_000_000), 1_700_000_000);
}
