use garmin_export::datetime::{deserialize, timestamp_of, FORMAT};
use garmin_export::error::ApiError;

#[test]
fn start_time_is_read_as_utc() {
    assert_eq!(deserialize("2020-08-15 10:03:11"), Ok(1597485791));
    assert_eq!(deserialize("1970-01-01 00:00:00"), Ok(0));
    assert_eq!(deserialize("1969-12-31 23:59:59"), Ok(-1));
}

#[test]
fn text_in_another_layout_is_refused() {
    assert_eq!(deserialize("2020-08-15T10:03:11Z"), Err(ApiError::DecodeFailed));
    assert_eq!(deserialize("2020-08-15"), Err(ApiError::DecodeFailed));
    assert_eq!(deserialize("2020-13-15 10:03:11"), Err(ApiError::DecodeFailed));
    assert_eq!(deserialize(""), Err(ApiError::DecodeFailed));
}

#[test]
fn layout_is_date_and_time() {
    assert_eq!(FORMAT, "%Y-%m-%d %H:%M:%S");
}

#[test]
fn seconds_read_are_kept() {
    assert_eq!(timestamp_of(Some(5)), Ok(5));
    assert_eq!(timestamp_of(None), Err(ApiError::DecodeFailed));
}
