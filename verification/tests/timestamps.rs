use mpn::timestamp::{
    from_formatted, normalize, notice_str, timestamp_field, timestamp_string, InvalidTimestamp,
};

#[test]
fn epoch_is_first_second_of_1970() {
    assert_eq!(normalize(Some(0)), Ok(String::from("1970-01-01 00:00:00 UTC")));
}

#[test]
fn known_instant_is_normalized_to_utc() {
    assert_eq!(normalize(Some(1431648000)), Ok(String::from("2015-05-15 00:00:00 UTC")));
    assert_eq!(normalize(Some(1431648000 + 3661)), Ok(String::from("2015-05-15 01:01:01 UTC")));
}

#[test]
fn instant_before_the_epoch() {
    assert_eq!(normalize(Some(-1)), Ok(String::from("1969-12-31 23:59:59 UTC")));
}

#[test]
fn leap_day_is_a_date() {
    assert_eq!(normalize(Some(951782400)), Ok(String::from("2000-02-29 00:00:00 UTC")));
}

#[test]
fn missing_timestamp_is_unavailable() {
    assert_eq!(normalize(None), Err(InvalidTimestamp::Unavailable));
}

#[test]
fn count_beyond_all_dates_is_out_of_range() {
    assert_eq!(normalize(Some(i64::MAX)), Err(InvalidTimestamp::OutOfRange));
    assert_eq!(normalize(Some(i64::MIN)), Err(InvalidTimestamp::OutOfRange));
}

#[test]
fn formatted_text_is_kept() {
    assert_eq!(from_formatted(Some(String::from("x"))), Ok(String::from("x")));
    assert_eq!(from_formatted(None), Err(InvalidTimestamp::OutOfRange));
}

#[test]
fn notices_name_the_reason() {
    assert_eq!(notice_str(InvalidTimestamp::Unavailable), "error: not supported on this platform.");
    assert_eq!(notice_str(InvalidTimestamp::OutOfRange), "error: timestamp out of range.");
}

#[test]
fn valid_timestamp_is_shown_unquoted() {
    let outcome = Ok(String::from("2015-05-15 00:00:00 UTC"));
    assert_eq!(timestamp_field(&outcome), "2015-05-15 00:00:00 UTC");
}

#[test]
fn invalid_timestamp_degrades_to_a_quoted_notice() {
    assert_eq!(
        timestamp_field(&Err(InvalidTimestamp::Unavailable)),
        "\"error: not supported on this platform.\""
    );
    assert_eq!(
        timestamp_field(&Err(InvalidTimestamp::OutOfRange)),
        "\"error: timestamp out of range.\""
    );
}

#[test]
fn raw_timestamp_to_field_value() {
    assert_eq!(timestamp_string(Some(86400)), "1970-01-02 00:00:00 UTC");
    assert_eq!(timestamp_string(None), "\"error: not supported on this platform.\"");
    assert_eq!(timestamp_string(Some(i64::MAX)), "\"error: timestamp out of range.\"");
}
