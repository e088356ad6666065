use solana_aggregator::timestamp::{checked_timestamp, get_timestamp};

#[test]
fn test_get_timestamp() {
    let timestamp = 1722201110;
    assert_eq!("2024-07-28 21:11:50", get_timestamp(timestamp));
}

#[test]
fn epoch_is_midnight_utc() {
    assert_eq!(get_timestamp(0), "1970-01-01 00:00:00");
    assert_eq!(checked_timestamp(0), Some("1970-01-01 00:00:00".to_string()));
}

#[test]
fn last_second_of_a_leap_day() {
    assert_eq!(get_timestamp(1709251199), "2024-02-29 23:59:59");
    assert_eq!(get_timestamp(1709251200), "2024-03-01 00:00:00");
}

#[test]
fn seconds_before_the_epoch_are_formatted() {
    assert_eq!(checked_timestamp(-1), Some("1969-12-31 23:59:59".to_string()));
}

#[test]
fn checked_agrees_with_plain_on_the_reference_case() {
    assert_eq!(checked_timestamp(1722201110), Some(get_timestamp(1722201110)));
}

#[test]
fn unrepresentable_seconds_give_none() {
    assert_eq!(checked_timestamp(i64::MAX), None);
    assert_eq!(checked_timestamp(i64::MIN), None);
}
