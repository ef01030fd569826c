use run_scope_backend::ids::{random_id, timestamp_at, timestamp_now};

#[test]
fn random_ids_are_version_4_uuids() {
    let id = random_id().unwrap();
    let bytes = id.as_bytes();
    assert_eq!(bytes.len(), 36);
    for position in [8, 13, 18, 23] {
        assert_eq!(bytes[position], b'-');
    }
    assert_eq!(bytes[14], b'4');
    assert!(matches!(bytes[19], b'8' | b'9' | b'a' | b'b'));
    assert!(id
        .chars()
        .all(|c| c == '-' || c.is_ascii_digit() || ('a'..='f').contains(&c)));
    assert_ne!(random_id().unwrap(), id);
}

#[test]
fn timestamps_of_given_instants() {
    assert_eq!(timestamp_at(0, 0).unwrap(), "1970-01-01T00:00:00+00:00");
    assert_eq!(timestamp_at(1431648000, 0).unwrap(), "2015-05-15T00:00:00+00:00");
    assert_eq!(
        timestamp_at(1431648000, 500_000_000).unwrap(),
        "2015-05-15T00:00:00.500+00:00"
    );
    assert_eq!(
        timestamp_at(1431648000, 123_456_789).unwrap(),
        "2015-05-15T00:00:00.123456789+00:00"
    );
}

#[test]
fn unrepresentable_instants_have_no_timestamp() {
    assert!(timestamp_at(u64::MAX, 0).is_none());
    assert!(timestamp_at(i64::MAX as u64, 0).is_none());
    // A nanosecond count past one billion is a leap second, allowed only at
    // the last second of a minute.
    assert!(timestamp_at(1431648000, 1_500_000_000).is_none());
}

#[test]
fn current_timestamp_is_utc_rfc3339() {
    let now = timestamp_now().unwrap();
    assert!(now.ends_with("+00:00"));
    let bytes = now.as_bytes();
    assert!(bytes.len() >= 25);
    assert_eq!((bytes[4], bytes[7], bytes[10], bytes[13], bytes[16]), (b'-', b'-', b'T', b':', b':'));
    assert!(now.as_str() > "2020");
}
