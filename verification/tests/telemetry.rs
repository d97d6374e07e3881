use daybreak::codec::{FrameError, MAX_PAYLOAD};
use daybreak::telemetry::{devices_reply, parse_devices_reply, DevicesReply, TelemetryCache};

#[test]
fn a_new_cache_holds_nothing() {
    assert_eq!(TelemetryCache::new().snapshot(), None);
}

#[test]
fn the_cache_holds_what_was_stored_last() {
    let mut cache = TelemetryCache::new();
    cache.store(vec![1, 2, 3]);
    assert_eq!(cache.snapshot(), Some(vec![1, 2, 3]));
    cache.store(vec![9]);
    assert_eq!(cache.snapshot(), Some(vec![9]));
    assert_eq!(cache.snapshot(), Some(vec![9]));
}

#[test]
fn the_reply_without_telemetry_is_a_lone_zero() {
    assert_eq!(devices_reply(&None), Ok(vec![0]));
}

#[test]
fn the_reply_with_telemetry_carries_its_length() {
    assert_eq!(devices_reply(&Some(vec![7, 8, 9])), Ok(vec![1, 3, 0, 7, 8, 9]));
    let long = vec![5u8; 0x0203];
    let reply = devices_reply(&Some(long.clone())).unwrap();
    assert_eq!(&reply[..3], &[1, 0x03, 0x02]);
    assert_eq!(&reply[3..], &long[..]);
}

#[test]
fn the_reply_with_empty_telemetry_says_so() {
    assert_eq!(devices_reply(&Some(Vec::new())), Ok(vec![1, 0, 0]));
}

#[test]
fn telemetry_that_is_too_long_is_refused() {
    assert_eq!(devices_reply(&Some(vec![0u8; MAX_PAYLOAD + 1])), Err(FrameError::TooLong));
    assert!(devices_reply(&Some(vec![0u8; MAX_PAYLOAD])).is_ok());
}

#[test]
fn a_reply_is_read_as_far_as_it_is_there() {
    assert_eq!(parse_devices_reply(&[]), DevicesReply::Incomplete);
    assert_eq!(parse_devices_reply(&[0]), DevicesReply::Absent);
    assert_eq!(parse_devices_reply(&[1]), DevicesReply::Incomplete);
    assert_eq!(parse_devices_reply(&[1, 2, 0, 5]), DevicesReply::Incomplete);
    assert_eq!(parse_devices_reply(&[1, 2, 0, 5, 6]), DevicesReply::Present(vec![5, 6]));
    assert_eq!(parse_devices_reply(&[1, 0, 0]), DevicesReply::Present(Vec::new()));
}

#[test]
fn a_first_byte_other_than_one_means_no_telemetry() {
    assert_eq!(parse_devices_reply(&[7, 1, 0, 9]), DevicesReply::Absent);
}

#[test]
fn a_reply_that_was_built_is_read_back() {
    for telemetry in [None, Some(Vec::new()), Some(vec![1, 2, 3]), Some(vec![4u8; 1000])] {
        let reply = devices_reply(&telemetry).unwrap();
        let expected = match telemetry {
            None => DevicesReply::Absent,
            Some(bytes) => DevicesReply::Present(bytes),
        };
        assert_eq!(parse_devices_reply(&reply), expected);
    }
}
