use prism_client::platform::{epoch_seconds, fresh_uuid_v7, uuid_v7_at};

fn version(id: u128) -> u128 {
    (id >> 76) & 0xf
}

#[test]
fn uuid_is_laid_out_from_millis_and_bytes() {
    let ones = [0xFFu8; 10];
    assert_eq!(
        uuid_v7_at(Some(0x0123_4567_89AB), Some(ones)),
        Some(0x0123_4567_89AB_7FFF_BFFF_FFFF_FFFF_FFFF)
    );
    let mixed = [0xA1u8, 0xB2, 0xC3, 0xD4, 0xE5, 0xF6, 0x07, 0x18, 0x29, 0x3A];
    let id = uuid_v7_at(Some(0x1122_3344_5566), Some(mixed)).unwrap();
    assert_eq!(id, 0x1122_3344_5566_71B2_83D4_E5F6_0718_293A);
    assert_eq!(id, uuid::Builder::from_unix_timestamp_millis(0x1122_3344_5566, &mixed).into_uuid().as_u128());
    assert_eq!(version(id), 7);
    // Only the low 48 bits of the milliseconds are kept.
    let wide = uuid_v7_at(Some(0xABCD_0000_0000_0001), Some([0u8; 10])).unwrap();
    assert_eq!(wide, 0x0000_0000_0001_7000_8000_0000_0000_0000);
}

#[test]
fn uuid_needs_clock_and_random_bytes() {
    assert_eq!(uuid_v7_at(None, Some([1u8; 10])), None);
    assert_eq!(uuid_v7_at(Some(5), None), None);
    assert_eq!(uuid_v7_at(Some(u64::MAX as u128 + 1), Some([1u8; 10])), None);
    assert!(uuid_v7_at(Some(u64::MAX as u128), Some([1u8; 10])).is_some());
}

#[test]
fn fresh_uuids_are_version_seven_and_distinct() {
    let a = fresh_uuid_v7().expect("clock and random source available");
    let b = fresh_uuid_v7().expect("clock and random source available");
    assert_eq!(version(a), 7);
    assert_eq!(version(b), 7);
    assert_ne!(a, b);
}

#[test]
fn epoch_seconds_of_the_clock_reading() {
    assert_eq!(epoch_seconds(None), 0);
    assert_eq!(epoch_seconds(Some(1_700_000_000)), 1_700_000_000);
}
