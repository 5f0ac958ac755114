use confidential_token::pod::{PodBool, PodU64};

#[test]
fn flag_bytes_are_zero_and_one() {
    assert_eq!(PodBool::from_bool(false).to_byte(), 0);
    assert_eq!(PodBool::from_bool(true).to_byte(), 1);
    assert_eq!(PodBool::from_byte(0), Some(PodBool::False));
    assert_eq!(PodBool::from_byte(1), Some(PodBool::True));
}

#[test]
fn other_bytes_are_no_flag() {
    for byte in 2..=255u8 {
        assert_eq!(PodBool::from_byte(byte), None);
    }
}

#[test]
fn flag_goes_to_bool_and_back() {
    assert!(PodBool::True.to_bool());
    assert!(!PodBool::False.to_bool());
    assert_eq!(PodBool::from_bool(true), PodBool::True);
    assert_eq!(PodBool::from_bool(false), PodBool::False);
}

#[test]
fn number_is_stored_least_byte_first() {
    assert_eq!(PodU64::from_u64(0), PodU64([0; 8]));
    assert_eq!(PodU64::from_u64(1), PodU64([1, 0, 0, 0, 0, 0, 0, 0]));
    assert_eq!(PodU64::from_u64(256), PodU64([0, 1, 0, 0, 0, 0, 0, 0]));
    assert_eq!(
        PodU64::from_u64(0x0102_0304_0506_0708),
        PodU64([8, 7, 6, 5, 4, 3, 2, 1])
    );
    assert_eq!(PodU64::from_u64(u64::MAX), PodU64([255; 8]));
}

#[test]
fn stored_number_is_read_back() {
    assert_eq!(PodU64([8, 7, 6, 5, 4, 3, 2, 1]).to_u64(), 0x0102_0304_0506_0708);
    assert_eq!(PodU64([255; 8]).to_u64(), u64::MAX);
    assert_eq!(PodU64([0, 0, 0, 0, 0, 0, 0, 128]).to_u64(), 1 << 63);
    for value in [0u64, 1, 255, 256, 65_535, 1 << 32, u64::MAX - 1, u64::MAX] {
        assert_eq!(PodU64::from_u64(value).to_u64(), value);
        assert_eq!(PodU64::from_u64(value), PodU64(value.to_le_bytes()));
    }
}

#[test]
fn conversions_agree_with_the_methods() {
    assert_eq!(PodU64::from(258u64), PodU64([2, 1, 0, 0, 0, 0, 0, 0]));
    assert_eq!(u64::from(PodU64([2, 1, 0, 0, 0, 0, 0, 0])), 258);
    let stored: PodU64 = u64::MAX.into();
    assert_eq!(stored, PodU64([255; 8]));
    let value: u64 = stored.into();
    assert_eq!(value, u64::MAX);
    assert_eq!(PodBool::from(true), PodBool::True);
    assert_eq!(PodBool::from(false), PodBool::False);
    assert!(bool::from(PodBool::True));
    assert!(!bool::from(PodBool::False));
}
