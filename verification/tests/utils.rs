use dehneevse_mqtt_bridge::utils::{bytes_to_hex, CountDownLatch, USizeCountDownLatch};

#[test]
fn hex_of_nothing_is_empty() {
    assert_eq!(bytes_to_hex(&[]), "");
}

#[test]
fn hex_is_upper_case_and_zero_padded() {
    assert_eq!(bytes_to_hex(&[0x00, 0x01, 0x0A, 0x10, 0xAB, 0xFF]), "00010A10ABFF");
    assert_eq!(bytes_to_hex(&[0x12, 0x34, 0x56, 0x78, 0x9A, 0xBC, 0xDE, 0xF0]), "123456789ABCDEF0");
}

#[test]
fn hex_of_a_serial_has_two_digits_per_byte() {
    assert_eq!(bytes_to_hex(&[0xAA; 16]), "AA".repeat(16));
}

#[test]
fn hex_matches_every_byte_value() {
    for byte in 0..=255u8 {
        assert_eq!(bytes_to_hex(&[byte]), format!("{:02X}", byte));
    }
}

#[test]
fn new_latch_is_drained() {
    let latch = USizeCountDownLatch::new();
    assert!(latch.wait_for_zero());
}

#[test]
fn latch_is_drained_only_after_every_release() {
    let mut latch = USizeCountDownLatch::new();
    for _ in 0..5 {
        latch.count_up();
        assert!(!latch.wait_for_zero());
    }
    for _ in 0..4 {
        latch.count_down();
        assert!(!latch.wait_for_zero());
    }
    latch.count_down();
    assert!(latch.wait_for_zero());
}

#[test]
fn latch_clone_keeps_the_count() {
    let mut latch = USizeCountDownLatch::new();
    latch.count_up();
    let mut copy = latch.clone();
    assert!(!copy.wait_for_zero());
    copy.count_down();
    assert!(copy.wait_for_zero());
    assert!(!latch.wait_for_zero());
}
