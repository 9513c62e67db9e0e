use rateforge::token_bucket::{added_tokens, TokenLimit};

fn state(capacity: u64, bucket: u64, burst: u64, last: u64) -> TokenLimit {
    TokenLimit { token_capacity: capacity, token_bucket: bucket, burst_period: burst, last_tns: last }
}

#[test]
fn new_starts_full_and_unrefilled() {
    let t = TokenLimit::new(1000, 10_000);
    assert_eq!(t.capacity(), 1000);
    assert_eq!(t.bucket(), 1000);
    assert_eq!(t.burst(), 10_000);
    assert_eq!(t.last_tns(), 0);
}

#[test]
fn refill_adds_below_capacity() {
    let mut t = state(1000, 200, 0, 0);
    t.refill(300);
    assert_eq!(t.bucket(), 500);
    assert_eq!(t.capacity(), 1000);
}

#[test]
fn refill_caps_at_capacity() {
    let mut t = state(1000, 900, 0, 0);
    t.refill(2000);
    assert_eq!(t.bucket(), 1000);
}

#[test]
fn refill_saturates_on_overflow() {
    let mut t = state(u64::MAX, u64::MAX - 5, 0, 0);
    t.refill(u64::MAX);
    assert_eq!(t.bucket(), u64::MAX);
}

#[test]
fn refill_never_lowers_the_bucket() {
    for count in [0u64, 1, 17, 999, 1000, u64::MAX] {
        let mut t = state(1000, 400, 0, 0);
        t.refill(count);
        assert!(t.bucket() >= 400);
        assert!(t.bucket() <= 1000);
    }
}

#[test]
fn consume_subtracts() {
    let mut t = state(1000, 700, 0, 0);
    t.consume(200);
    assert_eq!(t.bucket(), 500);
}

#[test]
fn consume_stops_at_zero() {
    let mut t = state(1000, 700, 0, 0);
    t.consume(700);
    assert_eq!(t.bucket(), 0);
    let mut t = state(1000, 700, 0, 0);
    t.consume(5000);
    assert_eq!(t.bucket(), 0);
}

#[test]
fn update_last_tns_sets_only_the_timestamp() {
    let mut t = state(1000, 700, 5, 3);
    t.update_last_tns(99);
    assert_eq!(t.last_tns(), 99);
    assert_eq!(t.bucket(), 700);
    assert_eq!(t.capacity(), 1000);
    assert_eq!(t.burst(), 5);
}

#[test]
fn added_tokens_two_seconds() {
    assert_eq!(added_tokens(1000, 2_000_000_000), 2000);
}

#[test]
fn added_tokens_truncates_sub_second() {
    assert_eq!(added_tokens(1, 999_999_999), 0);
    assert_eq!(added_tokens(3, 500_000_000), 1);
}

#[test]
fn added_tokens_saturates_the_product() {
    assert_eq!(added_tokens(u64::MAX, u64::MAX), 18_446_744_073);
    assert_eq!(added_tokens(1u64 << 63, 4), 18_446_744_073);
    assert_eq!(added_tokens(1u64 << 62, 4), 18_446_744_073);
    assert_eq!(added_tokens(1u64 << 61, 4), 9_223_372_036);
}
