use rateforge::rate_table::{RateTable, Verdict, EGRESS_KEY, INGRESS_KEY, SK_DROP, SK_PASS};
use rateforge::token_bucket::TokenLimit;
use rateforge::rate_table::{admit_packet, cgroup_egress_tknb, cgroup_ingress_tknb};

fn state(capacity: u64, bucket: u64, burst: u64, last: u64) -> TokenLimit {
    TokenLimit { token_capacity: capacity, token_bucket: bucket, burst_period: burst, last_tns: last }
}

#[test]
fn basic_shaping_scenario() {
    let mut table = RateTable::new();
    assert!(table.insert(EGRESS_KEY, state(1000, 1000, 0, 0)));
    assert_eq!(table.decide(EGRESS_KEY, 0, 1500), Verdict::Drop);
    assert_eq!(table.get(EGRESS_KEY).unwrap().bucket(), 1000);
    assert_eq!(table.decide(EGRESS_KEY, 2_000_000_000, 500), Verdict::Admit);
    let t = table.get(EGRESS_KEY).unwrap();
    assert_eq!(t.bucket(), 500);
    assert_eq!(t.last_tns(), 2_000_000_000);
}

#[test]
fn unconfigured_direction_passthrough() {
    let mut table = RateTable::new();
    assert!(table.insert(EGRESS_KEY, state(10, 0, 0, 0)));
    for len in [0u64, 1, 1500, 65_535, u64::MAX] {
        assert_eq!(table.decide(INGRESS_KEY, 5_000, len), Verdict::Admit);
    }
    assert!(table.get(INGRESS_KEY).is_none());
    assert_eq!(table.len(), 1);
    assert_eq!(table.get(EGRESS_KEY).unwrap().bucket(), 0);
}

#[test]
fn empty_table_admits_everything() {
    let mut table = RateTable::new();
    assert_eq!(table.decide(EGRESS_KEY, 0, u64::MAX), Verdict::Admit);
    assert_eq!(table.decide(7, 0, 10), Verdict::Admit);
    assert_eq!(table.len(), 0);
}

#[test]
fn packet_that_fits_spends_its_length() {
    let mut t = state(1000, 800, 1_000_000, 100);
    assert_eq!(admit_packet(&mut t, 200, 300), Verdict::Admit);
    assert_eq!(t.bucket(), 500);
    assert_eq!(t.last_tns(), 100);
}

#[test]
fn packet_equal_to_bucket_is_admitted() {
    let mut t = state(1000, 800, 1_000_000, 100);
    assert_eq!(admit_packet(&mut t, 200, 800), Verdict::Admit);
    assert_eq!(t.bucket(), 0);
}

#[test]
fn packet_too_large_is_dropped_unchanged() {
    let mut t = state(1000, 800, 1_000_000, 100);
    assert_eq!(admit_packet(&mut t, 200, 801), Verdict::Drop);
    assert_eq!(t.bucket(), 800);
    assert_eq!(t.last_tns(), 100);
}

#[test]
fn burst_debounce_skips_refill() {
    let mut t = state(1000, 100, 5_000, 1_000);
    assert_eq!(admit_packet(&mut t, 6_000, 0), Verdict::Admit);
    assert_eq!(t.bucket(), 100);
    assert_eq!(t.last_tns(), 1_000);
}

#[test]
fn refill_after_burst_period() {
    let mut t = state(1_000_000, 0, 5_000, 1_000);
    assert_eq!(admit_packet(&mut t, 1_001_000, 100), Verdict::Admit);
    assert_eq!(t.bucket(), 900);
    assert_eq!(t.last_tns(), 1_001_000);
}

#[test]
fn refill_kept_when_packet_dropped() {
    let mut t = state(1_000_000, 0, 0, 0);
    assert_eq!(admit_packet(&mut t, 1_000_000, 2_000), Verdict::Drop);
    assert_eq!(t.bucket(), 1_000);
    assert_eq!(t.last_tns(), 1_000_000);
}

#[test]
fn clock_behind_last_refill_counts_as_no_time() {
    let mut t = state(1000, 10, 0, 5_000);
    assert_eq!(admit_packet(&mut t, 1_000, 20), Verdict::Drop);
    assert_eq!(t.bucket(), 10);
    assert_eq!(t.last_tns(), 5_000);
}

#[test]
fn sub_second_refill_rounds_down() {
    let mut t = state(1, 0, 0, 0);
    assert_eq!(admit_packet(&mut t, 999_999_999, 1), Verdict::Drop);
    assert_eq!(t.bucket(), 0);
}

#[test]
fn verdict_action_codes() {
    assert_eq!(Verdict::Admit.action_code(), SK_PASS);
    assert_eq!(Verdict::Drop.action_code(), SK_DROP);
    assert_eq!(SK_PASS, 1);
    assert_eq!(SK_DROP, 0);
}

#[test]
fn table_insert_overwrites() {
    let mut table = RateTable::new();
    assert!(table.insert(INGRESS_KEY, state(10, 10, 0, 0)));
    assert!(table.insert(INGRESS_KEY, state(20, 20, 0, 0)));
    assert_eq!(table.len(), 1);
    assert_eq!(table.get(INGRESS_KEY).unwrap().capacity(), 20);
}

#[test]
fn table_refuses_unknown_key() {
    let mut table = RateTable::new();
    assert!(!table.insert(2, state(10, 10, 0, 0)));
    assert_eq!(table.len(), 0);
    assert!(table.get(2).is_none());
}

#[test]
fn table_holds_two_directions_and_removes() {
    let mut table = RateTable::new();
    assert!(table.insert(INGRESS_KEY, state(10, 10, 0, 0)));
    assert!(table.insert(EGRESS_KEY, state(30, 30, 0, 0)));
    assert_eq!(table.len(), 2);
    let removed = table.remove(INGRESS_KEY).unwrap();
    assert_eq!(removed.capacity(), 10);
    assert_eq!(table.len(), 1);
    assert!(table.remove(INGRESS_KEY).is_none());
    assert_eq!(table.get(EGRESS_KEY).unwrap().capacity(), 30);
}

#[test]
fn hooks_return_action_codes_per_direction() {
    let mut table = RateTable::new();
    assert!(table.insert(EGRESS_KEY, state(1000, 100, 0, 0)));
    assert_eq!(cgroup_egress_tknb(&mut table, 0, 150), SK_DROP);
    assert_eq!(cgroup_egress_tknb(&mut table, 0, 60), SK_PASS);
    assert_eq!(table.get(EGRESS_KEY).unwrap().bucket(), 40);
    assert_eq!(cgroup_ingress_tknb(&mut table, 0, 1_000_000), SK_PASS);
    assert!(table.get(INGRESS_KEY).is_none());
}

#[test]
fn refill_uses_saturated_product() {
    let mut t = state(1u64 << 63, 0, 0, 0);
    assert_eq!(admit_packet(&mut t, 4, 18_446_744_074), Verdict::Drop);
    assert_eq!(t.bucket(), 18_446_744_073);
    assert_eq!(t.last_tns(), 4);
}
