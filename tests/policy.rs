use rateforge::policy::{generate_rid, Pid, Policy, PolicyBuilder, Rate, RuleId};

#[test]
fn rid_without_rates_is_offset_basis_low_bits() {
    assert_eq!(generate_rid(None, None), RuleId(40389));
}

#[test]
fn rid_known_values() {
    assert_eq!(generate_rid(Some(&Rate(100)), None), RuleId(44600));
    assert_eq!(generate_rid(None, Some(&Rate(100))), RuleId(21491));
    assert_eq!(generate_rid(Some(&Rate(100)), Some(&Rate(200))), RuleId(29170));
    assert_eq!(generate_rid(Some(&Rate(200)), Some(&Rate(100))), RuleId(56106));
    assert_eq!(generate_rid(Some(&Rate(0)), None), RuleId(7524));
}

#[test]
fn rid_direction_is_mixed_in() {
    for v in [0u64, 1, 100, 4096, u64::MAX] {
        assert_ne!(generate_rid(Some(&Rate(v)), None), generate_rid(None, Some(&Rate(v))));
    }
}

#[test]
fn rid_is_deterministic() {
    let a = generate_rid(Some(&Rate(512)), Some(&Rate(256)));
    let b = generate_rid(Some(&Rate(512)), Some(&Rate(256)));
    assert_eq!(a, b);
    assert!(a.0 <= 0xFFFF);
}

#[test]
fn rate_conversions() {
    assert_eq!(Rate(5).kbits(), 40);
    assert_eq!(Rate(16_000).mbits(), 2);
    assert_eq!(Rate(7).kbs(), 7);
    assert_eq!(Rate(2_500).mbs(), 2);
    assert_eq!(Rate(3).bytes(), 3072);
}

#[test]
fn policy_new_derives_id() {
    let p = Policy::new(Some(Rate(100)), None);
    assert_eq!(p.down(), Some(&Rate(100)));
    assert_eq!(p.up(), None);
    assert_eq!(p.id(), &RuleId(44600));
}

#[test]
fn builder_zero_rate_is_unmanaged() {
    let p = PolicyBuilder::new().down(100).build();
    assert_eq!(p.down(), Some(&Rate(100)));
    assert_eq!(p.up(), None);
    assert_eq!(p.id(), &RuleId(44600));
}

#[test]
fn builder_keeps_upload_rate() {
    let p = PolicyBuilder::new().up(100).build();
    assert_eq!(p.down(), None);
    assert_eq!(p.up(), Some(&Rate(100)));
    assert_eq!(p.id(), &RuleId(21491));
}

#[test]
fn builder_fixed_id_wins() {
    let p = PolicyBuilder::new().down(1).up(2).id(77).name("shaped".to_string()).build();
    assert_eq!(p.id(), &RuleId(77));
    assert_eq!(p.down(), Some(&Rate(1)));
    assert_eq!(p.up(), Some(&Rate(2)));
}

#[test]
fn builder_setters_record_values() {
    let b = PolicyBuilder::new().down(3).up(4).id(5).name("n".to_string());
    assert_eq!(b.down, 3);
    assert_eq!(b.up, 4);
    assert_eq!(b.rid, Some(RuleId(5)));
    assert_eq!(b.name, Some("n".to_string()));
}

#[test]
fn pid_as_task_id() {
    assert_eq!(Pid(4242).as_u64(), 4242);
}
