use rateforge::ebpf::{CgroupName, MapKind, ProgramId, ProgramKind};
use rateforge::errors::PinError;
use rateforge::pins::{PinLocation, PinType, PinnedObjectBuilder};

#[test]
fn pin_location_under_root() {
    let loc = PinLocation::new("tokenbegress7").unwrap();
    assert_eq!(loc.location(), "/sys/fs/bpf/tokenbegress7");
}

#[test]
fn pin_location_rejects_escaping_names() {
    for name in ["", "/etc/passwd", ".", "..", "a/../b", "../a", "a/..", "./a", "a//b", "a/", "/"] {
        assert!(matches!(PinLocation::new(name), Err(PinError::PathLocation(_))));
    }
    assert!(PinLocation::new("...").is_ok());
    assert!(PinLocation::new(".hidden").is_ok());
}

#[test]
fn pin_location_in_subdirectory() {
    let loc = PinLocation::new("a/b").unwrap();
    assert_eq!(loc.location(), "/sys/fs/bpf/a/b");
    let loc = PinLocation::new("maps/x.y/z..").unwrap();
    assert_eq!(loc.location(), "/sys/fs/bpf/maps/x.y/z..");
}

#[test]
fn pin_location_from_path() {
    let loc = PinLocation::from_path("/sys/fs/bpf/tokenbmap3").unwrap();
    assert_eq!(loc.location(), "/sys/fs/bpf/tokenbmap3");
    let loc = PinLocation::from_path("/sys/fs/bpf/a/b").unwrap();
    assert_eq!(loc.location(), "/sys/fs/bpf/a/b");
    for path in [
        "/sys/fs/bpfx/a",
        "/etc/x",
        "/sys/fs/bpf/",
        "/sys/fs/bpf/a/../../etc",
        "/sys/fs/bpf/..",
        "/sys/fs/bpf/./a",
        "/sys/fs/bpf/a//b",
        "/sys/fs/bpf/a/",
        "/sys",
    ] {
        assert!(matches!(PinLocation::from_path(path), Err(PinError::PathLocation(_))));
    }
}

#[test]
fn program_pin_paths() {
    let e = PinLocation::for_program(ProgramKind::CgroupEgressTknb, ProgramId(7));
    assert_eq!(e.location(), "/sys/fs/bpf/tokenbegress7");
    let i = PinLocation::for_program(ProgramKind::CgroupIngressTknb, ProgramId(42));
    assert_eq!(i.location(), "/sys/fs/bpf/tokenbingress42");
    let z = PinLocation::for_program(ProgramKind::CgroupEgressTknb, ProgramId(0));
    assert_eq!(z.location(), "/sys/fs/bpf/tokenbegress0");
}

#[test]
fn builder_keeps_insertion_order() {
    let a = PinLocation::new("a").unwrap();
    let b = PinLocation::new("b").unwrap();
    let c = PinLocation::new("c").unwrap();
    let pinned = PinnedObjectBuilder::new()
        .program(ProgramId(1), ProgramKind::CgroupIngressTknb, a)
        .map(MapKind::TokenBucket, b)
        .fd(c)
        .build();
    assert_eq!(pinned.len(), 3);
    let mut it = pinned.iter();
    match it.next() {
        Some(PinType::Program(id, kind, loc)) => {
            assert_eq!(*id, ProgramId(1));
            assert_eq!(*kind, ProgramKind::CgroupIngressTknb);
            assert_eq!(loc.location(), "/sys/fs/bpf/a");
        }
        other => panic!("unexpected {:?}", other),
    }
    match it.next() {
        Some(PinType::KernelMap(kind, loc)) => {
            assert_eq!(*kind, MapKind::TokenBucket);
            assert_eq!(loc.location(), "/sys/fs/bpf/b");
        }
        other => panic!("unexpected {:?}", other),
    }
    match it.next() {
        Some(PinType::Fd(loc)) => assert_eq!(loc.location(), "/sys/fs/bpf/c"),
        other => panic!("unexpected {:?}", other),
    }
    assert!(it.next().is_none());
    assert!(pinned.get(3).is_none());
    assert!(matches!(pinned.get(2), Some(PinType::Fd(_))));
}

#[test]
fn builder_pin_type_appends() {
    let loc = PinLocation::new("x").unwrap();
    let pinned = PinnedObjectBuilder::new().pin_type(PinType::Fd(loc)).build();
    assert_eq!(pinned.len(), 1);
}

#[test]
fn kind_names() {
    assert_eq!(ProgramKind::CgroupIngressTknb.to_str(), "cgroup_ingress_tknb");
    assert_eq!(ProgramKind::CgroupEgressTknb.to_str(), "cgroup_egress_tknb");
    assert_eq!(ProgramKind::Unknown.to_str(), "unknown");
    assert_eq!(MapKind::TokenBucket.to_str(), "TOKEN_BUCKET");
    assert_eq!(MapKind::Unknown.to_str(), "unknown");
}

#[test]
fn cgroup_name_and_path() {
    let c = CgroupName::new("firefox");
    assert_eq!(c.name(), "firefox");
    assert_eq!(c.path(), "/sys/fs/cgroup/firefox");
}

#[test]
fn cgroup_empty_name_uses_default() {
    let c = CgroupName::new("");
    assert_eq!(c.name(), "rateforgenamegroup");
    assert_eq!(c.path(), "/sys/fs/cgroup/rateforgenamegroup");
}

#[test]
fn program_kind_from_name() {
    assert_eq!(ProgramKind::from_name("cgroup_ingress_tknb"), ProgramKind::CgroupIngressTknb);
    assert_eq!(ProgramKind::from_name("cgroup_egress_tknb"), ProgramKind::CgroupEgressTknb);
    assert_eq!(ProgramKind::from_name("unknown"), ProgramKind::Unknown);
    assert_eq!(ProgramKind::from_name("cgroup_egress_tknbx"), ProgramKind::Unknown);
    assert_eq!(ProgramKind::from_name(""), ProgramKind::Unknown);
    for kind in [ProgramKind::CgroupIngressTknb, ProgramKind::CgroupEgressTknb] {
        assert_eq!(ProgramKind::from_name(kind.to_str()), kind);
    }
}

#[test]
fn large_program_id_pin_path() {
    let loc = PinLocation::for_program(ProgramKind::CgroupIngressTknb, ProgramId(u64::MAX));
    assert_eq!(loc.location(), "/sys/fs/bpf/tokenbingress18446744073709551615");
}

#[test]
fn clones_keep_their_paths() {
    let loc = PinLocation::new("a/b").unwrap();
    assert_eq!(loc.clone().location(), "/sys/fs/bpf/a/b");
    let c = CgroupName::new("firefox");
    let d = c.clone();
    assert_eq!(d.name(), "firefox");
    assert_eq!(d.path(), "/sys/fs/cgroup/firefox");
}

#[test]
fn default_cgroup_name() {
    let c = CgroupName::default();
    assert_eq!(c.name(), "rateforgenamegroup");
    assert_eq!(c.path(), "/sys/fs/cgroup/rateforgenamegroup");
}
