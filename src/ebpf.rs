use vstd::prelude::*;
use vstd::string::{StrSliceExecFns, StringExecFns};

verus! {

/// Identifier of a managed filter program; it qualifies its pin paths.
#[derive(Clone, Copy, Debug, Default, PartialEq, Eq, Structural)]
pub struct ProgramId(pub u64);

/// A value for one traffic direction.
#[derive(Debug)]
pub enum AttachmentKind<T> {
    Ingress(T),
    Egress(T),
}

/// The filter programs that the compiled image provides.
#[derive(Clone, Copy, Debug, Default, PartialEq, Eq, Structural)]
pub enum ProgramKind {
    CgroupIngressTknb,
    CgroupEgressTknb,
    #[default]
    Unknown,
}

/// Name of a program kind's entry point in the compiled image.
pub open spec fn program_name(kind: ProgramKind) -> Seq<char> {
    match kind {
        ProgramKind::CgroupIngressTknb => "cgroup_ingress_tknb"@,
        ProgramKind::CgroupEgressTknb => "cgroup_egress_tknb"@,
        ProgramKind::Unknown => "unknown"@,
    }
}

impl ProgramKind {
    pub fn to_str(&self) -> (r: &'static str)
        ensures
            r@ == program_name(*self),
    {
        match self {
            ProgramKind::CgroupIngressTknb => "cgroup_ingress_tknb",
            ProgramKind::CgroupEgressTknb => "cgroup_egress_tknb",
            ProgramKind::Unknown => "unknown",
        }
    }
}

/// The program kind whose entry point is named `name`; `Unknown` for any
/// other name.
pub open spec fn kind_named(name: Seq<char>) -> ProgramKind {
    if name == program_name(ProgramKind::CgroupIngressTknb) {
        ProgramKind::CgroupIngressTknb
    } else if name == program_name(ProgramKind::CgroupEgressTknb) {
        ProgramKind::CgroupEgressTknb
    } else {
        ProgramKind::Unknown
    }
}

fn same_text(a: &str, b: &str) -> (r: bool)
    ensures
        r == (a@ == b@),
{
    let n = a.unicode_len();
    if n != b.unicode_len() {
        return false;
    }
    let mut i: usize = 0;
    while i < n
        invariant
            n == a@.len(),
            n == b@.len(),
            i <= n,
            forall|j: int| 0 <= j < i ==> a@[j] == b@[j],
        decreases n - i,
    {
        if a.get_char(i) != b.get_char(i) {
            return false;
        }
        i = i + 1;
    }
    assert(a@ =~= b@);
    true
}

impl ProgramKind {
    /// The kind whose entry point is named `name`, `Unknown` when none is.
    pub fn from_name(name: &str) -> (r: ProgramKind)
        ensures
            r == kind_named(name@),
    {
        if same_text(name, ProgramKind::CgroupIngressTknb.to_str()) {
            ProgramKind::CgroupIngressTknb
        } else if same_text(name, ProgramKind::CgroupEgressTknb.to_str()) {
            ProgramKind::CgroupEgressTknb
        } else {
            ProgramKind::Unknown
        }
    }
}

/// The tables that the compiled image provides.
#[derive(Clone, Copy, Debug, PartialEq, Eq, Structural)]
pub enum MapKind {
    TokenBucket,
    Unknown,
}

/// Name of a table in the compiled image.
pub open spec fn map_name(kind: MapKind) -> Seq<char> {
    match kind {
        MapKind::TokenBucket => "TOKEN_BUCKET"@,
        MapKind::Unknown => "unknown"@,
    }
}

impl MapKind {
    pub fn to_str(&self) -> (r: &'static str)
        ensures
            r@ == map_name(*self),
    {
        match self {
            MapKind::TokenBucket => "TOKEN_BUCKET",
            MapKind::Unknown => "unknown",
        }
    }
}

/// Directory under which cgroups live.
pub const CGROUP_ROOT: &'static str = "/sys/fs/cgroup/";

/// Cgroup name used when none is given.
pub const DEFAULT_CGROUP_NAME: &'static str = "rateforgenamegroup";

/// The cgroup name a requested name resolves to: the default when empty.
pub open spec fn cgroup_name_for(requested: Seq<char>) -> Seq<char> {
    if requested.len() == 0 {
        DEFAULT_CGROUP_NAME@
    } else {
        requested
    }
}

/// Handle of a managed cgroup: its name and its filesystem path, which is the
/// cgroup root followed by the name.
#[derive(Debug)]
pub struct CgroupName {
    path: String,
    name: String,
}

impl CgroupName {
    #[verifier::type_invariant]
    closed spec fn inv(&self) -> bool {
        self.path@ == CGROUP_ROOT@ + self.name@
    }

    pub closed spec fn spec_name(&self) -> Seq<char> {
        self.name@
    }

    pub closed spec fn spec_path(&self) -> Seq<char> {
        self.path@
    }

    /// The handle of the cgroup called `name`, or of the default cgroup when
    /// `name` is empty; its path lies under the cgroup root.
    pub fn new(name: &str) -> (r: CgroupName)
        ensures
            r.spec_name() == cgroup_name_for(name@),
            r.spec_path() == CGROUP_ROOT@ + cgroup_name_for(name@),
    {
        let chosen = if name.is_empty() {
            DEFAULT_CGROUP_NAME
        } else {
            name
        };
        let mut path = String::from_str(CGROUP_ROOT);
        path.append(chosen);
        CgroupName { path, name: String::from_str(chosen) }
    }

    pub fn name(&self) -> (r: &str)
        ensures
            r@ == self.spec_name(),
            self.spec_path() == CGROUP_ROOT@ + r@,
    {
        proof {
            use_type_invariant(self);
        }
        self.name.as_str()
    }

    /// The path: the cgroup root followed by the name.
    pub fn path(&self) -> (r: &str)
        ensures
            r@ == self.spec_path(),
            r@ == CGROUP_ROOT@ + self.spec_name(),
    {
        proof {
            use_type_invariant(self);
        }
        self.path.as_str()
    }
}

impl Clone for CgroupName {
    fn clone(&self) -> (r: CgroupName)
        ensures
            r.spec_name() == self.spec_name(),
            r.spec_path() == self.spec_path(),
    {
        proof {
            use_type_invariant(self);
        }
        CgroupName { path: self.path.clone(), name: self.name.clone() }
    }
}

impl Default for CgroupName {
    /// The handle of the default cgroup.
    fn default() -> (r: CgroupName)
        ensures
            r.spec_name() == DEFAULT_CGROUP_NAME@,
            r.spec_path() == CGROUP_ROOT@ + DEFAULT_CGROUP_NAME@,
    {
        proof {
            reveal_strlit("");
        }
        CgroupName::new("")
    }
}

} // verus!
