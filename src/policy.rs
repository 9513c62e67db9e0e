use vstd::prelude::*;

verus! {

/// FNV-1a 32-bit offset basis, the starting value of a rule-id hash.
pub const FNV_OFFSET_BASIS: u64 = 2166136261;

/// FNV 32-bit prime.
pub const FNV_PRIME: u64 = 16777619;

/// Tag mixed in before the download rate.
pub const DOWN_TAG: u64 = 0x01;

/// Tag mixed in before the upload rate.
pub const UP_TAG: u64 = 0x02;

/// A rate in kilobytes per second.
#[derive(Clone, Copy, Debug, Default, PartialEq, Eq, Hash, Structural)]
pub struct Rate(pub u64);

/// A 16-bit identifier derived from a policy's rates.
#[derive(Clone, Copy, Debug, Default, PartialEq, Eq, Hash, Structural)]
pub struct RuleId(pub u64);

/// A process id.
#[derive(Clone, Copy, Debug, Default, PartialEq, Eq, Hash, Structural)]
pub struct Pid(pub usize);

impl Pid {
    /// The id as the 64-bit task id a cgroup takes.
    pub fn as_u64(&self) -> (r: u64)
        ensures
            r as int == self.0 as int,
    {
        self.0 as u64
    }
}

impl Rate {
    /// Kilobits per second.
    pub fn kbits(&self) -> (r: u64)
        requires
            self.0 <= u64::MAX / 8,
        ensures
            r == self.0 * 8,
    {
        self.0 * 8
    }

    /// Megabits per second, truncated.
    pub fn mbits(&self) -> (r: u64)
        ensures
            r == self.0 / 8000,
    {
        self.0 / 8000
    }

    /// Kilobytes per second.
    pub fn kbs(&self) -> (r: u64)
        ensures
            r == self.0,
    {
        self.0
    }

    /// Megabytes per second, truncated.
    pub fn mbs(&self) -> (r: u64)
        ensures
            r == self.0 / 1000,
    {
        self.0 / 1000
    }

    /// Bytes per second.
    pub fn bytes(&self) -> (r: u64)
        requires
            self.0 <= u64::MAX / 1024,
        ensures
            r == self.0 * 1024,
    {
        self.0 * 1024
    }
}

/// A rate policy: optional download and upload rates and the rule id that
/// names the pair.
#[derive(Debug, PartialEq, Eq, Hash, Default, Structural)]
pub struct Policy {
    down: Option<Rate>,
    up: Option<Rate>,
    id: RuleId,
}

impl Policy {
    pub closed spec fn spec_down(&self) -> Option<Rate> {
        self.down
    }

    pub closed spec fn spec_up(&self) -> Option<Rate> {
        self.up
    }

    pub closed spec fn spec_id(&self) -> RuleId {
        self.id
    }

    /// A policy whose id is derived from its two rates.
    pub fn new(down: Option<Rate>, up: Option<Rate>) -> (r: Policy)
        ensures
            r.spec_down() == down,
            r.spec_up() == up,
            r.spec_id().0 == rid_value(down, up),
    {
        let id = generate_rid(down.as_ref(), up.as_ref());
        Policy { id, down, up }
    }

    pub fn down(&self) -> (r: Option<&Rate>)
        ensures
            rate_of(r) == self.spec_down(),
    {
        self.down.as_ref()
    }

    pub fn up(&self) -> (r: Option<&Rate>)
        ensures
            rate_of(r) == self.spec_up(),
    {
        self.up.as_ref()
    }

    pub fn id(&self) -> (r: &RuleId)
        ensures
            *r == self.spec_id(),
    {
        &self.id
    }
}

/// A rate of `n` kilobytes per second, or none when `n` is zero.
pub open spec fn managed_rate(n: u64) -> Option<Rate> {
    if n != 0 {
        Some(Rate(n))
    } else {
        None
    }
}

/// Collects the parts of a `Policy`; a zero rate leaves its direction
/// unmanaged.
#[derive(Debug, Default)]
pub struct PolicyBuilder {
    pub down: u64,
    pub up: u64,
    pub rid: Option<RuleId>,
    pub name: Option<String>,
}

impl PolicyBuilder {
    pub fn new() -> (r: PolicyBuilder)
        ensures
            r.down == 0,
            r.up == 0,
            r.rid is None,
            r.name is None,
    {
        PolicyBuilder { down: 0, up: 0, rid: None, name: None }
    }

    /// Fixes the rule id instead of deriving it from the rates.
    pub fn id(self, id: u64) -> (r: PolicyBuilder)
        ensures
            r.rid == Some(RuleId(id)),
            r.down == self.down,
            r.up == self.up,
            r.name == self.name,
    {
        PolicyBuilder { rid: Some(RuleId(id)), ..self }
    }

    pub fn down(self, rate: u64) -> (r: PolicyBuilder)
        ensures
            r.down == rate,
            r.up == self.up,
            r.rid == self.rid,
            r.name == self.name,
    {
        PolicyBuilder { down: rate, ..self }
    }

    pub fn up(self, rate: u64) -> (r: PolicyBuilder)
        ensures
            r.up == rate,
            r.down == self.down,
            r.rid == self.rid,
            r.name == self.name,
    {
        PolicyBuilder { up: rate, ..self }
    }

    pub fn name(self, name: String) -> (r: PolicyBuilder)
        ensures
            r.name == Some(name),
            r.down == self.down,
            r.up == self.up,
            r.rid == self.rid,
    {
        PolicyBuilder { name: Some(name), ..self }
    }

    /// The policy: each non-zero rate is managed, and the id is the one fixed
    /// with `id` or else the one derived from the rates.
    pub fn build(self) -> (r: Policy)
        ensures
            r.spec_down() == managed_rate(self.down),
            r.spec_up() == managed_rate(self.up),
            r.spec_id() == (match self.rid {
                Some(id) => id,
                None => RuleId(rid_value(managed_rate(self.down), managed_rate(self.up))),
            }),
    {
        let down = if self.down != 0 {
            Some(Rate(self.down))
        } else {
            None
        };
        let up = if self.up != 0 {
            Some(Rate(self.up))
        } else {
            None
        };
        let id = match self.rid {
            Some(id) => id,
            None => generate_rid(down.as_ref(), up.as_ref()),
        };
        Policy { down, up, id }
    }
}

/// One FNV step pair: mix in `tag`, multiply, mix in `value`, multiply, all
/// modulo 2^64.
pub open spec fn fnv_mix(hash: u64, tag: u64, value: u64) -> u64 {
    let h = ((hash ^ tag) * FNV_PRIME) as u64;
    ((h ^ value) * FNV_PRIME) as u64
}

/// The full 64-bit hash of an optional download and upload rate.
pub open spec fn rid_hash(down: Option<Rate>, up: Option<Rate>) -> u64 {
    let h = match down {
        Some(r) => fnv_mix(FNV_OFFSET_BASIS, DOWN_TAG, r.0),
        None => FNV_OFFSET_BASIS,
    };
    match up {
        Some(r) => fnv_mix(h, UP_TAG, r.0),
        None => h,
    }
}

/// The rule id of an optional download and upload rate: the low 16 bits of
/// the hash.
pub open spec fn rid_value(down: Option<Rate>, up: Option<Rate>) -> u64 {
    rid_hash(down, up) & 0xFFFF
}

/// The rate a borrowed optional rate refers to.
pub open spec fn rate_of(r: Option<&Rate>) -> Option<Rate> {
    match r {
        Some(x) => Some(*x),
        None => None,
    }
}

proof fn lemma_wrapping_mul_is_truncation(x: u64, y: u64)
    ensures
        vstd::wrapping::u64_specs::wrapping_mul(x, y) == (x * y) as u64,
{
    assert(((x as nat * y as nat) % 0x1_0000_0000_0000_0000) as u64 == (x * y) as u64)
        by (bit_vector);
}

fn fnv_step(hash: u64, tag: u64, value: u64) -> (r: u64)
    ensures
        r == fnv_mix(hash, tag, value),
{
    let h = hash ^ tag;
    proof {
        lemma_wrapping_mul_is_truncation(h, FNV_PRIME);
    }
    let h = h.wrapping_mul(FNV_PRIME);
    let h2 = h ^ value;
    proof {
        lemma_wrapping_mul_is_truncation(h2, FNV_PRIME);
    }
    h2.wrapping_mul(FNV_PRIME)
}

/// Derives a rule id from an optional download rate (`rate1`) and an optional
/// upload rate (`rate2`) with an FNV-1a style hash; each present rate is
/// preceded by its own tag, so equal numbers in the two positions differ.
pub fn generate_rid(rate1: Option<&Rate>, rate2: Option<&Rate>) -> (r: RuleId)
    ensures
        r.0 == rid_value(rate_of(rate1), rate_of(rate2)),
{
    let mut hash: u64 = FNV_OFFSET_BASIS;
    if let Some(r) = rate1 {
        hash = fnv_step(hash, DOWN_TAG, r.0);
    }
    if let Some(r) = rate2 {
        hash = fnv_step(hash, UP_TAG, r.0);
    }
    RuleId(hash & 0xFFFF)
}

/// The same numeric rate yields different ids as a download rate and as an
/// upload rate.
pub proof fn lemma_rid_direction_tagged(rate: Rate)
    ensures
        rid_value(Some(rate), None) != rid_value(None, Some(rate)),
{
    let v = rate.0;
    assert(((((FNV_OFFSET_BASIS ^ DOWN_TAG) * FNV_PRIME) as u64 ^ v) * FNV_PRIME) as u64 & 0xFFFF
        != ((((FNV_OFFSET_BASIS ^ UP_TAG) * FNV_PRIME) as u64 ^ v) * FNV_PRIME) as u64 & 0xFFFF)
        by (bit_vector);
}

/// Equal rates give equal ids: the id depends on the two rates alone.
pub proof fn lemma_rid_deterministic(
    down1: Option<Rate>,
    up1: Option<Rate>,
    down2: Option<Rate>,
    up2: Option<Rate>,
)
    requires
        down1 == down2,
        up1 == up2,
    ensures
        rid_value(down1, up1) == rid_value(down2, up2),
        rid_value(down1, up1) <= 0xFFFF,
{
    let h = rid_hash(down1, up1);
    assert(h & 0xFFFF <= 0xFFFF) by (bit_vector);
}

} // verus!
