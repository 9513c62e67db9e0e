use vstd::prelude::*;

use crate::ebpf::{AttachmentKind, CgroupName, ProgramId, ProgramKind};
use crate::errors::Error;
use crate::policy::{Policy, Rate};
use crate::rate_table::{EGRESS_KEY, INGRESS_KEY};
use crate::token_bucket::TokenLimit;
use crate::tokenb::{
    armed_set, direction_kinds, initial_lifecycle, Lifecycle, ProgramFlags, RateUpdate,
    TokenBucketProgram,
};

verus! {

/// Burst period, in nanoseconds, of the rates a policy sets.
pub const POLICY_BURST_NS: u64 = 10_000;

/// The rate state a policy rate of `rate` kilobytes per second starts with.
pub open spec fn limit_for(rate: Rate) -> TokenLimit {
    TokenLimit {
        token_capacity: (rate.0 * 1024) as u64,
        token_bucket: (rate.0 * 1024) as u64,
        burst_period: POLICY_BURST_NS,
        last_tns: 0,
    }
}

/// Whether each rate of the policy converts to bytes within `u64`.
pub open spec fn policy_fits(p: Policy) -> bool {
    &&& (p.spec_down() matches Some(r) ==> r.0 <= u64::MAX / 1024)
    &&& (p.spec_up() matches Some(r) ==> r.0 <= u64::MAX / 1024)
}

/// Whether a policy rate manages its direction: present and not zero.
pub open spec fn is_managed(rate: Option<Rate>) -> bool {
    rate matches Some(r) && r.0 != 0
}

/// The table writes of a policy: a managed download rate into the ingress
/// entry, then a managed upload rate into the egress entry.
pub open spec fn policy_updates(p: Policy) -> Seq<(u64, TokenLimit)> {
    (if is_managed(p.spec_down()) {
        seq![(INGRESS_KEY, limit_for(p.spec_down()->0))]
    } else {
        Seq::empty()
    }) + (if is_managed(p.spec_up()) {
        seq![(EGRESS_KEY, limit_for(p.spec_up()->0))]
    } else {
        Seq::empty()
    })
}

/// The rate table `m` after the writes of policy `p`.
pub open spec fn with_policy(m: Map<u64, TokenLimit>, p: Policy) -> Map<u64, TokenLimit> {
    let m1 = if is_managed(p.spec_down()) {
        m.insert(INGRESS_KEY, limit_for(p.spec_down()->0))
    } else {
        m
    };
    if is_managed(p.spec_up()) {
        m1.insert(EGRESS_KEY, limit_for(p.spec_up()->0))
    } else {
        m1
    }
}

/// The kernel work that applying a policy calls for: the table writes, then
/// the programs to load and attach to the cgroup.
#[derive(Debug)]
pub struct PolicyPlan {
    pub rates: Vec<RateUpdate>,
    pub programs: Vec<ProgramKind>,
}

/// Applies rate policies to one cgroup through a token-bucket program.
#[derive(Debug)]
pub struct TokenBucketController {
    program: TokenBucketProgram,
}

impl TokenBucketController {
    pub closed spec fn spec_program(&self) -> TokenBucketProgram {
        self.program
    }

    /// A controller with a new program handle of id 0 on `cgroup`.
    pub fn new(cgroup: CgroupName) -> (r: TokenBucketController)
        ensures
            r.spec_program().spec_id() == ProgramId(0),
            r.spec_program().lifecycle() == initial_lifecycle(),
            r.spec_program().spec_cgroup() == cgroup,
    {
        TokenBucketController { program: TokenBucketProgram::new(ProgramId(0), cgroup) }
    }

    pub fn program(&self) -> (r: &TokenBucketProgram)
        ensures
            *r == self.spec_program(),
    {
        &self.program
    }

    /// Applies the policy's download rate to ingress and its upload rate to
    /// egress, then loads the program. A rate of zero leaves its direction
    /// unmanaged, as an absent one does. Fails as `apply_rate` and `load` do:
    /// with `NoTrafficDirection` when neither the policy nor an earlier call
    /// armed a direction. On success the program's rates are the old ones
    /// with the policy's rates written over them; on a failure the program is
    /// left as it was.
    pub fn apply_policy(&mut self, policy: &Policy) -> (r: Result<PolicyPlan, Error>)
        requires
            policy_fits(*policy),
        ensures
            ({
                let before = old(self).spec_program();
                let after = final(self).spec_program();
                let s = before.lifecycle();
                let f = ProgramFlags {
                    ingress: s.flags.ingress || is_managed(policy.spec_down()),
                    egress: s.flags.egress || is_managed(policy.spec_up()),
                    ..s.flags
                };
                &&& s.closed ==> (r matches Err(e) && e.is_closed())
                &&& !s.closed && !f.ingress && !f.egress ==> (r matches Err(e)
                    && e.is_no_traffic())
                &&& !s.closed && (f.ingress || f.egress) ==> {
                    &&& r matches Ok(plan) && plan.programs@ == direction_kinds(armed_set(f)) && plan.rates@.len()
                        == policy_updates(*policy).len() && forall|i: int|
                        0 <= i < plan.rates@.len() ==> (#[trigger] plan.rates@[i]).key
                            == policy_updates(*policy)[i].0 && plan.rates@[i].limit
                            == policy_updates(*policy)[i].1
                    &&& final(self).spec_program().lifecycle() == (Lifecycle {
                        flags: f,
                        attached: armed_set(f),
                        ..s
                    })
                    &&& after.spec_rates() == with_policy(before.spec_rates(), *policy)
                }
                &&& r is Ok ==> after.spec_id() == before.spec_id() && after.spec_cgroup()
                    == before.spec_cgroup()
                &&& r is Err ==> after.lifecycle() == s && after.same_resources(&before)
            }),
    {
        let mut rates: Vec<RateUpdate> = Vec::new();
        if let Some(rate) = policy.down() {
            if rate.0 != 0 {
                let limit = TokenLimit::new(rate.bytes(), POLICY_BURST_NS);
                let u = self.program.apply_rate(AttachmentKind::Ingress(limit))?;
                rates.push(u);
            }
        }
        if let Some(rate) = policy.up() {
            if rate.0 != 0 {
                let limit = TokenLimit::new(rate.bytes(), POLICY_BURST_NS);
                let u = self.program.apply_rate(AttachmentKind::Egress(limit))?;
                rates.push(u);
            }
        }
        let programs = self.program.load()?;
        Ok(PolicyPlan { rates, programs })
    }

    /// Closes the program; returns the programs to unload before the cgroup
    /// is deleted.
    pub fn close(&mut self) -> (r: Result<Vec<ProgramKind>, Error>)
        ensures
            old(self).spec_program().lifecycle().closed ==> (r matches Err(e) && e.is_closed()),
            !old(self).spec_program().lifecycle().closed ==> (r matches Ok(kinds) && kinds@
                == direction_kinds(old(self).spec_program().lifecycle().attached)),
            !old(self).spec_program().lifecycle().closed
                ==> final(self).spec_program().lifecycle().closed,
    {
        self.program.close()
    }
}

} // verus!
