use vstd::prelude::*;

use crate::token_bucket::{
    added_tokens, consumed_level, earned, refilled_level, TokenLimit,
};

verus! {

/// Table key of the ingress direction.
pub const INGRESS_KEY: u64 = 0;

/// Table key of the egress direction.
pub const EGRESS_KEY: u64 = 1;

/// Outcome of the admission filter for one packet.
#[derive(Clone, Copy, Debug, PartialEq, Eq, Structural)]
pub enum Verdict {
    Admit,
    Drop,
}

/// Action code the socket-buffer hook returns for a packet that passes.
pub const SK_PASS: i32 = 1;

/// Action code the socket-buffer hook returns for a packet that is dropped.
pub const SK_DROP: i32 = 0;

impl Verdict {
    /// The socket-buffer action code for this verdict.
    pub fn action_code(&self) -> (r: i32)
        ensures
            r == (if *self == Verdict::Admit {
                SK_PASS
            } else {
                SK_DROP
            }),
    {
        match self {
            Verdict::Admit => SK_PASS,
            Verdict::Drop => SK_DROP,
        }
    }
}

/// Nanoseconds since the last refill; zero when the clock reads earlier.
pub open spec fn elapsed_since(t: TokenLimit, now: u64) -> u64 {
    if now >= t.last_tns {
        (now - t.last_tns) as u64
    } else {
        0
    }
}

/// State after the elapsed-time check: refilled and stamped with `now` when
/// more than the burst period has passed, untouched otherwise.
pub open spec fn advanced(t: TokenLimit, now: u64) -> TokenLimit {
    let elapsed = elapsed_since(t, now);
    if elapsed > t.burst_period {
        TokenLimit {
            token_bucket: refilled_level(
                t.token_capacity,
                t.token_bucket,
                earned(t.token_capacity, elapsed),
            ),
            last_tns: now,
            ..t
        }
    } else {
        t
    }
}

/// Verdict for a packet of `len` bytes arriving at `now`.
pub open spec fn verdict_of(t: TokenLimit, now: u64, len: u64) -> Verdict {
    if advanced(t, now).token_bucket < len {
        Verdict::Drop
    } else {
        Verdict::Admit
    }
}

/// State left behind by a packet of `len` bytes arriving at `now`: the
/// advanced state, with the packet's bytes spent when it is admitted.
pub open spec fn state_after(t: TokenLimit, now: u64, len: u64) -> TokenLimit {
    let a = advanced(t, now);
    if a.token_bucket < len {
        a
    } else {
        TokenLimit { token_bucket: consumed_level(a.token_bucket, len), ..a }
    }
}

/// Runs the admission algorithm for one packet against one rate state.
pub fn admit_packet(token: &mut TokenLimit, now: u64, packet_len: u64) -> (r: Verdict)
    ensures
        r == verdict_of(*old(token), now, packet_len),
        *final(token) == state_after(*old(token), now, packet_len),
        old(token).wf() ==> final(token).wf(),
{
    let elapsed = now.saturating_sub(token.last_tns());
    if elapsed > token.burst() {
        let add = added_tokens(token.capacity(), elapsed);
        token.update_last_tns(now);
        token.refill(add);
    }
    if token.bucket() < packet_len {
        return Verdict::Drop;
    }
    token.consume(packet_len);
    Verdict::Admit
}

/// The shared rate table: at most one rate state per direction, keyed by
/// `INGRESS_KEY` and `EGRESS_KEY`.
#[derive(Clone, Copy, Debug)]
pub struct RateTable {
    ingress: Option<TokenLimit>,
    egress: Option<TokenLimit>,
}

/// Whether `key` names one of the table's two directions.
pub open spec fn is_direction_key(key: u64) -> bool {
    key == INGRESS_KEY || key == EGRESS_KEY
}

impl View for RateTable {
    type V = Map<u64, TokenLimit>;

    closed spec fn view(&self) -> Map<u64, TokenLimit> {
        let m = match self.ingress {
            Some(t) => Map::empty().insert(INGRESS_KEY, t),
            None => Map::empty(),
        };
        match self.egress {
            Some(t) => m.insert(EGRESS_KEY, t),
            None => m,
        }
    }
}

impl RateTable {
    /// Every stored rate state keeps its bucket within its capacity.
    pub open spec fn wf(&self) -> bool {
        forall|k: u64| #[trigger] self@.contains_key(k) ==> self@[k].wf()
    }

    /// An empty table.
    pub fn new() -> (r: RateTable)
        ensures
            r@ == Map::<u64, TokenLimit>::empty(),
            r.wf(),
    {
        let r = RateTable { ingress: None, egress: None };
        assert(r@ =~= Map::<u64, TokenLimit>::empty());
        r
    }

    /// Number of directions that hold a rate state.
    pub fn len(&self) -> (r: usize)
        ensures
            r as nat == self@.dom().len(),
            r <= 2,
    {
        let n: usize = if self.ingress.is_some() {
            1
        } else {
            0
        };
        let r: usize = if self.egress.is_some() {
            n + 1
        } else {
            n
        };
        proof {
            let d = self@.dom();
            if self.ingress is Some && self.egress is Some {
                assert(d =~= set![INGRESS_KEY, EGRESS_KEY]);
            } else if self.ingress is Some {
                assert(d =~= set![INGRESS_KEY]);
            } else if self.egress is Some {
                assert(d =~= set![EGRESS_KEY]);
            } else {
                assert(d =~= Set::<u64>::empty());
            }
        }
        r
    }

    /// The rate state stored under `key`, if any.
    pub fn get(&self, key: u64) -> (r: Option<TokenLimit>)
        ensures
            r == (if self@.contains_key(key) {
                Some(self@[key])
            } else {
                None::<TokenLimit>
            }),
    {
        if key == INGRESS_KEY {
            self.ingress
        } else if key == EGRESS_KEY {
            self.egress
        } else {
            None
        }
    }

    /// Writes `limit` under `key`, replacing what was there. A key that names
    /// no direction is refused (`false`) and the table is left unchanged.
    pub fn insert(&mut self, key: u64, limit: TokenLimit) -> (r: bool)
        ensures
            r == is_direction_key(key),
            r ==> final(self)@ == old(self)@.insert(key, limit),
            !r ==> final(self)@ == old(self)@,
            old(self).wf() && limit.wf() ==> final(self).wf(),
    {
        if key == INGRESS_KEY {
            self.ingress = Some(limit);
        } else if key == EGRESS_KEY {
            self.egress = Some(limit);
        } else {
            return false;
        }
        assert(self@ =~= old(self)@.insert(key, limit));
        true
    }

    /// Removes the rate state stored under `key`.
    pub fn remove(&mut self, key: u64) -> (r: Option<TokenLimit>)
        ensures
            r == (if old(self)@.contains_key(key) {
                Some(old(self)@[key])
            } else {
                None::<TokenLimit>
            }),
            final(self)@ == old(self)@.remove(key),
            old(self).wf() ==> final(self).wf(),
    {
        let r = if key == INGRESS_KEY {
            let r = self.ingress;
            self.ingress = None;
            r
        } else if key == EGRESS_KEY {
            let r = self.egress;
            self.egress = None;
            r
        } else {
            None
        };
        assert(self@ =~= old(self)@.remove(key));
        r
    }

    /// Decides one packet of `packet_len` bytes for the direction `key` at
    /// monotonic time `now`. A direction without a rate state admits every
    /// packet and leaves the table as it was.
    pub fn decide(&mut self, key: u64, now: u64, packet_len: u64) -> (r: Verdict)
        ensures
            !old(self)@.contains_key(key) ==> r == Verdict::Admit && final(self)@ == old(self)@,
            old(self)@.contains_key(key) ==> {
                &&& r == verdict_of(old(self)@[key], now, packet_len)
                &&& final(self)@ == old(self)@.insert(
                    key,
                    state_after(old(self)@[key], now, packet_len),
                )
            },
            old(self).wf() ==> final(self).wf(),
    {
        let r = if key == INGRESS_KEY {
            match &mut self.ingress {
                Some(token) => admit_packet(token, now, packet_len),
                None => Verdict::Admit,
            }
        } else if key == EGRESS_KEY {
            match &mut self.egress {
                Some(token) => admit_packet(token, now, packet_len),
                None => Verdict::Admit,
            }
        } else {
            Verdict::Admit
        };
        proof {
            if old(self)@.contains_key(key) {
                assert(self@ =~= old(self)@.insert(
                    key,
                    state_after(old(self)@[key], now, packet_len),
                ));
            } else {
                assert(self@ =~= old(self)@);
            }
        }
        r
    }
}

/// With no refill due, a packet that fits is admitted and spends exactly its
/// length; one that does not fit is dropped and leaves the bucket as it was.
pub proof fn lemma_admission_exact(t: TokenLimit, now: u64, len: u64)
    requires
        elapsed_since(t, now) <= t.burst_period,
    ensures
        len <= t.token_bucket ==> verdict_of(t, now, len) == Verdict::Admit
            && state_after(t, now, len).token_bucket == t.token_bucket - len,
        len > t.token_bucket ==> verdict_of(t, now, len) == Verdict::Drop
            && state_after(t, now, len) == t,
{
}

/// Socket-buffer action code of a verdict.
pub open spec fn action_of(v: Verdict) -> i32 {
    if v == Verdict::Admit {
        SK_PASS
    } else {
        SK_DROP
    }
}

/// Whether `after` and `code` are what one packet of `len` bytes at `now`
/// makes of the table `before` for direction `key`.
pub open spec fn hook_outcome(
    before: Map<u64, TokenLimit>,
    after: Map<u64, TokenLimit>,
    key: u64,
    now: u64,
    len: u64,
    code: i32,
) -> bool {
    if before.contains_key(key) {
        &&& code == action_of(verdict_of(before[key], now, len))
        &&& after == before.insert(key, state_after(before[key], now, len))
    } else {
        code == SK_PASS && after == before
    }
}

/// The egress hook: decides a packet of `packet_len` bytes leaving the
/// cgroup at monotonic time `now` and returns its action code.
pub fn cgroup_egress_tknb(table: &mut RateTable, now: u64, packet_len: u64) -> (r: i32)
    ensures
        hook_outcome(old(table)@, final(table)@, EGRESS_KEY, now, packet_len, r),
        old(table).wf() ==> final(table).wf(),
{
    table.decide(EGRESS_KEY, now, packet_len).action_code()
}

/// The ingress hook: decides a packet of `packet_len` bytes entering the
/// cgroup at monotonic time `now` and returns its action code.
pub fn cgroup_ingress_tknb(table: &mut RateTable, now: u64, packet_len: u64) -> (r: i32)
    ensures
        hook_outcome(old(table)@, final(table)@, INGRESS_KEY, now, packet_len, r),
        old(table).wf() ==> final(table).wf(),
{
    table.decide(INGRESS_KEY, now, packet_len).action_code()
}

/// The elapsed-time check never drains the bucket and never lifts it above
/// the capacity, however much time has passed.
pub proof fn lemma_advance_monotone(t: TokenLimit, now: u64)
    requires
        t.wf(),
    ensures
        advanced(t, now).token_bucket >= t.token_bucket,
        advanced(t, now).token_bucket <= t.token_capacity,
        advanced(t, now).token_capacity == t.token_capacity,
{
}

/// Within the burst period the elapsed-time check changes nothing: neither
/// the bucket nor the refill timestamp moves.
pub proof fn lemma_burst_debounce(t: TokenLimit, now: u64)
    requires
        elapsed_since(t, now) <= t.burst_period,
    ensures
        advanced(t, now) == t,
{
}

} // verus!
