use vstd::prelude::*;

verus! {

/// Nanoseconds in one second.
pub const NANOS_PER_SEC: u64 = 1_000_000_000;

/// `n` clipped to the range of `u64`.
pub open spec fn clip_u64(n: int) -> u64 {
    if n > u64::MAX as int {
        u64::MAX
    } else {
        n as u64
    }
}

/// Bytes that `capacity` bytes/second earns over `elapsed_ns` nanoseconds:
/// the product saturated at `u64::MAX`, then divided by 10^9, truncating.
pub open spec fn earned(capacity: u64, elapsed_ns: u64) -> u64 {
    (clip_u64(capacity as int * elapsed_ns as int) / NANOS_PER_SEC) as u64
}

/// Bucket level after adding `count` bytes: capped at the capacity.
pub open spec fn refilled_level(capacity: u64, bucket: u64, count: u64) -> u64 {
    if bucket as int + count as int > capacity as int {
        capacity
    } else {
        (bucket + count) as u64
    }
}

/// Bucket level after spending `count` bytes: never below zero.
pub open spec fn consumed_level(bucket: u64, count: u64) -> u64 {
    if count >= bucket {
        0
    } else {
        (bucket - count) as u64
    }
}

/// Bytes added for `elapsed_ns` nanoseconds at `capacity` bytes/second:
/// `capacity * elapsed_ns`, saturated at `u64::MAX`, over `1_000_000_000`.
pub fn added_tokens(capacity: u64, elapsed_ns: u64) -> (r: u64)
    ensures
        r == earned(capacity, elapsed_ns),
{
    let product: u64 = match capacity.checked_mul(elapsed_ns) {
        Some(p) => p,
        None => u64::MAX,
    };
    product / NANOS_PER_SEC
}

/// Per-direction rate state shared with the packet filter: a fixed-layout
/// record of four unsigned 64-bit fields.
#[derive(Clone, Copy, Debug, Default)]
pub struct TokenLimit {
    /// Sustained rate in bytes per second; the bucket never holds more.
    pub token_capacity: u64,
    /// Bytes currently available to spend.
    pub token_bucket: u64,
    /// Nanoseconds that may pass before a packet triggers a refill.
    pub burst_period: u64,
    /// Monotonic timestamp (ns) of the last refill.
    pub last_tns: u64,
}

impl TokenLimit {
    /// The bucket never exceeds the capacity.
    pub open spec fn wf(self) -> bool {
        self.token_bucket <= self.token_capacity
    }

    /// A full bucket of `token_capacity` bytes that has never been refilled.
    pub fn new(token_capacity: u64, burst: u64) -> (r: TokenLimit)
        ensures
            r.token_capacity == token_capacity,
            r.token_bucket == token_capacity,
            r.burst_period == burst,
            r.last_tns == 0,
            r.wf(),
    {
        TokenLimit { token_capacity, token_bucket: token_capacity, burst_period: burst, last_tns: 0 }
    }

    pub fn capacity(&self) -> (r: u64)
        ensures
            r == self.token_capacity,
    {
        self.token_capacity
    }

    pub fn burst(&self) -> (r: u64)
        ensures
            r == self.burst_period,
    {
        self.burst_period
    }

    pub fn bucket(&self) -> (r: u64)
        ensures
            r == self.token_bucket,
    {
        self.token_bucket
    }

    pub fn last_tns(&self) -> (r: u64)
        ensures
            r == self.last_tns,
    {
        self.last_tns
    }

    pub fn update_last_tns(&mut self, now: u64)
        ensures
            *final(self) == (TokenLimit { last_tns: now, ..*old(self) }),
    {
        self.last_tns = now;
    }

    /// Spends `count` bytes; the bucket saturates at zero.
    pub fn consume(&mut self, count: u64)
        ensures
            *final(self) == (TokenLimit {
                token_bucket: consumed_level(old(self).token_bucket, count),
                ..*old(self)
            }),
            final(self).token_bucket as int == if count >= old(self).token_bucket {
                0
            } else {
                old(self).token_bucket - count
            },
            old(self).wf() ==> final(self).wf(),
    {
        self.token_bucket = self.token_bucket.saturating_sub(count);
    }

    /// Adds `count` bytes; the bucket is capped at the capacity.
    pub fn refill(&mut self, count: u64)
        ensures
            *final(self) == (TokenLimit {
                token_bucket: refilled_level(
                    old(self).token_capacity,
                    old(self).token_bucket,
                    count,
                ),
                ..*old(self)
            }),
            final(self).wf(),
    {
        let sum = self.token_bucket.saturating_add(count);
        self.token_bucket = if self.token_capacity < sum {
            self.token_capacity
        } else {
            sum
        };
    }
}

/// A refill never drains the bucket and never lifts it above the capacity.
pub proof fn lemma_refill_monotone(t: TokenLimit, count: u64)
    requires
        t.wf(),
    ensures
        refilled_level(t.token_capacity, t.token_bucket, count) >= t.token_bucket,
        refilled_level(t.token_capacity, t.token_bucket, count) <= t.token_capacity,
{
}

/// Spending `n` bytes leaves `max(0, bucket - n)`.
pub proof fn lemma_consume_floor(bucket: u64, n: u64)
    ensures
        consumed_level(bucket, n) as int == if bucket as int - n as int > 0 {
            bucket as int - n as int
        } else {
            0
        },
        consumed_level(bucket, n) <= bucket,
{
}

} // verus!
