//! Per-cgroup bandwidth limiting with a token-bucket packet filter.
//!
//! `token_bucket` holds the refill and spend arithmetic of one direction's
//! rate state, `rate_table` the table of those states and the per-packet
//! admission decision, `policy` rate policies and their rule ids, `pins` pin
//! paths and pin records, and `tokenb` the lifecycle of a filter program:
//! each transition is decided here and returns the kernel work it calls for.
//! `controller` applies a policy through that lifecycle.
use vstd::prelude::*;

pub mod controller;
pub mod ebpf;
pub mod errors;
pub mod factory;
pub mod pins;
pub mod policy;
pub mod rate_table;
pub mod token_bucket;
pub mod tokenb;

verus! {

} // verus!
