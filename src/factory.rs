use vstd::prelude::*;

use crate::ebpf::{CgroupName, ProgramId};
use crate::errors::Error;
use crate::token_bucket::TokenLimit;
use crate::tokenb::{initial_lifecycle, TokenBucketProgram};

verus! {

/// A rate-limiting program.
#[derive(Debug)]
pub enum LimitProgram {
    TokenBucket(TokenBucketProgram),
    UnknownProgram,
}

/// The programs the library can set up, with what each one needs.
#[derive(Debug)]
pub enum LimitProgramFactory {
    TokenBucket(ProgramId, CgroupName),
}

/// Whether `p` is a new token-bucket handle for program `id` and `cgroup`.
pub open spec fn is_new_handle(p: TokenBucketProgram, id: ProgramId, cgroup: CgroupName) -> bool {
    &&& p.spec_id() == id
    &&& p.lifecycle() == initial_lifecycle()
    &&& p.spec_cgroup() == cgroup
    &&& p.spec_rates() == Map::<u64, TokenLimit>::empty()
}

impl LimitProgramFactory {
    /// The program this factory describes, in its initial state.
    pub fn get_program(self) -> (r: Result<LimitProgram, Error>)
        ensures
            match self {
                LimitProgramFactory::TokenBucket(id, cgroup) => r matches Ok(
                    LimitProgram::TokenBucket(p),
                ) && is_new_handle(p, id, cgroup),
            },
    {
        match self {
            LimitProgramFactory::TokenBucket(id, name) => Ok(
                LimitProgram::TokenBucket(TokenBucketProgram::new(id, name)),
            ),
        }
    }

    /// A new token-bucket handle for program `id` on the cgroup `name`.
    pub fn token_bucket(id: ProgramId, name: CgroupName) -> (r: TokenBucketProgram)
        ensures
            is_new_handle(r, id, name),
    {
        TokenBucketProgram::new(id, name)
    }
}

} // verus!
