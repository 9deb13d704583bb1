//! Search, filtering and normalization logic for a job-search service over the
//! open-jobs dataset.
use vstd::prelude::*;

pub mod clock;
pub mod criteria;
pub mod dto;
pub mod filters;
pub mod job;
pub mod query_text;
pub mod ranking;
pub mod search;
pub mod searchapi;
pub mod store;
pub mod text;

verus! {

/// The crate version.
pub fn version() -> (v: &'static str)
    ensures
        v@ == "0.1.0"@,
{
    "0.1.0"
}

} // verus!
