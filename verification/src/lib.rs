use vstd::prelude::*;

pub mod api;
pub mod errors;
pub mod git;
pub mod migrate;
pub mod text;

verus! {

/// The number of repositories requested per listing page.
pub const PAGE_SIZE: u64 = 100;

/// The largest number of refspecs carried by a single push operation.
pub const PUSH_BATCH_SIZE: usize = 5;

} // verus!
