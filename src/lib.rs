//! Reconciles locally generated reward-distribution Merkle trees against the
//! roots recorded on a ledger, and decides which roots to publish and how long
//! to keep resubmitting the publishing transactions.
use vstd::prelude::*;

pub mod address;
pub mod tree;
pub mod preflight;
pub mod staleness;
pub mod instruction;
pub mod retry;
pub mod workflow;

verus! {

} // verus!
