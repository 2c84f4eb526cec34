//! The stages of one publishing run that decide: which trees are candidates,
//! whether the signer can pay for them, and which instructions to send.
use vstd::prelude::*;

use crate::address::Address;
use crate::instruction::{request_for, upload_requests, UploadMerkleRootRequest};
use crate::preflight::{
    check_funds, default_fee_per_signature, default_fee_per_signature_spec, desired_balance,
    sol_to_deposit, InsufficientFunds,
};
use crate::staleness::{stale_trees, trees_needing_update, DistributionAccountState};
use crate::tree::{owned_trees, select_owned_trees, GeneratedMerkleTree};

verus! {

/// Selects the trees `signer` may publish and checks that `balance` covers the
/// ledger's default signature fee for each of them; fails, before anything is
/// sent, when it does not.
pub fn prepare_candidates(
    collection: &Vec<GeneratedMerkleTree>,
    signer: &Address,
    balance: u64,
) -> (r: Result<Vec<GeneratedMerkleTree>, InsufficientFunds>)
    ensures
        r.is_ok() <==> balance >= desired_balance(
            owned_trees(collection@, signer@).len(),
            default_fee_per_signature_spec(),
        ),
        r matches Ok(v) ==> v@ == owned_trees(collection@, signer@),
        r matches Err(e) ==> {
            &&& e.desired_balance == desired_balance(
                owned_trees(collection@, signer@).len(),
                default_fee_per_signature_spec(),
            )
            &&& e.current_balance == balance
            &&& e.sol_to_deposit == sol_to_deposit(e.desired_balance as nat, balance as nat)
        },
{
    let candidates = select_owned_trees(collection, signer);
    match check_funds(candidates.len(), default_fee_per_signature(), balance) {
        Ok(()) => Ok(candidates),
        Err(e) => Err(e),
    }
}

/// The instructions to send: one per candidate whose fetched account needs
/// its root published, in candidate order; `accounts[i]` is the account of
/// `candidates[i]`.
pub fn plan_uploads(
    candidates: &Vec<GeneratedMerkleTree>,
    accounts: &Vec<DistributionAccountState>,
    program_id: &Address,
    config: &Address,
    signer: &Address,
) -> (r: Vec<UploadMerkleRootRequest>)
    requires
        candidates@.len() == accounts@.len(),
    ensures
        r@.len() == stale_trees(candidates@, accounts@).len(),
        forall|i: int| 0 <= i < r@.len() ==> #[trigger] r@[i] == request_for(
            stale_trees(candidates@, accounts@)[i],
            *program_id,
            *config,
            *signer,
        ),
{
    let stale = trees_needing_update(candidates, accounts);
    upload_requests(&stale, program_id, config, signer)
}

} // verus!
