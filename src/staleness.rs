//! The decision whether a tree's root must be published, given what the
//! ledger records for its distribution account.
use vstd::prelude::*;

use crate::address::bytes_equal;
use crate::tree::GeneratedMerkleTree;

verus! {

/// The root record of an on-ledger distribution account.
#[derive(Clone, Copy, Debug)]
pub struct MerkleRootRecord {
    /// The published root digest.
    pub root: [u8; 32],
    /// The total amount already claimed against `root`.
    pub total_funds_claimed: u64,
}

/// What this workflow reads of an on-ledger distribution account.
#[derive(Clone, Copy, Debug)]
pub struct DistributionAccountState {
    /// The published root, or `None` when no root was ever published.
    pub merkle_root: Option<MerkleRootRecord>,
}

/// The decision table: publish when no root is recorded, or when the recorded
/// root has no claims against it and differs from the local root.
pub open spec fn needs_update_spec(recorded: Option<MerkleRootRecord>, local_root: Seq<u8>) -> bool {
    match recorded {
        None => true,
        Some(rec) => rec.total_funds_claimed == 0 && rec.root@ != local_root,
    }
}

/// Whether the tree with root `local_root` must be published over `account`.
pub fn needs_update(account: &DistributionAccountState, local_root: &[u8; 32]) -> (r: bool)
    ensures
        r == needs_update_spec(account.merkle_root, local_root@),
        account.merkle_root is None ==> r,
        account.merkle_root is Some && account.merkle_root->0.total_funds_claimed > 0 ==> !r,
        account.merkle_root is Some && account.merkle_root->0.total_funds_claimed == 0 ==> (r
            <==> account.merkle_root->0.root@ != local_root@),
{
    match &account.merkle_root {
        None => true,
        Some(rec) => rec.total_funds_claimed == 0 && !bytes_equal(&rec.root, local_root),
    }
}

/// The candidates whose accounts need their root published, in candidate
/// order; `accounts[i]` is the account of `candidates[i]`.
pub open spec fn stale_trees(candidates: Seq<GeneratedMerkleTree>, accounts: Seq<DistributionAccountState>) -> Seq<GeneratedMerkleTree>
    recommends
        candidates.len() == accounts.len(),
    decreases candidates.len(),
{
    if candidates.len() == 0 || accounts.len() == 0 {
        Seq::empty()
    } else {
        let rest = stale_trees(candidates.drop_last(), accounts.drop_last());
        if needs_update_spec(accounts.last().merkle_root, candidates.last().merkle_root@) {
            rest.push(candidates.last())
        } else {
            rest
        }
    }
}

/// Keeps the candidates whose on-ledger account needs their root published,
/// in candidate order; `accounts[i]` is the fetched account of `candidates[i]`.
pub fn trees_needing_update(
    candidates: &Vec<GeneratedMerkleTree>,
    accounts: &Vec<DistributionAccountState>,
) -> (r: Vec<GeneratedMerkleTree>)
    requires
        candidates@.len() == accounts@.len(),
    ensures
        r@ == stale_trees(candidates@, accounts@),
{
    let mut r: Vec<GeneratedMerkleTree> = Vec::new();
    let mut i: usize = 0;
    while i < candidates.len()
        invariant
            i <= candidates@.len(),
            candidates@.len() == accounts@.len(),
            r@ == stale_trees(candidates@.take(i as int), accounts@.take(i as int)),
        decreases candidates@.len() - i,
    {
        let t = candidates[i];
        assert(candidates@.take(i + 1).drop_last() =~= candidates@.take(i as int));
        assert(accounts@.take(i + 1).drop_last() =~= accounts@.take(i as int));
        if needs_update(&accounts[i], &t.merkle_root) {
            r.push(t);
        }
        i = i + 1;
    }
    assert(candidates@.take(i as int) =~= candidates@);
    assert(accounts@.take(i as int) =~= accounts@);
    r
}

/// Whether `account` shows `tree`'s root as published, with any amount claimed.
pub open spec fn shows_published(account: DistributionAccountState, tree: GeneratedMerkleTree) -> bool {
    account.merkle_root matches Some(rec) && rec.root@ == tree.merkle_root@
}

/// Once a tree's root is on the ledger, the tree no longer needs publishing.
pub proof fn lemma_published_tree_is_current(account: DistributionAccountState, tree: GeneratedMerkleTree)
    requires
        shows_published(account, tree),
    ensures
        !needs_update_spec(account.merkle_root, tree.merkle_root@),
{
}

/// A second run whose ledger shows the roots confirmed by the first run finds
/// none of those trees stale: where every candidate's account shows its root,
/// nothing needs publishing.
pub proof fn lemma_rerun_after_confirmation_is_empty(
    candidates: Seq<GeneratedMerkleTree>,
    accounts: Seq<DistributionAccountState>,
)
    requires
        candidates.len() == accounts.len(),
        forall|i: int| 0 <= i < candidates.len() ==> shows_published(#[trigger] accounts[i], candidates[i]),
    ensures
        stale_trees(candidates, accounts).len() == 0,
    decreases candidates.len(),
{
    if candidates.len() > 0 {
        let c = candidates.drop_last();
        let a = accounts.drop_last();
        assert forall|i: int| 0 <= i < c.len() implies shows_published(#[trigger] a[i], c[i]) by {
            assert(a[i] == accounts[i]);
            assert(c[i] == candidates[i]);
        }
        lemma_rerun_after_confirmation_is_empty(c, a);
        assert(shows_published(accounts[accounts.len() - 1], candidates[candidates.len() - 1]));
    }
}

/// Whether no funds were ever claimed against the account's recorded root.
pub open spec fn unclaimed(account: DistributionAccountState) -> bool {
    account.merkle_root is None || account.merkle_root->0.total_funds_claimed == 0
}

/// Nothing is ever published over a root that funds were claimed against:
/// each tree found stale is a candidate whose account has no root or a root
/// with zero claims.
pub proof fn lemma_stale_trees_are_unclaimed(
    candidates: Seq<GeneratedMerkleTree>,
    accounts: Seq<DistributionAccountState>,
    k: int,
)
    requires
        candidates.len() == accounts.len(),
        0 <= k < stale_trees(candidates, accounts).len(),
    ensures
        exists|i: int|
            0 <= i < candidates.len() && candidates[i] == stale_trees(candidates, accounts)[k]
                && unclaimed(#[trigger] accounts[i]),
    decreases candidates.len(),
{
    let c = candidates.drop_last();
    let a = accounts.drop_last();
    let rest = stale_trees(c, a);
    if k < rest.len() {
        lemma_stale_trees_are_unclaimed(c, a, k);
        let i = choose|i: int| 0 <= i < c.len() && c[i] == rest[k] && unclaimed(#[trigger] a[i]);
        assert(candidates[i] == c[i] && accounts[i] == a[i]);
    } else {
        let last = candidates.len() - 1;
        assert(accounts[last] == accounts.last());
        assert(unclaimed(accounts[last]));
    }
}

} // verus!
