//! Generated Merkle trees and the selection of those the signer may publish.
use vstd::prelude::*;

use crate::address::Address;

verus! {

/// One generated reward-distribution tree, as far as publishing its root needs.
#[derive(Clone, Copy, Debug)]
pub struct GeneratedMerkleTree {
    /// The on-ledger distribution account this tree targets.
    pub tip_distribution_account: Address,
    /// The address authorized to publish this tree's root.
    pub merkle_root_upload_authority: Address,
    /// The tree's root digest.
    pub merkle_root: [u8; 32],
    /// Cap on the total amount that can be claimed against the root.
    pub max_total_claim: u64,
    /// Cap on the number of leaves.
    pub max_num_nodes: u64,
}

/// Whether `signer` is the upload authority of tree `t`.
pub open spec fn owned_by(t: GeneratedMerkleTree, signer: Seq<u8>) -> bool {
    t.merkle_root_upload_authority@ == signer
}

/// The trees of `trees` whose upload authority is `signer`, in their order.
pub open spec fn owned_trees(trees: Seq<GeneratedMerkleTree>, signer: Seq<u8>) -> Seq<GeneratedMerkleTree>
    decreases trees.len(),
{
    if trees.len() == 0 {
        Seq::empty()
    } else {
        let rest = owned_trees(trees.drop_last(), signer);
        if owned_by(trees.last(), signer) {
            rest.push(trees.last())
        } else {
            rest
        }
    }
}

/// Keeps the trees of the collection that `signer` is authorized to publish,
/// in the order of the collection.
pub fn select_owned_trees(trees: &Vec<GeneratedMerkleTree>, signer: &Address) -> (r: Vec<GeneratedMerkleTree>)
    ensures
        r@ == owned_trees(trees@, signer@),
{
    let mut r: Vec<GeneratedMerkleTree> = Vec::new();
    let mut i: usize = 0;
    while i < trees.len()
        invariant
            i <= trees@.len(),
            r@ == owned_trees(trees@.take(i as int), signer@),
        decreases trees@.len() - i,
    {
        let t = trees[i];
        assert(trees@.take(i + 1).drop_last() =~= trees@.take(i as int));
        if t.merkle_root_upload_authority.same_as(signer) {
            r.push(t);
        }
        i = i + 1;
    }
    assert(trees@.take(i as int) =~= trees@);
    r
}

/// A tree is selected exactly when it is in the collection and its upload
/// authority is the signer; selection does not depend on anything else.
pub proof fn lemma_selected_iff_owned(trees: Seq<GeneratedMerkleTree>, signer: Seq<u8>, t: GeneratedMerkleTree)
    ensures
        owned_trees(trees, signer).contains(t) <==> (trees.contains(t) && owned_by(t, signer)),
    decreases trees.len(),
{
    if trees.len() > 0 {
        let init = trees.drop_last();
        lemma_selected_iff_owned(init, signer, t);
        assert(trees =~= init.push(trees.last()));
        let rest = owned_trees(init, signer);
        if owned_by(trees.last(), signer) {
            assert(rest.push(trees.last()).contains(t) <==> (rest.contains(t) || t == trees.last())) by {
                if rest.push(trees.last()).contains(t) {
                    let k = choose|k: int| 0 <= k < rest.len() + 1 && rest.push(trees.last())[k] == t;
                    if k < rest.len() {
                        assert(rest[k] == t);
                    }
                }
                if rest.contains(t) {
                    let k = choose|k: int| 0 <= k < rest.len() && rest[k] == t;
                    assert(rest.push(trees.last())[k] == t);
                }
                if t == trees.last() {
                    assert(rest.push(trees.last())[rest.len() as int] == t);
                }
            }
        }
        assert(trees.contains(t) <==> (init.contains(t) || t == trees.last())) by {
            if trees.contains(t) {
                let k = choose|k: int| 0 <= k < trees.len() && trees[k] == t;
                if k < init.len() {
                    assert(init[k] == t);
                }
            }
            if init.contains(t) {
                let k = choose|k: int| 0 <= k < init.len() && init[k] == t;
                assert(trees[k] == t);
            }
            if t == trees.last() {
                assert(trees[trees.len() - 1] == t);
            }
        }
    }
}

} // verus!
