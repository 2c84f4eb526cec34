//! What each "upload root" instruction carries, one per stale tree.
use vstd::prelude::*;

use crate::address::Address;
use crate::tree::GeneratedMerkleTree;

verus! {

/// The program address that the ledger derives from `seed` and `program_id`,
/// or `None` where no bump seed yields one.
pub uninterp spec fn program_address_of(seed: Seq<u8>, program_id: Seq<u8>) -> Option<Seq<u8>>;

/// Relies on `solana_program::pubkey::Pubkey::try_find_program_address`: the
/// result depends on the seed and the program address alone, and it returns
/// `None` instead of panicking where no bump seed works.
#[verifier::external_body]
fn try_find_program_address(seed: &[u8], program_id: &Address) -> (r: Option<Address>)
    ensures
        match r {
            Some(a) => program_address_of(seed@, program_id@) == Some(a@),
            None => program_address_of(seed@, program_id@) is None,
        },
{
    let program = solana_program::pubkey::Pubkey::new_from_array(program_id.bytes);
    solana_program::pubkey::Pubkey::try_find_program_address(&[seed], &program)
        .map(|(k, _bump)| Address::new(k.to_bytes()))
}

/// The seed of the program's configuration account, `CONFIG_ACCOUNT`.
pub open spec fn config_seed() -> Seq<u8> {
    seq![67u8, 79u8, 78u8, 70u8, 73u8, 71u8, 95u8, 65u8, 67u8, 67u8, 79u8, 85u8, 78u8, 84u8]
}

/// The address of the program's configuration account, derived once per run
/// and shared by every instruction; `None` where no address can be derived.
pub fn config_account(program_id: &Address) -> (r: Option<Address>)
    ensures
        match r {
            Some(a) => program_address_of(config_seed(), program_id@) == Some(a@),
            None => program_address_of(config_seed(), program_id@) is None,
        },
{
    let seed: [u8; 14] = [67, 79, 78, 70, 73, 71, 95, 65, 67, 67, 79, 85, 78, 84];
    assert(seed@ =~= config_seed());
    try_find_program_address(&seed, program_id)
}

/// The arguments of an "upload root" instruction.
#[derive(Clone, Copy, Debug)]
pub struct UploadMerkleRootArgs {
    pub root: [u8; 32],
    pub max_total_claim: u64,
    pub max_num_nodes: u64,
}

/// The accounts of an "upload root" instruction.
#[derive(Clone, Copy, Debug)]
pub struct UploadMerkleRootAccounts {
    /// The program's configuration account.
    pub config: Address,
    /// The signer, which pays the fee and acts as upload authority.
    pub merkle_root_upload_authority: Address,
    /// The distribution account whose root is replaced.
    pub tip_distribution_account: Address,
}

/// One "upload root" instruction, to be sent alone in its own transaction.
#[derive(Clone, Copy, Debug)]
pub struct UploadMerkleRootRequest {
    pub program_id: Address,
    pub args: UploadMerkleRootArgs,
    pub accounts: UploadMerkleRootAccounts,
}

/// The instruction that publishes `tree`'s root, signed by `signer`.
pub open spec fn request_for(
    tree: GeneratedMerkleTree,
    program_id: Address,
    config: Address,
    signer: Address,
) -> UploadMerkleRootRequest {
    UploadMerkleRootRequest {
        program_id,
        args: UploadMerkleRootArgs {
            root: tree.merkle_root,
            max_total_claim: tree.max_total_claim,
            max_num_nodes: tree.max_num_nodes,
        },
        accounts: UploadMerkleRootAccounts {
            config,
            merkle_root_upload_authority: signer,
            tip_distribution_account: tree.tip_distribution_account,
        },
    }
}

/// The instruction that publishes `tree`'s root, signed by `signer`.
pub fn upload_request(
    tree: &GeneratedMerkleTree,
    program_id: &Address,
    config: &Address,
    signer: &Address,
) -> (r: UploadMerkleRootRequest)
    ensures
        r == request_for(*tree, *program_id, *config, *signer),
{
    UploadMerkleRootRequest {
        program_id: *program_id,
        args: UploadMerkleRootArgs {
            root: tree.merkle_root,
            max_total_claim: tree.max_total_claim,
            max_num_nodes: tree.max_num_nodes,
        },
        accounts: UploadMerkleRootAccounts {
            config: *config,
            merkle_root_upload_authority: *signer,
            tip_distribution_account: tree.tip_distribution_account,
        },
    }
}

/// One instruction per tree, in the trees' order, all against the same
/// program and configuration account.
pub fn upload_requests(
    trees: &Vec<GeneratedMerkleTree>,
    program_id: &Address,
    config: &Address,
    signer: &Address,
) -> (r: Vec<UploadMerkleRootRequest>)
    ensures
        r@.len() == trees@.len(),
        forall|i: int| 0 <= i < trees@.len() ==> #[trigger] r@[i] == request_for(trees@[i], *program_id, *config, *signer),
{
    let mut r: Vec<UploadMerkleRootRequest> = Vec::new();
    let mut i: usize = 0;
    while i < trees.len()
        invariant
            i <= trees@.len(),
            r@.len() == i,
            forall|j: int| 0 <= j < i ==> #[trigger] r@[j] == request_for(trees@[j], *program_id, *config, *signer),
        decreases trees@.len() - i,
    {
        let req = upload_request(&trees[i], program_id, config, signer);
        r.push(req);
        i = i + 1;
    }
    r
}

} // verus!
