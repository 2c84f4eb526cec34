use solana_program::fee_calculator::DEFAULT_TARGET_LAMPORTS_PER_SIGNATURE;
use solana_program::native_token::LAMPORTS_PER_SOL;
use tip_distributor::address::{bytes_equal, Address};
use tip_distributor::instruction::{config_account, upload_requests};
use tip_distributor::preflight::check_funds;
use tip_distributor::retry::{confirmation_flags, RetryAction, RetrySubmitter, SignatureStatus};
use tip_distributor::staleness::{needs_update, trees_needing_update, DistributionAccountState, MerkleRootRecord};
use tip_distributor::tree::{select_owned_trees, GeneratedMerkleTree};
use tip_distributor::workflow::{plan_uploads, prepare_candidates};

fn addr(b: u8) -> Address {
    Address::new([b; 32])
}

fn tree(account: u8, authority: u8, root: u8) -> GeneratedMerkleTree {
    GeneratedMerkleTree {
        tip_distribution_account: addr(account),
        merkle_root_upload_authority: addr(authority),
        merkle_root: [root; 32],
        max_total_claim: 1_000 + account as u64,
        max_num_nodes: 10 + account as u64,
    }
}

fn no_root() -> DistributionAccountState {
    DistributionAccountState { merkle_root: None }
}

fn with_root(root: u8, claimed: u64) -> DistributionAccountState {
    DistributionAccountState { merkle_root: Some(MerkleRootRecord { root: [root; 32], total_funds_claimed: claimed }) }
}

#[test]
fn bytes_equal_compares_every_byte() {
    let a = [7u8; 32];
    let mut b = [7u8; 32];
    assert!(bytes_equal(&a, &b));
    b[31] = 8;
    assert!(!bytes_equal(&a, &b));
    assert!(!addr(1).same_as(&addr(2)));
    assert!(addr(3).same_as(&addr(3)));
}

#[test]
fn selection_keeps_owned_trees_in_order() {
    let trees = vec![tree(1, 9, 1), tree(2, 5, 2), tree(3, 9, 3), tree(4, 6, 4)];
    let owned = select_owned_trees(&trees, &addr(9));
    assert_eq!(owned.len(), 2);
    assert_eq!(owned[0].tip_distribution_account.bytes, [1u8; 32]);
    assert_eq!(owned[1].tip_distribution_account.bytes, [3u8; 32]);
    assert!(select_owned_trees(&trees, &addr(8)).is_empty());
    assert!(select_owned_trees(&Vec::new(), &addr(9)).is_empty());
}

#[test]
fn funds_check_is_boundary_inclusive() {
    let fee = DEFAULT_TARGET_LAMPORTS_PER_SIGNATURE;
    assert!(check_funds(3, fee, 30_000).is_ok());
    assert!(check_funds(3, fee, 30_001).is_ok());
    let e = check_funds(3, fee, 29_999).unwrap_err();
    assert_eq!(e.desired_balance, 30_000);
    assert_eq!(e.current_balance, 29_999);
    assert_eq!(e.sol_to_deposit, 1);
    assert!(check_funds(0, fee, 0).is_ok());
}

#[test]
fn shortfall_rounds_up_to_whole_sol() {
    let e = check_funds(1, 2 * LAMPORTS_PER_SOL + 1, 0).unwrap_err();
    assert_eq!(e.desired_balance, 2_000_000_001);
    assert_eq!(e.sol_to_deposit, 3);
    let e = check_funds(2, LAMPORTS_PER_SOL, 0).unwrap_err();
    assert_eq!(e.sol_to_deposit, 2);
    let m = e.message();
    assert!(m.contains("2000000000 lamports"));
    assert!(m.contains("deposit 2 SOL"));
}

#[test]
fn funds_check_does_not_overflow() {
    let e = check_funds(usize::MAX, u64::MAX, u64::MAX).unwrap_err();
    assert_eq!(e.desired_balance, usize::MAX as u128 * u64::MAX as u128);
}

#[test]
fn staleness_decision_table() {
    let local = [4u8; 32];
    assert!(needs_update(&no_root(), &local));
    assert!(needs_update(&with_root(5, 0), &local));
    assert!(!needs_update(&with_root(4, 0), &local));
    assert!(!needs_update(&with_root(5, 1), &local));
    assert!(!needs_update(&with_root(4, 500), &local));
}

#[test]
fn rerun_after_confirmation_finds_nothing_stale() {
    let candidates = vec![tree(1, 9, 1), tree(2, 9, 2)];
    let first = trees_needing_update(&candidates, &vec![no_root(), with_root(7, 0)]);
    assert_eq!(first.len(), 2);
    let after = vec![with_root(1, 0), with_root(2, 0)];
    assert!(trees_needing_update(&candidates, &after).is_empty());
}

#[test]
fn requests_carry_tree_fields_and_signer() {
    let trees = vec![tree(1, 9, 11), tree(2, 9, 12)];
    let reqs = upload_requests(&trees, &addr(100), &addr(101), &addr(9));
    assert_eq!(reqs.len(), 2);
    assert_eq!(reqs[1].program_id.bytes, [100u8; 32]);
    assert_eq!(reqs[1].accounts.config.bytes, [101u8; 32]);
    assert_eq!(reqs[1].accounts.merkle_root_upload_authority.bytes, [9u8; 32]);
    assert_eq!(reqs[1].accounts.tip_distribution_account.bytes, [2u8; 32]);
    assert_eq!(reqs[1].args.root, [12u8; 32]);
    assert_eq!(reqs[1].args.max_total_claim, 1_002);
    assert_eq!(reqs[1].args.max_num_nodes, 12);
}

#[test]
fn retry_resubmits_only_unconfirmed() {
    let mut s = RetrySubmitter::new(3, 1_000, 60_000);
    match s.next_round(1_000) {
        RetryAction::Submit(v) => assert_eq!(v, vec![0, 1, 2]),
        _ => panic!("expected a round"),
    }
    s.record_confirmations(&vec![true, false, true]);
    assert_eq!(s.outstanding(), vec![1]);
    match s.next_round(2_000) {
        RetryAction::Submit(v) => assert_eq!(v, vec![1]),
        _ => panic!("expected a round"),
    }
    s.record_confirmations(&vec![true]);
    assert!(matches!(s.next_round(100_000), RetryAction::AllConfirmed));
}

#[test]
fn retry_stops_at_deadline_and_reports_unconfirmed() {
    let mut s = RetrySubmitter::new(2, 1_000, 60_000);
    let mut now: u64 = 1_000;
    let mut rounds: u64 = 0;
    loop {
        match s.next_round(now) {
            RetryAction::Submit(v) => {
                assert!(now < 61_000);
                rounds += 1;
                let confirmed: Vec<bool> = v.iter().map(|i| *i == 0).collect();
                s.record_confirmations(&confirmed);
                now += 7_000;
            }
            RetryAction::Expired(v) => {
                assert!(now >= 61_000);
                assert_eq!(v, vec![1]);
                break;
            }
            RetryAction::AllConfirmed => panic!("transaction 1 never confirms"),
        }
    }
    assert_eq!(rounds, 9);
    assert!(matches!(s.next_round(60_999), RetryAction::Submit(_)));
    assert!(matches!(s.next_round(61_000), RetryAction::Expired(_)));
}

#[test]
fn retry_with_clock_behind_start_keeps_going() {
    let s = RetrySubmitter::new(1, 5_000, 10);
    assert!(matches!(s.next_round(0), RetryAction::Submit(_)));
    let empty = RetrySubmitter::new(0, 0, 0);
    assert!(matches!(empty.next_round(0), RetryAction::AllConfirmed));
}

#[test]
fn two_owned_trees_are_published_and_third_untouched() {
    let signer = addr(9);
    let collection = vec![tree(1, 9, 1), tree(2, 9, 2), tree(3, 8, 3)];
    let candidates = prepare_candidates(&collection, &signer, 1_000_000).unwrap();
    assert_eq!(candidates.len(), 2);
    let accounts = vec![no_root(), with_root(42, 0)];
    let reqs = plan_uploads(&candidates, &accounts, &addr(100), &addr(101), &signer);
    assert_eq!(reqs.len(), 2);
    assert_eq!(reqs[0].accounts.tip_distribution_account.bytes, [1u8; 32]);
    assert_eq!(reqs[1].accounts.tip_distribution_account.bytes, [2u8; 32]);
    assert!(reqs.iter().all(|r| r.accounts.tip_distribution_account.bytes != [3u8; 32]));
    let mut s = RetrySubmitter::new(reqs.len(), 0, 60_000);
    match s.next_round(0) {
        RetryAction::Submit(v) => assert_eq!(v.len(), 2),
        _ => panic!("expected a round"),
    }
    s.record_confirmations(&vec![false, true]);
    match s.next_round(2_000) {
        RetryAction::Submit(v) => assert_eq!(v, vec![0]),
        _ => panic!("expected a round"),
    }
    s.record_confirmations(&vec![true]);
    assert!(matches!(s.next_round(4_000), RetryAction::AllConfirmed));
}

#[test]
fn claimed_root_is_never_overwritten() {
    let signer = addr(9);
    let candidates = prepare_candidates(&vec![tree(1, 9, 1)], &signer, 10_000).unwrap();
    let reqs = plan_uploads(&candidates, &vec![with_root(77, 500)], &addr(100), &addr(101), &signer);
    assert!(reqs.is_empty());
}

#[test]
fn balance_one_below_need_aborts_before_sending() {
    let signer = addr(9);
    let collection: Vec<GeneratedMerkleTree> = (1..=5u8).map(|i| tree(i, 9, i)).collect();
    let fee = DEFAULT_TARGET_LAMPORTS_PER_SIGNATURE;
    let e = prepare_candidates(&collection, &signer, 5 * fee - 1).unwrap_err();
    assert_eq!(e.desired_balance, 50_000);
    assert_eq!(e.current_balance, 49_999);
    assert_eq!(e.sol_to_deposit, 1);
    assert!(prepare_candidates(&collection, &signer, 5 * fee).is_ok());
}

#[test]
fn config_account_is_derived_from_program() {
    let program = addr(100);
    let config = config_account(&program).unwrap();
    assert!(!config.same_as(&program));
    assert!(config_account(&program).unwrap().same_as(&config));
    assert!(!config_account(&addr(101)).unwrap().same_as(&config));
    let seed: &[u8] = b"CONFIG_ACCOUNT";
    let expected = solana_program::pubkey::Pubkey::find_program_address(&[seed], &solana_program::pubkey::Pubkey::new_from_array(program.bytes)).0;
    assert_eq!(config.bytes, expected.to_bytes());
}

#[test]
fn default_fee_applies_to_candidates() {
    let collection = vec![tree(1, 9, 1), tree(2, 8, 2)];
    let e = prepare_candidates(&collection, &addr(9), 9_999).unwrap_err();
    assert_eq!(e.desired_balance, 10_000);
    assert!(prepare_candidates(&collection, &addr(7), 0).unwrap().is_empty());
}

#[test]
fn only_succeeded_statuses_confirm() {
    let statuses = vec![SignatureStatus::Succeeded, SignatureStatus::Failed, SignatureStatus::Unknown, SignatureStatus::Succeeded];
    assert_eq!(confirmation_flags(&statuses, 4), vec![true, false, false, true]);
    assert_eq!(confirmation_flags(&statuses, 3), vec![false, false, false]);
    assert_eq!(confirmation_flags(&Vec::new(), 2), vec![false, false]);
    assert!(confirmation_flags(&Vec::new(), 0).is_empty());
}

#[test]
fn retry_indices_stay_within_batch() {
    let mut s = RetrySubmitter::new(4, 0, 1_000);
    s.record_confirmations(&confirmation_flags(&vec![SignatureStatus::Succeeded, SignatureStatus::Unknown, SignatureStatus::Failed, SignatureStatus::Succeeded], 4));
    assert_eq!(s.outstanding(), vec![1, 2]);
    match s.next_round(1_000) {
        RetryAction::Expired(v) => assert!(v.iter().all(|i| *i < 4)),
        _ => panic!("window is closed"),
    }
}

#[test]
fn shortfall_message_reports_all_amounts() {
    let e = check_funds(5, DEFAULT_TARGET_LAMPORTS_PER_SIGNATURE, 49_999).unwrap_err();
    assert_eq!(
        e.message(),
        "Expected to have at least 50000 lamports, current balance is 49999 lamports, deposit 1 SOL to continue."
    );
}
