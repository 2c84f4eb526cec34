//! The funds check made before any transaction is built or sent.
use vstd::prelude::*;

verus! {

/// Lamports in one SOL.
pub open spec fn lamports_per_sol_spec() -> nat {
    1_000_000_000
}

/// Relies on `solana_program::native_token::LAMPORTS_PER_SOL`, which is 10^9.
#[verifier::external_body]
fn lamports_per_sol() -> (r: u64)
    ensures
        r == lamports_per_sol_spec(),
{
    solana_program::native_token::LAMPORTS_PER_SOL
}

/// The fee, in lamports, that the ledger targets for each signature.
pub open spec fn default_fee_per_signature_spec() -> nat {
    10_000
}

/// Relies on `solana_program::fee_calculator::DEFAULT_TARGET_LAMPORTS_PER_SIGNATURE`,
/// which is 10,000 lamports.
#[verifier::external_body]
pub(crate) fn default_fee_per_signature() -> (r: u64)
    ensures
        r == default_fee_per_signature_spec(),
{
    solana_program::fee_calculator::DEFAULT_TARGET_LAMPORTS_PER_SIGNATURE
}

/// The signer's balance does not cover the worst-case fees of the batch.
#[derive(Clone, Copy, Debug, PartialEq, Eq)]
pub struct InsufficientFunds {
    /// The balance the batch needs, in lamports.
    pub desired_balance: u128,
    /// The balance the signer has, in lamports.
    pub current_balance: u64,
    /// Whole SOL to deposit to cover the shortfall, rounded up.
    pub sol_to_deposit: u128,
}

impl InsufficientFunds {
    /// An operator-facing description of the shortfall: the balance needed,
    /// the balance held, and the whole SOL to deposit.
    pub fn message(&self) -> (r: String)
        ensures
            r@ == shortfall_message(
                self.desired_balance as int,
                self.current_balance as int,
                self.sol_to_deposit as int,
            ),
    {
        format_shortfall(self.desired_balance, self.current_balance, self.sol_to_deposit)
    }
}

/// The text that reports a shortfall of `deposit` SOL, with the `desired` and
/// `current` balances in lamports.
pub uninterp spec fn shortfall_message(desired: int, current: int, deposit: int) -> Seq<char>;

/// Relies on std's `format!` to render the three amounts in decimal; the text
/// depends on the three numbers alone.
#[verifier::external_body]
fn format_shortfall(desired: u128, current: u64, deposit: u128) -> (r: String)
    ensures
        r@ == shortfall_message(desired as int, current as int, deposit as int),
{
    format!(
        "Expected to have at least {} lamports, current balance is {} lamports, deposit {} SOL to continue.",
        desired, current, deposit
    )
}

/// Worst-case fee cost of a batch: one signature per candidate.
pub open spec fn desired_balance(candidate_count: nat, fee_per_signature: nat) -> nat {
    candidate_count * fee_per_signature
}

/// Whole SOL that covers `desired - balance` lamports, rounded up.
pub open spec fn sol_to_deposit(desired: nat, balance: nat) -> nat
    recommends
        balance < desired,
{
    ((desired - balance) + lamports_per_sol_spec() - 1) as nat / lamports_per_sol_spec()
}

/// Checks that `balance` covers one signature fee for each of `candidate_count`
/// candidates; the check passes when the balance equals the need exactly.
pub fn check_funds(candidate_count: usize, fee_per_signature: u64, balance: u64) -> (r: Result<(), InsufficientFunds>)
    ensures
        r.is_ok() <==> balance >= desired_balance(candidate_count as nat, fee_per_signature as nat),
        r matches Err(e) ==> {
            &&& e.desired_balance == desired_balance(candidate_count as nat, fee_per_signature as nat)
            &&& e.current_balance == balance
            &&& e.sol_to_deposit == sol_to_deposit(e.desired_balance as nat, balance as nat)
        },
{
    let n = candidate_count as u128;
    let fee = fee_per_signature as u128;
    assert(n * fee <= 0xffff_ffff_ffff_ffffu128 * 0xffff_ffff_ffff_ffffu128) by (nonlinear_arith)
        requires
            n <= 0xffff_ffff_ffff_ffffu128,
            fee <= 0xffff_ffff_ffff_ffffu128,
    ;
    let desired: u128 = n * fee;
    if (balance as u128) < desired {
        let per_sol = lamports_per_sol() as u128;
        let deposit: u128 = (desired - balance as u128 + per_sol - 1) / per_sol;
        Err(InsufficientFunds { desired_balance: desired, current_balance: balance, sol_to_deposit: deposit })
    } else {
        Ok(())
    }
}

} // verus!
