//! Bounded resubmission of a batch of transactions that share one validity
//! token: the decisions of each round, with the sending and waiting left to
//! the caller.
use vstd::prelude::*;

verus! {

/// What the caller does next.
#[derive(Clone, Debug)]
pub enum RetryAction {
    /// Submit the transactions at these batch indices again, then wait briefly
    /// and report which of them were confirmed.
    Submit(Vec<usize>),
    /// Every transaction of the batch is confirmed.
    AllConfirmed,
    /// The validity window has closed; these batch indices never confirmed.
    Expired(Vec<usize>),
}

/// Milliseconds from `start` to `now`, counting a clock that went back as zero.
pub open spec fn elapsed(start: u64, now: u64) -> nat {
    if now >= start {
        (now - start) as nat
    } else {
        0
    }
}

/// Whether the validity window of `max_duration` from `start` is over at `now`.
pub open spec fn window_closed(start: u64, max_duration: u64, now: u64) -> bool {
    elapsed(start, now) >= max_duration
}

/// The entries of `outstanding` whose confirmation flag is false, in order.
pub open spec fn unconfirmed(outstanding: Seq<usize>, confirmed: Seq<bool>) -> Seq<usize>
    recommends
        outstanding.len() == confirmed.len(),
    decreases outstanding.len(),
{
    if outstanding.len() == 0 || confirmed.len() == 0 {
        Seq::empty()
    } else {
        let rest = unconfirmed(outstanding.drop_last(), confirmed.drop_last());
        if confirmed.last() {
            rest
        } else {
            rest.push(outstanding.last())
        }
    }
}

/// The batch indices `0 .. n`.
pub open spec fn all_indices(n: nat) -> Seq<usize> {
    Seq::new(n, |i: int| i as usize)
}

/// What the ledger reports of one submitted transaction's signature.
#[derive(Clone, Copy, Debug, PartialEq, Eq)]
pub enum SignatureStatus {
    /// The ledger has no status for the signature yet.
    Unknown,
    /// The transaction was included but failed.
    Failed,
    /// The transaction was included and succeeded.
    Succeeded,
}

/// One flag per pending transaction: confirmed exactly when its status is
/// `Succeeded`. Statuses that do not match the pending set one for one confirm
/// nothing.
pub open spec fn confirmation_flags_spec(statuses: Seq<SignatureStatus>, pending_count: nat) -> Seq<bool> {
    Seq::new(pending_count, |i: int| statuses.len() == pending_count && statuses[i] is Succeeded)
}

/// Turns the statuses fetched for the pending signatures, in pending order,
/// into the confirmation flags that `RetrySubmitter::record_confirmations` takes.
pub fn confirmation_flags(statuses: &Vec<SignatureStatus>, pending_count: usize) -> (r: Vec<bool>)
    ensures
        r@ == confirmation_flags_spec(statuses@, pending_count as nat),
{
    let matched = statuses.len() == pending_count;
    let mut r: Vec<bool> = Vec::new();
    let mut i: usize = 0;
    while i < pending_count
        invariant
            i <= pending_count,
            matched == (statuses@.len() == pending_count),
            r@ =~= confirmation_flags_spec(statuses@, pending_count as nat).take(i as int),
        decreases pending_count - i,
    {
        let ok = matched && match statuses[i] {
            SignatureStatus::Succeeded => true,
            _ => false,
        };
        r.push(ok);
        i = i + 1;
    }
    assert(confirmation_flags_spec(statuses@, pending_count as nat).take(i as int) =~= confirmation_flags_spec(
        statuses@,
        pending_count as nat,
    ));
    r
}

/// The state of the retry loop over a batch of transactions.
pub struct RetrySubmitter {
    start_ms: u64,
    max_duration_ms: u64,
    tx_count: usize,
    outstanding: Vec<usize>,
}

impl RetrySubmitter {
    /// The number of transactions in the batch.
    pub closed spec fn tx_count(&self) -> nat {
        self.tx_count as nat
    }

    /// Every pending index names a transaction of the batch.
    pub open spec fn wf(&self) -> bool {
        forall|i: int| 0 <= i < self.pending().len() ==> #[trigger] self.pending()[i] < self.tx_count()
    }

    /// When the validity token was obtained, in milliseconds.
    pub closed spec fn start(&self) -> u64 {
        self.start_ms
    }

    /// How long after `start` resubmission can still succeed.
    pub closed spec fn max_duration(&self) -> u64 {
        self.max_duration_ms
    }

    /// Batch indices of the transactions not yet seen confirmed.
    pub closed spec fn pending(&self) -> Seq<usize> {
        self.outstanding@
    }

    /// A loop over `tx_count` transactions whose token was obtained at
    /// `start_ms`; all of them start out unconfirmed.
    pub fn new(tx_count: usize, start_ms: u64, max_duration_ms: u64) -> (r: RetrySubmitter)
        ensures
            r.start() == start_ms,
            r.max_duration() == max_duration_ms,
            r.tx_count() == tx_count,
            r.pending() == all_indices(tx_count as nat),
            r.wf(),
    {
        let mut outstanding: Vec<usize> = Vec::new();
        let mut i: usize = 0;
        while i < tx_count
            invariant
                i <= tx_count,
                outstanding@ == all_indices(i as nat),
            decreases tx_count - i,
        {
            outstanding.push(i);
            i = i + 1;
            assert(outstanding@ =~= all_indices(i as nat));
        }
        RetrySubmitter { start_ms, max_duration_ms, tx_count, outstanding }
    }

    /// Batch indices of the transactions not yet seen confirmed.
    pub fn outstanding(&self) -> (r: Vec<usize>)
        ensures
            r@ == self.pending(),
    {
        self.outstanding.clone()
    }

    /// Decides the next round at time `now_ms`: done when nothing is pending;
    /// otherwise resubmit the whole pending set while the window is open, and
    /// report it as failed once the window has closed.
    pub fn next_round(&self, now_ms: u64) -> (r: RetryAction)
        requires
            self.wf(),
        ensures
            r is AllConfirmed <==> self.pending().len() == 0,
            r is Submit <==> (self.pending().len() > 0 && !window_closed(self.start(), self.max_duration(), now_ms)),
            r is Expired <==> (self.pending().len() > 0 && window_closed(self.start(), self.max_duration(), now_ms)),
            r matches RetryAction::Submit(v) ==> v@ == self.pending(),
            r matches RetryAction::Expired(v) ==> v@ == self.pending(),
            r matches RetryAction::Submit(v) ==> forall|i: int| 0 <= i < v@.len() ==> #[trigger] v@[i] < self.tx_count(),
            r matches RetryAction::Expired(v) ==> forall|i: int| 0 <= i < v@.len() ==> #[trigger] v@[i] < self.tx_count(),
    {
        if self.outstanding.len() == 0 {
            RetryAction::AllConfirmed
        } else {
            let elapsed: u64 = if now_ms >= self.start_ms { now_ms - self.start_ms } else { 0 };
            if elapsed >= self.max_duration_ms {
                RetryAction::Expired(self.outstanding.clone())
            } else {
                RetryAction::Submit(self.outstanding.clone())
            }
        }
    }

    /// Takes in the outcome of a round: `confirmed[i]` tells whether the
    /// `i`-th pending transaction is now confirmed. Only those leave the
    /// pending set; the rest stay, in order.
    pub fn record_confirmations(&mut self, confirmed: &Vec<bool>)
        requires
            old(self).wf(),
            confirmed@.len() == old(self).pending().len(),
        ensures
            final(self).wf(),
            final(self).tx_count() == old(self).tx_count(),
            final(self).start() == old(self).start(),
            final(self).max_duration() == old(self).max_duration(),
            final(self).pending() == unconfirmed(old(self).pending(), confirmed@),
    {
        let mut kept: Vec<usize> = Vec::new();
        let mut i: usize = 0;
        while i < self.outstanding.len()
            invariant
                i <= self.outstanding@.len(),
                confirmed@.len() == self.outstanding@.len(),
                kept@ == unconfirmed(self.outstanding@.take(i as int), confirmed@.take(i as int)),
                self.wf(),
                forall|j: int| 0 <= j < kept@.len() ==> #[trigger] kept@[j] < self.tx_count(),
            decreases self.outstanding@.len() - i,
        {
            assert(self.outstanding@.take(i + 1).drop_last() =~= self.outstanding@.take(i as int));
            assert(confirmed@.take(i + 1).drop_last() =~= confirmed@.take(i as int));
            if !confirmed[i] {
                assert(self.pending()[i as int] < self.tx_count());
                kept.push(self.outstanding[i]);
            }
            i = i + 1;
        }
        assert(self.outstanding@.take(i as int) =~= self.outstanding@);
        assert(confirmed@.take(i as int) =~= confirmed@);
        self.outstanding = kept;
    }
}

/// A transaction that is never seen confirmed stays pending through a round.
pub proof fn lemma_unconfirmed_stays_pending(outstanding: Seq<usize>, confirmed: Seq<bool>, k: usize)
    requires
        outstanding.len() == confirmed.len(),
        outstanding.contains(k),
        forall|j: int| 0 <= j < outstanding.len() && outstanding[j] == k ==> !confirmed[j],
    ensures
        unconfirmed(outstanding, confirmed).contains(k),
    decreases outstanding.len(),
{
    let o = outstanding.drop_last();
    let c = confirmed.drop_last();
    let rest = unconfirmed(o, c);
    if outstanding.last() == k {
        assert(!confirmed[confirmed.len() - 1]);
        assert(rest.push(k)[rest.len() as int] == k);
    } else {
        let j = choose|j: int| 0 <= j < outstanding.len() && outstanding[j] == k;
        assert(j < o.len());
        assert(o[j] == k);
        assert forall|m: int| 0 <= m < o.len() && o[m] == k implies !c[m] by {
            assert(outstanding[m] == k);
        }
        lemma_unconfirmed_stays_pending(o, c, k);
        if !confirmed.last() {
            let m = choose|m: int| 0 <= m < rest.len() && rest[m] == k;
            assert(rest.push(outstanding.last())[m] == k);
        }
    }
}

/// A transaction that never confirms is never given up early and never
/// resubmitted late: pending through every round, it is resubmitted only while
/// `now < start + max_duration`, and once the window has closed the loop stops
/// and reports it as unconfirmed.
pub proof fn lemma_retry_stops_at_deadline(s: RetrySubmitter, confirmed: Seq<bool>, k: usize, now: u64)
    requires
        confirmed.len() == s.pending().len(),
        s.pending().contains(k),
        forall|j: int| 0 <= j < s.pending().len() && s.pending()[j] == k ==> !confirmed[j],
    ensures
        unconfirmed(s.pending(), confirmed).contains(k),
        unconfirmed(s.pending(), confirmed).len() > 0,
        !window_closed(s.start(), s.max_duration(), now) ==> now < s.start() + s.max_duration(),
{
    lemma_unconfirmed_stays_pending(s.pending(), confirmed, k);
}

} // verus!
