//! What holds of an account over several transitions: a run of credits, the
//! apply that follows it, and an apply that comes too late.

use crate::account::{AccountView, ApplyError, ApplyRejectReason};
use crate::encryption::{homomorphic_sum, zero_ciphertext};
use vstd::prelude::*;

verus! {

impl AccountView {
    /// The account after one credit for each of `deltas`, in their order, if
    /// every one of them took place.
    pub open spec fn after_credits(self, deltas: Seq<Seq<u8>>) -> Option<AccountView>
        decreases deltas.len(),
    {
        if deltas.len() == 0 {
            Some(self)
        } else {
            match self.after_credits(deltas.drop_last()) {
                Some(before) => match before.credit_of(deltas.last()) {
                    Ok(after) => Some(after),
                    Err(_) => None,
                },
                None => None,
            }
        }
    }
}

/// The sum of `start` and each of `deltas`, taken up one after the other in
/// their order, if the ciphertext algebra gives every one of the sums.
pub open spec fn credited_sum(start: Seq<u8>, deltas: Seq<Seq<u8>>) -> Option<Seq<u8>>
    decreases deltas.len(),
{
    if deltas.len() == 0 {
        Some(start)
    } else {
        match credited_sum(start, deltas.drop_last()) {
            Some(sum) => homomorphic_sum(sum, deltas.last()),
            None => None,
        }
    }
}

/// Where a run of credits took place, so did each of its beginnings.
pub proof fn lemma_credits_prefix(start: AccountView, deltas: Seq<Seq<u8>>, k: int)
    requires
        start.after_credits(deltas) is Some,
        0 <= k <= deltas.len(),
    ensures
        start.after_credits(deltas.take(k)) is Some,
    decreases deltas.len(),
{
    if k == deltas.len() {
        assert(deltas.take(k) =~= deltas);
    } else {
        assert(deltas.drop_last().take(k) =~= deltas.take(k));
        lemma_credits_prefix(start, deltas.drop_last(), k);
    }
}

/// A run of credits that all took place moves nothing but the pending
/// balance and the credit counter, raises the counter by one for each
/// credit, and leaves as the pending balance the sum of what it was and all
/// that was credited.
pub proof fn lemma_credits_accrue(start: AccountView, deltas: Seq<Seq<u8>>)
    requires
        start.after_credits(deltas) is Some,
    ensures
        ({
            let end = start.after_credits(deltas)->Some_0;
            &&& end.pending_balance_credit_counter == start.pending_balance_credit_counter
                + deltas.len()
            &&& credited_sum(start.pending_balance, deltas) == Some(end.pending_balance)
            &&& end == AccountView {
                pending_balance: end.pending_balance,
                pending_balance_credit_counter: end.pending_balance_credit_counter,
                ..start
            }
        }),
    decreases deltas.len(),
{
    if deltas.len() > 0 {
        lemma_credits_accrue(start, deltas.drop_last());
    }
}

/// From a state in which no credit is pending, `deltas.len()` credits that
/// all took place raise the credit counter by one each, leave the counter of
/// the last apply as it was, and make the number of pending credits
/// `deltas.len()`. This holds after each credit of the run.
pub proof fn lemma_credits_counted(start: AccountView, deltas: Seq<Seq<u8>>)
    requires
        start.quiescent(),
        start.after_credits(deltas) is Some,
    ensures
        forall|k: int|
            #![trigger deltas.take(k)]
            0 <= k <= deltas.len() ==> {
                &&& start.after_credits(deltas.take(k)) matches Some(mid)
                &&& mid.pending_balance_credit_counter == start.pending_balance_credit_counter + k
                &&& mid.actual_pending_balance_credit_counter
                    == start.actual_pending_balance_credit_counter
                &&& mid.pending_balance_credits() == k
            },
        ({
            let end = start.after_credits(deltas)->Some_0;
            &&& end.pending_balance_credit_counter == start.pending_balance_credit_counter
                + deltas.len()
            &&& end.actual_pending_balance_credit_counter
                == start.actual_pending_balance_credit_counter
            &&& end.pending_balance_credits() == deltas.len()
        }),
{
    assert forall|k: int| #![trigger deltas.take(k)] 0 <= k <= deltas.len() implies {
        &&& start.after_credits(deltas.take(k)) matches Some(mid)
        &&& mid.pending_balance_credit_counter == start.pending_balance_credit_counter + k
        &&& mid.actual_pending_balance_credit_counter
            == start.actual_pending_balance_credit_counter
        &&& mid.pending_balance_credits() == k
    } by {
        lemma_credits_prefix(start, deltas, k);
        lemma_credits_accrue(start, deltas.take(k));
    }
    lemma_credits_accrue(start, deltas);
}

/// An apply that takes place with the counter as it stands, after a run of
/// credits that all took place, leaves no credit pending, the pending
/// balance the ciphertext of zero, and as the available balance the sum of
/// what it was before the run and the pending balance, which is the sum of
/// what it was before the run and everything credited since. Before the
/// run the pending balance is the ciphertext of zero wherever the run
/// follows an apply or the account's creation.
pub proof fn lemma_apply_folds_credits(
    start: AccountView,
    deltas: Seq<Seq<u8>>,
    decryptable: Seq<u8>,
)
    requires
        start.after_credits(deltas) matches Some(credited) && credited.apply_of(
            credited.pending_balance_credit_counter,
            decryptable,
        ) is Ok,
    ensures
        ({
            let credited = start.after_credits(deltas)->Some_0;
            let applied = credited.apply_of(
                credited.pending_balance_credit_counter,
                decryptable,
            )->Ok_0;
            &&& applied.pending_balance_credits() == 0
            &&& applied.quiescent()
            &&& applied.pending_balance == zero_ciphertext()
            &&& credited_sum(start.pending_balance, deltas) matches Some(pending)
            &&& homomorphic_sum(start.available_balance, pending) == Some(
                applied.available_balance,
            )
            &&& applied.decryptable_balance == decryptable
            &&& applied.pending_balance_credit_counter == start.pending_balance_credit_counter
                + deltas.len()
        }),
{
    lemma_credits_accrue(start, deltas);
}

/// A credit that takes place adds one pending credit and keeps the credit
/// counter from falling behind the counter of the last apply; an apply that
/// takes place leaves the three counters equal.
pub proof fn lemma_transitions_keep_order(
    before: AccountView,
    sum: Option<Seq<u8>>,
    expected: u64,
    folded: Option<(Seq<u8>, Seq<u8>)>,
)
    requires
        before.in_order(),
    ensures
        before.credit(sum) matches Ok(after) ==> {
            &&& after.in_order()
            &&& after.pending_balance_credits() == before.pending_balance_credits() + 1
        },
        before.apply(expected, folded) matches Ok(after) ==> {
            &&& after.quiescent()
            &&& after.in_order()
            &&& after.expected_pending_balance_credit_counter
                == after.pending_balance_credit_counter
            &&& after.pending_balance_credit_counter == before.pending_balance_credit_counter
        },
{
}

/// An apply that expects the counter as it stood before a credit took place
/// is rejected as stale, whatever was made of the balances.
pub proof fn lemma_stale_apply_rejected(
    before: AccountView,
    sum: Option<Seq<u8>>,
    folded: Option<(Seq<u8>, Seq<u8>)>,
)
    requires
        before.credit(sum) is Ok,
    ensures
        before.credit(sum)->Ok_0.apply(before.pending_balance_credit_counter, folded) == Err::<
            AccountView,
            ApplyError,
        >(ApplyError::ApplyRejected { reason: ApplyRejectReason::StaleCounter }),
{
}

} // verus!
