//! The record of a confidential token account, and the two transitions that
//! move value through it: a credit adds a ciphertext to the pending balance,
//! an apply folds the pending balance into the available one. The credit
//! counter is the only token by which an apply can tell that a credit came in
//! between: ciphertexts do not compare.

use crate::encryption::{
    homomorphic_add, homomorphic_sum, zero_ciphertext, AesCiphertext, ElGamalCiphertext,
    ElGamalPubkey,
};
use crate::pod::{lemma_pod_u64_view_injective, PodBool, PodU64};
use crate::pubkey::Pubkey;
use vstd::prelude::*;

verus! {

/// Why a credit did not take place.
#[derive(Clone, Copy, Debug, PartialEq, Eq)]
pub enum CreditError {
    /// The account does not accept credits to its pending balance.
    CreditRejected,
    /// The credit counter stands at its greatest value.
    CounterOverflow,
    /// The ciphertext algebra gave no sum for the two ciphertexts.
    MalformedCiphertext,
}

/// Why an apply was rejected.
#[derive(Clone, Copy, Debug, PartialEq, Eq)]
pub enum ApplyRejectReason {
    /// The counter that the caller expected is not the account's counter: a
    /// credit came in after the caller read it.
    StaleCounter,
}

/// Why an apply did not take place.
#[derive(Clone, Copy, Debug, PartialEq, Eq)]
pub enum ApplyError {
    ApplyRejected { reason: ApplyRejectReason },
    /// The ciphertext algebra gave no sum for the two balances.
    MalformedCiphertext,
}

/// State for a confidential token account.
#[derive(Clone, Copy, Debug, PartialEq, Eq)]
pub struct ConfidentialAccount {
    /// The token mint associated with this account.
    pub mint: Pubkey,
    /// The token account that this record belongs to. Its owner has
    /// authority over the record.
    pub token_account: Pubkey,
    /// The public key under which the balances are encrypted.
    pub elgamal_pk: ElGamalPubkey,
    /// The pending balance (encrypted by `elgamal_pk`).
    pub pending_balance: ElGamalCiphertext,
    /// The available balance (encrypted by `elgamal_pk`).
    pub available_balance: ElGamalCiphertext,
    /// The available balance once more, in a form that the owner decrypts
    /// with a symmetric key. A cache: no decision rests on it.
    pub decryptable_balance: AesCiphertext,
    /// `pending_balance` may only be credited if `true`.
    pub allow_pending_balance_credits: PodBool,
    /// The number of credits that `pending_balance` has ever taken.
    pub pending_balance_credit_counter: PodU64,
    /// The counter that the owner expected at the last apply.
    pub expected_pending_balance_credit_counter: PodU64,
    /// The counter as it stood when the last apply took place.
    pub actual_pending_balance_credit_counter: PodU64,
}

/// An account as contracts speak of it: each key and ciphertext by its
/// bytes, the flag as a truth value, each counter as a number.
pub struct AccountView {
    pub mint: Seq<u8>,
    pub token_account: Seq<u8>,
    pub elgamal_pk: Seq<u8>,
    pub pending_balance: Seq<u8>,
    pub available_balance: Seq<u8>,
    pub decryptable_balance: Seq<u8>,
    pub allow_pending_balance_credits: bool,
    pub pending_balance_credit_counter: u64,
    pub expected_pending_balance_credit_counter: u64,
    pub actual_pending_balance_credit_counter: u64,
}

impl View for ConfidentialAccount {
    type V = AccountView;

    open spec fn view(&self) -> AccountView {
        AccountView {
            mint: self.mint@,
            token_account: self.token_account@,
            elgamal_pk: self.elgamal_pk@,
            pending_balance: self.pending_balance@,
            available_balance: self.available_balance@,
            decryptable_balance: self.decryptable_balance@,
            allow_pending_balance_credits: self.allow_pending_balance_credits@,
            pending_balance_credit_counter: self.pending_balance_credit_counter@,
            expected_pending_balance_credit_counter: self.expected_pending_balance_credit_counter@,
            actual_pending_balance_credit_counter: self.actual_pending_balance_credit_counter@,
        }
    }
}

impl AccountView {
    /// The number of credits that the pending balance has taken since it was
    /// last folded into the available balance; zero where the counters have
    /// it the other way round.
    pub open spec fn pending_balance_credits(self) -> int {
        if self.pending_balance_credit_counter >= self.actual_pending_balance_credit_counter {
            self.pending_balance_credit_counter - self.actual_pending_balance_credit_counter
        } else {
            0
        }
    }

    /// No credit has come in since the last apply.
    pub open spec fn quiescent(self) -> bool {
        self.pending_balance_credit_counter == self.actual_pending_balance_credit_counter
    }

    /// The credit counter is not behind the counter of the last apply. So it
    /// is in a new account, and credits and applies keep it so.
    pub open spec fn in_order(self) -> bool {
        self.actual_pending_balance_credit_counter <= self.pending_balance_credit_counter
    }

    /// A credit, given what the ciphertext algebra answered for the sum of the
    /// pending balance and the credited ciphertext. The flag decides first,
    /// then the counter, then the sum.
    pub open spec fn credit(self, sum: Option<Seq<u8>>) -> Result<AccountView, CreditError> {
        if !self.allow_pending_balance_credits {
            Err(CreditError::CreditRejected)
        } else if self.pending_balance_credit_counter == u64::MAX {
            Err(CreditError::CounterOverflow)
        } else {
            match sum {
                None => Err(CreditError::MalformedCiphertext),
                Some(pending) => Ok(
                    AccountView {
                        pending_balance: pending,
                        pending_balance_credit_counter: (self.pending_balance_credit_counter
                            + 1) as u64,
                        ..self
                    },
                ),
            }
        }
    }

    /// An apply, given the counter that the caller expects and what was made
    /// of the balances: the sum of the available and the pending balance with
    /// the cache derived from it, or nothing where the algebra gave no sum.
    pub open spec fn apply(self, expected: u64, folded: Option<(Seq<u8>, Seq<u8>)>) -> Result<
        AccountView,
        ApplyError,
    > {
        if expected != self.pending_balance_credit_counter {
            Err(ApplyError::ApplyRejected { reason: ApplyRejectReason::StaleCounter })
        } else {
            match folded {
                None => Err(ApplyError::MalformedCiphertext),
                Some((available, decryptable)) => Ok(
                    AccountView {
                        pending_balance: zero_ciphertext(),
                        available_balance: available,
                        decryptable_balance: decryptable,
                        expected_pending_balance_credit_counter: expected,
                        actual_pending_balance_credit_counter: self.pending_balance_credit_counter,
                        ..self
                    },
                ),
            }
        }
    }

    /// A credit of `delta`, with the sum that the ciphertext algebra gives.
    pub open spec fn credit_of(self, delta: Seq<u8>) -> Result<AccountView, CreditError> {
        self.credit(homomorphic_sum(self.pending_balance, delta))
    }

    /// An apply with the sum that the ciphertext algebra gives for the two
    /// balances, and `decryptable` as the cache of that sum.
    pub open spec fn apply_of(self, expected: u64, decryptable: Seq<u8>) -> Result<
        AccountView,
        ApplyError,
    > {
        self.apply(
            expected,
            match homomorphic_sum(self.available_balance, self.pending_balance) {
                Some(available) => Some((available, decryptable)),
                None => None,
            },
        )
    }
}

/// An account is what its view says: two accounts with one view are the
/// same account.
pub proof fn lemma_account_view_injective(a: ConfidentialAccount, b: ConfidentialAccount)
    requires
        a@ == b@,
    ensures
        a == b,
{
    assert(a.mint.0 =~= b.mint.0);
    assert(a.token_account.0 =~= b.token_account.0);
    assert(a.elgamal_pk.0 =~= b.elgamal_pk.0);
    assert(a.pending_balance.0 =~= b.pending_balance.0);
    assert(a.available_balance.0 =~= b.available_balance.0);
    assert(a.decryptable_balance.0 =~= b.decryptable_balance.0);
    lemma_pod_u64_view_injective(
        a.pending_balance_credit_counter,
        b.pending_balance_credit_counter,
    );
    lemma_pod_u64_view_injective(
        a.expected_pending_balance_credit_counter,
        b.expected_pending_balance_credit_counter,
    );
    lemma_pod_u64_view_injective(
        a.actual_pending_balance_credit_counter,
        b.actual_pending_balance_credit_counter,
    );
}

/// The bytes of a ciphertext that may be missing.
pub open spec fn ciphertext_bytes(ciphertext: Option<ElGamalCiphertext>) -> Option<Seq<u8>> {
    match ciphertext {
        Some(c) => Some(c@),
        None => None,
    }
}

/// The bytes of a new available balance and its cache, where there are any.
pub open spec fn folded_bytes(folded: Option<(ElGamalCiphertext, AesCiphertext)>) -> Option<
    (Seq<u8>, Seq<u8>),
> {
    match folded {
        Some((available, decryptable)) => Some((available@, decryptable@)),
        None => None,
    }
}

impl ConfidentialAccount {
    /// A new account: no credit yet, both balances the ciphertext of zero.
    /// `decryptable_balance` is the owner's cache of a zero balance.
    pub fn new(
        mint: Pubkey,
        token_account: Pubkey,
        elgamal_pk: ElGamalPubkey,
        decryptable_balance: AesCiphertext,
        allow_pending_balance_credits: bool,
    ) -> (account: ConfidentialAccount)
        ensures
            account@ == (AccountView {
                mint: mint@,
                token_account: token_account@,
                elgamal_pk: elgamal_pk@,
                pending_balance: zero_ciphertext(),
                available_balance: zero_ciphertext(),
                decryptable_balance: decryptable_balance@,
                allow_pending_balance_credits,
                pending_balance_credit_counter: 0,
                expected_pending_balance_credit_counter: 0,
                actual_pending_balance_credit_counter: 0,
            }),
    {
        ConfidentialAccount {
            mint,
            token_account,
            elgamal_pk,
            pending_balance: ElGamalCiphertext::zeroed(),
            available_balance: ElGamalCiphertext::zeroed(),
            decryptable_balance,
            allow_pending_balance_credits: PodBool::from_bool(allow_pending_balance_credits),
            pending_balance_credit_counter: PodU64::from_u64(0),
            expected_pending_balance_credit_counter: PodU64::from_u64(0),
            actual_pending_balance_credit_counter: PodU64::from_u64(0),
        }
    }

    /// The number of credits in the pending balance that no apply has
    /// accounted for yet: the credit counter less its value at the last
    /// apply, and zero where that would be negative.
    pub fn pending_balance_credits(&self) -> (credits: u64)
        ensures
            credits == self@.pending_balance_credits(),
            self@.pending_balance_credit_counter >= self@.actual_pending_balance_credit_counter
                ==> credits == self@.pending_balance_credit_counter
                - self@.actual_pending_balance_credit_counter,
            self@.pending_balance_credit_counter < self@.actual_pending_balance_credit_counter
                ==> credits == 0,
    {
        u64::from(self.pending_balance_credit_counter).saturating_sub(
            self.actual_pending_balance_credit_counter.into(),
        )
    }

    /// Credits the pending balance with `delta`: asks the ciphertext algebra
    /// for the sum of the two and records it. Either the counter goes up by
    /// one and the pending balance becomes the sum, or nothing changes.
    pub fn credit(&mut self, delta: &ElGamalCiphertext) -> (outcome: Result<(), CreditError>)
        ensures
            match old(self)@.credit_of(delta@) {
                Ok(next) => outcome is Ok && final(self)@ == next,
                Err(e) => outcome == Err::<(), CreditError>(e) && *final(self) == *old(self),
            },
            !old(self)@.allow_pending_balance_credits ==> outcome == Err::<(), CreditError>(
                CreditError::CreditRejected,
            ) && *final(self) == *old(self),
            outcome is Ok ==> {
                &&& final(self)@.pending_balance_credit_counter
                    == old(self)@.pending_balance_credit_counter + 1
                &&& homomorphic_sum(old(self)@.pending_balance, delta@) == Some(
                    final(self)@.pending_balance,
                )
            },
    {
        if !self.allow_pending_balance_credits.to_bool() {
            return Err(CreditError::CreditRejected);
        }
        let sum = homomorphic_add(&self.pending_balance, delta);
        self.credit_with(sum)
    }

    /// Records a credit whose sum with the pending balance is `sum`, as the
    /// ciphertext algebra answered it.
    pub fn credit_with(&mut self, sum: Option<ElGamalCiphertext>) -> (outcome: Result<
        (),
        CreditError,
    >)
        ensures
            match old(self)@.credit(ciphertext_bytes(sum)) {
                Ok(next) => outcome is Ok && final(self)@ == next,
                Err(e) => outcome == Err::<(), CreditError>(e) && *final(self) == *old(self),
            },
            !old(self)@.allow_pending_balance_credits ==> outcome == Err::<(), CreditError>(
                CreditError::CreditRejected,
            ) && *final(self) == *old(self),
    {
        if !self.allow_pending_balance_credits.to_bool() {
            return Err(CreditError::CreditRejected);
        }
        let counter = match self.pending_balance_credit_counter.to_u64().checked_add(1) {
            Some(counter) => counter,
            None => {
                return Err(CreditError::CounterOverflow);
            },
        };
        match sum {
            None => Err(CreditError::MalformedCiphertext),
            Some(pending) => {
                self.pending_balance = pending;
                self.pending_balance_credit_counter = PodU64::from_u64(counter);
                Ok(())
            },
        }
    }

    /// Folds the pending balance into the available balance, if `expected` is
    /// the account's credit counter: asks the ciphertext algebra for the sum
    /// of the two balances and `rederive` for the cache of that sum, and
    /// records both. Either all of the apply takes place or nothing changes.
    ///
    /// The outcome is that of `apply_of` with the cache that the record
    /// holds afterwards, and on success that cache is what `rederive` gave
    /// for the new available balance. `rederive` is not asked where the apply
    /// does not take place.
    pub fn apply<F: FnOnce(ElGamalCiphertext) -> AesCiphertext>(
        &mut self,
        expected: u64,
        rederive: F,
    ) -> (outcome: Result<(), ApplyError>)
        requires
            forall|available: ElGamalCiphertext| rederive.requires((available,)),
        ensures
            match old(self)@.apply_of(expected, final(self).decryptable_balance@) {
                Ok(next) => outcome is Ok && final(self)@ == next && rederive.ensures(
                    (final(self).available_balance,),
                    final(self).decryptable_balance,
                ),
                Err(e) => outcome == Err::<(), ApplyError>(e) && *final(self) == *old(self),
            },
            expected != old(self)@.pending_balance_credit_counter ==> outcome == Err::<
                (),
                ApplyError,
            >(ApplyError::ApplyRejected { reason: ApplyRejectReason::StaleCounter }) && *final(self)
                == *old(self),
            outcome is Ok ==> {
                &&& final(self)@.pending_balance_credits() == 0
                &&& final(self)@.pending_balance == zero_ciphertext()
                &&& homomorphic_sum(old(self)@.available_balance, old(self)@.pending_balance)
                    == Some(final(self)@.available_balance)
            },
    {
        if expected != self.pending_balance_credit_counter.to_u64() {
            return Err(ApplyError::ApplyRejected { reason: ApplyRejectReason::StaleCounter });
        }
        let folded = match homomorphic_add(&self.available_balance, &self.pending_balance) {
            Some(available) => Some((available, rederive(available))),
            None => None,
        };
        let outcome = self.apply_with(expected, folded);
        proof {
            if let Some((available, decryptable)) = folded {
                assert(self.available_balance.0 =~= available.0);
                assert(self.decryptable_balance.0 =~= decryptable.0);
            }
        }
        outcome
    }

    /// Records an apply where `folded` is the sum of the available and the
    /// pending balance, as the ciphertext algebra answered it, together with
    /// the cache derived from that sum.
    pub fn apply_with(
        &mut self,
        expected: u64,
        folded: Option<(ElGamalCiphertext, AesCiphertext)>,
    ) -> (outcome: Result<(), ApplyError>)
        ensures
            match old(self)@.apply(expected, folded_bytes(folded)) {
                Ok(next) => outcome is Ok && final(self)@ == next,
                Err(e) => outcome == Err::<(), ApplyError>(e) && *final(self) == *old(self),
            },
            expected != old(self)@.pending_balance_credit_counter ==> outcome == Err::<
                (),
                ApplyError,
            >(ApplyError::ApplyRejected { reason: ApplyRejectReason::StaleCounter }) && *final(self)
                == *old(self),
            outcome is Ok ==> {
                &&& final(self)@.pending_balance_credits() == 0
                &&& final(self)@.pending_balance == zero_ciphertext()
            },
    {
        if expected != self.pending_balance_credit_counter.to_u64() {
            return Err(ApplyError::ApplyRejected { reason: ApplyRejectReason::StaleCounter });
        }
        match folded {
            None => Err(ApplyError::MalformedCiphertext),
            Some((available, decryptable)) => {
                self.actual_pending_balance_credit_counter = self.pending_balance_credit_counter;
                self.expected_pending_balance_credit_counter = PodU64::from_u64(expected);
                self.available_balance = available;
                self.pending_balance = ElGamalCiphertext::zeroed();
                self.decryptable_balance = decryptable;
                Ok(())
            },
        }
    }
}

} // verus!
