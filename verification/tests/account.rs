use confidential_token::account::{
    ApplyError, ApplyRejectReason, ConfidentialAccount, CreditError,
};
use confidential_token::encryption::{AesCiphertext, ElGamalCiphertext, ElGamalPubkey};
use confidential_token::pod::{PodBool, PodU64};
use confidential_token::pubkey::Pubkey;

/// Encodings of 0, 1, 2, 3 and 5 times the base point of the group.
const B0: [u8; 32] = [0; 32];
const B1: [u8; 32] = [
    226, 242, 174, 10, 106, 188, 78, 113, 168, 132, 169, 97, 197, 0, 81, 95, 88, 227, 11, 106, 165,
    130, 221, 141, 182, 166, 89, 69, 224, 141, 45, 118,
];
const B2: [u8; 32] = [
    106, 73, 50, 16, 247, 73, 156, 209, 127, 236, 181, 16, 174, 12, 234, 35, 161, 16, 232, 213,
    185, 1, 248, 172, 173, 211, 9, 92, 115, 163, 185, 25,
];
const B3: [u8; 32] = [
    148, 116, 31, 93, 93, 82, 117, 94, 206, 79, 35, 240, 68, 238, 39, 213, 209, 234, 30, 43, 209,
    150, 180, 98, 22, 107, 22, 21, 42, 157, 2, 89,
];
const B5: [u8; 32] = [
    232, 130, 177, 49, 1, 107, 82, 193, 211, 51, 112, 128, 24, 124, 247, 104, 66, 62, 252, 203,
    181, 23, 187, 73, 90, 184, 18, 196, 22, 15, 244, 78,
];

fn ciphertext(commitment: [u8; 32], handle: [u8; 32]) -> ElGamalCiphertext {
    let mut bytes = [0u8; 64];
    bytes[..32].copy_from_slice(&commitment);
    bytes[32..].copy_from_slice(&handle);
    ElGamalCiphertext(bytes)
}

/// A cache that shows which balance it was derived from: the balance's
/// first 36 bytes.
fn cache_of(balance: ElGamalCiphertext) -> AesCiphertext {
    let mut bytes = [0u8; 36];
    bytes.copy_from_slice(&balance.0[..36]);
    AesCiphertext(bytes)
}

fn new_account() -> ConfidentialAccount {
    ConfidentialAccount::new(
        Pubkey([1; 32]),
        Pubkey([2; 32]),
        ElGamalPubkey([3; 32]),
        AesCiphertext([4; 36]),
        true,
    )
}

fn with_counters(counter: u64, actual: u64) -> ConfidentialAccount {
    let mut account = new_account();
    account.pending_balance_credit_counter = PodU64::from_u64(counter);
    account.actual_pending_balance_credit_counter = PodU64::from_u64(actual);
    account
}

fn counters(account: &ConfidentialAccount) -> (u64, u64, u64) {
    (
        account.pending_balance_credit_counter.to_u64(),
        account.actual_pending_balance_credit_counter.to_u64(),
        account.expected_pending_balance_credit_counter.to_u64(),
    )
}

const STALE: Result<(), ApplyError> =
    Err(ApplyError::ApplyRejected { reason: ApplyRejectReason::StaleCounter });

#[test]
fn new_account_is_zeroed() {
    let account = new_account();
    assert_eq!(account.mint, Pubkey([1; 32]));
    assert_eq!(account.token_account, Pubkey([2; 32]));
    assert_eq!(account.elgamal_pk, ElGamalPubkey([3; 32]));
    assert_eq!(account.pending_balance, ElGamalCiphertext([0; 64]));
    assert_eq!(account.available_balance, ElGamalCiphertext([0; 64]));
    assert_eq!(account.decryptable_balance, AesCiphertext([4; 36]));
    assert_eq!(account.allow_pending_balance_credits, PodBool::True);
    assert_eq!(counters(&account), (0, 0, 0));
    assert_eq!(account.pending_balance_credits(), 0);
}

#[test]
fn zeroed_ciphertext_is_all_zero_bytes() {
    assert_eq!(ElGamalCiphertext::zeroed(), ElGamalCiphertext([0; 64]));
}

#[test]
fn pending_credits_is_the_difference() {
    assert_eq!(with_counters(5, 2).pending_balance_credits(), 3);
    assert_eq!(with_counters(7, 7).pending_balance_credits(), 0);
    assert_eq!(with_counters(u64::MAX, 0).pending_balance_credits(), u64::MAX);
    assert_eq!(with_counters(u64::MAX, 1).pending_balance_credits(), u64::MAX - 1);
}

#[test]
fn pending_credits_saturates_at_zero() {
    assert_eq!(with_counters(2, 5).pending_balance_credits(), 0);
    assert_eq!(with_counters(0, 1).pending_balance_credits(), 0);
    assert_eq!(with_counters(0, u64::MAX).pending_balance_credits(), 0);
}

#[test]
fn credit_adds_the_ciphertexts() {
    let mut account = new_account();
    account.pending_balance = ciphertext(B1, B2);
    assert_eq!(account.credit(&ciphertext(B2, B3)), Ok(()));
    assert_eq!(account.pending_balance, ciphertext(B3, B5));
    assert_eq!(counters(&account), (1, 0, 0));
    assert_eq!(account.available_balance, ElGamalCiphertext([0; 64]));
}

#[test]
fn credit_to_zero_balance_gives_the_delta() {
    let mut account = new_account();
    assert_eq!(account.credit(&ciphertext(B2, B5)), Ok(()));
    assert_eq!(account.pending_balance, ciphertext(B2, B5));
}

#[test]
fn credits_accrue_from_a_quiescent_account() {
    let mut account = with_counters(10, 10);
    for n in 1..=5u64 {
        assert_eq!(account.credit(&ciphertext(B1, B1)), Ok(()));
        assert_eq!(account.pending_balance_credit_counter.to_u64(), 10 + n);
        assert_eq!(account.actual_pending_balance_credit_counter.to_u64(), 10);
        assert_eq!(account.pending_balance_credits(), n);
    }
    assert_eq!(account.pending_balance, ciphertext(B5, B5));
}

#[test]
fn closed_account_rejects_every_credit() {
    let mut account = new_account();
    account.allow_pending_balance_credits = PodBool::False;
    account.pending_balance = ciphertext(B1, B1);
    let before = account;
    assert_eq!(account.credit(&ciphertext(B1, B1)), Err(CreditError::CreditRejected));
    assert_eq!(account, before);
    assert_eq!(account.credit(&ElGamalCiphertext([255; 64])), Err(CreditError::CreditRejected));
    assert_eq!(account, before);
    assert_eq!(account.credit_with(Some(ciphertext(B2, B2))), Err(CreditError::CreditRejected));
    assert_eq!(account, before);
    assert_eq!(account.credit_with(None), Err(CreditError::CreditRejected));
    assert_eq!(account, before);
}

#[test]
fn closed_account_comes_before_a_full_counter() {
    let mut account = with_counters(u64::MAX, 0);
    account.allow_pending_balance_credits = PodBool::False;
    let before = account;
    assert_eq!(account.credit(&ciphertext(B1, B1)), Err(CreditError::CreditRejected));
    assert_eq!(account, before);
}

#[test]
fn full_counter_does_not_wrap() {
    let mut account = with_counters(u64::MAX, 3);
    let before = account;
    assert_eq!(account.credit(&ciphertext(B1, B1)), Err(CreditError::CounterOverflow));
    assert_eq!(account, before);
    assert_eq!(account.credit_with(None), Err(CreditError::CounterOverflow));
    assert_eq!(account, before);
}

#[test]
fn counter_reaches_its_greatest_value() {
    let mut account = with_counters(u64::MAX - 1, 0);
    assert_eq!(account.credit(&ciphertext(B1, B1)), Ok(()));
    assert_eq!(account.pending_balance_credit_counter.to_u64(), u64::MAX);
}

#[test]
fn malformed_delta_changes_nothing() {
    let mut account = new_account();
    let before = account;
    assert_eq!(
        account.credit(&ElGamalCiphertext([255; 64])),
        Err(CreditError::MalformedCiphertext)
    );
    assert_eq!(account, before);
    assert_eq!(account.credit(&ciphertext(B1, [255; 32])), Err(CreditError::MalformedCiphertext));
    assert_eq!(account, before);
}

#[test]
fn credit_with_records_the_sum() {
    let mut account = with_counters(4, 1);
    assert_eq!(account.credit_with(Some(ElGamalCiphertext([9; 64]))), Ok(()));
    assert_eq!(account.pending_balance, ElGamalCiphertext([9; 64]));
    assert_eq!(counters(&account), (5, 1, 0));
    let before = account;
    assert_eq!(account.credit_with(None), Err(CreditError::MalformedCiphertext));
    assert_eq!(account, before);
}

#[test]
fn apply_folds_pending_into_available() {
    let mut account = new_account();
    account.available_balance = ciphertext(B1, B2);
    assert_eq!(account.credit(&ciphertext(B1, B1)), Ok(()));
    assert_eq!(account.credit(&ciphertext(B1, B2)), Ok(()));
    assert_eq!(account.pending_balance, ciphertext(B2, B3));
    assert_eq!(account.apply(2, cache_of), Ok(()));
    assert_eq!(account.available_balance, ciphertext(B3, B5));
    assert_eq!(account.pending_balance, ElGamalCiphertext([0; 64]));
    assert_eq!(account.decryptable_balance, cache_of(ciphertext(B3, B5)));
    assert_eq!(counters(&account), (2, 2, 2));
    assert_eq!(account.pending_balance_credits(), 0);
    assert_eq!(account.mint, Pubkey([1; 32]));
    assert_eq!(account.token_account, Pubkey([2; 32]));
    assert_eq!(account.elgamal_pk, ElGamalPubkey([3; 32]));
    assert_eq!(account.allow_pending_balance_credits, PodBool::True);
}

#[test]
fn apply_with_nothing_pending_keeps_the_balance() {
    let mut account = new_account();
    account.available_balance = ciphertext(B2, B3);
    assert_eq!(account.apply(0, |_| AesCiphertext([7; 36])), Ok(()));
    assert_eq!(account.available_balance, ciphertext(B2, B3));
    assert_eq!(account.decryptable_balance, AesCiphertext([7; 36]));
    assert_eq!(counters(&account), (0, 0, 0));
}

#[test]
fn stale_apply_is_rejected() {
    let mut account = new_account();
    assert_eq!(account.credit(&ciphertext(B1, B1)), Ok(()));
    let seen = account.pending_balance_credit_counter.to_u64();
    assert_eq!(account.credit(&ciphertext(B1, B1)), Ok(()));
    let before = account;
    assert_eq!(account.apply(seen, cache_of), STALE);
    assert_eq!(account, before);
    let folded = Some((ciphertext(B2, B2), cache_of(ciphertext(B2, B2))));
    assert_eq!(account.apply_with(seen, folded), STALE);
    assert_eq!(account, before);
    assert_eq!(account.apply(seen + 2, cache_of), STALE);
    assert_eq!(account, before);
}

#[test]
fn stale_apply_does_not_ask_for_a_cache() {
    let mut account = with_counters(3, 0);
    let mut asked = false;
    let outcome = account.apply(2, |balance| {
        asked = true;
        cache_of(balance)
    });
    assert_eq!(outcome, STALE);
    assert!(!asked);
}

#[test]
fn malformed_balance_changes_nothing() {
    let mut account = new_account();
    account.pending_balance = ElGamalCiphertext([255; 64]);
    let before = account;
    assert_eq!(account.apply(0, cache_of), Err(ApplyError::MalformedCiphertext));
    assert_eq!(account, before);
    assert_eq!(account.apply_with(0, None), Err(ApplyError::MalformedCiphertext));
    assert_eq!(account, before);
    assert_eq!(account.apply_with(1, None), STALE);
    assert_eq!(account, before);
}

#[test]
fn apply_with_records_what_it_is_given() {
    let mut account = with_counters(6, 2);
    account.pending_balance = ciphertext(B1, B1);
    assert_eq!(
        account.apply_with(6, Some((ElGamalCiphertext([8; 64]), AesCiphertext([9; 36])))),
        Ok(())
    );
    assert_eq!(account.available_balance, ElGamalCiphertext([8; 64]));
    assert_eq!(account.decryptable_balance, AesCiphertext([9; 36]));
    assert_eq!(account.pending_balance, ElGamalCiphertext([0; 64]));
    assert_eq!(counters(&account), (6, 6, 6));
}

#[test]
fn three_credits_an_apply_and_a_late_apply() {
    let mut account = new_account();
    assert_eq!(counters(&account), (0, 0, 0));
    for _ in 0..3 {
        assert_eq!(account.credit(&ciphertext(B1, B0)), Ok(()));
    }
    assert_eq!(account.pending_balance_credit_counter.to_u64(), 3);
    assert_eq!(account.pending_balance_credits(), 3);
    assert_eq!(account.apply(3, cache_of), Ok(()));
    assert_eq!(account.actual_pending_balance_credit_counter.to_u64(), 3);
    assert_eq!(account.available_balance, ciphertext(B3, B0));
    assert_eq!(account.credit(&ciphertext(B2, B0)), Ok(()));
    assert_eq!(account.pending_balance_credit_counter.to_u64(), 4);
    assert_eq!(account.pending_balance_credits(), 1);
    let before = account;
    assert_eq!(account.apply(3, cache_of), STALE);
    assert_eq!(account, before);
    assert_eq!(account.apply(4, cache_of), Ok(()));
    assert_eq!(counters(&account), (4, 4, 4));
    assert_eq!(account.available_balance, ciphertext(B5, B0));
    assert_eq!(account.pending_balance_credits(), 0);
}
