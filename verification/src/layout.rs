//! The two records as they are stored: every field at a fixed offset, one
//! after the other with nothing in between, a flag as one byte, a counter as
//! eight bytes with the least first.

use crate::account::ConfidentialAccount;
use crate::auditor::Auditor;
use crate::encryption::{AesCiphertext, ElGamalCiphertext, ElGamalPubkey};
use crate::pod::{PodBool, PodU64};
use crate::pubkey::Pubkey;
use vstd::prelude::*;

verus! {

/// Length of a stored auditor record.
pub const AUDITOR_LEN: usize = 65;

/// Length of a stored account record.
pub const CONFIDENTIAL_ACCOUNT_LEN: usize = 285;

/// Why bytes are no record.
#[derive(Clone, Copy, Debug, PartialEq, Eq)]
pub enum LayoutError {
    /// The bytes do not have the record's length.
    WrongLength,
    /// The byte of a flag is neither 0 nor 1.
    InvalidFlag,
}

/// Writes `part` into `out` from offset `at` on.
fn put<const N: usize, const M: usize>(out: &mut [u8; N], at: usize, part: &[u8; M])
    requires
        at + M <= N,
    ensures
        forall|i: int|
            0 <= i < N ==> #[trigger] final(out)@[i] == if at <= i < at + M {
                part@[i - at]
            } else {
                old(out)@[i]
            },
{
    let mut k: usize = 0;
    while k < M
        invariant
            k <= M,
            at + M <= N,
            forall|i: int|
                0 <= i < N ==> #[trigger] out@[i] == if at <= i < at + k {
                    part@[i - at]
                } else {
                    old(out)@[i]
                },
        decreases M - k,
    {
        out[at + k] = part[k];
        k += 1;
    }
}

/// Reads the `M` bytes of `bytes` from offset `at` on.
fn take<const M: usize>(bytes: &[u8], at: usize) -> (part: [u8; M])
    requires
        at + M <= bytes@.len(),
    ensures
        part@ == bytes@.subrange(at as int, at + M),
{
    let len = bytes.len();
    let mut part = [0u8; M];
    let mut k: usize = 0;
    while k < M
        invariant
            k <= M,
            at + M <= len,
            len == bytes@.len(),
            forall|i: int| 0 <= i < k ==> #[trigger] part@[i] == bytes@[at + i],
        decreases M - k,
    {
        part[k] = bytes[at + k];
        k += 1;
    }
    assert(part@ =~= bytes@.subrange(at as int, at + M));
    part
}

impl Auditor {
    /// The stored record: the mint in bytes 0 to 31, the flag in byte 32, the
    /// key in bytes 33 to 64.
    pub open spec fn bytes(self) -> Seq<u8> {
        self.mint@ + seq![PodBool::byte_of(self.enabled@)] + self.elgamal_pk@
    }

    pub fn to_bytes(&self) -> (bytes: [u8; AUDITOR_LEN])
        ensures
            bytes@ == self.bytes(),
    {
        let mut bytes = [0u8; 65];
        put(&mut bytes, 0, &self.mint.0);
        bytes[32] = self.enabled.to_byte();
        put(&mut bytes, 33, &self.elgamal_pk.0);
        assert(bytes@ =~= self.bytes());
        bytes
    }

    /// Reads a stored record. Bytes of another length than the record's are
    /// refused, and so is a flag's byte other than 0 and 1.
    pub fn from_bytes(bytes: &[u8]) -> (record: Result<Auditor, LayoutError>)
        ensures
            match record {
                Ok(auditor) => auditor.bytes() == bytes@,
                Err(LayoutError::WrongLength) => bytes@.len() != AUDITOR_LEN,
                Err(LayoutError::InvalidFlag) => bytes@.len() == AUDITOR_LEN && bytes@[32] > 1,
            },
    {
        if bytes.len() != AUDITOR_LEN {
            return Err(LayoutError::WrongLength);
        }
        let enabled = match PodBool::from_byte(bytes[32]) {
            Some(enabled) => enabled,
            None => {
                return Err(LayoutError::InvalidFlag);
            },
        };
        let auditor = Auditor {
            mint: Pubkey(take(bytes, 0)),
            enabled,
            elgamal_pk: ElGamalPubkey(take(bytes, 33)),
        };
        assert(auditor.bytes() =~= bytes@);
        Ok(auditor)
    }
}

/// A stored auditor has the record's length and a flag's byte of 0 or 1, so
/// reading it back refuses nothing.
pub proof fn lemma_auditor_bytes_well_formed(auditor: Auditor)
    ensures
        auditor.bytes().len() == AUDITOR_LEN,
        auditor.bytes()[32] <= 1,
{
}

/// Auditors that are stored as the same bytes are the same: what is read
/// back is what was stored.
pub proof fn lemma_auditor_bytes_injective(a: Auditor, b: Auditor)
    requires
        a.bytes() == b.bytes(),
    ensures
        a == b,
{
    let (x, y) = (a.bytes(), b.bytes());
    assert forall|i: int| 0 <= i < 32 implies a.mint@[i] == b.mint@[i] by {
        assert(a.mint@[i] == x[i] && b.mint@[i] == y[i]);
    }
    assert(a.mint.0 =~= b.mint.0);
    assert(x[32] == PodBool::byte_of(a.enabled@) && y[32] == PodBool::byte_of(b.enabled@));
    assert forall|i: int| 0 <= i < 32 implies a.elgamal_pk@[i] == b.elgamal_pk@[i] by {
        assert(a.elgamal_pk@[i] == x[33 + i] && b.elgamal_pk@[i] == y[33 + i]);
    }
    assert(a.elgamal_pk.0 =~= b.elgamal_pk.0);
}

impl ConfidentialAccount {
    /// The stored record, field after field: the mint from byte 0, the token
    /// account from 32, the key from 64, the pending balance from 96, the
    /// available balance from 160, the decryptable balance from 224, the
    /// flag in byte 260, the credit counter from 261, the expected counter
    /// from 269, the counter of the last apply from 277.
    pub open spec fn bytes(self) -> Seq<u8> {
        self.mint@ + self.token_account@ + self.elgamal_pk@ + self.pending_balance@
            + self.available_balance@ + self.decryptable_balance@ + seq![
            PodBool::byte_of(self.allow_pending_balance_credits@),
        ] + self.pending_balance_credit_counter.0@
            + self.expected_pending_balance_credit_counter.0@
            + self.actual_pending_balance_credit_counter.0@
    }

    pub fn to_bytes(&self) -> (bytes: [u8; CONFIDENTIAL_ACCOUNT_LEN])
        ensures
            bytes@ == self.bytes(),
    {
        let mut bytes = [0u8; 285];
        put(&mut bytes, 0, &self.mint.0);
        put(&mut bytes, 32, &self.token_account.0);
        put(&mut bytes, 64, &self.elgamal_pk.0);
        put(&mut bytes, 96, &self.pending_balance.0);
        put(&mut bytes, 160, &self.available_balance.0);
        put(&mut bytes, 224, &self.decryptable_balance.0);
        bytes[260] = self.allow_pending_balance_credits.to_byte();
        put(&mut bytes, 261, &self.pending_balance_credit_counter.0);
        put(&mut bytes, 269, &self.expected_pending_balance_credit_counter.0);
        put(&mut bytes, 277, &self.actual_pending_balance_credit_counter.0);
        assert(bytes@ =~= self.bytes());
        bytes
    }

    /// Reads a stored record. Bytes of another length than the record's are
    /// refused, and so is a flag's byte other than 0 and 1.
    pub fn from_bytes(bytes: &[u8]) -> (record: Result<ConfidentialAccount, LayoutError>)
        ensures
            match record {
                Ok(account) => account.bytes() == bytes@,
                Err(LayoutError::WrongLength) => bytes@.len() != CONFIDENTIAL_ACCOUNT_LEN,
                Err(LayoutError::InvalidFlag) => bytes@.len() == CONFIDENTIAL_ACCOUNT_LEN
                    && bytes@[260] > 1,
            },
    {
        if bytes.len() != CONFIDENTIAL_ACCOUNT_LEN {
            return Err(LayoutError::WrongLength);
        }
        let allow = match PodBool::from_byte(bytes[260]) {
            Some(allow) => allow,
            None => {
                return Err(LayoutError::InvalidFlag);
            },
        };
        let account = ConfidentialAccount {
            mint: Pubkey(take(bytes, 0)),
            token_account: Pubkey(take(bytes, 32)),
            elgamal_pk: ElGamalPubkey(take(bytes, 64)),
            pending_balance: ElGamalCiphertext(take(bytes, 96)),
            available_balance: ElGamalCiphertext(take(bytes, 160)),
            decryptable_balance: AesCiphertext(take(bytes, 224)),
            allow_pending_balance_credits: allow,
            pending_balance_credit_counter: PodU64(take(bytes, 261)),
            expected_pending_balance_credit_counter: PodU64(take(bytes, 269)),
            actual_pending_balance_credit_counter: PodU64(take(bytes, 277)),
        };
        assert(account.bytes() =~= bytes@);
        Ok(account)
    }
}

/// A stored account has the record's length and a flag's byte of 0 or 1, so
/// reading it back refuses nothing.
pub proof fn lemma_account_bytes_well_formed(account: ConfidentialAccount)
    ensures
        account.bytes().len() == CONFIDENTIAL_ACCOUNT_LEN,
        account.bytes()[260] <= 1,
{
}

/// Accounts that are stored as the same bytes are the same: what is read
/// back is what was stored.
pub proof fn lemma_account_bytes_injective(a: ConfidentialAccount, b: ConfidentialAccount)
    requires
        a.bytes() == b.bytes(),
    ensures
        a == b,
{
    let (x, y) = (a.bytes(), b.bytes());
    assert forall|i: int| 0 <= i < 32 implies a.mint@[i] == b.mint@[i] by {
        assert(a.mint@[i] == x[i] && b.mint@[i] == y[i]);
    }
    assert(a.mint.0 =~= b.mint.0);
    assert forall|i: int| 0 <= i < 32 implies a.token_account@[i] == b.token_account@[i] by {
        assert(a.token_account@[i] == x[32 + i] && b.token_account@[i] == y[32 + i]);
    }
    assert(a.token_account.0 =~= b.token_account.0);
    assert forall|i: int| 0 <= i < 32 implies a.elgamal_pk@[i] == b.elgamal_pk@[i] by {
        assert(a.elgamal_pk@[i] == x[64 + i] && b.elgamal_pk@[i] == y[64 + i]);
    }
    assert(a.elgamal_pk.0 =~= b.elgamal_pk.0);
    assert forall|i: int| 0 <= i < 64 implies a.pending_balance@[i] == b.pending_balance@[i] by {
        assert(a.pending_balance@[i] == x[96 + i] && b.pending_balance@[i] == y[96 + i]);
    }
    assert(a.pending_balance.0 =~= b.pending_balance.0);
    assert forall|i: int| 0 <= i < 64 implies a.available_balance@[i]
        == b.available_balance@[i] by {
        assert(a.available_balance@[i] == x[160 + i] && b.available_balance@[i] == y[160 + i]);
    }
    assert(a.available_balance.0 =~= b.available_balance.0);
    assert forall|i: int| 0 <= i < 36 implies a.decryptable_balance@[i]
        == b.decryptable_balance@[i] by {
        assert(a.decryptable_balance@[i] == x[224 + i] && b.decryptable_balance@[i] == y[224 + i]);
    }
    assert(a.decryptable_balance.0 =~= b.decryptable_balance.0);
    assert(x[260] == PodBool::byte_of(a.allow_pending_balance_credits@) && y[260]
        == PodBool::byte_of(b.allow_pending_balance_credits@));
    assert forall|i: int| 0 <= i < 8 implies a.pending_balance_credit_counter.0@[i]
        == b.pending_balance_credit_counter.0@[i] by {
        assert(a.pending_balance_credit_counter.0@[i] == x[261 + i]
            && b.pending_balance_credit_counter.0@[i] == y[261 + i]);
    }
    assert(a.pending_balance_credit_counter.0 =~= b.pending_balance_credit_counter.0);
    assert forall|i: int| 0 <= i < 8 implies a.expected_pending_balance_credit_counter.0@[i]
        == b.expected_pending_balance_credit_counter.0@[i] by {
        assert(a.expected_pending_balance_credit_counter.0@[i] == x[269 + i]
            && b.expected_pending_balance_credit_counter.0@[i] == y[269 + i]);
    }
    assert(a.expected_pending_balance_credit_counter.0
        =~= b.expected_pending_balance_credit_counter.0);
    assert forall|i: int| 0 <= i < 8 implies a.actual_pending_balance_credit_counter.0@[i]
        == b.actual_pending_balance_credit_counter.0@[i] by {
        assert(a.actual_pending_balance_credit_counter.0@[i] == x[277 + i]
            && b.actual_pending_balance_credit_counter.0@[i] == y[277 + i]);
    }
    assert(a.actual_pending_balance_credit_counter.0 =~= b.actual_pending_balance_credit_counter.0);
}

} // verus!
