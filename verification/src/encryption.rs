//! Keys and ciphertexts as the bytes in which a record stores them, and the
//! one operation on ciphertexts that the account's transitions need: their
//! homomorphic sum.

use vstd::prelude::*;

verus! {

/// Length of an ElGamal public key.
pub const ELGAMAL_PUBKEY_LEN: usize = 32;

/// Length of an ElGamal ciphertext: a commitment and a decryption handle, 32
/// bytes each.
pub const ELGAMAL_CIPHERTEXT_LEN: usize = 64;

/// Length of an authenticated-encryption ciphertext: a nonce and the
/// encrypted amount with its tag.
pub const AES_CIPHERTEXT_LEN: usize = 36;

/// An ElGamal public key.
#[derive(Clone, Copy, Debug, PartialEq, Eq)]
pub struct ElGamalPubkey(pub [u8; ELGAMAL_PUBKEY_LEN]);

/// An ElGamal ciphertext.
#[derive(Clone, Copy, Debug, PartialEq, Eq)]
pub struct ElGamalCiphertext(pub [u8; ELGAMAL_CIPHERTEXT_LEN]);

/// A ciphertext that the account's owner can decrypt with a symmetric key.
#[derive(Clone, Copy, Debug, PartialEq, Eq)]
pub struct AesCiphertext(pub [u8; AES_CIPHERTEXT_LEN]);

impl View for ElGamalPubkey {
    type V = Seq<u8>;

    open spec fn view(&self) -> Seq<u8> {
        self.0@
    }
}

impl View for ElGamalCiphertext {
    type V = Seq<u8>;

    open spec fn view(&self) -> Seq<u8> {
        self.0@
    }
}

impl View for AesCiphertext {
    type V = Seq<u8>;

    open spec fn view(&self) -> Seq<u8> {
        self.0@
    }
}

/// The bytes of the ciphertext that encrypts zero under every key with no
/// randomness: zero bytes throughout.
pub open spec fn zero_ciphertext() -> Seq<u8> {
    Seq::new(ELGAMAL_CIPHERTEXT_LEN as nat, |i: int| 0u8)
}

/// What the ciphertext algebra gives as the sum of two ciphertexts, each
/// taken by its bytes; `None` where it gives none.
pub uninterp spec fn homomorphic_sum(left: Seq<u8>, right: Seq<u8>) -> Option<Seq<u8>>;

impl ElGamalCiphertext {
    /// The ciphertext of zero.
    pub fn zeroed() -> (zero: ElGamalCiphertext)
        ensures
            zero@ == zero_ciphertext(),
    {
        let zero = ElGamalCiphertext([0u8; ELGAMAL_CIPHERTEXT_LEN]);
        assert(zero@ =~= zero_ciphertext());
        zero
    }
}

/// The sum of two ciphertexts, from
/// `solana_zk_token_sdk::zk_token_elgamal::ops::add`.
///
/// Not proved, but taken from that function: that what it returns depends on
/// the bytes of the two operands and on nothing else, which is all that
/// `homomorphic_sum` says. It decodes the commitment and the handle of each
/// operand as points of the curve, adds commitment to commitment and handle
/// to handle, and encodes the two sums; where one of the four does not
/// decode it returns nothing. It does not panic.
#[verifier::external_body]
pub(crate) fn homomorphic_add(left: &ElGamalCiphertext, right: &ElGamalCiphertext) -> (sum: Option<
    ElGamalCiphertext,
>)
    ensures
        match sum {
            Some(c) => homomorphic_sum(left@, right@) == Some(c@),
            None => homomorphic_sum(left@, right@) is None,
        },
{
    let left = solana_zk_token_sdk::zk_token_elgamal::pod::ElGamalCiphertext(left.0);
    let right = solana_zk_token_sdk::zk_token_elgamal::pod::ElGamalCiphertext(right.0);
    match solana_zk_token_sdk::zk_token_elgamal::ops::add(&left, &right) {
        Some(sum) => Some(ElGamalCiphertext(sum.0)),
        None => None,
    }
}

} // verus!
