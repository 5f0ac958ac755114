//! The record of a mint's auditor: a key that, while auditing is enabled,
//! every transfer on the mint must also encrypt its amount under.

use crate::encryption::ElGamalPubkey;
use crate::pod::PodBool;
use crate::pubkey::Pubkey;
use vstd::prelude::*;

verus! {

/// Account used for auditing confidential transfers.
#[derive(Clone, Copy, Debug, PartialEq, Eq)]
pub struct Auditor {
    /// The token mint associated with this account.
    pub mint: Pubkey,
    /// If true, transfers must include a ciphertext under `elgamal_pk`. If
    /// false, transfer auditing is disabled.
    pub enabled: PodBool,
    /// ElGamal public key for the auditor. It means something only while
    /// `enabled` is true; disabling leaves it in place, unused.
    pub elgamal_pk: ElGamalPubkey,
}

impl Auditor {
    pub fn new(mint: Pubkey, enabled: bool, elgamal_pk: ElGamalPubkey) -> (auditor: Auditor)
        ensures
            auditor.mint == mint,
            auditor.enabled@ == enabled,
            auditor.elgamal_pk == elgamal_pk,
    {
        Auditor { mint, enabled: PodBool::from_bool(enabled), elgamal_pk }
    }

    /// Whether transfers on the mint must carry a ciphertext for the auditor.
    /// The key has no say in it.
    pub fn is_audit_required(&self) -> (required: bool)
        ensures
            required == self.enabled@,
    {
        self.enabled.to_bool()
    }

    /// The key to encrypt under, while auditing is enabled.
    pub fn audit_key(&self) -> (key: Option<ElGamalPubkey>)
        ensures
            self.enabled@ ==> key == Some(self.elgamal_pk),
            !self.enabled@ ==> key is None,
    {
        if self.enabled.to_bool() {
            Some(self.elgamal_pk)
        } else {
            None
        }
    }

    /// Turns auditing on or off. The key stays as it is.
    pub fn set_enabled(&mut self, enabled: bool)
        ensures
            final(self).enabled@ == enabled,
            final(self).mint == old(self).mint,
            final(self).elgamal_pk == old(self).elgamal_pk,
    {
        self.enabled = PodBool::from_bool(enabled);
    }

    /// Replaces the key. Whether auditing is enabled stays as it is.
    pub fn set_key(&mut self, key: ElGamalPubkey)
        ensures
            final(self).elgamal_pk == key,
            final(self).mint == old(self).mint,
            final(self).enabled == old(self).enabled,
    {
        self.elgamal_pk = key;
    }
}

} // verus!
