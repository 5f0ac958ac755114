//! Addresses of ledger accounts.

use vstd::prelude::*;

verus! {

/// The address of a ledger account: 32 bytes, of which nothing here reads
/// more than that they are the same or not.
#[derive(Clone, Copy, Debug, PartialEq, Eq)]
pub struct Pubkey(pub [u8; 32]);

impl View for Pubkey {
    type V = Seq<u8>;

    open spec fn view(&self) -> Seq<u8> {
        self.0@
    }
}

} // verus!
