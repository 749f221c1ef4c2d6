//! Raw 32-byte account identifiers.

use crate::codec::{lemma_spec_array, spec_array};
use vstd::prelude::*;

verus! {

/// An account identifier: 32 raw bytes with no further structure.
///
/// Its view is the sequence of those bytes, always of length 32.
#[derive(Clone, Copy, Debug, Default, PartialEq, Eq, Hash)]
pub struct Pubkey(pub [u8; 32]);

impl View for Pubkey {
    type V = Seq<u8>;

    open spec fn view(&self) -> Seq<u8> {
        self.0@
    }
}

impl Pubkey {
    /// The identifier whose bytes are `bytes`; meaningful for sequences of length 32.
    pub open spec fn spec_from_bytes(bytes: Seq<u8>) -> Pubkey
        recommends
            bytes.len() == 32,
    {
        Pubkey(spec_array(bytes))
    }

    /// Wraps 32 bytes as an identifier.
    pub fn new_from_array(bytes: [u8; 32]) -> (id: Pubkey)
        ensures
            id == Pubkey(bytes),
            id@ == bytes@,
    {
        Pubkey(bytes)
    }

    /// The 32 bytes of the identifier.
    pub fn to_bytes(self) -> (bytes: [u8; 32])
        ensures
            bytes == self.0,
            bytes@ == self@,
    {
        self.0
    }

    /// Every identifier is exactly 32 bytes long.
    pub proof fn lemma_len(self)
        ensures
            self@.len() == 32,
    {
    }

    /// Two identifiers with the same bytes are the same identifier.
    pub proof fn lemma_view_injective(a: Pubkey, b: Pubkey)
        requires
            a@ == b@,
        ensures
            a == b,
    {
        assert(a.0 =~= b.0);
    }

    /// Any 32 bytes are the bytes of some identifier, and `spec_from_bytes` picks it.
    pub proof fn lemma_from_bytes(bytes: Seq<u8>)
        requires
            bytes.len() == 32,
        ensures
            Self::spec_from_bytes(bytes)@ == bytes,
    {
        lemma_spec_array::<32>(bytes);
    }

    /// Reading an identifier back from its own bytes gives the identifier.
    pub proof fn lemma_from_bytes_of_view(self)
        ensures
            Self::spec_from_bytes(self@) == self,
    {
        Self::lemma_from_bytes(self@);
        Self::lemma_view_injective(Self::spec_from_bytes(self@), self);
    }
}

} // verus!
