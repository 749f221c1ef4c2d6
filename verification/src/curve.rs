//! The two numeric records embedded in the program configuration: the fee
//! schedule and the curve selector. Only their byte layout is of concern here;
//! what the numbers mean to pricing is decided elsewhere.

use crate::codec::{
    array_at,
    lemma_array_injective,
    lemma_spec_array,
    put_bytes,
    put_u64,
    spec_array,
    spec_overwrite,
    spec_u64_at,
    u64_at,
};
use crate::error::AmmError;
use vstd::bytes::{lemma_auto_spec_u64_to_from_le_bytes, spec_u64_to_le_bytes};
use vstd::prelude::*;

verus! {

/// The fee schedule: three ratio terms, each an unsigned 64-bit integer.
#[derive(Clone, Copy, Debug, Default, PartialEq, Eq, Structural)]
pub struct Fees {
    /// Numerator of the share of a trade returned to the pool.
    pub return_fee_numerator: u64,
    /// Numerator of the share of a trade paid to the fee owner.
    pub fixed_fee_numerator: u64,
    /// Denominator common to both shares.
    pub fee_denominator: u64,
}

impl Fees {
    /// Length of the encoded record.
    pub const LEN: usize = 24;

    /// The 24 bytes of the record: its three terms in declared order, little-endian.
    pub open spec fn spec_pack(self) -> Seq<u8> {
        spec_u64_to_le_bytes(self.return_fee_numerator) + spec_u64_to_le_bytes(
            self.fixed_fee_numerator,
        ) + spec_u64_to_le_bytes(self.fee_denominator)
    }

    /// The record stored in the first 24 bytes of `input`.
    pub open spec fn spec_from_bytes(input: Seq<u8>) -> Fees
        recommends
            input.len() >= 24,
    {
        Fees {
            return_fee_numerator: spec_u64_at(input, 0),
            fixed_fee_numerator: spec_u64_at(input, 8),
            fee_denominator: spec_u64_at(input, 16),
        }
    }

    /// What a buffer decodes to: too small under 24 bytes, else the record in
    /// its first 24 bytes.
    pub open spec fn spec_unpack(input: Seq<u8>) -> Result<Fees, AmmError> {
        if input.len() < 24 {
            Err(AmmError::BufferTooSmall)
        } else {
            Ok(Self::spec_from_bytes(input))
        }
    }

    /// Writes the record over the first 24 bytes of `output`.
    pub fn pack_into_slice(&self, output: &mut [u8])
        requires
            old(output).len() >= 24,
        ensures
            final(output)@ == spec_overwrite(old(output)@, 0, self.spec_pack()),
    {
        proof {
            lemma_auto_spec_u64_to_from_le_bytes();
        }
        put_u64(output, 0, self.return_fee_numerator);
        put_u64(output, 8, self.fixed_fee_numerator);
        put_u64(output, 16, self.fee_denominator);
        assert(output@ =~= spec_overwrite(old(output)@, 0, self.spec_pack()));
    }

    /// Decodes the record from the first 24 bytes of `input`.
    pub fn unpack_from_slice(input: &[u8]) -> (r: Result<Fees, AmmError>)
        ensures
            r == Self::spec_unpack(input@),
    {
        if input.len() < 24 {
            return Err(AmmError::BufferTooSmall);
        }
        Ok(
            Fees {
                return_fee_numerator: u64_at(input, 0),
                fixed_fee_numerator: u64_at(input, 8),
                fee_denominator: u64_at(input, 16),
            },
        )
    }

    /// The encoding is 24 bytes long, and decoding it gives the record back.
    pub proof fn lemma_unpack_pack(self)
        ensures
            self.spec_pack().len() == 24,
            Self::spec_from_bytes(self.spec_pack()) == self,
            Self::spec_unpack(self.spec_pack()) == Ok::<_, AmmError>(self),
    {
        self.lemma_unpack_pack_with_trailing(Seq::empty());
        assert(self.spec_pack() + Seq::<u8>::empty() =~= self.spec_pack());
    }

    /// Bytes after the record are ignored: the encoding followed by anything
    /// decodes to the record.
    pub proof fn lemma_unpack_pack_with_trailing(self, trailing: Seq<u8>)
        ensures
            self.spec_pack().len() == 24,
            Self::spec_from_bytes(self.spec_pack() + trailing) == self,
            Self::spec_unpack(self.spec_pack() + trailing) == Ok::<_, AmmError>(self),
    {
        lemma_auto_spec_u64_to_from_le_bytes();
        let bytes = self.spec_pack() + trailing;
        assert(bytes.subrange(0, 8) =~= spec_u64_to_le_bytes(self.return_fee_numerator));
        assert(bytes.subrange(8, 16) =~= spec_u64_to_le_bytes(self.fixed_fee_numerator));
        assert(bytes.subrange(16, 24) =~= spec_u64_to_le_bytes(self.fee_denominator));
    }

    /// What decodes is the encoding of what it decodes to: the first 24 bytes
    /// of a buffer are the bytes of the record read from it.
    pub proof fn lemma_pack_unpack(input: Seq<u8>)
        requires
            input.len() >= 24,
        ensures
            Self::spec_from_bytes(input).spec_pack() == input.subrange(0, 24),
    {
        lemma_auto_spec_u64_to_from_le_bytes();
        let record = Self::spec_from_bytes(input);
        assert(spec_u64_to_le_bytes(record.return_fee_numerator) == input.subrange(0, 8));
        assert(spec_u64_to_le_bytes(record.fixed_fee_numerator) == input.subrange(8, 16));
        assert(spec_u64_to_le_bytes(record.fee_denominator) == input.subrange(16, 24));
        assert(record.spec_pack() =~= input.subrange(0, 24));
    }
}

/// The curve selector: a tag byte naming the pricing curve and the 32 bytes of
/// parameters that the curve reads for itself.
#[derive(Clone, Copy, Debug, Default, PartialEq, Eq)]
pub struct SwapCurve {
    /// Which curve prices the pool.
    pub curve_type: u8,
    /// The parameters of that curve, in the curve's own layout.
    pub parameters: [u8; 32],
}

impl SwapCurve {
    /// Length of the encoded record.
    pub const LEN: usize = 33;

    /// The 33 bytes of the record: the tag, then the parameters.
    pub open spec fn spec_pack(self) -> Seq<u8> {
        seq![self.curve_type] + self.parameters@
    }

    /// The record stored in the first 33 bytes of `input`.
    pub open spec fn spec_from_bytes(input: Seq<u8>) -> SwapCurve
        recommends
            input.len() >= 33,
    {
        SwapCurve { curve_type: input[0], parameters: spec_array::<32>(input.subrange(1, 33)) }
    }

    /// What a buffer decodes to: too small under 33 bytes, else the record in
    /// its first 33 bytes.
    pub open spec fn spec_unpack(input: Seq<u8>) -> Result<SwapCurve, AmmError> {
        if input.len() < 33 {
            Err(AmmError::BufferTooSmall)
        } else {
            Ok(Self::spec_from_bytes(input))
        }
    }

    /// Writes the record over the first 33 bytes of `output`.
    pub fn pack_into_slice(&self, output: &mut [u8])
        requires
            old(output).len() >= 33,
        ensures
            final(output)@ == spec_overwrite(old(output)@, 0, self.spec_pack()),
    {
        output[0] = self.curve_type;
        put_bytes(output, 1, self.parameters.as_slice());
        assert(output@ =~= spec_overwrite(old(output)@, 0, self.spec_pack()));
    }

    /// Decodes the record from the first 33 bytes of `input`.
    pub fn unpack_from_slice(input: &[u8]) -> (r: Result<SwapCurve, AmmError>)
        ensures
            r == Self::spec_unpack(input@),
    {
        if input.len() < 33 {
            return Err(AmmError::BufferTooSmall);
        }
        Ok(SwapCurve { curve_type: input[0], parameters: array_at::<32>(input, 1) })
    }

    /// The encoding is 33 bytes long, and decoding it gives the record back.
    pub proof fn lemma_unpack_pack(self)
        ensures
            self.spec_pack().len() == 33,
            Self::spec_from_bytes(self.spec_pack()) == self,
            Self::spec_unpack(self.spec_pack()) == Ok::<_, AmmError>(self),
    {
        self.lemma_unpack_pack_with_trailing(Seq::empty());
        assert(self.spec_pack() + Seq::<u8>::empty() =~= self.spec_pack());
    }

    /// Bytes after the record are ignored: the encoding followed by anything
    /// decodes to the record.
    pub proof fn lemma_unpack_pack_with_trailing(self, trailing: Seq<u8>)
        ensures
            self.spec_pack().len() == 33,
            Self::spec_from_bytes(self.spec_pack() + trailing) == self,
            Self::spec_unpack(self.spec_pack() + trailing) == Ok::<_, AmmError>(self),
    {
        let bytes = self.spec_pack() + trailing;
        assert(bytes.subrange(1, 33) =~= self.parameters@);
        lemma_spec_array::<32>(self.parameters@);
        lemma_array_injective(spec_array::<32>(self.parameters@), self.parameters);
    }

    /// What decodes is the encoding of what it decodes to: the first 33 bytes
    /// of a buffer are the bytes of the record read from it.
    pub proof fn lemma_pack_unpack(input: Seq<u8>)
        requires
            input.len() >= 33,
        ensures
            Self::spec_from_bytes(input).spec_pack() == input.subrange(0, 33),
    {
        lemma_spec_array::<32>(input.subrange(1, 33));
        assert(Self::spec_from_bytes(input).spec_pack() =~= input.subrange(0, 33));
    }
}

} // verus!
