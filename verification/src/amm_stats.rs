//! Persistent account state: the per-pool record, its versioned wrapper and
//! the program-wide configuration, each with a fixed byte layout.
//!
//! Every field sits at a fixed offset. Flags are one byte, 0 or 1; identifiers
//! are 32 raw bytes; integers are little-endian. Decoding reads only the
//! record's own length and ignores whatever follows it.

use crate::codec::{
    flag_at,
    pubkey_at,
    put_flag,
    put_pubkey,
    put_u64,
    spec_flag,
    spec_flag_byte,
    spec_overwrite,
    spec_pubkey_at,
    spec_u64_at,
    u64_at,
};
use crate::curve::{Fees, SwapCurve};
use crate::error::AmmError;
use crate::pubkey::Pubkey;
use vstd::bytes::{lemma_auto_spec_u64_to_from_le_bytes, spec_u64_to_le_bytes};
use vstd::prelude::*;
use vstd::slice::slice_subrange;

verus! {

/// What every layout of the pool state lets a caller read.
pub struct PoolStatus {
    /// Whether the pool has been set up.
    pub is_initialized: bool,
    /// Bump byte from which the pool's program-owned signing address is derived.
    pub nonce: u8,
    /// Program of the tokens being exchanged.
    pub token_program_id: Pubkey,
    /// Reserve account of token A.
    pub token_a_account: Pubkey,
    /// Reserve account of token B.
    pub token_b_account: Pubkey,
    /// Mint of the pool tokens.
    pub pool_mint: Pubkey,
    /// Mint of token A.
    pub token_a_mint: Pubkey,
    /// Mint of token B.
    pub token_b_mint: Pubkey,
}

/// Read access to the pool state that does not depend on which layout holds it.
pub trait AmmStatus {
    /// The fields that the accessors below return.
    spec fn status(&self) -> PoolStatus;

    /// Whether the pool has been set up.
    fn is_initialized(&self) -> (flag: bool)
        ensures
            flag == self.status().is_initialized,
    ;

    /// Bump byte used to derive the pool's signing address.
    fn nonce(&self) -> (nonce: u8)
        ensures
            nonce == self.status().nonce,
    ;

    /// Program of the tokens being exchanged.
    fn token_program_id(&self) -> (id: &Pubkey)
        ensures
            *id == self.status().token_program_id,
    ;

    /// Reserve account of token A.
    fn token_a_account(&self) -> (id: &Pubkey)
        ensures
            *id == self.status().token_a_account,
    ;

    /// Reserve account of token B.
    fn token_b_account(&self) -> (id: &Pubkey)
        ensures
            *id == self.status().token_b_account,
    ;

    /// Mint of the pool tokens.
    fn pool_mint(&self) -> (id: &Pubkey)
        ensures
            *id == self.status().pool_mint,
    ;

    /// Mint of token A.
    fn token_a_mint(&self) -> (id: &Pubkey)
        ensures
            *id == self.status().token_a_mint,
    ;

    /// Mint of token B.
    fn token_b_mint(&self) -> (id: &Pubkey)
        ensures
            *id == self.status().token_b_mint,
    ;
}

/// The pool state behind its version byte. Each variant is one layout; a
/// layout added later gets the next version byte and a variant of its own.
#[derive(Clone, Copy, Debug, PartialEq, Eq)]
pub enum SwapVersion {
    /// Version 1, written for every new pool.
    SwapV1(SwapV1),
}

impl SwapVersion {
    /// Length of the newest layout with its version byte.
    pub const LATEST_LEN: usize = 291;

    /// The version byte in front of the variant's layout.
    pub open spec fn spec_version(self) -> u8 {
        match self {
            SwapVersion::SwapV1(_) => 1,
        }
    }

    /// The bytes of the versioned record: the version byte, then the layout.
    pub open spec fn spec_pack(self) -> Seq<u8> {
        match self {
            SwapVersion::SwapV1(swap_info) => seq![1u8] + swap_info.spec_pack(),
        }
    }

    /// What a buffer decodes to.
    ///
    /// An empty buffer is too small to hold a version. A version byte other
    /// than 1 is unsupported, whatever follows it. After version byte 1, the
    /// rest of the buffer is decoded as the version 1 layout.
    pub open spec fn spec_unpack(input: Seq<u8>) -> Result<SwapVersion, AmmError> {
        if input.len() == 0 {
            Err(AmmError::BufferTooSmall)
        } else if input[0] != 1 {
            Err(AmmError::UnsupportedVersion)
        } else {
            match SwapV1::spec_unpack(input.subrange(1, input.len() as int)) {
                Ok(swap_info) => Ok(SwapVersion::SwapV1(swap_info)),
                Err(e) => Err(e),
            }
        }
    }

    /// Whether a buffer holds a pool state that decodes and is set up.
    pub open spec fn spec_is_initialized(input: Seq<u8>) -> bool {
        match Self::spec_unpack(input) {
            Ok(swap) => swap.status().is_initialized,
            Err(_) => false,
        }
    }

    /// Writes the version byte and the layout over the front of `dst`.
    ///
    /// A destination shorter than the versioned record is rejected as too
    /// small and left untouched. Bytes of `dst` past the record stay as they
    /// were.
    pub fn pack(src: SwapVersion, dst: &mut [u8]) -> (r: Result<(), AmmError>)
        ensures
            old(dst).len() < Self::LATEST_LEN ==> r == Err::<(), _>(AmmError::BufferTooSmall)
                && final(dst)@ == old(dst)@,
            old(dst).len() >= Self::LATEST_LEN ==> r == Ok::<_, AmmError>(()) && final(dst)@
                == spec_overwrite(old(dst)@, 0, src.spec_pack()),
    {
        if dst.len() < Self::LATEST_LEN {
            return Err(AmmError::BufferTooSmall);
        }
        match src {
            SwapVersion::SwapV1(swap_info) => {
                dst[0] = 1;
                let (_version, body) = dst.split_at_mut(1);
                swap_info.pack_into_slice(body);
                assert(final(dst)@ =~= spec_overwrite(old(dst)@, 0, src.spec_pack()));
                Ok(())
            },
        }
    }

    /// Decodes a versioned pool state, whichever layout it is in.
    pub fn unpack(input: &[u8]) -> (r: Result<SwapVersion, AmmError>)
        ensures
            r == Self::spec_unpack(input@),
    {
        if input.len() == 0 {
            return Err(AmmError::BufferTooSmall);
        }
        let version = input[0];
        let rest = slice_subrange(input, 1, input.len());
        match version {
            1 => match SwapV1::unpack_from_slice(rest) {
                Ok(swap_info) => Ok(SwapVersion::SwapV1(swap_info)),
                Err(e) => Err(e),
            },
            _ => Err(AmmError::UnsupportedVersion),
        }
    }

    /// Whether `input` holds a pool state that has been set up. A buffer that
    /// does not decode counts as not set up.
    pub fn is_initialized(input: &[u8]) -> (flag: bool)
        ensures
            flag == Self::spec_is_initialized(input@),
    {
        match Self::unpack(input) {
            Ok(swap) => AmmStatus::is_initialized(&swap),
            Err(_) => false,
        }
    }

    /// The versioned record is one byte longer than its layout and starts
    /// with its version byte. Decoding it gives the record back, and with it
    /// the same fields behind the shared accessors.
    pub proof fn lemma_unpack_pack(self)
        ensures
            self.spec_pack().len() == Self::LATEST_LEN,
            self.spec_pack()[0] == self.spec_version(),
            Self::spec_unpack(self.spec_pack()) == Ok::<_, AmmError>(self),
            Self::spec_unpack(self.spec_pack())->Ok_0.status() == self.status(),
            Self::spec_is_initialized(self.spec_pack()) == self.status().is_initialized,
    {
        self.lemma_unpack_pack_with_trailing(Seq::empty());
        assert(self.spec_pack() + Seq::<u8>::empty() =~= self.spec_pack());
    }

    /// Bytes after the versioned record are ignored: the encoding followed
    /// by anything decodes to the record.
    pub proof fn lemma_unpack_pack_with_trailing(self, trailing: Seq<u8>)
        ensures
            self.spec_pack().len() == Self::LATEST_LEN,
            self.spec_pack()[0] == self.spec_version(),
            Self::spec_unpack(self.spec_pack() + trailing) == Ok::<_, AmmError>(self),
    {
        match self {
            SwapVersion::SwapV1(swap_info) => {
                swap_info.lemma_unpack_pack_with_trailing(trailing);
                let bytes = self.spec_pack() + trailing;
                assert(bytes.subrange(1, bytes.len() as int) =~= swap_info.spec_pack()
                    + trailing);
            },
        }
    }

    /// A buffer whose version byte is not 1 is rejected as unsupported, even
    /// where the bytes after it are a well-formed version 1 layout.
    pub proof fn lemma_unsupported_version(input: Seq<u8>)
        requires
            input.len() > 0,
            input[0] != 1,
        ensures
            Self::spec_unpack(input) == Err::<SwapVersion, _>(AmmError::UnsupportedVersion),
            !Self::spec_is_initialized(input),
    {
    }

    /// Every proper prefix of a versioned record is rejected as too small.
    pub proof fn lemma_truncated_record_rejected(self, n: int)
        requires
            0 <= n < Self::LATEST_LEN,
        ensures
            Self::spec_unpack(self.spec_pack().subrange(0, n)) == Err::<SwapVersion, _>(
                AmmError::BufferTooSmall,
            ),
    {
        self.lemma_unpack_pack();
    }

    /// What decodes is the encoding of what it decodes to: the front of an
    /// accepted buffer is the versioned record read from it, byte for byte.
    pub proof fn lemma_pack_unpack(input: Seq<u8>)
        requires
            Self::spec_unpack(input) is Ok,
        ensures
            input.len() >= Self::LATEST_LEN,
            Self::spec_unpack(input)->Ok_0.spec_pack() == input.subrange(
                0,
                Self::LATEST_LEN as int,
            ),
    {
        let body = input.subrange(1, input.len() as int);
        SwapV1::lemma_pack_unpack(body);
        assert(Self::spec_unpack(input)->Ok_0.spec_pack() =~= input.subrange(
            0,
            Self::LATEST_LEN as int,
        ));
    }

    /// No two versioned records share an encoding.
    pub proof fn lemma_pack_injective(self, other: SwapVersion)
        requires
            self.spec_pack() == other.spec_pack(),
        ensures
            self == other,
    {
        self.lemma_unpack_pack();
        other.lemma_unpack_pack();
    }
}

impl AmmStatus for SwapVersion {
    open spec fn status(&self) -> PoolStatus {
        match self {
            SwapVersion::SwapV1(swap_info) => swap_info.status(),
        }
    }

    fn is_initialized(&self) -> (flag: bool) {
        match self {
            SwapVersion::SwapV1(swap_info) => swap_info.is_initialized(),
        }
    }

    fn nonce(&self) -> (nonce: u8) {
        match self {
            SwapVersion::SwapV1(swap_info) => swap_info.nonce(),
        }
    }

    fn token_program_id(&self) -> (id: &Pubkey) {
        match self {
            SwapVersion::SwapV1(swap_info) => swap_info.token_program_id(),
        }
    }

    fn token_a_account(&self) -> (id: &Pubkey) {
        match self {
            SwapVersion::SwapV1(swap_info) => swap_info.token_a_account(),
        }
    }

    fn token_b_account(&self) -> (id: &Pubkey) {
        match self {
            SwapVersion::SwapV1(swap_info) => swap_info.token_b_account(),
        }
    }

    fn pool_mint(&self) -> (id: &Pubkey) {
        match self {
            SwapVersion::SwapV1(swap_info) => swap_info.pool_mint(),
        }
    }

    fn token_a_mint(&self) -> (id: &Pubkey) {
        match self {
            SwapVersion::SwapV1(swap_info) => swap_info.token_a_mint(),
        }
    }

    fn token_b_mint(&self) -> (id: &Pubkey) {
        match self {
            SwapVersion::SwapV1(swap_info) => swap_info.token_b_mint(),
        }
    }
}

/// The program-wide configuration, one per deployment.
#[derive(Clone, Copy, Debug, Default, PartialEq, Eq)]
pub struct ProgramState {
    /// Whether the configuration has been set up.
    pub is_initialized: bool,
    /// Who may change the configuration.
    pub state_owner: Pubkey,
    /// Who receives the fees.
    pub fee_owner: Pubkey,
    /// Pool tokens minted when a pool is created.
    pub initial_supply: u64,
    /// The fee schedule.
    pub fees: Fees,
    /// The curve that prices every pool.
    pub swap_curve: SwapCurve,
}

impl ProgramState {
    /// Length of the encoded record.
    pub const LEN: usize = 130;

    /// Offset of the initialization flag.
    pub const IS_INITIALIZED_OFFSET: usize = 0;

    /// Offset of the state owner.
    pub const STATE_OWNER_OFFSET: usize = 1;

    /// Offset of the fee owner.
    pub const FEE_OWNER_OFFSET: usize = 33;

    /// Offset of the initial supply.
    pub const INITIAL_SUPPLY_OFFSET: usize = 65;

    /// Offset of the fee schedule.
    pub const FEES_OFFSET: usize = 73;

    /// Offset of the curve selector.
    pub const SWAP_CURVE_OFFSET: usize = 97;

    /// The 130 bytes of the record: every field in declared order.
    pub open spec fn spec_pack(self) -> Seq<u8> {
        seq![spec_flag_byte(self.is_initialized)] + self.state_owner@ + self.fee_owner@
            + spec_u64_to_le_bytes(self.initial_supply) + self.fees.spec_pack()
            + self.swap_curve.spec_pack()
    }

    /// What a buffer decodes to.
    ///
    /// Under 130 bytes it is too small. Otherwise the first byte must be a
    /// flag, and the record is read field by field from the fixed offsets.
    pub open spec fn spec_unpack(input: Seq<u8>) -> Result<ProgramState, AmmError> {
        if input.len() < Self::LEN {
            Err(AmmError::BufferTooSmall)
        } else {
            match spec_flag(input[Self::IS_INITIALIZED_OFFSET as int]) {
                Err(e) => Err(e),
                Ok(is_initialized) => Ok(
                    ProgramState {
                        is_initialized,
                        state_owner: spec_pubkey_at(input, Self::STATE_OWNER_OFFSET as int),
                        fee_owner: spec_pubkey_at(input, Self::FEE_OWNER_OFFSET as int),
                        initial_supply: spec_u64_at(input, Self::INITIAL_SUPPLY_OFFSET as int),
                        fees: Fees::spec_from_bytes(
                            input.subrange(
                                Self::FEES_OFFSET as int,
                                Self::SWAP_CURVE_OFFSET as int,
                            ),
                        ),
                        swap_curve: SwapCurve::spec_from_bytes(
                            input.subrange(Self::SWAP_CURVE_OFFSET as int, Self::LEN as int),
                        ),
                    },
                ),
            }
        }
    }

    /// Writes the record over the first 130 bytes of `output` and leaves the
    /// rest of it as it was.
    pub fn pack_into_slice(&self, output: &mut [u8])
        requires
            old(output).len() >= Self::LEN,
        ensures
            final(output)@ == spec_overwrite(old(output)@, 0, self.spec_pack()),
    {
        proof {
            lemma_auto_spec_u64_to_from_le_bytes();
            self.fees.lemma_unpack_pack();
            self.swap_curve.lemma_unpack_pack();
        }
        put_flag(output, Self::IS_INITIALIZED_OFFSET, self.is_initialized);
        put_pubkey(output, Self::STATE_OWNER_OFFSET, &self.state_owner);
        put_pubkey(output, Self::FEE_OWNER_OFFSET, &self.fee_owner);
        put_u64(output, Self::INITIAL_SUPPLY_OFFSET, self.initial_supply);
        let (_front, records) = output.split_at_mut(Self::FEES_OFFSET);
        let (fees, swap_curve) = records.split_at_mut(Fees::LEN);
        self.fees.pack_into_slice(fees);
        self.swap_curve.pack_into_slice(swap_curve);
        assert(final(output)@ =~= spec_overwrite(old(output)@, 0, self.spec_pack()));
    }

    /// Decodes the record from the first 130 bytes of `input`.
    pub fn unpack_from_slice(input: &[u8]) -> (r: Result<ProgramState, AmmError>)
        ensures
            r == Self::spec_unpack(input@),
    {
        if input.len() < Self::LEN {
            return Err(AmmError::BufferTooSmall);
        }
        let is_initialized = match flag_at(input, Self::IS_INITIALIZED_OFFSET) {
            Ok(flag) => flag,
            Err(e) => {
                return Err(e);
            },
        };
        let fees = match Fees::unpack_from_slice(
            slice_subrange(input, Self::FEES_OFFSET, Self::SWAP_CURVE_OFFSET),
        ) {
            Ok(fees) => fees,
            Err(e) => {
                return Err(e);
            },
        };
        let swap_curve = match SwapCurve::unpack_from_slice(
            slice_subrange(input, Self::SWAP_CURVE_OFFSET, Self::LEN),
        ) {
            Ok(swap_curve) => swap_curve,
            Err(e) => {
                return Err(e);
            },
        };
        Ok(
            ProgramState {
                is_initialized,
                state_owner: pubkey_at(input, Self::STATE_OWNER_OFFSET),
                fee_owner: pubkey_at(input, Self::FEE_OWNER_OFFSET),
                initial_supply: u64_at(input, Self::INITIAL_SUPPLY_OFFSET),
                fees,
                swap_curve,
            },
        )
    }

    /// Whether the configuration has been set up.
    pub fn is_initialized(&self) -> (flag: bool)
        ensures
            flag == self.is_initialized,
    {
        self.is_initialized
    }

    /// Who may change the configuration.
    pub fn state_owner(&self) -> (id: &Pubkey)
        ensures
            *id == self.state_owner,
    {
        &self.state_owner
    }

    /// Who receives the fees.
    pub fn fee_owner(&self) -> (id: &Pubkey)
        ensures
            *id == self.fee_owner,
    {
        &self.fee_owner
    }

    /// Pool tokens minted when a pool is created.
    pub fn initial_supply(&self) -> (supply: u64)
        ensures
            supply == self.initial_supply,
    {
        self.initial_supply
    }

    /// The fee schedule.
    pub fn fees(&self) -> (fees: &Fees)
        ensures
            *fees == self.fees,
    {
        &self.fees
    }

    /// The curve that prices every pool.
    pub fn swap_curve(&self) -> (curve: &SwapCurve)
        ensures
            *curve == self.swap_curve,
    {
        &self.swap_curve
    }

    /// The encoding is 130 bytes long, and decoding it gives the record back.
    pub proof fn lemma_unpack_pack(self)
        ensures
            self.spec_pack().len() == Self::LEN,
            Self::spec_unpack(self.spec_pack()) == Ok::<_, AmmError>(self),
    {
        self.lemma_unpack_pack_with_trailing(Seq::empty());
        assert(self.spec_pack() + Seq::<u8>::empty() =~= self.spec_pack());
    }

    /// Bytes after the record are ignored: the encoding followed by anything
    /// decodes to the record.
    pub proof fn lemma_unpack_pack_with_trailing(self, trailing: Seq<u8>)
        ensures
            self.spec_pack().len() == Self::LEN,
            Self::spec_unpack(self.spec_pack() + trailing) == Ok::<_, AmmError>(self),
    {
        lemma_auto_spec_u64_to_from_le_bytes();
        self.fees.lemma_unpack_pack();
        self.swap_curve.lemma_unpack_pack();
        let bytes = self.spec_pack() + trailing;
        lemma_identifier_at(bytes, Self::STATE_OWNER_OFFSET as int, self.state_owner);
        lemma_identifier_at(bytes, Self::FEE_OWNER_OFFSET as int, self.fee_owner);
        assert(bytes.subrange(65, 73) =~= spec_u64_to_le_bytes(self.initial_supply));
        assert(bytes.subrange(73, 97) =~= self.fees.spec_pack());
        assert(bytes.subrange(97, 130) =~= self.swap_curve.spec_pack());
    }

    /// Decoding reads the first 130 bytes and nothing else: two buffers that
    /// agree on them decode alike.
    pub proof fn lemma_unpack_reads_only_record(input: Seq<u8>, other: Seq<u8>)
        requires
            input.len() >= Self::LEN,
            other.len() >= Self::LEN,
            input.subrange(0, Self::LEN as int) == other.subrange(0, Self::LEN as int),
        ensures
            Self::spec_unpack(input) == Self::spec_unpack(other),
    {
        lemma_same_fields(input, other, Self::LEN as int);
    }

    /// Every buffer shorter than the record is rejected as too small; so is
    /// every proper prefix of an encoding.
    pub proof fn lemma_truncated_record_rejected(self, n: int)
        requires
            0 <= n < Self::LEN,
        ensures
            Self::spec_unpack(self.spec_pack().subrange(0, n)) == Err::<ProgramState, _>(
                AmmError::BufferTooSmall,
            ),
    {
        self.lemma_unpack_pack();
    }

    /// What decodes is the encoding of what it decodes to: the first 130
    /// bytes of an accepted buffer are the bytes of the record read from it.
    pub proof fn lemma_pack_unpack(input: Seq<u8>)
        requires
            Self::spec_unpack(input) is Ok,
        ensures
            input.len() >= Self::LEN,
            Self::spec_unpack(input)->Ok_0.spec_pack() == input.subrange(0, Self::LEN as int),
    {
        lemma_auto_spec_u64_to_from_le_bytes();
        let record = Self::spec_unpack(input)->Ok_0;
        Pubkey::lemma_from_bytes(input.subrange(1, 33));
        Pubkey::lemma_from_bytes(input.subrange(33, 65));
        assert(spec_u64_to_le_bytes(record.initial_supply) == input.subrange(65, 73));
        Fees::lemma_pack_unpack(input.subrange(73, 97));
        SwapCurve::lemma_pack_unpack(input.subrange(97, 130));
        assert(input.subrange(73, 97).subrange(0, 24) =~= input.subrange(73, 97));
        assert(input.subrange(97, 130).subrange(0, 33) =~= input.subrange(97, 130));
        assert(record.spec_pack() =~= input.subrange(0, Self::LEN as int));
    }

    /// No two records share an encoding.
    pub proof fn lemma_pack_injective(self, other: ProgramState)
        requires
            self.spec_pack() == other.spec_pack(),
        ensures
            self == other,
    {
        self.lemma_unpack_pack();
        other.lemma_unpack_pack();
    }
}

/// The state of one liquidity pool, in the only layout defined so far.
#[derive(Clone, Copy, Debug, Default, PartialEq, Eq)]
pub struct SwapV1 {
    /// Whether the pool has been set up.
    pub is_initialized: bool,
    /// Bump byte from which the pool's program-owned signing address is derived.
    pub nonce: u8,
    /// The pool's own identifier.
    pub amm_id: Pubkey,
    /// Program of the external order-book market.
    pub dex_program_id: Pubkey,
    /// The external order-book market itself.
    pub market_id: Pubkey,
    /// Program of the tokens being exchanged.
    pub token_program_id: Pubkey,
    /// Reserve account of token A.
    pub token_a: Pubkey,
    /// Reserve account of token B.
    pub token_b: Pubkey,
    /// Mint of the pool tokens issued against deposits.
    pub pool_mint: Pubkey,
    /// Mint of token A.
    pub token_a_mint: Pubkey,
    /// Mint of token B.
    pub token_b_mint: Pubkey,
}

impl SwapV1 {
    /// Length of the encoded record: two single bytes and nine identifiers.
    pub const LEN: usize = 290;

    /// Offset of the initialization flag.
    pub const IS_INITIALIZED_OFFSET: usize = 0;

    /// Offset of the nonce.
    pub const NONCE_OFFSET: usize = 1;

    /// Offset of the pool identifier.
    pub const AMM_ID_OFFSET: usize = 2;

    /// Offset of the market program identifier.
    pub const DEX_PROGRAM_ID_OFFSET: usize = 34;

    /// Offset of the market identifier.
    pub const MARKET_ID_OFFSET: usize = 66;

    /// Offset of the token program identifier.
    pub const TOKEN_PROGRAM_ID_OFFSET: usize = 98;

    /// Offset of the token A reserve account.
    pub const TOKEN_A_OFFSET: usize = 130;

    /// Offset of the token B reserve account.
    pub const TOKEN_B_OFFSET: usize = 162;

    /// Offset of the pool mint.
    pub const POOL_MINT_OFFSET: usize = 194;

    /// Offset of the token A mint.
    pub const TOKEN_A_MINT_OFFSET: usize = 226;

    /// Offset of the token B mint.
    pub const TOKEN_B_MINT_OFFSET: usize = 258;

    /// The 290 bytes of the record: every field in declared order.
    pub open spec fn spec_pack(self) -> Seq<u8> {
        seq![spec_flag_byte(self.is_initialized), self.nonce] + self.amm_id@
            + self.dex_program_id@ + self.market_id@ + self.token_program_id@ + self.token_a@
            + self.token_b@ + self.pool_mint@ + self.token_a_mint@ + self.token_b_mint@
    }

    /// What a buffer decodes to.
    ///
    /// Under 290 bytes it is too small. Otherwise the first byte must be a
    /// flag, and the record is read field by field from the fixed offsets.
    pub open spec fn spec_unpack(input: Seq<u8>) -> Result<SwapV1, AmmError> {
        if input.len() < Self::LEN {
            Err(AmmError::BufferTooSmall)
        } else {
            match spec_flag(input[Self::IS_INITIALIZED_OFFSET as int]) {
                Err(e) => Err(e),
                Ok(is_initialized) => Ok(
                    SwapV1 {
                        is_initialized,
                        nonce: input[Self::NONCE_OFFSET as int],
                        amm_id: spec_pubkey_at(input, Self::AMM_ID_OFFSET as int),
                        dex_program_id: spec_pubkey_at(input, Self::DEX_PROGRAM_ID_OFFSET as int),
                        market_id: spec_pubkey_at(input, Self::MARKET_ID_OFFSET as int),
                        token_program_id: spec_pubkey_at(
                            input,
                            Self::TOKEN_PROGRAM_ID_OFFSET as int,
                        ),
                        token_a: spec_pubkey_at(input, Self::TOKEN_A_OFFSET as int),
                        token_b: spec_pubkey_at(input, Self::TOKEN_B_OFFSET as int),
                        pool_mint: spec_pubkey_at(input, Self::POOL_MINT_OFFSET as int),
                        token_a_mint: spec_pubkey_at(input, Self::TOKEN_A_MINT_OFFSET as int),
                        token_b_mint: spec_pubkey_at(input, Self::TOKEN_B_MINT_OFFSET as int),
                    },
                ),
            }
        }
    }

    /// Writes the record over the first 290 bytes of `output` and leaves the
    /// rest of it as it was.
    pub fn pack_into_slice(&self, output: &mut [u8])
        requires
            old(output).len() >= Self::LEN,
        ensures
            final(output)@ == spec_overwrite(old(output)@, 0, self.spec_pack()),
    {
        put_flag(output, Self::IS_INITIALIZED_OFFSET, self.is_initialized);
        output[Self::NONCE_OFFSET] = self.nonce;
        put_pubkey(output, Self::AMM_ID_OFFSET, &self.amm_id);
        put_pubkey(output, Self::DEX_PROGRAM_ID_OFFSET, &self.dex_program_id);
        put_pubkey(output, Self::MARKET_ID_OFFSET, &self.market_id);
        put_pubkey(output, Self::TOKEN_PROGRAM_ID_OFFSET, &self.token_program_id);
        put_pubkey(output, Self::TOKEN_A_OFFSET, &self.token_a);
        put_pubkey(output, Self::TOKEN_B_OFFSET, &self.token_b);
        put_pubkey(output, Self::POOL_MINT_OFFSET, &self.pool_mint);
        put_pubkey(output, Self::TOKEN_A_MINT_OFFSET, &self.token_a_mint);
        put_pubkey(output, Self::TOKEN_B_MINT_OFFSET, &self.token_b_mint);
        assert(output@ =~= spec_overwrite(old(output)@, 0, self.spec_pack()));
    }

    /// Decodes the record from the first 290 bytes of `input`.
    pub fn unpack_from_slice(input: &[u8]) -> (r: Result<SwapV1, AmmError>)
        ensures
            r == Self::spec_unpack(input@),
    {
        if input.len() < Self::LEN {
            return Err(AmmError::BufferTooSmall);
        }
        let is_initialized = match flag_at(input, Self::IS_INITIALIZED_OFFSET) {
            Ok(flag) => flag,
            Err(e) => {
                return Err(e);
            },
        };
        Ok(
            SwapV1 {
                is_initialized,
                nonce: input[Self::NONCE_OFFSET],
                amm_id: pubkey_at(input, Self::AMM_ID_OFFSET),
                dex_program_id: pubkey_at(input, Self::DEX_PROGRAM_ID_OFFSET),
                market_id: pubkey_at(input, Self::MARKET_ID_OFFSET),
                token_program_id: pubkey_at(input, Self::TOKEN_PROGRAM_ID_OFFSET),
                token_a: pubkey_at(input, Self::TOKEN_A_OFFSET),
                token_b: pubkey_at(input, Self::TOKEN_B_OFFSET),
                pool_mint: pubkey_at(input, Self::POOL_MINT_OFFSET),
                token_a_mint: pubkey_at(input, Self::TOKEN_A_MINT_OFFSET),
                token_b_mint: pubkey_at(input, Self::TOKEN_B_MINT_OFFSET),
            },
        )
    }

    /// The encoding is 290 bytes long, and decoding it gives the record back.
    pub proof fn lemma_unpack_pack(self)
        ensures
            self.spec_pack().len() == Self::LEN,
            Self::spec_unpack(self.spec_pack()) == Ok::<_, AmmError>(self),
    {
        self.lemma_unpack_pack_with_trailing(Seq::empty());
        assert(self.spec_pack() + Seq::<u8>::empty() =~= self.spec_pack());
    }

    /// Bytes after the record are ignored: the encoding followed by anything
    /// decodes to the record.
    pub proof fn lemma_unpack_pack_with_trailing(self, trailing: Seq<u8>)
        ensures
            self.spec_pack().len() == Self::LEN,
            Self::spec_unpack(self.spec_pack() + trailing) == Ok::<_, AmmError>(self),
    {
        let bytes = self.spec_pack() + trailing;
        lemma_identifier_at(bytes, Self::AMM_ID_OFFSET as int, self.amm_id);
        lemma_identifier_at(bytes, Self::DEX_PROGRAM_ID_OFFSET as int, self.dex_program_id);
        lemma_identifier_at(bytes, Self::MARKET_ID_OFFSET as int, self.market_id);
        lemma_identifier_at(bytes, Self::TOKEN_PROGRAM_ID_OFFSET as int, self.token_program_id);
        lemma_identifier_at(bytes, Self::TOKEN_A_OFFSET as int, self.token_a);
        lemma_identifier_at(bytes, Self::TOKEN_B_OFFSET as int, self.token_b);
        lemma_identifier_at(bytes, Self::POOL_MINT_OFFSET as int, self.pool_mint);
        lemma_identifier_at(bytes, Self::TOKEN_A_MINT_OFFSET as int, self.token_a_mint);
        lemma_identifier_at(bytes, Self::TOKEN_B_MINT_OFFSET as int, self.token_b_mint);
    }

    /// Decoding reads the first 290 bytes and nothing else: two buffers that
    /// agree on them decode alike.
    pub proof fn lemma_unpack_reads_only_record(input: Seq<u8>, other: Seq<u8>)
        requires
            input.len() >= Self::LEN,
            other.len() >= Self::LEN,
            input.subrange(0, Self::LEN as int) == other.subrange(0, Self::LEN as int),
        ensures
            Self::spec_unpack(input) == Self::spec_unpack(other),
    {
        lemma_same_fields(input, other, Self::LEN as int);
    }

    /// What decodes is the encoding of what it decodes to: the first 290
    /// bytes of an accepted buffer are the bytes of the record read from it.
    pub proof fn lemma_pack_unpack(input: Seq<u8>)
        requires
            Self::spec_unpack(input) is Ok,
        ensures
            input.len() >= Self::LEN,
            Self::spec_unpack(input)->Ok_0.spec_pack() == input.subrange(0, Self::LEN as int),
    {
        let record = Self::spec_unpack(input)->Ok_0;
        Pubkey::lemma_from_bytes(input.subrange(2, 34));
        Pubkey::lemma_from_bytes(input.subrange(34, 66));
        Pubkey::lemma_from_bytes(input.subrange(66, 98));
        Pubkey::lemma_from_bytes(input.subrange(98, 130));
        Pubkey::lemma_from_bytes(input.subrange(130, 162));
        Pubkey::lemma_from_bytes(input.subrange(162, 194));
        Pubkey::lemma_from_bytes(input.subrange(194, 226));
        Pubkey::lemma_from_bytes(input.subrange(226, 258));
        Pubkey::lemma_from_bytes(input.subrange(258, 290));
        assert(record.spec_pack() =~= input.subrange(0, Self::LEN as int));
    }

    /// Every buffer shorter than the record is rejected as too small; so is
    /// every proper prefix of an encoding.
    pub proof fn lemma_truncated_record_rejected(self, n: int)
        requires
            0 <= n < Self::LEN,
        ensures
            Self::spec_unpack(self.spec_pack().subrange(0, n)) == Err::<SwapV1, _>(
                AmmError::BufferTooSmall,
            ),
    {
        self.lemma_unpack_pack();
    }

    /// No two records share an encoding.
    pub proof fn lemma_pack_injective(self, other: SwapV1)
        requires
            self.spec_pack() == other.spec_pack(),
        ensures
            self == other,
    {
        self.lemma_unpack_pack();
        other.lemma_unpack_pack();
    }
}

impl AmmStatus for SwapV1 {
    open spec fn status(&self) -> PoolStatus {
        PoolStatus {
            is_initialized: self.is_initialized,
            nonce: self.nonce,
            token_program_id: self.token_program_id,
            token_a_account: self.token_a,
            token_b_account: self.token_b,
            pool_mint: self.pool_mint,
            token_a_mint: self.token_a_mint,
            token_b_mint: self.token_b_mint,
        }
    }

    fn is_initialized(&self) -> (flag: bool) {
        self.is_initialized
    }

    fn nonce(&self) -> (nonce: u8) {
        self.nonce
    }

    fn token_program_id(&self) -> (id: &Pubkey) {
        &self.token_program_id
    }

    fn token_a_account(&self) -> (id: &Pubkey) {
        &self.token_a
    }

    fn token_b_account(&self) -> (id: &Pubkey) {
        &self.token_b
    }

    fn pool_mint(&self) -> (id: &Pubkey) {
        &self.pool_mint
    }

    fn token_a_mint(&self) -> (id: &Pubkey) {
        &self.token_a_mint
    }

    fn token_b_mint(&self) -> (id: &Pubkey) {
        &self.token_b_mint
    }
}

/// Two buffers that agree on their first `len` bytes agree on every byte and
/// every range of bytes inside them.
proof fn lemma_same_fields(input: Seq<u8>, other: Seq<u8>, len: int)
    requires
        0 <= len <= input.len(),
        len <= other.len(),
        input.subrange(0, len) == other.subrange(0, len),
    ensures
        forall|i: int| 0 <= i < len ==> input[i] == other[i],
        forall|from: int, to: int|
            0 <= from <= to <= len ==> #[trigger] input.subrange(from, to) == other.subrange(
                from,
                to,
            ),
{
    assert forall|i: int| 0 <= i < len implies input[i] == other[i] by {
        assert(input[i] == input.subrange(0, len)[i]);
        assert(other[i] == other.subrange(0, len)[i]);
    }
    assert forall|from: int, to: int| 0 <= from <= to <= len implies #[trigger] input.subrange(
        from,
        to,
    ) == other.subrange(from, to) by {
        assert(input.subrange(from, to) =~= other.subrange(from, to));
    }
}

/// Where the 32 bytes at `offset` are those of `id`, the identifier read there is `id`.
proof fn lemma_identifier_at(bytes: Seq<u8>, offset: int, id: Pubkey)
    requires
        0 <= offset,
        offset + 32 <= bytes.len(),
        forall|i: int| 0 <= i < 32 ==> bytes[offset + i] == id@[i],
    ensures
        spec_pubkey_at(bytes, offset) == id,
{
    assert(bytes.subrange(offset, offset + 32) =~= id@);
    id.lemma_from_bytes_of_view();
}

} // verus!
