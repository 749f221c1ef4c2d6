//! Instructions of the pool program and their wire format.
//!
//! A payload is one tag byte followed by the fields of the variant, each an
//! unsigned 64-bit integer in little-endian order (a single raw byte for
//! `Initialize`). Encoding is canonical: it writes exactly the tag and the
//! fields. Decoding is strict for `Initialize`, whose payload must be exactly
//! two bytes, and lenient for every other variant, where bytes after the last
//! field are ignored.

use crate::codec::{read_u64, spec_read_u64, spec_u64_at, write_u64};
use crate::error::AmmError;
use crate::instruction::{AccountMeta, Instruction};
use crate::pubkey::Pubkey;
use vstd::bytes::{
    lemma_auto_spec_u64_to_from_le_bytes,
    spec_u64_from_le_bytes,
    spec_u64_to_le_bytes,
};
use vstd::prelude::*;
use vstd::slice::slice_subrange;

verus! {

/// Payload of `Initialize`.
#[derive(Clone, Copy, Debug, PartialEq, Eq, Structural)]
pub struct InitializeInstruction {
    /// Bump byte from which the pool's program-owned signing address is derived.
    pub nonce: u8,
}

/// Payload of `Swap`.
#[derive(Clone, Copy, Debug, PartialEq, Eq, Structural)]
pub struct SwapInstruction {
    /// Amount of the source token to transfer; the output follows the exchange rate.
    pub amount_in: u64,
    /// Least amount of the destination token to accept, bounding slippage.
    pub minimum_amount_out: u64,
}

/// Payload of `DepositAllTokenTypes`.
#[derive(Clone, Copy, Debug, PartialEq, Eq, Structural)]
pub struct DepositInstruction {
    /// Pool tokens to mint; the amounts of A and B follow the current ratio.
    pub pool_token_amount: u64,
    /// Most of token A to deposit, bounding slippage.
    pub maximum_token_a_amount: u64,
    /// Most of token B to deposit, bounding slippage.
    pub maximum_token_b_amount: u64,
}

/// Payload of `WithdrawAllTokenTypes`.
#[derive(Clone, Copy, Debug, PartialEq, Eq, Structural)]
pub struct WithdrawInstruction {
    /// Pool tokens to burn; the amounts of A and B returned follow the current ratio.
    pub pool_token_amount: u64,
    /// Least of token A to receive, bounding slippage.
    pub minimum_token_a_amount: u64,
    /// Least of token B to receive, bounding slippage.
    pub minimum_token_b_amount: u64,
}

/// Payload of `DepositSingleTokenTypeExactAmountIn`.
#[derive(Clone, Copy, Debug, PartialEq, Eq, Structural)]
pub struct DepositSingleTokenTypeExactAmountIn {
    /// Amount of the one token to deposit.
    pub source_token_amount: u64,
    /// Least amount of pool tokens to receive in exchange.
    pub minimum_pool_token_amount: u64,
}

/// Payload of `WithdrawSingleTokenTypeExactAmountOut`.
#[derive(Clone, Copy, Debug, PartialEq, Eq, Structural)]
pub struct WithdrawSingleTokenTypeExactAmountOut {
    /// Amount of token A or B to receive.
    pub destination_token_amount: u64,
    /// Most pool tokens to burn for it.
    pub maximum_pool_token_amount: u64,
}

/// The operations of the pool program. The position of a variant is its tag byte.
#[derive(Clone, Copy, Debug, PartialEq, Eq, Structural)]
pub enum AmmInstruction {
    /// Tag 0: set up a new pool.
    Initialize(InitializeInstruction),
    /// Tag 1: trade one token of the pool for the other.
    Swap(SwapInstruction),
    /// Tag 2: deposit both tokens at the current ratio for pool tokens.
    DepositAllTokenTypes(DepositInstruction),
    /// Tag 3: burn pool tokens for both tokens at the current ratio.
    WithdrawAllTokenTypes(WithdrawInstruction),
    /// Tag 4: deposit one token, as if swapping half of it and depositing both.
    DepositSingleTokenTypeExactAmountIn(DepositSingleTokenTypeExactAmountIn),
    /// Tag 5: withdraw an exact amount of one token for pool tokens.
    WithdrawSingleTokenTypeExactAmountOut(WithdrawSingleTokenTypeExactAmountOut),
}

impl AmmInstruction {
    /// The tag byte of the variant.
    pub open spec fn spec_tag(self) -> u8 {
        match self {
            AmmInstruction::Initialize(_) => 0,
            AmmInstruction::Swap(_) => 1,
            AmmInstruction::DepositAllTokenTypes(_) => 2,
            AmmInstruction::WithdrawAllTokenTypes(_) => 3,
            AmmInstruction::DepositSingleTokenTypeExactAmountIn(_) => 4,
            AmmInstruction::WithdrawSingleTokenTypeExactAmountOut(_) => 5,
        }
    }

    /// The length of the canonical payload of the variant, tag included.
    pub open spec fn spec_packed_len(self) -> nat {
        match self {
            AmmInstruction::Initialize(_) => 2,
            AmmInstruction::Swap(_) => 17,
            AmmInstruction::DepositAllTokenTypes(_) => 25,
            AmmInstruction::WithdrawAllTokenTypes(_) => 25,
            AmmInstruction::DepositSingleTokenTypeExactAmountIn(_) => 17,
            AmmInstruction::WithdrawSingleTokenTypeExactAmountOut(_) => 17,
        }
    }

    /// The canonical payload: the tag, then each field in declared order.
    pub open spec fn spec_pack(self) -> Seq<u8> {
        match self {
            AmmInstruction::Initialize(i) => seq![0u8, i.nonce],
            AmmInstruction::Swap(s) => seq![1u8] + spec_u64_to_le_bytes(s.amount_in)
                + spec_u64_to_le_bytes(s.minimum_amount_out),
            AmmInstruction::DepositAllTokenTypes(d) => seq![2u8] + spec_u64_to_le_bytes(
                d.pool_token_amount,
            ) + spec_u64_to_le_bytes(d.maximum_token_a_amount) + spec_u64_to_le_bytes(
                d.maximum_token_b_amount,
            ),
            AmmInstruction::WithdrawAllTokenTypes(w) => seq![3u8] + spec_u64_to_le_bytes(
                w.pool_token_amount,
            ) + spec_u64_to_le_bytes(w.minimum_token_a_amount) + spec_u64_to_le_bytes(
                w.minimum_token_b_amount,
            ),
            AmmInstruction::DepositSingleTokenTypeExactAmountIn(d) => seq![4u8]
                + spec_u64_to_le_bytes(d.source_token_amount) + spec_u64_to_le_bytes(
                d.minimum_pool_token_amount,
            ),
            AmmInstruction::WithdrawSingleTokenTypeExactAmountOut(w) => seq![5u8]
                + spec_u64_to_le_bytes(w.destination_token_amount) + spec_u64_to_le_bytes(
                w.maximum_pool_token_amount,
            ),
        }
    }

    /// What a payload decodes to.
    ///
    /// An empty payload has no tag. Tag 0 takes exactly one more byte. Tags 1,
    /// 4 and 5 take two integers and tags 2 and 3 take three, at offsets 1, 9
    /// and 17; a payload too short for them is truncated, one that is longer
    /// is accepted. Every other tag is unknown.
    pub open spec fn spec_unpack(input: Seq<u8>) -> Result<AmmInstruction, AmmError> {
        if input.len() == 0 {
            Err(AmmError::MissingDiscriminant)
        } else if input[0] == 0 {
            if input.len() == 2 {
                Ok(AmmInstruction::Initialize(InitializeInstruction { nonce: input[1] }))
            } else {
                Err(AmmError::MalformedPayload)
            }
        } else if input[0] > 5 {
            Err(AmmError::UnknownDiscriminant)
        } else if input[0] == 2 || input[0] == 3 {
            if input.len() < 25 {
                Err(AmmError::TruncatedInput)
            } else if input[0] == 2 {
                Ok(
                    AmmInstruction::DepositAllTokenTypes(
                        DepositInstruction {
                            pool_token_amount: spec_u64_at(input, 1),
                            maximum_token_a_amount: spec_u64_at(input, 9),
                            maximum_token_b_amount: spec_u64_at(input, 17),
                        },
                    ),
                )
            } else {
                Ok(
                    AmmInstruction::WithdrawAllTokenTypes(
                        WithdrawInstruction {
                            pool_token_amount: spec_u64_at(input, 1),
                            minimum_token_a_amount: spec_u64_at(input, 9),
                            minimum_token_b_amount: spec_u64_at(input, 17),
                        },
                    ),
                )
            }
        } else if input.len() < 17 {
            Err(AmmError::TruncatedInput)
        } else if input[0] == 1 {
            Ok(
                AmmInstruction::Swap(
                    SwapInstruction {
                        amount_in: spec_u64_at(input, 1),
                        minimum_amount_out: spec_u64_at(input, 9),
                    },
                ),
            )
        } else if input[0] == 4 {
            Ok(
                AmmInstruction::DepositSingleTokenTypeExactAmountIn(
                    DepositSingleTokenTypeExactAmountIn {
                        source_token_amount: spec_u64_at(input, 1),
                        minimum_pool_token_amount: spec_u64_at(input, 9),
                    },
                ),
            )
        } else {
            Ok(
                AmmInstruction::WithdrawSingleTokenTypeExactAmountOut(
                    WithdrawSingleTokenTypeExactAmountOut {
                        destination_token_amount: spec_u64_at(input, 1),
                        maximum_pool_token_amount: spec_u64_at(input, 9),
                    },
                ),
            )
        }
    }

    /// Decodes a payload into an instruction.
    pub fn unpack(input: &[u8]) -> (r: Result<AmmInstruction, AmmError>)
        ensures
            r == Self::spec_unpack(input@),
    {
        if input.len() == 0 {
            return Err(AmmError::MissingDiscriminant);
        }
        let tag = input[0];
        let rest = slice_subrange(input, 1, input.len());
        match tag {
            0 => {
                if rest.len() == 1 {
                    Ok(AmmInstruction::Initialize(InitializeInstruction { nonce: rest[0] }))
                } else {
                    Err(AmmError::MalformedPayload)
                }
            },
            1 => {
                match Self::unpack_pair(rest) {
                    Ok((amount_in, minimum_amount_out)) => {
                        proof {
                            lemma_fields_at(input@, 2);
                        }
                        Ok(AmmInstruction::Swap(SwapInstruction { amount_in, minimum_amount_out }))
                    },
                    Err(e) => Err(e),
                }
            },
            2 => {
                match Self::unpack_triple(rest) {
                    Ok((pool_token_amount, maximum_token_a_amount, maximum_token_b_amount)) => {
                        proof {
                            lemma_fields_at(input@, 3);
                        }
                        Ok(
                            AmmInstruction::DepositAllTokenTypes(
                                DepositInstruction {
                                    pool_token_amount,
                                    maximum_token_a_amount,
                                    maximum_token_b_amount,
                                },
                            ),
                        )
                    },
                    Err(e) => Err(e),
                }
            },
            3 => {
                match Self::unpack_triple(rest) {
                    Ok((pool_token_amount, minimum_token_a_amount, minimum_token_b_amount)) => {
                        proof {
                            lemma_fields_at(input@, 3);
                        }
                        Ok(
                            AmmInstruction::WithdrawAllTokenTypes(
                                WithdrawInstruction {
                                    pool_token_amount,
                                    minimum_token_a_amount,
                                    minimum_token_b_amount,
                                },
                            ),
                        )
                    },
                    Err(e) => Err(e),
                }
            },
            4 => {
                match Self::unpack_pair(rest) {
                    Ok((source_token_amount, minimum_pool_token_amount)) => {
                        proof {
                            lemma_fields_at(input@, 2);
                        }
                        Ok(
                            AmmInstruction::DepositSingleTokenTypeExactAmountIn(
                                DepositSingleTokenTypeExactAmountIn {
                                    source_token_amount,
                                    minimum_pool_token_amount,
                                },
                            ),
                        )
                    },
                    Err(e) => Err(e),
                }
            },
            5 => {
                match Self::unpack_pair(rest) {
                    Ok((destination_token_amount, maximum_pool_token_amount)) => {
                        proof {
                            lemma_fields_at(input@, 2);
                        }
                        Ok(
                            AmmInstruction::WithdrawSingleTokenTypeExactAmountOut(
                                WithdrawSingleTokenTypeExactAmountOut {
                                    destination_token_amount,
                                    maximum_pool_token_amount,
                                },
                            ),
                        )
                    },
                    Err(e) => Err(e),
                }
            },
            _ => Err(AmmError::UnknownDiscriminant),
        }
    }

    /// Reads one little-endian `u64` off the front of `input` and returns it
    /// with the unconsumed remainder.
    pub fn unpack_u64(input: &[u8]) -> (r: Result<(u64, &[u8]), AmmError>)
        ensures
            match r {
                Ok((value, rest)) => spec_read_u64(input@) == Ok::<_, AmmError>((value, rest@)),
                Err(e) => spec_read_u64(input@) == Err::<(u64, Seq<u8>), _>(e),
            },
    {
        read_u64(input)
    }

    /// Reads two consecutive integers off the front of `input`.
    fn unpack_pair(input: &[u8]) -> (r: Result<(u64, u64), AmmError>)
        ensures
            r == if input@.len() >= 16 {
                Ok::<_, AmmError>((spec_u64_at(input@, 0), spec_u64_at(input@, 8)))
            } else {
                Err(AmmError::TruncatedInput)
            },
    {
        match Self::unpack_u64(input) {
            Ok((first, rest)) => match Self::unpack_u64(rest) {
                Ok((second, _rest)) => {
                    assert(rest@.subrange(0, 8) =~= input@.subrange(8, 16));
                    Ok((first, second))
                },
                Err(e) => Err(e),
            },
            Err(e) => Err(e),
        }
    }

    /// Reads three consecutive integers off the front of `input`.
    fn unpack_triple(input: &[u8]) -> (r: Result<(u64, u64, u64), AmmError>)
        ensures
            r == if input@.len() >= 24 {
                Ok::<_, AmmError>(
                    (spec_u64_at(input@, 0), spec_u64_at(input@, 8), spec_u64_at(input@, 16)),
                )
            } else {
                Err(AmmError::TruncatedInput)
            },
    {
        match Self::unpack_u64(input) {
            Ok((first, rest)) => match Self::unpack_pair(rest) {
                Ok((second, third)) => {
                    assert(rest@.subrange(0, 8) =~= input@.subrange(8, 16));
                    assert(rest@.subrange(8, 16) =~= input@.subrange(16, 24));
                    Ok((first, second, third))
                },
                Err(e) => Err(e),
            },
            Err(e) => Err(e),
        }
    }

    /// Encodes the instruction as its canonical payload.
    pub fn pack(&self) -> (buf: Vec<u8>)
        ensures
            buf@ == self.spec_pack(),
            buf@.len() == self.spec_packed_len(),
    {
        proof {
            lemma_auto_spec_u64_to_from_le_bytes();
        }
        let mut buf: Vec<u8> = Vec::new();
        match self {
            AmmInstruction::Initialize(i) => {
                buf.push(0);
                buf.push(i.nonce);
            },
            AmmInstruction::Swap(s) => {
                buf.push(1);
                write_u64(&mut buf, s.amount_in);
                write_u64(&mut buf, s.minimum_amount_out);
            },
            AmmInstruction::DepositAllTokenTypes(d) => {
                buf.push(2);
                write_u64(&mut buf, d.pool_token_amount);
                write_u64(&mut buf, d.maximum_token_a_amount);
                write_u64(&mut buf, d.maximum_token_b_amount);
            },
            AmmInstruction::WithdrawAllTokenTypes(w) => {
                buf.push(3);
                write_u64(&mut buf, w.pool_token_amount);
                write_u64(&mut buf, w.minimum_token_a_amount);
                write_u64(&mut buf, w.minimum_token_b_amount);
            },
            AmmInstruction::DepositSingleTokenTypeExactAmountIn(d) => {
                buf.push(4);
                write_u64(&mut buf, d.source_token_amount);
                write_u64(&mut buf, d.minimum_pool_token_amount);
            },
            AmmInstruction::WithdrawSingleTokenTypeExactAmountOut(w) => {
                buf.push(5);
                write_u64(&mut buf, w.destination_token_amount);
                write_u64(&mut buf, w.maximum_pool_token_amount);
            },
        }
        assert(buf@ =~= self.spec_pack());
        buf
    }
}

impl AmmInstruction {
    /// Decoding the canonical payload of an instruction gives that instruction back.
    pub proof fn lemma_unpack_pack(self)
        ensures
            Self::spec_unpack(self.spec_pack()) == Ok::<_, AmmError>(self),
            self.spec_pack().len() == self.spec_packed_len(),
            self.spec_pack()[0] == self.spec_tag(),
    {
        self.lemma_unpack_pack_with_trailing(Seq::empty());
        assert(self.spec_pack() + Seq::<u8>::empty() =~= self.spec_pack());
    }

    /// Bytes after the last field are ignored for every variant but `Initialize`:
    /// the canonical payload followed by anything decodes to the same instruction.
    /// For `Initialize` this holds only when nothing follows.
    pub proof fn lemma_unpack_pack_with_trailing(self, trailing: Seq<u8>)
        requires
            self is Initialize ==> trailing.len() == 0,
        ensures
            Self::spec_unpack(self.spec_pack() + trailing) == Ok::<_, AmmError>(self),
            self.spec_pack().len() == self.spec_packed_len(),
            self.spec_pack()[0] == self.spec_tag(),
    {
        lemma_auto_spec_u64_to_from_le_bytes();
        let bytes = self.spec_pack() + trailing;
        match self {
            AmmInstruction::Initialize(i) => {
                assert(bytes =~= seq![0u8, i.nonce]);
            },
            AmmInstruction::Swap(s) => {
                lemma_two_fields(1, s.amount_in, s.minimum_amount_out, trailing);
            },
            AmmInstruction::DepositAllTokenTypes(d) => {
                lemma_three_fields(
                    2,
                    d.pool_token_amount,
                    d.maximum_token_a_amount,
                    d.maximum_token_b_amount,
                    trailing,
                );
            },
            AmmInstruction::WithdrawAllTokenTypes(w) => {
                lemma_three_fields(
                    3,
                    w.pool_token_amount,
                    w.minimum_token_a_amount,
                    w.minimum_token_b_amount,
                    trailing,
                );
            },
            AmmInstruction::DepositSingleTokenTypeExactAmountIn(d) => {
                lemma_two_fields(4, d.source_token_amount, d.minimum_pool_token_amount, trailing);
            },
            AmmInstruction::WithdrawSingleTokenTypeExactAmountOut(w) => {
                lemma_two_fields(
                    5,
                    w.destination_token_amount,
                    w.maximum_pool_token_amount,
                    trailing,
                );
            },
        }
    }

    /// No two instructions share a canonical payload.
    pub proof fn lemma_pack_injective(self, other: AmmInstruction)
        requires
            self.spec_pack() == other.spec_pack(),
        ensures
            self == other,
    {
        self.lemma_unpack_pack();
        other.lemma_unpack_pack();
    }

    /// Every proper prefix of a canonical payload is rejected: the empty one for
    /// want of a tag, a lone `Initialize` tag as malformed, and any other as
    /// truncated.
    pub proof fn lemma_truncated_payload_rejected(self, n: int)
        requires
            0 <= n < self.spec_packed_len(),
        ensures
            Self::spec_unpack(self.spec_pack().subrange(0, n)) is Err,
            Self::spec_unpack(self.spec_pack().subrange(0, n)) == Err::<AmmInstruction, _>(
                if n == 0 {
                    AmmError::MissingDiscriminant
                } else if self is Initialize {
                    AmmError::MalformedPayload
                } else {
                    AmmError::TruncatedInput
                },
            ),
    {
        self.lemma_unpack_pack();
        let prefix = self.spec_pack().subrange(0, n);
        if n > 0 {
            assert(prefix[0] == self.spec_pack()[0]);
        }
    }

    /// A payload whose tag is 6 or more is rejected as unknown, whatever follows.
    pub proof fn lemma_unknown_discriminant(input: Seq<u8>)
        requires
            input.len() > 0,
            input[0] >= 6,
        ensures
            Self::spec_unpack(input) == Err::<AmmInstruction, _>(AmmError::UnknownDiscriminant),
    {
    }

    /// A payload with tag 0 decodes only at length two: the tag and the nonce.
    /// A missing nonce and any byte after it are both malformed.
    pub proof fn lemma_initialize_exact_length(input: Seq<u8>)
        requires
            input.len() > 0,
            input[0] == 0,
        ensures
            input.len() == 2 ==> Self::spec_unpack(input) == Ok::<_, AmmError>(
                AmmInstruction::Initialize(InitializeInstruction { nonce: input[1] }),
            ),
            input.len() != 2 ==> Self::spec_unpack(input) == Err::<AmmInstruction, _>(
                AmmError::MalformedPayload,
            ),
    {
    }

    /// Whatever decodes starts with the canonical payload of what it decodes
    /// to: decoding reads those bytes and no others.
    pub proof fn lemma_unpack_is_prefix_of_input(input: Seq<u8>)
        requires
            Self::spec_unpack(input) is Ok,
        ensures
            ({
                let x = Self::spec_unpack(input)->Ok_0;
                &&& x.spec_packed_len() <= input.len()
                &&& input.subrange(0, x.spec_packed_len() as int) == x.spec_pack()
            }),
    {
        lemma_auto_spec_u64_to_from_le_bytes();
        let x = Self::spec_unpack(input)->Ok_0;
        let head = input.subrange(0, x.spec_packed_len() as int);
        if input[0] == 0 {
            assert(head =~= x.spec_pack());
        } else if input[0] == 2 || input[0] == 3 {
            lemma_field_bytes(input, 1);
            lemma_field_bytes(input, 9);
            lemma_field_bytes(input, 17);
            assert(head =~= seq![input[0]] + input.subrange(1, 9) + input.subrange(9, 17)
                + input.subrange(17, 25));
        } else {
            lemma_field_bytes(input, 1);
            lemma_field_bytes(input, 9);
            assert(head =~= seq![input[0]] + input.subrange(1, 9) + input.subrange(9, 17));
        }
    }
}

/// Builds the call that sets up a new pool.
///
/// Accounts, in order: the new pool state (writable, signer), the pool
/// authority, the program configuration, the pool identifier, the token A and
/// token B reserve accounts, the pool mint (writable), the account that
/// receives the initial pool tokens (writable), the external market
/// (writable), the token program, the market program.
pub fn initialize(
    program_id: &Pubkey,
    token_program_id: &Pubkey,
    swap_pubkey: &Pubkey,
    authority_pubkey: &Pubkey,
    state_pubkey: &Pubkey,
    amm_id: &Pubkey,
    token_a_pubkey: &Pubkey,
    token_b_pubkey: &Pubkey,
    pool_pubkey: &Pubkey,
    destination_pubkey: &Pubkey,
    market_pubkey: &Pubkey,
    dex_pubkey: &Pubkey,
    nonce: u8,
) -> (r: Result<Instruction, AmmError>)
    ensures
        r is Ok,
        r->Ok_0.program_id == *program_id,
        r->Ok_0.data@ == AmmInstruction::Initialize(InitializeInstruction { nonce }).spec_pack(),
        r->Ok_0.accounts@ == seq![
            AccountMeta::writable(*swap_pubkey, true),
            AccountMeta::readonly(*authority_pubkey, false),
            AccountMeta::readonly(*state_pubkey, false),
            AccountMeta::readonly(*amm_id, false),
            AccountMeta::readonly(*token_a_pubkey, false),
            AccountMeta::readonly(*token_b_pubkey, false),
            AccountMeta::writable(*pool_pubkey, false),
            AccountMeta::writable(*destination_pubkey, false),
            AccountMeta::writable(*market_pubkey, false),
            AccountMeta::readonly(*token_program_id, false),
            AccountMeta::readonly(*dex_pubkey, false),
        ],
{
    let init_data = AmmInstruction::Initialize(InitializeInstruction { nonce });
    let data = init_data.pack();
    let accounts = vec![
        AccountMeta::new(*swap_pubkey, true),
        AccountMeta::new_readonly(*authority_pubkey, false),
        AccountMeta::new_readonly(*state_pubkey, false),
        AccountMeta::new_readonly(*amm_id, false),
        AccountMeta::new_readonly(*token_a_pubkey, false),
        AccountMeta::new_readonly(*token_b_pubkey, false),
        AccountMeta::new(*pool_pubkey, false),
        AccountMeta::new(*destination_pubkey, false),
        AccountMeta::new(*market_pubkey, false),
        AccountMeta::new_readonly(*token_program_id, false),
        AccountMeta::new_readonly(*dex_pubkey, false),
    ];
    Ok(Instruction { program_id: *program_id, accounts, data })
}

/// Builds the call that deposits both tokens at the current ratio.
///
/// Accounts, in order: the pool state, the pool authority, the user transfer
/// authority (signer), the program configuration, the user's token A and
/// token B accounts (writable), the pool's token A and token B reserves
/// (writable), the pool mint (writable), the account that receives the pool
/// tokens (writable), the token program.
pub fn deposit_all_token_types(
    program_id: &Pubkey,
    token_program_id: &Pubkey,
    swap_pubkey: &Pubkey,
    authority_pubkey: &Pubkey,
    user_transfer_authority_pubkey: &Pubkey,
    state_pubkey: &Pubkey,
    deposit_token_a_pubkey: &Pubkey,
    deposit_token_b_pubkey: &Pubkey,
    swap_token_a_pubkey: &Pubkey,
    swap_token_b_pubkey: &Pubkey,
    pool_mint_pubkey: &Pubkey,
    destination_pubkey: &Pubkey,
    instruction: DepositInstruction,
) -> (r: Result<Instruction, AmmError>)
    ensures
        r is Ok,
        r->Ok_0.program_id == *program_id,
        r->Ok_0.data@ == AmmInstruction::DepositAllTokenTypes(instruction).spec_pack(),
        r->Ok_0.accounts@ == seq![
            AccountMeta::readonly(*swap_pubkey, false),
            AccountMeta::readonly(*authority_pubkey, false),
            AccountMeta::readonly(*user_transfer_authority_pubkey, true),
            AccountMeta::readonly(*state_pubkey, false),
            AccountMeta::writable(*deposit_token_a_pubkey, false),
            AccountMeta::writable(*deposit_token_b_pubkey, false),
            AccountMeta::writable(*swap_token_a_pubkey, false),
            AccountMeta::writable(*swap_token_b_pubkey, false),
            AccountMeta::writable(*pool_mint_pubkey, false),
            AccountMeta::writable(*destination_pubkey, false),
            AccountMeta::readonly(*token_program_id, false),
        ],
{
    let data = AmmInstruction::DepositAllTokenTypes(instruction).pack();
    let accounts = vec![
        AccountMeta::new_readonly(*swap_pubkey, false),
        AccountMeta::new_readonly(*authority_pubkey, false),
        AccountMeta::new_readonly(*user_transfer_authority_pubkey, true),
        AccountMeta::new_readonly(*state_pubkey, false),
        AccountMeta::new(*deposit_token_a_pubkey, false),
        AccountMeta::new(*deposit_token_b_pubkey, false),
        AccountMeta::new(*swap_token_a_pubkey, false),
        AccountMeta::new(*swap_token_b_pubkey, false),
        AccountMeta::new(*pool_mint_pubkey, false),
        AccountMeta::new(*destination_pubkey, false),
        AccountMeta::new_readonly(*token_program_id, false),
    ];
    Ok(Instruction { program_id: *program_id, accounts, data })
}

/// Builds the call that burns pool tokens for both tokens at the current ratio.
///
/// Accounts, in order: the pool state, the pool authority, the user transfer
/// authority (signer), the program configuration, the pool mint (writable),
/// the user's pool token account to burn from (writable), the pool's token A
/// and token B reserves (writable), the user's token A and token B accounts
/// to credit (writable), the token program.
pub fn withdraw_all_token_types(
    program_id: &Pubkey,
    token_program_id: &Pubkey,
    swap_pubkey: &Pubkey,
    authority_pubkey: &Pubkey,
    user_transfer_authority_pubkey: &Pubkey,
    state_pubkey: &Pubkey,
    pool_mint_pubkey: &Pubkey,
    source_pubkey: &Pubkey,
    swap_token_a_pubkey: &Pubkey,
    swap_token_b_pubkey: &Pubkey,
    destination_token_a_pubkey: &Pubkey,
    destination_token_b_pubkey: &Pubkey,
    instruction: WithdrawInstruction,
) -> (r: Result<Instruction, AmmError>)
    ensures
        r is Ok,
        r->Ok_0.program_id == *program_id,
        r->Ok_0.data@ == AmmInstruction::WithdrawAllTokenTypes(instruction).spec_pack(),
        r->Ok_0.accounts@ == seq![
            AccountMeta::readonly(*swap_pubkey, false),
            AccountMeta::readonly(*authority_pubkey, false),
            AccountMeta::readonly(*user_transfer_authority_pubkey, true),
            AccountMeta::readonly(*state_pubkey, false),
            AccountMeta::writable(*pool_mint_pubkey, false),
            AccountMeta::writable(*source_pubkey, false),
            AccountMeta::writable(*swap_token_a_pubkey, false),
            AccountMeta::writable(*swap_token_b_pubkey, false),
            AccountMeta::writable(*destination_token_a_pubkey, false),
            AccountMeta::writable(*destination_token_b_pubkey, false),
            AccountMeta::readonly(*token_program_id, false),
        ],
{
    let data = AmmInstruction::WithdrawAllTokenTypes(instruction).pack();
    let accounts = vec![
        AccountMeta::new_readonly(*swap_pubkey, false),
        AccountMeta::new_readonly(*authority_pubkey, false),
        AccountMeta::new_readonly(*user_transfer_authority_pubkey, true),
        AccountMeta::new_readonly(*state_pubkey, false),
        AccountMeta::new(*pool_mint_pubkey, false),
        AccountMeta::new(*source_pubkey, false),
        AccountMeta::new(*swap_token_a_pubkey, false),
        AccountMeta::new(*swap_token_b_pubkey, false),
        AccountMeta::new(*destination_token_a_pubkey, false),
        AccountMeta::new(*destination_token_b_pubkey, false),
        AccountMeta::new_readonly(*token_program_id, false),
    ];
    Ok(Instruction { program_id: *program_id, accounts, data })
}

/// Builds the call that deposits an exact amount of one token.
///
/// Accounts, in order: the pool state, the pool authority, the user transfer
/// authority (signer), the user's account of either token A or token B
/// (writable), the pool's token A and token B reserves (writable), the pool
/// mint (writable), the account that receives the pool tokens (writable), the
/// token program.
pub fn deposit_single_token_type_exact_amount_in(
    program_id: &Pubkey,
    token_program_id: &Pubkey,
    swap_pubkey: &Pubkey,
    authority_pubkey: &Pubkey,
    user_transfer_authority_pubkey: &Pubkey,
    source_token_pubkey: &Pubkey,
    swap_token_a_pubkey: &Pubkey,
    swap_token_b_pubkey: &Pubkey,
    pool_mint_pubkey: &Pubkey,
    destination_pubkey: &Pubkey,
    instruction: DepositSingleTokenTypeExactAmountIn,
) -> (r: Result<Instruction, AmmError>)
    ensures
        r is Ok,
        r->Ok_0.program_id == *program_id,
        r->Ok_0.data@ == AmmInstruction::DepositSingleTokenTypeExactAmountIn(
            instruction,
        ).spec_pack(),
        r->Ok_0.accounts@ == seq![
            AccountMeta::readonly(*swap_pubkey, false),
            AccountMeta::readonly(*authority_pubkey, false),
            AccountMeta::readonly(*user_transfer_authority_pubkey, true),
            AccountMeta::writable(*source_token_pubkey, false),
            AccountMeta::writable(*swap_token_a_pubkey, false),
            AccountMeta::writable(*swap_token_b_pubkey, false),
            AccountMeta::writable(*pool_mint_pubkey, false),
            AccountMeta::writable(*destination_pubkey, false),
            AccountMeta::readonly(*token_program_id, false),
        ],
{
    let data = AmmInstruction::DepositSingleTokenTypeExactAmountIn(instruction).pack();
    let accounts = vec![
        AccountMeta::new_readonly(*swap_pubkey, false),
        AccountMeta::new_readonly(*authority_pubkey, false),
        AccountMeta::new_readonly(*user_transfer_authority_pubkey, true),
        AccountMeta::new(*source_token_pubkey, false),
        AccountMeta::new(*swap_token_a_pubkey, false),
        AccountMeta::new(*swap_token_b_pubkey, false),
        AccountMeta::new(*pool_mint_pubkey, false),
        AccountMeta::new(*destination_pubkey, false),
        AccountMeta::new_readonly(*token_program_id, false),
    ];
    Ok(Instruction { program_id: *program_id, accounts, data })
}

/// Builds the call that withdraws an exact amount of one token.
///
/// Accounts, in order: the pool state, the pool authority, the user transfer
/// authority (signer), the pool mint (writable), the user's pool token
/// account to burn from (writable), the pool's token A and token B reserves
/// (writable), the user's account of either token A or token B to credit
/// (writable), the token program.
pub fn withdraw_single_token_type_exact_amount_out(
    program_id: &Pubkey,
    token_program_id: &Pubkey,
    swap_pubkey: &Pubkey,
    authority_pubkey: &Pubkey,
    user_transfer_authority_pubkey: &Pubkey,
    pool_mint_pubkey: &Pubkey,
    pool_token_source_pubkey: &Pubkey,
    swap_token_a_pubkey: &Pubkey,
    swap_token_b_pubkey: &Pubkey,
    destination_pubkey: &Pubkey,
    instruction: WithdrawSingleTokenTypeExactAmountOut,
) -> (r: Result<Instruction, AmmError>)
    ensures
        r is Ok,
        r->Ok_0.program_id == *program_id,
        r->Ok_0.data@ == AmmInstruction::WithdrawSingleTokenTypeExactAmountOut(
            instruction,
        ).spec_pack(),
        r->Ok_0.accounts@ == seq![
            AccountMeta::readonly(*swap_pubkey, false),
            AccountMeta::readonly(*authority_pubkey, false),
            AccountMeta::readonly(*user_transfer_authority_pubkey, true),
            AccountMeta::writable(*pool_mint_pubkey, false),
            AccountMeta::writable(*pool_token_source_pubkey, false),
            AccountMeta::writable(*swap_token_a_pubkey, false),
            AccountMeta::writable(*swap_token_b_pubkey, false),
            AccountMeta::writable(*destination_pubkey, false),
            AccountMeta::readonly(*token_program_id, false),
        ],
{
    let data = AmmInstruction::WithdrawSingleTokenTypeExactAmountOut(instruction).pack();
    let accounts = vec![
        AccountMeta::new_readonly(*swap_pubkey, false),
        AccountMeta::new_readonly(*authority_pubkey, false),
        AccountMeta::new_readonly(*user_transfer_authority_pubkey, true),
        AccountMeta::new(*pool_mint_pubkey, false),
        AccountMeta::new(*pool_token_source_pubkey, false),
        AccountMeta::new(*swap_token_a_pubkey, false),
        AccountMeta::new(*swap_token_b_pubkey, false),
        AccountMeta::new(*destination_pubkey, false),
        AccountMeta::new_readonly(*token_program_id, false),
    ];
    Ok(Instruction { program_id: *program_id, accounts, data })
}

/// Builds the call that trades one token of the pool for the other.
///
/// Accounts, in order: the pool state, the pool authority, the user transfer
/// authority (signer), the program configuration (signer), the user's source
/// account (writable), the pool's reserve of the source token (writable), the
/// pool's reserve of the destination token (writable), the user's destination
/// account (writable), the pool mint (writable), the fee account (writable),
/// the token program.
pub fn swap(
    program_id: &Pubkey,
    token_program_id: &Pubkey,
    swap_pubkey: &Pubkey,
    authority_pubkey: &Pubkey,
    user_transfer_authority_pubkey: &Pubkey,
    state_pubkey: &Pubkey,
    source_pubkey: &Pubkey,
    swap_source_pubkey: &Pubkey,
    swap_destination_pubkey: &Pubkey,
    destination_pubkey: &Pubkey,
    pool_mint_pubkey: &Pubkey,
    fee_account_pubkey: &Pubkey,
    instruction: SwapInstruction,
) -> (r: Result<Instruction, AmmError>)
    ensures
        r is Ok,
        r->Ok_0.program_id == *program_id,
        r->Ok_0.data@ == AmmInstruction::Swap(instruction).spec_pack(),
        r->Ok_0.accounts@ == seq![
            AccountMeta::readonly(*swap_pubkey, false),
            AccountMeta::readonly(*authority_pubkey, false),
            AccountMeta::readonly(*user_transfer_authority_pubkey, true),
            AccountMeta::readonly(*state_pubkey, true),
            AccountMeta::writable(*source_pubkey, false),
            AccountMeta::writable(*swap_source_pubkey, false),
            AccountMeta::writable(*swap_destination_pubkey, false),
            AccountMeta::writable(*destination_pubkey, false),
            AccountMeta::writable(*pool_mint_pubkey, false),
            AccountMeta::writable(*fee_account_pubkey, false),
            AccountMeta::readonly(*token_program_id, false),
        ],
{
    let data = AmmInstruction::Swap(instruction).pack();
    let accounts = vec![
        AccountMeta::new_readonly(*swap_pubkey, false),
        AccountMeta::new_readonly(*authority_pubkey, false),
        AccountMeta::new_readonly(*user_transfer_authority_pubkey, true),
        AccountMeta::new_readonly(*state_pubkey, true),
        AccountMeta::new(*source_pubkey, false),
        AccountMeta::new(*swap_source_pubkey, false),
        AccountMeta::new(*swap_destination_pubkey, false),
        AccountMeta::new(*destination_pubkey, false),
        AccountMeta::new(*pool_mint_pubkey, false),
        AccountMeta::new(*fee_account_pubkey, false),
        AccountMeta::new_readonly(*token_program_id, false),
    ];
    Ok(Instruction { program_id: *program_id, accounts, data })
}

/// The 8 bytes at `offset` are the little-endian encoding of the integer read there.
proof fn lemma_field_bytes(input: Seq<u8>, offset: int)
    requires
        0 <= offset,
        offset + 8 <= input.len(),
    ensures
        spec_u64_to_le_bytes(spec_u64_at(input, offset)) == input.subrange(offset, offset + 8),
{
    lemma_auto_spec_u64_to_from_le_bytes();
    let field = input.subrange(offset, offset + 8);
    assert(spec_u64_to_le_bytes(spec_u64_from_le_bytes(field)) == field);
}

/// A tag, two encoded integers and anything after them: the integers are read
/// back at offsets 1 and 9.
proof fn lemma_two_fields(tag: u8, a: u64, b: u64, trailing: Seq<u8>)
    ensures
        ({
            let bytes = seq![tag] + spec_u64_to_le_bytes(a) + spec_u64_to_le_bytes(b) + trailing;
            &&& bytes.len() == 17 + trailing.len()
            &&& bytes[0] == tag
            &&& spec_u64_at(bytes, 1) == a
            &&& spec_u64_at(bytes, 9) == b
        }),
{
    lemma_auto_spec_u64_to_from_le_bytes();
    let bytes = seq![tag] + spec_u64_to_le_bytes(a) + spec_u64_to_le_bytes(b) + trailing;
    assert(bytes.subrange(1, 9) =~= spec_u64_to_le_bytes(a));
    assert(bytes.subrange(9, 17) =~= spec_u64_to_le_bytes(b));
}

/// A tag, three encoded integers and anything after them: the integers are
/// read back at offsets 1, 9 and 17.
proof fn lemma_three_fields(tag: u8, a: u64, b: u64, c: u64, trailing: Seq<u8>)
    ensures
        ({
            let bytes = seq![tag] + spec_u64_to_le_bytes(a) + spec_u64_to_le_bytes(b)
                + spec_u64_to_le_bytes(c) + trailing;
            &&& bytes.len() == 25 + trailing.len()
            &&& bytes[0] == tag
            &&& spec_u64_at(bytes, 1) == a
            &&& spec_u64_at(bytes, 9) == b
            &&& spec_u64_at(bytes, 17) == c
        }),
{
    lemma_auto_spec_u64_to_from_le_bytes();
    let bytes = seq![tag] + spec_u64_to_le_bytes(a) + spec_u64_to_le_bytes(b)
        + spec_u64_to_le_bytes(c) + trailing;
    assert(bytes.subrange(1, 9) =~= spec_u64_to_le_bytes(a));
    assert(bytes.subrange(9, 17) =~= spec_u64_to_le_bytes(b));
    assert(bytes.subrange(17, 25) =~= spec_u64_to_le_bytes(c));
}

/// The first `count` integers of the payload after the tag sit at offsets 1, 9
/// and 17 of the whole payload.
proof fn lemma_fields_at(input: Seq<u8>, count: int)
    requires
        2 <= count <= 3,
        input.len() >= 1 + 8 * count,
    ensures
        spec_u64_at(input.subrange(1, input.len() as int), 0) == spec_u64_at(input, 1),
        spec_u64_at(input.subrange(1, input.len() as int), 8) == spec_u64_at(input, 9),
        count == 3 ==> spec_u64_at(input.subrange(1, input.len() as int), 16) == spec_u64_at(
            input,
            17,
        ),
{
    let rest = input.subrange(1, input.len() as int);
    assert(rest.subrange(0, 8) =~= input.subrange(1, 9));
    assert(rest.subrange(8, 16) =~= input.subrange(9, 17));
    if count == 3 {
        assert(rest.subrange(16, 24) =~= input.subrange(17, 25));
    }
}

} // verus!
