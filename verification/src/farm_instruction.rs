//! Instructions of the farming program, their payloads and the calls that
//! carry them.
//!
//! A payload is the position of the variant as one byte, then the fields in
//! declared order: identifiers as 32 raw bytes, integers little-endian, a
//! single byte as itself.

use crate::codec::{write_identifier, write_u64};
use crate::instruction::{AccountMeta, Instruction};
use crate::pubkey::Pubkey;
use vstd::bytes::{
    lemma_auto_spec_u64_to_from_le_bytes,
    spec_u64_from_le_bytes,
    spec_u64_to_le_bytes,
};
use vstd::prelude::*;

verus! {

/// The operations of the farming program.
#[derive(Clone, Copy, Debug, PartialEq, Eq)]
pub enum FarmInstruction {
    /// Tag 0: writes the program-wide settings.
    SetProgramData {
        /// Who may change the settings from now on.
        super_owner: Pubkey,
        /// Who receives the fees.
        fee_owner: Pubkey,
        /// Who may create farms without paying the farm fee.
        allowed_creator: Pubkey,
        /// The pool program whose pool tokens the farms accept.
        amm_program_id: Pubkey,
        /// Fee for opening a farm.
        farm_fee: u64,
        /// Numerator of the share of each harvest kept as fee.
        harvest_fee_numerator: u64,
        /// Denominator of that share.
        harvest_fee_denominator: u64,
    },
    /// Tag 1: sets up a new farm.
    InitializeFarm {
        /// Bump byte from which the farm's signing address is derived.
        nonce: u8,
        /// When the farm starts paying rewards.
        start_timestamp: u64,
        /// When the farm stops paying rewards.
        end_timestamp: u64,
    },
    /// Tag 2: stakes this many pool tokens; zero only harvests.
    Deposit(u64),
    /// Tag 3: harvests, then unstakes this many pool tokens.
    Withdraw(u64),
    /// Tag 4: adds this many reward tokens to the farm.
    AddReward(u64),
    /// Tag 5: pays this much as the farm fee.
    PayFarmFee(u64),
}

impl FarmInstruction {
    /// The payload: the tag, then each field in declared order.
    pub open spec fn spec_pack(self) -> Seq<u8> {
        match self {
            FarmInstruction::SetProgramData {
                super_owner,
                fee_owner,
                allowed_creator,
                amm_program_id,
                farm_fee,
                harvest_fee_numerator,
                harvest_fee_denominator,
            } => seq![0u8] + super_owner@ + fee_owner@ + allowed_creator@ + amm_program_id@
                + spec_u64_to_le_bytes(farm_fee) + spec_u64_to_le_bytes(harvest_fee_numerator)
                + spec_u64_to_le_bytes(harvest_fee_denominator),
            FarmInstruction::InitializeFarm { nonce, start_timestamp, end_timestamp } => seq![
                1u8,
                nonce,
            ] + spec_u64_to_le_bytes(start_timestamp) + spec_u64_to_le_bytes(end_timestamp),
            FarmInstruction::Deposit(amount) => seq![2u8] + spec_u64_to_le_bytes(amount),
            FarmInstruction::Withdraw(amount) => seq![3u8] + spec_u64_to_le_bytes(amount),
            FarmInstruction::AddReward(amount) => seq![4u8] + spec_u64_to_le_bytes(amount),
            FarmInstruction::PayFarmFee(amount) => seq![5u8] + spec_u64_to_le_bytes(amount),
        }
    }

    /// Encodes the instruction as its payload.
    pub fn pack(&self) -> (buf: Vec<u8>)
        ensures
            buf@ == self.spec_pack(),
            buf@.len() == self.spec_packed_len(),
    {
        proof {
            self.lemma_pack_shape();
        }
        let mut buf: Vec<u8> = Vec::new();
        match self {
            FarmInstruction::SetProgramData {
                super_owner,
                fee_owner,
                allowed_creator,
                amm_program_id,
                farm_fee,
                harvest_fee_numerator,
                harvest_fee_denominator,
            } => {
                buf.push(0);
                write_identifier(&mut buf, super_owner);
                write_identifier(&mut buf, fee_owner);
                write_identifier(&mut buf, allowed_creator);
                write_identifier(&mut buf, amm_program_id);
                write_u64(&mut buf, *farm_fee);
                write_u64(&mut buf, *harvest_fee_numerator);
                write_u64(&mut buf, *harvest_fee_denominator);
            },
            FarmInstruction::InitializeFarm { nonce, start_timestamp, end_timestamp } => {
                buf.push(1);
                buf.push(*nonce);
                write_u64(&mut buf, *start_timestamp);
                write_u64(&mut buf, *end_timestamp);
            },
            FarmInstruction::Deposit(amount) => {
                buf.push(2);
                write_u64(&mut buf, *amount);
            },
            FarmInstruction::Withdraw(amount) => {
                buf.push(3);
                write_u64(&mut buf, *amount);
            },
            FarmInstruction::AddReward(amount) => {
                buf.push(4);
                write_u64(&mut buf, *amount);
            },
            FarmInstruction::PayFarmFee(amount) => {
                buf.push(5);
                write_u64(&mut buf, *amount);
            },
        }
        assert(buf@ =~= self.spec_pack());
        buf
    }

    /// The tag byte of the variant.
    pub open spec fn spec_tag(self) -> u8 {
        match self {
            FarmInstruction::SetProgramData { .. } => 0,
            FarmInstruction::InitializeFarm { .. } => 1,
            FarmInstruction::Deposit(_) => 2,
            FarmInstruction::Withdraw(_) => 3,
            FarmInstruction::AddReward(_) => 4,
            FarmInstruction::PayFarmFee(_) => 5,
        }
    }

    /// The length of the payload of the variant, tag included.
    pub open spec fn spec_packed_len(self) -> nat {
        match self {
            FarmInstruction::SetProgramData { .. } => 153,
            FarmInstruction::InitializeFarm { .. } => 18,
            _ => 9,
        }
    }

    /// A payload starts with the tag of its variant and has the length of its variant.
    pub proof fn lemma_pack_shape(self)
        ensures
            self.spec_pack().len() == self.spec_packed_len(),
            self.spec_pack()[0] == self.spec_tag(),
    {
        lemma_auto_spec_u64_to_from_le_bytes();
    }

    /// No two instructions share a payload.
    pub proof fn lemma_pack_injective(self, other: FarmInstruction)
        requires
            self.spec_pack() == other.spec_pack(),
        ensures
            self == other,
    {
        lemma_auto_spec_u64_to_from_le_bytes();
        self.lemma_pack_shape();
        other.lemma_pack_shape();
        let bytes = self.spec_pack();
        match (self, other) {
            (
                FarmInstruction::SetProgramData {
                    super_owner: a1,
                    fee_owner: a2,
                    allowed_creator: a3,
                    amm_program_id: a4,
                    farm_fee: a5,
                    harvest_fee_numerator: a6,
                    harvest_fee_denominator: a7,
                },
                FarmInstruction::SetProgramData {
                    super_owner: b1,
                    fee_owner: b2,
                    allowed_creator: b3,
                    amm_program_id: b4,
                    farm_fee: b5,
                    harvest_fee_numerator: b6,
                    harvest_fee_denominator: b7,
                },
            ) => {
                assert(a1@ =~= bytes.subrange(1, 33) && b1@ =~= bytes.subrange(1, 33));
                assert(a2@ =~= bytes.subrange(33, 65) && b2@ =~= bytes.subrange(33, 65));
                assert(a3@ =~= bytes.subrange(65, 97) && b3@ =~= bytes.subrange(65, 97));
                assert(a4@ =~= bytes.subrange(97, 129) && b4@ =~= bytes.subrange(97, 129));
                Pubkey::lemma_view_injective(a1, b1);
                Pubkey::lemma_view_injective(a2, b2);
                Pubkey::lemma_view_injective(a3, b3);
                Pubkey::lemma_view_injective(a4, b4);
                lemma_same_integer(bytes, 129, a5, b5);
                lemma_same_integer(bytes, 137, a6, b6);
                lemma_same_integer(bytes, 145, a7, b7);
            },
            (
                FarmInstruction::InitializeFarm {
                    nonce: a1,
                    start_timestamp: a2,
                    end_timestamp: a3,
                },
                FarmInstruction::InitializeFarm {
                    nonce: b1,
                    start_timestamp: b2,
                    end_timestamp: b3,
                },
            ) => {
                assert(a1 == bytes[1] && b1 == bytes[1]);
                lemma_same_integer(bytes, 2, a2, b2);
                lemma_same_integer(bytes, 10, a3, b3);
            },
            (FarmInstruction::Deposit(a), FarmInstruction::Deposit(b)) => {
                lemma_same_integer(bytes, 1, a, b);
            },
            (FarmInstruction::Withdraw(a), FarmInstruction::Withdraw(b)) => {
                lemma_same_integer(bytes, 1, a, b);
            },
            (FarmInstruction::AddReward(a), FarmInstruction::AddReward(b)) => {
                lemma_same_integer(bytes, 1, a, b);
            },
            (FarmInstruction::PayFarmFee(a), FarmInstruction::PayFarmFee(b)) => {
                lemma_same_integer(bytes, 1, a, b);
            },
            _ => {
                assert(self.spec_tag() != other.spec_tag());
            },
        }
    }
}

/// Two integers whose encodings both sit in the 8 bytes at `offset` are the same integer.
proof fn lemma_same_integer(bytes: Seq<u8>, offset: int, a: u64, b: u64)
    requires
        0 <= offset,
        offset + 8 <= bytes.len(),
        forall|i: int| 0 <= i < 8 ==> bytes[offset + i] == spec_u64_to_le_bytes(a)[i],
        forall|i: int| 0 <= i < 8 ==> bytes[offset + i] == spec_u64_to_le_bytes(b)[i],
    ensures
        a == b,
{
    lemma_auto_spec_u64_to_from_le_bytes();
    assert(spec_u64_to_le_bytes(a) =~= bytes.subrange(offset, offset + 8));
    assert(spec_u64_to_le_bytes(b) =~= bytes.subrange(offset, offset + 8));
    assert(spec_u64_from_le_bytes(spec_u64_to_le_bytes(a)) == a);
    assert(spec_u64_from_le_bytes(spec_u64_to_le_bytes(b)) == b);
}

/// The 32 bytes of the identifier of the cluster's clock account.
pub open spec fn spec_clock_sysvar_bytes() -> Seq<u8> {
    seq![
        6u8, 167, 213, 23, 24, 199, 116, 201, 40, 86, 99, 152, 105, 29, 94, 182,
        139, 94, 184, 163, 155, 75, 109, 92, 115, 85, 91, 33, 0, 0, 0, 0,
    ]
}

/// The identifier of the cluster's clock account.
pub open spec fn spec_clock_sysvar() -> Pubkey {
    Pubkey::spec_from_bytes(spec_clock_sysvar_bytes())
}

/// Asks the runtime library for the identifier of the cluster's clock account.
///
/// Not proved: the body calls `solana_program::sysvar::clock::id` and copies
/// the bytes out of what it returns. The contract claims that these are the 32
/// bytes that `SysvarC1ock11111111111111111111111111111111`, the text under
/// which that library declares the identifier, stands for in base 58.
#[verifier::external_body]
fn clock_sysvar_id() -> (id: Pubkey)
    ensures
        id@ == spec_clock_sysvar_bytes(),
{
    Pubkey(solana_program::sysvar::clock::id().to_bytes())
}

/// The clock account's identifier, as the value that the account lists name.
fn clock_sysvar() -> (id: Pubkey)
    ensures
        id == spec_clock_sysvar(),
{
    let id = clock_sysvar_id();
    proof {
        Pubkey::lemma_from_bytes(spec_clock_sysvar_bytes());
        Pubkey::lemma_view_injective(id, spec_clock_sysvar());
    }
    id
}

/// Builds the call that writes the program-wide settings.
///
/// Accounts, in order: the settings account (writable), the current super
/// owner (writable, signer).
pub fn initialize_program(
    program_data_account: &Pubkey,
    super_owner: &Pubkey,
    new_super_owner: Pubkey,
    fee_owner: Pubkey,
    allowed_creator: Pubkey,
    amm_program_id: Pubkey,
    farm_fee: u64,
    harvest_fee_numerator: u64,
    harvest_fee_denominator: u64,
    program_id: &Pubkey,
) -> (call: Instruction)
    ensures
        call.program_id == *program_id,
        call.data@ == (FarmInstruction::SetProgramData {
            super_owner: new_super_owner,
            fee_owner,
            allowed_creator,
            amm_program_id,
            farm_fee,
            harvest_fee_numerator,
            harvest_fee_denominator,
        }).spec_pack(),
        call.accounts@ == seq![
            AccountMeta::writable(*program_data_account, false),
            AccountMeta::writable(*super_owner, true),
        ],
{
    let init_data = FarmInstruction::SetProgramData {
        super_owner: new_super_owner,
        fee_owner,
        allowed_creator,
        amm_program_id,
        farm_fee,
        harvest_fee_numerator,
        harvest_fee_denominator,
    };
    let data = init_data.pack();
    let accounts = vec![
        AccountMeta::new(*program_data_account, false),
        AccountMeta::new(*super_owner, true),
    ];
    Instruction { program_id: *program_id, accounts, data }
}

/// Builds the call that sets up a new farm.
///
/// Accounts, in order: the new farm (writable), the farm authority
/// (writable), the creator (signer), the farm's pool token account
/// (writable), the farm's reward token account (writable), the pool token
/// mint, the reward token mint, the pool, the settings account.
pub fn initialize_farm(
    farm_id: &Pubkey,
    authority: &Pubkey,
    owner: &Pubkey,
    pool_lp_token_account: &Pubkey,
    pool_reward_token_account: &Pubkey,
    pool_mint_address: &Pubkey,
    reward_mint_address: &Pubkey,
    amm_id: &Pubkey,
    program_data_account: &Pubkey,
    nonce: u8,
    start_timestamp: u64,
    end_timestamp: u64,
    program_id: &Pubkey,
) -> (call: Instruction)
    ensures
        call.program_id == *program_id,
        call.data@ == (FarmInstruction::InitializeFarm {
            nonce,
            start_timestamp,
            end_timestamp,
        }).spec_pack(),
        call.accounts@ == seq![
            AccountMeta::writable(*farm_id, false),
            AccountMeta::writable(*authority, false),
            AccountMeta::readonly(*owner, true),
            AccountMeta::writable(*pool_lp_token_account, false),
            AccountMeta::writable(*pool_reward_token_account, false),
            AccountMeta::readonly(*pool_mint_address, false),
            AccountMeta::readonly(*reward_mint_address, false),
            AccountMeta::readonly(*amm_id, false),
            AccountMeta::readonly(*program_data_account, false),
        ],
{
    let init_data = FarmInstruction::InitializeFarm { nonce, start_timestamp, end_timestamp };
    let data = init_data.pack();
    let accounts = vec![
        AccountMeta::new(*farm_id, false),
        AccountMeta::new(*authority, false),
        AccountMeta::new_readonly(*owner, true),
        AccountMeta::new(*pool_lp_token_account, false),
        AccountMeta::new(*pool_reward_token_account, false),
        AccountMeta::new_readonly(*pool_mint_address, false),
        AccountMeta::new_readonly(*reward_mint_address, false),
        AccountMeta::new_readonly(*amm_id, false),
        AccountMeta::new_readonly(*program_data_account, false),
    ];
    Instruction { program_id: *program_id, accounts, data }
}

/// Builds the call that stakes pool tokens in a farm.
///
/// Accounts, in order: the farm (writable), the farm authority, the depositor
/// (signer), then, all writable, the depositor's farming record, the
/// depositor's pool token account, the farm's pool token account, the
/// depositor's reward token account, the farm's reward token account, the
/// pool token mint, the fee owner's reward token account, the settings
/// account and the token program; last the clock account.
pub fn deposit(
    farm_id: &Pubkey,
    authority: &Pubkey,
    owner: &Pubkey,
    user_info_account: &Pubkey,
    user_lp_token_account: &Pubkey,
    pool_lp_token_account: &Pubkey,
    user_reward_token_account: &Pubkey,
    pool_reward_token_account: &Pubkey,
    pool_lp_mint: &Pubkey,
    fee_reward_ata: &Pubkey,
    program_data_account: &Pubkey,
    token_program_id: &Pubkey,
    amount: u64,
    program_id: &Pubkey,
) -> (call: Instruction)
    ensures
        call.program_id == *program_id,
        call.data@ == FarmInstruction::Deposit(amount).spec_pack(),
        call.accounts@ == seq![
            AccountMeta::writable(*farm_id, false),
            AccountMeta::readonly(*authority, false),
            AccountMeta::readonly(*owner, true),
            AccountMeta::writable(*user_info_account, false),
            AccountMeta::writable(*user_lp_token_account, false),
            AccountMeta::writable(*pool_lp_token_account, false),
            AccountMeta::writable(*user_reward_token_account, false),
            AccountMeta::writable(*pool_reward_token_account, false),
            AccountMeta::writable(*pool_lp_mint, false),
            AccountMeta::writable(*fee_reward_ata, false),
            AccountMeta::writable(*program_data_account, false),
            AccountMeta::writable(*token_program_id, false),
            AccountMeta::readonly(spec_clock_sysvar(), false),
        ],
{
    let accounts = vec![
        AccountMeta::new(*farm_id, false),
        AccountMeta::new_readonly(*authority, false),
        AccountMeta::new_readonly(*owner, true),
        AccountMeta::new(*user_info_account, false),
        AccountMeta::new(*user_lp_token_account, false),
        AccountMeta::new(*pool_lp_token_account, false),
        AccountMeta::new(*user_reward_token_account, false),
        AccountMeta::new(*pool_reward_token_account, false),
        AccountMeta::new(*pool_lp_mint, false),
        AccountMeta::new(*fee_reward_ata, false),
        AccountMeta::new(*program_data_account, false),
        AccountMeta::new(*token_program_id, false),
        AccountMeta::new_readonly(clock_sysvar(), false),
    ];
    Instruction { program_id: *program_id, accounts, data: FarmInstruction::Deposit(amount).pack() }
}

/// Builds the call that harvests and unstakes pool tokens from a farm.
///
/// Accounts, in order: the farm (writable), the farm authority, the
/// withdrawer (writable, signer), then, all writable, the withdrawer's
/// farming record, the withdrawer's pool token account, the farm's pool token
/// account, the withdrawer's reward token account, the farm's reward token
/// account, the pool token mint, the fee owner's reward token account, the
/// settings account and the token program; last the clock account.
pub fn withdraw(
    farm_id: &Pubkey,
    authority: &Pubkey,
    owner: &Pubkey,
    user_info_account: &Pubkey,
    user_lp_token_account: &Pubkey,
    pool_lp_token_account: &Pubkey,
    user_reward_token_account: &Pubkey,
    pool_reward_token_account: &Pubkey,
    pool_lp_mint_info: &Pubkey,
    fee_reward_ata: &Pubkey,
    program_data_account: &Pubkey,
    token_program_id: &Pubkey,
    amount: u64,
    program_id: &Pubkey,
) -> (call: Instruction)
    ensures
        call.program_id == *program_id,
        call.data@ == FarmInstruction::Withdraw(amount).spec_pack(),
        call.accounts@ == seq![
            AccountMeta::writable(*farm_id, false),
            AccountMeta::readonly(*authority, false),
            AccountMeta::writable(*owner, true),
            AccountMeta::writable(*user_info_account, false),
            AccountMeta::writable(*user_lp_token_account, false),
            AccountMeta::writable(*pool_lp_token_account, false),
            AccountMeta::writable(*user_reward_token_account, false),
            AccountMeta::writable(*pool_reward_token_account, false),
            AccountMeta::writable(*pool_lp_mint_info, false),
            AccountMeta::writable(*fee_reward_ata, false),
            AccountMeta::writable(*program_data_account, false),
            AccountMeta::writable(*token_program_id, false),
            AccountMeta::readonly(spec_clock_sysvar(), false),
        ],
{
    let accounts = vec![
        AccountMeta::new(*farm_id, false),
        AccountMeta::new_readonly(*authority, false),
        AccountMeta::new(*owner, true),
        AccountMeta::new(*user_info_account, false),
        AccountMeta::new(*user_lp_token_account, false),
        AccountMeta::new(*pool_lp_token_account, false),
        AccountMeta::new(*user_reward_token_account, false),
        AccountMeta::new(*pool_reward_token_account, false),
        AccountMeta::new(*pool_lp_mint_info, false),
        AccountMeta::new(*fee_reward_ata, false),
        AccountMeta::new(*program_data_account, false),
        AccountMeta::new(*token_program_id, false),
        AccountMeta::new_readonly(clock_sysvar(), false),
    ];
    Instruction {
        program_id: *program_id,
        accounts,
        data: FarmInstruction::Withdraw(amount).pack(),
    }
}

/// Builds the call by which a creator adds reward tokens to a farm.
///
/// Accounts, in order: the farm (writable), the farm authority, the creator
/// (signer), then, all writable, the creator's reward token account, the
/// farm's reward token account, the farm's pool token account, the pool token
/// mint, the settings account and the token program; last the clock account.
pub fn add_reward(
    farm_id: &Pubkey,
    authority: &Pubkey,
    owner: &Pubkey,
    user_reward_token_account: &Pubkey,
    pool_reward_token_account: &Pubkey,
    pool_lp_token_account: &Pubkey,
    pool_lp_mint_info: &Pubkey,
    program_data_account: &Pubkey,
    token_program_id: &Pubkey,
    amount: u64,
    program_id: &Pubkey,
) -> (call: Instruction)
    ensures
        call.program_id == *program_id,
        call.data@ == FarmInstruction::AddReward(amount).spec_pack(),
        call.accounts@ == seq![
            AccountMeta::writable(*farm_id, false),
            AccountMeta::readonly(*authority, false),
            AccountMeta::readonly(*owner, true),
            AccountMeta::writable(*user_reward_token_account, false),
            AccountMeta::writable(*pool_reward_token_account, false),
            AccountMeta::writable(*pool_lp_token_account, false),
            AccountMeta::writable(*pool_lp_mint_info, false),
            AccountMeta::writable(*program_data_account, false),
            AccountMeta::writable(*token_program_id, false),
            AccountMeta::readonly(spec_clock_sysvar(), false),
        ],
{
    let accounts = vec![
        AccountMeta::new(*farm_id, false),
        AccountMeta::new_readonly(*authority, false),
        AccountMeta::new_readonly(*owner, true),
        AccountMeta::new(*user_reward_token_account, false),
        AccountMeta::new(*pool_reward_token_account, false),
        AccountMeta::new(*pool_lp_token_account, false),
        AccountMeta::new(*pool_lp_mint_info, false),
        AccountMeta::new(*program_data_account, false),
        AccountMeta::new(*token_program_id, false),
        AccountMeta::new_readonly(clock_sysvar(), false),
    ];
    Instruction {
        program_id: *program_id,
        accounts,
        data: FarmInstruction::AddReward(amount).pack(),
    }
}

/// Builds the call by which a creator pays the fee that opens a farm.
///
/// Accounts, in order: the farm (writable), the farm authority, the creator
/// (signer), then, all writable, the creator's account of the fee token, the
/// fee owner's account of the fee token, the settings account and the token
/// program.
pub fn pay_farm_fee(
    farm_id: &Pubkey,
    authority: &Pubkey,
    owner: &Pubkey,
    user_usdc_token_account: &Pubkey,
    fee_usdc_ata: &Pubkey,
    program_data_account: &Pubkey,
    token_program_id: &Pubkey,
    amount: u64,
    program_id: &Pubkey,
) -> (call: Instruction)
    ensures
        call.program_id == *program_id,
        call.data@ == FarmInstruction::PayFarmFee(amount).spec_pack(),
        call.accounts@ == seq![
            AccountMeta::writable(*farm_id, false),
            AccountMeta::readonly(*authority, false),
            AccountMeta::readonly(*owner, true),
            AccountMeta::writable(*user_usdc_token_account, false),
            AccountMeta::writable(*fee_usdc_ata, false),
            AccountMeta::writable(*program_data_account, false),
            AccountMeta::writable(*token_program_id, false),
        ],
{
    let accounts = vec![
        AccountMeta::new(*farm_id, false),
        AccountMeta::new_readonly(*authority, false),
        AccountMeta::new_readonly(*owner, true),
        AccountMeta::new(*user_usdc_token_account, false),
        AccountMeta::new(*fee_usdc_ata, false),
        AccountMeta::new(*program_data_account, false),
        AccountMeta::new(*token_program_id, false),
    ];
    Instruction {
        program_id: *program_id,
        accounts,
        data: FarmInstruction::PayFarmFee(amount).pack(),
    }
}

} // verus!
