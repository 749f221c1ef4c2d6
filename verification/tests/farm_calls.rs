use amm_instructions::farm_instruction::{
    add_reward, deposit, initialize_farm, initialize_program, pay_farm_fee, withdraw,
    FarmInstruction,
};
use amm_instructions::instruction::AccountMeta;
use amm_instructions::pubkey::Pubkey;
use borsh::BorshSerialize;

const CLOCK_ACCOUNT: [u8; 32] = [
    6, 167, 213, 23, 24, 199, 116, 201, 40, 86, 99, 152, 105, 29, 94, 182, 139, 94, 184, 163, 155,
    75, 109, 92, 115, 85, 91, 33, 0, 0, 0, 0,
];

fn farm_account(n: u8) -> Pubkey {
    Pubkey([n; 32])
}

fn farm_writable(n: u8, is_signer: bool) -> AccountMeta {
    AccountMeta {
        pubkey: farm_account(n),
        is_signer,
        is_writable: true,
    }
}

fn farm_readonly(n: u8, is_signer: bool) -> AccountMeta {
    AccountMeta {
        pubkey: farm_account(n),
        is_signer,
        is_writable: false,
    }
}

fn clock_readonly() -> AccountMeta {
    AccountMeta {
        pubkey: Pubkey(CLOCK_ACCOUNT),
        is_signer: false,
        is_writable: false,
    }
}

#[test]
fn amount_payloads_are_tag_and_integer() {
    assert_eq!(
        FarmInstruction::Deposit(1_000_000).pack(),
        vec![2, 0x40, 0x42, 0x0f, 0, 0, 0, 0, 0]
    );
    assert_eq!(
        FarmInstruction::Withdraw(1).pack(),
        vec![3, 1, 0, 0, 0, 0, 0, 0, 0]
    );
    assert_eq!(
        FarmInstruction::AddReward(u64::MAX).pack(),
        vec![4, 255, 255, 255, 255, 255, 255, 255, 255]
    );
    assert_eq!(
        FarmInstruction::PayFarmFee(0).pack(),
        vec![5, 0, 0, 0, 0, 0, 0, 0, 0]
    );
}

#[test]
fn initialize_farm_payload_bytes() {
    let instruction = FarmInstruction::InitializeFarm {
        nonce: 250,
        start_timestamp: 1_600_000_000,
        end_timestamp: 1_700_000_000,
    };
    let mut expected = vec![1u8, 250];
    expected.extend_from_slice(&1_600_000_000u64.to_le_bytes());
    expected.extend_from_slice(&1_700_000_000u64.to_le_bytes());
    assert_eq!(instruction.pack(), expected);
    assert_eq!(expected.len(), 18);
}

#[test]
fn set_program_data_payload_bytes() {
    let instruction = FarmInstruction::SetProgramData {
        super_owner: farm_account(1),
        fee_owner: farm_account(2),
        allowed_creator: farm_account(3),
        amm_program_id: farm_account(4),
        farm_fee: 5,
        harvest_fee_numerator: 6,
        harvest_fee_denominator: 7,
    };
    let mut expected = vec![0u8];
    for n in 1..=4u8 {
        expected.extend_from_slice(&[n; 32]);
    }
    for n in 5..=7u64 {
        expected.extend_from_slice(&n.to_le_bytes());
    }
    assert_eq!(expected.len(), 153);
    assert_eq!(instruction.pack(), expected);
}

#[test]
fn payloads_agree_with_borsh() {
    assert_eq!(
        FarmInstruction::Deposit(77).pack(),
        (2u8, 77u64).try_to_vec().unwrap()
    );
    assert_eq!(
        FarmInstruction::Withdraw(u64::MAX - 1).pack(),
        (3u8, u64::MAX - 1).try_to_vec().unwrap()
    );
    assert_eq!(
        FarmInstruction::AddReward(1 << 40).pack(),
        (4u8, 1u64 << 40).try_to_vec().unwrap()
    );
    assert_eq!(
        FarmInstruction::PayFarmFee(9).pack(),
        (5u8, 9u64).try_to_vec().unwrap()
    );
    assert_eq!(
        FarmInstruction::InitializeFarm {
            nonce: 3,
            start_timestamp: 10,
            end_timestamp: 20,
        }
        .pack(),
        (1u8, 3u8, 10u64, 20u64).try_to_vec().unwrap()
    );
    assert_eq!(
        FarmInstruction::SetProgramData {
            super_owner: farm_account(1),
            fee_owner: farm_account(2),
            allowed_creator: farm_account(3),
            amm_program_id: farm_account(4),
            farm_fee: 5,
            harvest_fee_numerator: 6,
            harvest_fee_denominator: 7,
        }
        .pack(),
        (
            0u8,
            [1u8; 32],
            [2u8; 32],
            [3u8; 32],
            [4u8; 32],
            5u64,
            6u64,
            7u64
        )
            .try_to_vec()
            .unwrap()
    );
}

#[test]
fn clock_account_is_the_runtime_clock() {
    let call = sample_deposit_call();
    let clock = call.accounts[12];
    assert_eq!(clock.pubkey.to_bytes(), CLOCK_ACCOUNT);
    assert_eq!(
        clock.pubkey.to_bytes(),
        solana_program::sysvar::clock::id().to_bytes()
    );
    assert_ne!(clock.pubkey, farm_account(12));
}

fn sample_deposit_call() -> amm_instructions::instruction::Instruction {
    deposit(
        &farm_account(1),
        &farm_account(2),
        &farm_account(3),
        &farm_account(4),
        &farm_account(5),
        &farm_account(6),
        &farm_account(7),
        &farm_account(8),
        &farm_account(9),
        &farm_account(10),
        &farm_account(11),
        &farm_account(12),
        500,
        &farm_account(100),
    )
}

#[test]
fn initialize_program_call() {
    let call = initialize_program(
        &farm_account(1),
        &farm_account(2),
        farm_account(3),
        farm_account(4),
        farm_account(5),
        farm_account(6),
        7,
        8,
        9,
        &farm_account(100),
    );
    assert_eq!(call.program_id, farm_account(100));
    assert_eq!(
        call.data,
        FarmInstruction::SetProgramData {
            super_owner: farm_account(3),
            fee_owner: farm_account(4),
            allowed_creator: farm_account(5),
            amm_program_id: farm_account(6),
            farm_fee: 7,
            harvest_fee_numerator: 8,
            harvest_fee_denominator: 9,
        }
        .pack()
    );
    assert_eq!(
        call.accounts,
        vec![farm_writable(1, false), farm_writable(2, true)]
    );
}

#[test]
fn initialize_farm_call() {
    let call = initialize_farm(
        &farm_account(1),
        &farm_account(2),
        &farm_account(3),
        &farm_account(4),
        &farm_account(5),
        &farm_account(6),
        &farm_account(7),
        &farm_account(8),
        &farm_account(9),
        250,
        1_600_000_000,
        1_700_000_000,
        &farm_account(100),
    );
    assert_eq!(call.program_id, farm_account(100));
    assert_eq!(
        call.data,
        FarmInstruction::InitializeFarm {
            nonce: 250,
            start_timestamp: 1_600_000_000,
            end_timestamp: 1_700_000_000,
        }
        .pack()
    );
    assert_eq!(
        call.accounts,
        vec![
            farm_writable(1, false),
            farm_writable(2, false),
            farm_readonly(3, true),
            farm_writable(4, false),
            farm_writable(5, false),
            farm_readonly(6, false),
            farm_readonly(7, false),
            farm_readonly(8, false),
            farm_readonly(9, false),
        ]
    );
}

#[test]
fn deposit_call() {
    let call = sample_deposit_call();
    assert_eq!(call.program_id, farm_account(100));
    assert_eq!(call.data, vec![2, 0xF4, 1, 0, 0, 0, 0, 0, 0]);
    assert_eq!(
        call.accounts,
        vec![
            farm_writable(1, false),
            farm_readonly(2, false),
            farm_readonly(3, true),
            farm_writable(4, false),
            farm_writable(5, false),
            farm_writable(6, false),
            farm_writable(7, false),
            farm_writable(8, false),
            farm_writable(9, false),
            farm_writable(10, false),
            farm_writable(11, false),
            farm_writable(12, false),
            clock_readonly(),
        ]
    );
}

#[test]
fn withdraw_call() {
    let call = withdraw(
        &farm_account(1),
        &farm_account(2),
        &farm_account(3),
        &farm_account(4),
        &farm_account(5),
        &farm_account(6),
        &farm_account(7),
        &farm_account(8),
        &farm_account(9),
        &farm_account(10),
        &farm_account(11),
        &farm_account(12),
        600,
        &farm_account(100),
    );
    assert_eq!(call.program_id, farm_account(100));
    assert_eq!(call.data, FarmInstruction::Withdraw(600).pack());
    assert_eq!(
        call.accounts,
        vec![
            farm_writable(1, false),
            farm_readonly(2, false),
            farm_writable(3, true),
            farm_writable(4, false),
            farm_writable(5, false),
            farm_writable(6, false),
            farm_writable(7, false),
            farm_writable(8, false),
            farm_writable(9, false),
            farm_writable(10, false),
            farm_writable(11, false),
            farm_writable(12, false),
            clock_readonly(),
        ]
    );
}

#[test]
fn add_reward_call() {
    let call = add_reward(
        &farm_account(1),
        &farm_account(2),
        &farm_account(3),
        &farm_account(4),
        &farm_account(5),
        &farm_account(6),
        &farm_account(7),
        &farm_account(8),
        &farm_account(9),
        700,
        &farm_account(100),
    );
    assert_eq!(call.program_id, farm_account(100));
    assert_eq!(call.data, FarmInstruction::AddReward(700).pack());
    assert_eq!(
        call.accounts,
        vec![
            farm_writable(1, false),
            farm_readonly(2, false),
            farm_readonly(3, true),
            farm_writable(4, false),
            farm_writable(5, false),
            farm_writable(6, false),
            farm_writable(7, false),
            farm_writable(8, false),
            farm_writable(9, false),
            clock_readonly(),
        ]
    );
}

#[test]
fn pay_farm_fee_call() {
    let call = pay_farm_fee(
        &farm_account(1),
        &farm_account(2),
        &farm_account(3),
        &farm_account(4),
        &farm_account(5),
        &farm_account(6),
        &farm_account(7),
        800,
        &farm_account(100),
    );
    assert_eq!(call.program_id, farm_account(100));
    assert_eq!(call.data, FarmInstruction::PayFarmFee(800).pack());
    assert_eq!(
        call.accounts,
        vec![
            farm_writable(1, false),
            farm_readonly(2, false),
            farm_readonly(3, true),
            farm_writable(4, false),
            farm_writable(5, false),
            farm_writable(6, false),
            farm_writable(7, false),
        ]
    );
}
