use amm_instructions::amm_stats::{AmmStatus, ProgramState, SwapV1, SwapVersion};
use amm_instructions::curve::{Fees, SwapCurve};
use amm_instructions::error::AmmError;
use amm_instructions::pubkey::Pubkey;

fn pattern_key(seed: u8) -> Pubkey {
    let mut bytes = [0u8; 32];
    for (i, b) in bytes.iter_mut().enumerate() {
        *b = seed.wrapping_mul(16).wrapping_add(i as u8);
    }
    Pubkey(bytes)
}

fn sample_pool() -> SwapV1 {
    SwapV1 {
        is_initialized: true,
        nonce: 7,
        amm_id: pattern_key(1),
        dex_program_id: pattern_key(2),
        market_id: pattern_key(3),
        token_program_id: pattern_key(4),
        token_a: pattern_key(5),
        token_b: pattern_key(6),
        pool_mint: pattern_key(7),
        token_a_mint: pattern_key(8),
        token_b_mint: pattern_key(9),
    }
}

fn sample_program_state() -> ProgramState {
    let mut parameters = [0u8; 32];
    for (i, b) in parameters.iter_mut().enumerate() {
        *b = 200 + i as u8;
    }
    ProgramState {
        is_initialized: true,
        state_owner: pattern_key(10),
        fee_owner: pattern_key(11),
        initial_supply: 1_000_000_000,
        fees: Fees {
            return_fee_numerator: 15,
            fixed_fee_numerator: 25,
            fee_denominator: 10_000,
        },
        swap_curve: SwapCurve {
            curve_type: 2,
            parameters,
        },
    }
}

fn versioned_pool_buffer() -> Vec<u8> {
    let mut buffer = vec![1u8, 1, 7];
    for seed in 1..=9u8 {
        buffer.extend_from_slice(&pattern_key(seed).to_bytes());
    }
    buffer
}

#[test]
fn versioned_pool_scenario() {
    let buffer = versioned_pool_buffer();
    assert_eq!(buffer.len(), 291);
    let state = SwapVersion::unpack(&buffer).unwrap();
    assert!(AmmStatus::is_initialized(&state));
    assert_eq!(state.nonce(), 7);
    assert_eq!(*state.token_program_id(), pattern_key(4));
    assert_eq!(*state.token_a_account(), pattern_key(5));
    assert_eq!(*state.token_b_account(), pattern_key(6));
    assert_eq!(*state.pool_mint(), pattern_key(7));
    assert_eq!(*state.token_a_mint(), pattern_key(8));
    assert_eq!(*state.token_b_mint(), pattern_key(9));
    assert_eq!(state, SwapVersion::SwapV1(sample_pool()));
    assert!(SwapVersion::is_initialized(&buffer));
}

#[test]
fn pool_layout_lengths_and_offsets() {
    assert_eq!(SwapV1::LEN, 290);
    assert_eq!(SwapVersion::LATEST_LEN, 291);
    assert_eq!(ProgramState::LEN, 130);
    assert_eq!(Fees::LEN, 24);
    assert_eq!(SwapCurve::LEN, 33);
    assert_eq!(SwapV1::IS_INITIALIZED_OFFSET, 0);
    assert_eq!(SwapV1::NONCE_OFFSET, 1);
    assert_eq!(SwapV1::AMM_ID_OFFSET, 2);
    assert_eq!(SwapV1::DEX_PROGRAM_ID_OFFSET, 34);
    assert_eq!(SwapV1::MARKET_ID_OFFSET, 66);
    assert_eq!(SwapV1::TOKEN_PROGRAM_ID_OFFSET, 98);
    assert_eq!(SwapV1::TOKEN_A_OFFSET, 130);
    assert_eq!(SwapV1::TOKEN_B_OFFSET, 162);
    assert_eq!(SwapV1::POOL_MINT_OFFSET, 194);
    assert_eq!(SwapV1::TOKEN_A_MINT_OFFSET, 226);
    assert_eq!(SwapV1::TOKEN_B_MINT_OFFSET, 258);
    assert_eq!(SwapV1::TOKEN_B_MINT_OFFSET + 32, SwapV1::LEN);
    assert_eq!(ProgramState::STATE_OWNER_OFFSET, 1);
    assert_eq!(ProgramState::FEE_OWNER_OFFSET, 33);
    assert_eq!(ProgramState::INITIAL_SUPPLY_OFFSET, 65);
    assert_eq!(ProgramState::FEES_OFFSET, 73);
    assert_eq!(ProgramState::SWAP_CURVE_OFFSET, 97);
    assert_eq!(ProgramState::SWAP_CURVE_OFFSET + SwapCurve::LEN, ProgramState::LEN);
}

#[test]
fn pool_packs_fields_in_declared_order() {
    let mut buffer = [0xEEu8; 290];
    sample_pool().pack_into_slice(&mut buffer);
    assert_eq!(&buffer[..], &versioned_pool_buffer()[1..]);
}

#[test]
fn pool_round_trips() {
    let pool = sample_pool();
    let mut buffer = [0u8; 290];
    pool.pack_into_slice(&mut buffer);
    assert_eq!(SwapV1::unpack_from_slice(&buffer), Ok(pool));

    let blank = SwapV1::default();
    let mut buffer = [0xFFu8; 290];
    blank.pack_into_slice(&mut buffer);
    assert_eq!(buffer, [0u8; 290]);
    assert_eq!(SwapV1::unpack_from_slice(&buffer), Ok(blank));
}

#[test]
fn pool_pack_leaves_bytes_past_the_record() {
    let mut buffer = [0xEEu8; 300];
    sample_pool().pack_into_slice(&mut buffer);
    assert_eq!(&buffer[..290], &versioned_pool_buffer()[1..]);
    assert_eq!(&buffer[290..], &[0xEEu8; 10][..]);
}

#[test]
fn pool_unpack_ignores_trailing_bytes() {
    let mut buffer = versioned_pool_buffer()[1..].to_vec();
    buffer.extend_from_slice(&[9, 9, 9, 9]);
    assert_eq!(SwapV1::unpack_from_slice(&buffer), Ok(sample_pool()));
}

#[test]
fn pool_buffer_too_small() {
    let buffer = versioned_pool_buffer()[1..].to_vec();
    for len in [0usize, 1, 2, 100, 289] {
        assert_eq!(
            SwapV1::unpack_from_slice(&buffer[..len]),
            Err(AmmError::BufferTooSmall)
        );
    }
}

#[test]
fn pool_flag_byte_must_be_zero_or_one() {
    let mut buffer = versioned_pool_buffer()[1..].to_vec();
    buffer[0] = 2;
    assert_eq!(
        SwapV1::unpack_from_slice(&buffer),
        Err(AmmError::InvalidFlagByte)
    );
    buffer[0] = 255;
    assert_eq!(
        SwapV1::unpack_from_slice(&buffer),
        Err(AmmError::InvalidFlagByte)
    );
    buffer[0] = 0;
    let pool = SwapV1::unpack_from_slice(&buffer).unwrap();
    assert!(!pool.is_initialized);
    assert_eq!(pool.nonce, 7);
}

#[test]
fn short_buffer_is_reported_before_the_flag() {
    let buffer = [2u8; 289];
    assert_eq!(
        SwapV1::unpack_from_slice(&buffer),
        Err(AmmError::BufferTooSmall)
    );
    let buffer = [2u8; 129];
    assert_eq!(
        ProgramState::unpack_from_slice(&buffer),
        Err(AmmError::BufferTooSmall)
    );
}

#[test]
fn versioned_pool_round_trips() {
    let versioned = SwapVersion::SwapV1(sample_pool());
    let mut buffer = [0u8; 291];
    assert_eq!(SwapVersion::pack(versioned, &mut buffer), Ok(()));
    assert_eq!(buffer[0], 1);
    assert_eq!(&buffer[..], &versioned_pool_buffer()[..]);
    let decoded = SwapVersion::unpack(&buffer).unwrap();
    assert_eq!(decoded, versioned);
    assert_eq!(decoded.nonce(), sample_pool().nonce);
    assert_eq!(*decoded.pool_mint(), sample_pool().pool_mint);
}

#[test]
fn versioned_pack_rejects_short_destination() {
    let versioned = SwapVersion::SwapV1(sample_pool());
    let mut buffer = [0x11u8; 290];
    assert_eq!(
        SwapVersion::pack(versioned, &mut buffer),
        Err(AmmError::BufferTooSmall)
    );
    assert_eq!(buffer, [0x11u8; 290]);
    let mut empty: [u8; 0] = [];
    assert_eq!(
        SwapVersion::pack(versioned, &mut empty),
        Err(AmmError::BufferTooSmall)
    );
}

#[test]
fn versioned_pack_leaves_bytes_past_the_record() {
    let versioned = SwapVersion::SwapV1(sample_pool());
    let mut buffer = [0x11u8; 295];
    assert_eq!(SwapVersion::pack(versioned, &mut buffer), Ok(()));
    assert_eq!(&buffer[..291], &versioned_pool_buffer()[..]);
    assert_eq!(&buffer[291..], &[0x11u8; 4][..]);
}

#[test]
fn version_two_is_unsupported() {
    let mut buffer = versioned_pool_buffer();
    buffer[0] = 2;
    assert_eq!(
        SwapVersion::unpack(&buffer),
        Err(AmmError::UnsupportedVersion)
    );
    assert!(!SwapVersion::is_initialized(&buffer));
    buffer[0] = 0;
    assert_eq!(
        SwapVersion::unpack(&buffer),
        Err(AmmError::UnsupportedVersion)
    );
    assert_eq!(
        SwapVersion::unpack(&[2]),
        Err(AmmError::UnsupportedVersion)
    );
}

#[test]
fn versioned_buffer_too_small() {
    assert_eq!(SwapVersion::unpack(&[]), Err(AmmError::BufferTooSmall));
    let buffer = versioned_pool_buffer();
    for len in [1usize, 2, 150, 290] {
        assert_eq!(
            SwapVersion::unpack(&buffer[..len]),
            Err(AmmError::BufferTooSmall)
        );
    }
}

#[test]
fn versioned_flag_byte_is_checked() {
    let mut buffer = versioned_pool_buffer();
    buffer[1] = 3;
    assert_eq!(
        SwapVersion::unpack(&buffer),
        Err(AmmError::InvalidFlagByte)
    );
    assert!(!SwapVersion::is_initialized(&buffer));
}

#[test]
fn probe_reports_the_inner_flag() {
    let mut buffer = versioned_pool_buffer();
    assert!(SwapVersion::is_initialized(&buffer));
    buffer[1] = 0;
    assert!(!SwapVersion::is_initialized(&buffer));
    assert_eq!(
        SwapVersion::unpack(&buffer).map(|state| AmmStatus::is_initialized(&state)),
        Ok(false)
    );
    assert!(!SwapVersion::is_initialized(&[]));
    assert!(!SwapVersion::is_initialized(&buffer[..290]));
}

#[test]
fn pool_record_answers_through_the_accessors() {
    let pool = sample_pool();
    assert!(AmmStatus::is_initialized(&pool));
    assert_eq!(AmmStatus::nonce(&pool), 7);
    assert_eq!(*pool.token_program_id(), pool.token_program_id);
    assert_eq!(*pool.token_a_account(), pool.token_a);
    assert_eq!(*pool.token_b_account(), pool.token_b);
    assert_eq!(*AmmStatus::pool_mint(&pool), pool.pool_mint);
    assert_eq!(*AmmStatus::token_a_mint(&pool), pool.token_a_mint);
    assert_eq!(*AmmStatus::token_b_mint(&pool), pool.token_b_mint);
}

#[test]
fn program_state_layout_bytes() {
    let state = sample_program_state();
    let mut buffer = [0xEEu8; 130];
    state.pack_into_slice(&mut buffer);
    let mut expected = vec![1u8];
    expected.extend_from_slice(&pattern_key(10).to_bytes());
    expected.extend_from_slice(&pattern_key(11).to_bytes());
    expected.extend_from_slice(&1_000_000_000u64.to_le_bytes());
    expected.extend_from_slice(&15u64.to_le_bytes());
    expected.extend_from_slice(&25u64.to_le_bytes());
    expected.extend_from_slice(&10_000u64.to_le_bytes());
    expected.push(2);
    expected.extend_from_slice(&state.swap_curve.parameters);
    assert_eq!(expected.len(), 130);
    assert_eq!(&buffer[..], &expected[..]);
}

#[test]
fn program_state_round_trips() {
    let state = sample_program_state();
    let mut buffer = [0u8; 130];
    state.pack_into_slice(&mut buffer);
    assert_eq!(ProgramState::unpack_from_slice(&buffer), Ok(state));

    let blank = ProgramState::default();
    let mut buffer = [0xFFu8; 140];
    blank.pack_into_slice(&mut buffer);
    assert_eq!(&buffer[..130], &[0u8; 130][..]);
    assert_eq!(&buffer[130..], &[0xFFu8; 10][..]);
    assert_eq!(ProgramState::unpack_from_slice(&buffer), Ok(blank));
}

#[test]
fn program_state_rejections() {
    let state = sample_program_state();
    let mut buffer = [0u8; 130];
    state.pack_into_slice(&mut buffer);
    for len in [0usize, 1, 64, 129] {
        assert_eq!(
            ProgramState::unpack_from_slice(&buffer[..len]),
            Err(AmmError::BufferTooSmall)
        );
    }
    buffer[0] = 2;
    assert_eq!(
        ProgramState::unpack_from_slice(&buffer),
        Err(AmmError::InvalidFlagByte)
    );
}

#[test]
fn program_state_getters() {
    let state = sample_program_state();
    assert!(state.is_initialized());
    assert_eq!(*state.state_owner(), pattern_key(10));
    assert_eq!(*state.fee_owner(), pattern_key(11));
    assert_eq!(state.initial_supply(), 1_000_000_000);
    assert_eq!(state.fees().fee_denominator, 10_000);
    assert_eq!(state.swap_curve().curve_type, 2);
}

#[test]
fn fees_record_round_trips() {
    let fees = Fees {
        return_fee_numerator: 1,
        fixed_fee_numerator: 0x0102_0304_0506_0708,
        fee_denominator: u64::MAX,
    };
    let mut buffer = [0xEEu8; 26];
    fees.pack_into_slice(&mut buffer);
    assert_eq!(
        buffer,
        [
            1, 0, 0, 0, 0, 0, 0, 0, 8, 7, 6, 5, 4, 3, 2, 1, 255, 255, 255, 255, 255, 255, 255,
            255, 0xEE, 0xEE
        ]
    );
    assert_eq!(Fees::unpack_from_slice(&buffer), Ok(fees));
    assert_eq!(
        Fees::unpack_from_slice(&buffer[..23]),
        Err(AmmError::BufferTooSmall)
    );
}

#[test]
fn curve_record_round_trips() {
    let mut parameters = [0u8; 32];
    parameters[0] = 0x10;
    parameters[31] = 0x20;
    let curve = SwapCurve {
        curve_type: 3,
        parameters,
    };
    let mut buffer = [0xEEu8; 33];
    curve.pack_into_slice(&mut buffer);
    assert_eq!(buffer[0], 3);
    assert_eq!(&buffer[1..], &parameters[..]);
    assert_eq!(SwapCurve::unpack_from_slice(&buffer), Ok(curve));
    assert_eq!(
        SwapCurve::unpack_from_slice(&buffer[..32]),
        Err(AmmError::BufferTooSmall)
    );
}
