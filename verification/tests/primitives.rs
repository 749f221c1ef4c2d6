use amm_instructions::codec::{
    array_at, flag_at, pubkey_at, put_bytes, put_flag, put_pubkey, put_u64, read_exact,
    read_identifier, read_u64, u64_at, write_identifier, write_u64,
};
use amm_instructions::error::AmmError;
use amm_instructions::pubkey::Pubkey;

fn counting_bytes(len: usize) -> Vec<u8> {
    (0..len).map(|i| i as u8).collect()
}

#[test]
fn read_u64_is_little_endian() {
    let buffer = [1u8, 2, 3, 4, 5, 6, 7, 8, 0xFF];
    let (value, rest) = read_u64(&buffer).unwrap();
    assert_eq!(value, 0x0807_0605_0403_0201);
    assert_eq!(rest, &[0xFFu8][..]);
}

#[test]
fn read_u64_needs_eight_bytes() {
    for len in 0..8 {
        let buffer = counting_bytes(len);
        assert_eq!(read_u64(&buffer), Err(AmmError::TruncatedInput));
    }
    assert!(read_u64(&counting_bytes(8)).is_ok());
}

#[test]
fn read_identifier_copies_raw_bytes() {
    let buffer = counting_bytes(40);
    let (id, rest) = read_identifier(&buffer).unwrap();
    let mut expected = [0u8; 32];
    expected.copy_from_slice(&buffer[..32]);
    assert_eq!(id, Pubkey(expected));
    assert_eq!(id.to_bytes(), expected);
    assert_eq!(rest, &buffer[32..]);
}

#[test]
fn read_identifier_needs_thirty_two_bytes() {
    for len in 0..32 {
        let buffer = counting_bytes(len);
        assert_eq!(read_identifier(&buffer), Err(AmmError::TruncatedInput));
    }
    let exact = counting_bytes(32);
    let (_, rest) = read_identifier(&exact).unwrap();
    assert!(rest.is_empty());
}

#[test]
fn read_exact_returns_front_and_remainder() {
    let buffer = counting_bytes(6);
    let (front, rest) = read_exact::<4>(&buffer).unwrap();
    assert_eq!(front, [0, 1, 2, 3]);
    assert_eq!(rest, &[4u8, 5][..]);
    assert_eq!(read_exact::<7>(&buffer), Err(AmmError::TruncatedInput));
    let (front, rest) = read_exact::<0>(&buffer).unwrap();
    assert_eq!(front, [0u8; 0]);
    assert_eq!(rest, &buffer[..]);
}

#[test]
fn sequential_reads_chain() {
    let mut buffer = Vec::new();
    write_u64(&mut buffer, 11);
    write_identifier(&mut buffer, &Pubkey([9u8; 32]));
    write_u64(&mut buffer, 22);
    assert_eq!(buffer.len(), 48);
    let (first, rest) = read_u64(&buffer).unwrap();
    let (id, rest) = read_identifier(rest).unwrap();
    let (second, rest) = read_u64(rest).unwrap();
    assert_eq!((first, id, second), (11, Pubkey([9u8; 32]), 22));
    assert!(rest.is_empty());
}

#[test]
fn write_u64_appends_eight_little_endian_bytes() {
    let mut out = vec![0xEEu8];
    write_u64(&mut out, 990_000);
    assert_eq!(out, vec![0xEE, 0x30, 0x1b, 0x0f, 0, 0, 0, 0, 0]);
    write_u64(&mut out, u64::MAX);
    assert_eq!(out.len(), 17);
    assert_eq!(&out[9..], &[0xFFu8; 8][..]);
}

#[test]
fn write_identifier_appends_thirty_two_bytes() {
    let mut bytes = [0u8; 32];
    for (i, b) in bytes.iter_mut().enumerate() {
        *b = 100 + i as u8;
    }
    let mut out = vec![1u8, 2];
    write_identifier(&mut out, &Pubkey::new_from_array(bytes));
    assert_eq!(out.len(), 34);
    assert_eq!(&out[..2], &[1u8, 2][..]);
    assert_eq!(&out[2..], &bytes[..]);
}

#[test]
fn positional_reads_use_the_offset() {
    let buffer = counting_bytes(64);
    assert_eq!(u64_at(&buffer, 3), 0x0a09_0807_0605_0403);
    assert_eq!(array_at::<4>(&buffer, 60), [60, 61, 62, 63]);
    let id = pubkey_at(&buffer, 32);
    assert_eq!(&id.to_bytes()[..], &buffer[32..64]);
}

#[test]
fn flag_byte_must_be_zero_or_one() {
    let buffer = [0u8, 1, 2, 255];
    assert_eq!(flag_at(&buffer, 0), Ok(false));
    assert_eq!(flag_at(&buffer, 1), Ok(true));
    assert_eq!(flag_at(&buffer, 2), Err(AmmError::InvalidFlagByte));
    assert_eq!(flag_at(&buffer, 3), Err(AmmError::InvalidFlagByte));
}

#[test]
fn positional_writes_touch_only_their_field() {
    let mut buffer = [0x55u8; 48];
    put_u64(&mut buffer, 4, 0x0102_0304_0506_0708);
    put_flag(&mut buffer, 0, true);
    put_flag(&mut buffer, 1, false);
    put_bytes(&mut buffer, 12, &[7, 7]);
    put_pubkey(&mut buffer, 16, &Pubkey([3u8; 32]));
    let mut expected = [0x55u8; 48];
    expected[0] = 1;
    expected[1] = 0;
    expected[4..12].copy_from_slice(&[8, 7, 6, 5, 4, 3, 2, 1]);
    expected[12] = 7;
    expected[13] = 7;
    for b in expected[16..48].iter_mut() {
        *b = 3;
    }
    assert_eq!(buffer, expected);
}

#[test]
fn identifier_is_its_bytes() {
    let bytes = [0xABu8; 32];
    let id = Pubkey::new_from_array(bytes);
    assert_eq!(id.to_bytes(), bytes);
    assert_eq!(id, Pubkey(bytes));
    assert_ne!(id, Pubkey::default());
    assert_eq!(Pubkey::default().to_bytes(), [0u8; 32]);
}
