//! Fixed-width scalars read from and written to byte buffers.
//!
//! Two families live here. The sequential readers and writers consume the
//! front of a buffer or append to a growable one, so that fields can be
//! chained. The positional ones read or overwrite a field at a fixed offset
//! of a buffer that the caller has already checked to be long enough.

use crate::error::AmmError;
use crate::pubkey::Pubkey;
use vstd::bytes::{
    lemma_auto_spec_u64_to_from_le_bytes,
    spec_u64_from_le_bytes,
    spec_u64_to_le_bytes,
    u64_from_le_bytes,
    u64_to_le_bytes,
};
use vstd::prelude::*;
use vstd::slice::slice_subrange;

verus! {

/// The array of `N` bytes whose contents are `bytes`; meaningful for
/// sequences of length `N`.
pub open spec fn spec_array<const N: usize>(bytes: Seq<u8>) -> [u8; N]
    recommends
        bytes.len() == N,
{
    choose|a: [u8; N]| a@ == bytes
}

/// Any `N` bytes are the contents of some array, and `spec_array` picks it.
pub proof fn lemma_spec_array<const N: usize>(bytes: Seq<u8>)
    requires
        bytes.len() == N,
    ensures
        spec_array::<N>(bytes)@ == bytes,
{
    let witness = array_with_prefix::<N>(bytes, N as nat);
    assert(witness@ =~= bytes);
}

/// Two arrays with the same contents are the same array.
pub proof fn lemma_array_injective<const N: usize>(a: [u8; N], b: [u8; N])
    requires
        a@ == b@,
    ensures
        a == b,
{
    assert(a =~= b);
}

/// Some array that agrees with `bytes` on its first `n` positions.
proof fn array_with_prefix<const N: usize>(bytes: Seq<u8>, n: nat) -> (a: [u8; N])
    requires
        bytes.len() == N,
        n <= N,
    ensures
        forall|i: int| 0 <= i < n ==> a@[i] == bytes[i],
    decreases n,
{
    if n == 0 {
        arbitrary()
    } else {
        let shorter = array_with_prefix::<N>(bytes, (n - 1) as nat);
        vstd::array::spec_array_update(shorter, n - 1, bytes[n - 1])
    }
}

/// The unsigned 64-bit integer stored little-endian in the 8 bytes at `offset`.
pub open spec fn spec_u64_at(bytes: Seq<u8>, offset: int) -> u64
    recommends
        0 <= offset,
        offset + 8 <= bytes.len(),
{
    spec_u64_from_le_bytes(bytes.subrange(offset, offset + 8))
}

/// The identifier stored in the 32 bytes at `offset`.
pub open spec fn spec_pubkey_at(bytes: Seq<u8>, offset: int) -> Pubkey
    recommends
        0 <= offset,
        offset + 32 <= bytes.len(),
{
    Pubkey::spec_from_bytes(bytes.subrange(offset, offset + 32))
}

/// What a boolean flag byte stands for: 0 is false, 1 is true, nothing else is a flag.
pub open spec fn spec_flag(byte: u8) -> Result<bool, AmmError> {
    if byte == 0 {
        Ok(false)
    } else if byte == 1 {
        Ok(true)
    } else {
        Err(AmmError::InvalidFlagByte)
    }
}

/// The byte that encodes a boolean flag.
pub open spec fn spec_flag_byte(flag: bool) -> u8 {
    if flag {
        1
    } else {
        0
    }
}

/// Reading a `u64` off the front of `buffer`: the value and what is left, or
/// `TruncatedInput` when fewer than 8 bytes are there.
pub open spec fn spec_read_u64(buffer: Seq<u8>) -> Result<(u64, Seq<u8>), AmmError> {
    if buffer.len() >= 8 {
        Ok((spec_u64_at(buffer, 0), buffer.subrange(8, buffer.len() as int)))
    } else {
        Err(AmmError::TruncatedInput)
    }
}

/// Reading an identifier off the front of `buffer`: the identifier and what is
/// left, or `TruncatedInput` when fewer than 32 bytes are there.
pub open spec fn spec_read_identifier(buffer: Seq<u8>) -> Result<(Pubkey, Seq<u8>), AmmError> {
    if buffer.len() >= 32 {
        Ok((spec_pubkey_at(buffer, 0), buffer.subrange(32, buffer.len() as int)))
    } else {
        Err(AmmError::TruncatedInput)
    }
}

/// What was written is what is read: the encoding of `value`, followed by
/// anything, reads back as `value` and leaves exactly what followed.
pub proof fn lemma_read_u64_of_written(value: u64, rest: Seq<u8>)
    ensures
        spec_u64_to_le_bytes(value).len() == 8,
        spec_read_u64(spec_u64_to_le_bytes(value) + rest) == Ok::<_, AmmError>((value, rest)),
{
    lemma_auto_spec_u64_to_from_le_bytes();
    let buffer = spec_u64_to_le_bytes(value) + rest;
    assert(buffer.subrange(0, 8) =~= spec_u64_to_le_bytes(value));
    assert(buffer.subrange(8, buffer.len() as int) =~= rest);
}

/// What was written is what is read: the bytes of `id`, followed by anything,
/// read back as `id` and leave exactly what followed.
pub proof fn lemma_read_identifier_of_written(id: Pubkey, rest: Seq<u8>)
    ensures
        id@.len() == 32,
        spec_read_identifier(id@ + rest) == Ok::<_, AmmError>((id, rest)),
{
    let buffer = id@ + rest;
    assert(buffer.subrange(0, 32) =~= id@);
    assert(buffer.subrange(32, buffer.len() as int) =~= rest);
    id.lemma_from_bytes_of_view();
}

/// A flag survives its byte: the byte written for a flag reads back as that flag.
pub proof fn lemma_flag_of_flag_byte(flag: bool)
    ensures
        spec_flag(spec_flag_byte(flag)) == Ok::<_, AmmError>(flag),
{
}

/// `buffer` with the bytes from `offset` on replaced by `data`, its length unchanged.
pub open spec fn spec_overwrite(buffer: Seq<u8>, offset: int, data: Seq<u8>) -> Seq<u8>
    recommends
        0 <= offset,
        offset + data.len() <= buffer.len(),
{
    Seq::new(
        buffer.len(),
        |i: int|
            if offset <= i < offset + data.len() {
                data[i - offset]
            } else {
                buffer[i]
            },
    )
}

/// Copies the `N` bytes at `offset` out of `src`.
pub fn array_at<const N: usize>(src: &[u8], offset: usize) -> (out: [u8; N])
    requires
        offset + N <= src.len(),
    ensures
        out@ == src@.subrange(offset as int, offset + N),
        out == spec_array::<N>(src@.subrange(offset as int, offset + N)),
{
    let mut out = [0u8; N];
    let mut i: usize = 0;
    while i < N
        invariant
            i <= N,
            offset + N <= src.len(),
            forall|k: int| 0 <= k < i ==> out@[k] == src@[offset + k],
        decreases N - i,
    {
        out[i] = src[offset + i];
        i += 1;
    }
    proof {
        let bytes = src@.subrange(offset as int, offset + N);
        assert(out@ =~= bytes);
        lemma_spec_array::<N>(bytes);
        lemma_array_injective(out, spec_array::<N>(bytes));
    }
    out
}

/// Reads the little-endian `u64` at `offset`.
pub fn u64_at(src: &[u8], offset: usize) -> (value: u64)
    requires
        offset + 8 <= src.len(),
    ensures
        value == spec_u64_at(src@, offset as int),
{
    u64_from_le_bytes(slice_subrange(src, offset, offset + 8))
}

/// Reads the identifier at `offset`.
pub fn pubkey_at(src: &[u8], offset: usize) -> (id: Pubkey)
    requires
        offset + 32 <= src.len(),
    ensures
        id == spec_pubkey_at(src@, offset as int),
        id@ == src@.subrange(offset as int, offset + 32),
{
    Pubkey::new_from_array(array_at::<32>(src, offset))
}

/// Reads the boolean flag at `offset`, rejecting any byte other than 0 and 1.
pub fn flag_at(src: &[u8], offset: usize) -> (r: Result<bool, AmmError>)
    requires
        offset < src.len(),
    ensures
        r == spec_flag(src@[offset as int]),
{
    let byte = src[offset];
    if byte == 0 {
        Ok(false)
    } else if byte == 1 {
        Ok(true)
    } else {
        Err(AmmError::InvalidFlagByte)
    }
}

/// Overwrites the bytes of `dst` from `offset` on with `data`.
pub fn put_bytes(dst: &mut [u8], offset: usize, data: &[u8])
    requires
        offset + data.len() <= old(dst).len(),
    ensures
        final(dst)@ == spec_overwrite(old(dst)@, offset as int, data@),
{
    let n = data.len();
    let mut i: usize = 0;
    while i < n
        invariant
            i <= n,
            n == data.len(),
            dst.len() == old(dst).len(),
            offset + n <= dst.len(),
            forall|k: int|
                0 <= k < dst.len() ==> dst@[k] == if offset <= k < offset + i {
                    data@[k - offset]
                } else {
                    old(dst)@[k]
                },
        decreases n - i,
    {
        dst[offset + i] = data[i];
        i += 1;
    }
    assert(dst@ =~= spec_overwrite(old(dst)@, offset as int, data@));
}

/// Overwrites the 8 bytes at `offset` with `value`, little-endian.
pub fn put_u64(dst: &mut [u8], offset: usize, value: u64)
    requires
        offset + 8 <= old(dst).len(),
    ensures
        final(dst)@ == spec_overwrite(old(dst)@, offset as int, spec_u64_to_le_bytes(value)),
{
    let bytes = u64_to_le_bytes(value);
    put_bytes(dst, offset, bytes.as_slice());
}

/// Overwrites the 32 bytes at `offset` with the identifier.
pub fn put_pubkey(dst: &mut [u8], offset: usize, id: &Pubkey)
    requires
        offset + 32 <= old(dst).len(),
    ensures
        final(dst)@ == spec_overwrite(old(dst)@, offset as int, id@),
{
    put_bytes(dst, offset, id.0.as_slice());
}

/// Overwrites the byte at `offset` with the encoding of a boolean flag.
pub fn put_flag(dst: &mut [u8], offset: usize, flag: bool)
    requires
        offset < old(dst).len(),
    ensures
        final(dst)@ == spec_overwrite(old(dst)@, offset as int, seq![spec_flag_byte(flag)]),
{
    let byte: u8 = if flag {
        1
    } else {
        0
    };
    dst[offset] = byte;
    assert(dst@ =~= spec_overwrite(old(dst)@, offset as int, seq![spec_flag_byte(flag)]));
}

/// Reads exactly `N` bytes from the front of `buffer` and returns them with
/// the unconsumed remainder; fails with `TruncatedInput` on fewer than `N` bytes.
pub fn read_exact<const N: usize>(buffer: &[u8]) -> (r: Result<([u8; N], &[u8]), AmmError>)
    ensures
        match r {
            Ok((bytes, rest)) => {
                &&& buffer@.len() >= N
                &&& bytes@ == buffer@.subrange(0, N as int)
                &&& bytes == spec_array::<N>(buffer@.subrange(0, N as int))
                &&& rest@ == buffer@.subrange(N as int, buffer@.len() as int)
            },
            Err(e) => buffer@.len() < N && e == AmmError::TruncatedInput,
        },
{
    if buffer.len() >= N {
        let bytes = array_at::<N>(buffer, 0);
        let rest = slice_subrange(buffer, N, buffer.len());
        Ok((bytes, rest))
    } else {
        Err(AmmError::TruncatedInput)
    }
}

/// Reads a little-endian `u64` from the front of `buffer` and returns it with
/// the unconsumed remainder; fails with `TruncatedInput` on fewer than 8 bytes.
pub fn read_u64(buffer: &[u8]) -> (r: Result<(u64, &[u8]), AmmError>)
    ensures
        match r {
            Ok((value, rest)) => spec_read_u64(buffer@) == Ok::<_, AmmError>((value, rest@)),
            Err(e) => spec_read_u64(buffer@) == Err::<(u64, Seq<u8>), _>(e),
        },
{
    match read_exact::<8>(buffer) {
        Ok((bytes, rest)) => Ok((u64_from_le_bytes(bytes.as_slice()), rest)),
        Err(e) => Err(e),
    }
}

/// Reads a 32-byte identifier from the front of `buffer` and returns it with
/// the unconsumed remainder; fails with `TruncatedInput` on fewer than 32 bytes.
pub fn read_identifier(buffer: &[u8]) -> (r: Result<(Pubkey, &[u8]), AmmError>)
    ensures
        match r {
            Ok((id, rest)) => spec_read_identifier(buffer@) == Ok::<_, AmmError>((id, rest@)),
            Err(e) => spec_read_identifier(buffer@) == Err::<(Pubkey, Seq<u8>), _>(e),
        },
{
    match read_exact::<32>(buffer) {
        Ok((bytes, rest)) => Ok((Pubkey::new_from_array(bytes), rest)),
        Err(e) => Err(e),
    }
}

/// Appends `value` to `out` as 8 little-endian bytes.
pub fn write_u64(out: &mut Vec<u8>, value: u64)
    ensures
        final(out)@ == old(out)@ + spec_u64_to_le_bytes(value),
{
    let mut bytes = u64_to_le_bytes(value);
    out.append(&mut bytes);
}

/// Appends the 32 raw bytes of `id` to `out`.
pub fn write_identifier(out: &mut Vec<u8>, id: &Pubkey)
    ensures
        final(out)@ == old(out)@ + id@,
{
    let mut i: usize = 0;
    while i < 32
        invariant
            i <= 32,
            out@ == old(out)@ + id@.subrange(0, i as int),
        decreases 32 - i,
    {
        out.push(id.0[i]);
        assert(id@.subrange(0, i + 1) =~= id@.subrange(0, i as int).push(id@[i as int]));
        i += 1;
    }
    assert(id@.subrange(0, 32) =~= id@);
}

} // verus!
