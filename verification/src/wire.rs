//! Encodings of the field types of records and instructions. Every field has
//! a fixed width; the bytes of each field are produced and read by `borsh`.

use vstd::prelude::*;

verus! {

/// The integer below 2^32 that has the same two's complement as `value`.
pub open spec fn unsigned_of(value: i32) -> int {
    if value < 0 {
        value + 0x1_0000_0000
    } else {
        value as int
    }
}

/// The encoding of a 32-bit signed integer: the four bytes of its two's
/// complement, least significant first.
pub open spec fn i32_encoding(value: i32) -> Seq<u8> {
    let n = unsigned_of(value);
    seq![
        (n % 256) as u8,
        (n / 256 % 256) as u8,
        (n / 65536 % 256) as u8,
        (n / 16777216 % 256) as u8,
    ]
}

/// The integer that four bytes encode.
pub open spec fn i32_decoding(bytes: Seq<u8>) -> i32
    recommends
        bytes.len() == 4,
{
    let n = bytes[0] + bytes[1] * 256 + bytes[2] * 65536 + bytes[3] * 16777216;
    if n >= 0x8000_0000 {
        (n - 0x1_0000_0000) as i32
    } else {
        n as i32
    }
}

/// Decoding undoes encoding.
pub proof fn lemma_i32_decoding_of_encoding(value: i32)
    ensures
        i32_encoding(value).len() == 4,
        i32_decoding(i32_encoding(value)) == value,
{
}

/// The digits of a number written in base 256 are found again by division.
proof fn lemma_base_256_digits(b0: int, b1: int, b2: int, b3: int)
    requires
        0 <= b0 < 256,
        0 <= b1 < 256,
        0 <= b2 < 256,
        0 <= b3 < 256,
    ensures
        (b0 + b1 * 256 + b2 * 65536 + b3 * 16777216) % 256 == b0,
        (b0 + b1 * 256 + b2 * 65536 + b3 * 16777216) / 256 % 256 == b1,
        (b0 + b1 * 256 + b2 * 65536 + b3 * 16777216) / 65536 % 256 == b2,
        (b0 + b1 * 256 + b2 * 65536 + b3 * 16777216) / 16777216 % 256 == b3,
{
    let n = b0 + b1 * 256 + b2 * 65536 + b3 * 16777216;
    assert(n == (b1 + b2 * 256 + b3 * 65536) * 256 + b0);
    assert(n / 256 == b1 + b2 * 256 + b3 * 65536);
    assert(n == (b2 + b3 * 256) * 65536 + (b0 + b1 * 256));
    assert(n / 65536 == b2 + b3 * 256);
    assert(n == b3 * 16777216 + (b0 + b1 * 256 + b2 * 65536));
    assert(n / 16777216 == b3);
}

/// Encoding undoes decoding.
pub proof fn lemma_i32_encoding_of_decoding(bytes: Seq<u8>)
    requires
        bytes.len() == 4,
    ensures
        i32_encoding(i32_decoding(bytes)) == bytes,
{
    lemma_base_256_digits(bytes[0] as int, bytes[1] as int, bytes[2] as int, bytes[3] as int);
}

/// Calls `borsh::BorshSerialize::try_to_vec` on an `i32`. borsh writes the
/// result of `i32::to_le_bytes` to a fresh vector, which cannot fail.
#[verifier::external_body]
pub(crate) fn i32_to_bytes(value: i32) -> (bytes: Option<Vec<u8>>)
    ensures
        bytes is Some,
        bytes matches Some(b) ==> b@ == i32_encoding(value),
{
    borsh::BorshSerialize::try_to_vec(&value).ok()
}

/// Calls `borsh::BorshDeserialize::try_from_slice` for `i32`. borsh reads
/// four bytes with `i32::from_le_bytes` and fails unless the slice holds
/// exactly four bytes.
#[verifier::external_body]
pub(crate) fn i32_from_bytes(bytes: &[u8]) -> (value: Option<i32>)
    ensures
        value is Some <==> bytes@.len() == 4,
        value matches Some(v) ==> v == i32_decoding(bytes@),
{
    <i32 as borsh::BorshDeserialize>::try_from_slice(bytes).ok()
}

/// Calls `borsh::BorshSerialize::try_to_vec` on an array of 512 bytes. borsh
/// writes the bytes of the array, in order and with nothing added, to a fresh
/// vector, which cannot fail.
#[verifier::external_body]
pub(crate) fn buffer_to_bytes(buffer: &[u8; 512]) -> (bytes: Option<Vec<u8>>)
    ensures
        bytes is Some,
        bytes matches Some(b) ==> b@ == buffer@,
{
    borsh::BorshSerialize::try_to_vec(buffer).ok()
}

/// Calls `borsh::BorshDeserialize::try_from_slice` for an array of 512 bytes.
/// borsh fills the array from the slice, in order, and fails unless the slice
/// holds exactly 512 bytes.
#[verifier::external_body]
pub(crate) fn buffer_from_bytes(bytes: &[u8]) -> (buffer: Option<[u8; 512]>)
    ensures
        buffer is Some <==> bytes@.len() == 512,
        buffer matches Some(b) ==> b@ == bytes@,
{
    <[u8; 512] as borsh::BorshDeserialize>::try_from_slice(bytes).ok()
}

} // verus!
