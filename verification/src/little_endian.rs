//! Little-endian integers in a byte sequence.
use binread::io::Cursor;
use binread::BinReaderExt;
use vstd::prelude::*;

verus! {

/// The number that the `width` bytes of `bytes` from index `at` on stand for, the least
/// significant byte first.
pub open spec fn little_endian(bytes: Seq<u8>, at: int, width: nat) -> int
    decreases width,
{
    if width == 0 {
        0
    } else {
        bytes[at] + 0x100 * little_endian(bytes, at + 1, (width - 1) as nat)
    }
}

/// The two's complement reading of a 64-bit number.
pub open spec fn twos_complement_64(number: int) -> int {
    if number < 0x8000_0000_0000_0000 {
        number
    } else {
        number - 0x1_0000_0000_0000_0000
    }
}

/// Each byte of a number weighs 256 times as much as the one before it.
pub proof fn law_bytes_have_weights(bytes: Seq<u8>, at: int)
    ensures
        little_endian(bytes, at, 2) == bytes[at] + 0x100 * bytes[at + 1],
        little_endian(bytes, at, 4) == bytes[at] + 0x100 * bytes[at + 1] + 0x1_0000 * bytes[at + 2]
            + 0x100_0000 * bytes[at + 3],
        little_endian(bytes, at, 8) == bytes[at] + 0x100 * bytes[at + 1] + 0x1_0000 * bytes[at + 2]
            + 0x100_0000 * bytes[at + 3] + 0x1_0000_0000 * bytes[at + 4] + 0x100_0000_0000
            * bytes[at + 5] + 0x1_0000_0000_0000 * bytes[at + 6] + 0x100_0000_0000_0000 * bytes[at
            + 7],
{
    reveal_with_fuel(little_endian, 9);
}

/// The two's complement reading of a 64-bit number is the signed 64-bit number that is
/// congruent to it.
pub proof fn law_twos_complement_is_signed(number: int)
    requires
        0 <= number < 0x1_0000_0000_0000_0000,
    ensures
        i64::MIN <= twos_complement_64(number) <= i64::MAX,
        twos_complement_64(number) == number || twos_complement_64(number) == number
            - 0x1_0000_0000_0000_0000,
{
}

/// The error type of `binread`.
#[verifier::external_type_specification]
#[verifier::external_body]
pub struct ExBinReadError(binread::Error);

/// Calls `binread::BinReaderExt::read_le::<u8>` on a cursor that stands at index `at` of `bytes`.
///
/// Trusted: it succeeds exactly if the byte lies within `bytes`, and returns that byte.
#[verifier::external_body]
pub(crate) fn read_le_u8(bytes: &[u8], at: u64) -> (result: Result<u8, binread::Error>)
    ensures
        result is Ok <==> at + 1 <= bytes@.len(),
        result matches Ok(number) ==> number == bytes@[at as int],
{
    let mut cursor = Cursor::new(bytes);
    cursor.set_position(at);
    cursor.read_le::<u8>()
}

/// Calls `binread::BinReaderExt::read_le::<u16>` on a cursor that stands at index `at` of `bytes`.
///
/// Trusted: it succeeds exactly if two bytes lie there, and returns the little-endian number
/// that they stand for.
#[verifier::external_body]
pub(crate) fn read_le_u16(bytes: &[u8], at: u64) -> (result: Result<u16, binread::Error>)
    ensures
        result is Ok <==> at + 2 <= bytes@.len(),
        result matches Ok(number) ==> number == little_endian(bytes@, at as int, 2),
{
    let mut cursor = Cursor::new(bytes);
    cursor.set_position(at);
    cursor.read_le::<u16>()
}

/// Calls `binread::BinReaderExt::read_le::<u32>` on a cursor that stands at index `at` of `bytes`.
///
/// Trusted: it succeeds exactly if four bytes lie there, and returns the little-endian number
/// that they stand for.
#[verifier::external_body]
pub(crate) fn read_le_u32(bytes: &[u8], at: u64) -> (result: Result<u32, binread::Error>)
    ensures
        result is Ok <==> at + 4 <= bytes@.len(),
        result matches Ok(number) ==> number == little_endian(bytes@, at as int, 4),
{
    let mut cursor = Cursor::new(bytes);
    cursor.set_position(at);
    cursor.read_le::<u32>()
}

/// Calls `binread::BinReaderExt::read_le::<u64>` on a cursor that stands at index `at` of `bytes`.
///
/// Trusted: it succeeds exactly if eight bytes lie there, and returns the little-endian number
/// that they stand for.
#[verifier::external_body]
pub(crate) fn read_le_u64(bytes: &[u8], at: u64) -> (result: Result<u64, binread::Error>)
    ensures
        result is Ok <==> at + 8 <= bytes@.len(),
        result matches Ok(number) ==> number == little_endian(bytes@, at as int, 8),
{
    let mut cursor = Cursor::new(bytes);
    cursor.set_position(at);
    cursor.read_le::<u64>()
}

/// Calls `binread::BinReaderExt::read_le::<i64>` on a cursor that stands at index `at` of `bytes`.
///
/// Trusted: it succeeds exactly if eight bytes lie there, and returns the two's complement
/// reading of the little-endian number that they stand for.
#[verifier::external_body]
pub(crate) fn read_le_i64(bytes: &[u8], at: u64) -> (result: Result<i64, binread::Error>)
    ensures
        result is Ok <==> at + 8 <= bytes@.len(),
        result matches Ok(number) ==> number == twos_complement_64(
            little_endian(bytes@, at as int, 8),
        ),
{
    let mut cursor = Cursor::new(bytes);
    cursor.set_position(at);
    cursor.read_le::<i64>()
}

} // verus!
