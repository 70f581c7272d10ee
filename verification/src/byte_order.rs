//! Two-byte fields, read in the byte order that a header declares.

use crate::error::DecodeError;
use byteorder::{BigEndian, LittleEndian, ReadBytesExt};
use std::io::Cursor;
use vstd::prelude::*;

verus! {

/// Byte-order code of a file whose multi-byte fields are little-endian.
pub const LITTLE_ENDIAN: u8 = 0x01;

/// Byte-order code of a file whose multi-byte fields are big-endian.
pub const BIG_ENDIAN: u8 = 0x02;

/// Whether `code` declares a byte order.
pub open spec fn is_byte_order(code: u8) -> bool {
    code == LITTLE_ENDIAN || code == BIG_ENDIAN
}

/// The number that the first two bytes of `window` spell, least significant
/// byte first. Two bytes never spell more than a `u16` holds.
pub open spec fn little_endian_u16(window: Seq<u8>) -> u16
    recommends
        window.len() >= 2,
{
    (window[0] + 0x100 * window[1]) as u16
}

/// The number that the first two bytes of `window` spell, most significant
/// byte first. Two bytes never spell more than a `u16` holds.
pub open spec fn big_endian_u16(window: Seq<u8>) -> u16
    recommends
        window.len() >= 2,
{
    (0x100 * window[0] + window[1]) as u16
}

/// The number that the first two bytes of `window` spell in the order that
/// `byte_order` declares.
pub open spec fn u16_in_order(window: Seq<u8>, byte_order: u8) -> u16
    recommends
        window.len() >= 2,
        is_byte_order(byte_order),
{
    if byte_order == LITTLE_ENDIAN {
        little_endian_u16(window)
    } else {
        big_endian_u16(window)
    }
}

/// What [`decode_u16`] returns: the byte-order code is judged first, then
/// the length of the window.
pub open spec fn decode_u16_spec(window: Seq<u8>, byte_order: u8) -> Result<u16, DecodeError> {
    if !is_byte_order(byte_order) {
        Err(DecodeError::UnknownByteOrder(byte_order))
    } else if window.len() < 2 {
        Err(DecodeError::TruncatedInput)
    } else {
        Ok(u16_in_order(window, byte_order))
    }
}

/// `std::io::Error`, the error of a read that failed. It is carried from
/// the reader to [`decode_u16`] and never looked into.
#[verifier::external_type_specification]
#[verifier::external_body]
pub struct ExIoError(std::io::Error);

/// `byteorder::ReadBytesExt::read_u16::<LittleEndian>`, called on a cursor
/// over `window`.
///
/// Taken on trust: the read succeeds exactly when the window holds two bytes
/// or more, and then yields the first two as a little-endian number.
#[verifier::external_body]
fn read_u16_le(window: &[u8]) -> (r: Result<u16, std::io::Error>)
    ensures
        r is Ok <==> window@.len() >= 2,
        r matches Ok(value) ==> value == little_endian_u16(window@),
{
    Cursor::new(window).read_u16::<LittleEndian>()
}

/// `byteorder::ReadBytesExt::read_u16::<BigEndian>`, called on a cursor over
/// `window`.
///
/// Taken on trust: the read succeeds exactly when the window holds two bytes
/// or more, and then yields the first two as a big-endian number.
#[verifier::external_body]
fn read_u16_be(window: &[u8]) -> (r: Result<u16, std::io::Error>)
    ensures
        r is Ok <==> window@.len() >= 2,
        r matches Ok(value) ==> value == big_endian_u16(window@),
{
    Cursor::new(window).read_u16::<BigEndian>()
}

/// Reads the 16-bit unsigned number at the start of `window` in the byte
/// order that `byte_order` declares.
///
/// A code that declares no byte order is refused before anything is read.
pub fn decode_u16(window: &[u8], byte_order: u8) -> (r: Result<u16, DecodeError>)
    ensures
        r == decode_u16_spec(window@, byte_order),
{
    let read = match byte_order {
        LITTLE_ENDIAN => read_u16_le(window),
        BIG_ENDIAN => read_u16_be(window),
        _ => {
            return Err(DecodeError::UnknownByteOrder(byte_order));
        },
    };
    match read {
        Ok(value) => Ok(value),
        Err(_) => Err(DecodeError::TruncatedInput),
    }
}

} // verus!
