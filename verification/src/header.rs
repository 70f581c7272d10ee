//! The identification header and its decoder.

use crate::byte_order::{decode_u16, is_byte_order, u16_in_order, BIG_ENDIAN, LITTLE_ENDIAN};
use crate::error::DecodeError;
use crate::lookup::isa_name;
use vstd::prelude::*;

verus! {

/// Number of bytes at the start of a file that make up the header.
pub const HEADER_LEN: usize = 20;

/// The fields of an ELF identification header.
///
/// Bytes 9 to 15 of the input are padding and have no field.
#[derive(Clone, Copy, Debug, PartialEq, Eq)]
pub struct Header {
    /// Bytes 0 to 3: the file signature, as found.
    pub magic_bytes: [u8; 4],
    /// Byte 4: word size class.
    pub class: u8,
    /// Byte 5: byte-order code.
    pub data_endianness: u8,
    /// Byte 6: format version.
    pub version: u8,
    /// Byte 7: OS ABI code.
    pub osabi: u8,
    /// Byte 8: ABI version.
    pub abi_version: u8,
    /// Bytes 16 and 17, in the declared byte order: binary type code.
    pub binary_type: u16,
    /// Bytes 18 and 19, in the declared byte order: instruction set code.
    pub machine: u16,
}

/// The header that the first [`HEADER_LEN`] bytes of `bytes` spell.
pub open spec fn header_of(bytes: Seq<u8>) -> Header
    recommends
        bytes.len() >= HEADER_LEN,
        is_byte_order(bytes[5]),
{
    Header {
        magic_bytes: [bytes[0], bytes[1], bytes[2], bytes[3]],
        class: bytes[4],
        data_endianness: bytes[5],
        version: bytes[6],
        osabi: bytes[7],
        abi_version: bytes[8],
        binary_type: u16_in_order(bytes.subrange(16, 18), bytes[5]),
        machine: u16_in_order(bytes.subrange(18, 20), bytes[5]),
    }
}

/// What [`parse`] returns for each input.
pub open spec fn parse_spec(bytes: Seq<u8>) -> Result<Header, DecodeError> {
    if bytes.len() < HEADER_LEN {
        Err(DecodeError::TruncatedInput)
    } else if !is_byte_order(bytes[5]) {
        Err(DecodeError::UnknownByteOrder(bytes[5]))
    } else {
        Ok(header_of(bytes))
    }
}

/// Decodes the identification header at the start of `bytes`.
///
/// Fails with [`DecodeError::TruncatedInput`] on fewer than [`HEADER_LEN`]
/// bytes and, on an input that is long enough, with
/// [`DecodeError::UnknownByteOrder`] when byte 5 declares no byte order.
/// The signature in the first four bytes is copied, not judged, and nothing
/// past the header is read.
pub fn parse(bytes: &[u8]) -> (r: Result<Header, DecodeError>)
    ensures
        r == parse_spec(bytes@),
        bytes@.len() < HEADER_LEN ==> r == Err::<Header, DecodeError>(DecodeError::TruncatedInput),
        bytes@.len() >= HEADER_LEN && !is_byte_order(bytes@[5]) ==> r == Err::<Header, DecodeError>(
            DecodeError::UnknownByteOrder(bytes@[5]),
        ),
        bytes@.len() >= HEADER_LEN && is_byte_order(bytes@[5]) ==> r == Ok::<Header, DecodeError>(
            header_of(bytes@),
        ),
{
    if bytes.len() < HEADER_LEN {
        return Err(DecodeError::TruncatedInput);
    }
    let data_endianness = bytes[5];
    let binary_type = decode_u16(&bytes[16..18], data_endianness)?;
    let machine = decode_u16(&bytes[18..20], data_endianness)?;
    Ok(
        Header {
            magic_bytes: [bytes[0], bytes[1], bytes[2], bytes[3]],
            class: bytes[4],
            data_endianness,
            version: bytes[6],
            osabi: bytes[7],
            abi_version: bytes[8],
            binary_type,
            machine,
        },
    )
}

/// Decoding is a function of the input alone: two results of decoding the
/// same bytes are the same header, or the same error.
pub proof fn lemma_parse_deterministic(
    bytes: Seq<u8>,
    first: Result<Header, DecodeError>,
    second: Result<Header, DecodeError>,
)
    requires
        first == parse_spec(bytes),
        second == parse_spec(bytes),
    ensures
        first == second,
{
}

/// Only bytes 0 to 8 and 16 to 19 bear on the result: two inputs of at least
/// [`HEADER_LEN`] bytes that agree there decode alike, whatever their padding
/// and whatever follows the header.
pub proof fn lemma_parse_reads_fields_only(a: Seq<u8>, b: Seq<u8>)
    requires
        a.len() >= HEADER_LEN,
        b.len() >= HEADER_LEN,
        forall|i: int| 0 <= i < 9 ==> a[i] == b[i],
        forall|i: int| 16 <= i < 20 ==> a[i] == b[i],
    ensures
        parse_spec(a) == parse_spec(b),
{
    assert(a.subrange(16, 18) =~= b.subrange(16, 18));
    assert(a.subrange(18, 20) =~= b.subrange(18, 20));
}

/// A little-endian header with the bytes `3E 00` at offsets 18 and 19 decodes
/// to instruction set code `0x3E`, which is named `"x86-64"`.
pub proof fn lemma_little_endian_x86_64(bytes: Seq<u8>)
    requires
        bytes.len() >= HEADER_LEN,
        bytes[5] == LITTLE_ENDIAN,
        bytes[18] == 0x3E,
        bytes[19] == 0x00,
    ensures
        parse_spec(bytes) is Ok,
        parse_spec(bytes)->Ok_0.machine == 0x3E,
        isa_name(parse_spec(bytes)->Ok_0.machine) == "x86-64"@,
{
}

/// A big-endian header with the bytes `00 3E` at offsets 18 and 19 decodes to
/// instruction set code `0x3E`, which is named `"x86-64"`.
pub proof fn lemma_big_endian_x86_64(bytes: Seq<u8>)
    requires
        bytes.len() >= HEADER_LEN,
        bytes[5] == BIG_ENDIAN,
        bytes[18] == 0x00,
        bytes[19] == 0x3E,
    ensures
        parse_spec(bytes) is Ok,
        parse_spec(bytes)->Ok_0.machine == 0x3E,
        isa_name(parse_spec(bytes)->Ok_0.machine) == "x86-64"@,
{
}

/// Byte-order symmetry: a little-endian header and a big-endian header whose
/// two-byte fields hold the same bytes in opposite order decode to the same
/// binary type and the same instruction set.
pub proof fn lemma_byte_order_symmetry(little: Seq<u8>, big: Seq<u8>)
    requires
        little.len() >= HEADER_LEN,
        big.len() >= HEADER_LEN,
        little[5] == LITTLE_ENDIAN,
        big[5] == BIG_ENDIAN,
        big[16] == little[17],
        big[17] == little[16],
        big[18] == little[19],
        big[19] == little[18],
    ensures
        header_of(big).binary_type == header_of(little).binary_type,
        header_of(big).machine == header_of(little).machine,
{
}

} // verus!
