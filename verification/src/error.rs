//! Why a header could not be decoded.

use vstd::prelude::*;

verus! {

/// The ways in which decoding fails.
#[derive(Clone, Copy, Debug, PartialEq, Eq)]
pub enum DecodeError {
    /// The input ends before the last byte that had to be read.
    TruncatedInput,
    /// The byte-order field holds this code, which declares neither
    /// little-endian nor big-endian order.
    UnknownByteOrder(u8),
}

} // verus!
