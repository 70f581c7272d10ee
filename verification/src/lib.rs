//! Decoding of the 20-byte identification header at the start of an ELF file,
//! and the tables that name the codes found in it.
//!
//! [`header::parse`] turns the first bytes of a file into a [`header::Header`];
//! the functions of [`lookup`] name the codes that the header holds, and
//! [`hex::ByteBuf`] writes raw bytes as hexadecimal text.

pub mod byte_order;
pub mod error;
pub mod header;
pub mod hex;
pub mod lookup;
