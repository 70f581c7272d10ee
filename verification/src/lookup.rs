//! Names for the numeric codes of an ELF identification header.
//!
//! Each table is closed: a code that it does not list is named `"Unknown"`,
//! and no listed code is.

use vstd::prelude::*;

verus! {

/// Whether the OS ABI table lists `code`.
pub open spec fn osabi_is_listed(code: u8) -> bool {
    code == 0x00 || code == 0x01 || code == 0x02 || code == 0x03 || code == 0x06 || code == 0x07
        || code == 0x08 || code == 0x09 || code == 0x0C || code == 0x0D || code == 0x0E || code
        == 0x0F || code == 0x10 || code == 0x11 || code == 0x53
}

/// The name of the operating system ABI with the given code.
pub open spec fn osabi_name(code: u8) -> Seq<char> {
    match code {
        0x00 => "System V"@,
        0x01 => "HP-UX"@,
        0x02 => "NetBSD"@,
        0x03 => "Linux"@,
        0x06 => "Solaris"@,
        0x07 => "AIX"@,
        0x08 => "IRIX"@,
        0x09 => "FreeBSD"@,
        0x0C => "OpenBSD"@,
        0x0D => "OpenVMS"@,
        0x0E => "NonStop Kernel"@,
        0x0F => "AROS"@,
        0x10 => "Fenix OS"@,
        0x11 => "CloudABI"@,
        0x53 => "Sortix"@,
        _ => "Unknown"@,
    }
}

/// Whether the binary type table lists `code`.
pub open spec fn binary_type_is_listed(code: u16) -> bool {
    1 <= code <= 4
}

/// The name of the binary type with the given code.
pub open spec fn binary_type_name(code: u16) -> Seq<char> {
    match code {
        1 => "relocatable"@,
        2 => "executable"@,
        3 => "shared"@,
        4 => "core"@,
        _ => "Unknown"@,
    }
}

/// Whether the instruction set table lists `code`.
pub open spec fn isa_is_listed(code: u16) -> bool {
    code == 0x00 || code == 0x02 || code == 0x03 || code == 0x08 || code == 0x14 || code == 0x28
        || code == 0x2A || code == 0x32 || code == 0x3E || code == 0xB7
}

/// The name of the instruction set with the given code.
pub open spec fn isa_name(code: u16) -> Seq<char> {
    match code {
        0x00 => "No specific instruction set"@,
        0x02 => "SPARC"@,
        0x03 => "x86"@,
        0x08 => "MIPS"@,
        0x14 => "PowerPC"@,
        0x28 => "ARM"@,
        0x2A => "SuperH"@,
        0x32 => "IA-64"@,
        0x3E => "x86-64"@,
        0xB7 => "AArch64"@,
        _ => "Unknown"@,
    }
}

/// Names the operating system ABI that a header declares.
pub fn lookup_osabi(byte: &u8) -> (name: &'static str)
    ensures
        name@ == osabi_name(*byte),
        !osabi_is_listed(*byte) ==> name@ == "Unknown"@,
{
    match *byte {
        0x00 => "System V",
        0x01 => "HP-UX",
        0x02 => "NetBSD",
        0x03 => "Linux",
        0x06 => "Solaris",
        0x07 => "AIX",
        0x08 => "IRIX",
        0x09 => "FreeBSD",
        0x0C => "OpenBSD",
        0x0D => "OpenVMS",
        0x0E => "NonStop Kernel",
        0x0F => "AROS",
        0x10 => "Fenix OS",
        0x11 => "CloudABI",
        0x53 => "Sortix",
        _ => "Unknown",
    }
}

/// Names the binary type that a header declares.
pub fn lookup_binary_type(code: u16) -> (name: &'static str)
    ensures
        name@ == binary_type_name(code),
        !binary_type_is_listed(code) ==> name@ == "Unknown"@,
{
    match code {
        1 => "relocatable",
        2 => "executable",
        3 => "shared",
        4 => "core",
        _ => "Unknown",
    }
}

/// Names the instruction set that a header declares.
pub fn lookup_isa(code: u16) -> (name: &'static str)
    ensures
        name@ == isa_name(code),
        !isa_is_listed(code) ==> name@ == "Unknown"@,
{
    match code {
        0x00 => "No specific instruction set",
        0x02 => "SPARC",
        0x03 => "x86",
        0x08 => "MIPS",
        0x14 => "PowerPC",
        0x28 => "ARM",
        0x2A => "SuperH",
        0x32 => "IA-64",
        0x3E => "x86-64",
        0xB7 => "AArch64",
        _ => "Unknown",
    }
}

/// The OS ABI table names a code `"Unknown"` exactly when it does not list
/// the code.
pub proof fn lemma_osabi_unknown_iff_unlisted(code: u8)
    ensures
        osabi_name(code) == "Unknown"@ <==> !osabi_is_listed(code),
{
    reveal_strlit("Unknown");
    reveal_strlit("System V");
    reveal_strlit("HP-UX");
    reveal_strlit("NetBSD");
    reveal_strlit("Linux");
    reveal_strlit("Solaris");
    reveal_strlit("AIX");
    reveal_strlit("IRIX");
    reveal_strlit("FreeBSD");
    reveal_strlit("OpenBSD");
    reveal_strlit("OpenVMS");
    reveal_strlit("NonStop Kernel");
    reveal_strlit("AROS");
    reveal_strlit("Fenix OS");
    reveal_strlit("CloudABI");
    reveal_strlit("Sortix");
    // No listed name is seven characters long and begins with `U`.
    if osabi_is_listed(code) {
        assert(osabi_name(code).len() != 7 || osabi_name(code)[0] != 'U');
    }
}

/// The binary type table names a code `"Unknown"` exactly when it does not
/// list the code.
pub proof fn lemma_binary_type_unknown_iff_unlisted(code: u16)
    ensures
        binary_type_name(code) == "Unknown"@ <==> !binary_type_is_listed(code),
{
    reveal_strlit("Unknown");
    reveal_strlit("relocatable");
    reveal_strlit("executable");
    reveal_strlit("shared");
    reveal_strlit("core");
    // No listed name is seven characters long and begins with `U`.
    if binary_type_is_listed(code) {
        assert(binary_type_name(code).len() != 7 || binary_type_name(code)[0] != 'U');
    }
}

/// The instruction set table names a code `"Unknown"` exactly when it does
/// not list the code.
pub proof fn lemma_isa_unknown_iff_unlisted(code: u16)
    ensures
        isa_name(code) == "Unknown"@ <==> !isa_is_listed(code),
{
    reveal_strlit("Unknown");
    reveal_strlit("No specific instruction set");
    reveal_strlit("SPARC");
    reveal_strlit("x86");
    reveal_strlit("MIPS");
    reveal_strlit("PowerPC");
    reveal_strlit("ARM");
    reveal_strlit("SuperH");
    reveal_strlit("IA-64");
    reveal_strlit("x86-64");
    reveal_strlit("AArch64");
    // No listed name is seven characters long and begins with `U`.
    if isa_is_listed(code) {
        assert(isa_name(code).len() != 7 || isa_name(code)[0] != 'U');
    }
}

} // verus!
