use elf_parser::lookup::{lookup_binary_type, lookup_isa, lookup_osabi};

const OSABI: [(u8, &str); 15] = [
    (0x00, "System V"),
    (0x01, "HP-UX"),
    (0x02, "NetBSD"),
    (0x03, "Linux"),
    (0x06, "Solaris"),
    (0x07, "AIX"),
    (0x08, "IRIX"),
    (0x09, "FreeBSD"),
    (0x0C, "OpenBSD"),
    (0x0D, "OpenVMS"),
    (0x0E, "NonStop Kernel"),
    (0x0F, "AROS"),
    (0x10, "Fenix OS"),
    (0x11, "CloudABI"),
    (0x53, "Sortix"),
];

const BINARY_TYPE: [(u16, &str); 4] =
    [(1, "relocatable"), (2, "executable"), (3, "shared"), (4, "core")];

const ISA: [(u16, &str); 10] = [
    (0x00, "No specific instruction set"),
    (0x02, "SPARC"),
    (0x03, "x86"),
    (0x08, "MIPS"),
    (0x14, "PowerPC"),
    (0x28, "ARM"),
    (0x2A, "SuperH"),
    (0x32, "IA-64"),
    (0x3E, "x86-64"),
    (0xB7, "AArch64"),
];

#[test]
fn osabi_table_names_each_listed_code() {
    for (code, name) in OSABI {
        assert_eq!(lookup_osabi(&code), name);
    }
}

#[test]
fn osabi_table_names_every_other_code_unknown() {
    for code in 0u8..=255 {
        let listed = OSABI.iter().any(|(listed, _)| *listed == code);
        assert_eq!(lookup_osabi(&code) == "Unknown", !listed);
    }
    assert_eq!(lookup_osabi(&0x04), "Unknown");
    assert_eq!(lookup_osabi(&0x05), "Unknown");
    assert_eq!(lookup_osabi(&0x0A), "Unknown");
    assert_eq!(lookup_osabi(&0x12), "Unknown");
    assert_eq!(lookup_osabi(&0xFF), "Unknown");
}

#[test]
fn binary_type_table_names_each_listed_code() {
    for (code, name) in BINARY_TYPE {
        assert_eq!(lookup_binary_type(code), name);
    }
}

#[test]
fn binary_type_table_names_every_other_code_unknown() {
    for code in 0u16..=u16::MAX {
        let listed = BINARY_TYPE.iter().any(|(listed, _)| *listed == code);
        assert_eq!(lookup_binary_type(code) == "Unknown", !listed);
    }
    assert_eq!(lookup_binary_type(0), "Unknown");
    assert_eq!(lookup_binary_type(5), "Unknown");
    assert_eq!(lookup_binary_type(0x0100), "Unknown");
    assert_eq!(lookup_binary_type(0xFFFF), "Unknown");
}

#[test]
fn isa_table_names_each_listed_code() {
    for (code, name) in ISA {
        assert_eq!(lookup_isa(code), name);
    }
}

#[test]
fn isa_table_names_every_other_code_unknown() {
    for code in 0u16..=u16::MAX {
        let listed = ISA.iter().any(|(listed, _)| *listed == code);
        assert_eq!(lookup_isa(code) == "Unknown", !listed);
    }
    assert_eq!(lookup_isa(0x01), "Unknown");
    assert_eq!(lookup_isa(0x3F), "Unknown");
    assert_eq!(lookup_isa(0x3E00), "Unknown");
    assert_eq!(lookup_isa(0xFFFF), "Unknown");
}
