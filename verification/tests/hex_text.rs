use elf_parser::hex::ByteBuf;

#[test]
fn elf_signature_in_hex() {
    assert_eq!(ByteBuf(&[0x7F, 0x45, 0x4C, 0x46]).lower_hex(), "0x7f 0x45 0x4c 0x46");
}

#[test]
fn no_bytes_give_no_text() {
    assert_eq!(ByteBuf(&[]).lower_hex(), "");
}

#[test]
fn one_byte_has_no_separator() {
    assert_eq!(ByteBuf(&[0xA0]).lower_hex(), "0xa0");
}

#[test]
fn small_bytes_keep_two_digits() {
    assert_eq!(ByteBuf(&[0x00, 0x05, 0x0F, 0x10]).lower_hex(), "0x00 0x05 0x0f 0x10");
}

#[test]
fn a_byte_equal_to_the_last_one_is_still_followed_by_a_space() {
    assert_eq!(ByteBuf(&[0x46, 0x01, 0x46]).lower_hex(), "0x46 0x01 0x46");
    assert_eq!(ByteBuf(&[0xFF, 0xFF]).lower_hex(), "0xff 0xff");
}

#[test]
fn every_byte_value_is_written_as_two_lowercase_digits() {
    for byte in 0u8..=255 {
        assert_eq!(ByteBuf(&[byte]).lower_hex(), format!("0x{:02x}", byte));
    }
}

#[test]
fn text_length_follows_the_number_of_bytes() {
    let bytes = [0x12u8; 20];
    for len in 1..=bytes.len() {
        assert_eq!(ByteBuf(&bytes[..len]).lower_hex().len(), 5 * len - 1);
    }
}
