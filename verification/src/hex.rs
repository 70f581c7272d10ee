//! Raw bytes as hexadecimal text.

use vstd::prelude::*;
use vstd::string::StringExecFns;

verus! {

/// The lowercase hexadecimal digit that stands for `value`.
pub open spec fn hex_digit(value: int) -> char
    recommends
        0 <= value < 16,
{
    "0123456789abcdef"@[value]
}

/// The text of one byte: `0x`, then its two hexadecimal digits.
pub open spec fn byte_text(byte: u8) -> Seq<char> {
    seq!['0', 'x', hex_digit(byte as int / 16), hex_digit(byte as int % 16)]
}

/// The text of a run of bytes: the text of each byte in turn, with one space
/// between neighbours and none at either end.
pub open spec fn bytes_text(bytes: Seq<u8>) -> Seq<char>
    decreases bytes.len(),
{
    if bytes.len() == 0 {
        Seq::empty()
    } else if bytes.len() == 1 {
        byte_text(bytes[0])
    } else {
        bytes_text(bytes.drop_last()) + seq![' '] + byte_text(bytes.last())
    }
}

/// The digit for `value`, as a string of one character.
fn digit_str(value: u8) -> (digit: &'static str)
    requires
        value < 16,
    ensures
        digit@ == seq![hex_digit(value as int)],
{
    proof {
        reveal_strlit("0123456789abcdef");
    }
    "0123456789abcdef".substring_ascii(value as usize, value as usize + 1)
}

/// A borrowed run of bytes that can be written as hexadecimal text.
pub struct ByteBuf<'a>(pub &'a [u8]);

impl<'a> ByteBuf<'a> {
    /// Writes the bytes as `0x`-prefixed, two-digit, lowercase hexadecimal
    /// numbers separated by single spaces.
    pub fn lower_hex(&self) -> (text: String)
        ensures
            text@ == bytes_text(self.0@),
    {
        let bytes = self.0;
        let mut text = String::new();
        let mut done: usize = 0;
        while done < bytes.len()
            invariant
                done <= bytes@.len(),
                text@ == bytes_text(bytes@.take(done as int)),
            decreases bytes@.len() - done,
        {
            let byte = bytes[done];
            if done > 0 {
                text.append(" ");
            }
            text.append("0x");
            text.append(digit_str(byte / 16));
            text.append(digit_str(byte % 16));
            proof {
                reveal_strlit(" ");
                reveal_strlit("0x");
                assert(bytes@.take(done + 1).drop_last() == bytes@.take(done as int));
            }
            done += 1;
        }
        assert(bytes@.take(done as int) == bytes@);
        text
    }
}

/// Every byte takes four characters and every gap between two bytes takes
/// one.
pub proof fn lemma_bytes_text_len(bytes: Seq<u8>)
    ensures
        bytes.len() == 0 ==> bytes_text(bytes).len() == 0,
        bytes.len() > 0 ==> bytes_text(bytes).len() == 5 * bytes.len() - 1,
    decreases bytes.len(),
{
    if bytes.len() > 1 {
        lemma_bytes_text_len(bytes.drop_last());
    }
}

} // verus!
