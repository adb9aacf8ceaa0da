//! Text that crosses the native boundary: C strings come in as bytes, and
//! what goes out as a C string holds no NUL character.

use vstd::prelude::*;
use vstd::slice::*;
use vstd::string::*;
use vstd::utf8::*;

verus! {

/// The text that `String::from_utf8_lossy` reads out of a byte string.
pub uninterp spec fn lossy_text(bytes: Seq<u8>) -> Seq<char>;

/// Whether `char::is_whitespace` counts a character as white space.
pub uninterp spec fn is_whitespace(c: char) -> bool;

/// Calls `String::from_utf8_lossy` and takes ownership of what it gives.
/// Claims that the text depends on the bytes alone.
#[verifier::external_body]
pub(crate) fn from_utf8_lossy(bytes: &[u8]) -> (text: String)
    ensures
        text@ == lossy_text(bytes@),
{
    String::from_utf8_lossy(bytes).into_owned()
}

/// Calls `char::is_whitespace`. Claims that the answer depends on the
/// character alone.
#[verifier::external_body]
fn char_is_whitespace(c: char) -> (r: bool)
    ensures
        r == is_whitespace(c),
{
    c.is_whitespace()
}

/// Position of the first zero byte at or after `from`, or the length of
/// `bytes` where none follows.
pub open spec fn nul_from(bytes: Seq<u8>, from: int) -> int
    decreases bytes.len() - from,
{
    if 0 <= from < bytes.len() && bytes[from] != 0 {
        nul_from(bytes, from + 1)
    } else {
        from
    }
}

/// The C string that a fixed-size field holds: its bytes up to the first zero
/// byte, or all of them where it has none.
pub open spec fn c_string(field: Seq<u8>) -> Seq<u8> {
    field.take(nul_from(field, 0))
}

/// Position of the first character at or after `from` that is no white space.
pub open spec fn skip_space(text: Seq<char>, from: int) -> int
    decreases text.len() - from,
{
    if 0 <= from < text.len() && is_whitespace(text[from]) {
        skip_space(text, from + 1)
    } else {
        from
    }
}

/// End of the text that is left of `text` before `to` when the white space
/// in front of `to` is dropped, down to `from` at most.
pub open spec fn drop_space(text: Seq<char>, from: int, to: int) -> int
    decreases to - from,
{
    if from < to <= text.len() && is_whitespace(text[to - 1]) {
        drop_space(text, from, to - 1)
    } else {
        to
    }
}

/// `text` without the white space at its two ends.
pub open spec fn trimmed(text: Seq<char>) -> Seq<char> {
    let from = skip_space(text, 0);
    text.subrange(from, drop_space(text, from, text.len() as int))
}

/// Whether a byte string holds a zero byte.
pub open spec fn has_zero_byte(bytes: Seq<u8>) -> bool {
    exists|i: int| 0 <= i < bytes.len() && bytes[i] == 0
}

/// Whether a text can be handed to the native layer as a C string: it holds
/// no NUL character, which would end the string early.
pub open spec fn encodable(text: Seq<char>) -> bool {
    forall|i: int| 0 <= i < text.len() ==> text[i] != '\0'
}

/// Of all characters only NUL has a zero byte in its UTF-8 form.
proof fn lemma_zero_byte_of_scalar(scalar: u32)
    requires
        is_scalar(scalar),
    ensures
        has_zero_byte(encode_scalar(scalar)) <==> scalar == 0,
{
    let bytes = encode_scalar(scalar);
    if has_width_1_encoding(scalar) {
        assert((scalar & 0x7F) as u8 == 0 <==> scalar == 0) by (bit_vector)
            requires
                scalar <= 0x7F,
        ;
        if scalar == 0 {
            assert(bytes[0] == 0);
        }
    } else {
        assert(0xC0u8 | ((scalar >> 6) & 0x1F) as u8 != 0) by (bit_vector);
        assert(0xE0u8 | ((scalar >> 12) & 0x0F) as u8 != 0) by (bit_vector);
        assert(0xF0u8 | ((scalar >> 18) & 0x7) as u8 != 0) by (bit_vector);
        assert(0x80u8 | (scalar & 0x3F) as u8 != 0) by (bit_vector);
        assert(0x80u8 | ((scalar >> 6) & 0x3F) as u8 != 0) by (bit_vector);
        assert(0x80u8 | ((scalar >> 12) & 0x3F) as u8 != 0) by (bit_vector);
    }
}

/// The UTF-8 form of a text holds a zero byte exactly where the text holds
/// the NUL character.
pub proof fn lemma_zero_byte_iff_nul(text: Seq<char>)
    ensures
        has_zero_byte(encode_utf8(text)) <==> !encodable(text),
    decreases text.len(),
{
    if text.len() > 0 {
        let head = encode_scalar(text[0] as u32);
        let rest = text.drop_first();
        let tail = encode_utf8(rest);
        char_is_scalar(text[0]);
        lemma_zero_byte_of_scalar(text[0] as u32);
        lemma_zero_byte_iff_nul(rest);
        char_u32_cast(text[0], text[0] as u32);
        char_u32_cast('\0', 0u32);
        assert(text[0] as u32 == 0 <==> text[0] == '\0');
        if has_zero_byte(head + tail) {
            let i = choose|i: int| 0 <= i < (head + tail).len() && (head + tail)[i] == 0;
            if i < head.len() {
                assert(head[i] == 0);
            } else {
                assert(tail[i - head.len()] == 0);
                let j = choose|j: int| 0 <= j < rest.len() && rest[j] == '\0';
                assert(text[j + 1] == '\0');
            }
        }
        if !encodable(text) {
            let j = choose|j: int| 0 <= j < text.len() && text[j] == '\0';
            if j == 0 {
                let i = choose|i: int| 0 <= i < head.len() && head[i] == 0;
                assert((head + tail)[i] == 0);
            } else {
                assert(rest[j - 1] == '\0');
                let i = choose|i: int| 0 <= i < tail.len() && tail[i] == 0;
                assert((head + tail)[head.len() + i] == 0);
            }
        }
    }
}

/// Reads the C string out of a fixed-size field of a native record.
pub fn read_c_string(field: &[u8]) -> (text: String)
    ensures
        text@ == lossy_text(c_string(field@)),
{
    let mut end: usize = 0;
    while end < field.len() && field[end] != 0
        invariant
            0 <= end <= field.len(),
            nul_from(field@, 0) == nul_from(field@, end as int),
        decreases field.len() - end,
    {
        end = end + 1;
    }
    let head = slice_subrange(field, 0, end);
    from_utf8_lossy(head)
}

/// Removes the white space at both ends of a text. It looks at one
/// character at a time from each end, which suits the short texts of native
/// records.
pub fn trim(text: &str) -> (r: String)
    ensures
        r@ == trimmed(text@),
{
    let len = text.unicode_len();
    let mut from: usize = 0;
    while from < len && char_is_whitespace(text.get_char(from))
        invariant
            len == text@.len(),
            0 <= from <= len,
            skip_space(text@, 0) == skip_space(text@, from as int),
        decreases len - from,
    {
        from = from + 1;
    }
    let mut to: usize = len;
    while from < to && char_is_whitespace(text.get_char(to - 1))
        invariant
            len == text@.len(),
            0 <= from <= to <= len,
            drop_space(text@, from as int, len as int) == drop_space(text@, from as int, to as int),
        decreases to - from,
    {
        to = to - 1;
    }
    text.substring_char(from, to).to_owned()
}

/// Tells whether a text can be handed to the native layer as a C string.
pub fn is_encodable(text: &str) -> (r: bool)
    ensures
        r == encodable(text@),
{
    let bytes = text.as_bytes();
    proof {
        lemma_zero_byte_iff_nul(text@);
    }
    let mut i: usize = 0;
    while i < bytes.len()
        invariant
            0 <= i <= bytes.len(),
            bytes@ == encode_utf8(text@),
            has_zero_byte(bytes@) <==> !encodable(text@),
            forall|j: int| 0 <= j < i ==> bytes@[j] != 0,
        decreases bytes.len() - i,
    {
        if bytes[i] == 0 {
            return false;
        }
        i = i + 1;
    }
    true
}

} // verus!
