//! What is handed to OpenSSL as bytes: how long it may be, and what the
//! UTF-8 encoding of a string holds.

use vstd::prelude::*;
use vstd::utf8::{
    encode_scalar, encode_utf8, has_width_1_encoding, last_continuation_byte,
    leading_byte_width_1, leading_byte_width_2, leading_byte_width_3, leading_byte_width_4,
    second_last_continuation_byte, third_last_continuation_byte,
};

verus! {

/// The longest input, in bytes, that OpenSSL's interface takes: the largest
/// C `int`.
pub const MAX_INPUT: usize = 0x7fff_ffff;

/// Whether a buffer of `len` bytes can be handed to OpenSSL.
pub open spec fn fits_openssl(len: nat) -> bool {
    len <= MAX_INPUT
}

/// Pairs of strings as pairs of texts.
pub open spec fn text_pairs(pairs: Seq<(String, String)>) -> Seq<(Seq<char>, Seq<char>)> {
    Seq::new(pairs.len(), |i: int| (pairs[i].0@, pairs[i].1@))
}

/// Only the scalar zero has a zero byte in its encoding: a lone byte is the
/// scalar itself, and every byte of a longer encoding has its top bit set.
proof fn lemma_scalar_bytes(scalar: u32)
    ensures
        has_width_1_encoding(scalar) ==> (leading_byte_width_1(scalar) == 0 <==> scalar == 0),
        leading_byte_width_2(scalar) != 0,
        leading_byte_width_3(scalar) != 0,
        leading_byte_width_4(scalar) != 0,
        last_continuation_byte(scalar) != 0,
        second_last_continuation_byte(scalar) != 0,
        third_last_continuation_byte(scalar) != 0,
{
    assert(scalar <= 0x7F ==> ((scalar & 0x7F) as u8 == 0 <==> scalar == 0)) by (bit_vector);
    assert(0xC0u8 | ((scalar >> 6) & 0x1F) as u8 != 0) by (bit_vector);
    assert(0xE0u8 | ((scalar >> 12) & 0x0F) as u8 != 0) by (bit_vector);
    assert(0xF0u8 | ((scalar >> 18) & 0x7) as u8 != 0) by (bit_vector);
    assert(0x80u8 | (scalar & 0x3F) as u8 != 0) by (bit_vector);
    assert(0x80u8 | ((scalar >> 6) & 0x3F) as u8 != 0) by (bit_vector);
    assert(0x80u8 | ((scalar >> 12) & 0x3F) as u8 != 0) by (bit_vector);
}

/// The encoding of one character holds a zero byte exactly if the character
/// is NUL.
proof fn lemma_scalar_zero_byte(c: char)
    ensures
        encode_scalar(c as u32).contains(0u8) <==> c == '\0',
{
    let scalar = c as u32;
    let bytes = encode_scalar(scalar);
    lemma_scalar_bytes(scalar);
    if c == '\0' {
        assert(bytes[0] == 0u8);
    }
    if bytes.contains(0u8) {
        let i = choose|i: int| 0 <= i < bytes.len() && bytes[i] == 0u8;
        assert(has_width_1_encoding(scalar));
        assert(i == 0);
    }
}

/// The UTF-8 encoding of a string holds a zero byte exactly if the string
/// holds the character NUL.
pub proof fn lemma_zero_byte_iff_nul(text: Seq<char>)
    ensures
        encode_utf8(text).contains(0u8) <==> text.contains('\0'),
    decreases text.len(),
{
    if text.len() == 0 {
    } else {
        let head = encode_scalar(text[0] as u32);
        let tail = encode_utf8(text.drop_first());
        lemma_scalar_zero_byte(text[0]);
        lemma_zero_byte_iff_nul(text.drop_first());
        assert(encode_utf8(text) == head + tail);
        if text.contains('\0') {
            let i = choose|i: int| 0 <= i < text.len() && text[i] == '\0';
            if i == 0 {
                let j = choose|j: int| 0 <= j < head.len() && head[j] == 0u8;
                assert((head + tail)[j] == 0u8);
            } else {
                assert(text.drop_first()[i - 1] == '\0');
                assert(text.drop_first().contains('\0'));
                let j = choose|j: int| 0 <= j < tail.len() && tail[j] == 0u8;
                assert((head + tail)[head.len() + j] == 0u8);
            }
            assert(encode_utf8(text).contains(0u8));
        }
        if encode_utf8(text).contains(0u8) {
            let j = choose|j: int| 0 <= j < (head + tail).len() && (head + tail)[j] == 0u8;
            if j < head.len() {
                assert(head[j] == 0u8);
                assert(head.contains(0u8));
                assert(text[0] == '\0');
            } else {
                assert(tail[j - head.len()] == 0u8);
                assert(tail.contains(0u8));
                let i = choose|i: int|
                    0 <= i < text.drop_first().len() && text.drop_first()[i] == '\0';
                assert(text[i + 1] == '\0');
            }
            assert(text.contains('\0'));
        }
    }
}

} // verus!
