//! The DER encoding of the one extension that a signing request asks for.

use vstd::prelude::*;
use vstd::utf8::encode_utf8;

verus! {

/// A number in base 256, most significant digit first, without leading
/// zeros.
pub open spec fn big_endian(n: nat) -> Seq<u8>
    decreases n,
{
    if n < 256 {
        seq![n as u8]
    } else {
        big_endian(n / 256) + seq![(n % 256) as u8]
    }
}

/// A length as DER writes it: in one byte below 128, else the number of
/// digits, marked by the top bit, and the digits.
pub open spec fn der_length(n: nat) -> Seq<u8> {
    if n < 128 {
        seq![n as u8]
    } else {
        seq![(0x80 + big_endian(n).len()) as u8] + big_endian(n)
    }
}

/// A value as DER writes it: its tag, its length and its content.
pub open spec fn der(tag: u8, content: Seq<u8>) -> Seq<u8> {
    seq![tag] + der_length(content.len()) + content
}

/// The object identifier 2.5.29.17, subject alternative name, as DER
/// writes its content.
pub open spec fn subject_alt_name_id() -> Seq<u8> {
    seq![0x55u8, 0x1du8, 0x11u8]
}

/// The extension that names one DNS name as the subject's alternative: a
/// sequence of the identifier and, in an octet string, the sequence of
/// general names that holds the one name, tagged as a DNS name, byte for
/// byte. The extension is not marked critical.
pub open spec fn subject_alt_name_der(name: Seq<u8>) -> Seq<u8> {
    der(0x30, der(0x06, subject_alt_name_id()) + der(0x04, der(0x30, der(0x82, name))))
}

/// A number that fits eight bytes has at most eight digits.
proof fn lemma_big_endian_len(n: nat)
    ensures
        big_endian(n).len() >= 1,
        n < 0x100 ==> big_endian(n).len() <= 1,
        n < 0x1_0000 ==> big_endian(n).len() <= 2,
        n < 0x100_0000 ==> big_endian(n).len() <= 3,
        n < 0x1_0000_0000 ==> big_endian(n).len() <= 4,
        n < 0x100_0000_0000 ==> big_endian(n).len() <= 5,
        n < 0x1_0000_0000_0000 ==> big_endian(n).len() <= 6,
        n < 0x100_0000_0000_0000 ==> big_endian(n).len() <= 7,
        n < 0x1_0000_0000_0000_0000 ==> big_endian(n).len() <= 8,
    decreases n,
{
    if n >= 256 {
        lemma_big_endian_len(n / 256);
    }
}

/// Appends a number in base 256.
fn push_big_endian(out: &mut Vec<u8>, n: usize)
    ensures
        final(out)@ == old(out)@ + big_endian(n as nat),
    decreases n,
{
    if n >= 256 {
        push_big_endian(out, n / 256);
    }
    let ghost before = out@;
    out.push((n % 256) as u8);
    assert(out@ == before + seq![(n % 256) as u8]);
    assert(out@ == old(out)@ + big_endian(n as nat));
}

/// Encodes a value in DER: tag, length, content.
pub fn encode(tag: u8, content: &Vec<u8>) -> (out: Vec<u8>)
    ensures
        out@ == der(tag, content@),
{
    let mut out: Vec<u8> = Vec::new();
    out.push(tag);
    let n = content.len();
    if n < 128 {
        out.push(n as u8);
    } else {
        let mut digits: Vec<u8> = Vec::new();
        push_big_endian(&mut digits, n);
        proof {
            lemma_big_endian_len(n as nat);
            assert(digits@ == big_endian(n as nat));
        }
        out.push((0x80 + digits.len()) as u8);
        out.extend_from_slice(digits.as_slice());
    }
    assert(out@ == seq![tag] + der_length(content@.len()));
    out.extend_from_slice(content.as_slice());
    out
}

/// Puts two byte strings together.
fn joined(first: Vec<u8>, second: &Vec<u8>) -> (out: Vec<u8>)
    ensures
        out@ == first@ + second@,
{
    let mut out = first;
    out.extend_from_slice(second.as_slice());
    out
}

/// Encodes the extension that names `name` as the one DNS name of the
/// subject.
pub fn subject_alt_name_extension(name: &str) -> (out: Vec<u8>)
    ensures
        out@ == subject_alt_name_der(encode_utf8(name@)),
{
    let mut bytes: Vec<u8> = Vec::new();
    bytes.extend_from_slice(name.as_bytes());
    assert(bytes@ == encode_utf8(name@));
    let names = encode(0x30, &encode(0x82, &bytes));
    let value = encode(0x04, &names);
    let mut id: Vec<u8> = Vec::new();
    id.push(0x55);
    id.push(0x1d);
    id.push(0x11);
    assert(id@ == subject_alt_name_id());
    encode(0x30, &joined(encode(0x06, &id), &value))
}

} // verus!
