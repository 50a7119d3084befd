//! The file name of a chunk: the lowercase hexadecimal form of its name, two
//! digits for each byte, and the way back from a file name to a name.

use rustc_serialize::hex::{FromHex, ToHex};
use vstd::prelude::*;
use xor_name::XorName;

verus! {

/// `xor_name::XorName`: thirty-two bytes in a public field.
#[verifier::external_type_specification]
pub struct ExXorName(XorName);

/// The number of bytes in a name.
pub const NAME_LEN: usize = 32;

/// The sixteen digits of the encoding, in the order of their values.
pub open spec fn hex_digits() -> Seq<char> {
    seq!['0', '1', '2', '3', '4', '5', '6', '7', '8', '9', 'a', 'b', 'c', 'd', 'e', 'f']
}

/// The hexadecimal form of `bytes`: for each byte the digit of its upper half,
/// then the digit of its lower half.
pub open spec fn hex_encoding(bytes: Seq<u8>) -> Seq<char> {
    Seq::new(
        2 * bytes.len(),
        |i: int|
            if i % 2 == 0 {
                hex_digits()[bytes[i / 2] as int / 16]
            } else {
                hex_digits()[bytes[i / 2] as int % 16]
            },
    )
}

/// The value of a hexadecimal digit, in either case; `None` for any other
/// character.
pub open spec fn hex_value(c: char) -> Option<int> {
    if '0' <= c <= '9' {
        Some(c as int - '0' as int)
    } else if 'a' <= c <= 'f' {
        Some(c as int - 'a' as int + 10)
    } else if 'A' <= c <= 'F' {
        Some(c as int - 'A' as int + 10)
    } else {
        None
    }
}

/// The characters that decoding passes over.
pub open spec fn is_blank(c: char) -> bool {
    c == ' ' || c == '\r' || c == '\n' || c == '\t'
}

/// The bytes that `text` stands for. Blanks are dropped; what is left must be
/// an even number of hexadecimal digits, and each pair of them gives one byte.
pub open spec fn hex_decoding(text: Seq<char>) -> Option<Seq<u8>> {
    let digits = text.filter(|c: char| !is_blank(c));
    if digits.len() % 2 == 0 && forall|i: int| 0 <= i < digits.len() ==> hex_value(#[trigger] digits[i]) is Some {
        Some(
            Seq::new(
                digits.len() / 2,
                |i: int| (16 * hex_value(digits[2 * i])->0 + hex_value(digits[2 * i + 1])->0) as u8,
            ),
        )
    } else {
        None
    }
}

/// The file name under which the chunk called `name` is kept.
pub open spec fn file_name_of(name: XorName) -> Seq<char> {
    hex_encoding(name.0@)
}

/// The bytes of the name that a file name stands for: the file name has to
/// decode, and to exactly as many bytes as a name has.
pub open spec fn decoded_name(file_name: Seq<char>) -> Option<Seq<u8>> {
    match hex_decoding(file_name) {
        Some(bytes) => if bytes.len() == NAME_LEN {
            Some(bytes)
        } else {
            None
        },
        None => None,
    }
}

/// A filter that every element passes leaves the sequence as it is.
proof fn filter_keeps_all<A>(s: Seq<A>, pred: spec_fn(A) -> bool)
    requires
        forall|i: int| 0 <= i < s.len() ==> pred(#[trigger] s[i]),
    ensures
        s.filter(pred) == s,
    decreases s.len(),
{
    reveal(Seq::filter);
    if s.len() > 0 {
        filter_keeps_all(s.drop_last(), pred);
        assert(s.drop_last().push(s.last()) == s);
    }
}

/// Each of the sixteen digits is no blank and has its place as its value.
proof fn digits_have_their_values(value: int)
    requires
        0 <= value < 16,
    ensures
        hex_value(hex_digits()[value]) == Some(value),
        !is_blank(hex_digits()[value]),
{
}

/// Decoding gives back what was encoded.
pub proof fn decoding_inverts_encoding(bytes: Seq<u8>)
    ensures
        hex_decoding(hex_encoding(bytes)) == Some(bytes),
{
    let text = hex_encoding(bytes);
    assert forall|i: int| 0 <= i < text.len() implies hex_value(#[trigger] text[i]) is Some
        && !is_blank(text[i]) by {
        digits_have_their_values(bytes[i / 2] as int / 16);
        digits_have_their_values(bytes[i / 2] as int % 16);
    }
    filter_keeps_all(text, |c: char| !is_blank(c));
    let decoded = hex_decoding(text)->0;
    assert forall|i: int| 0 <= i < bytes.len() implies decoded[i] == bytes[i] by {
        digits_have_their_values(bytes[i] as int / 16);
        digits_have_their_values(bytes[i] as int % 16);
        assert(text[2 * i] == hex_digits()[bytes[i] as int / 16]);
        assert(text[2 * i + 1] == hex_digits()[bytes[i] as int % 16]);
    }
    assert(decoded =~= bytes);
}

/// No two names share a file name.
pub proof fn file_names_differ(one: XorName, other: XorName)
    requires
        one != other,
    ensures
        file_name_of(one) != file_name_of(other),
{
    decoding_inverts_encoding(one.0@);
    decoding_inverts_encoding(other.0@);
    if file_name_of(one) == file_name_of(other) {
        assert(one.0@ == other.0@);
        assert(one.0 == other.0);
    }
}

/// The file name of a chunk stands for the chunk's name.
pub proof fn file_name_stands_for_its_name(name: XorName)
    ensures
        decoded_name(file_name_of(name)) == Some(name.0@),
{
    decoding_inverts_encoding(name.0@);
}

/// `rustc_serialize::hex::ToHex::to_hex` on a slice of bytes: two lowercase
/// digits for each byte, the upper half first.
#[verifier::external_body]
fn to_hex(bytes: &[u8]) -> (text: String)
    ensures
        text@ == hex_encoding(bytes@),
{
    bytes.to_hex()
}

/// `rustc_serialize::hex::FromHex::from_hex` on a string: the bytes that the
/// string stands for, where it is made of blanks and an even number of
/// hexadecimal digits in either case, and `None`, in place of the crate's
/// error, where it is not.
#[verifier::external_body]
fn from_hex(text: &str) -> (bytes: Option<Vec<u8>>)
    ensures
        match bytes {
            Some(bytes) => hex_decoding(text@) == Some(bytes@),
            None => hex_decoding(text@) is None,
        },
{
    text.from_hex().ok()
}

/// The file name of the chunk called `name`.
pub fn to_hex_string(name: &XorName) -> (text: String)
    ensures
        text@ == file_name_of(*name),
{
    to_hex(name.0.as_slice())
}

/// The name that `file_name` stands for, if it stands for one.
pub fn from_file_name(file_name: &str) -> (name: Option<XorName>)
    ensures
        match name {
            Some(name) => decoded_name(file_name@) == Some(name.0@),
            None => decoded_name(file_name@) is None,
        },
{
    match from_hex(file_name) {
        Some(bytes) => {
            if bytes.len() != NAME_LEN {
                return None;
            }
            let mut id = [0u8; NAME_LEN];
            let mut i: usize = 0;
            while i < NAME_LEN
                invariant
                    i <= NAME_LEN,
                    bytes.len() == NAME_LEN,
                    forall|j: int| 0 <= j < i ==> id[j] == bytes[j],
                decreases NAME_LEN - i,
            {
                id[i] = bytes[i];
                i += 1;
            }
            assert(id@ =~= bytes@);
            Some(XorName(id))
        },
        None => None,
    }
}

} // verus!
