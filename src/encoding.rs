//! Hexadecimal text form of byte strings.

use vstd::prelude::*;
use vstd::string::StringSliceAdditionalSpecFns;
use vstd::utf8::is_ascii_chars;

verus! {

/// The lowercase hex digit for a nibble.
pub open spec fn hex_digit(n: u8) -> char {
    if n < 10 {
        (n as int + 48) as char
    } else {
        (n as int + 87) as char
    }
}

/// The value of one hex digit given as an ASCII byte, either case.
pub open spec fn hex_value(c: u8) -> Option<u8> {
    if 48 <= c <= 57 {
        Some((c - 48) as u8)
    } else if 97 <= c <= 102 {
        Some((c - 87) as u8)
    } else if 65 <= c <= 70 {
        Some((c - 55) as u8)
    } else {
        None
    }
}

/// Lowercase hex text of a byte string: two digits per byte, high nibble first.
pub open spec fn hex_of(b: Seq<u8>) -> Seq<char>
    decreases b.len(),
{
    if b.len() == 0 {
        Seq::empty()
    } else {
        seq![hex_digit(b[0] / 16), hex_digit(b[0] % 16)] + hex_of(b.drop_first())
    }
}

/// The bytes that hex text (given as its UTF-8 bytes) stands for, if it is
/// an even number of hex digits.
pub open spec fn unhex(s: Seq<u8>) -> Option<Seq<u8>>
    decreases s.len(),
{
    if s.len() == 0 {
        Some(Seq::empty())
    } else if s.len() == 1 {
        None
    } else {
        match (hex_value(s[0]), hex_value(s[1]), unhex(s.subrange(2, s.len() as int))) {
            (Some(h), Some(l), Some(rest)) => Some(seq![(h * 16 + l) as u8] + rest),
            _ => None,
        }
    }
}

/// The bytes of a text made of ASCII characters only.
pub open spec fn ascii_bytes(s: Seq<char>) -> Seq<u8> {
    Seq::new(s.len(), |i: int| s[i] as u8)
}

/// Hex text is ASCII, and its bytes decode back to the encoded bytes.
pub proof fn lemma_unhex_of_hex(b: Seq<u8>)
    ensures
        is_ascii_chars(hex_of(b)),
        unhex(ascii_bytes(hex_of(b))) == Some(b),
    decreases b.len(),
{
    if b.len() > 0 {
        let rest = b.drop_first();
        lemma_unhex_of_hex(rest);
        let h = b[0] / 16;
        let l = b[0] % 16;
        let s = ascii_bytes(hex_of(b));
        assert(hex_of(b) == seq![hex_digit(h), hex_digit(l)] + hex_of(rest));
        assert(s.subrange(2, s.len() as int) =~= ascii_bytes(hex_of(rest)));
        assert(hex_value(s[0]) == Some(h));
        assert(hex_value(s[1]) == Some(l));
        assert(seq![(h * 16 + l) as u8] + rest =~= b);
        assert(is_ascii_chars(hex_of(b))) by {
            assert forall|i: int| 0 <= i < hex_of(b).len() implies '\0' <= #[trigger] hex_of(b)[i] <= '\u{7f}' by {
                if i >= 2 {
                    assert(hex_of(b)[i] == hex_of(rest)[i - 2]);
                }
            }
        }
    } else {
        assert(unhex(ascii_bytes(hex_of(b))) == Some(Seq::<u8>::empty()));
        assert(b =~= Seq::<u8>::empty());
    }
}

/// Relies on hex::encode: two lowercase digits per byte, high nibble first.
#[verifier::external_body]
pub(crate) fn hex_encode(b: &[u8]) -> (r: String)
    ensures
        r@ == hex_of(b@),
{
    hex::encode(b)
}

/// Relies on hex::decode: succeeds exactly on an even number of digits of
/// either case, and gives one byte per pair of digits.
#[verifier::external_body]
pub(crate) fn hex_decode(s: &str) -> (r: Result<Vec<u8>, hex::FromHexError>)
    ensures
        r is Ok <==> unhex(s.spec_bytes()) is Some,
        r is Ok ==> r->Ok_0@ == unhex(s.spec_bytes())->0,
{
    hex::decode(s)
}

#[verifier::external_type_specification]
#[verifier::external_body]
pub struct ExFromHexError(hex::FromHexError);

} // verus!
