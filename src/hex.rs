//! Hexadecimal text for byte strings, and the md5 digest that names saved
//! connection files.

use vstd::prelude::*;
use vstd::string::StringExecFns;
use vstd::utf8::{encode_utf8, valid_utf8};
use crate::text::{decimal_text, is_utf8, unsigned_decimal_string};

verus! {

/// The ASCII code of hex digit `n < 16`, in upper or lower case.
pub open spec fn hex_digit(n: u8, upper: bool) -> u8 {
    if n < 10 {
        (48 + n) as u8
    } else if upper {
        (55 + n) as u8
    } else {
        (87 + n) as u8
    }
}

/// Two hex digits per byte, most significant first.
pub open spec fn hex_bytes(b: Seq<u8>, upper: bool) -> Seq<u8>
    decreases b.len(),
{
    if b.len() == 0 {
        Seq::empty()
    } else {
        hex_bytes(b.drop_last(), upper) + seq![hex_digit(b.last() / 16, upper), hex_digit(b.last() % 16, upper)]
    }
}

/// ASCII codes read as characters.
pub open spec fn ascii_text(b: Seq<u8>) -> Seq<char> {
    b.map_values(|c: u8| c as char)
}

/// The value of an ASCII hex digit.
pub open spec fn hex_value(c: u8) -> Option<u8> {
    if 48 <= c <= 57 {
        Some((c - 48) as u8)
    } else if 65 <= c <= 70 {
        Some((c - 55) as u8)
    } else if 97 <= c <= 102 {
        Some((c - 87) as u8)
    } else {
        None
    }
}

/// The byte two characters stand for, read as a base-16 `u8`: two hex
/// digits, or a '+' sign and one digit.
pub open spec fn pair_value(x: u8, y: u8) -> Option<u8> {
    if hex_value(x).is_some() && hex_value(y).is_some() {
        Some((16 * hex_value(x).unwrap() + hex_value(y).unwrap()) as u8)
    } else if x == 43 && hex_value(y).is_some() {
        hex_value(y)
    } else {
        None
    }
}

/// The message for a pair of bytes that do not form UTF-8.
pub open spec fn utf8_message() -> Seq<char> {
    "Invalid UTF-8 in hex string"@
}

/// The message for a text of odd length.
pub open spec fn odd_length_message() -> Seq<char> {
    "Hex string must have even length"@
}

/// The message for a pair at byte `pos` that is no base-16 number.
pub open spec fn position_message(pos: nat) -> Seq<char> {
    "Invalid hex at position "@ + decimal_text(pos as int) + ": invalid digit found in string"@
}

/// The bytes the pairs from byte `i` on stand for, or the first fault.
pub open spec fn decode_pairs(b: Seq<u8>, i: nat) -> Result<Seq<u8>, Seq<char>>
    decreases b.len() - i,
{
    if i + 2 > b.len() {
        Ok(Seq::empty())
    } else if !valid_utf8(seq![b[i as int], b[i + 1int]]) {
        Err(utf8_message())
    } else {
        match pair_value(b[i as int], b[i + 1int]) {
            None => Err(position_message(i)),
            Some(v) => match decode_pairs(b, i + 2) {
                Ok(rest) => Ok(seq![v] + rest),
                Err(e) => Err(e),
            },
        }
    }
}

/// The bytes a hex text (given by its UTF-8 bytes) stands for.
pub open spec fn hex_decoded(b: Seq<u8>) -> Result<Seq<u8>, Seq<char>> {
    if b.len() % 2 != 0 {
        Err(odd_length_message())
    } else {
        decode_pairs(b, 0)
    }
}

fn digit_code(n: u8, upper: bool) -> (r: u8)
    requires
        n < 16,
    ensures
        r == hex_digit(n, upper),
        r < 128,
{
    if n < 10 {
        48 + n
    } else if upper {
        55 + n
    } else {
        87 + n
    }
}

fn hex_codes(v: &[u8], upper: bool) -> (r: Vec<u8>)
    ensures
        r@ == hex_bytes(v@, upper),
        forall|i: int| 0 <= i < r@.len() ==> r@[i] < 128,
{
    let mut r: Vec<u8> = Vec::new();
    let mut i: usize = 0;
    while i < v.len()
        invariant
            i <= v@.len(),
            r@ == hex_bytes(v@.subrange(0, i as int), upper),
            forall|k: int| 0 <= k < r@.len() ==> r@[k] < 128,
        decreases v@.len() - i,
    {
        let b = v[i];
        r.push(digit_code(b / 16, upper));
        r.push(digit_code(b % 16, upper));
        proof {
            let s = v@.subrange(0, i + 1);
            assert(s.drop_last() =~= v@.subrange(0, i as int));
            assert(s.last() == b);
        }
        i = i + 1;
        assert(r@ =~= hex_bytes(v@.subrange(0, i as int), upper));
    }
    assert(v@.subrange(0, v@.len() as int) =~= v@);
    r
}

/// Relies on `String::from_utf8`: ASCII codes are valid UTF-8, so it
/// succeeds and keeps each code as its character.
#[verifier::external_body]
fn ascii_string(b: Vec<u8>) -> (r: String)
    requires
        forall|i: int| 0 <= i < b@.len() ==> b@[i] < 128,
    ensures
        r@ == ascii_text(b@),
{
    String::from_utf8(b).unwrap_or_default()
}

/// The bytes as upper-case hex text, two digits per byte.
pub fn vec_to_hex(v: &[u8]) -> (r: String)
    ensures
        r@ == ascii_text(hex_bytes(v@, true)),
{
    ascii_string(hex_codes(v, true))
}

/// The message for the pair at byte `pos`.
fn invalid_position_text(pos: usize) -> (r: String)
    ensures
        r@ == position_message(pos as nat),
{
    let mut m = "Invalid hex at position ".to_owned();
    m.append(unsigned_decimal_string(pos as u64).as_str());
    m.append(": invalid digit found in string");
    m
}

fn hex_code_value(c: u8) -> (r: Option<u8>)
    ensures
        r == hex_value(c),
{
    if 48 <= c && c <= 57 {
        Some(c - 48)
    } else if 65 <= c && c <= 70 {
        Some(c - 55)
    } else if 97 <= c && c <= 102 {
        Some(c - 87)
    } else {
        None
    }
}

fn pair_code_value(x: u8, y: u8) -> (r: Option<u8>)
    ensures
        r == pair_value(x, y),
{
    match (hex_code_value(x), hex_code_value(y)) {
        (Some(a), Some(b)) => Some(16 * a + b),
        (None, Some(b)) => if x == 43 {
            Some(b)
        } else {
            None
        },
        _ => None,
    }
}

proof fn lemma_decode_prefix(b: Seq<u8>, i: nat)
    requires
        i + 2 <= b.len(),
        valid_utf8(seq![b[i as int], b[i + 1int]]),
        pair_value(b[i as int], b[i + 1int]).is_some(),
    ensures
        decode_pairs(b, i) == match decode_pairs(b, i + 2) {
            Ok(rest) => Ok(seq![pair_value(b[i as int], b[i + 1int]).unwrap()] + rest),
            Err(e) => Err(e),
        },
{
}

/// The bytes that a hex text stands for, two characters per byte; a fault
/// is reported with its message: odd length, a pair that is not UTF-8, or a
/// pair at some byte position that is no base-16 number.
pub fn hex_to_vec(hex_string: &str) -> (r: Result<Vec<u8>, String>)
    ensures
        match hex_decoded(encode_utf8(hex_string@)) {
            Ok(v) => r matches Ok(x) && x@ == v,
            Err(m) => r matches Err(x) && x@ == m,
        },
{
    let b = hex_string.as_bytes();
    let ghost bs = encode_utf8(hex_string@);
    if b.len() % 2 != 0 {
        return Err("Hex string must have even length".to_owned());
    }
    let mut out: Vec<u8> = Vec::new();
    let mut i: usize = 0;
    while i < b.len()
        invariant
            b@ == bs,
            bs == encode_utf8(hex_string@),
            bs.len() % 2 == 0,
            i <= bs.len(),
            i % 2 == 0,
            decode_pairs(bs, 0) == match decode_pairs(bs, i as nat) {
                Ok(rest) => Ok(out@ + rest),
                Err(e) => Err(e),
            },
        decreases bs.len() - i,
    {
        assert(i + 2 <= bs.len());
        let x = b[i];
        let y = b[i + 1];
        let pair: Vec<u8> = vec![x, y];
        assert(pair@ =~= seq![bs[i as int], bs[i + 1]]);
        if !is_utf8(pair.as_slice()) {
            assert(decode_pairs(bs, i as nat) == Err::<Seq<u8>, Seq<char>>(utf8_message()));
            return Err("Invalid UTF-8 in hex string".to_owned());
        }
        match pair_code_value(x, y) {
            None => {
                assert(decode_pairs(bs, i as nat) == Err::<Seq<u8>, Seq<char>>(
                    position_message(i as nat),
                ));
                return Err(invalid_position_text(i));
            },
            Some(v) => {
                proof {
                    lemma_decode_prefix(bs, i as nat);
                    assert(out@.push(v) =~= out@ + seq![v]);
                    match decode_pairs(bs, (i + 2) as nat) {
                        Ok(rest) => {
                            assert(out@ + (seq![v] + rest) =~= out@.push(v) + rest);
                        },
                        Err(e) => {},
                    }
                }
                out.push(v);
            },
        }
        i = i + 2;
    }
    proof {
        assert(decode_pairs(bs, i as nat) == Ok::<Seq<u8>, Seq<char>>(Seq::empty()));
        assert(out@ + Seq::<u8>::empty() =~= out@);
    }
    Ok(out)
}

/// The md5 digest of some bytes.
pub uninterp spec fn md5_of(b: Seq<u8>) -> Seq<u8>;

/// Relies on `md5::compute`: the 16 bytes of the digest.
#[verifier::external_body]
fn md5_digest(content: &[u8]) -> (r: Vec<u8>)
    ensures
        r@ == md5_of(content@),
        r@.len() == 16,
{
    md5::compute(content).0.to_vec()
}

/// The md5 digest of the bytes as lower-case hex text.
pub fn md5(content: &[u8]) -> (r: String)
    ensures
        r@ == ascii_text(hex_bytes(md5_of(content@), false)),
        r@.len() == 32,
{
    let digest = md5_digest(content);
    let r = ascii_string(hex_codes(digest.as_slice(), false));
    proof {
        lemma_hex_len(digest@, false);
    }
    r
}

proof fn lemma_hex_len(b: Seq<u8>, upper: bool)
    ensures
        hex_bytes(b, upper).len() == 2 * b.len(),
    decreases b.len(),
{
    if b.len() > 0 {
        lemma_hex_len(b.drop_last(), upper);
    }
}

} // verus!
