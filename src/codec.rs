//! Text encodings used by the vault and the signer: hexadecimal and base64.
use vstd::prelude::*;
use base64::Engine;

verus! {

/// `c` is an ASCII hexadecimal digit, of either case.
pub open spec fn is_hex_byte(c: u8) -> bool {
    (48 <= c && c <= 57) || (97 <= c && c <= 102) || (65 <= c && c <= 70)
}

/// The value of the hexadecimal digit `c`.
pub open spec fn hex_byte_value(c: u8) -> int {
    if 48 <= c && c <= 57 {
        c - 48
    } else if 97 <= c && c <= 102 {
        c - 87
    } else {
        c - 55
    }
}

/// Every byte of `s` is a hexadecimal digit.
pub open spec fn all_hex(s: Seq<u8>) -> bool {
    forall|i: int| 0 <= i < s.len() ==> #[trigger] is_hex_byte(s[i])
}

/// The bytes that an even run of hexadecimal digits spells, two digits each.
pub open spec fn hex_pairs(s: Seq<u8>) -> Seq<u8> {
    Seq::new(
        s.len() / 2,
        |i: int| (16 * hex_byte_value(s[2 * i]) + hex_byte_value(s[2 * i + 1])) as u8,
    )
}

/// The number that a run of hexadecimal digits spells, most significant first.
pub open spec fn hex_number(s: Seq<u8>) -> nat
    decreases s.len(),
{
    if s.len() == 0 {
        0
    } else {
        (16 * hex_number(s.drop_last()) + hex_byte_value(s.last())) as nat
    }
}

/// The number held by `b` read as a big-endian unsigned integer.
pub open spec fn big_endian_value(b: Seq<u8>) -> nat
    decreases b.len(),
{
    if b.len() == 0 {
        0
    } else {
        (big_endian_value(b.drop_last()) * 256 + b.last()) as nat
    }
}

/// The lowercase ASCII digit for a value below 16.
pub open spec fn lower_hex_digit(d: int) -> u8 {
    if d < 10 {
        (48 + d) as u8
    } else {
        (87 + d) as u8
    }
}

/// Lowercase hexadecimal text of `b`, high nibble first.
pub open spec fn lower_hex(b: Seq<u8>) -> Seq<u8> {
    Seq::new(
        2 * b.len(),
        |i: int|
            if i % 2 == 0 {
                lower_hex_digit(b[i / 2] as int / 16)
            } else {
                lower_hex_digit(b[i / 2] as int % 16)
            },
    )
}

/// `s` begins with the text "0x".
pub open spec fn has_hex_prefix(s: Seq<u8>) -> bool {
    s.len() >= 2 && s[0] == 48 && s[1] == 120
}

/// `s` without a leading "0x", where it has one.
pub open spec fn strip_hex_prefix(s: Seq<u8>) -> Seq<u8> {
    if has_hex_prefix(s) {
        s.subrange(2, s.len() as int)
    } else {
        s
    }
}

/// Drops one leading "0x" from `s`, where there is one.
pub fn strip_prefix_0x(s: &[u8]) -> (r: &[u8])
    ensures
        r@ == strip_hex_prefix(s@),
{
    if s.len() >= 2 && s[0] == 48u8 && s[1] == 120u8 {
        &s[2..s.len()]
    } else {
        s
    }
}

/// A fresh vector holding the bytes of `s`.
pub fn copy_bytes(s: &[u8]) -> (r: Vec<u8>)
    ensures
        r@ == s@,
{
    let mut r: Vec<u8> = Vec::with_capacity(s.len());
    let mut i: usize = 0;
    while i < s.len()
        invariant
            i <= s@.len(),
            r@ == s@.subrange(0, i as int),
        decreases s@.len() - i,
    {
        r.push(s[i]);
        i = i + 1;
    }
    assert(r@ =~= s@);
    r
}

/// Relies on hex::decode: an even number of hexadecimal digits of either
/// case, each pair giving one byte, high nibble first; anything else fails.
#[verifier::external_body]
pub(crate) fn hex_decode(s: &[u8]) -> (r: Option<Vec<u8>>)
    ensures
        r is Some <==> (s@.len() % 2 == 0 && all_hex(s@)),
        r matches Some(b) ==> b@ == hex_pairs(s@),
{
    hex::decode(s).ok()
}

/// Relies on hex::encode: two lowercase digits per byte, high nibble first.
#[verifier::external_body]
pub(crate) fn hex_encode(b: &[u8]) -> (r: Vec<u8>)
    ensures
        r@ == lower_hex(b@),
{
    hex::encode(b).into_bytes()
}

/// What base64's standard padded encoding makes of `b`.
pub uninterp spec fn base64_text(b: Seq<u8>) -> Seq<char>;

/// Relies on base64's `STANDARD` engine `encode`: the padded text of `b`.
#[verifier::external_body]
pub(crate) fn base64_encode(b: &[u8]) -> (r: String)
    ensures
        r@ == base64_text(b@),
{
    base64::engine::general_purpose::STANDARD.encode(b)
}

/// Relies on base64's `STANDARD` engine `decode`, which requires canonical
/// padding and refuses trailing bits: it accepts exactly the texts that its
/// `encode` produces, and gives back the bytes they were made from.
#[verifier::external_body]
pub(crate) fn base64_decode(s: &str) -> (r: Option<Vec<u8>>)
    ensures
        r matches Some(v) ==> base64_text(v@) == s@,
        r matches Some(v) ==> forall|b: Seq<u8>| #[trigger] base64_text(b) == s@ ==> v@ == b,
        r is None ==> forall|b: Seq<u8>| #[trigger] base64_text(b) != s@,
{
    base64::engine::general_purpose::STANDARD.decode(s).ok()
}

} // verus!
