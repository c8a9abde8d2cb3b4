//! Byte and text codecs used by the storage layer: lowercase hex (the format of
//! the database key in the keychain), standard padded base64 (the format of
//! encrypted blobs) and UTF-8.
use vstd::prelude::*;
use vstd::utf8::{decode_utf8, valid_utf8};

verus! {

/// The lowercase hexadecimal digit for a value in `0..16`.
pub open spec fn hex_digit_lower(v: int) -> char {
    if v < 10 {
        (48 + v) as char
    } else {
        (87 + v) as char
    }
}

/// Lowercase hex encoding: two digits per byte, high nibble first.
pub open spec fn hex_encode_spec(b: Seq<u8>) -> Seq<char> {
    Seq::new(
        2 * b.len(),
        |i: int|
            if i % 2 == 0 {
                hex_digit_lower(b[i / 2] as int / 16)
            } else {
                hex_digit_lower(b[i / 2] as int % 16)
            },
    )
}

/// The value of a hexadecimal digit of either case, or -1 for any other character.
pub open spec fn hex_value(c: char) -> int {
    if '0' <= c && c <= '9' {
        c as int - 48
    } else if 'a' <= c && c <= 'f' {
        c as int - 87
    } else if 'A' <= c && c <= 'F' {
        c as int - 55
    } else {
        -1
    }
}

/// Hex decoding: defined exactly for strings of even length made only of hex
/// digits (either case); each pair of digits gives one byte.
pub open spec fn hex_decode_spec(s: Seq<char>) -> Option<Seq<u8>> {
    if s.len() % 2 != 0 || exists|i: int| 0 <= i < s.len() && #[trigger] hex_value(s[i]) < 0 {
        None
    } else {
        Some(
            Seq::new(
                s.len() / 2,
                |i: int| (hex_value(s[2 * i]) * 16 + hex_value(s[2 * i + 1])) as u8,
            ),
        )
    }
}

/// The view of an optional byte vector.
pub open spec fn opt_bytes(o: Option<Vec<u8>>) -> Option<Seq<u8>> {
    match o {
        Some(v) => Some(v@),
        None => None,
    }
}

/// Decoding the encoding of any byte string gives it back.
pub proof fn lemma_hex_roundtrip(b: Seq<u8>)
    ensures
        hex_decode_spec(hex_encode_spec(b)) == Some(b),
{
    let s = hex_encode_spec(b);
    assert forall|i: int| 0 <= i < s.len() implies 0 <= #[trigger] hex_value(s[i]) < 16 && (
    i % 2 == 0 ==> hex_value(s[i]) == b[i / 2] / 16) && (i % 2 == 1 ==> hex_value(s[i]) == b[i
        / 2] % 16) by {
        let v = if i % 2 == 0 { b[i / 2] / 16 } else { b[i / 2] % 16 };
        assert(0 <= v < 16);
        assert(s[i] == hex_digit_lower(v as int));
    }
    let d = Seq::new(
        s.len() / 2,
        |i: int| (hex_value(s[2 * i]) * 16 + hex_value(s[2 * i + 1])) as u8,
    );
    assert forall|i: int| 0 <= i < b.len() implies d[i] == b[i] by {
        assert(hex_value(s[2 * i]) == b[i] / 16);
        assert(hex_value(s[2 * i + 1]) == b[i] % 16);
    }
    assert(d =~= b);
}

/// `hex::encode`: lowercase hex digits of the bytes, two per byte.
#[verifier::external_body]
pub(crate) fn hex_encode(bytes: &[u8]) -> (res: String)
    ensures
        res@ == hex_encode_spec(bytes@),
{
    hex::encode(bytes)
}

/// `hex::decode`: fails on odd length or a non-hex character, otherwise pairs of
/// digits (either case) give the bytes.
#[verifier::external_body]
pub(crate) fn hex_decode(s: &str) -> (res: Option<Vec<u8>>)
    ensures
        opt_bytes(res) == hex_decode_spec(s@),
{
    hex::decode(s).ok()
}

/// The symbol of the standard base64 alphabet for a value in `0..64`.
pub open spec fn base64_symbol(v: int) -> char {
    if v < 26 {
        (65 + v) as char
    } else if v < 52 {
        (71 + v) as char
    } else if v < 62 {
        (v - 4) as char
    } else if v == 62 {
        '+'
    } else {
        '/'
    }
}

/// Standard base64 with `=` padding: each group of three bytes gives four
/// symbols; a final group of one or two bytes is padded to four symbols.
pub open spec fn base64_encode_spec(b: Seq<u8>) -> Seq<char>
    decreases b.len(),
{
    let b0 = b[0] as int;
    let b1 = b[1] as int;
    let b2 = b[2] as int;
    if b.len() == 0 {
        seq![]
    } else if b.len() == 1 {
        seq![base64_symbol(b0 / 4), base64_symbol((b0 % 4) * 16), '=', '=']
    } else if b.len() == 2 {
        seq![
            base64_symbol(b0 / 4),
            base64_symbol((b0 % 4) * 16 + b1 / 16),
            base64_symbol((b1 % 16) * 4),
            '=',
        ]
    } else {
        seq![
            base64_symbol(b0 / 4),
            base64_symbol((b0 % 4) * 16 + b1 / 16),
            base64_symbol((b1 % 16) * 4 + b2 / 64),
            base64_symbol(b2 % 64),
        ] + base64_encode_spec(b.skip(3))
    }
}

/// What `base64`'s standard engine decodes a text to (`None` where it refuses it).
pub uninterp spec fn base64_standard_decode(text: Seq<char>) -> Option<Seq<u8>>;

/// `STANDARD.encode` of the `base64` crate: padded standard base64, which the
/// same engine decodes back to the bytes.
#[verifier::external_body]
pub(crate) fn base64_encode(bytes: &[u8]) -> (res: String)
    ensures
        res@ == base64_encode_spec(bytes@),
        base64_standard_decode(res@) == Some(bytes@),
{
    base64::Engine::encode(&base64::engine::general_purpose::STANDARD, bytes)
}

/// `STANDARD.decode` of the `base64` crate. Its result is named; the canonical
/// padded encoding of any byte string decodes back to those bytes.
#[verifier::external_body]
pub(crate) fn base64_decode(text: &str) -> (res: Option<Vec<u8>>)
    ensures
        opt_bytes(res) == base64_standard_decode(text@),
        forall|b: Seq<u8>| text@ == #[trigger] base64_encode_spec(b) ==> opt_bytes(res) == Some(b),
{
    base64::Engine::decode(&base64::engine::general_purpose::STANDARD, text).ok()
}

/// `String::from_utf8`: succeeds exactly on valid UTF-8, with the decoded text.
#[verifier::external_body]
pub(crate) fn string_from_utf8(bytes: Vec<u8>) -> (res: Option<String>)
    ensures
        match res {
            Some(s) => valid_utf8(bytes@) && s@ == decode_utf8(bytes@),
            None => !valid_utf8(bytes@),
        },
{
    String::from_utf8(bytes).ok()
}

} // verus!
