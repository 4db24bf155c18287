//! Content hashing: SHA-256 over a canonical text, rendered as lowercase hex,
//! and the small text encoders that canonical forms are built from.
use sha2::Digest;
use vstd::prelude::*;

verus! {

/// The lowercase hexadecimal digit for `d` (taken modulo 16).
pub open spec fn hex_digit(d: nat) -> char {
    let d = d % 16;
    if d == 0 { '0' } else if d == 1 { '1' } else if d == 2 { '2' } else if d == 3 { '3' }
    else if d == 4 { '4' } else if d == 5 { '5' } else if d == 6 { '6' } else if d == 7 { '7' }
    else if d == 8 { '8' } else if d == 9 { '9' } else if d == 10 { 'a' } else if d == 11 { 'b' }
    else if d == 12 { 'c' } else if d == 13 { 'd' } else if d == 14 { 'e' } else { 'f' }
}

/// Two lowercase hex digits per byte, high nibble first.
pub open spec fn hex_text(b: Seq<u8>) -> Seq<char>
    decreases b.len(),
{
    if b.len() == 0 {
        Seq::empty()
    } else {
        hex_text(b.drop_last()) + seq![hex_digit(b.last() as nat / 16), hex_digit(b.last() as nat % 16)]
    }
}

/// The decimal digit character for `d` (taken modulo 10).
pub open spec fn digit_char(d: nat) -> char {
    hex_digit(d % 10)
}

/// The decimal digits of `n`, most significant first, with no leading zeros.
pub open spec fn decimal(n: nat) -> Seq<char>
    decreases n,
{
    if n < 10 {
        seq![digit_char(n)]
    } else {
        decimal(n / 10).push(digit_char(n % 10))
    }
}

/// The decimal rendering of a signed integer: a `-` before the digits of a
/// negative value.
pub open spec fn signed_decimal(v: int) -> Seq<char> {
    if v < 0 {
        seq!['-'] + decimal((-v) as nat)
    } else {
        decimal(v as nat)
    }
}

/// The JSON string literal for a text: quoted, with JSON's escapes.
pub uninterp spec fn json_string_of(s: Seq<char>) -> Seq<char>;

/// The SHA-256 digest of the UTF-8 encoding of a text.
pub uninterp spec fn sha256_of(s: Seq<char>) -> Seq<u8>;

/// The content hash of a text: its SHA-256 digest in lowercase hex.
pub open spec fn content_hash_of(s: Seq<char>) -> Seq<char> {
    hex_text(sha256_of(s))
}

/// Relies on serde_json's `Display` of `Value::String`: the compact JSON
/// string literal for `s`, which depends on the characters of `s` alone.
#[verifier::external_body]
fn json_string(s: &str) -> (r: String)
    ensures
        r@ == json_string_of(s@),
{
    serde_json::Value::String(s.to_string()).to_string()
}

/// Relies on sha2's `Sha256::digest` over the bytes of `s`: a 32-byte digest
/// that depends on the text alone.
#[verifier::external_body]
fn sha256(s: &str) -> (r: Vec<u8>)
    ensures
        r@ == sha256_of(s@),
        r@.len() == 32,
{
    sha2::Sha256::digest(s).to_vec()
}

/// Relies on hex's `encode`: two lowercase digits per byte, high nibble first.
#[verifier::external_body]
fn hex_encode(b: &Vec<u8>) -> (r: String)
    ensures
        r@ == hex_text(b@),
{
    hex::encode(b)
}

/// Hex text has two characters per byte.
pub proof fn lemma_hex_text_len(b: Seq<u8>)
    ensures
        hex_text(b).len() == 2 * b.len(),
    decreases b.len(),
{
    if b.len() > 0 {
        lemma_hex_text_len(b.drop_last());
    }
}

/// Hashes a text: 64 lowercase hex characters of its SHA-256 digest.
pub fn content_hash(text: &str) -> (r: String)
    ensures
        r@ == content_hash_of(text@),
        r@.len() == 64,
{
    let d = sha256(text);
    proof {
        lemma_hex_text_len(d@);
    }
    hex_encode(&d)
}

/// Appends `s` as a JSON string literal.
pub fn push_json_string(out: &mut String, s: &str)
    ensures
        final(out)@ == old(out)@ + json_string_of(s@),
{
    let q = json_string(s);
    out.append(q.as_str());
}

fn digit_str(d: u64) -> (r: &'static str)
    requires
        d < 10,
    ensures
        r@ == seq![digit_char(d as nat)],
{
    proof {
        reveal_strlit("0");
        reveal_strlit("1");
        reveal_strlit("2");
        reveal_strlit("3");
        reveal_strlit("4");
        reveal_strlit("5");
        reveal_strlit("6");
        reveal_strlit("7");
        reveal_strlit("8");
        reveal_strlit("9");
    }
    let r = if d == 0 { "0" } else if d == 1 { "1" } else if d == 2 { "2" } else if d == 3 {
        "3"
    } else if d == 4 { "4" } else if d == 5 { "5" } else if d == 6 { "6" } else if d == 7 {
        "7"
    } else if d == 8 { "8" } else { "9" };
    assert(r@ =~= seq![digit_char(d as nat)]);
    r
}

/// Appends the decimal digits of `n`.
pub fn push_decimal(out: &mut String, n: u64)
    ensures
        final(out)@ == old(out)@ + decimal(n as nat),
    decreases n,
{
    if n >= 10 {
        push_decimal(out, n / 10);
    }
    let ghost mid = out@;
    out.append(digit_str(n % 10));
    proof {
        if n >= 10 {
            assert(mid == old(out)@ + decimal(n as nat / 10));
            assert(final(out)@ =~= old(out)@ + decimal(n as nat));
        } else {
            assert(final(out)@ =~= old(out)@ + decimal(n as nat));
        }
    }
}

/// Appends the decimal rendering of a signed integer.
pub fn push_signed_decimal(out: &mut String, v: i64)
    ensures
        final(out)@ == old(out)@ + signed_decimal(v as int),
{
    if v < 0 {
        let ghost start = out@;
        proof {
            reveal_strlit("-");
        }
        out.append("-");
        let magnitude: u64 = (0i128 - v as i128) as u64;
        push_decimal(out, magnitude);
        assert(final(out)@ =~= start + signed_decimal(v as int));
    } else {
        push_decimal(out, v as u64);
    }
}

} // verus!
