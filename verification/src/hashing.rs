//! Digests and their text forms: SHA-256 (`sha2`), lower-case hex (`hex`)
//! and standard Base64 (`base64`).

use vstd::prelude::*;

verus! {

/// The SHA-256 digest of a byte sequence.
pub uninterp spec fn spec_sha256(data: Seq<u8>) -> Seq<u8>;

/// The character of the standard Base64 alphabet for a value below 64:
/// `A`-`Z`, `a`-`z`, `0`-`9`, `+`, `/`.
pub open spec fn base64_digit(v: int) -> char {
    if v < 26 {
        (65 + v) as char
    } else if v < 52 {
        (71 + v) as char
    } else if v < 62 {
        (v - 4) as char
    } else if v == 62 {
        '+'
    } else {
        '/'
    }
}

/// The standard Base64 encoding of a byte sequence (RFC 4648): each group of
/// three bytes becomes four characters of six bits each; a last group of one
/// or two bytes is padded with `=`.
pub open spec fn spec_base64(data: Seq<u8>) -> Seq<char>
    decreases data.len(),
{
    if data.len() == 0 {
        Seq::empty()
    } else if data.len() == 1 {
        seq![
            base64_digit(data[0] as int / 4),
            base64_digit((data[0] as int % 4) * 16),
            '=',
            '=',
        ]
    } else if data.len() == 2 {
        seq![
            base64_digit(data[0] as int / 4),
            base64_digit((data[0] as int % 4) * 16 + data[1] as int / 16),
            base64_digit((data[1] as int % 16) * 4),
            '=',
        ]
    } else {
        seq![
            base64_digit(data[0] as int / 4),
            base64_digit((data[0] as int % 4) * 16 + data[1] as int / 16),
            base64_digit((data[1] as int % 16) * 4 + data[2] as int / 64),
            base64_digit(data[2] as int % 64),
        ] + spec_base64(data.subrange(3, data.len() as int))
    }
}

/// The lower-case hexadecimal digit for a value below 16.
pub open spec fn hex_digit(n: u8) -> char {
    if n < 10 {
        (48 + n) as char
    } else {
        (87 + n) as char
    }
}

/// Lower-case hexadecimal text of a byte sequence: two digits per byte, the
/// high half first.
pub open spec fn spec_hex(data: Seq<u8>) -> Seq<char>
    decreases data.len(),
{
    if data.len() == 0 {
        Seq::empty()
    } else {
        spec_hex(data.drop_last()) + seq![
            hex_digit((data.last() / 16) as u8),
            hex_digit((data.last() % 16) as u8),
        ]
    }
}

/// Calls `sha2::Sha256::digest`; the result is named `spec_sha256` and is
/// 32 bytes long, as the algorithm's output size is.
#[verifier::external_body]
fn sha256(data: &[u8]) -> (r: Vec<u8>)
    ensures
        r@ == spec_sha256(data@),
        r@.len() == 32,
{
    <sha2::Sha256 as sha2::Digest>::digest(data).to_vec()
}

/// Calls `hex::encode`, which writes each byte as two lower-case hexadecimal
/// digits, the high half first.
#[verifier::external_body]
fn hex_encode(data: &[u8]) -> (r: String)
    ensures
        r@ == spec_hex(data@),
{
    hex::encode(data)
}

/// Calls `base64::engine::general_purpose::STANDARD.encode`: the standard
/// alphabet with padding, as `spec_base64` states it. Its source panics only
/// when the encoded length would overflow `usize`, which the bound on the
/// input rules out.
#[verifier::external_body]
fn base64_encode(data: &[u8]) -> (r: String)
    requires
        data@.len() <= usize::MAX / 4,
    ensures
        r@ == spec_base64(data@),
{
    base64::Engine::encode(&base64::engine::general_purpose::STANDARD, data)
}

/// The text form of a content digest: lower-case hex of its SHA-256.
pub open spec fn spec_digest_text(data: Seq<u8>) -> Seq<char> {
    spec_hex(spec_sha256(data))
}

/// The SHA-256 digest of `data`, as lower-case hex.
pub fn hash_bytes(data: &[u8]) -> (r: String)
    ensures
        r@ == spec_digest_text(data@),
        r@.len() == 64,
{
    let digest = sha256(data);
    proof {
        lemma_hex_len(digest@);
    }
    hex_encode(digest.as_slice())
}

/// The standard Base64 encoding of `data`.
pub fn encode_base64(data: &[u8]) -> (r: String)
    requires
        data@.len() <= usize::MAX / 4,
    ensures
        r@ == spec_base64(data@),
{
    base64_encode(data)
}

/// Hex text has two digits per byte.
pub proof fn lemma_hex_len(data: Seq<u8>)
    ensures
        spec_hex(data).len() == 2 * data.len(),
    decreases data.len(),
{
    if data.len() > 0 {
        lemma_hex_len(data.drop_last());
    }
}

} // verus!
