//! SHA-256 digests as the application writes them: lower-case hexadecimal.
use crate::text::string_from_chars;
use sha2::Digest;
use vstd::prelude::*;

verus! {

/// The SHA-256 digest of `bytes`.
pub uninterp spec fn sha256_digest(bytes: Seq<u8>) -> Seq<u8>;

/// `sha2::Sha256::digest`: the 32-byte digest of the bytes.
#[verifier::external_body]
fn sha256(bytes: &[u8]) -> (r: Vec<u8>)
    ensures
        r@ == sha256_digest(bytes@),
        r@.len() == 32,
{
    sha2::Sha256::digest(bytes).to_vec()
}

pub open spec fn hex_digit(d: int) -> char {
    if d < 10 {
        (('0' as u32) + d) as char
    } else {
        (('a' as u32) + d - 10) as char
    }
}

/// Two lower-case hexadecimal digits per byte (`{:x}` of a digest).
pub open spec fn lower_hex(bytes: Seq<u8>) -> Seq<char>
    decreases bytes.len(),
{
    if bytes.len() == 0 {
        seq![]
    } else {
        lower_hex(bytes.drop_last()) + seq![
            hex_digit((bytes.last() / 16) as int),
            hex_digit((bytes.last() % 16) as int),
        ]
    }
}

fn hex_char(d: u8) -> (c: char)
    requires
        d < 16,
    ensures
        c == hex_digit(d as int),
{
    let table: [char; 16] = [
        '0', '1', '2', '3', '4', '5', '6', '7', '8', '9', 'a', 'b', 'c', 'd', 'e', 'f',
    ];
    let c = table[d as usize];
    assert(c as u32 == if d < 10 {
        48 + d
    } else {
        97 + d - 10
    });
    c
}

pub fn lower_hex_chars(bytes: &[u8]) -> (r: Vec<char>)
    ensures
        r@ == lower_hex(bytes@),
        r@.len() == 2 * bytes@.len(),
{
    let mut out: Vec<char> = Vec::new();
    let mut i: usize = 0;
    while i < bytes.len()
        invariant
            i <= bytes@.len(),
            out@ == lower_hex(bytes@.take(i as int)),
            out@.len() == 2 * i,
        decreases bytes@.len() - i,
    {
        let b = bytes[i];
        assert(bytes@.take(i + 1).drop_last() =~= bytes@.take(i as int));
        out.push(hex_char(b / 16));
        out.push(hex_char(b % 16));
        i = i + 1;
    }
    assert(bytes@.take(bytes@.len() as int) =~= bytes@);
    out
}

/// The digest of `bytes` in lower-case hexadecimal.
pub fn sha256_hex(bytes: &[u8]) -> (r: String)
    ensures
        r@ == lower_hex(sha256_digest(bytes@)),
        r@.len() == 64,
{
    let digest = sha256(bytes);
    let hex = lower_hex_chars(&digest);
    string_from_chars(&hex)
}

/// The first 12 hexadecimal digits of the digest of `value`'s UTF-8 bytes:
/// a short name that tells documents apart.
pub fn short_identifier(value: &str) -> (r: String)
    ensures
        r@ == lower_hex(sha256_digest(vstd::utf8::encode_utf8(value@))).take(12),
{
    let digest = sha256(value.as_bytes());
    let hex = lower_hex_chars(&digest);
    let kept = crate::text::slice_to_vec(&hex, 0, 12);
    assert(kept@ =~= hex@.take(12));
    string_from_chars(&kept)
}

/// The header value that lets the server check an uploaded chunk.
pub fn upload_checksum(content: &[u8]) -> (r: String)
    ensures
        r@ == "sha256="@ + lower_hex(sha256_digest(content@)),
{
    let digest = sha256(content);
    let hex = lower_hex_chars(&digest);
    let mut out = crate::text::chars_of("sha256=");
    crate::text::push_chars(&mut out, &hex);
    string_from_chars(&out)
}

} // verus!
