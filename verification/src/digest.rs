//! SHA-256 digests and their hexadecimal spelling.

pub mod spelling;

use sha2::Digest;
use vstd::prelude::*;

verus! {

/// The SHA-256 digest of `bytes`.
pub uninterp spec fn sha256_of(bytes: Seq<u8>) -> Seq<u8>;

/// Calls `sha2::Sha256::digest`: the result depends on the bytes alone and has 32 bytes.
#[verifier::external_body]
pub(crate) fn sha256(bytes: &[u8]) -> (r: Vec<u8>)
    ensures
        r@ == sha256_of(bytes@),
        r@.len() == 32,
{
    sha2::Sha256::digest(bytes).to_vec()
}

/// The small hexadecimal digit with the given value.
pub open spec fn hex_char(d: int) -> char {
    if d < 10 {
        ((48 + d) as u8) as char
    } else {
        ((87 + d) as u8) as char
    }
}

/// The hexadecimal spelling of `bytes`, two digits for each.
pub open spec fn hex(bytes: Seq<u8>) -> Seq<char> {
    Seq::new(
        2 * bytes.len(),
        |i: int|
            if i % 2 == 0 {
                hex_char(bytes[i / 2] as int / 16)
            } else {
                hex_char(bytes[i / 2] as int % 16)
            },
    )
}

/// Whether a text is made of small hexadecimal digits.
pub open spec fn is_hex(text: Seq<char>) -> bool {
    forall|i: int| 0 <= i < text.len() ==> ('0' <= #[trigger] text[i] <= '9' || 'a' <= text[i] <= 'f')
}

/// The hexadecimal spelling is made of small hexadecimal digits.
pub proof fn hex_is_hex(bytes: Seq<u8>)
    ensures
        is_hex(hex(bytes)),
{
    assert forall|i: int| 0 <= i < hex(bytes).len() implies ('0' <= #[trigger] hex(bytes)[i] <= '9'
        || 'a' <= hex(bytes)[i] <= 'f') by {
        let b = bytes[i / 2] as int;
        assert(0 <= b / 16 < 16 && 0 <= b % 16 < 16);
    }
}

fn hex_digit(d: u8) -> (r: char)
    requires
        d < 16,
    ensures
        r == hex_char(d as int),
{
    if d < 10 {
        (48 + d) as char
    } else {
        (87 + d) as char
    }
}

/// Spells `bytes` in hexadecimal.
pub fn hex_text(bytes: &Vec<u8>) -> (r: String)
    ensures
        r@ == hex(bytes@),
{
    let mut out: String = String::new();
    let mut i: usize = 0;
    while i < bytes.len()
        invariant
            i <= bytes.len(),
            out@ == hex(bytes@.take(i as int)),
        decreases bytes.len() - i,
    {
        let b: u8 = bytes[i];
        out.push(hex_digit(b / 16));
        out.push(hex_digit(b % 16));
        proof {
            let grown = hex(bytes@.take(i + 1));
            let old_text = hex(bytes@.take(i as int));
            assert(grown =~= old_text.push(hex_char(b as int / 16)).push(hex_char(b as int % 16)));
        }
        i += 1;
    }
    assert(bytes@.take(bytes@.len() as int) =~= bytes@);
    out
}

/// The hexadecimal SHA-256 digest of the UTF-8 form of `text`.
pub open spec fn text_digest(text: Seq<char>) -> Seq<char> {
    hex(sha256_of(vstd::utf8::encode_utf8(text)))
}

/// Computes the hexadecimal SHA-256 digest of the UTF-8 form of `text`.
pub fn digest_text(text: &str) -> (r: String)
    ensures
        r@ == text_digest(text@),
        r@.len() == 64,
{
    let sum = sha256(text.as_bytes());
    hex_text(&sum)
}

/// The first 24 hexadecimal digits of the digest of `text`.
pub open spec fn short_digest(text: Seq<char>) -> Seq<char> {
    text_digest(text).take(24)
}

/// Computes the first 24 hexadecimal digits of the digest of `text`.
pub fn short_hash(text: &str) -> (r: String)
    ensures
        r@ == short_digest(text@),
        r@.len() == 24,
        is_hex(r@),
{
    let full = digest_text(text);
    let chars = crate::text::chars_of(full.as_str());
    let r = crate::text::slice_text(&chars, 0, 24);
    assert(chars@.subrange(0, 24) =~= text_digest(text@).take(24));
    proof {
        hex_is_hex(sha256_of(vstd::utf8::encode_utf8(text@)));
    }
    r
}

/// The digest of `bytes` with the prefix that names the algorithm.
pub open spec fn labelled_digest(bytes: Seq<u8>) -> Seq<char> {
    "sha256:"@ + hex(sha256_of(bytes))
}

/// Computes the digest of `bytes` with the prefix that names the algorithm.
pub fn labelled_sha256(bytes: &[u8]) -> (r: String)
    ensures
        r@ == labelled_digest(bytes@),
        r@.len() == 71,
{
    proof {
        reveal_strlit("sha256:");
    }
    let sum = sha256(bytes);
    let spelled = hex_text(&sum);
    crate::text::join2("sha256:", spelled.as_str())
}

} // verus!
