//! Payload hashing: SHA-256 over the UTF-8 bytes of a JSON text, rendered as
//! unpadded URL-safe base64.

use base64::Engine;
use sha2::Digest;
use vstd::prelude::*;
use vstd::utf8::encode_utf8;

verus! {

/// The SHA-256 digest of `data`, as the `sha2` crate computes it.
pub uninterp spec fn sha256_of(data: Seq<u8>) -> Seq<u8>;

/// The unpadded base64 text of `data` over the URL-safe alphabet of
/// RFC 4648 section 5, as the `base64` crate's `URL_SAFE_NO_PAD` engine
/// produces it.
pub uninterp spec fn base64_url_nopad(data: Seq<u8>) -> Seq<char>;

/// Whether `c` is in the URL-safe base64 alphabet: ASCII letters, digits,
/// `-` and `_`.
pub open spec fn is_base64_url_char(c: char) -> bool {
    ('A' <= c && c <= 'Z') || ('a' <= c && c <= 'z') || ('0' <= c && c <= '9') || c == '-' || c
        == '_'
}

/// Whether every character of `s` is in the URL-safe base64 alphabet (so,
/// in particular, `s` has no `=` padding).
pub open spec fn is_base64_url_text(s: Seq<char>) -> bool {
    forall|i: int| 0 <= i < s.len() ==> is_base64_url_char(#[trigger] s[i])
}

/// Length of unpadded base64 text for `n` input bytes: four characters per
/// complete 3-byte group, then two or three for a trailing partial group.
pub open spec fn base64_nopad_len(n: nat) -> nat {
    (n / 3) * 4 + if n % 3 == 0 {
        0nat
    } else if n % 3 == 1 {
        2nat
    } else {
        3nat
    }
}

/// The payload hash that an envelope carries for a payload whose JSON text
/// is `text`.
pub open spec fn payload_hash_of(text: Seq<char>) -> Seq<char> {
    base64_url_nopad(sha256_of(encode_utf8(text)))
}

/// Calls `<sha2::Sha256 as sha2::Digest>::digest`. Claims that the result is
/// the SHA-256 digest of the input and, as `Sha256`'s output size `U32`
/// fixes, 32 bytes long.
#[verifier::external_body]
fn sha256(data: &[u8]) -> (r: Vec<u8>)
    ensures
        r@ == sha256_of(data@),
        r@.len() == 32,
{
    sha2::Sha256::digest(data).to_vec()
}

/// Calls `base64::Engine::encode` on the `URL_SAFE_NO_PAD` engine. Claims the
/// named encoding, the length that `base64::encoded_len` computes without
/// padding, and that every character comes from the engine's alphabet
/// (`alphabet::URL_SAFE`: `A`-`Z`, `a`-`z`, `0`-`9`, `-`, `_`; with `NO_PAD`
/// no `=` is written). The engine panics when that length overflows
/// `usize`, which the precondition rules out.
#[verifier::external_body]
fn base64_url_encode(data: &[u8]) -> (r: String)
    requires
        base64_nopad_len(data@.len()) <= usize::MAX,
    ensures
        r@ == base64_url_nopad(data@),
        r@.len() == base64_nopad_len(data@.len()),
        is_base64_url_text(r@),
{
    base64::engine::general_purpose::URL_SAFE_NO_PAD.encode(data)
}

/// Hashes a JSON text: SHA-256 of its UTF-8 bytes, as unpadded URL-safe
/// base64. The result always has 43 characters, all from the URL-safe
/// alphabet.
pub fn compute_hash(data: &str) -> (r: String)
    ensures
        r@ == payload_hash_of(data@),
        r@ == base64_url_nopad(sha256_of(encode_utf8(data@))),
        r@.len() == 43,
        is_base64_url_text(r@),
{
    let digest = sha256(data.as_bytes());
    base64_url_encode(digest.as_slice())
}

} // verus!
