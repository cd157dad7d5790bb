//! Gravatar: avatars by e-mail address, addressed by the MD5 digest of the
//! trimmed, lower-cased address.
use vstd::prelude::*;
use vstd::utf8::encode_utf8;
use crate::avatars::{AvatarFetch, CACHE_TTL_SECS, Reply, Request, Source, Stage, advance,
    lookup_first};
use crate::text::{concat3, hex_lower, hex_string, law_trim_idempotent, trim_white_space, trimmed};

verus! {

/// What `str::to_lowercase` returns for `s`: its lower-case equivalent as the
/// Unicode property Lowercase defines it.
pub uninterp spec fn lowercased(s: Seq<char>) -> Seq<char>;

/// What `md5::compute` returns for `data`: its 16-byte MD5 digest.
pub uninterp spec fn md5_of(data: Seq<u8>) -> Seq<u8>;

/// Calls `str::to_lowercase`. Claimed: the result is the named lower-case
/// equivalent of `s`.
#[verifier::external_body]
fn lowercase(s: &str) -> (r: String)
    ensures
        r@ == lowercased(s@),
{
    s.to_lowercase()
}

/// Calls `md5::compute` and takes the digest's bytes. Claimed: the bytes are
/// the named digest of `data`.
#[verifier::external_body]
fn md5_digest(data: &[u8]) -> (r: [u8; 16])
    ensures
        r@ == md5_of(data@),
{
    md5::compute(data).0
}

/// The lower-case hexadecimal MD5 digest of the UTF-8 bytes of `email`,
/// trimmed and lower-cased: Gravatar's name for the address.
pub open spec fn gravatar_digest_hex(email: Seq<char>) -> Seq<char> {
    hex_lower(md5_of(encode_utf8(lowercased(trimmed(email)))))
}

/// The address of the avatar whose digest is `hex`, as a JPEG of 128 pixels.
pub open spec fn gravatar_avatar_url(hex: Seq<char>) -> Seq<char> {
    "https://www.gravatar.com/avatar/"@ + hex + ".jpg?size=128"@
}

/// Gravatar's name for `email`: the lower-case hexadecimal MD5 digest of the
/// address, trimmed and lower-cased.
pub fn gravatar_key(email: &str) -> (r: String)
    ensures
        r@ == gravatar_digest_hex(email@),
{
    let lower = lowercase(trim_white_space(email));
    let digest = md5_digest(lower.as_str().as_bytes());
    hex_string(&digest)
}

/// The address of the avatar whose digest is `hex`.
pub fn gravatar_url(hex: &str) -> (r: String)
    ensures
        r@ == gravatar_avatar_url(hex@),
{
    concat3("https://www.gravatar.com/avatar/", hex, ".jpg?size=128")
}

/// Law: addresses that differ only in leading and trailing white space have
/// the same Gravatar.
pub proof fn law_gravatar_ignores_surrounding_space(email: Seq<char>)
    ensures
        gravatar_digest_hex(trimmed(email)) == gravatar_digest_hex(email),
{
    law_trim_idempotent(email);
}

/// Avatars from Gravatar, by e-mail address.
#[derive(Clone, Copy, Debug)]
pub struct Gravatar;

impl AvatarFetch for Gravatar {
    open spec fn source(&self) -> Source {
        Source::Gravatar
    }

    fn cache_max_length() -> (r: u64) {
        CACHE_TTL_SECS
    }

    fn start(&self, identifier: &str) -> (r: (Stage, Request)) {
        lookup_first(identifier)
    }

    fn next(&self, identifier: &str, stage: Stage, reply: Reply) -> (r: (Stage, Request)) {
        advance(Source::Gravatar, identifier, stage, reply)
    }
}

} // verus!
