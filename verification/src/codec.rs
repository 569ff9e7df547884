//! Base64 and SHA-1.

use vstd::prelude::*;
use base64::Engine;
use sha1::Digest;

verus! {

/// What the standard base64 alphabet, with padding, makes of bytes.
pub uninterp spec fn base64_text(bytes: Seq<u8>) -> Seq<char>;

/// `Engine::encode` of the `base64` crate's `STANDARD` engine. What is encoded
/// decodes to itself.
#[verifier::external_body]
pub(crate) fn base64_encode(bytes: &[u8]) -> (out: String)
    ensures
        out@ == base64_text(bytes@),
        base64_bytes(vstd::utf8::encode_utf8(out@)) == Some(bytes@),
{
    base64::engine::general_purpose::STANDARD.encode(bytes)
}

/// What the standard base64 alphabet, with padding, makes of a text, if it is
/// one of its texts.
pub uninterp spec fn base64_bytes(encoded: Seq<u8>) -> Option<Seq<u8>>;

/// `Engine::decode` of the `base64` crate's `STANDARD` engine; `None` for an
/// error.
#[verifier::external_body]
pub(crate) fn base64_decode(encoded: &[u8]) -> (out: Option<Vec<u8>>)
    ensures
        match out {
            Some(bytes) => base64_bytes(encoded@) == Some(bytes@),
            None => base64_bytes(encoded@) is None,
        },
{
    base64::engine::general_purpose::STANDARD.decode(encoded).ok()
}

/// The SHA-1 digest of bytes.
pub uninterp spec fn sha1_digest(bytes: Seq<u8>) -> Seq<u8>;

/// `Sha1::digest` of the `sha1` crate.
#[verifier::external_body]
pub(crate) fn sha1(bytes: &[u8]) -> (digest: Vec<u8>)
    ensures
        digest@ == sha1_digest(bytes@),
        digest@.len() == 20,
{
    sha1::Sha1::digest(bytes).to_vec()
}

} // verus!
