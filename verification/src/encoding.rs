//! Base64.
use vstd::prelude::*;
use vstd::string::*;

verus! {

/// What the standard Base64 alphabet with padding decodes a text to, or the error
/// in words.
pub uninterp spec fn base64_decoded(s: Seq<char>) -> Result<Seq<u8>, Seq<char>>;

/// What the standard Base64 alphabet with padding encodes bytes to.
pub uninterp spec fn base64_text(bytes: Seq<u8>) -> Seq<char>;

/// `decode` of the `base64` crate's `STANDARD` engine: the bytes, or the printed
/// error, depend on the text alone.
#[verifier::external_body]
pub(crate) fn decode_base64(s: &str) -> (r: Result<Vec<u8>, String>)
    ensures
        match r {
            Ok(bytes) => base64_decoded(s@) is Ok && base64_decoded(s@)->Ok_0 == bytes@,
            Err(detail) => base64_decoded(s@) is Err && base64_decoded(s@)->Err_0 == detail@,
        },
{
    base64::Engine::decode(&base64::engine::general_purpose::STANDARD, s).map_err(
        |error| error.to_string(),
    )
}

/// `encode` of the `base64` crate's `STANDARD` engine: the text depends on the
/// bytes alone, and decodes to them again.
#[verifier::external_body]
pub(crate) fn encode_base64(bytes: &[u8]) -> (r: String)
    ensures
        r@ == base64_text(bytes@),
        base64_decoded(r@) is Ok && base64_decoded(r@)->Ok_0 == bytes@,
{
    base64::Engine::encode(&base64::engine::general_purpose::STANDARD, bytes)
}

} // verus!
