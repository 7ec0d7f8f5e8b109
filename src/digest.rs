use base64::Engine;
use sha2::Digest;
use vstd::prelude::*;
use vstd::string::*;

verus! {

/// The SHA-256 hash of a byte string.
pub uninterp spec fn sha256_of(b: Seq<u8>) -> Seq<u8>;

/// The standard, padded base64 text of a byte string.
pub uninterp spec fn base64_of(b: Seq<u8>) -> Seq<char>;

/// Relies on sha2::Sha256::digest: the 32-byte SHA-256 hash of the input.
#[verifier::external_body]
fn sha256(b: &[u8]) -> (r: Vec<u8>)
    ensures
        r@ == sha256_of(b@),
        r@.len() == 32,
{
    sha2::Sha256::digest(b).to_vec()
}

/// Relies on base64's STANDARD engine `encode`: padded base64 of the input.
/// It panics only where the encoded length overflows `usize`.
#[verifier::external_body]
fn base64_encode(b: &[u8]) -> (r: String)
    requires
        b@.len() <= usize::MAX / 2,
    ensures
        r@ == base64_of(b@),
{
    base64::engine::general_purpose::STANDARD.encode(b)
}

/// The `Digest` header value of a request body: `SHA-256=` and the base64 of
/// the body's SHA-256 hash.
pub open spec fn digest_header_of(body: Seq<u8>) -> Seq<char> {
    "SHA-256="@ + base64_of(sha256_of(body))
}

/// Computes the `Digest` header value that a body must carry.
pub fn body_digest(body: &[u8]) -> (r: String)
    ensures
        r@ == digest_header_of(body@),
{
    let h = sha256(body);
    let enc = base64_encode(h.as_slice());
    let mut r = String::from_str("SHA-256=");
    r.append(enc.as_str());
    r
}

} // verus!
