use vstd::prelude::*;
use vstd::string::*;

use crate::digest::{body_digest, digest_header_of};

verus! {

/// How far, in seconds, a request's `date` may lie from the local clock.
pub const MAX_CLOCK_SKEW: u64 = 720;

/// Why an inbound request's signature was not accepted.
#[derive(Clone, Copy, PartialEq, Eq, Structural, Debug)]
pub enum SignatureError {
    SignatureInvalid,
    KeyUnresolvable,
    ClockSkew,
}

/// The decision on an inbound request: the key must have been resolved, the
/// `Digest` header must equal the digest of the body as received, the
/// signature over the canonical header string must check against the key,
/// and the `date` must lie within the skew window of the local clock.
pub open spec fn request_outcome(
    key_resolved: bool,
    digest_header: Seq<char>,
    body_digest: Seq<char>,
    signature_valid: bool,
    date: u64,
    now: u64,
) -> Result<(), SignatureError> {
    if !key_resolved {
        Err(SignatureError::KeyUnresolvable)
    } else if digest_header != body_digest || !signature_valid {
        Err(SignatureError::SignatureInvalid)
    } else if date + MAX_CLOCK_SKEW < now || now + MAX_CLOCK_SKEW < date {
        Err(SignatureError::ClockSkew)
    } else {
        Ok(())
    }
}

/// The string that is signed: the headers `(request-target)`, `host`,
/// `date` and `digest`, one `name: value` line each, joined by newlines.
pub open spec fn signing_string_spec(
    method: Seq<char>,
    path: Seq<char>,
    host: Seq<char>,
    date: Seq<char>,
    digest: Seq<char>,
) -> Seq<char> {
    "(request-target): "@ + method + " "@ + path + "\nhost: "@ + host + "\ndate: "@ + date
        + "\ndigest: "@ + digest
}

/// Builds the canonical string that a request's signature covers; `method`
/// is given in lower case.
pub fn signing_string(
    method: &String,
    path: &String,
    host: &String,
    date: &String,
    digest: &String,
) -> (r: String)
    ensures
        r@ == signing_string_spec(method@, path@, host@, date@, digest@),
{
    let mut r = String::from_str("(request-target): ");
    r.append(method.as_str());
    r.append(" ");
    r.append(path.as_str());
    r.append("\nhost: ");
    r.append(host.as_str());
    r.append("\ndate: ");
    r.append(date.as_str());
    r.append("\ndigest: ");
    r.append(digest.as_str());
    r
}

/// A body changed in transit no longer matches the `Digest` header sent with
/// it, and a signature that does not check is refused the same way: both
/// give `SignatureInvalid`, whatever the date.
pub proof fn lemma_tampering_rejected(
    digest_header: Seq<char>,
    body_digest: Seq<char>,
    signature_valid: bool,
    date: u64,
    now: u64,
)
    requires
        digest_header != body_digest || !signature_valid,
    ensures
        request_outcome(true, digest_header, body_digest, signature_valid, date, now) == Err::<
            (),
            SignatureError,
        >(SignatureError::SignatureInvalid),
{
}

/// Decides whether an inbound request is authenticated, from the `Digest`
/// header, the digest of the body as received, whether the signer's key was
/// resolved and whether the signature checked against it.
pub fn check_request(
    key_resolved: bool,
    digest_header: &String,
    body_digest: &String,
    signature_valid: bool,
    date: u64,
    now: u64,
) -> (r: Result<(), SignatureError>)
    ensures
        r == request_outcome(key_resolved, digest_header@, body_digest@, signature_valid, date, now),
{
    if !key_resolved {
        Err(SignatureError::KeyUnresolvable)
    } else if *digest_header != *body_digest || !signature_valid {
        Err(SignatureError::SignatureInvalid)
    } else if (date < now && now - date > MAX_CLOCK_SKEW) || (now < date && date - now
        > MAX_CLOCK_SKEW) {
        Err(SignatureError::ClockSkew)
    } else {
        Ok(())
    }
}

/// Authenticates an inbound request from its `Digest` header and the body as
/// received, given whether the signer's key was resolved and whether the
/// signature over the canonical header string checked against it.
pub fn verify_request(
    key_resolved: bool,
    digest_header: &String,
    body: &[u8],
    signature_valid: bool,
    date: u64,
    now: u64,
) -> (r: Result<(), SignatureError>)
    ensures
        r == request_outcome(
            key_resolved,
            digest_header@,
            digest_header_of(body@),
            signature_valid,
            date,
            now,
        ),
{
    let d = body_digest(body);
    check_request(key_resolved, digest_header, &d, signature_valid, date, now)
}

} // verus!
