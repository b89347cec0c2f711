//! Fingerprinting the fetched secret: a SHA-256 digest rendered as
//! lowercase hex, degrading to a sentinel when the fetch failed.

use vstd::prelude::*;

use sha2::Digest;
use sha2::Sha256;

use crate::text::hex_of;
use crate::text::to_hex_lower;

verus! {

/// The 32-byte SHA-256 digest of a text's bytes.
pub uninterp spec fn sha256_of(text: Seq<char>) -> Seq<u8>;

/// Relies on sha2's Sha256 (through its Digest trait): the digest has 32
/// bytes and depends on the input text alone.
#[verifier::external_body]
fn sha256_text(text: &str) -> (digest: Vec<u8>)
    ensures
        digest@ == sha256_of(text@),
        digest@.len() == 32,
{
    let mut hasher = Sha256::new();
    hasher.update(text.as_bytes());
    hasher.finalize().to_vec()
}

/// The fingerprint of a text: lowercase hex of its SHA-256 digest.
pub open spec fn spec_fingerprint(text: Seq<char>) -> Seq<char> {
    hex_of(sha256_of(text))
}

/// The sentinel fingerprint stored when the secret cannot be fetched.
/// It is a data value, not an error signal: the service keeps running
/// and serves it like any fingerprint.
pub open spec fn spec_sentinel() -> Seq<char> {
    "ERROR_FETCHING_KEY"@
}

/// Computes the fingerprint of a retrieved secret: 64 lowercase hex
/// digits over its SHA-256 digest.
pub fn fingerprint_of_text(text: &str) -> (res: String)
    ensures
        res@ == spec_fingerprint(text@),
        res@.len() == 64,
{
    let digest = sha256_text(text);
    to_hex_lower(digest.as_slice())
}

/// The fingerprint stored at startup: the digest of the fetched secret,
/// or the sentinel when the fetch failed. A failed fetch never goes
/// further than this substitution.
pub fn initial_fingerprint(fetched: Option<String>) -> (res: String)
    ensures
        fetched matches Some(text) ==> res@ == spec_fingerprint(text@),
        fetched is None ==> res@ == spec_sentinel(),
{
    match fetched {
        Some(text) => fingerprint_of_text(text.as_str()),
        None => String::from_str("ERROR_FETCHING_KEY"),
    }
}

/// Fingerprinting is deterministic: equal texts fingerprint to equal
/// values, so refetching an identical secret yields an identical
/// fingerprint.
pub proof fn lemma_fingerprint_deterministic(a: Seq<char>, b: Seq<char>)
    requires
        a == b,
    ensures
        spec_fingerprint(a) == spec_fingerprint(b),
{
}

} // verus!
