use base64ct::Encoding;
use sha2::Digest;
use vstd::prelude::*;

verus! {

/// How a PKCE `code_challenge` was derived from the verifier.
#[derive(Debug, Clone, Copy, PartialEq, Eq, Structural)]
pub enum PkceMethod {
    /// The challenge is the verifier itself.
    Plain,
    /// The challenge is the unpadded base64url form of the verifier's SHA-256.
    S256,
}

/// A PKCE challenge recorded with an authorization request.
pub struct PkceChallenge {
    pub method: PkceMethod,
    pub challenge: Vec<u8>,
}

/// The SHA-256 digest of a byte string.
pub uninterp spec fn sha256_of(data: Seq<u8>) -> Seq<u8>;

/// The unpadded base64url text of a byte string, as ASCII bytes.
pub uninterp spec fn base64url_of(data: Seq<u8>) -> Seq<u8>;

/// The `S256` challenge that belongs to a verifier.
pub open spec fn s256_challenge(verifier: Seq<u8>) -> Seq<u8> {
    base64url_of(sha256_of(verifier))
}

/// Whether `verifier` answers `challenge` under `method`.
pub open spec fn pkce_accepts(method: PkceMethod, challenge: Seq<u8>, verifier: Seq<u8>) -> bool {
    match method {
        PkceMethod::Plain => challenge == verifier,
        PkceMethod::S256 => challenge == s256_challenge(verifier),
    }
}

/// Relies on sha2's `Sha256::digest`: a 32-byte digest that depends on the
/// input bytes alone.
#[verifier::external_body]
fn sha256(data: &Vec<u8>) -> (r: Vec<u8>)
    ensures
        r@ == sha256_of(data@),
        r@.len() == 32,
{
    sha2::Sha256::digest(data.as_slice()).to_vec()
}

/// Relies on base64ct's `Base64UrlUnpadded::encoded_len` and `encode`: the
/// buffer is sized by the former, so the latter writes the whole text.
#[verifier::external_body]
fn base64url(data: &Vec<u8>) -> (r: Vec<u8>)
    requires
        data@.len() <= usize::MAX / 4,
    ensures
        r@ == base64url_of(data@),
{
    let mut buf = vec![0u8; base64ct::Base64UrlUnpadded::encoded_len(data.as_slice())];
    match base64ct::Base64UrlUnpadded::encode(data.as_slice(), &mut buf) {
        Ok(text) => text.as_bytes().to_vec(),
        Err(_) => Vec::new(),
    }
}

/// Byte-for-byte equality of two byte strings.
pub fn bytes_eq(a: &Vec<u8>, b: &Vec<u8>) -> (r: bool)
    ensures
        r == (a@ == b@),
{
    if a.len() != b.len() {
        return false;
    }
    let mut i: usize = 0;
    while i < a.len()
        invariant
            a@.len() == b@.len(),
            i <= a@.len(),
            forall|j: int| 0 <= j < i ==> a@[j] == b@[j],
        decreases a@.len() - i,
    {
        if a[i] != b[i] {
            return false;
        }
        i = i + 1;
    }
    assert(a@ =~= b@);
    true
}

/// Checks a verifier against a challenge, given the verifier's encoded
/// SHA-256 (`encoded_digest`), which only `S256` consults.
pub fn verifier_matches(
    method: PkceMethod,
    challenge: &Vec<u8>,
    verifier: &Vec<u8>,
    encoded_digest: &Vec<u8>,
) -> (r: bool)
    ensures
        r == match method {
            PkceMethod::Plain => challenge@ == verifier@,
            PkceMethod::S256 => challenge@ == encoded_digest@,
        },
{
    match method {
        PkceMethod::Plain => bytes_eq(challenge, verifier),
        PkceMethod::S256 => bytes_eq(challenge, encoded_digest),
    }
}

/// Whether `verifier` answers the recorded PKCE challenge.
pub fn verify_pkce(pkce: &PkceChallenge, verifier: &Vec<u8>) -> (r: bool)
    ensures
        r == pkce_accepts(pkce.method, pkce.challenge@, verifier@),
{
    match pkce.method {
        PkceMethod::Plain => bytes_eq(&pkce.challenge, verifier),
        PkceMethod::S256 => {
            let digest = sha256(verifier);
            let encoded = base64url(&digest);
            verifier_matches(pkce.method, &pkce.challenge, verifier, &encoded)
        },
    }
}

} // verus!
