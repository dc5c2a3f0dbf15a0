//! The signer: builds the canonical header string of a request and
//! produces its RSA-encrypted, base64-encoded signature. The canonical
//! string's field order and literal labels are fixed and must match
//! byte for byte; the "sign via private-key encryption" primitive is a
//! protocol requirement and must not be upgraded to a modern signature
//! scheme, or compatibility breaks.

use vstd::prelude::*;

use crate::crypto::{
    base64_of, is_rsa_private_pem, rsa_pkcs1_encrypt_of, rsa_size_of, sha1, sha1_of,
    RsaPrivateKey,
};
use crate::errors::KnifeError;
use vstd::string::StringExecFns;
use vstd::string::StringSliceAdditionalSpecFns;
use vstd::utf8::encode_utf8;
use vstd::utf8::is_ascii_chars;

verus! {

/// base64 of the SHA-1 digest: the hash encoding used for the path,
/// the body and the identity throughout the protocol.
pub open spec fn b64_sha1(data: Seq<u8>) -> Seq<char> {
    base64_of(sha1_of(data))
}

/// The canonical header string assembled from its five components:
/// fixed labels, one newline between fields, no trailing newline.
pub open spec fn canonical_of(
    method: Seq<char>,
    hashed_path: Seq<char>,
    content_hash: Seq<char>,
    timestamp: Seq<char>,
    user_id: Seq<char>,
) -> Seq<char> {
    "Method:"@ + method + "\nHashed Path:"@ + hashed_path + "\nX-Ops-Content-Hash:"@
        + content_hash + "\nX-Ops-Timestamp:"@ + timestamp + "\nX-Ops-UserId:"@ + user_id
}

/// The canonical string of a request, from the raw inputs: path, body
/// and identity enter as base64-encoded SHA-1 digests of their UTF-8
/// bytes, method and timestamp verbatim.
pub open spec fn canonical_request_of(
    identity: Seq<char>,
    method: Seq<char>,
    path: Seq<char>,
    body: Seq<char>,
    timestamp: Seq<char>,
) -> Seq<char> {
    canonical_of(
        method,
        b64_sha1(encode_utf8(path)),
        b64_sha1(encode_utf8(body)),
        timestamp,
        b64_sha1(encode_utf8(identity)),
    )
}

/// The signature text: the canonical string's UTF-8 bytes, encrypted
/// under the key with PKCS#1 v1.5 padding, then base64-encoded.
pub open spec fn signature_of(
    pem: Seq<u8>,
    identity: Seq<char>,
    method: Seq<char>,
    path: Seq<char>,
    body: Seq<char>,
    timestamp: Seq<char>,
) -> Seq<char> {
    base64_of(
        rsa_pkcs1_encrypt_of(
            pem,
            encode_utf8(canonical_request_of(identity, method, path, body, timestamp)),
        ),
    )
}

/// base64(SHA1(data)).
fn hash_b64(data: &[u8]) -> (r: String)
    ensures
        r@ == b64_sha1(data@),
        is_ascii_chars(r@),
{
    let digest = sha1(data);
    crate::crypto::base64_encode(digest.as_slice())
}

/// base64(SHA1(body)): the value fed into the canonical string, and
/// also sent as the content-hash header. A GET's body is always the
/// empty string.
pub fn content_hash(body: &str) -> (r: String)
    ensures
        r@ == b64_sha1(encode_utf8(body@)),
        is_ascii_chars(r@),
{
    hash_b64(body.as_bytes())
}

/// Assembles the canonical header string from its five components,
/// exactly as `canonical_of` lays them out.
pub fn canonical_header(
    http_method: &str,
    hashed_path: &str,
    content_hash: &str,
    timestamp: &str,
    user_id: &str,
) -> (r: String)
    ensures
        r@ == canonical_of(http_method@, hashed_path@, content_hash@, timestamp@, user_id@),
{
    let mut s = String::from_str("Method:");
    s.append(http_method);
    s.append("\nHashed Path:");
    s.append(hashed_path);
    s.append("\nX-Ops-Content-Hash:");
    s.append(content_hash);
    s.append("\nX-Ops-Timestamp:");
    s.append(timestamp);
    s.append("\nX-Ops-UserId:");
    s.append(user_id);
    s
}

/// Whether the canonical string of the given inputs fits the key's
/// block: its UTF-8 length is within the key's size minus the 11-byte
/// PKCS#1 v1.5 overhead, and under the `i32` bound the encryption call
/// takes.
pub open spec fn canonical_fits(
    pem: Seq<u8>,
    identity: Seq<char>,
    method: Seq<char>,
    path: Seq<char>,
    body: Seq<char>,
    timestamp: Seq<char>,
) -> bool {
    let msg = encode_utf8(canonical_request_of(identity, method, path, body, timestamp));
    msg.len() + 11 <= rsa_size_of(pem) && msg.len() <= 0x7fffffff
}

/// Signs one request: hashes path, body and identity, assembles the
/// canonical string, encrypts it under the PEM key and base64-encodes
/// the ciphertext. Succeeds exactly when the key parses and the
/// canonical string fits its block; deterministic: for fixed inputs the
/// result is exactly `signature_of` applied to them.
pub fn sign_request(
    key_pem: &str,
    node_name: &str,
    http_method: &str,
    path: &str,
    body: &str,
    timestamp: &str,
) -> (r: Result<String, KnifeError>)
    ensures
        r is Ok <==> is_rsa_private_pem(key_pem.spec_bytes()) && canonical_fits(
            key_pem.spec_bytes(),
            node_name@,
            http_method@,
            path@,
            body@,
            timestamp@,
        ),
        r matches Ok(sig) ==> sig@ == signature_of(
            key_pem.spec_bytes(),
            node_name@,
            http_method@,
            path@,
            body@,
            timestamp@,
        ) && is_ascii_chars(sig@) && sig@.len() == 4 * ((rsa_size_of(key_pem.spec_bytes()) + 2)
            / 3) && rsa_size_of(key_pem.spec_bytes()) >= 11,
        r matches Err(e) ==> (e matches KnifeError::KeyParse || e matches KnifeError::Signing),
        r matches Err(KnifeError::KeyParse) <==> !is_rsa_private_pem(key_pem.spec_bytes()),
        r matches Err(KnifeError::Signing) <==> is_rsa_private_pem(key_pem.spec_bytes())
            && !canonical_fits(
            key_pem.spec_bytes(),
            node_name@,
            http_method@,
            path@,
            body@,
            timestamp@,
        ),
{
    let key = match RsaPrivateKey::from_pem(key_pem.as_bytes()) {
        Some(k) => k,
        None => {
            return Err(KnifeError::KeyParse);
        },
    };
    let hashed_path = hash_b64(path.as_bytes());
    let ops_content_hash = hash_b64(body.as_bytes());
    let user_id = hash_b64(node_name.as_bytes());
    let canonical = canonical_header(
        http_method,
        hashed_path.as_str(),
        ops_content_hash.as_str(),
        timestamp,
        user_id.as_str(),
    );
    let canonical_bytes = canonical.as_str().as_bytes();
    if canonical_bytes.len() > 0x7fffffff {
        return Err(KnifeError::Signing);
    }
    match key.private_encrypt_pkcs1(canonical_bytes) {
        Some(cipher) => Ok(crate::crypto::base64_encode(cipher.as_slice())),
        None => Err(KnifeError::Signing),
    }
}

/// Determinism of signing: for one set of inputs there is one
/// signature; any two results for the same inputs are equal.
pub proof fn lemma_sign_deterministic(
    pem: Seq<u8>,
    identity: Seq<char>,
    method: Seq<char>,
    path: Seq<char>,
    body: Seq<char>,
    timestamp: Seq<char>,
    sig1: Seq<char>,
    sig2: Seq<char>,
)
    requires
        sig1 == signature_of(pem, identity, method, path, body, timestamp),
        sig2 == signature_of(pem, identity, method, path, body, timestamp),
    ensures
        sig1 == sig2,
{
}

} // verus!
