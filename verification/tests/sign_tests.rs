//! Signing: determinism, canonical-string exactness, error cases, and
//! the end-to-end round trip against a fresh RSA keypair.

use base64::Engine;
use knife::errors::KnifeError;
use knife::headers::request_headers_at;
use knife::sign::{canonical_header, content_hash, sign_request};

const EMPTY_SHA1_B64: &str = "2jmj7l5rSw0yVb/vlWAYkK/YBwk=";

fn test_keypair() -> (openssl::rsa::Rsa<openssl::pkey::Private>, String) {
    let rsa = openssl::rsa::Rsa::generate(2048).expect("generate RSA key");
    let pem_bytes = rsa.private_key_to_pem().expect("serialize key");
    let pem = String::from_utf8(pem_bytes).expect("PEM is UTF-8");
    (rsa, pem)
}

fn b64_sha1_of(data: &[u8]) -> String {
    let digest = openssl::hash::hash(openssl::hash::MessageDigest::sha1(), data).unwrap();
    base64::engine::general_purpose::STANDARD.encode(&digest)
}

#[test]
fn content_hash_of_empty_body() {
    assert_eq!(content_hash(""), EMPTY_SHA1_B64);
}

#[test]
fn canonical_string_exact() {
    let hashed_path = b64_sha1_of(b"/organizations/org1/nodes");
    let user_hash = b64_sha1_of(b"bob");
    let canonical = canonical_header(
        "GET",
        &hashed_path,
        EMPTY_SHA1_B64,
        "2024-01-01T00:00:00Z",
        &user_hash,
    );
    let expected = format!(
        "Method:GET\nHashed Path:{}\nX-Ops-Content-Hash:{}\nX-Ops-Timestamp:{}\nX-Ops-UserId:{}",
        hashed_path, EMPTY_SHA1_B64, "2024-01-01T00:00:00Z", user_hash
    );
    assert_eq!(canonical, expected);
    assert!(!canonical.ends_with('\n'));
    assert_eq!(canonical.matches('\n').count(), 4);
}

#[test]
fn sign_is_deterministic() {
    let (_, pem) = test_keypair();
    let ts = "2024-01-01T00:00:00Z";
    let s1 = sign_request(&pem, "bob", "GET", "/organizations/org1/nodes", "", ts).unwrap();
    let s2 = sign_request(&pem, "bob", "GET", "/organizations/org1/nodes", "", ts).unwrap();
    assert_eq!(s1, s2);
    // A 2048-bit key encrypts to 256 bytes: 344 base64 characters.
    assert_eq!(s1.len(), 344);
}

#[test]
fn sign_rejects_encrypted_pem_deterministically() {
    let rsa = openssl::rsa::Rsa::generate(2048).unwrap();
    let encrypted = rsa
        .private_key_to_pem_passphrase(openssl::symm::Cipher::aes_256_cbc(), b"secret")
        .unwrap();
    let pem = String::from_utf8(encrypted).unwrap();
    let ts = "2024-01-01T00:00:00Z";
    let r1 = sign_request(&pem, "bob", "GET", "/x", "", ts);
    let r2 = sign_request(&pem, "bob", "GET", "/x", "", ts);
    assert_eq!(r1, Err(KnifeError::KeyParse));
    assert_eq!(r1, r2);
}

#[test]
fn sign_rejects_bad_pem() {
    let r = sign_request("not a pem", "bob", "GET", "/x", "", "2024-01-01T00:00:00Z");
    assert_eq!(r, Err(KnifeError::KeyParse));
}

#[test]
fn sign_fails_when_canonical_exceeds_block_size() {
    let rsa = openssl::rsa::Rsa::generate(512).expect("generate small RSA key");
    let pem = String::from_utf8(rsa.private_key_to_pem().unwrap()).unwrap();
    let r = sign_request(&pem, "bob", "GET", "/organizations/org1/nodes", "", "2024-01-01T00:00:00Z");
    assert_eq!(r, Err(KnifeError::Signing));
}

#[test]
fn end_to_end_headers_round_trip() {
    let (rsa, pem) = test_keypair();
    let ts = "2024-01-01T00:00:00Z";
    let path = "/organizations/org1/nodes";
    let headers = request_headers_at(&pem, "bob", path, "GET", "", ts).unwrap();

    let get = |name: &str| -> Option<String> {
        headers
            .iter()
            .find(|(n, _)| n == name)
            .map(|(_, v)| v.clone())
    };
    assert_eq!(get("Accept").unwrap(), "application/json");
    assert_eq!(get("Content-Type").unwrap(), "application/json");
    assert_eq!(get("X-Chef-Version").unwrap(), "12.22.5");
    assert_eq!(get("X-Ops-Sign").unwrap(), "algorithm=sha1;version=1.1;");
    assert_eq!(get("X-Ops-Timestamp").unwrap(), ts);
    assert_eq!(get("X-Ops-Userid").unwrap(), "bob");
    assert_eq!(get("X-Ops-Content-Hash").unwrap(), EMPTY_SHA1_B64);

    // Gather the numbered authorization chunks in index order.
    let mut signature = String::new();
    let mut i = 1;
    while let Some(chunk) = get(&format!("X-Ops-Authorization-{}", i)) {
        assert!(chunk.len() <= 60);
        if get(&format!("X-Ops-Authorization-{}", i + 1)).is_some() {
            assert_eq!(chunk.len(), 60);
        }
        signature.push_str(&chunk);
        i += 1;
    }
    assert!(i > 1, "at least one authorization header");

    // Decrypt the signature with the public half and compare against
    // the canonical string.
    let cipher = base64::engine::general_purpose::STANDARD
        .decode(&signature)
        .expect("signature is base64");
    let mut plain = vec![0u8; rsa.size() as usize];
    let n = rsa
        .public_decrypt(&cipher, &mut plain, openssl::rsa::Padding::PKCS1)
        .expect("decrypts with the public key");
    plain.truncate(n);
    let expected = format!(
        "Method:GET\nHashed Path:{}\nX-Ops-Content-Hash:{}\nX-Ops-Timestamp:{}\nX-Ops-UserId:{}",
        b64_sha1_of(path.as_bytes()),
        EMPTY_SHA1_B64,
        ts,
        b64_sha1_of(b"bob")
    );
    assert_eq!(String::from_utf8(plain).unwrap(), expected);
}
