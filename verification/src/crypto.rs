//! Trusted boundary around the cryptographic primitives the signing
//! protocol mandates: SHA-1 digests, standard base64 text, and RSA
//! private-key encryption with PKCS#1 v1.5 padding. Each result that is
//! a pure function of its inputs is given an uninterpreted name, and
//! every contract here states no more than the outside source shows.

use vstd::prelude::*;

use base64::Engine;

verus! {

/// The 20-byte SHA-1 digest of `data`; named only, its value comes
/// solely from openssl at run time.
pub uninterp spec fn sha1_of(data: Seq<u8>) -> Seq<u8>;

/// Relies on openssl's `hash` with `MessageDigest::sha1`: the digest is
/// a function of the input bytes alone and is 20 bytes long. The call
/// fails only for allocation-class reasons, on which this wrapper
/// aborts rather than returns.
#[verifier::external_body]
pub(crate) fn sha1(data: &[u8]) -> (r: Vec<u8>)
    ensures
        r@ == sha1_of(data@),
        r@.len() == 20,
{
    openssl::hash::hash(openssl::hash::MessageDigest::sha1(), data)
        .expect("SHA-1 digest")
        .to_vec()
}

/// The standard, padded base64 text of `data`; named only.
pub uninterp spec fn base64_of(data: Seq<u8>) -> Seq<char>;

/// Relies on base64's `STANDARD` engine: the text is a function of the
/// input bytes alone, ASCII, and four characters for every started
/// group of three bytes.
#[verifier::external_body]
pub(crate) fn base64_encode(data: &[u8]) -> (r: String)
    ensures
        r@ == base64_of(data@),
        r@.len() == 4 * ((data@.len() + 2) / 3),
        vstd::utf8::is_ascii_chars(r@),
{
    base64::engine::general_purpose::STANDARD.encode(data)
}

/// Whether openssl parses `pem`, with an empty passphrase, as a private
/// key whose algorithm is RSA.
pub uninterp spec fn is_rsa_private_pem(pem: Seq<u8>) -> bool;

/// The modulus size in bytes (`RSA_size`) of the key in `pem`; a
/// function of the key alone.
pub uninterp spec fn rsa_size_of(pem: Seq<u8>) -> nat;

/// The PKCS#1 v1.5 private-key encryption of `msg` under the key in
/// `pem`. The padding is deterministic, so the ciphertext is a function
/// of the key and message alone.
pub uninterp spec fn rsa_pkcs1_encrypt_of(pem: Seq<u8>, msg: Seq<u8>) -> Seq<u8>;

#[verifier::external_type_specification]
#[verifier::external_body]
#[verifier::reject_recursive_types(T)]
pub struct ExRsa<T>(openssl::rsa::Rsa<T>);

#[verifier::external_type_specification]
#[verifier::external_body]
pub struct ExPrivate(openssl::pkey::Private);

/// An RSA private key, kept together with the PEM text it was parsed
/// from, so that contracts can speak of the key by its bytes.
pub(crate) struct RsaPrivateKey {
    inner: openssl::rsa::Rsa<openssl::pkey::Private>,
    pem_bytes: Vec<u8>,
}

impl RsaPrivateKey {
    /// The PEM bytes this key was parsed from.
    pub(crate) closed spec fn pem(&self) -> Seq<u8> {
        self.pem_bytes@
    }

    /// Relies on openssl's `PKey::private_key_from_pem_passphrase`,
    /// with the empty passphrase, followed by `PKey::rsa`: together
    /// they succeed exactly when the PEM text parses as a private key
    /// whose algorithm is RSA. The passphrase variant never consults a
    /// terminal, so the outcome is a function of the bytes alone; an
    /// encrypted PEM deterministically fails (unless its passphrase is
    /// empty).
    #[verifier::external_body]
    pub(crate) fn from_pem(pem: &[u8]) -> (r: Option<RsaPrivateKey>)
        ensures
            r matches Some(k) ==> k.pem() == pem@ && is_rsa_private_pem(pem@),
            r is None ==> !is_rsa_private_pem(pem@),
    {
        let key = match openssl::pkey::PKey::private_key_from_pem_passphrase(pem, b"") {
            Ok(k) => k,
            Err(_) => return None,
        };
        match key.rsa() {
            Ok(rsa) => Some(RsaPrivateKey { inner: rsa, pem_bytes: pem.to_vec() }),
            Err(_) => None,
        }
    }

    /// Relies on openssl's `Rsa::private_encrypt` with `Padding::PKCS1`:
    /// deterministic in key and message; it succeeds exactly when the
    /// message fits the block, that is its length is at most the key's
    /// size minus the 11-byte PKCS#1 v1.5 overhead, and the ciphertext
    /// is then exactly the key's size (`RSA_private_encrypt` returns
    /// `RSA_size` bytes). The `requires` keeps out the `i32` length
    /// assertion the call would panic on; the output buffer is sized to
    /// the key.
    #[verifier::external_body]
    pub(crate) fn private_encrypt_pkcs1(&self, msg: &[u8]) -> (r: Option<Vec<u8>>)
        requires
            msg@.len() <= 0x7fffffff,
        ensures
            r is Some <==> msg@.len() + 11 <= rsa_size_of(self.pem()),
            r matches Some(c) ==> c@ == rsa_pkcs1_encrypt_of(self.pem(), msg@) && c@.len()
                == rsa_size_of(self.pem()),
    {
        let mut buf = vec![0u8; self.inner.size() as usize];
        match self.inner.private_encrypt(msg, &mut buf, openssl::rsa::Padding::PKCS1) {
            Ok(len) => {
                buf.truncate(len);
                Some(buf)
            },
            Err(_) => None,
        }
    }
}

/// Whether a digit stands at a position of the timestamp text.
pub open spec fn is_digit_char(c: char) -> bool {
    '0' <= c && c <= '9'
}

/// The fixed-precision UTC timestamp shape `YYYY-MM-DDTHH:MM:SSZ`:
/// twenty characters, digits everywhere but the fixed separators.
pub open spec fn is_utc_timestamp(ts: Seq<char>) -> bool {
    &&& ts.len() == 20
    &&& forall|i: int|
        0 <= i < 20 && i != 4 && i != 7 && i != 10 && i != 13 && i != 16 && i != 19
            ==> is_digit_char(#[trigger] ts[i])
    &&& ts[4] == '-'
    &&& ts[7] == '-'
    &&& ts[10] == 'T'
    &&& ts[13] == ':'
    &&& ts[16] == ':'
    &&& ts[19] == 'Z'
}

/// Relies on chrono's `Utc::now` and `format` with
/// `%Y-%m-%dT%H:%M:%SZ`: the text reflects the system clock at
/// fixed-second precision, in the stated shape — `%Y` is zero-padded to
/// four digits and stays four digits for the clock's era. Which instant
/// it names depends on the clock, so nothing further is promised.
#[verifier::external_body]
pub(crate) fn utc_timestamp() -> (r: String)
    ensures
        is_utc_timestamp(r@),
{
    chrono::Utc::now().format("%Y-%m-%dT%H:%M:%SZ").to_string()
}

} // verus!
