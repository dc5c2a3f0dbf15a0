//! Error taxonomy of the signing and dispatch core. Every failure is
//! surfaced once, to the immediate caller; nothing is retried or
//! suppressed, and there is no fallback signing scheme.

use vstd::prelude::*;

verus! {

/// What went wrong while signing or dispatching a request.
#[derive(Debug, Clone, PartialEq, Eq)]
pub enum KnifeError {
    /// The private-key file could not be read. Raised by the caller that
    /// does the reading; the core itself never touches the file system.
    Io { path: String },
    /// The PEM text did not parse as an RSA private key.
    KeyParse,
    /// The RSA encryption primitive refused the canonical string: it
    /// exceeds the key's block size minus the 11-byte PKCS#1 v1.5
    /// overhead (or the i32 length bound the encryption call takes).
    Signing,
    /// The system clock could not be read. A distinct, reportable case,
    /// though not expected in practice.
    Clock,
    /// The transport failed before a status line and body came back
    /// (DNS, connection, TLS handshake, timeout, body read).
    Transport { detail: String },
    /// The server answered with a status the caller did not accept;
    /// carries the raw status and body for the caller to present.
    ProtocolStatus { status: u16, body: String },
}

} // verus!
