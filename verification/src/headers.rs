//! The header builder: assembles the full authenticated header set for
//! a request as one ordered, immutable list, built in a single pass.
//! The base64 signature is split into consecutive 60-character chunks
//! (the last may be shorter, never padded), one numbered authorization
//! header per chunk, numbered from 1 with no gaps, even when the whole
//! signature fits in a single chunk.

use vstd::prelude::*;

use crate::crypto::{is_rsa_private_pem, is_utc_timestamp, rsa_size_of};
use crate::errors::KnifeError;
use crate::sign::{b64_sha1, canonical_fits, content_hash, sign_request, signature_of};
use vstd::string::StrSliceExecFns;
use vstd::string::StringExecFns;
use vstd::string::StringSliceAdditionalSpecFns;
use vstd::utf8::encode_utf8;

verus! {

/// The character for one decimal digit.
pub open spec fn digit_char_of(d: nat) -> char {
    if d == 0 {
        '0'
    } else if d == 1 {
        '1'
    } else if d == 2 {
        '2'
    } else if d == 3 {
        '3'
    } else if d == 4 {
        '4'
    } else if d == 5 {
        '5'
    } else if d == 6 {
        '6'
    } else if d == 7 {
        '7'
    } else if d == 8 {
        '8'
    } else {
        '9'
    }
}

/// The decimal text of `n`, most significant digit first, no sign, no
/// leading zeros (a single `0` for zero).
pub open spec fn dec_str_of(n: nat) -> Seq<char>
    decreases n,
{
    if n < 10 {
        seq![digit_char_of(n)]
    } else {
        dec_str_of(n / 10) + seq![digit_char_of(n % 10)]
    }
}

/// Pushes the character of one digit onto `s`.
fn append_digit(s: &mut String, d: u8)
    requires
        d < 10,
    ensures
        final(s)@ == old(s)@ + seq![digit_char_of(d as nat)],
{
    if d == 0 {
        s.append("0");
        proof {
            reveal_strlit("0");
        }
    } else if d == 1 {
        s.append("1");
        proof {
            reveal_strlit("1");
        }
    } else if d == 2 {
        s.append("2");
        proof {
            reveal_strlit("2");
        }
    } else if d == 3 {
        s.append("3");
        proof {
            reveal_strlit("3");
        }
    } else if d == 4 {
        s.append("4");
        proof {
            reveal_strlit("4");
        }
    } else if d == 5 {
        s.append("5");
        proof {
            reveal_strlit("5");
        }
    } else if d == 6 {
        s.append("6");
        proof {
            reveal_strlit("6");
        }
    } else if d == 7 {
        s.append("7");
        proof {
            reveal_strlit("7");
        }
    } else if d == 8 {
        s.append("8");
        proof {
            reveal_strlit("8");
        }
    } else {
        s.append("9");
        proof {
            reveal_strlit("9");
        }
    }
}

/// The digits collected least significant first, read back reversed.
pub open spec fn rev_digit_chars(ds: Seq<u8>) -> Seq<char> {
    Seq::new(ds.len(), |i: int| digit_char_of(ds[ds.len() - 1 - i] as nat))
}

/// Formats `n` in decimal.
fn usize_to_dec(n: usize) -> (r: String)
    ensures
        r@ == dec_str_of(n as nat),
{
    let mut s = String::new();
    if n == 0 {
        append_digit(&mut s, 0);
        return s;
    }
    let mut m: usize = n;
    let mut digits: Vec<u8> = Vec::new();
    while m > 0
        invariant
            forall|i: int| 0 <= i < digits@.len() ==> digits@[i] < 10,
            dec_str_of(n as nat) =~= (if m == 0 {
                Seq::<char>::empty()
            } else {
                dec_str_of(m as nat)
            }) + rev_digit_chars(digits@),
        decreases m,
    {
        let ghost prev_digits = digits@;
        let ghost prev_m = m as nat;
        let d = (m % 10) as u8;
        m = m / 10;
        digits.push(d);
        proof {
            assert(rev_digit_chars(digits@) =~= seq![digit_char_of(d as nat)] + rev_digit_chars(
                prev_digits,
            ));
            if prev_m >= 10 {
                assert(dec_str_of(prev_m) == dec_str_of(prev_m / 10) + seq![
                    digit_char_of(prev_m % 10),
                ]);
            }
        }
    }
    let len = digits.len();
    let mut j: usize = 0;
    while j < len
        invariant
            len == digits@.len(),
            forall|i: int| 0 <= i < digits@.len() ==> digits@[i] < 10,
            j <= len,
            s@ =~= rev_digit_chars(digits@).take(j as int),
            dec_str_of(n as nat) =~= rev_digit_chars(digits@),
        decreases len - j,
    {
        let d = digits[len - 1 - j];
        append_digit(&mut s, d);
        proof {
            assert(s@ =~= rev_digit_chars(digits@).take(j as int + 1));
        }
        j = j + 1;
    }
    proof {
        assert(rev_digit_chars(digits@).take(len as int) =~= rev_digit_chars(digits@));
    }
    s
}

/// How many 60-character chunks a signature of length `len` yields.
pub open spec fn num_chunks(len: nat) -> nat {
    (len + 59) / 60
}

/// Chunk `i` of the signature: characters `[60*i, 60*(i+1))`, cut to
/// the signature's end.
pub open spec fn chunk_of(sig: Seq<char>, i: int) -> Seq<char> {
    sig.subrange(
        60 * i,
        if 60 * i + 60 <= sig.len() {
            60 * i + 60
        } else {
            sig.len() as int
        },
    )
}

/// The first `k` chunks, concatenated in index order.
pub open spec fn concat_chunks(sig: Seq<char>, k: int) -> Seq<char>
    decreases k,
{
    if k <= 0 {
        Seq::empty()
    } else {
        concat_chunks(sig, k - 1) + chunk_of(sig, k - 1)
    }
}

proof fn lemma_concat_prefix(sig: Seq<char>, k: int)
    requires
        0 <= k <= num_chunks(sig.len()),
    ensures
        concat_chunks(sig, k) =~= sig.take(
            if 60 * k <= sig.len() {
                60 * k
            } else {
                sig.len() as int
            },
        ),
    decreases k,
{
    if k > 0 {
        lemma_concat_prefix(sig, k - 1);
    }
}

/// The chunking law. For a signature of length L: there are
/// `ceil(L/60)` chunks; every chunk but the last is 60 characters; the
/// last is `L % 60` characters (60 when L is an exact multiple); and
/// concatenating all chunks in index order reconstructs the signature
/// exactly.
pub proof fn lemma_chunks_reconstruct(sig: Seq<char>)
    ensures
        concat_chunks(sig, num_chunks(sig.len()) as int) =~= sig,
        forall|i: int|
            0 <= i < num_chunks(sig.len()) as int - 1 ==> (#[trigger] chunk_of(sig, i)).len()
                == 60,
        sig.len() > 0 ==> chunk_of(sig, num_chunks(sig.len()) as int - 1).len() == (
        if sig.len() % 60 == 0 {
            60 as nat
        } else {
            sig.len() % 60
        }),
{
    lemma_concat_prefix(sig, num_chunks(sig.len()) as int);
}

/// Splits a signature into its numbered chunks.
pub fn chunk_signature(sig: &str) -> (r: Vec<String>)
    ensures
        r@.len() == num_chunks(sig@.len()),
        forall|i: int| 0 <= i < r@.len() ==> (#[trigger] r@[i])@ == chunk_of(sig@, i),
{
    let mut r: Vec<String> = Vec::new();
    let n = sig.unicode_len();
    let mut start: usize = 0;
    while start < n
        invariant
            n == sig@.len(),
            start <= n,
            start % 60 == 0 || start == n,
            r@.len() == num_chunks(start as nat),
            start == 60 * r@.len() || start == n,
            forall|i: int| 0 <= i < r@.len() ==> (#[trigger] r@[i])@ == chunk_of(sig@, i),
        decreases n - start,
    {
        let end = if n - start > 60 {
            start + 60
        } else {
            n
        };
        let piece = sig.substring_char(start, end);
        r.push(piece.to_owned());
        start = end;
    }
    r
}

/// The name of authorization header `i` (0-based): its number is
/// `i + 1`.
pub open spec fn auth_header_name_of(i: int) -> Seq<char> {
    "X-Ops-Authorization-"@ + dec_str_of((i + 1) as nat)
}

/// The six fixed leading headers: the two MIME headers, the protocol
/// version, the algorithm descriptor, the timestamp and the identity.
pub open spec fn fixed_headers_of(identity: Seq<char>, timestamp: Seq<char>) -> Seq<
    (Seq<char>, Seq<char>),
> {
    seq![
        ("Accept"@, "application/json"@),
        ("Content-Type"@, "application/json"@),
        ("X-Chef-Version"@, "12.22.5"@),
        ("X-Ops-Sign"@, "algorithm=sha1;version=1.1;"@),
        ("X-Ops-Timestamp"@, timestamp),
        ("X-Ops-Userid"@, identity),
    ]
}

/// The numbered authorization headers carrying the chunked signature.
pub open spec fn auth_headers_of(sig: Seq<char>) -> Seq<(Seq<char>, Seq<char>)> {
    Seq::new(num_chunks(sig.len()), |i: int| (auth_header_name_of(i), chunk_of(sig, i)))
}

/// The whole signed header set, in order: the six fixed headers, the
/// authorization chunks, then the content hash.
pub open spec fn headers_of(
    identity: Seq<char>,
    timestamp: Seq<char>,
    sig: Seq<char>,
    content_hash: Seq<char>,
) -> Seq<(Seq<char>, Seq<char>)> {
    fixed_headers_of(identity, timestamp) + auth_headers_of(sig) + seq![
        ("X-Ops-Content-Hash"@, content_hash),
    ]
}

/// The name/value views of an executable header list.
pub open spec fn header_views(h: Seq<(String, String)>) -> Seq<(Seq<char>, Seq<char>)> {
    Seq::new(h.len(), |i: int| (h[i].0@, h[i].1@))
}

/// Builds the signed header set for the given timestamp. Succeeds
/// exactly when signing does: the key parses and the canonical string
/// fits its block. The content hash header is computed independently of
/// the signer and must equal the value fed into the canonical string;
/// both are `base64(SHA1(body))` by contract.
pub fn request_headers_at(
    key_pem: &str,
    node_name: &str,
    request_path: &str,
    http_method: &str,
    body: &str,
    timestamp: &str,
) -> (r: Result<Vec<(String, String)>, KnifeError>)
    ensures
        r is Ok <==> is_rsa_private_pem(key_pem.spec_bytes()) && canonical_fits(
            key_pem.spec_bytes(),
            node_name@,
            http_method@,
            request_path@,
            body@,
            timestamp@,
        ),
        r matches Ok(h) ==> header_views(h@) == headers_of(
            node_name@,
            timestamp@,
            signature_of(
                key_pem.spec_bytes(),
                node_name@,
                http_method@,
                request_path@,
                body@,
                timestamp@,
            ),
            b64_sha1(encode_utf8(body@)),
        ),
        r is Ok ==> signature_of(
            key_pem.spec_bytes(),
            node_name@,
            http_method@,
            request_path@,
            body@,
            timestamp@,
        ).len() == 4 * ((rsa_size_of(key_pem.spec_bytes()) + 2) / 3) && rsa_size_of(
            key_pem.spec_bytes(),
        ) >= 11,
        r matches Err(e) ==> (e matches KnifeError::KeyParse || e matches KnifeError::Signing),
        r matches Err(KnifeError::KeyParse) <==> !is_rsa_private_pem(key_pem.spec_bytes()),
        r matches Err(KnifeError::Signing) <==> is_rsa_private_pem(key_pem.spec_bytes())
            && !canonical_fits(
            key_pem.spec_bytes(),
            node_name@,
            http_method@,
            request_path@,
            body@,
            timestamp@,
        ),
{
    let signature = match sign_request(key_pem, node_name, http_method, request_path, body,
        timestamp) {
        Ok(s) => s,
        Err(e) => {
            return Err(e);
        },
    };
    let ops_content_hash = content_hash(body);
    let ghost sigv = signature@;
    let mut h: Vec<(String, String)> = Vec::new();
    h.push((String::from_str("Accept"), String::from_str("application/json")));
    h.push((String::from_str("Content-Type"), String::from_str("application/json")));
    h.push((String::from_str("X-Chef-Version"), String::from_str("12.22.5")));
    h.push((String::from_str("X-Ops-Sign"), String::from_str("algorithm=sha1;version=1.1;")));
    h.push((String::from_str("X-Ops-Timestamp"), String::from_str(timestamp)));
    h.push((String::from_str("X-Ops-Userid"), String::from_str(node_name)));
    proof {
        assert(header_views(h@) =~= fixed_headers_of(node_name@, timestamp@));
    }
    let chunks = chunk_signature(signature.as_str());
    let mut i: usize = 0;
    while i < chunks.len()
        invariant
            chunks@.len() == num_chunks(sigv.len()),
            forall|k: int| 0 <= k < chunks@.len() ==> (#[trigger] chunks@[k])@ == chunk_of(sigv, k),
            i <= chunks@.len(),
            header_views(h@) =~= fixed_headers_of(node_name@, timestamp@) + auth_headers_of(
                sigv,
            ).take(i as int),
        decreases chunks@.len() - i,
    {
        let mut name = String::from_str("X-Ops-Authorization-");
        let num = usize_to_dec(i + 1);
        name.append(num.as_str());
        let value = chunks[i].clone();
        proof {
            assert(name@ == auth_header_name_of(i as int));
            assert(value@ == chunk_of(sigv, i as int));
        }
        let ghost h_prev = h@;
        let ghost rhs_prev = fixed_headers_of(node_name@, timestamp@) + auth_headers_of(
            sigv,
        ).take(i as int);
        h.push((name, value));
        proof {
            let rhs = fixed_headers_of(node_name@, timestamp@) + auth_headers_of(sigv).take(
                i as int + 1,
            );
            assert(h@ == h_prev.push((name, value)));
            assert(header_views(h_prev).len() == h_prev.len());
            assert(h_prev.len() == i + 6);
            assert(h@.len() == i + 7);
            assert(rhs.len() == i + 7);
            assert forall|k: int| 0 <= k < i + 7 implies header_views(h@)[k] == rhs[k] by {
                if k < i + 6 {
                    assert(h@[k] == h_prev[k]);
                    assert(header_views(h_prev)[k] == rhs_prev[k]);
                    assert(rhs[k] == rhs_prev[k]);
                } else {
                    assert(h@[k] == (name, value));
                    assert(rhs[k] == auth_headers_of(sigv)[i as int]);
                }
            }
            assert(header_views(h@) =~= rhs);
        }
        i = i + 1;
    }
    h.push((String::from_str("X-Ops-Content-Hash"), ops_content_hash));
    proof {
        assert(auth_headers_of(sigv).take(num_chunks(sigv.len()) as int) =~= auth_headers_of(
            sigv,
        ));
        assert(header_views(h@) =~= headers_of(
            node_name@,
            timestamp@,
            sigv,
            b64_sha1(encode_utf8(body@)),
        ));
    }
    Ok(h)
}

/// The body a request carries: the text supplied, or empty for none.
pub open spec fn opt_body_view(b: Option<String>) -> Seq<char> {
    match b {
        Some(s) => s@,
        None => Seq::empty(),
    }
}

/// Builds the signed header set for a request, reading a fresh UTC
/// timestamp for this call; timestamps are never cached or reused, or
/// the server rejects the signature at the protocol boundary. The
/// timestamp signed into the canonical string is the one sent in the
/// timestamp header, in the fixed-precision UTC shape. Success turns on
/// the key parsing and the canonical string under the drawn timestamp
/// fitting the key's block.
pub fn request_headers(
    key_pem: &str,
    node_name: &str,
    request_path: &str,
    http_method: &str,
    request_body: Option<String>,
) -> (r: Result<Vec<(String, String)>, KnifeError>)
    ensures
        r matches Ok(h) ==> exists|ts: Seq<char>|
            is_utc_timestamp(ts) && canonical_fits(
                key_pem.spec_bytes(),
                node_name@,
                http_method@,
                request_path@,
                opt_body_view(request_body),
                ts,
            ) && header_views(h@) == headers_of(
                node_name@,
                ts,
                signature_of(
                    key_pem.spec_bytes(),
                    node_name@,
                    http_method@,
                    request_path@,
                    opt_body_view(request_body),
                    ts,
                ),
                b64_sha1(encode_utf8(opt_body_view(request_body))),
            ),
        r matches Err(e) ==> (e matches KnifeError::KeyParse || e matches KnifeError::Signing),
        r matches Err(KnifeError::KeyParse) <==> !is_rsa_private_pem(key_pem.spec_bytes()),
        r matches Err(KnifeError::Signing) ==> is_rsa_private_pem(key_pem.spec_bytes()) && exists|
            ts: Seq<char>,
        |
            is_utc_timestamp(ts) && !canonical_fits(
                key_pem.spec_bytes(),
                node_name@,
                http_method@,
                request_path@,
                opt_body_view(request_body),
                ts,
            ),
{
    let timestamp = crate::crypto::utc_timestamp();
    let body: &str = match &request_body {
        Some(b) => b.as_str(),
        None => "",
    };
    proof {
        reveal_strlit("");
        assert(body@ =~= opt_body_view(request_body));
    }
    match request_headers_at(key_pem, node_name, request_path, http_method, body,
        timestamp.as_str()) {
        Ok(h) => {
            proof {
                assert(is_utc_timestamp(timestamp@) && canonical_fits(
                    key_pem.spec_bytes(),
                    node_name@,
                    http_method@,
                    request_path@,
                    opt_body_view(request_body),
                    timestamp@,
                ) && header_views(h@) == headers_of(
                    node_name@,
                    timestamp@,
                    signature_of(
                        key_pem.spec_bytes(),
                        node_name@,
                        http_method@,
                        request_path@,
                        opt_body_view(request_body),
                        timestamp@,
                    ),
                    b64_sha1(encode_utf8(opt_body_view(request_body))),
                ));
            }
            Ok(h)
        },
        Err(e) => {
            proof {
                assert(e matches KnifeError::Signing ==> is_utc_timestamp(timestamp@)
                    && !canonical_fits(
                    key_pem.spec_bytes(),
                    node_name@,
                    http_method@,
                    request_path@,
                    opt_body_view(request_body),
                    timestamp@,
                ));
            }
            Err(e)
        },
    }
}

} // verus!
