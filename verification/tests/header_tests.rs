//! Header assembly: the chunking law on concrete lengths, and the
//! shape of a freshly timestamped header set.

use knife::headers::{chunk_signature, request_headers};

fn chunks_of(s: &str) -> Vec<String> {
    chunk_signature(s)
}

#[test]
fn chunking_law_uneven() {
    let sig: String = std::iter::repeat('a').take(125).collect();
    let chunks = chunks_of(&sig);
    assert_eq!(chunks.len(), 3);
    assert_eq!(chunks[0].len(), 60);
    assert_eq!(chunks[1].len(), 60);
    assert_eq!(chunks[2].len(), 5);
    assert_eq!(chunks.concat(), sig);
}

#[test]
fn chunking_law_exact_multiple() {
    let sig: String = std::iter::repeat('b').take(120).collect();
    let chunks = chunks_of(&sig);
    assert_eq!(chunks.len(), 2);
    assert_eq!(chunks[1].len(), 60);
    assert_eq!(chunks.concat(), sig);
}

#[test]
fn chunking_law_single_chunk() {
    let chunks = chunks_of("short");
    assert_eq!(chunks.len(), 1);
    assert_eq!(chunks[0], "short");
}

#[test]
fn chunking_law_empty() {
    assert_eq!(chunks_of("").len(), 0);
}

#[test]
fn chunk_indexing_matches_subranges() {
    let sig: String = ('a'..='z').cycle().take(200).collect();
    let chunks = chunks_of(&sig);
    assert_eq!(chunks.len(), 4);
    for (i, chunk) in chunks.iter().enumerate() {
        let lo = i * 60;
        let hi = usize::min(lo + 60, sig.len());
        assert_eq!(chunk.as_str(), &sig[lo..hi]);
    }
}

#[test]
fn fresh_headers_have_the_full_set_in_order() {
    let rsa = openssl::rsa::Rsa::generate(2048).unwrap();
    let pem = String::from_utf8(rsa.private_key_to_pem().unwrap()).unwrap();
    let headers =
        request_headers(&pem, "bob", "/organizations/org1/nodes", "GET", None).unwrap();

    let names: Vec<&str> = headers.iter().map(|(n, _)| n.as_str()).collect();
    assert_eq!(names[0], "Accept");
    assert_eq!(names[1], "Content-Type");
    assert_eq!(names[2], "X-Chef-Version");
    assert_eq!(names[3], "X-Ops-Sign");
    assert_eq!(names[4], "X-Ops-Timestamp");
    assert_eq!(names[5], "X-Ops-Userid");
    assert_eq!(names[names.len() - 1], "X-Ops-Content-Hash");
    // A 2048-bit key gives a 256-byte ciphertext: 344 base64 characters,
    // six chunks, numbered from 1 with no gaps.
    for (k, name) in names[6..names.len() - 1].iter().enumerate() {
        assert_eq!(*name, format!("X-Ops-Authorization-{}", k + 1));
    }
    assert_eq!(names.len(), 6 + 6 + 1);
    // The timestamp is fresh and in the fixed-precision UTC format.
    let ts = &headers[4].1;
    assert_eq!(ts.len(), 20);
    assert!(ts.ends_with('Z'));
    assert_eq!(ts.as_bytes()[10], b'T');
}
