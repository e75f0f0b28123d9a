use kin::sodium::{CIPHERTEXT_CHUNK, PLAINTEXT_CHUNK, STREAM_HEADER_SIZE, TAG_OVERHEAD};
use kin::streams::{decrypt, encrypt};
use kin::Error;
use kin::MasterKey;

fn expected_stream_len(n: usize) -> usize {
    STREAM_HEADER_SIZE + (n / PLAINTEXT_CHUNK) * CIPHERTEXT_CHUNK + (n % PLAINTEXT_CHUNK)
        + TAG_OVERHEAD
}

fn pseudo_random_bytes(n: usize) -> Vec<u8> {
    let mut state: u64 = 0x243f6a8885a308d3;
    let mut out = Vec::with_capacity(n);
    for _ in 0..n {
        state = state.wrapping_mul(6364136223846793005).wrapping_add(1442695040888963407);
        out.push((state >> 33) as u8);
    }
    out
}

fn round_trip(n: usize) {
    let key = MasterKey::new();
    let plain = pseudo_random_bytes(n);
    let sealed = encrypt(&key, &plain).unwrap();
    assert_eq!(sealed.len(), expected_stream_len(n));
    let opened = decrypt(&key, &sealed).unwrap();
    assert_eq!(opened, plain);
}

#[test]
fn stream_round_trip_small_sizes() {
    kin::init().unwrap();
    round_trip(0);
    round_trip(1);
    round_trip(PLAINTEXT_CHUNK - 1);
    round_trip(PLAINTEXT_CHUNK);
    round_trip(PLAINTEXT_CHUNK + 1);
}

#[test]
fn stream_round_trip_multiple_chunks() {
    kin::init().unwrap();
    round_trip(3 * PLAINTEXT_CHUNK);
    round_trip(3 * PLAINTEXT_CHUNK + 123);
}

#[test]
fn stream_round_trip_large_file() {
    kin::init().unwrap();
    // A 10 MiB pseudo-random payload comes back byte for byte.
    round_trip(10 * 1024 * 1024);
}

#[test]
fn stream_empty_input_is_header_and_final_chunk() {
    kin::init().unwrap();
    let key = MasterKey::new();
    let sealed = encrypt(&key, &Vec::new()).unwrap();
    assert_eq!(sealed.len(), STREAM_HEADER_SIZE + TAG_OVERHEAD);
}

#[test]
fn stream_tamper_in_body_fails_auth() {
    kin::init().unwrap();
    let key = MasterKey::new();
    let plain = pseudo_random_bytes(3 * PLAINTEXT_CHUNK);
    let mut sealed = encrypt(&key, &plain).unwrap();
    let offset = STREAM_HEADER_SIZE + 100;
    sealed[offset] ^= 0x01;
    assert_eq!(decrypt(&key, &sealed), Err(Error::AuthFailure));
}

#[test]
fn stream_tamper_every_region_detected() {
    kin::init().unwrap();
    let key = MasterKey::new();
    let plain = pseudo_random_bytes(PLAINTEXT_CHUNK + 7);
    let sealed = encrypt(&key, &plain).unwrap();
    // One flipped bit in each region of the stream: inside the header,
    // in each chunk's ciphertext, and in the final byte.
    let offsets = [
        0,
        STREAM_HEADER_SIZE - 1,
        STREAM_HEADER_SIZE,
        STREAM_HEADER_SIZE + CIPHERTEXT_CHUNK - 1,
        STREAM_HEADER_SIZE + CIPHERTEXT_CHUNK,
        sealed.len() - 1,
    ];
    for &offset in offsets.iter() {
        for bit in [0x01u8, 0x80u8] {
            let mut tampered = sealed.clone();
            tampered[offset] ^= bit;
            let result = decrypt(&key, &tampered);
            assert!(
                result == Err(Error::AuthFailure) || result == Err(Error::CorruptHeader),
                "tamper at {} not detected",
                offset
            );
        }
    }
}

#[test]
fn stream_truncation_at_chunk_boundary_detected() {
    kin::init().unwrap();
    let key = MasterKey::new();
    let plain = pseudo_random_bytes(2 * PLAINTEXT_CHUNK + 5);
    let mut sealed = encrypt(&key, &plain).unwrap();
    // Drop the final chunk, leaving exactly one full chunk after the header.
    sealed.truncate(STREAM_HEADER_SIZE + CIPHERTEXT_CHUNK);
    let result = decrypt(&key, &sealed);
    assert!(result == Err(Error::Truncated) || result == Err(Error::AuthFailure));
}

#[test]
fn stream_truncation_below_final_chunk_detected() {
    kin::init().unwrap();
    let key = MasterKey::new();
    let plain = pseudo_random_bytes(PLAINTEXT_CHUNK + 50);
    let sealed = encrypt(&key, &plain).unwrap();
    // Truncating anywhere below the final chunk must fail: at the bare
    // header, mid-chunk, at the boundary, and inside the final chunk.
    let cuts = [
        STREAM_HEADER_SIZE,
        STREAM_HEADER_SIZE + 1,
        STREAM_HEADER_SIZE + TAG_OVERHEAD - 1,
        STREAM_HEADER_SIZE + CIPHERTEXT_CHUNK / 2,
        STREAM_HEADER_SIZE + CIPHERTEXT_CHUNK,
        STREAM_HEADER_SIZE + CIPHERTEXT_CHUNK + TAG_OVERHEAD - 1,
        sealed.len() - 1,
    ];
    for &cut in cuts.iter() {
        let mut shorter = sealed.clone();
        shorter.truncate(cut);
        let result = decrypt(&key, &shorter);
        assert!(
            result == Err(Error::Truncated) || result == Err(Error::AuthFailure)
                || result == Err(Error::Corrupt),
            "truncation to {} not detected",
            cut
        );
    }
}

#[test]
fn stream_too_short_for_header_is_corrupt_header() {
    kin::init().unwrap();
    let key = MasterKey::new();
    assert_eq!(decrypt(&key, &Vec::new()), Err(Error::CorruptHeader));
    let short = vec![0u8; STREAM_HEADER_SIZE - 1];
    assert_eq!(decrypt(&key, &short), Err(Error::CorruptHeader));
}

#[test]
fn stream_wrong_key_fails() {
    kin::init().unwrap();
    let key = MasterKey::new();
    let other = MasterKey::new();
    let sealed = encrypt(&key, &vec![42u8; 100]).unwrap();
    assert_eq!(decrypt(&other, &sealed), Err(Error::AuthFailure));
}
