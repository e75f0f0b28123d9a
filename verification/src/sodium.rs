//! Trusted boundary to the libsodium primitives (through `sodiumoxide`).
//!
//! Every function here is an `external_body` wrapper around exactly one
//! outside call; the rest of the crate is verified against the contracts
//! stated here. Results that are functions of the arguments alone (the
//! password hash, the single-shot secretbox) are given uninterpreted
//! names so that callers can carry exact equations; results that depend
//! on randomness or on hidden stream state are described only by what
//! holds of every outcome (their lengths).
//!
//! All of these wrappers assume that `init` has been called once at
//! process startup, as libsodium requires.

use sodiumoxide::crypto::pwhash::argon2id13;
use sodiumoxide::crypto::secretbox;
use sodiumoxide::crypto::secretstream;
use vstd::prelude::*;

verus! {

/// Size of the symmetric master key (`crypto_secretstream_xchacha20poly1305_KEYBYTES`).
pub const MASTER_KEY_SIZE: usize = 32;

/// Size of a key-derivation salt (`crypto_pwhash_SALTBYTES`).
pub const SALT_SIZE: usize = 16;

/// Size of a single-shot secretbox nonce (`crypto_secretbox_NONCEBYTES`).
pub const NONCE_SIZE: usize = 24;

/// Authenticator overhead of the single-shot secretbox (`crypto_secretbox_MACBYTES`).
pub const MAC_SIZE: usize = 16;

/// Size of a wrapping key derived from a passphrase (`crypto_secretbox_KEYBYTES`).
pub const WRAP_KEY_SIZE: usize = 32;

/// Size of a wrapped master key: the key itself plus the authenticator.
pub const ENCRYPTED_MASTER_KEY_SIZE: usize = MASTER_KEY_SIZE + MAC_SIZE;

/// Size of the stream header (`crypto_secretstream_xchacha20poly1305_HEADERBYTES`).
pub const STREAM_HEADER_SIZE: usize = 24;

/// Per-chunk authenticator-and-tag overhead of the stream
/// (`crypto_secretstream_xchacha20poly1305_ABYTES`).
pub const TAG_OVERHEAD: usize = 17;

/// Passes of the password hash at libsodium's sensitive setting
/// (`crypto_pwhash_OPSLIMIT_SENSITIVE`), the setting the key wrap uses.
pub const KDF_OPSLIMIT_SENSITIVE: usize = 4;

/// Memory of the password hash at libsodium's sensitive setting
/// (`crypto_pwhash_MEMLIMIT_SENSITIVE`).
pub const KDF_MEMLIMIT_SENSITIVE: usize = 1073741824;

/// Passes of the password hash at libsodium's interactive setting
/// (`crypto_pwhash_OPSLIMIT_INTERACTIVE`).
pub const KDF_OPSLIMIT_INTERACTIVE: usize = 2;

/// Memory of the password hash at libsodium's interactive setting
/// (`crypto_pwhash_MEMLIMIT_INTERACTIVE`).
pub const KDF_MEMLIMIT_INTERACTIVE: usize = 67108864;

/// Plaintext bytes carried by every non-final stream chunk.
pub const PLAINTEXT_CHUNK: usize = 16384;

/// Ciphertext bytes of a full stream chunk.
pub const CIPHERTEXT_CHUNK: usize = PLAINTEXT_CHUNK + TAG_OVERHEAD;

/// Relies on sodiumoxide::init (sodium_init): one-time process-wide
/// initialization of the crypto provider; idempotent.
#[verifier::external_body]
pub fn init() -> (r: Result<(), crate::error::Error>) {
    match sodiumoxide::init() {
        Ok(()) => Ok(()),
        Err(()) => Err(crate::error::Error::InitFailed),
    }
}

/// Relies on sodiumoxide::randombytes::randombytes: returns exactly the
/// requested number of cryptographically strong random bytes.
#[verifier::external_body]
pub(crate) fn random_bytes(n: usize) -> (r: Vec<u8>)
    ensures
        r@.len() == n,
{
    sodiumoxide::randombytes::randombytes(n)
}

/// Relies on sodiumoxide::randombytes::randombytes: four random bytes,
/// read here as a little-endian integer.
#[verifier::external_body]
pub(crate) fn random_u32() -> (r: u32) {
    let b = sodiumoxide::randombytes::randombytes(4);
    u32::from_le_bytes([b[0], b[1], b[2], b[3]])
}

/// Relies on sodiumoxide::crypto::secretstream::gen_key
/// (crypto_secretstream_xchacha20poly1305_keygen): a fresh random stream key.
#[verifier::external_body]
pub(crate) fn stream_keygen() -> (r: Vec<u8>)
    ensures
        r@.len() == MASTER_KEY_SIZE,
{
    sodiumoxide::crypto::secretstream::gen_key().0.to_vec()
}

/// The 32-byte wrapping key that crypto_pwhash (argon2id) derives from
/// a passphrase and a salt at the given operational and memory limits.
/// Deterministic: the primitive is a pure function of these inputs.
pub uninterp spec fn kdf_of(pass: Seq<char>, salt: Seq<u8>, ops: int, mem: int) -> Seq<u8>;

/// Relies on sodiumoxide::crypto::pwhash::argon2id13::derive_key
/// (crypto_pwhash with the argon2id13 algorithm): fills the whole 32-byte
/// output buffer on success, deterministically in (passphrase bytes,
/// salt, limits); reports failure only on resource exhaustion or limits
/// the primitive rejects.
#[verifier::external_body]
pub(crate) fn kdf_derive(pass: &str, salt: &Vec<u8>, ops: usize, mem: usize) -> (r: Result<
    Vec<u8>,
    (),
>)
    requires
        salt@.len() == SALT_SIZE,
    ensures
        r matches Ok(k) ==> k@ == kdf_of(pass@, salt@, ops as int, mem as int) && k@.len()
            == WRAP_KEY_SIZE,
{
    let mut key = [0u8; 32];
    let salt = argon2id13::Salt::from_slice(salt.as_slice()).unwrap();
    match argon2id13::derive_key(
        &mut key,
        pass.as_bytes(),
        &salt,
        argon2id13::OpsLimit(ops),
        argon2id13::MemLimit(mem),
    ) {
        Ok(_) => Ok(key.to_vec()),
        Err(()) => Err(()),
    }
}

/// The ciphertext that the single-shot secretbox
/// (crypto_secretbox_easy, XSalsa20-Poly1305) produces for a message
/// under a nonce and key. Deterministic in its three inputs.
pub uninterp spec fn secretbox_seal_of(m: Seq<u8>, nonce: Seq<u8>, key: Seq<u8>) -> Seq<u8>;

/// Relies on sodiumoxide::crypto::secretbox::seal (crypto_secretbox_easy):
/// always succeeds, producing the message's length plus the authenticator.
#[verifier::external_body]
pub(crate) fn secretbox_seal(m: &Vec<u8>, nonce: &Vec<u8>, key: &Vec<u8>) -> (r: Vec<u8>)
    requires
        nonce@.len() == NONCE_SIZE,
        key@.len() == WRAP_KEY_SIZE,
        m@.len() + MAC_SIZE <= usize::MAX,
    ensures
        r@ == secretbox_seal_of(m@, nonce@, key@),
        r@.len() == m@.len() + MAC_SIZE,
{
    let nonce = secretbox::Nonce::from_slice(nonce.as_slice()).unwrap();
    let key = secretbox::Key::from_slice(key.as_slice()).unwrap();
    secretbox::seal(m.as_slice(), &nonce, &key)
}

/// The outcome of authenticated secretbox decryption
/// (crypto_secretbox_open_easy): `Some` plaintext when the ciphertext
/// authenticates under the nonce and key, `None` otherwise.
/// Deterministic in its three inputs.
pub uninterp spec fn secretbox_open_of(c: Seq<u8>, nonce: Seq<u8>, key: Seq<u8>) -> Option<Seq<u8>>;

/// Relies on sodiumoxide::crypto::secretbox::open
/// (crypto_secretbox_open_easy): on success the plaintext is the
/// ciphertext minus the authenticator; failure means the ciphertext does
/// not authenticate under this nonce and key.
#[verifier::external_body]
pub(crate) fn secretbox_open(c: &Vec<u8>, nonce: &Vec<u8>, key: &Vec<u8>) -> (r: Result<Vec<u8>, ()>)
    requires
        nonce@.len() == NONCE_SIZE,
        key@.len() == WRAP_KEY_SIZE,
    ensures
        match r {
            Ok(m) => secretbox_open_of(c@, nonce@, key@) == Some(m@) && m@.len() + MAC_SIZE == c@.len(),
            Err(()) => secretbox_open_of(c@, nonce@, key@) is None,
        },
{
    let nonce = secretbox::Nonce::from_slice(nonce.as_slice()).unwrap();
    let key = secretbox::Key::from_slice(key.as_slice()).unwrap();
    match secretbox::open(c.as_slice(), &nonce, &key) {
        Ok(m) => Ok(m),
        Err(()) => Err(()),
    }
}

/// The evolving state of a push (encrypting) stream. Opaque: Verus sees
/// nothing inside; the contracts of `stream_init_push` and `stream_push`
/// say everything the rest of the crate relies on.
#[verifier::external_body]
pub struct PushState {
    inner: sodiumoxide::crypto::secretstream::Stream<sodiumoxide::crypto::secretstream::Push>,
}

/// The evolving state of a pull (decrypting) stream. Opaque, as `PushState` is.
#[verifier::external_body]
pub struct PullState {
    inner: sodiumoxide::crypto::secretstream::Stream<sodiumoxide::crypto::secretstream::Pull>,
}

/// Relies on Stream::init_push
/// (crypto_secretstream_xchacha20poly1305_init_push): on success, a fresh
/// push stream and its header of exactly `STREAM_HEADER_SIZE` bytes. The
/// header embeds a random nonce, so nothing more can be said of its value.
#[verifier::external_body]
pub(crate) fn stream_init_push(key: &Vec<u8>) -> (r: Result<(PushState, Vec<u8>), ()>)
    requires
        key@.len() == MASTER_KEY_SIZE,
    ensures
        r matches Ok(p) ==> p.1@.len() == STREAM_HEADER_SIZE,
{
    let key = secretstream::Key::from_slice(key.as_slice()).unwrap();
    match secretstream::Stream::init_push(&key) {
        Ok((stream, header)) => Ok((PushState { inner: stream }, header.0.to_vec())),
        Err(()) => Err(()),
    }
}

/// Relies on Stream::push (crypto_secretstream_xchacha20poly1305_push):
/// seals one chunk under the evolving stream state, with the final tag
/// when asked; the ciphertext is the chunk plus `TAG_OVERHEAD` bytes.
/// The sealed bytes depend on the stream's hidden state, so only their
/// length is stated.
#[verifier::external_body]
pub(crate) fn stream_push(stream: &mut PushState, chunk: &[u8], is_final: bool) -> (r: Result<
    Vec<u8>,
    (),
>)
    requires
        chunk@.len() <= PLAINTEXT_CHUNK,
    ensures
        r matches Ok(c) ==> c@.len() == chunk@.len() + TAG_OVERHEAD,
{
    let tag = if is_final { secretstream::Tag::Final } else { secretstream::Tag::Message };
    stream.inner.push(chunk, None, tag)
}

/// What a pull stream is: the key and header it was initialized with,
/// and the chunks it has successfully pulled so far, in order. The
/// wrappers below state how every call moves this model; a value of
/// `PullState` only ever arises through them, so the model is always
/// accurate.
pub uninterp spec fn pull_state_model(s: PullState) -> (Seq<u8>, Seq<u8>, Seq<Seq<u8>>);

/// Whether Stream::init_pull accepts a header under a key.
/// Deterministic: the check is a pure computation on the two inputs.
pub uninterp spec fn header_accepts(header: Seq<u8>, key: Seq<u8>) -> bool;

/// The outcome of pulling one chunk on the stream reached from `key`
/// and `header` by successfully pulling exactly the chunks `taken`:
/// `Some((plaintext, is_final))` when the chunk authenticates at that
/// position, `None` otherwise. Deterministic: the stream cipher
/// evolves its state as a pure function of these inputs.
pub uninterp spec fn pull_of(
    key: Seq<u8>,
    header: Seq<u8>,
    taken: Seq<Seq<u8>>,
    chunk: Seq<u8>,
) -> Option<(Seq<u8>, bool)>;

/// Relies on Stream::init_pull
/// (crypto_secretstream_xchacha20poly1305_init_pull): accepts or
/// rejects the given stream header under the key, deterministically in
/// the two.
#[verifier::external_body]
pub(crate) fn stream_init_pull(header: &[u8], key: &Vec<u8>) -> (r: Result<PullState, ()>)
    requires
        header@.len() == STREAM_HEADER_SIZE,
        key@.len() == MASTER_KEY_SIZE,
    ensures
        match r {
            Ok(s) => header_accepts(header@, key@) && pull_state_model(s) == (
                key@,
                header@,
                Seq::<Seq<u8>>::empty(),
            ),
            Err(()) => !header_accepts(header@, key@),
        },
{
    let key = secretstream::Key::from_slice(key.as_slice()).unwrap();
    let header = secretstream::Header::from_slice(header).unwrap();
    match secretstream::Stream::init_pull(&header, &key) {
        Ok(stream) => Ok(PullState { inner: stream }),
        Err(()) => Err(()),
    }
}

/// Relies on Stream::pull (crypto_secretstream_xchacha20poly1305_pull):
/// opens one chunk; on success, the plaintext is the chunk minus
/// `TAG_OVERHEAD` bytes, the flag reports whether the chunk carried the
/// final tag, and the stream — advanced by this chunk — is handed back.
/// Failure means the chunk does not authenticate at this position of
/// the stream (or the stream was already finalized); the state is
/// consumed either way, so a failed pull cannot be retried — failure is
/// terminal, as the stream construction demands.
#[verifier::external_body]
pub(crate) fn stream_pull(stream: PullState, chunk: &[u8]) -> (r: Result<
    (Vec<u8>, bool, PullState),
    (),
>)
    ensures
        match r {
            Ok(p) => {
                &&& pull_of(
                    pull_state_model(stream).0,
                    pull_state_model(stream).1,
                    pull_state_model(stream).2,
                    chunk@,
                ) == Some((p.0@, p.1))
                &&& pull_state_model(p.2) == (
                    pull_state_model(stream).0,
                    pull_state_model(stream).1,
                    pull_state_model(stream).2.push(chunk@),
                )
                &&& p.0@.len() + TAG_OVERHEAD == chunk@.len()
            },
            Err(()) => pull_of(
                pull_state_model(stream).0,
                pull_state_model(stream).1,
                pull_state_model(stream).2,
                chunk@,
            ) is None,
        },
{
    let mut stream = stream;
    match stream.inner.pull(chunk, None) {
        Ok((m, secretstream::Tag::Final)) => Ok((m, true, stream)),
        Ok((m, _)) => Ok((m, false, stream)),
        Err(()) => Err(()),
    }
}

} // verus!
