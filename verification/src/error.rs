use vstd::prelude::*;

verus! {

/// Every failure the library can report. Validation errors come from
/// checking untrusted input lengths and encodings; crypto errors come
/// from the primitives; `WrongPassphrase` is expected during trial
/// decryption and `NoMatchingKey` is its aggregate outcome.
#[derive(Clone, Copy, Debug, PartialEq, Eq, Structural)]
pub enum Error {
    /// A decoded master key was not exactly `MASTER_KEY_SIZE` bytes.
    InvalidKeyLength,
    /// A decoded salt was not exactly `SALT_SIZE` bytes.
    InvalidSaltLength,
    /// A decoded nonce was not exactly `NONCE_SIZE` bytes.
    InvalidNonceLength,
    /// A decoded wrapped key was not exactly `MASTER_KEY_SIZE + MAC_SIZE` bytes.
    InvalidWrappedLength,
    /// A directory entry that the archive builder does not handle.
    UnsupportedEntry,
    /// No recipient with the requested name exists.
    RecipientNotFound,
    /// More than one recipient with the requested name exists.
    RecipientAmbiguous,
    /// The destination is not an empty directory (or not a directory at all).
    DestinationNotEmpty,
    /// The destination file already exists.
    DestinationExists,
    /// The password hash reported resource exhaustion.
    KdfExhaustion,
    /// An AEAD primitive reported failure while encrypting.
    WrapFailed,
    /// Authenticated decryption of a wrapped key failed.
    WrongPassphrase,
    /// No wrapped key in the package decrypted under the given passphrase.
    NoMatchingKey,
    /// The ciphertext stream is shorter than a header, or its header was rejected.
    CorruptHeader,
    /// The ciphertext stream ended before a final-tagged chunk.
    Truncated,
    /// A ciphertext chunk is too short to carry its authenticator.
    Corrupt,
    /// A ciphertext chunk failed authentication.
    AuthFailure,
    /// A persisted configuration file violates its schema.
    ConfigCorrupt,
    /// A base64 string could not be decoded.
    Base64Invalid,
    /// The archive writer reported failure.
    ArchiveFailed,
    /// The crypto provider could not be initialized.
    InitFailed,
}

impl Error {
    /// A single-line diagnostic for the binary boundary.
    pub fn message(&self) -> (r: String)
        ensures
            r@.len() > 0,
    {
        let m = match self {
            Error::InvalidKeyLength => "key data is an invalid length",
            Error::InvalidSaltLength => "salt data is an invalid length",
            Error::InvalidNonceLength => "nonce data is an invalid length",
            Error::InvalidWrappedLength => "wrapped key data is an invalid length",
            Error::UnsupportedEntry => "unsupported directory entry",
            Error::RecipientNotFound => "no recipient found with that name",
            Error::RecipientAmbiguous => "more than one recipient found with that name",
            Error::DestinationNotEmpty => "the destination is not an empty directory",
            Error::DestinationExists => "the destination file already exists",
            Error::KdfExhaustion => "ran out of resources during key derivation",
            Error::WrapFailed => "error while encrypting",
            Error::WrongPassphrase => "unable to decrypt with that passphrase",
            Error::NoMatchingKey => "unable to decrypt master key",
            Error::CorruptHeader => "the encrypted stream has no valid header",
            Error::Truncated => "the encrypted stream ended before its final chunk",
            Error::Corrupt => "the encrypted stream holds a malformed chunk",
            Error::AuthFailure => "the encrypted stream failed authentication",
            Error::ConfigCorrupt => "unable to parse the configuration file",
            Error::Base64Invalid => "invalid base64 data",
            Error::ArchiveFailed => "error while writing the archive",
            Error::InitFailed => "error initializing libsodium",
        };
        proof {
            reveal_strlit("key data is an invalid length");
            reveal_strlit("salt data is an invalid length");
            reveal_strlit("nonce data is an invalid length");
            reveal_strlit("wrapped key data is an invalid length");
            reveal_strlit("unsupported directory entry");
            reveal_strlit("no recipient found with that name");
            reveal_strlit("more than one recipient found with that name");
            reveal_strlit("the destination is not an empty directory");
            reveal_strlit("the destination file already exists");
            reveal_strlit("ran out of resources during key derivation");
            reveal_strlit("error while encrypting");
            reveal_strlit("unable to decrypt with that passphrase");
            reveal_strlit("unable to decrypt master key");
            reveal_strlit("the encrypted stream has no valid header");
            reveal_strlit("the encrypted stream ended before its final chunk");
            reveal_strlit("the encrypted stream holds a malformed chunk");
            reveal_strlit("the encrypted stream failed authentication");
            reveal_strlit("unable to parse the configuration file");
            reveal_strlit("invalid base64 data");
            reveal_strlit("error while writing the archive");
            reveal_strlit("error initializing libsodium");
        }
        String::from_str(m)
    }
}

} // verus!
