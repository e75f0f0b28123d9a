//! The symmetric master key and its passphrase-wrapped form.

use vstd::prelude::*;

use crate::bytes::copy_bytes;
use crate::encoding::{b64_decode, b64_decode_of, b64_encode, b64_of};
use crate::error::Error;
use crate::passphrase::{PassphraseDerivedKey, PassphraseSalt};
use crate::sodium::{
    kdf_of, random_bytes, secretbox_open, secretbox_open_of, secretbox_seal, secretbox_seal_of,
    stream_keygen, ENCRYPTED_MASTER_KEY_SIZE, KDF_MEMLIMIT_SENSITIVE, KDF_OPSLIMIT_SENSITIVE,
    MASTER_KEY_SIZE, NONCE_SIZE, SALT_SIZE,
};

verus! {

/// The opaque 32-byte symmetric key that protects the private archive.
/// Created by the stream keygen or by base64 decode; never persisted
/// except base64-encoded in the owner's settings or inside a wrapped form.
#[derive(Debug)]
pub struct MasterKey {
    data: Vec<u8>,
}

impl View for MasterKey {
    type V = Seq<u8>;

    closed spec fn view(&self) -> Seq<u8> {
        self.data@
    }
}

/// What decoding a persisted master key yields: the bytes when the
/// string is valid base64 of exactly `MASTER_KEY_SIZE` bytes, otherwise
/// the error `decode_base64` reports.
pub open spec fn master_key_decode_spec(s: Seq<char>) -> Result<Seq<u8>, Error> {
    match b64_decode_of(s) {
        Option::None => Result::Err(Error::Base64Invalid),
        Option::Some(d) => if d.len() != MASTER_KEY_SIZE {
            Result::Err(Error::InvalidKeyLength)
        } else {
            Result::Ok(d)
        },
    }
}

impl MasterKey {
    /// The key holds exactly `MASTER_KEY_SIZE` bytes.
    pub open spec fn wf(&self) -> bool {
        self@.len() == MASTER_KEY_SIZE
    }

    /// A fresh random master key.
    pub fn new() -> (r: MasterKey)
        ensures
            r.wf(),
    {
        MasterKey { data: stream_keygen() }
    }

    /// Decode a persisted master key, rejecting bad base64 and any raw
    /// length other than `MASTER_KEY_SIZE`.
    pub fn decode_base64(base64_contents: &String) -> (r: Result<MasterKey, Error>)
        ensures
            match r {
                Ok(k) => k.wf() && master_key_decode_spec(base64_contents@) == Result::<Seq<u8>, Error>::Ok(k@),
                Err(e) => master_key_decode_spec(base64_contents@) == Result::<Seq<u8>, Error>::Err(e),
            },
    {
        let decoded = match b64_decode(base64_contents.as_str()) {
            Ok(d) => d,
            Err(_) => {
                return Err(Error::Base64Invalid);
            },
        };
        if decoded.len() != MASTER_KEY_SIZE {
            return Err(Error::InvalidKeyLength);
        }
        Ok(MasterKey { data: decoded })
    }

    /// The key, base64-encoded for the owner's settings file.
    pub fn encode_base64(&self) -> (r: String)
        ensures
            r@ == b64_of(self@),
            b64_decode_of(r@) == Some(self@),
    {
        b64_encode(&self.data)
    }

    /// Wrap the key for one peer: derive a wrapping key from the
    /// passphrase under a fresh salt at the sensitive limits, then seal
    /// the key under a fresh nonce. The result's ciphertext is exactly
    /// the secretbox of this key under the derived wrapping key and the
    /// recorded salt and nonce.
    pub fn encrypt(&self, passphrase: &String) -> (r: Result<EncryptedMasterKey, Error>)
        requires
            self.wf(),
        ensures
            match r {
                Ok(w) => w.wf() && w.data_view() == secretbox_seal_of(
                    self@,
                    w.nonce_view(),
                    kdf_of(
                        passphrase@,
                        w.salt_view(),
                        KDF_OPSLIMIT_SENSITIVE as int,
                        KDF_MEMLIMIT_SENSITIVE as int,
                    ),
                ),
                Err(e) => e == Error::KdfExhaustion,
            },
    {
        let key = match PassphraseDerivedKey::generate(passphrase) {
            Ok(k) => k,
            Err(e) => {
                return Err(e);
            },
        };
        Ok(self.encrypt_with_derived(key))
    }

    /// Seal this key under an already-derived wrapping key, with a
    /// fresh random nonce, recording the wrapping key's salt.
    pub fn encrypt_with_derived(&self, key: PassphraseDerivedKey) -> (w: EncryptedMasterKey)
        requires
            self.wf(),
            key.wf(),
        ensures
            w.wf(),
            w.salt_view() == key.salt_view(),
            w.data_view() == secretbox_seal_of(self@, w.nonce_view(), key.key_view()),
    {
        let nonce = random_bytes(NONCE_SIZE);
        let cipher_text = secretbox_seal(&self.data, &nonce, key.raw());
        EncryptedMasterKey { encrypted_data: cipher_text, salt: key.into_salt(), nonce }
    }

    /// The raw key bytes, for the stream calls.
    pub(crate) fn raw(&self) -> (r: &Vec<u8>)
        ensures
            r@ == self@,
    {
        &self.data
    }
}

/// A wrapped master key: the sealed key together with the KDF salt and
/// the secretbox nonce it was sealed under. All three persist
/// base64-encoded in the package manifest; wrapped keys for different
/// peers are independent, each with its own salt and nonce.
#[derive(Debug)]
pub struct EncryptedMasterKey {
    encrypted_data: Vec<u8>,
    salt: PassphraseSalt,
    nonce: Vec<u8>,
}

/// What parsing a persisted wrapped-key record yields: the decoded
/// (ciphertext, salt, nonce) when all three fields are valid base64 of
/// the right lengths, otherwise the first error met, fields checked in
/// that order.
pub open spec fn wrapped_key_parse_spec(data: Seq<char>, salt: Seq<char>, nonce: Seq<char>) -> Result<
    (Seq<u8>, Seq<u8>, Seq<u8>),
    Error,
> {
    match b64_decode_of(data) {
        Option::None => Result::Err(Error::Base64Invalid),
        Option::Some(d) => if d.len() != ENCRYPTED_MASTER_KEY_SIZE {
            Result::Err(Error::InvalidWrappedLength)
        } else {
            match b64_decode_of(salt) {
                Option::None => Result::Err(Error::Base64Invalid),
                Option::Some(s) => if s.len() != SALT_SIZE {
                    Result::Err(Error::InvalidSaltLength)
                } else {
                    match b64_decode_of(nonce) {
                        Option::None => Result::Err(Error::Base64Invalid),
                        Option::Some(n) => if n.len() != NONCE_SIZE {
                            Result::Err(Error::InvalidNonceLength)
                        } else {
                            Result::Ok((d, s, n))
                        },
                    }
                },
            }
        },
    }
}

impl EncryptedMasterKey {
    /// The sealed key bytes.
    pub closed spec fn data_view(&self) -> Seq<u8> {
        self.encrypted_data@
    }

    /// The KDF salt bytes.
    pub closed spec fn salt_view(&self) -> Seq<u8> {
        self.salt@
    }

    /// The secretbox nonce bytes.
    pub closed spec fn nonce_view(&self) -> Seq<u8> {
        self.nonce@
    }

    /// Ciphertext, salt and nonce all have their fixed sizes.
    pub open spec fn wf(&self) -> bool {
        &&& self.data_view().len() == ENCRYPTED_MASTER_KEY_SIZE
        &&& self.salt_view().len() == SALT_SIZE
        &&& self.nonce_view().len() == NONCE_SIZE
    }

    /// Parse a persisted wrapped-key record, checking each field's
    /// base64 and length.
    pub fn new(encrypted_data: &String, salt: &String, nonce: &String) -> (r: Result<
        EncryptedMasterKey,
        Error,
    >)
        ensures
            match r {
                Ok(w) => w.wf() && wrapped_key_parse_spec(encrypted_data@, salt@, nonce@)
                    == Result::<(Seq<u8>, Seq<u8>, Seq<u8>), Error>::Ok(
                    (w.data_view(), w.salt_view(), w.nonce_view()),
                ),
                Err(e) => wrapped_key_parse_spec(encrypted_data@, salt@, nonce@)
                    == Result::<(Seq<u8>, Seq<u8>, Seq<u8>), Error>::Err(e),
            },
    {
        let data = match b64_decode(encrypted_data.as_str()) {
            Ok(d) => d,
            Err(_) => {
                return Err(Error::Base64Invalid);
            },
        };
        if data.len() != ENCRYPTED_MASTER_KEY_SIZE {
            return Err(Error::InvalidWrappedLength);
        }
        let salt = match PassphraseSalt::from(salt) {
            Ok(s) => s,
            Err(e) => {
                return Err(e);
            },
        };
        let nonce = match b64_decode(nonce.as_str()) {
            Ok(n) => n,
            Err(_) => {
                return Err(Error::Base64Invalid);
            },
        };
        if nonce.len() != NONCE_SIZE {
            return Err(Error::InvalidNonceLength);
        }
        Ok(EncryptedMasterKey { encrypted_data: data, salt, nonce })
    }

    /// The KDF salt, base64-encoded for the manifest.
    pub fn passphrase_salt(&self) -> (r: String)
        ensures
            r@ == b64_of(self.salt_view()),
            b64_decode_of(r@) == Some(self.salt_view()),
    {
        self.salt.encode_base64()
    }

    /// The sealed key, base64-encoded for the manifest.
    pub fn data(&self) -> (r: String)
        ensures
            r@ == b64_of(self.data_view()),
            b64_decode_of(r@) == Some(self.data_view()),
    {
        b64_encode(&self.encrypted_data)
    }

    /// The nonce, base64-encoded for the manifest.
    pub fn nonce(&self) -> (r: String)
        ensures
            r@ == b64_of(self.nonce_view()),
            b64_decode_of(r@) == Some(self.nonce_view()),
    {
        b64_encode(&self.nonce)
    }

    /// Try to unwrap under a passphrase candidate: re-derive the
    /// wrapping key from the recorded salt and open the seal.
    /// `WrongPassphrase` means exactly that the ciphertext does not
    /// authenticate under the derived key — the expected outcome of a
    /// trial with the wrong passphrase, carrying no other oracle.
    pub fn decrypt(&self, passphrase: &String) -> (r: Result<MasterKey, Error>)
        requires
            self.wf(),
        ensures
            match r {
                Ok(mk) => mk.wf() && secretbox_open_of(
                    self.data_view(),
                    self.nonce_view(),
                    kdf_of(
                        passphrase@,
                        self.salt_view(),
                        KDF_OPSLIMIT_SENSITIVE as int,
                        KDF_MEMLIMIT_SENSITIVE as int,
                    ),
                ) == Some(mk@),
                Err(e) => {
                    ||| (e == Error::WrongPassphrase && secretbox_open_of(
                        self.data_view(),
                        self.nonce_view(),
                        kdf_of(
                            passphrase@,
                            self.salt_view(),
                            KDF_OPSLIMIT_SENSITIVE as int,
                            KDF_MEMLIMIT_SENSITIVE as int,
                        ),
                    ) is None)
                    ||| e == Error::KdfExhaustion
                },
            },
    {
        let key = match PassphraseDerivedKey::from(passphrase, &self.salt) {
            Ok(k) => k,
            Err(e) => {
                return Err(e);
            },
        };
        self.decrypt_with_derived(&key)
    }

    /// Open the seal with an already-derived wrapping key. Succeeds
    /// exactly when the ciphertext authenticates under that key and
    /// this record's nonce.
    pub fn decrypt_with_derived(&self, key: &PassphraseDerivedKey) -> (r: Result<MasterKey, Error>)
        requires
            self.wf(),
            key.wf(),
        ensures
            match r {
                Ok(mk) => mk.wf() && secretbox_open_of(
                    self.data_view(),
                    self.nonce_view(),
                    key.key_view(),
                ) == Some(mk@),
                Err(e) => e == Error::WrongPassphrase && secretbox_open_of(
                    self.data_view(),
                    self.nonce_view(),
                    key.key_view(),
                ) is None,
            },
    {
        match secretbox_open(&self.encrypted_data, &self.nonce, key.raw()) {
            Ok(plain) => Ok(MasterKey { data: plain }),
            Err(_) => Err(Error::WrongPassphrase),
        }
    }

    /// An exact copy of this wrapped key.
    pub fn duplicate(&self) -> (r: EncryptedMasterKey)
        ensures
            r.data_view() == self.data_view(),
            r.salt_view() == self.salt_view(),
            r.nonce_view() == self.nonce_view(),
    {
        EncryptedMasterKey {
            encrypted_data: copy_bytes(&self.encrypted_data),
            salt: self.salt.duplicate(),
            nonce: copy_bytes(&self.nonce),
        }
    }
}

} // verus!
