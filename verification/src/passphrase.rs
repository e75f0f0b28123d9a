//! Passphrase-based key derivation: salts and derived wrapping keys.

use vstd::prelude::*;

use crate::bytes::copy_bytes;
use crate::encoding::{b64_decode, b64_decode_of, b64_encode, b64_of};
use crate::error::Error;
use crate::sodium::{
    kdf_derive, kdf_of, random_bytes, random_u32, KDF_MEMLIMIT_SENSITIVE, KDF_OPSLIMIT_SENSITIVE,
    SALT_SIZE, WRAP_KEY_SIZE,
};

verus! {

/// A `SALT_SIZE`-byte salt for the passphrase KDF. Freshly random for
/// every wrap; persisted base64-encoded beside the wrapped key.
#[derive(Debug)]
pub struct PassphraseSalt {
    data: Vec<u8>,
}

impl View for PassphraseSalt {
    type V = Seq<u8>;

    closed spec fn view(&self) -> Seq<u8> {
        self.data@
    }
}

impl PassphraseSalt {
    /// The salt holds exactly `SALT_SIZE` bytes.
    pub open spec fn wf(&self) -> bool {
        self@.len() == SALT_SIZE
    }

    /// A fresh random salt.
    pub fn generate() -> (r: PassphraseSalt)
        ensures
            r.wf(),
    {
        PassphraseSalt { data: random_bytes(SALT_SIZE) }
    }

    /// Decode a persisted salt, rejecting bad base64 and wrong lengths.
    pub fn from(base64: &String) -> (r: Result<PassphraseSalt, Error>)
        ensures
            match r {
                Ok(s) => s.wf() && b64_decode_of(base64@) == Some(s@),
                Err(e) => {
                    ||| (e == Error::Base64Invalid && b64_decode_of(base64@) is None)
                    ||| (b64_decode_of(base64@) matches Some(d) && d.len() != SALT_SIZE
                        && e == Error::InvalidSaltLength)
                },
            },
    {
        let data = match b64_decode(base64.as_str()) {
            Ok(d) => d,
            Err(_) => {
                return Err(Error::Base64Invalid);
            },
        };
        if data.len() != SALT_SIZE {
            return Err(Error::InvalidSaltLength);
        }
        Ok(PassphraseSalt { data })
    }

    /// The salt, base64-encoded for persistence.
    pub fn encode_base64(&self) -> (r: String)
        ensures
            r@ == b64_of(self@),
            b64_decode_of(r@) == Some(self@),
    {
        b64_encode(&self.data)
    }

    /// An exact copy of this salt.
    pub fn duplicate(&self) -> (r: PassphraseSalt)
        ensures
            r@ == self@,
    {
        PassphraseSalt { data: copy_bytes(&self.data) }
    }

    /// The raw salt bytes, for the KDF call.
    pub(crate) fn raw(&self) -> (r: &Vec<u8>)
        ensures
            r@ == self@,
    {
        &self.data
    }
}

/// A `WRAP_KEY_SIZE`-byte wrapping key derived from a passphrase and a
/// salt by the memory-hard KDF, together with that salt.
pub struct PassphraseDerivedKey {
    data: Vec<u8>,
    /// The salt the key was derived with.
    pub salt: PassphraseSalt,
}

impl PassphraseDerivedKey {
    /// The bytes of the derived key.
    pub closed spec fn key_view(&self) -> Seq<u8> {
        self.data@
    }

    /// The bytes of the salt the key was derived with.
    pub closed spec fn salt_view(&self) -> Seq<u8> {
        self.salt@
    }

    /// The key holds exactly `WRAP_KEY_SIZE` bytes and its salt `SALT_SIZE`.
    pub open spec fn wf(&self) -> bool {
        self.key_view().len() == WRAP_KEY_SIZE && self.salt_view().len() == SALT_SIZE
    }

    /// Give up the key and keep only its salt.
    pub fn into_salt(self) -> (r: PassphraseSalt)
        ensures
            r@ == self.salt_view(),
    {
        self.salt
    }

    /// Derive a key from a passphrase under a fresh random salt, at the
    /// sensitive limits the key wrap uses.
    pub fn generate(passphrase: &String) -> (r: Result<PassphraseDerivedKey, Error>)
        ensures
            match r {
                Ok(k) => k.wf() && k.key_view() == kdf_of(
                    passphrase@,
                    k.salt_view(),
                    KDF_OPSLIMIT_SENSITIVE as int,
                    KDF_MEMLIMIT_SENSITIVE as int,
                ),
                Err(e) => e == Error::KdfExhaustion,
            },
    {
        let salt = PassphraseSalt::generate();
        PassphraseDerivedKey::from(passphrase, &salt)
    }

    /// Derive a key from a passphrase and a given salt, at the
    /// sensitive limits the key wrap uses. Deterministic: the same
    /// passphrase and salt always yield the same key.
    pub fn from(passphrase: &String, salt: &PassphraseSalt) -> (r: Result<
        PassphraseDerivedKey,
        Error,
    >)
        requires
            salt.wf(),
        ensures
            match r {
                Ok(k) => k.wf() && k.salt_view() == salt@ && k.key_view() == kdf_of(
                    passphrase@,
                    salt@,
                    KDF_OPSLIMIT_SENSITIVE as int,
                    KDF_MEMLIMIT_SENSITIVE as int,
                ),
                Err(e) => e == Error::KdfExhaustion,
            },
    {
        PassphraseDerivedKey::from_with_limits(
            passphrase,
            salt,
            KDF_OPSLIMIT_SENSITIVE,
            KDF_MEMLIMIT_SENSITIVE,
        )
    }

    /// Derive a key from a passphrase and a given salt at explicit
    /// operational and memory limits. The wrap path fixes the sensitive
    /// limits; a deployment that tunes the hash differently chooses its
    /// own here.
    pub fn from_with_limits(
        passphrase: &String,
        salt: &PassphraseSalt,
        opslimit: usize,
        memlimit: usize,
    ) -> (r: Result<PassphraseDerivedKey, Error>)
        requires
            salt.wf(),
        ensures
            match r {
                Ok(k) => k.wf() && k.salt_view() == salt@ && k.key_view() == kdf_of(
                    passphrase@,
                    salt@,
                    opslimit as int,
                    memlimit as int,
                ),
                Err(e) => e == Error::KdfExhaustion,
            },
    {
        match kdf_derive(passphrase.as_str(), salt.raw(), opslimit, memlimit) {
            Ok(data) => Ok(PassphraseDerivedKey { data, salt: salt.duplicate() }),
            Err(_) => Err(Error::KdfExhaustion),
        }
    }

    /// The raw key bytes, for the AEAD calls.
    pub(crate) fn raw(&self) -> (r: &Vec<u8>)
        ensures
            r@ == self.key_view(),
    {
        &self.data
    }
}

/// How many words make up a generated passphrase.
pub const PASSPHRASE_WORDS: usize = 10;

/// The characters of the words at the given indices, joined by single
/// spaces.
pub open spec fn joined_words(words: Seq<&str>, idxs: Seq<int>) -> Seq<char>
    decreases idxs.len(),
{
    if idxs.len() == 0 {
        Seq::empty()
    } else if idxs.len() == 1 {
        words[idxs[0]]@
    } else {
        joined_words(words, idxs.drop_last()) + " "@ + words[idxs.last()]@
    }
}

/// A random passphrase of `PASSPHRASE_WORDS` words drawn from the given
/// word list (with repetition), space-separated: some sequence of
/// in-range indices into the list produced exactly this string.
pub fn random_passphrase_from(word_list: Vec<&str>) -> (r: String)
    requires
        word_list@.len() > 0,
    ensures
        exists|idxs: Seq<int>|
            idxs.len() == PASSPHRASE_WORDS && (forall|j: int|
                0 <= j < idxs.len() ==> 0 <= #[trigger] idxs[j] < word_list@.len()) && r@
                == joined_words(word_list@, idxs),
{
    let mut s = String::new();
    let ghost mut idxs: Seq<int> = Seq::empty();
    let mut k: usize = 0;
    while k < PASSPHRASE_WORDS
        invariant
            word_list@.len() > 0,
            k <= PASSPHRASE_WORDS,
            idxs.len() == k,
            forall|j: int| 0 <= j < idxs.len() ==> 0 <= #[trigger] idxs[j] < word_list@.len(),
            s@ == joined_words(word_list@, idxs),
        decreases PASSPHRASE_WORDS - k,
    {
        let rnd = random_u32();
        let i = (rnd as usize) % word_list.len();
        if k > 0 {
            s.append(" ");
        }
        s.append(word_list[i]);
        proof {
            let prev = idxs;
            idxs = idxs.push(i as int);
            assert(idxs.drop_last() =~= prev);
            assert(idxs.last() == i as int);
            if prev.len() == 0 {
                assert(s@ =~= joined_words(word_list@, idxs));
            } else if prev.len() == 1 {
                assert(s@ =~= joined_words(word_list@, idxs));
            } else {
                assert(s@ =~= joined_words(word_list@, idxs));
            }
        }
        k = k + 1;
    }
    s
}

} // verus!
