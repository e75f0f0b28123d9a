//! The backup package: its on-disk layout and its manifest of wrapped
//! keys, with the recipient-blind trial decryption over them.

use vstd::prelude::*;

use crate::encoding::{b64_decode_of, b64_of};
use crate::error::Error;
use crate::kinsettings::KinRecipient;
use crate::masterkey::{wrapped_key_parse_spec, EncryptedMasterKey, MasterKey};
use crate::sodium::{
    kdf_of, secretbox_open_of, secretbox_seal_of, KDF_MEMLIMIT_SENSITIVE, KDF_OPSLIMIT_SENSITIVE,
};

verus! {

/// One persisted wrapped-key record of the package manifest: the sealed
/// master key, the KDF salt and the nonce, each base64-encoded. No
/// recipient name is stored — the package is deliberately recipient-blind.
pub struct EncryptedKey {
    /// Base64 of the sealed master key.
    pub data: String,
    /// Base64 of the KDF salt.
    pub passphrase_salt: String,
    /// Base64 of the secretbox nonce.
    pub nonce: String,
}

/// What trial decryption of a record list under a passphrase yields,
/// walking the records in order: the first record that parses and opens
/// decides; a record that fails to parse surfaces its parse error; when
/// every record parses but none opens, `NoMatchingKey`.
pub open spec fn trial_decrypt_spec(records: Seq<EncryptedKey>, pass: Seq<char>) -> Result<
    Seq<u8>,
    Error,
>
    decreases records.len(),
{
    if records.len() == 0 {
        Result::Err(Error::NoMatchingKey)
    } else {
        match wrapped_key_parse_spec(
            records[0].data@,
            records[0].passphrase_salt@,
            records[0].nonce@,
        ) {
            Result::Err(e) => Result::Err(e),
            Result::Ok(t) => match secretbox_open_of(
                t.0,
                t.2,
                kdf_of(pass, t.1, KDF_OPSLIMIT_SENSITIVE as int, KDF_MEMLIMIT_SENSITIVE as int),
            ) {
                Option::Some(m) => Result::Ok(m),
                Option::None => trial_decrypt_spec(records.drop_first(), pass),
            },
        }
    }
}

/// The package manifest: the set of wrapped-key records, persisted as
/// `.kin/config.json` inside the package.
pub struct PackageSettings {
    /// The wrapped-key records, one per peer.
    pub encrypted_keys: Vec<EncryptedKey>,
}

impl PackageSettings {
    /// Build the manifest records for a list of wrapped keys: each
    /// record holds the base64 of that key's ciphertext, salt and
    /// nonce, decodable back to exactly those bytes.
    pub fn from_keys(keys: &Vec<EncryptedMasterKey>) -> (r: PackageSettings)
        ensures
            r.encrypted_keys@.len() == keys@.len(),
            forall|i: int|
                0 <= i < keys@.len() ==> {
                    &&& (#[trigger] r.encrypted_keys@[i]).data@ == b64_of(keys@[i].data_view())
                    &&& r.encrypted_keys@[i].passphrase_salt@ == b64_of(keys@[i].salt_view())
                    &&& r.encrypted_keys@[i].nonce@ == b64_of(keys@[i].nonce_view())
                    &&& b64_decode_of(r.encrypted_keys@[i].data@) == Some(keys@[i].data_view())
                    &&& b64_decode_of(r.encrypted_keys@[i].passphrase_salt@) == Some(
                        keys@[i].salt_view(),
                    )
                    &&& b64_decode_of(r.encrypted_keys@[i].nonce@) == Some(keys@[i].nonce_view())
                },
    {
        let mut records: Vec<EncryptedKey> = Vec::new();
        let mut i: usize = 0;
        while i < keys.len()
            invariant
                i <= keys@.len(),
                records@.len() == i,
                forall|j: int|
                    0 <= j < i ==> {
                        &&& (#[trigger] records@[j]).data@ == b64_of(keys@[j].data_view())
                        &&& records@[j].passphrase_salt@ == b64_of(keys@[j].salt_view())
                        &&& records@[j].nonce@ == b64_of(keys@[j].nonce_view())
                        &&& b64_decode_of(records@[j].data@) == Some(keys@[j].data_view())
                        &&& b64_decode_of(records@[j].passphrase_salt@) == Some(
                            keys@[j].salt_view(),
                        )
                        &&& b64_decode_of(records@[j].nonce@) == Some(keys@[j].nonce_view())
                    },
            decreases keys@.len() - i,
        {
            let k = &keys[i];
            records.push(
                EncryptedKey {
                    data: k.data(),
                    passphrase_salt: k.passphrase_salt(),
                    nonce: k.nonce(),
                },
            );
            i = i + 1;
        }
        PackageSettings { encrypted_keys: records }
    }

    /// Trial-decrypt the master key under a passphrase: parse each
    /// record in order and try to unwrap it, swallowing only the
    /// expected authentication failure and moving on; the first record
    /// that opens yields the key. The outcome equals
    /// `trial_decrypt_spec` of the records — except that the KDF may
    /// report exhaustion at any record, which aborts the walk.
    pub fn decrypt_master_key(&self, passphrase: &String) -> (r: Result<MasterKey, Error>)
        ensures
            match r {
                Ok(mk) => mk.wf() && trial_decrypt_spec(self.encrypted_keys@, passphrase@)
                    == Result::<Seq<u8>, Error>::Ok(mk@),
                Err(e) => e == Error::KdfExhaustion || trial_decrypt_spec(
                    self.encrypted_keys@,
                    passphrase@,
                ) == Result::<Seq<u8>, Error>::Err(e),
            },
            self.encrypted_keys@.len() == 0 ==> r == Err::<MasterKey, Error>(Error::NoMatchingKey),
    {
        let n = self.encrypted_keys.len();
        proof {
            assert(self.encrypted_keys@.skip(0) =~= self.encrypted_keys@);
        }
        let mut i: usize = 0;
        while i < n
            invariant
                i <= n,
                n == self.encrypted_keys@.len(),
                trial_decrypt_spec(self.encrypted_keys@, passphrase@) == trial_decrypt_spec(
                    self.encrypted_keys@.skip(i as int),
                    passphrase@,
                ),
            decreases n - i,
        {
            proof {
                assert(self.encrypted_keys@.skip(i as int)[0] == self.encrypted_keys@[i as int]);
                assert(self.encrypted_keys@.skip(i as int).drop_first() =~= self.encrypted_keys@
                    .skip(i as int + 1));
            }
            let record = &self.encrypted_keys[i];
            let wrapped = match EncryptedMasterKey::new(
                &record.data,
                &record.passphrase_salt,
                &record.nonce,
            ) {
                Ok(w) => w,
                Err(e) => {
                    return Err(e);
                },
            };
            match wrapped.decrypt(passphrase) {
                Ok(key) => {
                    return Ok(key);
                },
                Err(Error::WrongPassphrase) => {
                    // Expected; try the next record.
                },
                Err(e) => {
                    return Err(e);
                },
            }
            i = i + 1;
        }
        proof {
            assert(self.encrypted_keys@.skip(n as int) =~= Seq::<EncryptedKey>::empty());
        }
        Err(Error::NoMatchingKey)
    }
}

/// Manifest persistence inverts exactly: a record that `from_keys`
/// built for a well-formed wrapped key parses back to precisely that
/// key's ciphertext, salt and nonce — so the trial walk over a manifest
/// of such records is decided by the authenticated decryptions alone,
/// never by a parse failure.
pub proof fn lemma_manifest_record_parses_back(record: EncryptedKey, key: EncryptedMasterKey)
    requires
        key.wf(),
        b64_decode_of(record.data@) == Some(key.data_view()),
        b64_decode_of(record.passphrase_salt@) == Some(key.salt_view()),
        b64_decode_of(record.nonce@) == Some(key.nonce_view()),
    ensures
        wrapped_key_parse_spec(record.data@, record.passphrase_salt@, record.nonce@)
            == Result::<(Seq<u8>, Seq<u8>, Seq<u8>), Error>::Ok(
            (key.data_view(), key.salt_view(), key.nonce_view()),
        ),
{
}

/// Wrap the master key once per peer, in peer order: each wrapped key
/// seals the master key under a key derived from that peer's passphrase
/// with its own fresh salt and nonce.
pub fn wrap_keys_for_peers(master_key: &MasterKey, peers: &Vec<KinRecipient>) -> (r: Result<
    Vec<EncryptedMasterKey>,
    Error,
>)
    requires
        master_key.wf(),
    ensures
        match r {
            Ok(v) => {
                &&& v@.len() == peers@.len()
                &&& forall|i: int|
                    0 <= i < v@.len() ==> {
                        &&& (#[trigger] v@[i]).wf()
                        &&& v@[i].data_view() == secretbox_seal_of(
                            master_key@,
                            v@[i].nonce_view(),
                            kdf_of(
                                peers@[i].passphrase@,
                                v@[i].salt_view(),
                                KDF_OPSLIMIT_SENSITIVE as int,
                                KDF_MEMLIMIT_SENSITIVE as int,
                            ),
                        )
                    }
            },
            Err(e) => e == Error::KdfExhaustion,
        },
{
    let mut wrapped: Vec<EncryptedMasterKey> = Vec::new();
    let mut i: usize = 0;
    while i < peers.len()
        invariant
            master_key.wf(),
            i <= peers@.len(),
            wrapped@.len() == i,
            forall|j: int|
                0 <= j < i ==> {
                    &&& (#[trigger] wrapped@[j]).wf()
                    &&& wrapped@[j].data_view() == secretbox_seal_of(
                        master_key@,
                        wrapped@[j].nonce_view(),
                        kdf_of(
                            peers@[j].passphrase@,
                            wrapped@[j].salt_view(),
                            KDF_OPSLIMIT_SENSITIVE as int,
                            KDF_MEMLIMIT_SENSITIVE as int,
                        ),
                    )
                },
        decreases peers@.len() - i,
    {
        match master_key.encrypt(&peers[i].passphrase) {
            Ok(w) => wrapped.push(w),
            Err(e) => {
                return Err(e);
            },
        }
        i = i + 1;
    }
    Ok(wrapped)
}

/// A backup package rooted at a destination directory. The path
/// helpers name the fixed layout that compile produces and decrypt
/// reads; all file traffic stays with the caller.
pub struct BackupPackage {
    path: String,
}

impl BackupPackage {
    /// The package's root directory.
    pub closed spec fn path_view(&self) -> Seq<char> {
        self.path@
    }

    /// A package rooted at the given directory.
    pub fn from(path: &String) -> (r: BackupPackage)
        ensures
            r.path_view() == path@,
    {
        BackupPackage { path: path.clone() }
    }

    /// The package's configuration directory.
    pub fn config_dir_path(&self) -> (r: String)
        ensures
            r@ == self.path_view() + "/.kin"@,
    {
        self.path.clone().concat("/.kin")
    }

    /// The manifest file inside the configuration directory.
    pub fn config_file_path(&self) -> (r: String)
        ensures
            r@ == self.path_view() + "/.kin"@ + "/config.json"@,
    {
        self.config_dir_path().concat("/config.json")
    }

    /// The plain ZIP of the project's public files.
    pub fn public_archive_path(&self) -> (r: String)
        ensures
            r@ == self.path_view() + "/public.zip"@,
    {
        self.path.clone().concat("/public.zip")
    }

    /// The encrypted stream of the project's private archive.
    pub fn private_archive_path(&self) -> (r: String)
        ensures
            r@ == self.path_view() + "/private.kin"@,
    {
        self.path.clone().concat("/private.kin")
    }

    /// The stand-alone decrypt executable placed in the package. This
    /// is the executable's POSIX name; a platform that decorates
    /// executable names appends its suffix at the boundary that copies
    /// the file.
    pub fn decrypt_exe_path(&self) -> (r: String)
        ensures
            r@ == self.path_view() + "/decrypt"@,
    {
        self.path.clone().concat("/decrypt")
    }

    /// The rendered instruction page.
    pub fn readme_path(&self) -> (r: String)
        ensures
            r@ == self.path_view() + "/readme.html"@,
    {
        self.path.clone().concat("/readme.html")
    }
}

} // verus!
