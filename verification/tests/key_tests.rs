use kin::sodium::{ENCRYPTED_MASTER_KEY_SIZE, MASTER_KEY_SIZE, NONCE_SIZE, SALT_SIZE};
use kin::EncryptedMasterKey;
use kin::Error;
use kin::MasterKey;
use kin::PassphraseDerivedKey;
use kin::PassphraseSalt;
use kin::sodium::{KDF_MEMLIMIT_INTERACTIVE, KDF_OPSLIMIT_INTERACTIVE};

#[test]
fn master_key_base64_round_trip() {
    kin::init().unwrap();
    let key = MasterKey::new();
    let encoded = key.encode_base64();
    let decoded = MasterKey::decode_base64(&encoded).unwrap();
    assert_eq!(decoded.encode_base64(), encoded);
}

#[test]
fn master_key_decode_rejects_wrong_raw_lengths() {
    kin::init().unwrap();
    // Base64 of 31, 33 and 0 raw bytes: valid base64, wrong key length.
    let thirty_one = base64::encode(&[7u8; 31]);
    let thirty_three = base64::encode(&[7u8; 33]);
    let empty = base64::encode(&[0u8; 0]);
    assert_eq!(MasterKey::decode_base64(&thirty_one).unwrap_err(), Error::InvalidKeyLength);
    assert_eq!(MasterKey::decode_base64(&thirty_three).unwrap_err(), Error::InvalidKeyLength);
    assert_eq!(MasterKey::decode_base64(&empty).unwrap_err(), Error::InvalidKeyLength);
    // Exactly 32 raw bytes decodes.
    let thirty_two = base64::encode(&[7u8; MASTER_KEY_SIZE]);
    assert!(MasterKey::decode_base64(&thirty_two).is_ok());
}

#[test]
fn master_key_decode_rejects_bad_base64() {
    kin::init().unwrap();
    let not_base64 = String::from("this is *not* base64!");
    assert_eq!(MasterKey::decode_base64(&not_base64).unwrap_err(), Error::Base64Invalid);
}

#[test]
fn wrapped_key_record_validation() {
    kin::init().unwrap();
    let good_data = base64::encode(&[1u8; ENCRYPTED_MASTER_KEY_SIZE]);
    let good_salt = base64::encode(&[2u8; SALT_SIZE]);
    let good_nonce = base64::encode(&[3u8; NONCE_SIZE]);
    let bad_b64 = String::from("***");
    let short_data = base64::encode(&[1u8; ENCRYPTED_MASTER_KEY_SIZE - 1]);
    let short_salt = base64::encode(&[2u8; SALT_SIZE - 1]);
    let long_nonce = base64::encode(&[3u8; NONCE_SIZE + 1]);

    assert!(EncryptedMasterKey::new(&good_data, &good_salt, &good_nonce).is_ok());
    assert_eq!(
        EncryptedMasterKey::new(&bad_b64, &good_salt, &good_nonce).unwrap_err(),
        Error::Base64Invalid
    );
    assert_eq!(
        EncryptedMasterKey::new(&short_data, &good_salt, &good_nonce).unwrap_err(),
        Error::InvalidWrappedLength
    );
    assert_eq!(
        EncryptedMasterKey::new(&good_data, &short_salt, &good_nonce).unwrap_err(),
        Error::InvalidSaltLength
    );
    assert_eq!(
        EncryptedMasterKey::new(&good_data, &bad_b64, &good_nonce).unwrap_err(),
        Error::Base64Invalid
    );
    assert_eq!(
        EncryptedMasterKey::new(&good_data, &good_salt, &long_nonce).unwrap_err(),
        Error::InvalidNonceLength
    );
}

#[test]
fn wrapped_key_getters_round_trip() {
    kin::init().unwrap();
    let data = base64::encode(&[1u8; ENCRYPTED_MASTER_KEY_SIZE]);
    let salt = base64::encode(&[2u8; SALT_SIZE]);
    let nonce = base64::encode(&[3u8; NONCE_SIZE]);
    let wrapped = EncryptedMasterKey::new(&data, &salt, &nonce).unwrap();
    assert_eq!(wrapped.data(), data);
    assert_eq!(wrapped.passphrase_salt(), salt);
    assert_eq!(wrapped.nonce(), nonce);
}

// The key wrap fixes libsodium's sensitive KDF limits, which take many
// seconds per derivation on purpose; these tests exercise the same
// derive-seal-open layers through the explicit-limits functions at the
// interactive limits, where a derivation is fast.
fn derive(passphrase: &str, salt: &PassphraseSalt) -> PassphraseDerivedKey {
    PassphraseDerivedKey::from_with_limits(
        &String::from(passphrase),
        salt,
        KDF_OPSLIMIT_INTERACTIVE,
        KDF_MEMLIMIT_INTERACTIVE,
    )
    .unwrap()
}

#[test]
fn key_wrap_round_trip() {
    kin::init().unwrap();
    // For a 32-byte key and a non-empty passphrase, unwrapping the
    // wrapped key under the same passphrase returns the key.
    let key = MasterKey::new();
    let salt = PassphraseSalt::generate();
    let wrapped = key.encrypt_with_derived(derive("correct horse battery staple", &salt));
    // Re-derive from the salt the record stores, as a recipient would.
    let stored_salt = PassphraseSalt::from(&wrapped.passphrase_salt()).unwrap();
    let rederived = derive("correct horse battery staple", &stored_salt);
    let unwrapped = wrapped.decrypt_with_derived(&rederived).unwrap();
    assert_eq!(unwrapped.encode_base64(), key.encode_base64());
}

#[test]
fn key_wrap_wrong_passphrase_detected() {
    kin::init().unwrap();
    let key = MasterKey::new();
    let salt = PassphraseSalt::generate();
    let wrapped = key.encrypt_with_derived(derive("correct horse battery staple", &salt));
    let other = derive("correct horse battery stable", &salt);
    assert_eq!(wrapped.decrypt_with_derived(&other).unwrap_err(), Error::WrongPassphrase);
}

#[test]
fn key_wrap_freshness() {
    kin::init().unwrap();
    // Wrapping salts are fresh per wrap, and so is the nonce of every
    // seal: two seals under the very same wrapping key still differ.
    let salt_a = PassphraseSalt::generate();
    let salt_b = PassphraseSalt::generate();
    assert_ne!(salt_a.encode_base64(), salt_b.encode_base64());
    let key = MasterKey::new();
    let derived = derive("one passphrase", &salt_a);
    let first = key.encrypt_with_derived(derive("one passphrase", &salt_a));
    let second = key.encrypt_with_derived(derived);
    assert_ne!(first.nonce(), second.nonce());
    assert_ne!(first.data(), second.data());
}

#[test]
fn key_tampered_wrap_fails() {
    kin::init().unwrap();
    let key = MasterKey::new();
    let salt = PassphraseSalt::generate();
    let wrapped = key.encrypt_with_derived(derive("some words", &salt));
    // Flip one byte of the sealed key and rebuild the record.
    let mut sealed = base64::decode(&wrapped.data()).unwrap();
    sealed[5] ^= 0x01;
    let tampered = EncryptedMasterKey::new(
        &base64::encode(&sealed),
        &wrapped.passphrase_salt(),
        &wrapped.nonce(),
    )
    .unwrap();
    let derived = derive("some words", &salt);
    assert_eq!(tampered.decrypt_with_derived(&derived).unwrap_err(), Error::WrongPassphrase);
}

#[test]
fn salt_generation_is_fresh() {
    kin::init().unwrap();
    let first = PassphraseSalt::generate();
    let second = PassphraseSalt::generate();
    assert_ne!(first.encode_base64(), second.encode_base64());
}

