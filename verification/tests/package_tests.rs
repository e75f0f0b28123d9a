use kin::sodium::{ENCRYPTED_MASTER_KEY_SIZE, NONCE_SIZE, SALT_SIZE};
use kin::BackupPackage;
use kin::EncryptedKey;
use kin::EncryptedMasterKey;
use kin::Error;
use kin::PackageSettings;

#[test]
fn package_paths() {
    let package = BackupPackage::from(&String::from("/backups/alice"));
    assert_eq!(package.config_dir_path(), "/backups/alice/.kin");
    assert_eq!(package.config_file_path(), "/backups/alice/.kin/config.json");
    assert_eq!(package.public_archive_path(), "/backups/alice/public.zip");
    assert_eq!(package.private_archive_path(), "/backups/alice/private.kin");
    assert_eq!(package.decrypt_exe_path(), "/backups/alice/decrypt");
    assert_eq!(package.readme_path(), "/backups/alice/readme.html");
}

#[test]
fn manifest_records_mirror_wrapped_keys() {
    kin::init().unwrap();
    let data = base64::encode(&[1u8; ENCRYPTED_MASTER_KEY_SIZE]);
    let salt = base64::encode(&[2u8; SALT_SIZE]);
    let nonce = base64::encode(&[3u8; NONCE_SIZE]);
    let wrapped = EncryptedMasterKey::new(&data, &salt, &nonce).unwrap();
    let settings = PackageSettings::from_keys(&vec![wrapped]);
    assert_eq!(settings.encrypted_keys.len(), 1);
    assert_eq!(settings.encrypted_keys[0].data, data);
    assert_eq!(settings.encrypted_keys[0].passphrase_salt, salt);
    assert_eq!(settings.encrypted_keys[0].nonce, nonce);
}

#[test]
fn trial_decrypt_empty_manifest_is_no_matching_key() {
    kin::init().unwrap();
    let settings = PackageSettings { encrypted_keys: Vec::new() };
    let result = settings.decrypt_master_key(&String::from("anything"));
    assert_eq!(result.unwrap_err(), Error::NoMatchingKey);
}

#[test]
fn trial_decrypt_surfaces_malformed_record() {
    kin::init().unwrap();
    let record = EncryptedKey {
        data: String::from("not base64 at all!"),
        passphrase_salt: base64::encode(&[2u8; SALT_SIZE]),
        nonce: base64::encode(&[3u8; NONCE_SIZE]),
    };
    let settings = PackageSettings { encrypted_keys: vec![record] };
    let result = settings.decrypt_master_key(&String::from("anything"));
    assert_eq!(result.unwrap_err(), Error::Base64Invalid);
}

// `decrypt_master_key` re-derives at the sensitive KDF limits, which
// take many seconds per record on purpose; its record walk is therefore
// exercised here on the paths that need no derivation, and the unwrap
// it performs per record is covered by the key tests at interactive
// limits.
