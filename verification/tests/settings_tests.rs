use kin::sodium::MASTER_KEY_SIZE;
use kin::templating::build_readme_model;
use kin::DirAction;
use kin::Error;
use kin::KinProject;
use kin::KinRecipient;
use kin::KinSettings;
use kin::MasterKey;

fn sample_settings() -> KinSettings {
    KinSettings::new(
        &String::from("carol"),
        vec![
            KinRecipient { name: String::from("alice"), passphrase: String::from("pass a") },
            KinRecipient { name: String::from("bob"), passphrase: String::from("pass b") },
            KinRecipient { name: String::from("dave"), passphrase: String::from("pass d") },
        ],
    )
}

#[test]
fn get_recipient_finds_unique_name() {
    kin::init().unwrap();
    let settings = sample_settings();
    let rec = settings.get_recipient(&String::from("bob")).unwrap();
    assert_eq!(rec.name, "bob");
    assert_eq!(rec.passphrase, "pass b");
}

#[test]
fn get_recipient_unknown_name_fails() {
    kin::init().unwrap();
    let settings = sample_settings();
    let result = settings.get_recipient(&String::from("mallory"));
    assert_eq!(result.unwrap_err(), Error::RecipientNotFound);
}

#[test]
fn get_recipient_duplicate_name_fails() {
    kin::init().unwrap();
    let settings = KinSettings::new(
        &String::from("carol"),
        vec![
            KinRecipient { name: String::from("alice"), passphrase: String::from("one") },
            KinRecipient { name: String::from("alice"), passphrase: String::from("two") },
        ],
    );
    let result = settings.get_recipient(&String::from("alice"));
    assert_eq!(result.unwrap_err(), Error::RecipientAmbiguous);
}

#[test]
fn get_peers_excludes_recipient_in_order() {
    kin::init().unwrap();
    let settings = sample_settings();
    let peers = settings.get_peers(&String::from("bob")).unwrap();
    assert_eq!(peers.len(), 2);
    assert_eq!(peers[0].name, "alice");
    assert_eq!(peers[1].name, "dave");
}

#[test]
fn get_peers_may_be_empty() {
    kin::init().unwrap();
    let settings = KinSettings::new(
        &String::from("carol"),
        vec![KinRecipient { name: String::from("alice"), passphrase: String::from("one") }],
    );
    let peers = settings.get_peers(&String::from("alice")).unwrap();
    assert_eq!(peers.len(), 0);
}

#[test]
fn new_settings_master_key_decodes() {
    kin::init().unwrap();
    let settings = sample_settings();
    let key = settings.master_key().unwrap();
    assert_eq!(key.encode_base64(), *settings.master_key_base64());
}

#[test]
fn settings_from_parts_keeps_master_key() {
    kin::init().unwrap();
    let key = MasterKey::new();
    let settings = KinSettings::from_parts(String::from("carol"), key.encode_base64(), Vec::new());
    let decoded = settings.master_key().unwrap();
    assert_eq!(decoded.encode_base64(), key.encode_base64());
}

#[test]
fn settings_from_parts_rejects_short_master_key() {
    kin::init().unwrap();
    let short = base64::encode(&[1u8; MASTER_KEY_SIZE - 1]);
    let settings = KinSettings::from_parts(String::from("carol"), short, Vec::new());
    assert_eq!(settings.master_key().unwrap_err(), Error::InvalidKeyLength);
}

#[test]
fn readme_model_holds_recipient_and_peers() {
    kin::init().unwrap();
    let settings = sample_settings();
    let model = build_readme_model(&settings, &String::from("bob")).unwrap();
    assert_eq!(model.owner, "carol");
    assert_eq!(model.recipient, "bob");
    assert_eq!(model.passphrase, "pass b");
    assert_eq!(model.peers.len(), 2);
    assert_eq!(model.peers[0].name, "alice");
    assert_eq!(model.peers[1].name, "dave");
}

#[test]
fn readme_model_unknown_recipient_fails() {
    kin::init().unwrap();
    let settings = sample_settings();
    let result = build_readme_model(&settings, &String::from("mallory"));
    assert_eq!(result.unwrap_err(), Error::RecipientNotFound);
}

#[test]
fn project_paths() {
    let project = KinProject::from(&String::from("/home/carol/backup"));
    assert_eq!(project.public_dir(), "/home/carol/backup/public");
    assert_eq!(project.private_dir(), "/home/carol/backup/private");
    assert_eq!(project.config_dir(), "/home/carol/backup/.kin");
    assert_eq!(project.config_file(), "/home/carol/backup/.kin/config.json");
    assert_eq!(project.temp_file(), "/home/carol/backup/.kin/temp");
}

#[test]
fn empty_dir_action_cases() {
    // Absent: create. Existing empty directory: use. Anything else: refused.
    assert_eq!(kin::empty_dir_action(false, false, false), Ok(DirAction::Create));
    assert_eq!(kin::empty_dir_action(true, true, true), Ok(DirAction::UseExisting));
    assert_eq!(kin::empty_dir_action(true, true, false), Err(Error::DestinationNotEmpty));
    assert_eq!(kin::empty_dir_action(true, false, false), Err(Error::DestinationNotEmpty));
    assert_eq!(kin::empty_dir_action(true, false, true), Err(Error::DestinationNotEmpty));
}

#[test]
fn error_messages_are_single_lines() {
    let cases = [
        (Error::NoMatchingKey, "unable to decrypt master key"),
        (Error::WrongPassphrase, "unable to decrypt with that passphrase"),
        (Error::DestinationNotEmpty, "the destination is not an empty directory"),
        (Error::Truncated, "the encrypted stream ended before its final chunk"),
    ];
    for (error, expected) in cases {
        let message = error.message();
        assert_eq!(message, expected);
        assert!(!message.contains('\n'));
    }
}
