use kin::passphrase::random_passphrase_from;

#[test]
fn mod_random_passphrase_single_word() {
    kin::init().unwrap();
    let words = vec!["foo"];
    let passphrase = random_passphrase_from(words);
    assert_eq!(passphrase, "foo foo foo foo foo foo foo foo foo foo");
}

#[test]
fn init_random_passphrase_single_word() {
    kin::init().unwrap();
    let words = vec!["foo"];
    let passphrase = random_passphrase_from(words);
    assert_eq!(passphrase, "foo foo foo foo foo foo foo foo foo foo");
}

#[test]
fn random_passphrase_draws_from_word_list() {
    kin::init().unwrap();
    let words = vec!["alpha", "beta", "gamma"];
    let passphrase = random_passphrase_from(words.clone());
    let parts: Vec<&str> = passphrase.split(' ').collect();
    assert_eq!(parts.len(), 10);
    for part in parts {
        assert!(words.contains(&part));
    }
}

#[test]
fn mod_word_list() {
    let words = kin::get_words();
    assert_eq!(words[0], "abacus");
    assert_eq!(words[words.len() - 1], "zoom");
    assert!(words.len() >= 7776, "Number of words has decreased. Either use a larger word list or consider increasing the number of words in passphrases to maintain a high entropy.");
}

#[test]
fn init_word_list() {
    let words = kin::get_words();
    assert_eq!(words[0], "abacus");
    assert_eq!(words[words.len() - 1], "zoom");
    assert!(words.len() >= 7776, "Number of words has decreased. Either use a larger word list or consider increasing the number of words in passphrases to maintain a high entropy.");
}

#[test]
fn random_passphrase_has_ten_words() {
    kin::init().unwrap();
    let passphrase = kin::random_passphrase();
    let words = kin::get_words();
    let parts: Vec<&str> = passphrase.split(' ').collect();
    assert_eq!(parts.len(), 10);
    for part in parts {
        assert!(words.contains(&part));
    }
}
