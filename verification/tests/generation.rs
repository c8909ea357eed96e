use bip39::Mnemonic;
use bitcoin_keygen::{
    create_printable_output, create_simple_word_list, derive_master_key, generate_mnemonic,
    generate_seed, get_hardware_wallet_fingerprint, Network,
};

#[test]
fn test_generate_mnemonic() {
    let mnemonic = generate_mnemonic().unwrap();
    let words: Vec<&str> = mnemonic.words().collect();
    assert_eq!(words.len(), 24, "Mnemonic should have 24 words");

    for word in words {
        assert!(!word.is_empty(), "Word should not be empty");
        assert!(
            word.chars().all(|c| c.is_alphabetic()),
            "Word should contain only letters"
        );
    }
}

#[test]
fn test_generate_seed() {
    let mnemonic = generate_mnemonic().unwrap();
    let seed = generate_seed(&mnemonic, "");
    assert_eq!(seed.len(), 64, "Seed should be 64 bytes");

    let seed_with_passphrase = generate_seed(&mnemonic, "test_passphrase");
    assert_ne!(
        seed, seed_with_passphrase,
        "Seed with passphrase should be different"
    );
}

#[test]
fn test_derive_master_key() {
    let mnemonic = generate_mnemonic().unwrap();
    let seed = generate_seed(&mnemonic, "");
    let master_key = derive_master_key(&seed, Network::Bitcoin).unwrap();

    assert!(!master_key.to_string().is_empty());
}

#[test]
fn test_get_hardware_wallet_fingerprint() {
    let mnemonic = generate_mnemonic().unwrap();
    let seed = generate_seed(&mnemonic, "");
    let master_key = derive_master_key(&seed, Network::Bitcoin).unwrap();
    let fingerprint = get_hardware_wallet_fingerprint(&master_key);

    assert_eq!(
        fingerprint.len(),
        8,
        "Fingerprint should be 8 hex characters"
    );
    assert!(
        fingerprint.chars().all(|c| c.is_ascii_hexdigit()),
        "Fingerprint should contain only hex characters"
    );
}

#[test]
fn test_create_printable_output() {
    let mnemonic = generate_mnemonic().unwrap();
    let seed = generate_seed(&mnemonic, "");
    let master_key = derive_master_key(&seed, Network::Bitcoin).unwrap();
    let fingerprint = get_hardware_wallet_fingerprint(&master_key);

    let output = create_printable_output(&mnemonic, &fingerprint, "Test Wallet");

    assert!(
        output.contains("BITCOIN SEED PHRASE"),
        "Should contain header"
    );
    assert!(output.contains("Test Wallet"), "Should contain label");
    assert!(output.contains(&fingerprint), "Should contain fingerprint");
    assert!(
        output.contains("SECURITY WARNING"),
        "Should contain security warning"
    );
    assert!(
        output.contains("SEED WORDS"),
        "Should contain seed words section"
    );
    assert!(
        output.contains("VERIFICATION CHECKLIST"),
        "Should contain checklist"
    );
    assert!(
        output.contains("HARDWARE WALLET IMPORT INSTRUCTIONS"),
        "Should contain instructions"
    );

    let words: Vec<&str> = mnemonic.words().collect();
    for word in &words {
        assert!(
            output.contains(word),
            "Output should contain word: {}",
            word
        );
    }

    let word_count = output.matches("words").count();
    assert!(word_count > 0, "Should mention word count");
}

#[test]
fn test_create_simple_word_list() {
    let mnemonic = generate_mnemonic().unwrap();
    let output = create_simple_word_list(&mnemonic);

    let words: Vec<&str> = mnemonic.words().collect();
    assert_eq!(words.len(), 24);

    for (i, word) in words.iter().enumerate() {
        assert!(
            output.contains(word),
            "Output should contain word: {}",
            word
        );
        let expected_line = format!("{:2}. {}", i + 1, word);
        assert!(
            output.contains(&expected_line),
            "Should contain numbered line"
        );
    }
}

#[test]
fn test_mnemonic_consistency() {
    let test_phrase = "abandon abandon abandon abandon abandon abandon abandon abandon abandon abandon abandon about";
    let mnemonic = Mnemonic::parse_in_normalized(bip39::Language::English, test_phrase).unwrap();

    let seed1 = generate_seed(&mnemonic, "");
    let seed2 = generate_seed(&mnemonic, "");
    assert_eq!(seed1, seed2, "Same mnemonic should produce same seed");

    let master_key1 = derive_master_key(&seed1, Network::Bitcoin).unwrap();
    let master_key2 = derive_master_key(&seed2, Network::Bitcoin).unwrap();
    assert_eq!(
        master_key1.to_string(),
        master_key2.to_string(),
        "Same seed should produce same master key"
    );
}

#[test]
fn test_fingerprint_format() {
    let mut fingerprints = std::collections::HashSet::new();

    for _ in 0..10 {
        let mnemonic = generate_mnemonic().unwrap();
        let seed = generate_seed(&mnemonic, "");
        let master_key = derive_master_key(&seed, Network::Bitcoin).unwrap();
        let fingerprint = get_hardware_wallet_fingerprint(&master_key);

        assert_eq!(fingerprint.len(), 8);
        assert!(fingerprint.chars().all(|c| c.is_ascii_hexdigit()));

        fingerprints.insert(fingerprint);
    }

    assert!(
        fingerprints.len() > 0,
        "Should generate at least one fingerprint"
    );
}
