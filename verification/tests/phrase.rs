use bip39::Mnemonic;
use bitcoin_keygen::phrase::{
    checked_mnemonic, draw_entropy, entropy_outcome, is_plain_word, is_valid_phrase,
    ENTROPY_BYTES, SEED_BYTES, WORD_COUNT,
};
use bitcoin_keygen::{generate_mnemonic, generate_seed, mnemonic_from_entropy, KeygenError};

fn owned(words: &[&str]) -> Vec<String> {
    words.iter().map(|w| w.to_string()).collect()
}

#[test]
fn sizes_of_the_pipeline() {
    assert_eq!(ENTROPY_BYTES, 32);
    assert_eq!(WORD_COUNT, 24);
    assert_eq!(SEED_BYTES, 64);
}

#[test]
fn plain_words_are_lower_case_letters() {
    assert!(is_plain_word("abandon"));
    assert!(is_plain_word("zoo"));
    assert!(is_plain_word("a"));
    assert!(is_plain_word("az"));
    assert!(!is_plain_word(""));
    assert!(!is_plain_word("Abandon"));
    assert!(!is_plain_word("abandoN"));
    assert!(!is_plain_word("two words"));
    assert!(!is_plain_word("line\n"));
    assert!(!is_plain_word("ab1"));
    assert!(!is_plain_word("`"));
    assert!(!is_plain_word("{"));
    assert!(!is_plain_word("na\u{ef}ve"));
}

#[test]
fn a_phrase_is_twenty_four_plain_words() {
    let mut words = owned(&["abandon"; 24]);
    assert!(is_valid_phrase(&words));
    words[23] = "Art".to_string();
    assert!(!is_valid_phrase(&words));
    words[23] = "art".to_string();
    assert!(is_valid_phrase(&words));
    words[0] = String::new();
    assert!(!is_valid_phrase(&words));
    assert!(!is_valid_phrase(&owned(&["abandon"; 23])));
    assert!(!is_valid_phrase(&owned(&["abandon"; 25])));
    assert!(!is_valid_phrase(&owned(&["abandon"; 12])));
    assert!(!is_valid_phrase(&Vec::new()));
}

#[test]
fn entropy_of_a_wrong_size_is_rejected() {
    for size in [0usize, 1, 15, 31, 33, 64] {
        let entropy = vec![7u8; size];
        assert_eq!(
            mnemonic_from_entropy(&entropy).err(),
            Some(KeygenError::EncodingFailure),
            "size {}",
            size
        );
    }
}

#[test]
fn entropy_that_encodes_to_fewer_words_is_rejected() {
    for size in [16usize, 20, 24, 28] {
        let entropy = vec![7u8; size];
        assert!(Mnemonic::from_entropy(&entropy).is_ok());
        assert_eq!(
            mnemonic_from_entropy(&entropy).err(),
            Some(KeygenError::EncodingFailure),
            "size {}",
            size
        );
    }
}

#[test]
fn a_short_mnemonic_is_not_accepted_as_a_phrase() {
    let short = Mnemonic::from_entropy(&[0u8; 16]).unwrap();
    assert_eq!(
        checked_mnemonic(short).err(),
        Some(KeygenError::EncodingFailure)
    );
    let full = Mnemonic::from_entropy(&[0u8; 32]).unwrap();
    assert_eq!(checked_mnemonic(full.clone()).ok(), Some(full));
}

#[test]
fn encoding_is_the_encoding_of_the_word_list_library() {
    let entropy: Vec<u8> = (100u8..132).collect();
    let ours = mnemonic_from_entropy(&entropy).unwrap();
    let theirs = Mnemonic::from_entropy(&entropy).unwrap();
    assert_eq!(ours, theirs);
    assert_eq!(ours.to_string(), theirs.to_string());
}

#[test]
fn encoding_then_decoding_gives_the_entropy_back() {
    let samples: Vec<Vec<u8>> = vec![
        vec![0u8; 32],
        vec![0xffu8; 32],
        vec![0x80u8; 32],
        (0u8..32).collect(),
        (0u8..32).map(|b| b.wrapping_mul(151).wrapping_add(13)).collect(),
    ];
    for entropy in samples {
        let mnemonic = mnemonic_from_entropy(&entropy).unwrap();
        assert_eq!(mnemonic.to_entropy(), entropy);
        let words: Vec<&str> = mnemonic.words().collect();
        let parsed =
            Mnemonic::parse_in_normalized(bip39::Language::English, &words.join(" ")).unwrap();
        assert_eq!(parsed.to_entropy(), entropy);
    }
}

#[test]
fn fresh_entropy_round_trips_too() {
    for _ in 0..5 {
        let entropy = draw_entropy().unwrap();
        let mnemonic = mnemonic_from_entropy(&entropy).unwrap();
        assert_eq!(mnemonic.to_entropy(), entropy.to_vec());
    }
}

#[test]
fn entropy_differs_from_draw_to_draw() {
    let first = draw_entropy().unwrap();
    let second = draw_entropy().unwrap();
    assert_ne!(first, second);
    assert_ne!(first, [0u8; 32]);
}

#[test]
fn seed_is_a_function_of_words_and_passphrase() {
    let mnemonic = mnemonic_from_entropy(&[0x5au8; 32]).unwrap();
    let again = mnemonic_from_entropy(&[0x5au8; 32]).unwrap();
    for passphrase in ["", "TREZOR", "correct horse", "\u{e9}"] {
        assert_eq!(
            generate_seed(&mnemonic, passphrase),
            generate_seed(&again, passphrase)
        );
    }
    assert_ne!(generate_seed(&mnemonic, ""), generate_seed(&mnemonic, " "));
    assert_ne!(generate_seed(&mnemonic, "a"), generate_seed(&mnemonic, "b"));
    let other = mnemonic_from_entropy(&[0x5bu8; 32]).unwrap();
    assert_ne!(generate_seed(&mnemonic, ""), generate_seed(&other, ""));
}

#[test]
fn generated_mnemonics_are_well_formed_and_differ() {
    let first = generate_mnemonic().unwrap();
    let second = generate_mnemonic().unwrap();
    assert_ne!(first, second);
    for mnemonic in [first, second] {
        let words: Vec<String> = mnemonic.words().map(|w| w.to_string()).collect();
        assert!(is_valid_phrase(&words));
        assert_eq!(mnemonic.word_count(), 24);
    }
}

#[test]
fn a_source_that_answers_gives_its_bytes() {
    let mut buffer = [0u8; 32];
    for (i, b) in buffer.iter_mut().enumerate() {
        *b = (i as u8).wrapping_mul(7).wrapping_add(1);
    }
    assert_eq!(entropy_outcome(Ok(()), buffer), Ok(buffer));
    assert_eq!(entropy_outcome(Ok(()), [0u8; 32]), Ok([0u8; 32]));
}

#[test]
fn a_source_that_fails_gives_an_entropy_failure() {
    for error in [
        getrandom::Error::UNSUPPORTED,
        getrandom::Error::UNEXPECTED,
        getrandom::Error::ERRNO_NOT_POSITIVE,
    ] {
        assert_eq!(
            entropy_outcome(Err(error), [9u8; 32]),
            Err(KeygenError::EntropyFailure)
        );
    }
}
