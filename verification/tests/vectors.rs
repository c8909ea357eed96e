use bip39::Mnemonic;
use bitcoin_keygen::keys::hex_string;
use bitcoin_keygen::{
    derive_master_key, generate_seed, get_hardware_wallet_fingerprint, mnemonic_from_entropy,
    Network,
};

const TWELVE_WORDS: &str = "abandon abandon abandon abandon abandon abandon abandon abandon abandon abandon abandon about";

fn twelve_words() -> Mnemonic {
    Mnemonic::parse_in_normalized(bip39::Language::English, TWELVE_WORDS).unwrap()
}

#[test]
fn seed_of_the_reference_phrase_with_a_passphrase() {
    let seed = generate_seed(&twelve_words(), "TREZOR");
    assert_eq!(
        hex_string(&seed),
        "c55257c360c07c72029aebc1b53c05ed0362ada38ead3e3e9efa3708e53495531f09a6987599d18264c1e1c92f2cf141630c7a3c4ab7c81b2f001698e7463b04"
    );
}

#[test]
fn master_key_of_the_reference_phrase_with_a_passphrase() {
    let seed = generate_seed(&twelve_words(), "TREZOR");
    let key = derive_master_key(&seed, Network::Bitcoin).unwrap();
    assert_eq!(
        key.to_string(),
        "xprv9s21ZrQH143K3h3fDYiay8mocZ3afhfULfb5GX8kCBdno77K4HiA15Tg23wpbeF1pLfs1c5SPmYHrEpTuuRhxMwvKDwqdKiGJS9XFKzUsAF"
    );
}

#[test]
fn fingerprint_of_the_reference_phrase() {
    let seed = generate_seed(&twelve_words(), "");
    let key = derive_master_key(&seed, Network::Bitcoin).unwrap();
    assert_eq!(get_hardware_wallet_fingerprint(&key), "73c5da0a");
}

#[test]
fn zero_entropy_gives_the_reference_words() {
    let mnemonic = mnemonic_from_entropy(&[0u8; 32]).unwrap();
    let words: Vec<&str> = mnemonic.words().collect();
    let mut expected = vec!["abandon"; 23];
    expected.push("art");
    assert_eq!(words, expected);
}

#[test]
fn seed_and_master_key_of_zero_entropy_with_a_passphrase() {
    let mnemonic = mnemonic_from_entropy(&[0u8; 32]).unwrap();
    let seed = generate_seed(&mnemonic, "TREZOR");
    assert_eq!(
        hex_string(&seed),
        "bda85446c68413707090a52022edd26a1c9462295029f2e60cd7c4f2bbd3097170af7a4d73245cafa9c3cca8d561a7c3de6f5d4a10be8ed2a5e608d68f92fcc8"
    );
    let key = derive_master_key(&seed, Network::Bitcoin).unwrap();
    assert_eq!(
        key.to_string(),
        "xprv9s21ZrQH143K32qBagUJAMU2LsHg3ka7jqMcV98Y7gVeVyNStwYS3U7yVVoDZ4btbRNf4h6ibWpY22iRmXq35qgLs79f312g2kj5539ebPM"
    );
}

#[test]
fn test_networks_share_one_key_form() {
    let seed = generate_seed(&twelve_words(), "");
    let main = derive_master_key(&seed, Network::Bitcoin).unwrap();
    let test = derive_master_key(&seed, Network::Testnet).unwrap();
    assert!(main.to_string().starts_with("xprv"));
    assert!(test.to_string().starts_with("tprv"));
    for network in [Network::Testnet4, Network::Signet, Network::Regtest] {
        let other = derive_master_key(&seed, network).unwrap();
        assert_eq!(other.to_string(), test.to_string());
    }
    assert_eq!(
        get_hardware_wallet_fingerprint(&main),
        get_hardware_wallet_fingerprint(&test)
    );
}
