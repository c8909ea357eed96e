use bitcoin_keygen::keys::{hex_string, FINGERPRINT_CHARS};
use bitcoin_keygen::{
    derive_master_key, generate_seed, get_hardware_wallet_fingerprint, mnemonic_from_entropy,
    Network,
};

#[test]
fn hex_is_lower_case_two_digits_per_byte() {
    assert_eq!(hex_string(&[]), "");
    assert_eq!(hex_string(&[0]), "00");
    assert_eq!(hex_string(&[0x0f]), "0f");
    assert_eq!(hex_string(&[0xf0]), "f0");
    assert_eq!(hex_string(&[0xff]), "ff");
    assert_eq!(hex_string(&[1, 2, 3, 42]), "0102032a");
    assert_eq!(hex_string(&[0xde, 0xad, 0xbe, 0xef]), "deadbeef");
    assert_eq!(hex_string(&[0x00, 0x00, 0x00, 0x01]), "00000001");
    assert_eq!(hex_string(&[0x9a, 0xbc]), "9abc");
}

#[test]
fn hex_agrees_with_the_number_of_its_four_bytes() {
    for bytes in [
        [0u8, 0, 0, 0],
        [0, 0, 1, 0],
        [0x12, 0x34, 0x56, 0x78],
        [0xff, 0xff, 0xff, 0xff],
        [0x0a, 0x00, 0xb0, 0x0c],
    ] {
        assert_eq!(
            hex_string(&bytes),
            format!("{:08x}", u32::from_be_bytes(bytes))
        );
    }
}

#[test]
fn hex_of_every_byte() {
    for b in 0u8..=255 {
        assert_eq!(hex_string(&[b]), format!("{:02x}", b));
    }
}

#[test]
fn fingerprint_is_that_of_the_key_library() {
    assert_eq!(FINGERPRINT_CHARS, 8);
    let mnemonic = mnemonic_from_entropy(&[0x11u8; 32]).unwrap();
    let seed = generate_seed(&mnemonic, "");
    let key = derive_master_key(&seed, Network::Bitcoin).unwrap();
    let secp = bitcoin::secp256k1::Secp256k1::new();
    let theirs = key.fingerprint(&secp);
    let ours = get_hardware_wallet_fingerprint(&key);
    assert_eq!(ours, theirs.to_string());
    assert_eq!(ours.len(), 8);
    assert!(ours
        .chars()
        .all(|c| c.is_ascii_digit() || ('a'..='f').contains(&c)));
    assert_eq!(ours, get_hardware_wallet_fingerprint(&key));
}

#[test]
fn master_key_is_that_of_the_key_library() {
    let mnemonic = mnemonic_from_entropy(&[0x22u8; 32]).unwrap();
    let seed = generate_seed(&mnemonic, "");
    let ours = derive_master_key(&seed, Network::Bitcoin).unwrap();
    let theirs = bitcoin::bip32::Xpriv::new_master(bitcoin::Network::Bitcoin, &seed).unwrap();
    assert_eq!(ours, theirs);
    assert_eq!(ours.encode(), theirs.encode());
    assert_eq!(ours.depth, 0);
    let again = derive_master_key(&seed, Network::Bitcoin).unwrap();
    assert_eq!(ours.encode(), again.encode());
}

#[test]
fn different_seeds_give_different_keys() {
    let a = derive_master_key(&[1u8; 64], Network::Bitcoin).unwrap();
    let b = derive_master_key(&[2u8; 64], Network::Bitcoin).unwrap();
    assert_ne!(a.encode(), b.encode());
    assert_ne!(
        get_hardware_wallet_fingerprint(&a),
        get_hardware_wallet_fingerprint(&b)
    );
}
