//! The master key: deriving it from the seed, and the short fingerprint by
//! which an operator recognises it on a hardware wallet.

use crate::error::KeygenError;
use vstd::prelude::*;

verus! {

/// The extended private key of the `bitcoin` crate, carried as an opaque
/// value.
#[verifier::external_type_specification]
#[verifier::external_body]
pub struct ExXpriv(bitcoin::bip32::Xpriv);

/// The key derivation error of the `bitcoin` crate.
#[verifier::external_type_specification]
#[verifier::external_body]
pub struct ExDerivationError(bitcoin::bip32::Error);

/// The network whose parameters a key is made for.
#[derive(Debug, Clone, Copy, PartialEq, Eq, Structural)]
pub enum Network {
    /// The production network.
    Bitcoin,
    /// The first public test network.
    Testnet,
    /// The fourth public test network.
    Testnet4,
    /// The signed test network.
    Signet,
    /// A private network for regression tests.
    Regtest,
}

/// What an extended private key holds: its standard binary encoding.
pub uninterp spec fn xpriv_encoding(key: bitcoin::bip32::Xpriv) -> Seq<u8>;

/// The encoding of the master key that derivation makes of a seed for a
/// network, or nothing where it rejects the seed.
pub uninterp spec fn master_key_encoding(network: Network, seed: Seq<u8>) -> Option<Seq<u8>>;

/// The first four bytes of the identity hash over the public key that
/// belongs to the key with the given encoding.
pub uninterp spec fn identity_prefix(encoding: Seq<u8>) -> Seq<u8>;

/// The number of characters of a fingerprint.
pub const FINGERPRINT_CHARS: usize = 8;

/// The sixteen hexadecimal digits, in order, letters in lower case.
pub open spec fn hex_digits() -> Seq<char> {
    "0123456789abcdef"@
}

/// The character that stands for the hexadecimal digit `d`.
pub open spec fn hex_char(d: nat) -> char
    recommends
        d < 16,
{
    hex_digits()[d as int]
}

/// The two hexadecimal digits of a byte, the higher one first.
pub open spec fn hex_byte(b: u8) -> Seq<char> {
    seq![hex_char((b / 16) as nat), hex_char((b % 16) as nat)]
}

/// Bytes written as hexadecimal digits, two per byte, first byte first.
pub open spec fn hex_text(bytes: Seq<u8>) -> Seq<char>
    decreases bytes.len(),
{
    if bytes.len() == 0 {
        Seq::empty()
    } else {
        hex_text(bytes.drop_last()) + hex_byte(bytes.last())
    }
}

/// A digit, or a letter from `a` to `f`.
pub open spec fn is_lower_hex(c: char) -> bool {
    ('0' <= c <= '9') || ('a' <= c <= 'f')
}

/// The value of a hexadecimal digit in lower case.
pub open spec fn hex_value(c: char) -> nat {
    if '0' <= c <= '9' {
        (c as nat - '0' as nat) as nat
    } else {
        (c as nat - 'a' as nat + 10) as nat
    }
}

/// Hexadecimal text has two characters per byte, all of them digits or
/// letters from `a` to `f`, and the two characters of each byte give back
/// its value: different bytes never share a text.
pub proof fn lemma_hex_text(bytes: Seq<u8>)
    ensures
        hex_text(bytes).len() == 2 * bytes.len(),
        forall|i: int| 0 <= i < hex_text(bytes).len() ==> is_lower_hex(#[trigger] hex_text(bytes)[i]),
        forall|k: int|
            0 <= k < bytes.len() ==> #[trigger] bytes[k] == 16 * hex_value(hex_text(bytes)[2 * k])
                + hex_value(hex_text(bytes)[2 * k + 1]),
    decreases bytes.len(),
{
    reveal_strlit("0123456789abcdef");
    if bytes.len() > 0 {
        let front = bytes.drop_last();
        lemma_hex_text(front);
        let text = hex_text(bytes);
        assert forall|k: int| 0 <= k < bytes.len() implies #[trigger] bytes[k] == 16 * hex_value(
            text[2 * k],
        ) + hex_value(text[2 * k + 1]) by {
            if k < front.len() {
                assert(bytes[k] == front[k]);
                assert(text[2 * k] == hex_text(front)[2 * k]);
                assert(text[2 * k + 1] == hex_text(front)[2 * k + 1]);
            }
        }
    }
}

/// Calls `bitcoin::bip32::Xpriv::new_master` with the network kind that
/// belongs to `network`. Whether the seed is accepted, and the key that it
/// gives, depend on the network and the seed alone.
#[verifier::external_body]
fn new_master(network: Network, seed: &[u8; 64]) -> (r: Result<
    bitcoin::bip32::Xpriv,
    bitcoin::bip32::Error,
>)
    ensures
        match r {
            Ok(key) => master_key_encoding(network, seed@) == Some(xpriv_encoding(key)),
            Err(_) => master_key_encoding(network, seed@) is None,
        },
{
    let kind = match network {
        Network::Bitcoin => bitcoin::Network::Bitcoin,
        Network::Testnet => bitcoin::Network::Testnet,
        Network::Testnet4 => bitcoin::Network::Testnet4,
        Network::Signet => bitcoin::Network::Signet,
        Network::Regtest => bitcoin::Network::Regtest,
    };
    bitcoin::bip32::Xpriv::new_master(kind, seed)
}

/// Calls `bitcoin::bip32::Xpriv::fingerprint` in a fresh signing context
/// from `bitcoin::secp256k1::Secp256k1::new`. The four bytes depend on the
/// key alone.
#[verifier::external_body]
fn fingerprint_bytes(key: &bitcoin::bip32::Xpriv) -> (bytes: [u8; 4])
    ensures
        bytes@ == identity_prefix(xpriv_encoding(*key)),
{
    let secp = bitcoin::secp256k1::Secp256k1::new();
    key.fingerprint(&secp).to_bytes()
}

/// The text of one hexadecimal digit.
fn hex_digit_text(d: u8) -> (s: &'static str)
    requires
        d < 16,
    ensures
        s@ == seq![hex_char(d as nat)],
{
    let all = "0123456789abcdef";
    proof {
        reveal_strlit("0123456789abcdef");
    }
    let at: usize = d as usize;
    let s = all.substring_ascii(at, at + 1);
    assert(s@ =~= seq![hex_char(d as nat)]);
    s
}

/// Writes `bytes` as hexadecimal digits in lower case, the first byte
/// first and the higher digit of each byte first.
pub fn hex_string(bytes: &[u8]) -> (out: String)
    ensures
        out@ == hex_text(bytes@),
        out@.len() == 2 * bytes@.len(),
        forall|i: int| 0 <= i < out@.len() ==> is_lower_hex(#[trigger] out@[i]),
{
    let mut out = String::new();
    let mut i: usize = 0;
    while i < bytes.len()
        invariant
            i <= bytes.len(),
            out@ == hex_text(bytes@.take(i as int)),
        decreases bytes.len() - i,
    {
        let b: u8 = bytes[i];
        out.append(hex_digit_text(b / 16));
        out.append(hex_digit_text(b % 16));
        proof {
            let done = bytes@.take(i + 1);
            assert(done.drop_last() =~= bytes@.take(i as int));
            assert(out@ =~= hex_text(done));
        }
        i = i + 1;
    }
    proof {
        assert(bytes@.take(i as int) =~= bytes@);
        lemma_hex_text(bytes@);
    }
    out
}

/// The outcome of deriving the master key: its encoding, where derivation
/// accepts the seed.
pub open spec fn master_key_of(network: Network, seed: Seq<u8>) -> Result<Seq<u8>, KeygenError> {
    match master_key_encoding(network, seed) {
        Some(encoding) => Ok(encoding),
        None => Err(KeygenError::DerivationFailure),
    }
}

/// Derives the master extended private key from a seed, for a network.
pub fn derive_master_key(seed: &[u8; 64], network: Network) -> (r: Result<
    bitcoin::bip32::Xpriv,
    KeygenError,
>)
    ensures
        match r {
            Ok(key) => master_key_of(network, seed@) == Ok::<Seq<u8>, KeygenError>(
                xpriv_encoding(key),
            ),
            Err(e) => master_key_of(network, seed@) == Err::<Seq<u8>, KeygenError>(e),
        },
{
    match new_master(network, seed) {
        Ok(key) => Ok(key),
        Err(_) => Err(KeygenError::DerivationFailure),
    }
}

/// The fingerprint that belongs to a key with the given encoding, as a
/// hardware wallet shows it.
pub open spec fn fingerprint_of(encoding: Seq<u8>) -> Seq<char> {
    hex_text(identity_prefix(encoding))
}

/// The fingerprint of a key as a hardware wallet shows it: the first four
/// bytes of its identity hash in eight hexadecimal digits, lower case.
pub fn get_hardware_wallet_fingerprint(key: &bitcoin::bip32::Xpriv) -> (fingerprint: String)
    ensures
        fingerprint@ == fingerprint_of(xpriv_encoding(*key)),
        fingerprint@.len() == FINGERPRINT_CHARS,
        forall|i: int| 0 <= i < fingerprint@.len() ==> is_lower_hex(#[trigger] fingerprint@[i]),
{
    let bytes = fingerprint_bytes(key);
    hex_string(bytes.as_slice())
}

} // verus!
