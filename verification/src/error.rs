//! The ways in which making a backup can fail. Each is final: nothing is
//! tried again.

use vstd::prelude::*;

verus! {

/// The stage at which a run failed.
#[derive(Debug, Clone, Copy, PartialEq, Eq, Structural)]
pub enum KeygenError {
    /// The secure random source could not supply the entropy.
    EntropyFailure,
    /// The entropy could not be turned into a well-formed mnemonic.
    EncodingFailure,
    /// The seed was rejected when the master key was derived.
    DerivationFailure,
    /// The output directory could not be made, or a file not written.
    FilesystemFailure,
}

/// The diagnostic that names the failed stage.
pub open spec fn diagnostic(e: KeygenError) -> Seq<char> {
    match e {
        KeygenError::EntropyFailure => "the secure random source failed"@,
        KeygenError::EncodingFailure => "the entropy could not be encoded as a mnemonic"@,
        KeygenError::DerivationFailure => "the master key could not be derived from the seed"@,
        KeygenError::FilesystemFailure => "the backup files could not be written"@,
    }
}

impl KeygenError {
    /// The diagnostic to print for this failure.
    pub fn message(&self) -> (text: String)
        ensures
            text@ == diagnostic(*self),
    {
        match self {
            KeygenError::EntropyFailure => String::from_str("the secure random source failed"),
            KeygenError::EncodingFailure => String::from_str(
                "the entropy could not be encoded as a mnemonic",
            ),
            KeygenError::DerivationFailure => String::from_str(
                "the master key could not be derived from the seed",
            ),
            KeygenError::FilesystemFailure => String::from_str(
                "the backup files could not be written",
            ),
        }
    }
}

} // verus!
