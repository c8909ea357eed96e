//! Makes an offline backup of a new wallet: a mnemonic of twenty-four
//! words, the fingerprint of its master key, and three documents that show
//! them for safekeeping and for import into a hardware wallet.

use vstd::prelude::*;

mod clock;
pub mod error;
pub mod keys;
pub mod lists;
pub mod phrase;
pub mod pipeline;
pub mod report;
pub mod text;

pub use error::KeygenError;
pub use keys::{derive_master_key, get_hardware_wallet_fingerprint, Network};
pub use lists::{create_import_word_list, create_simple_word_list};
pub use phrase::{generate_mnemonic, generate_seed, mnemonic_from_entropy};
pub use pipeline::{backup_from_entropy, generate_backup, Backup};
pub use report::create_printable_output;

verus! {

} // verus!
