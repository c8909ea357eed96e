//! The pipeline from entropy to the three documents of a backup. It runs
//! forward once: entropy, mnemonic, seed, master key, fingerprint,
//! documents. Given the entropy, the label and the time, everything that
//! follows is fixed.

use crate::clock::local_timestamp;
use crate::error::KeygenError;
use crate::keys::{
    derive_master_key, fingerprint_of, get_hardware_wallet_fingerprint, is_lower_hex,
    master_key_of, Network, FINGERPRINT_CHARS,
};
use crate::lists::{
    import_list, lemma_import_list_split, lemma_simple_list_lines, lines, numbered_entry,
    render_import_list, render_simple_list, simple_list, split,
};
use crate::phrase::{
    collect_words, draw_entropy, generate_seed, lemma_valid_phrase_words, mnemonic_from_entropy,
    mnemonic_words, phrase_of, seed_bytes, valid_phrase, ENTROPY_BYTES,
};
use crate::report::{lemma_report_shows_all, printable_report, render_printable_report, shows_all};
use vstd::prelude::*;

verus! {

/// The label of a backup whose operator gave none.
pub const DEFAULT_LABEL: &'static str = "Bitcoin Wallet";

/// The directory into which the documents are written.
pub const OUTPUT_DIR: &'static str = "output";

/// The file that holds the printable report.
pub const PRINTABLE_FILE: &'static str = "seed_phrase_printable.txt";

/// The file that holds the numbered word list.
pub const SIMPLE_LIST_FILE: &'static str = "seed_words_simple.txt";

/// The file that holds the bare word list.
pub const IMPORT_LIST_FILE: &'static str = "seed_words_for_coldcard.txt";

/// The documents of one backup, and the fingerprint that they show.
pub struct Backup {
    /// The fingerprint of the master key.
    pub fingerprint: String,
    /// The printable report.
    pub printable: String,
    /// The numbered word list.
    pub simple_list: String,
    /// The bare word list.
    pub import_list: String,
}

/// The texts of a backup.
pub struct BackupText {
    pub fingerprint: Seq<char>,
    pub printable: Seq<char>,
    pub simple_list: Seq<char>,
    pub import_list: Seq<char>,
}

impl View for Backup {
    type V = BackupText;

    open spec fn view(&self) -> BackupText {
        BackupText {
            fingerprint: self.fingerprint@,
            printable: self.printable@,
            simple_list: self.simple_list@,
            import_list: self.import_list@,
        }
    }
}

/// The documents on `words` under a fingerprint, a label and a time of
/// generation.
pub open spec fn documents(
    words: Seq<Seq<char>>,
    fingerprint: Seq<char>,
    label: Seq<char>,
    timestamp: Seq<char>,
) -> BackupText {
    BackupText {
        fingerprint,
        printable: printable_report(words, fingerprint, label, timestamp),
        simple_list: simple_list(words),
        import_list: import_list(words),
    }
}

/// The words and the key encoding that the pipeline reaches from an
/// entropy: the phrase of the entropy, its seed under the empty passphrase,
/// and the master key of that seed on the production network. A stage that
/// fails ends the run with its own error.
pub open spec fn key_material(entropy: Seq<u8>) -> Result<(Seq<Seq<char>>, Seq<u8>), KeygenError> {
    match phrase_of(entropy) {
        Err(e) => Err(e),
        Ok(words) => match master_key_of(Network::Bitcoin, seed_bytes(words, ""@)) {
            Err(e) => Err(e),
            Ok(encoding) => Ok((words, encoding)),
        },
    }
}

/// The backup that the pipeline makes of an entropy, a label and a time of
/// generation.
pub open spec fn backup_of(entropy: Seq<u8>, label: Seq<char>, timestamp: Seq<char>) -> Result<
    BackupText,
    KeygenError,
> {
    match key_material(entropy) {
        Err(e) => Err(e),
        Ok((words, encoding)) => Ok(documents(words, fingerprint_of(encoding), label, timestamp)),
    }
}

/// What holds of the documents of every backup of a well-formed phrase: the
/// report shows label, fingerprint, words and headings; the numbered list
/// has one line per word, each the numbered entry of its word; the bare
/// list splits at line feeds into the words themselves, none of them empty.
pub open spec fn well_formed(
    texts: BackupText,
    words: Seq<Seq<char>>,
    label: Seq<char>,
) -> bool {
    &&& shows_all(texts.printable, words, texts.fingerprint, label)
    &&& lines(texts.simple_list) == Seq::new(24, |i: int| numbered_entry(i, words[i]))
    &&& split(texts.import_list, '\n') == words
    &&& words.len() == 24
    &&& forall|i: int| 0 <= i < words.len() ==> (#[trigger] words[i]).len() >= 1
}

/// The documents on a well-formed phrase are well-formed, whatever the
/// fingerprint, the label and the time.
pub proof fn lemma_documents_well_formed(
    words: Seq<Seq<char>>,
    fingerprint: Seq<char>,
    label: Seq<char>,
    timestamp: Seq<char>,
)
    requires
        valid_phrase(words),
    ensures
        well_formed(documents(words, fingerprint, label, timestamp), words, label),
{
    let texts = documents(words, fingerprint, label, timestamp);
    lemma_valid_phrase_words(words);
    lemma_report_shows_all(words, fingerprint, label, timestamp);
    lemma_simple_list_lines(words);
    lemma_import_list_split(words);
    assert(lines(texts.simple_list) =~= Seq::new(24, |i: int| numbered_entry(i, words[i])));
}

/// The label to use: the one given, or the default.
pub fn chosen_label(argument: Option<String>) -> (label: String)
    ensures
        label@ == match argument {
            Some(given) => given@,
            None => DEFAULT_LABEL@,
        },
{
    match argument {
        Some(given) => given,
        None => String::from_str(DEFAULT_LABEL),
    }
}

/// The path of `file` inside the directory `dir`.
pub fn output_path(dir: &str, file: &str) -> (path: String)
    ensures
        path@ == dir@ + "/"@ + file@,
{
    let mut path = String::from_str(dir);
    path.append("/");
    path.append(file);
    path
}

/// The files that hold a backup, in the order in which they are written:
/// each file name with the text that goes into it.
pub fn output_files<'a>(backup: &'a Backup) -> (files: Vec<(&'static str, &'a str)>)
    ensures
        files@.len() == 3,
        files@[0].0@ == PRINTABLE_FILE@ && files@[0].1@ == backup.printable@,
        files@[1].0@ == SIMPLE_LIST_FILE@ && files@[1].1@ == backup.simple_list@,
        files@[2].0@ == IMPORT_LIST_FILE@ && files@[2].1@ == backup.import_list@,
{
    let mut files: Vec<(&'static str, &'a str)> = Vec::new();
    files.push((PRINTABLE_FILE, backup.printable.as_str()));
    files.push((SIMPLE_LIST_FILE, backup.simple_list.as_str()));
    files.push((IMPORT_LIST_FILE, backup.import_list.as_str()));
    files
}

/// Renders the three documents on a mnemonic.
pub fn render_backup(
    mnemonic: &bip39::Mnemonic,
    fingerprint: String,
    label: &str,
    timestamp: &str,
) -> (backup: Backup)
    ensures
        backup@ == documents(mnemonic_words(*mnemonic), fingerprint@, label@, timestamp@),
{
    let words = collect_words(mnemonic);
    let printable = render_printable_report(&words, fingerprint.as_str(), label, timestamp);
    let simple_list = render_simple_list(&words);
    let import_list = render_import_list(&words);
    Backup { fingerprint, printable, simple_list, import_list }
}

/// Runs the pipeline on a given entropy, label and time of generation.
pub fn backup_from_entropy(entropy: &[u8], label: &str, timestamp: &str) -> (r: Result<
    Backup,
    KeygenError,
>)
    ensures
        match r {
            Ok(backup) => {
                &&& backup_of(entropy@, label@, timestamp@) == Ok::<BackupText, KeygenError>(
                    backup@,
                )
                &&& key_material(entropy@) is Ok
                &&& well_formed(backup@, key_material(entropy@)->Ok_0.0, label@)
                &&& backup.fingerprint@.len() == FINGERPRINT_CHARS
                &&& forall|i: int|
                    0 <= i < backup.fingerprint@.len() ==> is_lower_hex(
                        #[trigger] backup.fingerprint@[i],
                    )
            },
            Err(e) => backup_of(entropy@, label@, timestamp@) == Err::<BackupText, KeygenError>(e),
        },
        entropy@.len() != ENTROPY_BYTES ==> (r matches Err(e) && e == KeygenError::EncodingFailure),
{
    let mnemonic = match mnemonic_from_entropy(entropy) {
        Ok(mnemonic) => mnemonic,
        Err(e) => {
            return Err(e);
        },
    };
    proof {
        reveal_strlit("");
    }
    let seed = generate_seed(&mnemonic, "");
    let key = match derive_master_key(&seed, Network::Bitcoin) {
        Ok(key) => key,
        Err(e) => {
            return Err(e);
        },
    };
    let fingerprint = get_hardware_wallet_fingerprint(&key);
    proof {
        lemma_documents_well_formed(
            mnemonic_words(mnemonic),
            fingerprint@,
            label@,
            timestamp@,
        );
    }
    Ok(render_backup(&mnemonic, fingerprint, label, timestamp))
}

/// Makes a fresh backup: draws the entropy, reads the clock, and runs the
/// pipeline on them.
pub fn generate_backup(label: &str) -> (r: Result<Backup, KeygenError>)
    ensures
        match r {
            Ok(backup) => {
                &&& exists|entropy: Seq<u8>, timestamp: Seq<char>|
                    entropy.len() == ENTROPY_BYTES && #[trigger] backup_of(
                        entropy,
                        label@,
                        timestamp,
                    ) == Ok::<BackupText, KeygenError>(backup@) && well_formed(
                        backup@,
                        key_material(entropy)->Ok_0.0,
                        label@,
                    )
                &&& backup.fingerprint@.len() == FINGERPRINT_CHARS
                &&& forall|i: int|
                    0 <= i < backup.fingerprint@.len() ==> is_lower_hex(
                        #[trigger] backup.fingerprint@[i],
                    )
            },
            Err(e) => e != KeygenError::FilesystemFailure,
        },
{
    let entropy = match draw_entropy() {
        Ok(entropy) => entropy,
        Err(e) => {
            return Err(e);
        },
    };
    let timestamp = local_timestamp();
    let r = backup_from_entropy(entropy.as_slice(), label, timestamp.as_str());
    proof {
        if r is Ok {
            assert(backup_of(entropy@, label@, timestamp@) == Ok::<BackupText, KeygenError>(
                r->Ok_0@,
            ));
        }
    }
    r
}

} // verus!
