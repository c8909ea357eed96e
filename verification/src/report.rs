//! The printable report: the document that is printed and kept with the
//! metal plate. Its text is fixed but for the label, the time of
//! generation, the fingerprint and the words.

use crate::clock::local_timestamp;
use crate::lists::{
    append_numbered_lines, index_label, lemma_numbered_lines_contain, simple_list,
};
use crate::phrase::{collect_words, mnemonic_words};
use crate::text::{
    append_left_aligned, append_right_aligned, contains, left_aligned, lemma_contains_between,
    lemma_contains_widen,
};
use vstd::prelude::*;

verus! {

/// The title in the banner at the top of the report.
pub const TITLE: &'static str = "BITCOIN SEED PHRASE - METAL PLATE BACKUP";

/// The heading of the security warning.
pub const WARNING_HEADING: &'static str = "SECURITY WARNING";

/// The heading of the word grid.
pub const WORDS_HEADING: &'static str = "SEED WORDS";

/// The heading of the verification checklist.
pub const CHECKLIST_HEADING: &'static str = "VERIFICATION CHECKLIST";

/// The heading of the import instructions.
pub const IMPORT_HEADING: &'static str = "HARDWARE WALLET IMPORT INSTRUCTIONS";

/// The heavy border line, with its line feed.
pub const DOUBLE_RULE: &'static str = "═══════════════════════════════════════════════════════════════\n";

/// The light border line, with its line feed.
pub const SINGLE_RULE: &'static str = "─────────────────────────────────────────────────────────────\n";

/// The number of words in one row of the grid.
pub const GRID_COLUMNS: usize = 4;

/// The width to which each word of the grid is filled up.
pub const GRID_WORD_WIDTH: usize = 12;

/// The banner: the title between two heavy border lines, then an empty
/// line.
pub open spec fn banner() -> Seq<char> {
    DOUBLE_RULE@ + "           "@ + TITLE@ + "\n"@ + DOUBLE_RULE@ + "\n"@
}

/// The metadata block: label, time of generation and fingerprint as given,
/// then the fixed notes on word count and network and an empty line.
pub open spec fn metadata(label: Seq<char>, timestamp: Seq<char>, fingerprint: Seq<char>) -> Seq<
    char,
> {
    "Label: "@ + label + "\n"@ + "Generated: "@ + timestamp + "\n"@ + "Fingerprint: "@
        + fingerprint + "\n"@ + "Word Count: 24 words (256 bits entropy)\n"@
        + "Network: Bitcoin Mainnet\n\n"@
}

/// The security warning between light border lines.
pub open spec fn warning() -> Seq<char> {
    "⚠️  "@ + WARNING_HEADING@ + " ⚠️\n"@ + SINGLE_RULE@
        + "This seed phrase provides full access to your Bitcoin wallet.\n"@
        + "Store this metal plate in a secure, fireproof location.\n"@
        + "Never share this seed phrase with anyone.\n"@ + SINGLE_RULE@ + "\n"@
}

/// One cell of the grid: the number of the word, a full stop, a space, the
/// word filled up to the column width, and then a line feed after the last
/// cell of a row or two spaces after any other.
pub open spec fn grid_cell(i: int, word: Seq<char>) -> Seq<char> {
    index_label(i) + ". "@ + left_aligned(word, GRID_WORD_WIDTH as nat) + (if (i + 1)
        % (GRID_COLUMNS as int) == 0 {
        "\n"@
    } else {
        "  "@
    })
}

/// The cells of the first `n` words.
pub open spec fn grid_cells(words: Seq<Seq<char>>, n: int) -> Seq<char>
    decreases n,
{
    if n <= 0 {
        Seq::empty()
    } else {
        grid_cells(words, n - 1) + grid_cell(n - 1, words[n - 1])
    }
}

/// The grid of all words, four to a row. A last row that is not full is
/// ended by a line feed all the same.
pub open spec fn word_grid(words: Seq<Seq<char>>) -> Seq<char> {
    grid_cells(words, words.len() as int) + (if words.len() % (GRID_COLUMNS as nat) != 0 {
        "\n"@
    } else {
        Seq::empty()
    })
}

/// The grid section: heading, heavy border line, the grid between two empty
/// lines.
pub open spec fn grid_section(words: Seq<Seq<char>>) -> Seq<char> {
    WORDS_HEADING@ + " (Punch these in order):\n"@ + DOUBLE_RULE@ + "\n"@ + word_grid(words)
        + "\n"@
}

/// The verification checklist: five unchecked items.
pub open spec fn checklist() -> Seq<char> {
    DOUBLE_RULE@ + CHECKLIST_HEADING@ + ":\n"@ + SINGLE_RULE@
        + "□ All 24 words are clearly readable\n"@
        + "□ Words are in correct numerical order (1-24)\n"@
        + "□ Fingerprint matches hardware wallet device\n"@
        + "□ Metal plate is stored in secure location\n"@
        + "□ Backup copy exists in separate location\n"@ + DOUBLE_RULE@ + "\n"@
}

/// The second rendering of the words: one numbered word per line between
/// heavy border lines.
pub open spec fn column_section(words: Seq<Seq<char>>) -> Seq<char> {
    "\n\nSINGLE COLUMN FORMAT (Alternative punching reference):\n"@ + DOUBLE_RULE@ + simple_list(
        words,
    ) + DOUBLE_RULE@ + "\n"@
}

/// The import instructions, which repeat the fingerprint in their fifth
/// step.
pub open spec fn instructions(fingerprint: Seq<char>) -> Seq<char> {
    IMPORT_HEADING@ + ":\n"@ + SINGLE_RULE@
        + "This seed phrase is compatible with all BIP39 hardware wallets\n"@
        + "(Coldcard, Trezor, Ledger, BitBox, etc.).\n\n"@ + "Example - Coldcard:\n"@
        + "1. Power on your Coldcard device\n"@
        + "2. Navigate to: Advanced > Danger Zone > Seed Functions > Import Existing\n"@
        + "3. Select '24 words' when prompted\n"@ + "4. Enter the 24 words in order (1-24)\n"@
        + "5. Verify the fingerprint matches: "@ + fingerprint + "\n"@
        + "6. Set a secure PIN code\n"@
        + "7. Test with a small transaction before storing large amounts\n\n"@
        + "For other hardware wallets, follow their specific recovery/import process.\n"@
        + SINGLE_RULE@ + "\n"@
}

/// The footer line and the closing border.
pub open spec fn footer() -> Seq<char> {
    "Generated by bitcoin-keygen (air-gapped system)\n"@ + DOUBLE_RULE@
}

/// The whole report, section after section.
pub open spec fn printable_report(
    words: Seq<Seq<char>>,
    fingerprint: Seq<char>,
    label: Seq<char>,
    timestamp: Seq<char>,
) -> Seq<char> {
    banner() + metadata(label, timestamp, fingerprint) + warning() + grid_section(words)
        + checklist() + column_section(words) + instructions(fingerprint) + footer()
}

fn append_banner(out: &mut String)
    ensures
        final(out)@ == old(out)@ + banner(),
{
    out.append(DOUBLE_RULE);
    out.append("           ");
    out.append(TITLE);
    out.append("\n");
    out.append(DOUBLE_RULE);
    out.append("\n");
    assert(final(out)@ =~= old(out)@ + banner());
}

fn append_metadata(out: &mut String, label: &str, timestamp: &str, fingerprint: &str)
    ensures
        final(out)@ == old(out)@ + metadata(label@, timestamp@, fingerprint@),
{
    out.append("Label: ");
    out.append(label);
    out.append("\n");
    out.append("Generated: ");
    out.append(timestamp);
    out.append("\n");
    out.append("Fingerprint: ");
    out.append(fingerprint);
    out.append("\n");
    out.append("Word Count: 24 words (256 bits entropy)\n");
    out.append("Network: Bitcoin Mainnet\n\n");
    assert(final(out)@ =~= old(out)@ + metadata(label@, timestamp@, fingerprint@));
}

fn append_warning(out: &mut String)
    ensures
        final(out)@ == old(out)@ + warning(),
{
    out.append("⚠️  ");
    out.append(WARNING_HEADING);
    out.append(" ⚠️\n");
    out.append(SINGLE_RULE);
    out.append("This seed phrase provides full access to your Bitcoin wallet.\n");
    out.append("Store this metal plate in a secure, fireproof location.\n");
    out.append("Never share this seed phrase with anyone.\n");
    out.append(SINGLE_RULE);
    out.append("\n");
    assert(final(out)@ =~= old(out)@ + warning());
}

/// Appends the grid of `words` to `out`.
pub fn append_word_grid(out: &mut String, words: &Vec<String>)
    ensures
        final(out)@ == old(out)@ + word_grid(words.deep_view()),
{
    let ghost texts = words.deep_view();
    let mut i: usize = 0;
    while i < words.len()
        invariant
            i <= words.len(),
            texts == words.deep_view(),
            out@ == old(out)@ + grid_cells(texts, i as int),
        decreases words.len() - i,
    {
        let ghost before = out@;
        let number: usize = i + 1;
        append_right_aligned(out, number, 2);
        out.append(". ");
        append_left_aligned(out, words[i].as_str(), GRID_WORD_WIDTH);
        if number % GRID_COLUMNS == 0 {
            out.append("\n");
        } else {
            out.append("  ");
        }
        assert(out@ =~= before + grid_cell(i as int, texts[i as int]));
        i = i + 1;
        assert(out@ =~= old(out)@ + grid_cells(texts, i as int));
    }
    if words.len() % GRID_COLUMNS != 0 {
        out.append("\n");
    }
    assert(final(out)@ =~= old(out)@ + word_grid(texts));
}

fn append_grid_section(out: &mut String, words: &Vec<String>)
    ensures
        final(out)@ == old(out)@ + grid_section(words.deep_view()),
{
    out.append(WORDS_HEADING);
    out.append(" (Punch these in order):\n");
    out.append(DOUBLE_RULE);
    out.append("\n");
    append_word_grid(out, words);
    out.append("\n");
    assert(final(out)@ =~= old(out)@ + grid_section(words.deep_view()));
}

fn append_checklist(out: &mut String)
    ensures
        final(out)@ == old(out)@ + checklist(),
{
    out.append(DOUBLE_RULE);
    out.append(CHECKLIST_HEADING);
    out.append(":\n");
    out.append(SINGLE_RULE);
    out.append("□ All 24 words are clearly readable\n");
    out.append("□ Words are in correct numerical order (1-24)\n");
    out.append("□ Fingerprint matches hardware wallet device\n");
    out.append("□ Metal plate is stored in secure location\n");
    out.append("□ Backup copy exists in separate location\n");
    out.append(DOUBLE_RULE);
    out.append("\n");
    assert(final(out)@ =~= old(out)@ + checklist());
}

fn append_column_section(out: &mut String, words: &Vec<String>)
    ensures
        final(out)@ == old(out)@ + column_section(words.deep_view()),
{
    out.append("\n\nSINGLE COLUMN FORMAT (Alternative punching reference):\n");
    out.append(DOUBLE_RULE);
    append_numbered_lines(out, words);
    out.append(DOUBLE_RULE);
    out.append("\n");
    assert(final(out)@ =~= old(out)@ + column_section(words.deep_view()));
}

fn append_instructions(out: &mut String, fingerprint: &str)
    ensures
        final(out)@ == old(out)@ + instructions(fingerprint@),
{
    out.append(IMPORT_HEADING);
    out.append(":\n");
    out.append(SINGLE_RULE);
    out.append("This seed phrase is compatible with all BIP39 hardware wallets\n");
    out.append("(Coldcard, Trezor, Ledger, BitBox, etc.).\n\n");
    out.append("Example - Coldcard:\n");
    out.append("1. Power on your Coldcard device\n");
    out.append("2. Navigate to: Advanced > Danger Zone > Seed Functions > Import Existing\n");
    out.append("3. Select '24 words' when prompted\n");
    out.append("4. Enter the 24 words in order (1-24)\n");
    out.append("5. Verify the fingerprint matches: ");
    out.append(fingerprint);
    out.append("\n");
    out.append("6. Set a secure PIN code\n");
    out.append("7. Test with a small transaction before storing large amounts\n\n");
    out.append("For other hardware wallets, follow their specific recovery/import process.\n");
    out.append(SINGLE_RULE);
    out.append("\n");
    assert(final(out)@ =~= old(out)@ + instructions(fingerprint@));
}

fn append_footer(out: &mut String)
    ensures
        final(out)@ == old(out)@ + footer(),
{
    out.append("Generated by bitcoin-keygen (air-gapped system)\n");
    out.append(DOUBLE_RULE);
    assert(final(out)@ =~= old(out)@ + footer());
}

/// What a reader must be able to find in a report on `words`: the label
/// and the fingerprint as given, every word, and the title and the four
/// section headings.
pub open spec fn shows_all(
    text: Seq<char>,
    words: Seq<Seq<char>>,
    fingerprint: Seq<char>,
    label: Seq<char>,
) -> bool {
    &&& contains(text, label)
    &&& contains(text, fingerprint)
    &&& forall|i: int| 0 <= i < words.len() ==> contains(text, #[trigger] words[i])
    &&& contains(text, TITLE@)
    &&& contains(text, WARNING_HEADING@)
    &&& contains(text, WORDS_HEADING@)
    &&& contains(text, CHECKLIST_HEADING@)
    &&& contains(text, IMPORT_HEADING@)
}

/// What occurs in one of eight texts occurs in the eight written one after
/// another.
proof fn lemma_contains_in_sections(
    s1: Seq<char>,
    s2: Seq<char>,
    s3: Seq<char>,
    s4: Seq<char>,
    s5: Seq<char>,
    s6: Seq<char>,
    s7: Seq<char>,
    s8: Seq<char>,
    part: Seq<char>,
)
    requires
        contains(s1, part) || contains(s2, part) || contains(s3, part) || contains(s4, part)
            || contains(s5, part) || contains(s6, part) || contains(s7, part) || contains(
            s8,
            part,
        ),
    ensures
        contains(s1 + s2 + s3 + s4 + s5 + s6 + s7 + s8, part),
{
    let empty = Seq::<char>::empty();
    let all = s1 + s2 + s3 + s4 + s5 + s6 + s7 + s8;
    if contains(s1, part) {
        lemma_contains_widen(empty, s1, s2 + s3 + s4 + s5 + s6 + s7 + s8, part);
        assert(empty + s1 + (s2 + s3 + s4 + s5 + s6 + s7 + s8) =~= all);
    } else if contains(s2, part) {
        lemma_contains_widen(s1, s2, s3 + s4 + s5 + s6 + s7 + s8, part);
        assert(s1 + s2 + (s3 + s4 + s5 + s6 + s7 + s8) =~= all);
    } else if contains(s3, part) {
        lemma_contains_widen(s1 + s2, s3, s4 + s5 + s6 + s7 + s8, part);
        assert(s1 + s2 + s3 + (s4 + s5 + s6 + s7 + s8) =~= all);
    } else if contains(s4, part) {
        lemma_contains_widen(s1 + s2 + s3, s4, s5 + s6 + s7 + s8, part);
        assert(s1 + s2 + s3 + s4 + (s5 + s6 + s7 + s8) =~= all);
    } else if contains(s5, part) {
        lemma_contains_widen(s1 + s2 + s3 + s4, s5, s6 + s7 + s8, part);
        assert(s1 + s2 + s3 + s4 + s5 + (s6 + s7 + s8) =~= all);
    } else if contains(s6, part) {
        lemma_contains_widen(s1 + s2 + s3 + s4 + s5, s6, s7 + s8, part);
        assert(s1 + s2 + s3 + s4 + s5 + s6 + (s7 + s8) =~= all);
    } else if contains(s7, part) {
        lemma_contains_widen(s1 + s2 + s3 + s4 + s5 + s6, s7, s8, part);
    } else {
        lemma_contains_widen(s1 + s2 + s3 + s4 + s5 + s6 + s7, s8, empty, part);
        assert(s1 + s2 + s3 + s4 + s5 + s6 + s7 + s8 + empty =~= all);
    }
}

/// The banner shows the title.
proof fn lemma_banner_shows_title()
    ensures
        contains(banner(), TITLE@),
{
    let head = DOUBLE_RULE@ + "           "@;
    let rest = "\n"@ + DOUBLE_RULE@ + "\n"@;
    lemma_contains_between(head, TITLE@, rest);
    assert(head + TITLE@ + rest =~= banner());
}

/// The metadata block shows the label and the fingerprint.
proof fn lemma_metadata_shows(label: Seq<char>, timestamp: Seq<char>, fingerprint: Seq<char>)
    ensures
        contains(metadata(label, timestamp, fingerprint), label),
        contains(metadata(label, timestamp, fingerprint), fingerprint),
{
    let block = metadata(label, timestamp, fingerprint);
    let note = "\n"@ + "Word Count: 24 words (256 bits entropy)\n"@
        + "Network: Bitcoin Mainnet\n\n"@;
    let middle = "\n"@ + "Generated: "@ + timestamp + "\n"@ + "Fingerprint: "@;
    assert(contains(block, label)) by {
        lemma_contains_between("Label: "@, label, middle + fingerprint + note);
        assert("Label: "@ + label + (middle + fingerprint + note) =~= block);
    }
    assert(contains(block, fingerprint)) by {
        lemma_contains_between("Label: "@ + label + middle, fingerprint, note);
        assert("Label: "@ + label + middle + fingerprint + note =~= block);
    }
}

/// The warning shows its heading.
proof fn lemma_warning_shows_heading()
    ensures
        contains(warning(), WARNING_HEADING@),
{
    let head = "⚠️  "@;
    let rest = " ⚠️\n"@ + SINGLE_RULE@
        + "This seed phrase provides full access to your Bitcoin wallet.\n"@
        + "Store this metal plate in a secure, fireproof location.\n"@
        + "Never share this seed phrase with anyone.\n"@ + SINGLE_RULE@ + "\n"@;
    lemma_contains_between(head, WARNING_HEADING@, rest);
    assert(head + WARNING_HEADING@ + rest =~= warning());
}

/// The grid section shows its heading.
proof fn lemma_grid_section_shows_heading(words: Seq<Seq<char>>)
    ensures
        contains(grid_section(words), WORDS_HEADING@),
{
    let empty = Seq::<char>::empty();
    let rest = " (Punch these in order):\n"@ + DOUBLE_RULE@ + "\n"@ + word_grid(words) + "\n"@;
    lemma_contains_between(empty, WORDS_HEADING@, rest);
    assert(empty + WORDS_HEADING@ + rest =~= grid_section(words));
}

/// The checklist shows its heading.
proof fn lemma_checklist_shows_heading()
    ensures
        contains(checklist(), CHECKLIST_HEADING@),
{
    let rest = ":\n"@ + SINGLE_RULE@ + "□ All 24 words are clearly readable\n"@
        + "□ Words are in correct numerical order (1-24)\n"@
        + "□ Fingerprint matches hardware wallet device\n"@
        + "□ Metal plate is stored in secure location\n"@
        + "□ Backup copy exists in separate location\n"@ + DOUBLE_RULE@ + "\n"@;
    lemma_contains_between(DOUBLE_RULE@, CHECKLIST_HEADING@, rest);
    assert(DOUBLE_RULE@ + CHECKLIST_HEADING@ + rest =~= checklist());
}

/// The single column shows every word.
proof fn lemma_column_section_shows_word(words: Seq<Seq<char>>, i: int)
    requires
        0 <= i < words.len(),
    ensures
        contains(column_section(words), words[i]),
{
    let head = "\n\nSINGLE COLUMN FORMAT (Alternative punching reference):\n"@ + DOUBLE_RULE@;
    let rest = DOUBLE_RULE@ + "\n"@;
    lemma_numbered_lines_contain(words, words.len() as int, i);
    lemma_contains_widen(head, simple_list(words), rest, words[i]);
    assert(head + simple_list(words) + rest =~= column_section(words));
}

/// The import instructions show their heading.
proof fn lemma_instructions_show_heading(fingerprint: Seq<char>)
    ensures
        contains(instructions(fingerprint), IMPORT_HEADING@),
{
    let empty = Seq::<char>::empty();
    let rest = ":\n"@ + SINGLE_RULE@
        + "This seed phrase is compatible with all BIP39 hardware wallets\n"@
        + "(Coldcard, Trezor, Ledger, BitBox, etc.).\n\n"@ + "Example - Coldcard:\n"@
        + "1. Power on your Coldcard device\n"@
        + "2. Navigate to: Advanced > Danger Zone > Seed Functions > Import Existing\n"@
        + "3. Select '24 words' when prompted\n"@ + "4. Enter the 24 words in order (1-24)\n"@
        + "5. Verify the fingerprint matches: "@ + fingerprint + "\n"@
        + "6. Set a secure PIN code\n"@
        + "7. Test with a small transaction before storing large amounts\n\n"@
        + "For other hardware wallets, follow their specific recovery/import process.\n"@
        + SINGLE_RULE@ + "\n"@;
    lemma_contains_between(empty, IMPORT_HEADING@, rest);
    assert(empty + IMPORT_HEADING@ + rest =~= instructions(fingerprint));
}

/// Every report holds, letter for letter, the label and the fingerprint it
/// was made with, each of the words, the title of the banner and the
/// headings of the warning, the grid, the checklist and the import
/// instructions.
pub proof fn lemma_report_shows_all(
    words: Seq<Seq<char>>,
    fingerprint: Seq<char>,
    label: Seq<char>,
    timestamp: Seq<char>,
)
    ensures
        shows_all(printable_report(words, fingerprint, label, timestamp), words, fingerprint, label),
{
    let report = printable_report(words, fingerprint, label, timestamp);
    let s1 = banner();
    let s2 = metadata(label, timestamp, fingerprint);
    let s3 = warning();
    let s4 = grid_section(words);
    let s5 = checklist();
    let s6 = column_section(words);
    let s7 = instructions(fingerprint);
    let s8 = footer();
    assert(report == s1 + s2 + s3 + s4 + s5 + s6 + s7 + s8);
    lemma_banner_shows_title();
    lemma_contains_in_sections(s1, s2, s3, s4, s5, s6, s7, s8, TITLE@);
    lemma_metadata_shows(label, timestamp, fingerprint);
    lemma_contains_in_sections(s1, s2, s3, s4, s5, s6, s7, s8, label);
    lemma_contains_in_sections(s1, s2, s3, s4, s5, s6, s7, s8, fingerprint);
    lemma_warning_shows_heading();
    lemma_contains_in_sections(s1, s2, s3, s4, s5, s6, s7, s8, WARNING_HEADING@);
    lemma_grid_section_shows_heading(words);
    lemma_contains_in_sections(s1, s2, s3, s4, s5, s6, s7, s8, WORDS_HEADING@);
    lemma_checklist_shows_heading();
    lemma_contains_in_sections(s1, s2, s3, s4, s5, s6, s7, s8, CHECKLIST_HEADING@);
    lemma_instructions_show_heading(fingerprint);
    lemma_contains_in_sections(s1, s2, s3, s4, s5, s6, s7, s8, IMPORT_HEADING@);
    assert forall|i: int| 0 <= i < words.len() implies contains(report, #[trigger] words[i]) by {
        lemma_column_section_shows_word(words, i);
        lemma_contains_in_sections(s1, s2, s3, s4, s5, s6, s7, s8, words[i]);
    }
}

/// The printable report on `words`, with the fingerprint, the label and the
/// time of generation as given.
pub fn render_printable_report(
    words: &Vec<String>,
    fingerprint: &str,
    label: &str,
    timestamp: &str,
) -> (out: String)
    ensures
        out@ == printable_report(words.deep_view(), fingerprint@, label@, timestamp@),
        shows_all(out@, words.deep_view(), fingerprint@, label@),
{
    let mut out = String::new();
    append_banner(&mut out);
    append_metadata(&mut out, label, timestamp, fingerprint);
    append_warning(&mut out);
    append_grid_section(&mut out, words);
    append_checklist(&mut out);
    append_column_section(&mut out, words);
    append_instructions(&mut out, fingerprint);
    append_footer(&mut out);
    assert(out@ =~= printable_report(words.deep_view(), fingerprint@, label@, timestamp@));
    proof {
        lemma_report_shows_all(words.deep_view(), fingerprint@, label@, timestamp@);
    }
    out
}

/// The printable report on a mnemonic, stamped with the local time at which
/// it is made.
pub fn create_printable_output(mnemonic: &bip39::Mnemonic, fingerprint: &str, label: &str) -> (out:
    String)
    ensures
        exists|timestamp: Seq<char>|
            out@ == printable_report(mnemonic_words(*mnemonic), fingerprint@, label@, timestamp),
        shows_all(out@, mnemonic_words(*mnemonic), fingerprint@, label@),
{
    let words = collect_words(mnemonic);
    let timestamp = local_timestamp();
    render_printable_report(&words, fingerprint, label, timestamp.as_str())
}

} // verus!
