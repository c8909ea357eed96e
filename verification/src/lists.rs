//! The two plain word lists: the numbered list for transcription by hand
//! and the bare list, one word per line, for import tooling.

use crate::phrase::{collect_words, lemma_valid_phrase_words, mnemonic_words, valid_phrase};
use crate::text::{
    append_right_aligned, contains, decimal, digit_char, free_of, lemma_contains_between,
    lemma_contains_widen, lemma_decimal_digits, right_aligned,
};
use vstd::prelude::*;

verus! {

/// The number shown before the word at position `i`: counting starts at
/// one, and the number is right-aligned in two columns.
pub open spec fn index_label(i: int) -> Seq<char> {
    right_aligned(decimal((i + 1) as nat), 2)
}

/// The word at position `i` with its number: the label, a full stop, a
/// space and the word.
pub open spec fn numbered_entry(i: int, word: Seq<char>) -> Seq<char> {
    index_label(i) + ". "@ + word
}

/// The numbered entries of the first `n` words, each ended by a line feed.
pub open spec fn numbered_lines(words: Seq<Seq<char>>, n: int) -> Seq<char>
    decreases n,
{
    if n <= 0 {
        Seq::empty()
    } else {
        numbered_lines(words, n - 1) + numbered_entry(n - 1, words[n - 1]) + "\n"@
    }
}

/// The numbered list: one line per word, nothing else.
pub open spec fn simple_list(words: Seq<Seq<char>>) -> Seq<char> {
    numbered_lines(words, words.len() as int)
}

/// The first `n` words with a line feed between neighbours and none at
/// either end.
pub open spec fn joined_words(words: Seq<Seq<char>>, n: int) -> Seq<char>
    decreases n,
{
    if n <= 0 {
        Seq::empty()
    } else if n == 1 {
        words[0]
    } else {
        joined_words(words, n - 1) + "\n"@ + words[n - 1]
    }
}

/// The bare list: the words joined by line feeds, without numbers.
pub open spec fn import_list(words: Seq<Seq<char>>) -> Seq<char> {
    joined_words(words, words.len() as int)
}

/// The pieces of `text` between occurrences of `sep`, in order. A text
/// without `sep` is one piece; a separator at either end borders an empty
/// piece. The text is read from left to right: a separator opens a new
/// piece, any other character extends the piece that is open.
pub open spec fn split(text: Seq<char>, sep: char) -> Seq<Seq<char>>
    decreases text.len(),
{
    if text.len() == 0 {
        seq![Seq::empty()]
    } else {
        let before = split(text.drop_last(), sep);
        if text.last() == sep {
            before.push(Seq::empty())
        } else {
            before.drop_last().push(before.last().push(text.last()))
        }
    }
}

/// The lines of `text`: its pieces between line feeds, where a line feed at
/// the very end closes the last line instead of opening an empty one.
pub open spec fn lines(text: Seq<char>) -> Seq<Seq<char>> {
    let pieces = split(text, '\n');
    if pieces.last().len() == 0 {
        pieces.drop_last()
    } else {
        pieces
    }
}

/// Splitting gives at least one piece.
pub proof fn lemma_split_some(text: Seq<char>, sep: char)
    ensures
        split(text, sep).len() >= 1,
    decreases text.len(),
{
    if text.len() > 0 {
        lemma_split_some(text.drop_last(), sep);
    }
}

/// Text without a separator, written after `text`, extends its last piece.
pub proof fn lemma_split_extend(text: Seq<char>, more: Seq<char>, sep: char)
    requires
        free_of(more, sep),
    ensures
        split(text, sep).len() >= 1,
        split(text + more, sep) == split(text, sep).drop_last().push(
            split(text, sep).last() + more,
        ),
    decreases more.len(),
{
    lemma_split_some(text, sep);
    let pieces = split(text, sep);
    if more.len() == 0 {
        assert(text + more =~= text);
        assert(pieces.last() + more =~= pieces.last());
        assert(pieces.drop_last().push(pieces.last()) =~= pieces);
    } else {
        let shorter = more.drop_last();
        lemma_split_extend(text, shorter, sep);
        assert((text + more).drop_last() =~= text + shorter);
        assert((text + more).last() == more.last());
        let before = split(text + shorter, sep);
        assert(before.drop_last() =~= pieces.drop_last());
        assert(before.last().push(more.last()) =~= pieces.last() + more);
    }
}

/// A separator and then text without one add exactly one piece.
pub proof fn lemma_split_next(text: Seq<char>, more: Seq<char>, sep: char)
    requires
        free_of(more, sep),
    ensures
        split(text + seq![sep] + more, sep) == split(text, sep).push(more),
{
    let opened = text + seq![sep];
    assert(opened.drop_last() =~= text);
    assert(opened.last() == sep);
    lemma_split_extend(opened, more, sep);
    let pieces = split(opened, sep);
    assert(pieces.drop_last() =~= split(text, sep));
    assert(pieces.last() + more =~= more);
}

/// The label of a position below one hundred fills exactly two columns: a
/// space and one digit up to nine, two digits from ten on. It never holds a
/// line feed.
pub proof fn lemma_index_label(i: int)
    requires
        0 <= i,
    ensures
        free_of(index_label(i), '\n'),
        i < 99 ==> index_label(i).len() == 2,
        i < 9 ==> index_label(i) == seq![' ', digit_char((i + 1) as nat)],
        9 <= i < 99 ==> index_label(i) == seq![
            digit_char(((i + 1) / 10) as nat),
            digit_char(((i + 1) % 10) as nat),
        ],
{
    let n = (i + 1) as nat;
    lemma_decimal_digits(n);
    if i < 9 {
        assert(index_label(i) =~= seq![' ', digit_char(n)]);
    } else if i < 99 {
        lemma_decimal_digits(n / 10);
        assert(index_label(i) =~= seq![digit_char(n / 10), digit_char(n % 10)]);
    }
}

/// A numbered entry holds no line feed unless its word does.
pub proof fn lemma_entry_one_line(i: int, word: Seq<char>)
    requires
        0 <= i,
        free_of(word, '\n'),
    ensures
        free_of(numbered_entry(i, word), '\n'),
{
    lemma_index_label(i);
    reveal_strlit(". ");
}

/// The numbered list of words without line feeds has exactly one line per
/// word, and line `i` is the numbered entry of word `i`: its number, counted
/// from one and right-aligned in two columns, a full stop, a space and the
/// word itself.
pub proof fn lemma_simple_list_lines(words: Seq<Seq<char>>)
    requires
        forall|i: int| 0 <= i < words.len() ==> free_of(#[trigger] words[i], '\n'),
    ensures
        lines(simple_list(words)).len() == words.len(),
        forall|i: int|
            0 <= i < words.len() ==> #[trigger] lines(simple_list(words))[i] == numbered_entry(
                i,
                words[i],
            ),
{
    lemma_numbered_lines_split(words, words.len() as int);
}

/// Splitting the first `n` numbered lines at line feeds gives the `n`
/// entries and one empty piece after the last line feed.
proof fn lemma_numbered_lines_split(words: Seq<Seq<char>>, n: int)
    requires
        0 <= n <= words.len(),
        forall|i: int| 0 <= i < words.len() ==> free_of(#[trigger] words[i], '\n'),
    ensures
        split(numbered_lines(words, n), '\n').len() == n + 1,
        split(numbered_lines(words, n), '\n')[n].len() == 0,
        forall|i: int|
            0 <= i < n ==> #[trigger] split(numbered_lines(words, n), '\n')[i] == numbered_entry(
                i,
                words[i],
            ),
    decreases n,
{
    if n > 0 {
        lemma_numbered_lines_split(words, n - 1);
        let before = numbered_lines(words, n - 1);
        let entry = numbered_entry(n - 1, words[n - 1]);
        lemma_entry_one_line(n - 1, words[n - 1]);
        lemma_split_extend(before, entry, '\n');
        reveal_strlit("\n");
        let written = before + entry;
        assert(numbered_lines(words, n) =~= written.push('\n'));
        assert(written.push('\n').drop_last() =~= written);
        assert(split(before, '\n').last() + entry =~= entry);
    }
}

/// The bare list of at least one word, none holding a line feed, splits at
/// line feeds into exactly the words, in their order.
pub proof fn lemma_import_list_split(words: Seq<Seq<char>>)
    requires
        words.len() >= 1,
        forall|i: int| 0 <= i < words.len() ==> free_of(#[trigger] words[i], '\n'),
    ensures
        split(import_list(words), '\n') == words,
{
    lemma_joined_words_split(words, words.len() as int);
    assert(words.take(words.len() as int) =~= words);
}

/// Splitting the first `n` joined words gives back those words.
proof fn lemma_joined_words_split(words: Seq<Seq<char>>, n: int)
    requires
        1 <= n <= words.len(),
        forall|i: int| 0 <= i < words.len() ==> free_of(#[trigger] words[i], '\n'),
    ensures
        split(joined_words(words, n), '\n') == words.take(n),
    decreases n,
{
    let empty = Seq::<char>::empty();
    if n == 1 {
        lemma_split_extend(empty, words[0], '\n');
        assert(empty + words[0] =~= words[0]);
        assert(split(empty, '\n') =~= seq![empty]);
        assert(split(words[0], '\n') =~= words.take(1));
    } else {
        lemma_joined_words_split(words, n - 1);
        reveal_strlit("\n");
        assert("\n"@ =~= seq!['\n']);
        lemma_split_next(joined_words(words, n - 1), words[n - 1], '\n');
        assert(words.take(n - 1).push(words[n - 1]) =~= words.take(n));
    }
}

/// Every word occurs in the numbered lines that cover it.
pub proof fn lemma_numbered_lines_contain(words: Seq<Seq<char>>, n: int, i: int)
    requires
        0 <= i < n <= words.len(),
    ensures
        contains(numbered_lines(words, n), words[i]),
    decreases n,
{
    let before = numbered_lines(words, n - 1);
    let entry = numbered_entry(n - 1, words[n - 1]);
    let empty = Seq::<char>::empty();
    if i == n - 1 {
        let head = before + index_label(i) + ". "@;
        lemma_contains_between(head, words[i], "\n"@);
        assert(head + words[i] + "\n"@ =~= numbered_lines(words, n));
    } else {
        lemma_numbered_lines_contain(words, n - 1, i);
        lemma_contains_widen(empty, before, entry + "\n"@, words[i]);
        assert(empty + before + (entry + "\n"@) =~= numbered_lines(words, n));
    }
}

/// Appends the numbered list of `words` to `out`.
pub fn append_numbered_lines(out: &mut String, words: &Vec<String>)
    ensures
        final(out)@ == old(out)@ + simple_list(words.deep_view()),
{
    let ghost texts = words.deep_view();
    let mut i: usize = 0;
    while i < words.len()
        invariant
            i <= words.len(),
            texts == words.deep_view(),
            out@ == old(out)@ + numbered_lines(texts, i as int),
        decreases words.len() - i,
    {
        let ghost before = out@;
        append_right_aligned(out, i + 1, 2);
        out.append(". ");
        out.append(words[i].as_str());
        out.append("\n");
        assert(out@ =~= before + numbered_entry(i as int, texts[i as int]) + "\n"@);
        i = i + 1;
        assert(out@ =~= old(out)@ + numbered_lines(texts, i as int));
    }
    assert(final(out)@ =~= old(out)@ + simple_list(texts));
}

/// The numbered list of `words`: a line `"{index:2}. {word}"` for each word,
/// the index counted from one.
pub fn render_simple_list(words: &Vec<String>) -> (out: String)
    ensures
        out@ == simple_list(words.deep_view()),
        (forall|i: int| 0 <= i < words.len() ==> free_of(#[trigger] words.deep_view()[i], '\n'))
            ==> lines(out@) == Seq::new(
            words.len() as nat,
            |i: int| numbered_entry(i, words.deep_view()[i]),
        ),
{
    let mut out = String::new();
    append_numbered_lines(&mut out, words);
    assert(out@ =~= simple_list(words.deep_view()));
    proof {
        let texts = words.deep_view();
        if forall|i: int| 0 <= i < texts.len() ==> free_of(#[trigger] texts[i], '\n') {
            lemma_simple_list_lines(texts);
            assert(lines(out@) =~= Seq::new(
                words.len() as nat,
                |i: int| numbered_entry(i, texts[i]),
            ));
        }
    }
    out
}

/// The bare list of `words`: the words joined by line feeds.
pub fn render_import_list(words: &Vec<String>) -> (out: String)
    ensures
        out@ == import_list(words.deep_view()),
        words.len() >= 1 && (forall|i: int|
            0 <= i < words.len() ==> free_of(#[trigger] words.deep_view()[i], '\n')) ==> split(
            out@,
            '\n',
        ) == words.deep_view(),
{
    let ghost texts = words.deep_view();
    let mut out = String::new();
    let mut i: usize = 0;
    while i < words.len()
        invariant
            i <= words.len(),
            texts == words.deep_view(),
            out@ == joined_words(texts, i as int),
        decreases words.len() - i,
    {
        if i > 0 {
            out.append("\n");
        }
        out.append(words[i].as_str());
        i = i + 1;
        assert(out@ =~= joined_words(texts, i as int));
    }
    proof {
        if texts.len() >= 1 && forall|i: int|
            0 <= i < texts.len() ==> free_of(#[trigger] texts[i], '\n') {
            lemma_import_list_split(texts);
        }
    }
    out
}

/// The numbered word list of a mnemonic, for copying by hand. For a
/// well-formed phrase it has twenty-four lines, and line `i` is the numbered
/// entry of word `i`.
pub fn create_simple_word_list(mnemonic: &bip39::Mnemonic) -> (out: String)
    ensures
        out@ == simple_list(mnemonic_words(*mnemonic)),
        valid_phrase(mnemonic_words(*mnemonic)) ==> lines(out@) == Seq::new(
            24,
            |i: int| numbered_entry(i, mnemonic_words(*mnemonic)[i]),
        ),
{
    let words = collect_words(mnemonic);
    proof {
        if valid_phrase(mnemonic_words(*mnemonic)) {
            lemma_valid_phrase_words(mnemonic_words(*mnemonic));
        }
    }
    render_simple_list(&words)
}

/// The bare word list of a mnemonic, as recovery tooling reads it. For a
/// well-formed phrase it splits at line feeds into the twenty-four words.
pub fn create_import_word_list(mnemonic: &bip39::Mnemonic) -> (out: String)
    ensures
        out@ == import_list(mnemonic_words(*mnemonic)),
        valid_phrase(mnemonic_words(*mnemonic)) ==> split(out@, '\n') == mnemonic_words(
            *mnemonic,
        ),
{
    let words = collect_words(mnemonic);
    proof {
        if valid_phrase(mnemonic_words(*mnemonic)) {
            lemma_valid_phrase_words(mnemonic_words(*mnemonic));
        }
    }
    render_import_list(&words)
}

} // verus!
