//! Text as sequences of characters: decimal numbers, padding to a width,
//! and the question whether one text occurs inside another.

use vstd::prelude::*;

verus! {

/// The ten decimal digits, in order.
pub open spec fn digits() -> Seq<char> {
    "0123456789"@
}

/// The character that stands for the digit `d`.
pub open spec fn digit_char(d: nat) -> char
    recommends
        d < 10,
{
    digits()[d as int]
}

/// The decimal numeral of `n`, most significant digit first, without
/// leading zeros.
pub open spec fn decimal(n: nat) -> Seq<char>
    decreases n,
{
    if n < 10 {
        seq![digit_char(n)]
    } else {
        decimal(n / 10).push(digit_char(n % 10))
    }
}

/// `n` spaces; none when `n` is negative.
pub open spec fn spaces(n: int) -> Seq<char> {
    Seq::new(
        if n > 0 {
            n as nat
        } else {
            0
        },
        |i: int| ' ',
    )
}

/// `s` moved to the right edge of a field of `width` characters. A text
/// longer than the field is kept whole.
pub open spec fn right_aligned(s: Seq<char>, width: nat) -> Seq<char> {
    spaces(width - s.len()) + s
}

/// `s` at the left edge of a field of `width` characters, filled up with
/// spaces. A text longer than the field is kept whole.
pub open spec fn left_aligned(s: Seq<char>, width: nat) -> Seq<char> {
    s + spaces(width - s.len())
}

/// `part` occurs in `text` as a contiguous run of characters.
pub open spec fn contains(text: Seq<char>, part: Seq<char>) -> bool {
    exists|at: int| occurs_at(text, part, at)
}

/// `part` occurs in `text` at position `at`.
pub open spec fn occurs_at(text: Seq<char>, part: Seq<char>, at: int) -> bool {
    &&& 0 <= at
    &&& at + part.len() <= text.len()
    &&& text.subrange(at, at + part.len()) == part
}

/// No character of `s` is `c`.
pub open spec fn free_of(s: Seq<char>, c: char) -> bool {
    forall|i: int| 0 <= i < s.len() ==> s[i] != c
}

/// A text occurs in whatever is written around it.
pub proof fn lemma_contains_between(before: Seq<char>, part: Seq<char>, after: Seq<char>)
    ensures
        contains(before + part + after, part),
{
    let text = before + part + after;
    let at = before.len() as int;
    assert(text.subrange(at, at + part.len()) =~= part);
    assert(occurs_at(text, part, at));
}

/// What occurs in a text still occurs after the text is extended on both
/// sides.
pub proof fn lemma_contains_widen(
    before: Seq<char>,
    text: Seq<char>,
    after: Seq<char>,
    part: Seq<char>,
)
    requires
        contains(text, part),
    ensures
        contains(before + text + after, part),
{
    let at = choose|at: int| occurs_at(text, part, at);
    let whole = before + text + after;
    let moved = before.len() as int + at;
    assert(whole.subrange(moved, moved + part.len()) =~= text.subrange(at, at + part.len()));
    assert(occurs_at(whole, part, moved));
}

/// A decimal numeral is made of digits only, and of at least one.
pub proof fn lemma_decimal_digits(n: nat)
    ensures
        decimal(n).len() >= 1,
        n < 10 ==> decimal(n).len() == 1,
        10 <= n < 100 ==> decimal(n).len() == 2,
        forall|i: int| 0 <= i < decimal(n).len() ==> '0' <= #[trigger] decimal(n)[i] <= '9',
    decreases n,
{
    reveal_strlit("0123456789");
    if n >= 10 {
        lemma_decimal_digits(n / 10);
    }
}

/// The text of one decimal digit.
fn digit_text(d: usize) -> (s: &'static str)
    requires
        d < 10,
    ensures
        s@ == seq![digit_char(d as nat)],
{
    let all = "0123456789";
    proof {
        reveal_strlit("0123456789");
    }
    let s = all.substring_ascii(d, d + 1);
    assert(s@ =~= seq![digit_char(d as nat)]);
    s
}

/// Appends the decimal numeral of `n` to `out`.
pub fn append_decimal(out: &mut String, n: usize)
    ensures
        final(out)@ == old(out)@ + decimal(n as nat),
    decreases n,
{
    if n >= 10 {
        append_decimal(out, n / 10);
    }
    out.append(digit_text(n % 10));
    assert(final(out)@ =~= old(out)@ + decimal(n as nat));
}

/// Appends `n` spaces to `out`.
pub fn append_spaces(out: &mut String, n: usize)
    ensures
        final(out)@ == old(out)@ + spaces(n as int),
{
    let mut done: usize = 0;
    while done < n
        invariant
            done <= n,
            out@ == old(out)@ + spaces(done as int),
        decreases n - done,
    {
        proof {
            reveal_strlit(" ");
        }
        out.append(" ");
        done = done + 1;
        assert(out@ =~= old(out)@ + spaces(done as int));
    }
}

/// Appends the decimal numeral of `n`, moved to the right edge of a field
/// of `width` characters.
pub fn append_right_aligned(out: &mut String, n: usize, width: usize)
    ensures
        final(out)@ == old(out)@ + right_aligned(decimal(n as nat), width as nat),
{
    let mut numeral = String::new();
    append_decimal(&mut numeral, n);
    assert(numeral@ =~= decimal(n as nat));
    let len = numeral.as_str().unicode_len();
    if len < width {
        append_spaces(out, width - len);
    }
    out.append(numeral.as_str());
    assert(final(out)@ =~= old(out)@ + right_aligned(decimal(n as nat), width as nat));
}

/// Appends `s`, filled up with spaces to a field of `width` characters.
pub fn append_left_aligned(out: &mut String, s: &str, width: usize)
    ensures
        final(out)@ == old(out)@ + left_aligned(s@, width as nat),
{
    out.append(s);
    let len = s.unicode_len();
    if len < width {
        append_spaces(out, width - len);
    }
    assert(final(out)@ =~= old(out)@ + left_aligned(s@, width as nat));
}

} // verus!
