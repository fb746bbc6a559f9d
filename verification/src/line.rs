//! What each filter does to a single line, as functions on sequences of
//! characters, with the executable code that computes them on strings.

use vstd::prelude::*;
use vstd::std_specs::iter::IteratorSpec;
use vstd::string::*;

verus! {

/// Width of the column that holds a line number, in characters.
pub const NUMBER_WIDTH: usize = 6;

/// `String::push` of the standard library: the string afterwards is the
/// string before with `c` added at its end. Taken on trust from the
/// documentation of `String::push`.
pub assume_specification[ String::push ](s: &mut String, c: char)
    ensures
        final(s)@ == old(s)@.push(c),
;

/// A line is blank when it holds nothing but spaces: taking the spaces
/// away leaves it empty. The empty line is blank.
pub open spec fn is_blank(line: Seq<char>) -> bool {
    forall|i: int| 0 <= i < line.len() ==> line[i] == ' '
}

/// The character for one decimal digit.
pub open spec fn digit(d: int) -> char
    recommends
        0 <= d < 10,
{
    (('0' as u8) + d) as char
}

/// The digits of `n` in base ten, most significant first, with no leading
/// zero except for zero itself.
pub open spec fn decimal(n: nat) -> Seq<char>
    decreases n,
{
    if n < 10 {
        seq![digit(n as int)]
    } else {
        decimal(n / 10).push(digit((n % 10) as int))
    }
}

/// `count` spaces.
pub open spec fn spaces(count: nat) -> Seq<char> {
    Seq::new(count, |i: int| ' ')
}

/// `label` moved to the right edge of a field of `width` characters. A
/// label that is wider than the field is kept whole.
pub open spec fn right_aligned(label: Seq<char>, width: nat) -> Seq<char> {
    if label.len() >= width {
        label
    } else {
        spaces((width - label.len()) as nat) + label
    }
}

/// The text put in front of a line by numbering: the label, right-aligned
/// in the number column, and two spaces.
pub open spec fn number_column(label: Seq<char>) -> Seq<char> {
    right_aligned(label, NUMBER_WIDTH as nat) + seq![' ', ' ']
}

/// How one character is written when tabs are shown.
pub open spec fn tab_shown(c: char) -> Seq<char> {
    if c == '\t' {
        seq!['^', 'I']
    } else {
        seq![c]
    }
}

/// A line with every tab replaced by `^I`.
pub open spec fn with_tabs_shown(line: Seq<char>) -> Seq<char>
    decreases line.len(),
{
    if line.len() == 0 {
        Seq::empty()
    } else {
        with_tabs_shown(line.drop_last()) + tab_shown(line.last())
    }
}

/// Whether a character belongs to ASCII.
pub open spec fn is_ascii_char(c: char) -> bool {
    c <= '\u{7f}'
}

/// How one character is written when non-printing characters are shown.
pub open spec fn nonprinting_shown(c: char) -> Seq<char> {
    if is_ascii_char(c) {
        seq![c]
    } else {
        seq!['^', '?']
    }
}

/// A line with every character outside ASCII replaced by `^?`.
pub open spec fn with_nonprinting_shown(line: Seq<char>) -> Seq<char>
    decreases line.len(),
{
    if line.len() == 0 {
        Seq::empty()
    } else {
        with_nonprinting_shown(line.drop_last()) + nonprinting_shown(line.last())
    }
}

/// Showing tabs goes piece by piece: for a line made of two parts, the
/// result is made of the results for the parts.
pub proof fn lemma_with_tabs_shown_concat(front: Seq<char>, back: Seq<char>)
    ensures
        with_tabs_shown(front + back) == with_tabs_shown(front) + with_tabs_shown(back),
    decreases back.len(),
{
    if back.len() == 0 {
        assert(front + back =~= front);
        assert(with_tabs_shown(front) + with_tabs_shown(back) =~= with_tabs_shown(front));
    } else {
        lemma_with_tabs_shown_concat(front, back.drop_last());
        assert((front + back).drop_last() =~= front + back.drop_last());
        assert((front + back).last() == back.last());
        let middle = with_tabs_shown(back.drop_last());
        let end = tab_shown(back.last());
        assert(with_tabs_shown(front) + (middle + end) =~= (with_tabs_shown(front) + middle) + end);
    }
}

/// What stands for one character when tabs are shown holds no tab, so
/// showing tabs in it changes nothing.
pub proof fn lemma_tab_shown_is_fixed(c: char)
    ensures
        with_tabs_shown(tab_shown(c)) == tab_shown(c),
{
    reveal_with_fuel(with_tabs_shown, 3);
    let shown = tab_shown(c);
    if c == '\t' {
        assert(shown.drop_last() =~= seq!['^']);
        assert(shown.drop_last().drop_last() =~= Seq::<char>::empty());
        assert(with_tabs_shown(shown) =~= shown);
    } else {
        assert(shown.drop_last() =~= Seq::<char>::empty());
        assert(with_tabs_shown(shown) =~= shown);
    }
}

/// Showing tabs twice gives what showing them once gives: the `^I` that
/// stands for a tab is not rewritten again.
pub proof fn lemma_with_tabs_shown_idempotent(line: Seq<char>)
    ensures
        with_tabs_shown(with_tabs_shown(line)) == with_tabs_shown(line),
    decreases line.len(),
{
    if line.len() > 0 {
        lemma_with_tabs_shown_idempotent(line.drop_last());
        lemma_with_tabs_shown_concat(with_tabs_shown(line.drop_last()), tab_shown(line.last()));
        lemma_tab_shown_is_fixed(line.last());
    }
}

/// A character put at the end of a line is rewritten on its own.
pub proof fn lemma_with_tabs_shown_push(line: Seq<char>, c: char)
    ensures
        with_tabs_shown(line.push(c)) == with_tabs_shown(line) + tab_shown(c),
{
    assert(line.push(c).drop_last() =~= line);
}

/// A character put at the end of a line is rewritten on its own.
pub proof fn lemma_with_nonprinting_shown_push(line: Seq<char>, c: char)
    ensures
        with_nonprinting_shown(line.push(c)) == with_nonprinting_shown(line) + nonprinting_shown(
            c,
        ),
{
    assert(line.push(c).drop_last() =~= line);
}

/// The number column is at least six characters wide and grows with a
/// label that needs more. It holds spaces, the label at its right edge,
/// and two spaces after it.
pub proof fn lemma_number_column_shape(label: Seq<char>)
    ensures
        label.len() >= NUMBER_WIDTH ==> number_column(label).len() == label.len() + 2,
        label.len() < NUMBER_WIDTH ==> number_column(label).len() == NUMBER_WIDTH + 2,
        number_column(label) == spaces((number_column(label).len() - 2 - label.len()) as nat)
            + label + spaces(2),
{
    assert(spaces(2) =~= seq![' ', ' ']);
    if label.len() >= NUMBER_WIDTH {
        assert(spaces(0) + label =~= label);
    }
}

/// Tells whether a line is blank.
pub fn is_blank_line(line: &str) -> (blank: bool)
    ensures
        blank == is_blank(line@),
{
    broadcast use vstd::string::group_string_axioms;

    for c in it: line.chars()
        invariant
            it.seq() == line@,
            forall|i: int| 0 <= i < it.index() ==> line@[i] == ' ',
    {
        if c != ' ' {
            return false;
        }
    }
    true
}

/// Adds the decimal digits of `n` at the end of `text`.
pub fn push_decimal(text: &mut String, n: u64)
    ensures
        final(text)@ == old(text)@ + decimal(n as nat),
    decreases n,
{
    if n >= 10 {
        push_decimal(text, n / 10);
    }
    let d: u8 = (n % 10) as u8;
    text.push(('0' as u8 + d) as char);
}

/// Builds the text that numbering puts in front of a line, from the label
/// that goes into the number column.
pub fn number_prefix(label: &str) -> (prefix: String)
    ensures
        prefix@ == number_column(label@),
{
    let len: usize = label.unicode_len();
    let mut prefix = String::new();
    let mut width: usize = len;
    while width < NUMBER_WIDTH
        invariant
            len == label@.len(),
            len <= width,
            len < NUMBER_WIDTH ==> width <= NUMBER_WIDTH,
            len >= NUMBER_WIDTH ==> width == len,
            prefix@ == spaces((width - len) as nat),
        decreases NUMBER_WIDTH - width,
    {
        prefix.push(' ');
        width = width + 1;
    }
    prefix.append(label);
    assert(prefix@ =~= right_aligned(label@, NUMBER_WIDTH as nat));
    prefix.push(' ');
    prefix.push(' ');
    assert(prefix@ =~= number_column(label@));
    prefix
}

/// Rewrites a line with every tab shown as `^I`.
pub fn show_tabs_line(line: &str) -> (shown: String)
    ensures
        shown@ == with_tabs_shown(line@),
{
    broadcast use vstd::string::group_string_axioms;

    let mut shown = String::new();
    for c in it: line.chars()
        invariant
            it.seq() == line@,
            shown@ == with_tabs_shown(line@.take(it.index())),
    {
        assert(line@.take(it.index() + 1).drop_last() == line@.take(it.index()));
        if c == '\t' {
            shown.push('^');
            shown.push('I');
        } else {
            shown.push(c);
        }
    }
    assert(line@.take(line@.len() as int) == line@);
    shown
}

/// Rewrites a line with every character outside ASCII shown as `^?`.
pub fn show_nonprinting_line(line: &str) -> (shown: String)
    ensures
        shown@ == with_nonprinting_shown(line@),
{
    broadcast use vstd::string::group_string_axioms;

    let mut shown = String::new();
    for c in it: line.chars()
        invariant
            it.seq() == line@,
            shown@ == with_nonprinting_shown(line@.take(it.index())),
    {
        assert(line@.take(it.index() + 1).drop_last() == line@.take(it.index()));
        if c <= '\u{7f}' {
            shown.push(c);
        } else {
            shown.push('^');
            shown.push('?');
        }
    }
    assert(line@.take(line@.len() as int) == line@);
    shown
}

} // verus!
