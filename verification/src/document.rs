//! What each filter does to a whole document. A document is a sequence of
//! lines, a line a sequence of characters.

use vstd::prelude::*;
use crate::line::{
    decimal, is_blank, lemma_number_column_shape, lemma_with_nonprinting_shown_push,
    lemma_with_tabs_shown_idempotent, lemma_with_tabs_shown_push, nonprinting_shown,
    number_column, spaces, tab_shown, with_nonprinting_shown, with_tabs_shown,
};
use crate::options::Options;

verus! {

/// The lines held by a vector of strings, as sequences of characters.
pub open spec fn lines_of(lines: Seq<String>) -> Seq<Seq<char>> {
    Seq::new(lines.len(), |i: int| lines[i]@)
}

/// The document with runs of blank lines squeezed. Going through the
/// lines from the top, a blank line is left out if the last line kept
/// before it is blank too; every other line is kept, in its place. The
/// first line has no line before it and is always kept.
pub open spec fn squeezed(lines: Seq<Seq<char>>) -> Seq<Seq<char>>
    decreases lines.len(),
{
    if lines.len() == 0 {
        lines
    } else {
        let kept = squeezed(lines.drop_last());
        if kept.len() > 0 && is_blank(kept.last()) && is_blank(lines.last()) {
            kept
        } else {
            kept.push(lines.last())
        }
    }
}

/// Whether `part` is what is left of `whole` after some lines were taken
/// out, the others staying in their order.
pub open spec fn is_left_of(part: Seq<Seq<char>>, whole: Seq<Seq<char>>) -> bool
    decreases whole.len(),
{
    if part.len() == 0 {
        true
    } else if whole.len() == 0 {
        false
    } else {
        ||| part.last() == whole.last() && is_left_of(part.drop_last(), whole.drop_last())
        ||| is_left_of(part, whole.drop_last())
    }
}

/// Whether numbering gives this line a number. With `skip_empty`, a line
/// that holds no character at all gets none.
pub open spec fn is_counted(line: Seq<char>, skip_empty: bool) -> bool {
    !(skip_empty && line.len() == 0)
}

/// How many of the first `upto` lines get a number.
pub open spec fn counted(lines: Seq<Seq<char>>, skip_empty: bool, upto: int) -> nat
    decreases upto,
{
    if upto <= 0 {
        0
    } else {
        counted(lines, skip_empty, upto - 1) + if is_counted(lines[upto - 1], skip_empty) {
            1nat
        } else {
            0nat
        }
    }
}

/// The number that numbering gives to line `i`: one more than the count
/// of numbered lines before it.
pub open spec fn line_number(lines: Seq<Seq<char>>, skip_empty: bool, i: int) -> nat {
    counted(lines, skip_empty, i) + 1
}

/// Line `i` after numbering: its number in the number column, or an empty
/// number column if it gets no number, in front of the line.
pub open spec fn numbered_line(lines: Seq<Seq<char>>, skip_empty: bool, i: int) -> Seq<char> {
    if is_counted(lines[i], skip_empty) {
        number_column(decimal(line_number(lines, skip_empty, i))) + lines[i]
    } else {
        number_column(Seq::empty()) + lines[i]
    }
}

/// The document with every line numbered.
pub open spec fn numbered(lines: Seq<Seq<char>>, skip_empty: bool) -> Seq<Seq<char>> {
    Seq::new(lines.len(), |i: int| numbered_line(lines, skip_empty, i))
}

/// The document with `$` added at the end of every line.
pub open spec fn ends_marked(lines: Seq<Seq<char>>) -> Seq<Seq<char>> {
    Seq::new(lines.len(), |i: int| lines[i].push('$'))
}

/// The document with tabs shown in every line.
pub open spec fn tabs_marked(lines: Seq<Seq<char>>) -> Seq<Seq<char>> {
    Seq::new(lines.len(), |i: int| with_tabs_shown(lines[i]))
}

/// The document with characters outside ASCII shown in every line.
pub open spec fn nonprinting_marked(lines: Seq<Seq<char>>) -> Seq<Seq<char>> {
    Seq::new(lines.len(), |i: int| with_nonprinting_shown(lines[i]))
}

/// The squeeze filter under the given options.
pub open spec fn squeeze_stage(opt: Options, lines: Seq<Seq<char>>) -> Seq<Seq<char>> {
    if opt.squeezes() {
        squeezed(lines)
    } else {
        lines
    }
}

/// The numbering filter under the given options.
pub open spec fn number_stage(opt: Options, lines: Seq<Seq<char>>) -> Seq<Seq<char>> {
    if opt.numbers() {
        numbered(lines, opt.skips_empty())
    } else {
        lines
    }
}

/// The end-marking filter under the given options.
pub open spec fn ends_stage(opt: Options, lines: Seq<Seq<char>>) -> Seq<Seq<char>> {
    if opt.marks_ends() {
        ends_marked(lines)
    } else {
        lines
    }
}

/// The tab filter under the given options.
pub open spec fn tabs_stage(opt: Options, lines: Seq<Seq<char>>) -> Seq<Seq<char>> {
    if opt.marks_tabs() {
        tabs_marked(lines)
    } else {
        lines
    }
}

/// The non-printing filter under the given options.
pub open spec fn nonprinting_stage(opt: Options, lines: Seq<Seq<char>>) -> Seq<Seq<char>> {
    if opt.marks_nonprinting() {
        nonprinting_marked(lines)
    } else {
        lines
    }
}

/// The whole pipeline: squeeze, number, mark ends, show tabs, show
/// non-printing characters, in this order.
pub open spec fn formatted(opt: Options, lines: Seq<Seq<char>>) -> Seq<Seq<char>> {
    nonprinting_stage(
        opt,
        tabs_stage(opt, ends_stage(opt, number_stage(opt, squeeze_stage(opt, lines)))),
    )
}

/// The options with end marking switched off and every other filter as
/// it was.
pub open spec fn without_ends(opt: Options) -> Options {
    Options {
        show_all: false,
        non_print_and_show_ends: false,
        show_ends: false,
        show_tabs: opt.marks_tabs(),
        non_printing: opt.marks_nonprinting(),
        ..opt
    }
}

/// With no filter switched on, the document comes out as it went in, line
/// for line.
pub proof fn lemma_plain_keeps_document(opt: Options, lines: Seq<Seq<char>>)
    requires
        opt.is_plain(),
    ensures
        formatted(opt, lines) == lines,
{
}

/// No filter adds a line, and only squeezing takes lines away.
pub proof fn lemma_formatted_len(opt: Options, lines: Seq<Seq<char>>)
    ensures
        formatted(opt, lines).len() <= lines.len(),
        !opt.squeezes() ==> formatted(opt, lines).len() == lines.len(),
{
    lemma_squeezed_ends(lines);
}

/// Showing tabs a second time changes nothing, in a line, in a document
/// and as a filter.
pub proof fn lemma_show_tabs_idempotent(opt: Options, lines: Seq<Seq<char>>)
    ensures
        tabs_marked(tabs_marked(lines)) == tabs_marked(lines),
        tabs_stage(opt, tabs_stage(opt, lines)) == tabs_stage(opt, lines),
{
    assert forall|i: int| 0 <= i < lines.len() implies with_tabs_shown(
        with_tabs_shown(lines[i]),
    ) == with_tabs_shown(lines[i]) by {
        lemma_with_tabs_shown_idempotent(lines[i]);
    }
    assert(tabs_marked(tabs_marked(lines)) =~= tabs_marked(lines));
}

/// Squeezing keeps the first line and the kind of the last one: a document
/// that is not empty stays so, its first line stays first, and what is
/// left ends in a blank line exactly if the document did. It never makes
/// the document longer.
pub proof fn lemma_squeezed_ends(lines: Seq<Seq<char>>)
    ensures
        squeezed(lines).len() <= lines.len(),
        lines.len() > 0 ==> squeezed(lines).len() > 0,
        lines.len() > 0 ==> squeezed(lines)[0] == lines[0],
        lines.len() > 0 ==> is_blank(squeezed(lines).last()) == is_blank(lines.last()),
    decreases lines.len(),
{
    if lines.len() > 0 {
        lemma_squeezed_ends(lines.drop_last());
    }
}

/// Squeezing rewrites no line and moves none: what is left is the
/// document with some lines taken out.
pub proof fn lemma_squeezed_is_left_of(lines: Seq<Seq<char>>)
    ensures
        is_left_of(squeezed(lines), lines),
    decreases lines.len(),
{
    if lines.len() > 0 {
        let kept = squeezed(lines.drop_last());
        lemma_squeezed_is_left_of(lines.drop_last());
        if !(kept.len() > 0 && is_blank(kept.last()) && is_blank(lines.last())) {
            assert(kept.push(lines.last()).drop_last() =~= kept);
        }
    }
}

/// A blank line that comes directly after a blank line of the document
/// is never kept: squeezing a document that ends in two blank lines gives
/// what squeezing it without its last line gives. Any other last line is
/// kept.
pub proof fn lemma_squeezed_last_line(lines: Seq<Seq<char>>)
    requires
        lines.len() > 0,
    ensures
        squeezed(lines) == if lines.len() >= 2 && is_blank(lines.last()) && is_blank(
            lines[lines.len() - 2],
        ) {
            squeezed(lines.drop_last())
        } else {
            squeezed(lines.drop_last()).push(lines.last())
        },
{
    lemma_squeezed_ends(lines.drop_last());
}

/// After squeezing, no two lines next to each other are both blank.
pub proof fn lemma_squeezed_has_no_blank_pair(lines: Seq<Seq<char>>)
    ensures
        forall|i: int|
            0 <= i && i + 1 < squeezed(lines).len() ==> !(is_blank(#[trigger] squeezed(lines)[i])
                && is_blank(squeezed(lines)[i + 1])),
    decreases lines.len(),
{
    if lines.len() > 0 {
        lemma_squeezed_has_no_blank_pair(lines.drop_last());
        lemma_squeezed_ends(lines.drop_last());
    }
}

/// With squeezing switched on, what the squeeze filter leaves holds no
/// two blank lines in a row. Squeezing or not, a document that is not
/// empty keeps its first line, blank or not.
pub proof fn lemma_squeeze_stage_result(opt: Options, lines: Seq<Seq<char>>)
    ensures
        opt.squeezes() ==> forall|i: int|
            0 <= i && i + 1 < squeeze_stage(opt, lines).len() ==> !(is_blank(
                #[trigger] squeeze_stage(opt, lines)[i],
            ) && is_blank(squeeze_stage(opt, lines)[i + 1])),
        lines.len() > 0 ==> squeeze_stage(opt, lines).len() > 0 && squeeze_stage(opt, lines)[0]
            == lines[0],
{
    lemma_squeezed_has_no_blank_pair(lines);
    lemma_squeezed_ends(lines);
}

/// The count of numbered lines never goes down, and goes up by at most
/// one per line.
pub proof fn lemma_counted_step(lines: Seq<Seq<char>>, skip_empty: bool, from: int, to: int)
    requires
        0 <= from <= to,
    ensures
        counted(lines, skip_empty, from) <= counted(lines, skip_empty, to),
        counted(lines, skip_empty, to) - counted(lines, skip_empty, from) <= to - from,
        (forall|k: int| from <= k < to ==> !is_counted(#[trigger] lines[k], skip_empty)) ==> counted(
            lines,
            skip_empty,
            to,
        ) == counted(lines, skip_empty, from),
    decreases to - from,
{
    if from < to {
        lemma_counted_step(lines, skip_empty, from, to - 1);
    }
}

/// The first line that gets a number gets the number one.
pub proof fn lemma_numbering_starts_at_one(lines: Seq<Seq<char>>, skip_empty: bool, i: int)
    requires
        0 <= i < lines.len(),
        forall|k: int| 0 <= k < i ==> !is_counted(#[trigger] lines[k], skip_empty),
    ensures
        line_number(lines, skip_empty, i) == 1,
{
    lemma_counted_step(lines, skip_empty, 0, i);
}

/// From one numbered line to the next the number goes up by exactly one.
/// Lines in between that get no number do not change the count.
pub proof fn lemma_numbering_goes_up_by_one(
    lines: Seq<Seq<char>>,
    skip_empty: bool,
    i: int,
    j: int,
)
    requires
        0 <= i < j < lines.len(),
        is_counted(lines[i], skip_empty),
        forall|k: int| i < k < j ==> !is_counted(#[trigger] lines[k], skip_empty),
    ensures
        line_number(lines, skip_empty, j) == line_number(lines, skip_empty, i) + 1,
{
    lemma_counted_step(lines, skip_empty, i + 1, j);
}

/// Numbers grow strictly from any numbered line to any later line.
pub proof fn lemma_numbering_increases(lines: Seq<Seq<char>>, skip_empty: bool, i: int, j: int)
    requires
        0 <= i < j < lines.len(),
        is_counted(lines[i], skip_empty),
    ensures
        line_number(lines, skip_empty, i) < line_number(lines, skip_empty, j),
{
    lemma_counted_step(lines, skip_empty, i + 1, j);
}

/// When every line is numbered, line `i`, counted from zero, gets the
/// number `i + 1`.
pub proof fn lemma_numbering_all(lines: Seq<Seq<char>>, i: int)
    requires
        0 <= i,
    ensures
        line_number(lines, false, i) == i + 1,
    decreases i,
{
    if i > 0 {
        lemma_numbering_all(lines, i - 1);
    }
}

/// An empty line that gets no number comes out as eight spaces: an empty
/// number column and nothing after it.
pub proof fn lemma_unnumbered_line(lines: Seq<Seq<char>>, i: int)
    requires
        0 <= i < lines.len(),
        lines[i].len() == 0,
    ensures
        numbered(lines, true)[i] == spaces(8),
{
    lemma_number_column_shape(Seq::empty());
    assert(number_column(Seq::empty()) + lines[i] =~= spaces(8));
}

/// With end marking on, every line of the formatted document is the line
/// that the other filters give, number column and all, followed by one
/// `$`.
pub proof fn lemma_ends_come_last(opt: Options, lines: Seq<Seq<char>>, i: int)
    requires
        opt.marks_ends(),
        0 <= i < formatted(opt, lines).len(),
    ensures
        formatted(without_ends(opt), lines).len() == formatted(opt, lines).len(),
        formatted(opt, lines)[i] == formatted(without_ends(opt), lines)[i].push('$'),
        formatted(opt, lines)[i].last() == '$',
{
    let plain = without_ends(opt);
    let body = number_stage(opt, squeeze_stage(opt, lines));
    assert(body == number_stage(plain, squeeze_stage(plain, lines)));
    let line = body[i];
    lemma_with_tabs_shown_push(line, '$');
    assert(with_tabs_shown(line) + tab_shown('$') =~= with_tabs_shown(line).push('$'));
    let tabbed = tabs_stage(opt, body)[i];
    assert(tabs_stage(opt, ends_marked(body))[i] == tabbed.push('$'));
    lemma_with_nonprinting_shown_push(tabbed, '$');
    let shown = with_nonprinting_shown(tabbed);
    assert(shown + nonprinting_shown('$') =~= shown.push('$'));
}

} // verus!
