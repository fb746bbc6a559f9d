//! The document being formatted and the filters that rewrite it in place.

use vstd::prelude::*;
use vstd::string::*;
use crate::document::{
    counted, ends_marked, ends_stage, formatted, is_counted, lemma_squeeze_stage_result,
    line_number, lines_of, nonprinting_marked, nonprinting_stage, number_stage, numbered,
    numbered_line, squeeze_stage, squeezed, tabs_marked, tabs_stage,
};
use crate::driver::Phase;
use crate::line::{
    decimal, is_blank, is_blank_line, number_prefix, push_decimal, show_nonprinting_line,
    show_tabs_line, with_nonprinting_shown, with_tabs_shown,
};
use crate::options::Options;

verus! {

/// The lines of one input together with the options that format them.
#[derive(Debug, PartialEq, Eq)]
pub struct Output {
    /// The document, one string per line, without line terminators.
    pub out: Vec<String>,
    /// The switches that select the filters.
    pub opt: Options,
    /// Where the run stands.
    pub phase: Phase,
}

impl Output {
    /// The document as sequences of characters.
    pub open spec fn lines(&self) -> Seq<Seq<char>> {
        lines_of(self.out@)
    }

    /// A formatter at the start of a run: the document is empty and lines
    /// are to be read.
    pub fn new(opt: Options) -> (output: Output)
        ensures
            output.lines() == Seq::<Seq<char>>::empty(),
            output.opt == opt,
            output.phase == Phase::Reading,
    {
        let output = Output { out: Vec::new(), opt, phase: Phase::Reading };
        assert(output.lines() =~= Seq::<Seq<char>>::empty());
        output
    }

    /// Squeezes runs of blank lines, if the options ask for it: a blank
    /// line is taken out if the last line kept before it is blank too.
    /// What is left holds no two blank lines in a row, and the first line
    /// of the document is never taken out.
    pub fn remove_duplicate_blank(&mut self)
        ensures
            final(self).lines() == squeeze_stage(old(self).opt, old(self).lines()),
            old(self).opt.squeezes() ==> forall|i: int|
                0 <= i && i + 1 < final(self).lines().len() ==> !(is_blank(
                    #[trigger] final(self).lines()[i],
                ) && is_blank(final(self).lines()[i + 1])),
            old(self).lines().len() > 0 ==> final(self).lines().len() > 0 && final(self).lines()[0]
                == old(self).lines()[0],
            final(self).opt == old(self).opt,
            final(self).phase == old(self).phase,
    {
        if self.opt.squeeze_blank {
            let ghost before = self.lines();
            let count: usize = self.out.len();
            let mut kept: Vec<String> = Vec::new();
            let mut after_blank: bool = false;
            let mut i: usize = 0;
            while i < count
                invariant
                    i <= count,
                    count == self.out.len(),
                    before == self.lines(),
                    lines_of(kept@) == squeezed(before.take(i as int)),
                    after_blank == (kept@.len() > 0 && is_blank(lines_of(kept@).last())),
                    self.opt == old(self).opt,
                    self.phase == old(self).phase,
                decreases count - i,
            {
                let blank: bool = is_blank_line(self.out[i].as_str());
                proof {
                    let upto = before.take(i + 1);
                    assert(upto.drop_last() == before.take(i as int));
                    assert(upto.last() == before[i as int]);
                }
                if !(after_blank && blank) {
                    let ghost shorter = kept@;
                    kept.push(self.out[i].clone());
                    assert(lines_of(kept@) == lines_of(shorter).push(before[i as int]));
                    after_blank = blank;
                }
                i = i + 1;
            }
            assert(before.take(count as int) == before);
            self.out = kept;
            proof {
                lemma_squeeze_stage_result(self.opt, before);
            }
        }
    }

    /// Numbers the lines, if the options ask for it. The count starts at
    /// one on every call and goes up by one with each line that gets a
    /// number.
    pub fn number_lines(&mut self)
        ensures
            final(self).lines() == number_stage(old(self).opt, old(self).lines()),
            final(self).opt == old(self).opt,
            final(self).phase == old(self).phase,
    {
        if self.opt.numbered || self.opt.numbered_nonblank {
            let ghost before = self.lines();
            let ghost skip_empty = self.opt.skips_empty();
            let count: usize = self.out.len();
            let mut given: u64 = 0;
            let mut i: usize = 0;
            while i < count
                invariant
                    i <= count,
                    count == self.out.len(),
                    count == before.len(),
                    given == counted(before, skip_empty, i as int),
                    given <= i,
                    forall|j: int| 0 <= j < i ==> self.out@[j]@ == numbered_line(before, skip_empty, j),
                    forall|j: int| i <= j < count ==> self.out@[j]@ == before[j],
                    self.opt == old(self).opt,
                    self.phase == old(self).phase,
                    skip_empty == self.opt.skips_empty(),
                decreases count - i,
            {
                let mut label = String::new();
                if !(self.opt.numbered_nonblank && self.out[i].as_str().is_empty()) {
                    given = given + 1;
                    push_decimal(&mut label, given);
                }
                assert(label@ == if is_counted(before[i as int], skip_empty) {
                    decimal(line_number(before, skip_empty, i as int))
                } else {
                    Seq::<char>::empty()
                });
                let mut line = number_prefix(label.as_str());
                line.append(self.out[i].as_str());
                self.out.set(i, line);
                i = i + 1;
            }
            assert(self.lines() == numbered(before, skip_empty));
        }
    }

    /// Adds `$` at the end of every line, if the options ask for it.
    pub fn show_ends(&mut self)
        ensures
            final(self).lines() == ends_stage(old(self).opt, old(self).lines()),
            final(self).opt == old(self).opt,
            final(self).phase == old(self).phase,
    {
        if self.opt.show_ends || self.opt.show_all || self.opt.non_print_and_show_ends {
            let ghost before = self.lines();
            let count: usize = self.out.len();
            let mut i: usize = 0;
            while i < count
                invariant
                    i <= count,
                    count == self.out.len(),
                    count == before.len(),
                    forall|j: int| 0 <= j < i ==> self.out@[j]@ == before[j].push('$'),
                    forall|j: int| i <= j < count ==> self.out@[j]@ == before[j],
                    self.opt == old(self).opt,
                    self.phase == old(self).phase,
                decreases count - i,
            {
                let mut line = self.out[i].clone();
                line.push('$');
                self.out.set(i, line);
                i = i + 1;
            }
            assert(self.lines() == ends_marked(before));
        }
    }

    /// Shows every tab as `^I`, if the options ask for it.
    pub fn show_tabs(&mut self)
        ensures
            final(self).lines() == tabs_stage(old(self).opt, old(self).lines()),
            final(self).opt == old(self).opt,
            final(self).phase == old(self).phase,
    {
        if self.opt.show_tabs || self.opt.non_print_and_show_tabs || self.opt.show_all {
            let ghost before = self.lines();
            let count: usize = self.out.len();
            let mut i: usize = 0;
            while i < count
                invariant
                    i <= count,
                    count == self.out.len(),
                    count == before.len(),
                    forall|j: int| 0 <= j < i ==> self.out@[j]@ == with_tabs_shown(before[j]),
                    forall|j: int| i <= j < count ==> self.out@[j]@ == before[j],
                    self.opt == old(self).opt,
                    self.phase == old(self).phase,
                decreases count - i,
            {
                let line = show_tabs_line(self.out[i].as_str());
                self.out.set(i, line);
                i = i + 1;
            }
            assert(self.lines() == tabs_marked(before));
        }
    }

    /// Shows every character outside ASCII as `^?`, if the options ask for
    /// it. ASCII characters, control characters among them, stay as they
    /// are.
    pub fn show_nonprinting(&mut self)
        ensures
            final(self).lines() == nonprinting_stage(old(self).opt, old(self).lines()),
            final(self).opt == old(self).opt,
            final(self).phase == old(self).phase,
    {
        if self.opt.non_print_and_show_tabs || self.opt.non_print_and_show_ends
            || self.opt.non_printing || self.opt.show_all {
            let ghost before = self.lines();
            let count: usize = self.out.len();
            let mut i: usize = 0;
            while i < count
                invariant
                    i <= count,
                    count == self.out.len(),
                    count == before.len(),
                    forall|j: int| 0 <= j < i ==> self.out@[j]@ == with_nonprinting_shown(before[j]),
                    forall|j: int| i <= j < count ==> self.out@[j]@ == before[j],
                    self.opt == old(self).opt,
                    self.phase == old(self).phase,
                decreases count - i,
            {
                let line = show_nonprinting_line(self.out[i].as_str());
                self.out.set(i, line);
                i = i + 1;
            }
            assert(self.lines() == nonprinting_marked(before));
        }
    }

    /// Runs the five filters over the document, in their fixed order.
    pub fn format_output(&mut self)
        ensures
            final(self).lines() == formatted(old(self).opt, old(self).lines()),
            final(self).opt == old(self).opt,
            final(self).phase == old(self).phase,
    {
        self.remove_duplicate_blank();
        self.number_lines();
        self.show_ends();
        self.show_tabs();
        self.show_nonprinting();
    }

    /// Hands the lines out, in order, for the caller to write, and leaves
    /// the document empty.
    pub fn print(&mut self) -> (printed: Vec<String>)
        ensures
            lines_of(printed@) == old(self).lines(),
            final(self).lines() == Seq::<Seq<char>>::empty(),
            final(self).opt == old(self).opt,
            final(self).phase == old(self).phase,
    {
        let mut printed: Vec<String> = Vec::new();
        std::mem::swap(&mut self.out, &mut printed);
        assert(self.lines() =~= Seq::<Seq<char>>::empty());
        printed
    }
}

} // verus!
