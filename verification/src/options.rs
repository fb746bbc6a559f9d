//! The switches that select which filters run.

use vstd::prelude::*;

verus! {

/// One field per command-line switch. No combination is invalid; several
/// switches are shorthands that turn on more than one filter.
#[derive(Clone, Copy, Debug, PartialEq, Eq, Structural)]
pub struct Options {
    /// `-A`: mark ends, show tabs, show non-printing characters.
    pub show_all: bool,
    /// `-b`: number the lines, but leave empty lines unnumbered.
    pub numbered_nonblank: bool,
    /// `-e`: mark ends and show non-printing characters.
    pub non_print_and_show_ends: bool,
    /// `-E`: mark the end of each line with `$`.
    pub show_ends: bool,
    /// `-n`: number every line.
    pub numbered: bool,
    /// `-s`: squeeze runs of blank lines.
    pub squeeze_blank: bool,
    /// `-t`: show tabs and non-printing characters.
    pub non_print_and_show_tabs: bool,
    /// `-T`: show each tab as `^I`.
    pub show_tabs: bool,
    /// `-u`: accepted for compatibility, changes nothing.
    pub ignored: bool,
    /// `-v`: show each character outside ASCII as `^?`.
    pub non_printing: bool,
}

impl Options {
    /// Whether runs of blank lines are squeezed.
    pub open spec fn squeezes(&self) -> bool {
        self.squeeze_blank
    }

    /// Whether lines get a number column.
    pub open spec fn numbers(&self) -> bool {
        self.numbered || self.numbered_nonblank
    }

    /// Whether empty lines are left without a number.
    pub open spec fn skips_empty(&self) -> bool {
        self.numbered_nonblank
    }

    /// Whether each line gets a trailing `$`.
    pub open spec fn marks_ends(&self) -> bool {
        self.show_ends || self.show_all || self.non_print_and_show_ends
    }

    /// Whether tabs are shown as `^I`.
    pub open spec fn marks_tabs(&self) -> bool {
        self.show_tabs || self.non_print_and_show_tabs || self.show_all
    }

    /// Whether characters outside ASCII are shown as `^?`.
    pub open spec fn marks_nonprinting(&self) -> bool {
        self.non_print_and_show_tabs || self.non_print_and_show_ends || self.non_printing
            || self.show_all
    }

    /// No filter is switched on.
    pub open spec fn is_plain(&self) -> bool {
        !self.squeezes() && !self.numbers() && !self.marks_ends() && !self.marks_tabs()
            && !self.marks_nonprinting()
    }
}

impl Default for Options {
    /// Every switch off.
    fn default() -> (o: Options)
        ensures
            o == (Options {
                show_all: false,
                numbered_nonblank: false,
                non_print_and_show_ends: false,
                show_ends: false,
                numbered: false,
                squeeze_blank: false,
                non_print_and_show_tabs: false,
                show_tabs: false,
                ignored: false,
                non_printing: false,
            }),
    {
        Options {
            show_all: false,
            numbered_nonblank: false,
            non_print_and_show_ends: false,
            show_ends: false,
            numbered: false,
            squeeze_blank: false,
            non_print_and_show_tabs: false,
            show_tabs: false,
            ignored: false,
            non_printing: false,
        }
    }
}

} // verus!
