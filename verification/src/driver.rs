//! A run of the formatter as a machine of steps: the caller reads and
//! writes, the formatter says what to do with each read.

use vstd::pervasive::unreached;
use vstd::prelude::*;
use crate::document::{formatted, lines_of};
use crate::input::{InputError, ReadResult};
use crate::options::Options;
use crate::output::Output;

verus! {

/// Where a run of the formatter stands.
#[derive(Clone, Copy, Debug, PartialEq, Eq, Structural)]
pub enum Phase {
    /// Lines are still being read into the document.
    Reading,
    /// The document was formatted and handed out for printing.
    Done,
    /// Reading failed. Nothing was or will be printed.
    Failed,
}

/// What the caller has to do after a step of the formatter.
#[derive(Debug, PartialEq, Eq)]
pub enum Action {
    /// Read the next line and hand in what the read gave.
    Read,
    /// Write these lines, one per output record, in this order. The run is
    /// over.
    Print(Vec<String>),
    /// Write this diagnostic to the error stream and no output at all. The
    /// run is over.
    Fail(String),
    /// Nothing: the run was over before this step.
    Stop,
}

/// One read of the input, as the formatter takes it.
pub type Read = Result<ReadResult, InputError>;

/// Whether a read gave a line.
pub open spec fn is_line(read: Read) -> bool {
    read matches Ok(ReadResult::Line(_))
}

/// The place in `reads`, at or after `from`, of the first read that gave
/// no line: the end of input or a fault. If every read from there on gave
/// a line, the length of `reads`.
pub open spec fn first_stop(reads: Seq<Read>, from: int) -> int
    decreases reads.len() - from,
{
    if 0 <= from < reads.len() && is_line(reads[from]) {
        first_stop(reads, from + 1)
    } else {
        from
    }
}

/// `first_stop` is what its name says: every read from `from` up to it
/// gave a line, and the read at its place, if there is one, gave none.
pub proof fn lemma_first_stop_is_first(reads: Seq<Read>, from: int)
    requires
        0 <= from <= reads.len(),
    ensures
        from <= first_stop(reads, from) <= reads.len(),
        forall|k: int| from <= k < first_stop(reads, from) ==> is_line(#[trigger] reads[k]),
        first_stop(reads, from) < reads.len() ==> !is_line(reads[first_stop(reads, from)]),
    decreases reads.len() - from,
{
    if from < reads.len() && is_line(reads[from]) {
        lemma_first_stop_is_first(reads, from + 1);
    }
}

/// The lines that the first `upto` reads gave.
pub open spec fn lines_read(reads: Seq<Read>, upto: int) -> Seq<Seq<char>> {
    Seq::new(upto as nat, |i: int| reads[i]->Ok_0->Line_0@)
}

/// What a whole run gives for a recorded sequence of reads: the lines
/// before the first read that gave none are the document. If that read is
/// a fault, the run fails with its diagnostic and prints nothing. In every
/// other case, and so at the end of the record too, the document is
/// formatted and printed.
pub open spec fn outcome(opt: Options, reads: Seq<Read>) -> Result<Seq<Seq<char>>, Seq<char>> {
    let stop = first_stop(reads, 0);
    if stop < reads.len() && reads[stop] is Err {
        Err(reads[stop]->Err_0.diagnostic())
    } else {
        Ok(formatted(opt, lines_read(reads, stop)))
    }
}

/// With no filter switched on, a run that meets no fault prints the
/// lines it read, unchanged and in their order.
pub proof fn lemma_plain_run_prints_input(opt: Options, reads: Seq<Read>)
    requires
        opt.is_plain(),
        first_stop(reads, 0) < reads.len() ==> reads[first_stop(reads, 0)] is Ok,
    ensures
        outcome(opt, reads) == Ok::<Seq<Seq<char>>, Seq<char>>(
            lines_read(reads, first_stop(reads, 0)),
        ),
{
}

impl Output {
    /// One step of a run: takes what the last read gave and says what to
    /// do next.
    ///
    /// While reading, a line is added at the end of the document and the
    /// next one is asked for. At the end of input the document is run
    /// through the filters and handed out for printing. A fault ends the
    /// run with its diagnostic; the lines read so far are dropped, so that
    /// nothing is printed. Once the run is over, nothing changes any more.
    pub fn step(&mut self, read: &Read) -> (action: Action)
        ensures
            final(self).opt == old(self).opt,
            old(self).phase != Phase::Reading ==> action is Stop && final(self).phase == old(
                self,
            ).phase && final(self).lines() == old(self).lines(),
            old(self).phase == Phase::Reading ==> match *read {
                Ok(ReadResult::Line(line)) => {
                    &&& action is Read
                    &&& final(self).phase == Phase::Reading
                    &&& final(self).lines() == old(self).lines().push(line@)
                },
                Ok(ReadResult::EOF) => {
                    &&& action matches Action::Print(printed)
                    &&& lines_of(printed@) == formatted(old(self).opt, old(self).lines())
                    &&& final(self).phase == Phase::Done
                    &&& final(self).lines() == Seq::<Seq<char>>::empty()
                },
                Err(e) => {
                    &&& action matches Action::Fail(message)
                    &&& message@ == e.diagnostic()
                    &&& final(self).phase == Phase::Failed
                    &&& final(self).lines() == Seq::<Seq<char>>::empty()
                },
            },
    {
        match self.phase {
            Phase::Reading => match read {
                Ok(ReadResult::Line(line)) => {
                    let ghost before = self.lines();
                    self.out.push(line.clone());
                    assert(self.lines() =~= before.push(line@));
                    Action::Read
                },
                Ok(ReadResult::EOF) => {
                    self.format_output();
                    let printed = self.print();
                    self.phase = Phase::Done;
                    Action::Print(printed)
                },
                Err(e) => {
                    self.out = Vec::new();
                    assert(self.lines() =~= Seq::<Seq<char>>::empty());
                    self.phase = Phase::Failed;
                    Action::Fail(e.message())
                },
            },
            _ => Action::Stop,
        }
    }

    /// A whole run over a recorded sequence of reads: starts a formatter
    /// with the options and takes one step per read, up to the first step
    /// that ends the run. A record that holds lines only is taken to end
    /// where it stops. Gives the lines to print, or the diagnostic of the
    /// fault that ended the run.
    pub fn from(o: Options, reads: &Vec<Read>) -> (result: Result<Vec<String>, String>)
        ensures
            match outcome(o, reads@) {
                Ok(lines) => result matches Ok(printed) && lines_of(printed@) == lines,
                Err(diagnostic) => result matches Err(message) && message@ == diagnostic,
            },
    {
        let mut run = Output::new(o);
        let count: usize = reads.len();
        let mut i: usize = 0;
        while i < count
            invariant
                i <= count,
                count == reads@.len(),
                run.phase == Phase::Reading,
                run.opt == o,
                run.lines() == lines_read(reads@, i as int),
                first_stop(reads@, 0) == first_stop(reads@, i as int),
            decreases count - i,
        {
            match run.step(&reads[i]) {
                Action::Read => {
                    assert(run.lines() =~= lines_read(reads@, i + 1));
                },
                Action::Print(printed) => {
                    return Ok(printed);
                },
                Action::Fail(message) => {
                    return Err(message);
                },
                Action::Stop => {
                    return unreached();
                },
            }
            i = i + 1;
        }
        match run.step(&Ok(ReadResult::EOF)) {
            Action::Print(printed) => Ok(printed),
            _ => unreached(),
        }
    }
}

} // verus!
