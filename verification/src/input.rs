//! Where the lines come from: a named file or standard input. Opening and
//! reading are the caller's work; what is made of their results is decided
//! here.

use vstd::prelude::*;
use vstd::std_specs::iter::IteratorSpec;
use vstd::string::*;
use vstd::utf8::{decode_utf8, valid_utf8};

verus! {

/// What one attempt to read a line gave.
#[derive(Debug, PartialEq, Eq)]
pub enum ReadResult {
    /// A line, without its terminator.
    Line(String),
    /// The input is used up.
    EOF,
}

impl View for ReadResult {
    type V = Option<Seq<char>>;

    /// The characters of the line, or `None` at the end of input.
    open spec fn view(&self) -> Option<Seq<char>> {
        match self {
            ReadResult::Line(line) => Some(line@),
            ReadResult::EOF => None,
        }
    }
}

/// The kinds of failure that opening or reading an input can end in.
#[derive(Clone, Copy, Debug, PartialEq, Eq, Structural)]
pub enum ErrorKind {
    /// The named file does not exist.
    NotFound,
    /// The named file may not be read.
    PermissionDenied,
    /// Any other fault that the system reported.
    IoError,
}

/// A failure to open or read an input.
#[derive(Debug, PartialEq, Eq)]
pub struct InputError {
    /// The kind of failure.
    pub kind: ErrorKind,
    /// The path of the input, or `standard input`.
    pub source: String,
    /// What the system said about the failure.
    pub reason: String,
}

impl InputError {
    /// The one-line diagnostic: the source, a colon and a space, the
    /// reason.
    pub open spec fn diagnostic(&self) -> Seq<char> {
        self.source@ + ": "@ + self.reason@
    }

    /// Writes the diagnostic out.
    pub fn message(&self) -> (message: String)
        ensures
            message@ == self.diagnostic(),
    {
        let mut message = self.source.clone();
        message.append(": ");
        message.append(self.reason.as_str());
        message
    }
}

/// The input that was chosen at startup.
#[derive(Debug, PartialEq, Eq)]
pub enum Input {
    /// The file at this path.
    FromFile(String),
    /// Standard input.
    FromStdin,
}

/// The text that `String::from_utf8_lossy` makes of a sequence of bytes.
pub uninterp spec fn utf8_lossy(bytes: Seq<u8>) -> Seq<char>;

/// Decodes bytes with `String::from_utf8_lossy` of the standard library.
/// Taken on trust from its documentation: the result depends on the bytes
/// alone, and bytes that are valid UTF-8 decode to the text they encode.
/// What invalid bytes turn into is left to that function.
#[verifier::external_body]
fn decode_lossy(bytes: &[u8]) -> (text: String)
    ensures
        text@ == utf8_lossy(bytes@),
        valid_utf8(bytes@) ==> text@ == decode_utf8(bytes@),
{
    String::from_utf8_lossy(bytes).into_owned()
}

/// What is kept of one character when line feeds are taken out.
pub open spec fn line_feed_dropped(c: char) -> Seq<char> {
    if c == '\n' {
        Seq::empty()
    } else {
        seq![c]
    }
}

/// The text with every line feed taken out.
pub open spec fn without_line_feeds(text: Seq<char>) -> Seq<char>
    decreases text.len(),
{
    if text.len() == 0 {
        Seq::empty()
    } else {
        without_line_feeds(text.drop_last()) + line_feed_dropped(text.last())
    }
}

/// The line that a read of these bytes gave: none if there are no bytes,
/// which is the end of input; else the decoded bytes without line feeds.
pub open spec fn line_of(bytes: Seq<u8>) -> Option<Seq<char>> {
    if bytes.len() == 0 {
        None
    } else {
        Some(without_line_feeds(utf8_lossy(bytes)))
    }
}

/// A text that holds no line feed is kept whole, so the last line of an
/// input is read in full even if no terminator follows it. A text that
/// holds its only line feed at the end loses that terminator and nothing
/// else.
pub proof fn lemma_terminator_is_stripped(content: Seq<char>)
    requires
        forall|i: int| 0 <= i < content.len() ==> content[i] != '\n',
    ensures
        without_line_feeds(content) == content,
        without_line_feeds(content.push('\n')) == content,
    decreases content.len(),
{
    if content.len() > 0 {
        lemma_terminator_is_stripped(content.drop_last());
        assert(content.drop_last().push(content.last()) =~= content);
        assert(content.drop_last() + seq![content.last()] =~= content);
    }
    assert(content.push('\n').drop_last() =~= content);
    assert(content + Seq::<char>::empty() =~= content);
}

/// Takes every line feed out of a text.
pub fn strip_line_feeds(text: &str) -> (stripped: String)
    ensures
        stripped@ == without_line_feeds(text@),
{
    broadcast use vstd::string::group_string_axioms;

    let mut stripped = String::new();
    for c in it: text.chars()
        invariant
            it.seq() == text@,
            stripped@ == without_line_feeds(text@.take(it.index())),
    {
        assert(text@.take(it.index() + 1).drop_last() == text@.take(it.index()));
        if c != '\n' {
            stripped.push(c);
        } else {
            assert(stripped@ + Seq::<char>::empty() =~= stripped@);
        }
    }
    assert(text@.take(text@.len() as int) == text@);
    stripped
}

impl Input {
    /// The name under which the input goes in diagnostics: the path of the
    /// file, or `standard input`.
    pub open spec fn source(&self) -> Seq<char> {
        match self {
            Input::FromFile(path) => path@,
            Input::FromStdin => "standard input"@,
        }
    }

    /// Chooses the input. Without a path it is standard input, which
    /// cannot fail. With a path it is that file, unless opening it was
    /// refused: `refused` holds what the system reported, if it did.
    pub fn from(p: &Option<String>, refused: Option<(ErrorKind, String)>) -> (input: Result<
        Input,
        InputError,
    >)
        ensures
            match *p {
                None => input matches Ok(Input::FromStdin),
                Some(path) => match refused {
                    None => input matches Ok(Input::FromFile(chosen)) && chosen@ == path@,
                    Some((kind, reason)) => input matches Err(e) && e.kind == kind && e.source@
                        == path@ && e.reason@ == reason@,
                },
            },
    {
        match p {
            None => Ok(Input::FromStdin),
            Some(path) => match refused {
                None => Ok(Input::FromFile(path.clone())),
                Some((kind, reason)) => Err(InputError { kind, source: path.clone(), reason }),
            },
        }
    }

    /// Writes the name of the input out.
    pub fn name(&self) -> (name: String)
        ensures
            name@ == self.source(),
    {
        match self {
            Input::FromFile(path) => path.clone(),
            Input::FromStdin => "standard input".to_owned(),
        }
    }

    /// Turns what one read gave into a line. `read` holds the bytes up to
    /// and with the next line terminator, or the fault that the system
    /// reported. No bytes at all mean the end of input. Otherwise the
    /// bytes are decoded, bytes that are not UTF-8 being replaced, and
    /// every line feed is taken out, which strips the terminator. A fault
    /// becomes an error of kind `IoError` that names this input.
    pub fn readline(&self, read: Result<Vec<u8>, String>) -> (result: Result<
        ReadResult,
        InputError,
    >)
        ensures
            match read {
                Ok(bytes) => {
                    &&& result matches Ok(line)
                    &&& line@ == line_of(bytes@)
                    &&& bytes@.len() > 0 && valid_utf8(bytes@) ==> line@ == Some(
                        without_line_feeds(decode_utf8(bytes@)),
                    )
                },
                Err(reason) => result matches Err(e) && e.kind == ErrorKind::IoError && e.source@
                    == self.source() && e.reason@ == reason@,
            },
    {
        match read {
            Ok(bytes) => {
                if bytes.len() == 0 {
                    Ok(ReadResult::EOF)
                } else {
                    let text = decode_lossy(bytes.as_slice());
                    Ok(ReadResult::Line(strip_line_feeds(text.as_str())))
                }
            },
            Err(reason) => Err(InputError { kind: ErrorKind::IoError, source: self.name(), reason }),
        }
    }
}

} // verus!
