//! A line formatter in the manner of the Unix `cat` utility.
//!
//! A document is a sequence of lines. Up to five filters rewrite it, always
//! in the same order: squeeze runs of blank lines, number the lines, mark
//! line ends, show tabs, show characters outside ASCII. Every filter is
//! stated as a function on sequences of characters, and every executable
//! function is proved against that statement.

pub mod document;
pub mod driver;
pub mod input;
pub mod line;
pub mod options;
pub mod output;

pub use crate::input::{ErrorKind, Input, InputError, ReadResult};
pub use crate::options::Options;
pub use crate::driver::{Action, Phase, Read};
pub use crate::output::Output;
