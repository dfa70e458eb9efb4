//! What one call of a logger sends out.
//!
//! A logger renders and routes; it writes nothing itself. Its result names
//! the line for the log file and the line for the console, and whoever owns
//! the file and the terminal writes them.

use vstd::prelude::*;

use crate::line::{console_line_text, file_line_text};
use crate::timestamp::is_timestamp;

verus! {

/// A line for the log file at `path`; `text` ends with its line feed.
///
/// The writer creates the file when the first line of a logger arrives,
/// refusing a path that exists already, and appends every later line.
#[derive(Clone, Debug, PartialEq, Eq)]
pub struct FileLine {
    pub path: String,
    pub text: String,
}

/// The characters of a [`FileLine`].
pub struct FileLineView {
    pub path: Seq<char>,
    pub text: Seq<char>,
}

impl View for FileLine {
    type V = FileLineView;

    open spec fn view(&self) -> FileLineView {
        FileLineView { path: self.path@, text: self.text@ }
    }
}

/// What one call of a logger sends out: at most one line for the log file
/// and at most one for standard output, each with its line feed.
#[derive(Clone, Debug, PartialEq, Eq)]
pub struct LogOutput {
    pub file: Option<FileLine>,
    pub console: Option<String>,
}

/// The characters of a [`LogOutput`].
pub struct LogOutputView {
    pub file: Option<FileLineView>,
    pub console: Option<Seq<char>>,
}

impl LogOutputView {
    /// Nothing for the file and nothing for the console.
    pub open spec fn silent() -> LogOutputView {
        LogOutputView { file: None, console: None }
    }

    /// Whether the output holds, for the file at `path`, the file line of
    /// the message under the label, with the timestamp of some clock
    /// reading.
    pub open spec fn has_file_line(self, path: Seq<char>, title: Seq<char>, msg: Seq<char>) -> bool {
        exists|stamp: Seq<char>|
            is_timestamp(stamp) && self.file == Some(
                FileLineView { path, text: #[trigger] file_line_text(stamp, title, msg) },
            )
    }

    /// Whether the output holds the console line of the message under the
    /// label and the colour, with the timestamp of some clock reading.
    pub open spec fn has_console_line(
        self,
        color: Seq<char>,
        title: Seq<char>,
        msg: Seq<char>,
    ) -> bool {
        exists|stamp: Seq<char>|
            is_timestamp(stamp) && self.console == Some(
                #[trigger] console_line_text(stamp, color, title, msg),
            )
    }
}

impl View for LogOutput {
    type V = LogOutputView;

    open spec fn view(&self) -> LogOutputView {
        LogOutputView {
            file: match self.file {
                Some(line) => Some(line@),
                None => None,
            },
            console: match self.console {
                Some(line) => Some(line@),
                None => None,
            },
        }
    }
}

/// The text that a fresh file holds after the file lines of `outs` were
/// appended to it one after the other, first to last.
pub open spec fn appended(outs: Seq<LogOutputView>) -> Seq<char>
    decreases outs.len(),
{
    if outs.len() == 0 {
        Seq::empty()
    } else {
        appended(outs.drop_last()) + match outs.last().file {
            Some(line) => line.text,
            None => Seq::empty(),
        }
    }
}

impl LogOutput {
    /// The output of a call that sends nothing.
    pub fn silent() -> (out: LogOutput)
        ensures
            out@ == LogOutputView::silent(),
    {
        LogOutput { file: None, console: None }
    }
}

} // verus!
