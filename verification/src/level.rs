//! Severity levels and how each one is shown.

use vstd::prelude::*;

verus! {

/// Label of [`LogLevel::Info`].
pub const INFO_TEXT: &'static str = "INFO";

/// Label of [`LogLevel::Success`].
pub const SUCCESS_TEXT: &'static str = "SUCCESS";

/// Label of [`LogLevel::Warn`].
pub const WARNING_TEXT: &'static str = "WARNING";

/// Label of [`LogLevel::Error`].
pub const ERROR_TEXT: &'static str = "ERROR";

/// Label of [`LogLevel::Debug`].
pub const DEBUG_TEXT: &'static str = "DEBUG";

/// Blue foreground.
pub const INFO_COLOR: &'static str = "\x1b[0;34m";

/// Green foreground.
pub const SUCCESS_COLOR: &'static str = "\x1b[0;32m";

/// Yellow foreground.
pub const WARNING_COLOR: &'static str = "\x1b[0;33m";

/// Red foreground.
pub const ERROR_COLOR: &'static str = "\x1b[0;31m";

/// Magenta foreground.
pub const DEBUG_COLOR: &'static str = "\x1b[0;35m";

/// Back to the terminal's default rendition.
pub const ESCAPE: &'static str = "\x1b[0m";

/// Bold; brackets the label on the console.
pub const DELIMITER: &'static str = "\x1b[1;1m";

/// The ANSI "select graphic rendition" sequence with the given parameters:
/// escape, `[`, the parameters, `m`.
pub open spec fn sgr(params: Seq<char>) -> Seq<char> {
    seq!['\x1b', '['] + params + seq!['m']
}

/// The characters of [`ESCAPE`].
pub open spec fn reset_text() -> Seq<char> {
    sgr(seq!['0'])
}

/// The characters of [`DELIMITER`].
pub open spec fn bold_text() -> Seq<char> {
    sgr(seq!['1', ';', '1'])
}

/// The severity of a message.
#[derive(Clone, Copy, Debug, PartialEq, Eq, Structural)]
pub enum LogLevel {
    Info,
    Success,
    Warn,
    Debug,
    Error,
}

impl LogLevel {
    /// The fixed label that stands for the level in every line.
    pub open spec fn label_text(self) -> Seq<char> {
        match self {
            LogLevel::Info => seq!['I', 'N', 'F', 'O'],
            LogLevel::Success => seq!['S', 'U', 'C', 'C', 'E', 'S', 'S'],
            LogLevel::Warn => seq!['W', 'A', 'R', 'N', 'I', 'N', 'G'],
            LogLevel::Debug => seq!['D', 'E', 'B', 'U', 'G'],
            LogLevel::Error => seq!['E', 'R', 'R', 'O', 'R'],
        }
    }

    /// The escape sequence that colours the label on the console: blue for
    /// info, green for success, yellow for warnings, magenta for debug, red
    /// for errors.
    pub open spec fn color_text(self) -> Seq<char> {
        match self {
            LogLevel::Info => sgr(seq!['0', ';', '3', '4']),
            LogLevel::Success => sgr(seq!['0', ';', '3', '2']),
            LogLevel::Warn => sgr(seq!['0', ';', '3', '3']),
            LogLevel::Debug => sgr(seq!['0', ';', '3', '5']),
            LogLevel::Error => sgr(seq!['0', ';', '3', '1']),
        }
    }

    /// The label of the level.
    pub fn label(self) -> (s: &'static str)
        ensures
            s@ == self.label_text(),
    {
        proof {
            reveal_strlit("INFO");
            reveal_strlit("SUCCESS");
            reveal_strlit("WARNING");
            reveal_strlit("DEBUG");
            reveal_strlit("ERROR");
        }
        let s = match self {
            LogLevel::Info => INFO_TEXT,
            LogLevel::Success => SUCCESS_TEXT,
            LogLevel::Warn => WARNING_TEXT,
            LogLevel::Debug => DEBUG_TEXT,
            LogLevel::Error => ERROR_TEXT,
        };
        assert(s@ =~= self.label_text());
        s
    }

    /// The colour of the level, as an escape sequence.
    pub fn color(self) -> (s: &'static str)
        ensures
            s@ == self.color_text(),
    {
        proof {
            reveal_strlit("\x1b[0;34m");
            reveal_strlit("\x1b[0;32m");
            reveal_strlit("\x1b[0;33m");
            reveal_strlit("\x1b[0;35m");
            reveal_strlit("\x1b[0;31m");
        }
        let s = match self {
            LogLevel::Info => INFO_COLOR,
            LogLevel::Success => SUCCESS_COLOR,
            LogLevel::Warn => WARNING_COLOR,
            LogLevel::Debug => DEBUG_COLOR,
            LogLevel::Error => ERROR_COLOR,
        };
        assert(s@ =~= self.color_text());
        s
    }
}

/// No label and no escape sequence holds a line feed.
pub proof fn lemma_presentation_has_no_line_feed(level: LogLevel)
    ensures
        !level.label_text().contains('\n'),
        !level.color_text().contains('\n'),
        !bold_text().contains('\n'),
        !reset_text().contains('\n'),
{
}

} // verus!
