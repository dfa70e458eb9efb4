//! The logger: its configuration, and how it renders and routes a message.

use vstd::prelude::*;

use crate::facade::{after_install, install_result, set_logger, LoggerInitError, LoggerSlot};
use crate::level::LogLevel;
use crate::line::{console_line, console_line_text, file_line, file_line_text};
use crate::log::Log;
use crate::output::{FileLine, FileLineView, LogOutput, LogOutputView};
use crate::timestamp::{is_timestamp, now_utc};

verus! {

/// Where a logger writes besides standard output.
#[derive(Clone, Debug, PartialEq, Eq)]
pub enum LogfileType {
    /// Standard output only.
    Nofile,
    /// The file at this path; standard output too only if the logger is set
    /// to write to both.
    FileHandler(String),
}

impl View for LogfileType {
    type V = Option<Seq<char>>;

    open spec fn view(&self) -> Option<Seq<char>> {
        match self {
            LogfileType::Nofile => None,
            LogfileType::FileHandler(path) => Some(path@),
        }
    }
}

impl LogfileType {
    /// The path of the log file, if there is one.
    pub fn get_path(&self) -> (path: Option<String>)
        ensures
            path.deep_view() == self@,
    {
        match self {
            LogfileType::FileHandler(p) => Some(p.clone()),
            _ => None,
        }
    }
}

/// A logger's configuration.
pub struct LoggerView {
    /// Reserved: gates nothing.
    pub debug: bool,
    /// The path of the log file, if one is set.
    pub file: Option<Seq<char>>,
    /// Whether a logger with a log file writes to standard output too.
    pub multi: bool,
}

impl LoggerView {
    /// Whether the logger writes to a log file.
    pub open spec fn is_logfile(self) -> bool {
        self.file is Some
    }

    /// Whether the logger writes to standard output: always without a log
    /// file, and with one only if set to write to both.
    pub open spec fn is_stdout(self) -> bool {
        self.file is None || self.multi
    }

    /// What the logger sends out for a message under the given label and
    /// colour, if the clock gives `file_stamp` for the file line and
    /// `console_stamp` for the console line.
    pub open spec fn output_at(
        self,
        title: Seq<char>,
        color: Seq<char>,
        msg: Seq<char>,
        file_stamp: Seq<char>,
        console_stamp: Seq<char>,
    ) -> LogOutputView {
        LogOutputView {
            file: match self.file {
                Some(path) => Some(
                    FileLineView { path, text: file_line_text(file_stamp, title, msg) },
                ),
                None => None,
            },
            console: if self.is_stdout() {
                Some(console_line_text(console_stamp, color, title, msg))
            } else {
                None
            },
        }
    }

    /// Whether `out` is what the logger sends out for the message at some
    /// time: the file line, if a log file is set, and the console line, if
    /// the logger writes to standard output, each with the timestamp of a
    /// clock reading, and nothing else.
    pub open spec fn prints(
        self,
        title: Seq<char>,
        color: Seq<char>,
        msg: Seq<char>,
        out: LogOutputView,
    ) -> bool {
        &&& match self.file {
            Some(path) => out.has_file_line(path, title, msg),
            None => out.file is None,
        }
        &&& if self.is_stdout() {
            out.has_console_line(color, title, msg)
        } else {
            out.console is None
        }
    }
}

/// A logger: renders a message under its level and routes it to standard
/// output, to a log file, or to both.
#[derive(Clone, Debug, PartialEq, Eq)]
pub struct Logger {
    debug: bool,
    file: LogfileType,
    multi: bool,
}

impl View for Logger {
    type V = LoggerView;

    closed spec fn view(&self) -> LoggerView {
        LoggerView { debug: self.debug, file: self.file@, multi: self.multi }
    }
}

impl Logger {
    /// The current time in UTC as a timestamp.
    pub fn _timestamp(&self) -> (stamp: String)
        ensures
            is_timestamp(stamp@),
    {
        let now = now_utc();
        now.format()
    }

    /// Whether the logger writes to a log file.
    pub fn _is_logfile(&self) -> (b: bool)
        ensures
            b == self@.is_logfile(),
    {
        match &self.file {
            LogfileType::FileHandler(_) => true,
            _ => false,
        }
    }

    /// Whether the logger writes to standard output.
    pub fn _is_stdout(&self) -> (b: bool)
        ensures
            b == self@.is_stdout(),
    {
        match &self.file {
            LogfileType::FileHandler(_) => self.multi,
            LogfileType::Nofile => true,
        }
    }

    /// A logger with the defaults: standard output only, debug off.
    #[must_use]
    pub fn new() -> (logger: Logger)
        ensures
            logger@ == (LoggerView { debug: false, file: None, multi: false }),
    {
        Logger { debug: false, file: LogfileType::Nofile, multi: false }
    }

    /// Installs the logger as the active logger of the slot. Fails, and
    /// leaves the slot as it was, if the slot holds a logger already.
    pub fn init(self, slot: &mut LoggerSlot<Logger>) -> (result: Result<(), LoggerInitError>)
        ensures
            result == install_result(old(slot)@),
            final(slot)@ == after_install(old(slot)@, Box::new(self)),
    {
        set_logger(slot, Box::new(self))?;
        Ok(())
    }

    /// Switches the debug flag on.
    pub fn set_debug(&mut self)
        ensures
            final(self)@ == (LoggerView { debug: true, ..old(self)@ }),
    {
        self.debug = true;
    }

    /// Makes a logger with a log file write to standard output too.
    pub fn set_multi(&mut self)
        ensures
            final(self)@ == (LoggerView { multi: true, ..old(self)@ }),
    {
        self.multi = true;
    }

    /// Sets the log file; from now on the logger writes to the file at
    /// `path_str`.
    pub fn set_logfile(&mut self, path_str: &str)
        ensures
            final(self)@ == (LoggerView { file: Some(path_str@), ..old(self)@ }),
    {
        let path = path_str.to_owned();
        self.file = LogfileType::FileHandler(path);
    }

    /// The path of the log file, if one is set.
    pub fn get_path(self) -> (path: Option<String>)
        ensures
            path.deep_view() == self@.file,
    {
        self.file.get_path()
    }

    /// Renders and routes a message with the timestamps given: the file
    /// line, if a log file is set, and the console line, if the logger
    /// writes to standard output.
    pub fn render(
        &self,
        title: &str,
        color: &str,
        msg: &str,
        file_stamp: &str,
        console_stamp: &str,
    ) -> (out: LogOutput)
        ensures
            out@ == self@.output_at(title@, color@, msg@, file_stamp@, console_stamp@),
    {
        let file = match &self.file {
            LogfileType::FileHandler(path) => Some(
                FileLine { path: path.clone(), text: file_line(file_stamp, title, msg) },
            ),
            LogfileType::Nofile => None,
        };
        let console = if self._is_stdout() {
            Some(console_line(console_stamp, color, title, msg))
        } else {
            None
        };
        LogOutput { file, console }
    }

    /// Renders and routes a message at the current time. The clock is read
    /// once for each line that is due.
    pub fn print(&self, title: &str, color: &str, msg: String) -> (out: LogOutput)
        ensures
            self@.prints(title@, color@, msg@, out@),
    {
        let file_stamp = if self._is_logfile() {
            self._timestamp()
        } else {
            String::new()
        };
        let console_stamp = if self._is_stdout() {
            self._timestamp()
        } else {
            String::new()
        };
        self.render(title, color, msg.as_str(), file_stamp.as_str(), console_stamp.as_str())
    }
}

impl Log for Logger {
    /// The lines that the logger's configuration asks for, under the label
    /// and the colour of the level, each with the timestamp of some clock
    /// reading.
    open spec fn may_emit(&self, level: LogLevel, msg: Seq<char>, out: LogOutputView) -> bool {
        self@.prints(level.label_text(), level.color_text(), msg, out)
    }

    /// Renders and routes a message at the current time. Every level is
    /// handled alike: an error is logged like any other message, and the
    /// call returns.
    fn log(&self, level: LogLevel, msg: String) -> (out: LogOutput) {
        self.print(level.label(), level.color(), msg)
    }
}

} // verus!
