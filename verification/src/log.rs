//! The capability that makes a logger: taking a level and a message.

use vstd::prelude::*;

use crate::level::LogLevel;
use crate::output::{LogOutput, LogOutputView};

verus! {

/// Something that accepts a level and a message and says what is to be
/// written for them.
pub trait Log {
    /// Whether `out` is something that this logger may send out for the
    /// message at the level. A logger whose output depends on nothing but
    /// the message admits one `out`; one that reads a clock admits one for
    /// each reading. A logger that says nothing here admits every output.
    open spec fn may_emit(&self, level: LogLevel, msg: Seq<char>, out: LogOutputView) -> bool {
        true
    }

    /// Renders and routes one message.
    fn log(&self, level: LogLevel, msg: String) -> (out: LogOutput)
        ensures
            self.may_emit(level, msg@, out@),
    ;
}

/// The logger that stands in while none is installed: it sends out nothing.
#[derive(Clone, Copy, Debug, PartialEq, Eq)]
pub struct NoLogger;

impl Log for NoLogger {
    open spec fn may_emit(&self, level: LogLevel, msg: Seq<char>, out: LogOutputView) -> bool {
        out == LogOutputView::silent()
    }

    fn log(&self, _level: LogLevel, _msg: String) -> (out: LogOutput) {
        LogOutput::silent()
    }
}

} // verus!
