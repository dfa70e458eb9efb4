//! A small logging facility with five levels: info, success, warning, debug
//! and error.
//!
//! A [`Logger`] renders a message under its level, with a timestamp in
//! front, and routes it: to standard output, to a log file, or to both. It
//! writes nothing itself. Each call returns a [`LogOutput`] that names the
//! line for the file and the line for the console, and the caller writes
//! them. What a logger returns is stated in contracts and proved; the
//! module [`laws`] holds what follows for every logger and every message.
//!
//! ```text
//! let mut logger = Logger::new();
//! logger.set_logfile("run.log");
//! let out = logger.log(LogLevel::Info, "started".to_string());
//! // out.file:    "run.log", "[2024-3-7 9:5:0] INFO started\n"
//! // out.console: nothing
//! ```
//!
//! A [`LoggerSlot`] holds the active logger of a program. It starts empty,
//! takes the first logger that is installed and refuses every later one;
//! while it is empty, messages sent through it go to a logger that does
//! nothing.
//!
//! Two choices are fixed here. Logging at the error level returns like any
//! other call; it never ends the process. And a log file is created by its
//! first line and must not exist before: whoever writes the lines opens the
//! file once, refusing a path that is taken, and appends from then on.

pub mod decimal;
pub mod facade;
pub mod laws;
pub mod level;
pub mod line;
pub mod log;
pub mod logger;
pub mod output;
pub mod prelude;
pub mod timestamp;

pub use crate::facade::{
    debug, error, info, logger, set_logger, success, warn, LoggerHandle, LoggerInitError,
    LoggerSlot,
};
pub use crate::level::LogLevel;
pub use crate::log::{Log, NoLogger};
pub use crate::logger::{LogfileType, Logger};
pub use crate::output::{FileLine, LogOutput};
pub use crate::timestamp::ClockReading;
