//! The names that a program which logs needs: the logger, the slot, and the
//! five calls.

pub use crate::facade::{debug, error, info, success, warn, LoggerSlot};
pub use crate::log::Log;
pub use crate::logger::Logger;
