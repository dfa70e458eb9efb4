//! The slot that holds the active logger, and the calls that go through it.
//!
//! A slot starts empty and takes a logger once. Until then everything sent
//! through it goes to a logger that does nothing.

use vstd::prelude::*;

use crate::level::LogLevel;
use crate::log::{Log, NoLogger};
use crate::output::{LogOutput, LogOutputView};

verus! {

/// What [`LoggerInitError::message`] says.
pub const INIT_ERROR_MESSAGE: &'static str =
    "Logger was initialized more than once or couldn't initialize.";

/// A logger could not be installed: the slot holds one already.
#[derive(Clone, Copy, Debug, PartialEq, Eq)]
pub struct LoggerInitError;

impl LoggerInitError {
    /// The error in words.
    pub fn message(&self) -> (text: String)
        ensures
            text@ == INIT_ERROR_MESSAGE@,
    {
        INIT_ERROR_MESSAGE.to_owned()
    }
}

/// The place of the active logger: empty, or holding the one logger that
/// was installed.
pub struct LoggerSlot<L: Log + ?Sized> {
    installed: Option<Box<L>>,
}

/// The logger that a slot answers with: the installed one, or the one that
/// does nothing.
pub enum LoggerHandle<'a, L: Log + ?Sized> {
    Noop,
    Installed(&'a L),
}

impl<'a, L: Log + ?Sized> Log for LoggerHandle<'a, L> {
    /// What the logger behind the handle may send out.
    open spec fn may_emit(&self, level: LogLevel, msg: Seq<char>, out: LogOutputView) -> bool {
        match self {
            LoggerHandle::Noop => NoLogger.may_emit(level, msg, out),
            LoggerHandle::Installed(logger) => logger.may_emit(level, msg, out),
        }
    }

    /// Hands the message to the logger behind the handle.
    fn log(&self, level: LogLevel, msg: String) -> (out: LogOutput) {
        match self {
            LoggerHandle::Noop => NoLogger.log(level, msg),
            LoggerHandle::Installed(logger) => logger.log(level, msg),
        }
    }
}

impl<L: Log + ?Sized> View for LoggerSlot<L> {
    type V = Option<Box<L>>;

    /// The installed logger, if there is one.
    closed spec fn view(&self) -> Option<Box<L>> {
        self.installed
    }
}

/// The result of trying to install a logger in a slot in the given state:
/// success in an empty slot, the error in a taken one.
pub open spec fn install_result<L: Log + ?Sized>(state: Option<Box<L>>) -> Result<
    (),
    LoggerInitError,
> {
    match state {
        None => Ok(()),
        Some(_) => Err(LoggerInitError),
    }
}

/// The state of a slot after trying to install `logger` in it: an empty
/// slot takes the logger, a taken one keeps what it has.
pub open spec fn after_install<L: Log + ?Sized>(state: Option<Box<L>>, logger: Box<L>) -> Option<
    Box<L>,
> {
    match state {
        None => Some(logger),
        Some(_) => state,
    }
}

impl<L: Log + ?Sized> LoggerSlot<L> {
    /// Whether a logger has been installed.
    pub open spec fn is_installed(&self) -> bool {
        self@ is Some
    }

    /// The logger that the slot answers with.
    pub open spec fn handle(&self) -> LoggerHandle<'_, L> {
        match self@ {
            Some(logger) => LoggerHandle::Installed(&*logger),
            None => LoggerHandle::Noop,
        }
    }

    /// An empty slot.
    pub fn new() -> (slot: Self)
        ensures
            slot@ is None,
    {
        LoggerSlot { installed: None }
    }
}

/// Installs `logger` as the active logger of the slot. The first logger
/// stays: a second call fails and leaves the slot as it was.
pub fn set_logger<L: Log + ?Sized>(slot: &mut LoggerSlot<L>, logger: Box<L>) -> (result: Result<
    (),
    LoggerInitError,
>)
    ensures
        result == install_result(old(slot)@),
        final(slot)@ == after_install(old(slot)@, logger),
{
    if slot.installed.is_none() {
        slot.installed = Some(logger);
        Ok(())
    } else {
        Err(LoggerInitError)
    }
}

/// The active logger of the slot: the installed one, or the logger that
/// does nothing if none was installed.
pub fn logger<'a, L: Log + ?Sized>(slot: &'a LoggerSlot<L>) -> (handle: LoggerHandle<'a, L>)
    ensures
        handle == slot.handle(),
{
    match &slot.installed {
        Some(logger) => LoggerHandle::Installed(&**logger),
        None => LoggerHandle::Noop,
    }
}

/// Sends `msg` to the active logger at the level [`LogLevel::Info`].
pub fn info<L: Log + ?Sized>(slot: &LoggerSlot<L>, msg: String) -> (out: LogOutput)
    ensures
        slot.handle().may_emit(LogLevel::Info, msg@, out@),
{
    logger(slot).log(LogLevel::Info, msg)
}

/// Sends `msg` to the active logger at the level [`LogLevel::Warn`].
pub fn warn<L: Log + ?Sized>(slot: &LoggerSlot<L>, msg: String) -> (out: LogOutput)
    ensures
        slot.handle().may_emit(LogLevel::Warn, msg@, out@),
{
    logger(slot).log(LogLevel::Warn, msg)
}

/// Sends `msg` to the active logger at the level [`LogLevel::Debug`].
pub fn debug<L: Log + ?Sized>(slot: &LoggerSlot<L>, msg: String) -> (out: LogOutput)
    ensures
        slot.handle().may_emit(LogLevel::Debug, msg@, out@),
{
    logger(slot).log(LogLevel::Debug, msg)
}

/// Sends `msg` to the active logger at the level [`LogLevel::Success`].
pub fn success<L: Log + ?Sized>(slot: &LoggerSlot<L>, msg: String) -> (out: LogOutput)
    ensures
        slot.handle().may_emit(LogLevel::Success, msg@, out@),
{
    logger(slot).log(LogLevel::Success, msg)
}

/// Sends `msg` to the active logger at the level [`LogLevel::Error`].
pub fn error<L: Log + ?Sized>(slot: &LoggerSlot<L>, msg: String) -> (out: LogOutput)
    ensures
        slot.handle().may_emit(LogLevel::Error, msg@, out@),
{
    logger(slot).log(LogLevel::Error, msg)
}

} // verus!
