//! What holds of every logger, every level, every message and every slot.

use vstd::prelude::*;

use crate::facade::{after_install, install_result, LoggerInitError, LoggerSlot};
use crate::level::{lemma_presentation_has_no_line_feed, LogLevel};
use crate::line::{
    console_line_text, file_line_text, is_one_line, lemma_console_line_is_one_line,
    lemma_file_line_is_one_line, lemma_line_feeds_add, lemma_lines_show_label_and_message,
    line_feeds, occurs_in,
};
use crate::log::Log;
use crate::logger::Logger;
use crate::output::{appended, FileLineView, LogOutputView};
use crate::timestamp::{is_timestamp, lemma_timestamp_chars, ClockReading};

verus! {

/// A file line in an output shows the label and the message as they were
/// given, and is exactly one line if the message holds no line feed.
proof fn lemma_file_line_shape(out: LogOutputView, path: Seq<char>, level: LogLevel, msg: Seq<char>)
    requires
        out.has_file_line(path, level.label_text(), msg),
    ensures
        out.file is Some,
        out.file->0.path == path,
        occurs_in(level.label_text(), out.file->0.text),
        occurs_in(msg, out.file->0.text),
        !msg.contains('\n') ==> is_one_line(out.file->0.text),
{
    let title = level.label_text();
    let stamp = choose|stamp: Seq<char>|
        is_timestamp(stamp) && out.file == Some(
            FileLineView { path, text: #[trigger] file_line_text(stamp, title, msg) },
        );
    let r = choose|r: ClockReading| r.in_range() && stamp == #[trigger] r.text();
    lemma_timestamp_chars(r);
    lemma_presentation_has_no_line_feed(level);
    lemma_lines_show_label_and_message(stamp, level.color_text(), title, msg);
    if !msg.contains('\n') {
        lemma_file_line_is_one_line(stamp, title, msg);
    }
}

/// A console line in an output shows the label and the message as they
/// were given, and is exactly one line if the message holds no line feed.
proof fn lemma_console_line_shape(out: LogOutputView, level: LogLevel, msg: Seq<char>)
    requires
        out.has_console_line(level.color_text(), level.label_text(), msg),
    ensures
        out.console is Some,
        occurs_in(level.label_text(), out.console->0),
        occurs_in(msg, out.console->0),
        !msg.contains('\n') ==> is_one_line(out.console->0),
{
    let (title, color) = (level.label_text(), level.color_text());
    let stamp = choose|stamp: Seq<char>|
        is_timestamp(stamp) && out.console == Some(
            #[trigger] console_line_text(stamp, color, title, msg),
        );
    let r = choose|r: ClockReading| r.in_range() && stamp == #[trigger] r.text();
    lemma_timestamp_chars(r);
    lemma_presentation_has_no_line_feed(level);
    lemma_lines_show_label_and_message(stamp, color, title, msg);
    if !msg.contains('\n') {
        lemma_console_line_is_one_line(stamp, color, title, msg);
    }
}

/// Without a log file a logger sends every message, at each of the five
/// levels, to standard output and nowhere else: one console line, which
/// carries a timestamp, the label of the level and the message as it was
/// given. If the message holds no line feed, that is exactly one line.
pub proof fn law_console_only(logger: Logger, level: LogLevel, msg: Seq<char>, out: LogOutputView)
    requires
        logger@.file is None,
        logger.may_emit(level, msg, out),
    ensures
        out.file is None,
        out.has_console_line(level.color_text(), level.label_text(), msg),
        out.console is Some,
        occurs_in(level.label_text(), out.console->0),
        occurs_in(msg, out.console->0),
        !msg.contains('\n') ==> is_one_line(out.console->0),
{
    lemma_console_line_shape(out, level, msg);
}

/// With a log file and without output to both, a logger sends every
/// message, at each of the five levels, to the file at its path and nothing
/// to standard output: one file line of the form `[timestamp] LABEL message`.
/// If the message holds no line feed, that is exactly one line.
pub proof fn law_file_only(
    logger: Logger,
    path: Seq<char>,
    level: LogLevel,
    msg: Seq<char>,
    out: LogOutputView,
)
    requires
        logger@.file == Some(path),
        !logger@.multi,
        logger.may_emit(level, msg, out),
    ensures
        out.console is None,
        out.has_file_line(path, level.label_text(), msg),
        out.file is Some,
        out.file->0.path == path,
        occurs_in(level.label_text(), out.file->0.text),
        occurs_in(msg, out.file->0.text),
        !msg.contains('\n') ==> is_one_line(out.file->0.text),
{
    lemma_file_line_shape(out, path, level, msg);
}

/// With a log file and output to both, one call yields both lines: the file
/// line for the file at the logger's path and the console line, each with
/// the label of the level and the message.
pub proof fn law_dual_output(
    logger: Logger,
    path: Seq<char>,
    level: LogLevel,
    msg: Seq<char>,
    out: LogOutputView,
)
    requires
        logger@.file == Some(path),
        logger@.multi,
        logger.may_emit(level, msg, out),
    ensures
        out.has_file_line(path, level.label_text(), msg),
        out.has_console_line(level.color_text(), level.label_text(), msg),
        out.file is Some && out.console is Some,
        occurs_in(level.label_text(), out.file->0.text) && occurs_in(msg, out.file->0.text),
        occurs_in(level.label_text(), out.console->0) && occurs_in(msg, out.console->0),
{
    lemma_file_line_shape(out, path, level, msg);
    lemma_console_line_shape(out, level, msg);
}

/// An empty slot takes the first logger and keeps it: the first install
/// succeeds, the second fails with the error and leaves the first logger in
/// place.
pub proof fn law_first_install_wins<L: Log + ?Sized>(first: Box<L>, second: Box<L>)
    ensures
        install_result::<L>(None) == Ok::<(), LoggerInitError>(()),
        after_install(None, first) == Some(first),
        install_result(after_install(None, first)) == Err::<(), LoggerInitError>(LoggerInitError),
        after_install(after_install(None, first), second) == Some(first),
{
}

/// Until a logger is installed, the slot answers with a logger whose calls
/// do nothing: they send out no line, whatever the level and the message.
pub proof fn law_empty_slot_is_silent<L: Log + ?Sized>(
    slot: LoggerSlot<L>,
    level: LogLevel,
    msg: Seq<char>,
    out: LogOutputView,
)
    requires
        !slot.is_installed(),
    ensures
        slot.handle().may_emit(level, msg, out) <==> out == LogOutputView::silent(),
{
}

/// Once a logger is installed, the slot answers with that logger: what goes
/// through the slot is what the logger itself would send out.
pub proof fn law_installed_logger_answers<L: Log + ?Sized>(
    slot: LoggerSlot<L>,
    logger: Box<L>,
    level: LogLevel,
    msg: Seq<char>,
    out: LogOutputView,
)
    requires
        slot@ == Some(logger),
    ensures
        slot.handle().may_emit(level, msg, out) <==> logger.may_emit(level, msg, out),
{
}

/// The debug flag gates nothing: two loggers that differ in it alone send
/// out the same.
pub proof fn law_debug_gates_nothing(
    plain: Logger,
    debugging: Logger,
    level: LogLevel,
    msg: Seq<char>,
    out: LogOutputView,
)
    requires
        plain@.file == debugging@.file,
        plain@.multi == debugging@.multi,
    ensures
        plain.may_emit(level, msg, out) <==> debugging.may_emit(level, msg, out),
{
}

/// The file lines of messages without line feeds, appended in order, make
/// as many lines as there were messages.
proof fn lemma_appended_line_count(
    logger: Logger,
    path: Seq<char>,
    level: LogLevel,
    msgs: Seq<Seq<char>>,
    outs: Seq<LogOutputView>,
)
    requires
        logger@.file == Some(path),
        outs.len() == msgs.len(),
        forall|i: int|
            #![trigger outs[i]]
            0 <= i < msgs.len() ==> logger.may_emit(level, msgs[i], outs[i]),
        forall|i: int| 0 <= i < msgs.len() ==> !(#[trigger] msgs[i]).contains('\n'),
    ensures
        line_feeds(appended(outs)) == msgs.len(),
    decreases msgs.len(),
{
    if msgs.len() > 0 {
        let n = msgs.len() - 1;
        assert(logger.may_emit(level, msgs[n], outs[n]));
        lemma_appended_line_count(logger, path, level, msgs.drop_last(), outs.drop_last());
        lemma_file_line_shape(outs[n], path, level, msgs[n]);
        lemma_line_feeds_add(appended(outs.drop_last()), outs[n].file->0.text);
    }
}

/// Messages sent one after the other through a logger with a log file, at
/// one level, yield one file line each, in the order of the calls: the
/// output of the i-th call holds the line of the i-th message, for the file
/// at the logger's path, and appending it lengthens the text of the calls
/// before by that line. If no message holds a line feed, the text after k
/// calls has exactly k lines, so the line of each message stands behind the
/// lines of all messages before it; after the last call there are as many
/// lines as there were messages.
pub proof fn law_one_line_per_message(
    logger: Logger,
    path: Seq<char>,
    level: LogLevel,
    msgs: Seq<Seq<char>>,
    outs: Seq<LogOutputView>,
)
    requires
        logger@.file == Some(path),
        outs.len() == msgs.len(),
        forall|i: int|
            #![trigger outs[i]]
            0 <= i < msgs.len() ==> logger.may_emit(level, msgs[i], outs[i]),
    ensures
        forall|i: int|
            #![trigger outs[i]]
            0 <= i < msgs.len() ==> outs[i].has_file_line(path, level.label_text(), msgs[i])
                && appended(outs.take(i + 1)) == appended(outs.take(i)) + outs[i].file->0.text,
        (forall|i: int| 0 <= i < msgs.len() ==> !(#[trigger] msgs[i]).contains('\n')) ==> (forall|
            k: int,
        |
            0 <= k <= msgs.len() ==> line_feeds(appended(#[trigger] outs.take(k))) == k),
        (forall|i: int| 0 <= i < msgs.len() ==> !(#[trigger] msgs[i]).contains('\n'))
            ==> line_feeds(appended(outs)) == msgs.len(),
{
    assert forall|i: int| #![trigger outs[i]] 0 <= i < msgs.len() implies appended(
        outs.take(i + 1),
    ) == appended(outs.take(i)) + outs[i].file->0.text by {
        assert(outs.take(i + 1).drop_last() =~= outs.take(i));
        assert(outs.take(i + 1).last() == outs[i]);
    }
    if forall|i: int| 0 <= i < msgs.len() ==> !(#[trigger] msgs[i]).contains('\n') {
        assert forall|k: int| 0 <= k <= msgs.len() implies line_feeds(
            appended(#[trigger] outs.take(k)),
        ) == k by {
            lemma_appended_line_count(logger, path, level, msgs.take(k), outs.take(k));
        }
        assert(outs.take(msgs.len() as int) =~= outs);
    }
}

} // verus!
