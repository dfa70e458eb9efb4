//! The two line formats: the plain one for the log file and the coloured one
//! for the console.

use vstd::prelude::*;

use crate::level::{bold_text, reset_text, DELIMITER, ESCAPE};

verus! {

/// A line of the log file: the timestamp in square brackets, the label and
/// the message, separated by single spaces and closed by a line feed. No
/// colour codes: those are for terminals.
pub open spec fn file_line_text(stamp: Seq<char>, title: Seq<char>, msg: Seq<char>) -> Seq<char> {
    seq!['['] + stamp + seq![']', ' '] + title + seq![' '] + msg + seq!['\n']
}

/// A line of the console: the timestamp, the label and the message,
/// separated by single spaces and closed by a line feed. The label stands
/// between the bold sequence and its colour in front, and reset, bold and
/// reset behind.
pub open spec fn console_line_text(
    stamp: Seq<char>,
    color: Seq<char>,
    title: Seq<char>,
    msg: Seq<char>,
) -> Seq<char> {
    stamp + seq![' '] + bold_text() + color + title + reset_text() + bold_text() + reset_text()
        + seq![' '] + msg + seq!['\n']
}

/// Renders a line of the log file.
pub fn file_line(stamp: &str, title: &str, msg: &str) -> (line: String)
    ensures
        line@ == file_line_text(stamp@, title@, msg@),
{
    proof {
        reveal_strlit("[");
        reveal_strlit("] ");
        reveal_strlit(" ");
        reveal_strlit("\n");
    }
    let mut line = "[".to_owned();
    line.append(stamp);
    line.append("] ");
    line.append(title);
    line.append(" ");
    line.append(msg);
    line.append("\n");
    assert(line@ =~= file_line_text(stamp@, title@, msg@));
    line
}

/// Renders a line of the console.
pub fn console_line(stamp: &str, color: &str, title: &str, msg: &str) -> (line: String)
    ensures
        line@ == console_line_text(stamp@, color@, title@, msg@),
{
    proof {
        reveal_strlit("\x1b[0m");
        reveal_strlit("\x1b[1;1m");
        reveal_strlit(" ");
        reveal_strlit("\n");
    }
    let mut line = stamp.to_owned();
    line.append(" ");
    line.append(DELIMITER);
    line.append(color);
    line.append(title);
    line.append(ESCAPE);
    line.append(DELIMITER);
    line.append(ESCAPE);
    line.append(" ");
    line.append(msg);
    line.append("\n");
    assert(ESCAPE@ =~= reset_text());
    assert(DELIMITER@ =~= bold_text());
    assert(line@ =~= console_line_text(stamp@, color@, title@, msg@));
    line
}

/// The number of line feeds in `s`.
pub open spec fn line_feeds(s: Seq<char>) -> nat
    decreases s.len(),
{
    if s.len() == 0 {
        0
    } else {
        line_feeds(s.drop_last()) + if s.last() == '\n' {
            1nat
        } else {
            0nat
        }
    }
}

/// Whether `s` is one line: it ends with a line feed and holds no other.
pub open spec fn is_one_line(s: Seq<char>) -> bool {
    s.len() > 0 && s.last() == '\n' && line_feeds(s) == 1
}

/// Whether `part` stands somewhere in `s`, character for character.
pub open spec fn occurs_in(part: Seq<char>, s: Seq<char>) -> bool {
    exists|at: int|
        0 <= at <= s.len() - part.len() && #[trigger] s.subrange(at, at + part.len()) == part
}

/// The line feeds of two texts put together are those of the one and those
/// of the other.
pub proof fn lemma_line_feeds_add(a: Seq<char>, b: Seq<char>)
    ensures
        line_feeds(a + b) == line_feeds(a) + line_feeds(b),
    decreases b.len(),
{
    if b.len() == 0 {
        assert(a + b =~= a);
    } else {
        assert((a + b).drop_last() =~= a + b.drop_last());
        lemma_line_feeds_add(a, b.drop_last());
    }
}

/// A text without the character has no line feed to count.
pub proof fn lemma_line_feeds_none(s: Seq<char>)
    requires
        !s.contains('\n'),
    ensures
        line_feeds(s) == 0,
    decreases s.len(),
{
    if s.len() > 0 {
        assert(s.last() == s[s.len() - 1]);
        assert forall|i: int| 0 <= i < s.drop_last().len() implies s.drop_last()[i] != '\n' by {
            assert(s.drop_last()[i] == s[i]);
        }
        lemma_line_feeds_none(s.drop_last());
    }
}

/// A file line is one line if neither the timestamp nor the label nor the
/// message holds a line feed.
pub proof fn lemma_file_line_is_one_line(stamp: Seq<char>, title: Seq<char>, msg: Seq<char>)
    requires
        !stamp.contains('\n'),
        !title.contains('\n'),
        !msg.contains('\n'),
    ensures
        is_one_line(file_line_text(stamp, title, msg)),
{
    let line = file_line_text(stamp, title, msg);
    let body = seq!['['] + stamp + seq![']', ' '] + title + seq![' '] + msg;
    assert(line.drop_last() =~= body);
    lemma_line_feeds_none(body);
}

/// A console line is one line if neither the timestamp nor the colour nor
/// the label nor the message holds a line feed.
pub proof fn lemma_console_line_is_one_line(
    stamp: Seq<char>,
    color: Seq<char>,
    title: Seq<char>,
    msg: Seq<char>,
)
    requires
        !stamp.contains('\n'),
        !color.contains('\n'),
        !title.contains('\n'),
        !msg.contains('\n'),
    ensures
        is_one_line(console_line_text(stamp, color, title, msg)),
{
    let line = console_line_text(stamp, color, title, msg);
    let body = stamp + seq![' '] + bold_text() + color + title + reset_text() + bold_text()
        + reset_text() + seq![' '] + msg;
    assert(line.drop_last() =~= body);
    lemma_line_feeds_none(body);
}

/// Both line formats show the label and the message as they were given.
pub proof fn lemma_lines_show_label_and_message(
    stamp: Seq<char>,
    color: Seq<char>,
    title: Seq<char>,
    msg: Seq<char>,
)
    ensures
        occurs_in(title, file_line_text(stamp, title, msg)),
        occurs_in(msg, file_line_text(stamp, title, msg)),
        occurs_in(title, console_line_text(stamp, color, title, msg)),
        occurs_in(msg, console_line_text(stamp, color, title, msg)),
{
    let file = file_line_text(stamp, title, msg);
    let at = (stamp.len() + 3) as int;
    assert(file.subrange(at, at + title.len()) =~= title);
    let at = (file.len() - 1 - msg.len()) as int;
    assert(file.subrange(at, at + msg.len()) =~= msg);
    let console = console_line_text(stamp, color, title, msg);
    let at = (stamp.len() + 1 + bold_text().len() + color.len()) as int;
    assert(console.subrange(at, at + title.len()) =~= title);
    let at = (console.len() - 1 - msg.len()) as int;
    assert(console.subrange(at, at + msg.len()) =~= msg);
}

} // verus!
