use elara_log::{FileLine, Log, LogLevel, LogOutput, LogfileType, Logger};

const LEVELS: [LogLevel; 5] =
    [LogLevel::Info, LogLevel::Success, LogLevel::Warn, LogLevel::Debug, LogLevel::Error];

const STAMP: &str = "2024-3-7 9:5:0";

fn strip_escapes(line: &str) -> String {
    let mut plain = String::new();
    let mut inside = false;
    for c in line.chars() {
        if inside {
            if c == 'm' {
                inside = false;
            }
        } else if c == '\x1b' {
            inside = true;
        } else {
            plain.push(c);
        }
    }
    plain
}

#[test]
fn new_logger_writes_to_standard_output_only() {
    let logger = Logger::new();
    assert!(!logger._is_logfile());
    assert!(logger._is_stdout());
    assert_eq!(logger.get_path(), None);
}

#[test]
fn set_logfile_sets_the_path() {
    let mut logger = Logger::new();
    logger.set_logfile("run.log");
    assert!(logger._is_logfile());
    assert!(!logger._is_stdout());
    assert_eq!(logger.get_path(), Some("run.log".to_string()));
}

#[test]
fn set_logfile_twice_keeps_the_last_path() {
    let mut logger = Logger::new();
    logger.set_logfile("first.log");
    logger.set_logfile("logs/second.log");
    assert_eq!(logger.get_path(), Some("logs/second.log".to_string()));
}

#[test]
fn set_multi_without_file_changes_nothing_visible() {
    let mut logger = Logger::new();
    logger.set_multi();
    assert!(!logger._is_logfile());
    assert!(logger._is_stdout());
}

#[test]
fn set_multi_with_file_writes_to_both() {
    let mut logger = Logger::new();
    logger.set_logfile("run.log");
    logger.set_multi();
    assert!(logger._is_logfile());
    assert!(logger._is_stdout());
}

#[test]
fn set_debug_gates_nothing() {
    let mut plain = Logger::new();
    plain.set_logfile("run.log");
    let mut debugging = plain.clone();
    debugging.set_debug();
    assert_ne!(plain, debugging);
    for level in LEVELS {
        assert_eq!(
            plain.render(level.label(), level.color(), "m", STAMP, STAMP),
            debugging.render(level.label(), level.color(), "m", STAMP, STAMP)
        );
    }
    assert_eq!(debugging._is_logfile(), plain._is_logfile());
    assert_eq!(debugging._is_stdout(), plain._is_stdout());
}

#[test]
fn logfile_type_get_path() {
    assert_eq!(LogfileType::Nofile.get_path(), None);
    assert_eq!(
        LogfileType::FileHandler("a/b.log".to_string()).get_path(),
        Some("a/b.log".to_string())
    );
}

#[test]
fn render_without_file_gives_console_line_only() {
    let logger = Logger::new();
    for level in LEVELS {
        let out = logger.render(level.label(), level.color(), "hello world", STAMP, STAMP);
        assert_eq!(out.file, None);
        let line = out.console.expect("a console line");
        assert_eq!(
            line,
            format!(
                "{} \x1b[1;1m{}{}\x1b[0m\x1b[1;1m\x1b[0m hello world\n",
                STAMP,
                level.color(),
                level.label()
            )
        );
        assert_eq!(strip_escapes(&line), format!("{} {} hello world\n", STAMP, level.label()));
        assert_eq!(line.matches('\n').count(), 1);
    }
}

#[test]
fn render_with_file_gives_file_line_only() {
    let mut logger = Logger::new();
    logger.set_logfile("run.log");
    for level in LEVELS {
        let out = logger.render(level.label(), level.color(), "hello world", STAMP, "unused");
        assert_eq!(out.console, None);
        assert_eq!(
            out.file,
            Some(FileLine {
                path: "run.log".to_string(),
                text: format!("[{}] {} hello world\n", STAMP, level.label()),
            })
        );
    }
}

#[test]
fn render_with_file_and_multi_gives_both_lines() {
    let mut logger = Logger::new();
    logger.set_logfile("run.log");
    logger.set_multi();
    let out = logger.render("WARNING", "\x1b[0;33m", "low disk", "2024-3-7 9:5:0", "2024-3-7 9:5:1");
    assert_eq!(
        out,
        LogOutput {
            file: Some(FileLine {
                path: "run.log".to_string(),
                text: "[2024-3-7 9:5:0] WARNING low disk\n".to_string(),
            }),
            console: Some(
                "2024-3-7 9:5:1 \x1b[1;1m\x1b[0;33mWARNING\x1b[0m\x1b[1;1m\x1b[0m low disk\n"
                    .to_string()
            ),
        }
    );
}

#[test]
fn log_without_file_gives_one_console_line_for_each_level() {
    let logger = Logger::new();
    for level in LEVELS {
        let out = logger.log(level, "plain message".to_string());
        assert_eq!(out.file, None);
        let line = out.console.expect("a console line");
        assert_eq!(line.matches('\n').count(), 1);
        let plain = strip_escapes(&line);
        assert!(plain.ends_with(&format!(" {} plain message\n", level.label())));
        assert!(line.contains(level.color()));
        assert!(line.contains("plain message"));
    }
}

#[test]
fn log_with_file_gives_one_file_line_for_each_level() {
    let mut logger = Logger::new();
    logger.set_logfile("out/app.log");
    for level in LEVELS {
        let out = logger.log(level, "plain message".to_string());
        assert_eq!(out.console, None);
        let line = out.file.expect("a file line");
        assert_eq!(line.path, "out/app.log");
        assert!(line.text.starts_with('['));
        assert!(line.text.ends_with(&format!("] {} plain message\n", level.label())));
        assert_eq!(line.text.matches('\n').count(), 1);
        assert!(!line.text.contains('\x1b'));
    }
}

#[test]
fn log_with_file_and_multi_gives_both_lines() {
    let mut logger = Logger::new();
    logger.set_logfile("app.log");
    logger.set_multi();
    let out = logger.log(LogLevel::Success, "done".to_string());
    let file = out.file.expect("a file line");
    let console = out.console.expect("a console line");
    assert_eq!(file.path, "app.log");
    assert!(file.text.ends_with("] SUCCESS done\n"));
    assert!(strip_escapes(&console).ends_with(" SUCCESS done\n"));
}

#[test]
fn log_error_returns() {
    let out = Logger::new().log(LogLevel::Error, "Panic!!!!".to_string());
    assert!(out.console.expect("a console line").contains("ERROR"));
}

#[test]
fn print_takes_any_label_and_color() {
    let mut logger = Logger::new();
    logger.set_logfile("x.log");
    logger.set_multi();
    let out = logger.print("NOTE", "\x1b[0;36m", "custom".to_string());
    assert!(out.file.expect("a file line").text.ends_with("] NOTE custom\n"));
    let console = out.console.expect("a console line");
    assert!(console.ends_with(" \x1b[1;1m\x1b[0;36mNOTE\x1b[0m\x1b[1;1m\x1b[0m custom\n"));
}

#[test]
fn file_line_stamp_is_a_timestamp() {
    let mut logger = Logger::new();
    logger.set_logfile("run.log");
    let out = logger.log(LogLevel::Info, "started".to_string());
    let text = out.file.expect("a file line").text;
    let stamp = text
        .strip_prefix('[')
        .and_then(|rest| rest.strip_suffix("] INFO started\n"))
        .expect("the stamp in brackets");
    assert!(stamp.chars().all(|c| c.is_ascii_digit() || c == '-' || c == ' ' || c == ':'));
    let year: u64 = stamp.split('-').next().expect("a year").parse().expect("a number");
    assert!(year >= 2022);
}

#[test]
fn end_to_end_file_logging() {
    let mut logger = Logger::new();
    logger.set_logfile("run.log");
    let out = logger.log(LogLevel::Info, "started".to_string());
    assert_eq!(out.console, None);
    let line = out.file.expect("a file line");
    assert_eq!(line.path, "run.log");
    assert!(line.text.starts_with('['));
    assert!(line.text.ends_with("] INFO started\n"));
    assert_eq!(line.text.matches('\n').count(), 1);
}

#[test]
fn sequential_messages_give_lines_in_call_order() {
    let mut logger = Logger::new();
    logger.set_logfile("seq.log");
    let mut contents = String::new();
    let mut n = 0;
    while n < 5 {
        let out = logger.log(LogLevel::Debug, format!("message {}", n));
        contents.push_str(&out.file.expect("a file line").text);
        n += 1;
    }
    let lines: Vec<&str> = contents.lines().collect();
    assert_eq!(lines.len(), 5);
    assert_eq!(contents.matches('\n').count(), 5);
    for (i, line) in lines.iter().enumerate() {
        assert!(line.starts_with('['));
        assert!(line.ends_with(&format!("] DEBUG message {}", i)));
    }
}

#[test]
fn message_with_line_feed_is_kept_verbatim() {
    let mut logger = Logger::new();
    logger.set_logfile("run.log");
    let out = logger.render("INFO", "\x1b[0;34m", "two\nlines", STAMP, STAMP);
    assert_eq!(out.file.expect("a file line").text, "[2024-3-7 9:5:0] INFO two\nlines\n");
}
