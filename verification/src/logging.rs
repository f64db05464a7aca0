//! How log records are labelled: each level has a color and a label of the
//! same width, so that the messages of all levels line up.

use vstd::prelude::*;

use crate::text::{decimal, push_decimal};

verus! {

/// The severity of a log record.
#[derive(Debug, PartialEq, Eq, Clone, Copy)]
pub enum LogLevel {
    Error,
    Warn,
    Info,
    Debug,
    Trace,
}

/// The color a level's label is written in.
#[derive(Debug, PartialEq, Eq, Clone, Copy)]
pub enum LevelColor {
    Red,
    Yellow,
    Green,
    Blue,
    Magenta,
}

pub open spec fn level_label_spec(level: LogLevel) -> Seq<char> {
    match level {
        LogLevel::Trace => "TRACE"@,
        LogLevel::Debug => "DEBUG"@,
        LogLevel::Info => "INFO "@,
        LogLevel::Warn => "WARN "@,
        LogLevel::Error => "ERROR"@,
    }
}

pub open spec fn level_color_spec(level: LogLevel) -> LevelColor {
    match level {
        LogLevel::Trace => LevelColor::Magenta,
        LogLevel::Debug => LevelColor::Blue,
        LogLevel::Info => LevelColor::Green,
        LogLevel::Warn => LevelColor::Yellow,
        LogLevel::Error => LevelColor::Red,
    }
}

/// The label and the color of a level.
pub fn level_style(level: LogLevel) -> (res: (LevelColor, &'static str))
    ensures
        res.0 == level_color_spec(level),
        res.1@ == level_label_spec(level),
{
    match level {
        LogLevel::Trace => (LevelColor::Magenta, "TRACE"),
        LogLevel::Debug => (LevelColor::Blue, "DEBUG"),
        LogLevel::Info => (LevelColor::Green, "INFO "),
        LogLevel::Warn => (LevelColor::Yellow, "WARN "),
        LogLevel::Error => (LevelColor::Red, "ERROR"),
    }
}

/// The filter used where the environment sets none: `debug` when verbose,
/// else `info`.
pub fn default_filter(verbose: bool) -> (res: &'static str)
    ensures
        res@ == (if verbose { "debug"@ } else { "info"@ }),
{
    if verbose {
        "debug"
    } else {
        "info"
    }
}

/// All labels have the same width, five characters, so that messages line
/// up whatever their level.
pub proof fn lemma_labels_line_up(level: LogLevel)
    ensures
        level_label_spec(level).len() == 5,
{
    reveal_strlit("TRACE");
    reveal_strlit("DEBUG");
    reveal_strlit("INFO ");
    reveal_strlit("WARN ");
    reveal_strlit("ERROR");
}

/// The line of a log record: the level's label, the time, the place as
/// `file:line` (`unknown` and `0` where they are not known), and the
/// message, separated by spaces, with `: ` before the message.
pub open spec fn record_line_spec(
    level: Seq<char>,
    time: Seq<char>,
    file: Option<Seq<char>>,
    line: Option<u32>,
    message: Seq<char>,
) -> Seq<char> {
    let file_text = match file {
        Some(f) => f,
        None => "unknown"@,
    };
    let line_number: nat = match line {
        Some(n) => n as nat,
        None => 0,
    };
    level + " "@ + time + " "@ + file_text + ":"@ + decimal(line_number) + ": "@ + message
}

/// Writes the line of a log record from its already rendered parts.
pub fn record_line(level: &str, time: &str, file: Option<&str>, line: Option<u32>, message: &str) -> (res:
    String)
    ensures
        res@ == record_line_spec(
            level@,
            time@,
            match file {
                Some(f) => Some(f@),
                None => None,
            },
            line,
            message@,
        ),
        (file is Some && line is Some) ==> res@ == level@ + " "@ + time@ + " "@ + file->0@ + ":"@
            + decimal(line->0 as nat) + ": "@ + message@,
{
    let mut out = String::from_str(level);
    out.append(" ");
    out.append(time);
    out.append(" ");
    match file {
        Some(f) => out.append(f),
        None => out.append("unknown"),
    }
    out.append(":");
    match line {
        Some(n) => push_decimal(&mut out, n),
        None => push_decimal(&mut out, 0),
    }
    out.append(": ");
    out.append(message);
    out
}

/// A record line is the level, a space, the time, a space, the file, `:`,
/// the line number in decimal, `: ` and the message; a missing file is
/// written `unknown` and a missing line number `0`.
pub proof fn lemma_record_line_layout(
    level: Seq<char>,
    time: Seq<char>,
    file: Option<Seq<char>>,
    line: Option<u32>,
    message: Seq<char>,
)
    ensures
        (file is Some && line is Some) ==> record_line_spec(level, time, file, line, message)
            == level + " "@ + time + " "@ + file->0 + ":"@ + decimal(line->0 as nat) + ": "@ + message,
        (file is None && line is Some) ==> record_line_spec(level, time, file, line, message) == level
            + " "@ + time + " "@ + "unknown"@ + ":"@ + decimal(line->0 as nat) + ": "@ + message,
        (file is Some && line is None) ==> record_line_spec(level, time, file, line, message) == level
            + " "@ + time + " "@ + file->0 + ":"@ + decimal(0) + ": "@ + message,
        (file is None && line is None) ==> record_line_spec(level, time, file, line, message) == level + " "@
            + time + " "@ + "unknown"@ + ":"@ + decimal(0) + ": "@ + message,
{
}

} // verus!
