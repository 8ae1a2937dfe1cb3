//! Sorting one line of a child process's output into a log severity.
//!
//! The stream that a line came from does not change its class: a line on
//! standard error with no marker is informational, as on standard output.
use vstd::prelude::*;

use crate::chars::{
    contains, contains_exec, find_char, find_first, occurs_at, occurs_at_exec, same_text,
    trim_start, trim_start_exec,
};

verus! {

#[derive(PartialEq, Eq, Structural, Debug, Clone, Copy)]
pub enum Severity {
    Info,
    Warn,
    Error,
}

/// The stream of the child process that a line was read from.
#[derive(PartialEq, Eq, Structural, Debug, Clone, Copy)]
pub enum Origin {
    Stdout,
    Stderr,
}

/// A line of output with the severity it is logged at and the text logged.
#[derive(Debug, Clone)]
pub struct ClassifiedLine {
    pub severity: Severity,
    pub text: String,
    /// The line opens a Java exception report, which runs over several lines.
    pub errored: bool,
}

/// The positions of the `[` and `]` of a line's level tag: the first `[`, and
/// the first `]` after it, with at least one character between them.
pub open spec fn tag_bounds(line: Seq<char>) -> Option<(int, int)> {
    match find_char(line, '[') {
        Some(open) => match find_char(line.subrange(open + 1, line.len() as int), ']') {
            Some(k) => if k > 0 {
                Some((open, open + 1 + k))
            } else {
                None
            },
            None => None,
        },
        None => None,
    }
}

pub open spec fn level_severity(level: Seq<char>) -> Severity {
    if level == "WARN"@ {
        Severity::Warn
    } else if level == "FATAL"@ || level == "ERROR"@ {
        Severity::Error
    } else {
        Severity::Info
    }
}

pub open spec fn opens_exception(line: Seq<char>) -> bool {
    occurs_at(line, "Exception in thread"@, 0)
}

pub open spec fn line_severity(line: Seq<char>) -> Severity {
    match tag_bounds(line) {
        Some((open, close)) => level_severity(line.subrange(open + 1, close)),
        None => if opens_exception(line) || contains(line, "Error"@) {
            Severity::Error
        } else {
            Severity::Info
        },
    }
}

/// A tagged line is logged without its tag and the whitespace after it; any
/// other line is logged whole.
pub open spec fn line_text(line: Seq<char>) -> Seq<char> {
    match tag_bounds(line) {
        Some((open, close)) => trim_start(line.subrange(close + 1, line.len() as int)),
        None => line,
    }
}

/// Whether the line marks the run as having met an exception.
pub open spec fn line_errored(line: Seq<char>) -> bool {
    tag_bounds(line) is None && opens_exception(line)
}

fn find_tag(line: &str) -> (r: Option<(usize, usize)>)
    ensures
        match r {
            Some((open, close)) => tag_bounds(line@) == Some((open as int, close as int)) && open
                < close < line@.len(),
            None => tag_bounds(line@) is None,
        },
{
    let n = line.unicode_len();
    let open = match find_first(line, '[') {
        Some(k) => k,
        None => {
            return None;
        },
    };
    let rest = line.substring_char(open + 1, n);
    match find_first(rest, ']') {
        Some(k) => if k > 0 {
            Some((open, open + 1 + k))
        } else {
            None
        },
        None => None,
    }
}

fn level_severity_exec(level: &str) -> (r: Severity)
    ensures
        r == level_severity(level@),
{
    if same_text(level, "WARN") {
        Severity::Warn
    } else if same_text(level, "FATAL") || same_text(level, "ERROR") {
        Severity::Error
    } else {
        Severity::Info
    }
}

/// Classifies one line of output: a `[LEVEL]` tag decides the severity
/// (`WARN` a warning, `FATAL` or `ERROR` an error, any other an information);
/// an untagged line that opens a Java exception report or holds `Error` is an
/// error, and any other line an information.
pub fn classify_line(line: &str) -> (r: ClassifiedLine)
    ensures
        r.severity == line_severity(line@),
        r.text@ == line_text(line@),
        r.errored == line_errored(line@),
{
    let n = line.unicode_len();
    match find_tag(line) {
        Some((open, close)) => {
            let level = line.substring_char(open + 1, close);
            let rest = line.substring_char(close + 1, n);
            ClassifiedLine {
                severity: level_severity_exec(level),
                text: String::from_str(trim_start_exec(rest)),
                errored: false,
            }
        },
        None => {
            let exception = occurs_at_exec(line, "Exception in thread", 0);
            let severity = if exception || contains_exec(line, "Error") {
                Severity::Error
            } else {
                Severity::Info
            };
            ClassifiedLine { severity, text: String::from_str(line), errored: exception }
        },
    }
}

} // verus!
