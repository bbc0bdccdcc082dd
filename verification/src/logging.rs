//! The lines that the dispatcher reports, as values for the caller to log.

use vstd::prelude::*;
use vstd::string::StringExecFns;

verus! {

/// How grave a reported line is.
#[derive(Debug, Clone, Copy, PartialEq, Eq, Structural)]
pub enum LogLevel {
    Error,
    Warn,
    Info,
    Debug,
}

/// One reported line.
#[derive(Debug)]
pub struct LogRecord {
    pub level: LogLevel,
    pub message: String,
}

impl View for LogRecord {
    type V = (LogLevel, Seq<char>);

    open spec fn view(&self) -> (LogLevel, Seq<char>) {
        (self.level, self.message@)
    }
}

/// The records of a list, each taken by its view.
pub open spec fn record_views(records: Seq<LogRecord>) -> Seq<(LogLevel, Seq<char>)> {
    records.map_values(|r: LogRecord| r@)
}

/// A line about the task of the item `id`.
pub open spec fn task_text(id: Seq<char>, text: Seq<char>) -> Seq<char> {
    "[task "@ + id + "] "@ + text
}

/// Writes a line about the task of the item `id`.
pub fn task_line(id: &str, text: &str) -> (line: String)
    ensures
        line@ == task_text(id@, text@),
{
    let mut line = String::from_str("[task ");
    line.append(id);
    line.append("] ");
    line.append(text);
    line
}

/// The line that tells of a failed task and its cause.
pub open spec fn failure_text(id: Seq<char>, cause: Seq<char>) -> Seq<char> {
    task_text(id, "task failed: "@ + cause)
}

/// Reports a failed task and its cause.
pub fn failure_record(id: &str, cause: &str) -> (record: LogRecord)
    ensures
        record@ == (LogLevel::Error, failure_text(id@, cause@)),
{
    let text = String::from_str("task failed: ").concat(cause);
    LogRecord { level: LogLevel::Error, message: task_line(id, text.as_str()) }
}

} // verus!
