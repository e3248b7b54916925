//! Log records collected into a caller-owned buffer, for the caller to forward
//! to whatever sink it runs.
use vstd::prelude::*;

verus! {

/// Severity of a log record.
#[derive(Clone, Copy, Debug, PartialEq, Eq, Structural)]
pub enum LogLevel {
    Info,
    Warning,
    Error,
    Debug,
}

/// One log record.
#[derive(Clone, Debug)]
pub struct LogEntry {
    pub level: LogLevel,
    pub message: String,
}

/// `sink` after the call is `sink` before it with one record of `level` and
/// `message` appended.
pub open spec fn appended(before: Seq<LogEntry>, after: Seq<LogEntry>, level: LogLevel, message: Seq<char>) -> bool {
    after.len() == before.len() + 1 && after.take(before.len() as int) == before
        && after.last().level == level && after.last().message@ == message
}

/// Appends a record of `level` and `message`.
pub fn log_at(sink: &mut Vec<LogEntry>, level: LogLevel, message: &str)
    ensures
        appended(old(sink)@, final(sink)@, level, message@),
{
    sink.push(LogEntry { level, message: String::from_str(message) });
    assert(final(sink)@.take(old(sink)@.len() as int) =~= old(sink)@);
}

/// Appends an informational record.
pub fn log_info(sink: &mut Vec<LogEntry>, message: &str)
    ensures
        appended(old(sink)@, final(sink)@, LogLevel::Info, message@),
{
    log_at(sink, LogLevel::Info, message);
}

/// Appends a warning record.
pub fn log_warning(sink: &mut Vec<LogEntry>, message: &str)
    ensures
        appended(old(sink)@, final(sink)@, LogLevel::Warning, message@),
{
    log_at(sink, LogLevel::Warning, message);
}

/// Appends an error record.
pub fn log_error(sink: &mut Vec<LogEntry>, message: &str)
    ensures
        appended(old(sink)@, final(sink)@, LogLevel::Error, message@),
{
    log_at(sink, LogLevel::Error, message);
}

/// Appends a debug record.
pub fn log_debug(sink: &mut Vec<LogEntry>, message: &str)
    ensures
        appended(old(sink)@, final(sink)@, LogLevel::Debug, message@),
{
    log_at(sink, LogLevel::Debug, message);
}

} // verus!
