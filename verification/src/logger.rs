//! How much the program logs.
use vstd::prelude::*;
use crate::text::concat_str;

verus! {

/// The most detailed kind of message that is logged.
#[derive(Debug, Clone, Copy, PartialEq, Eq, Structural)]
pub enum LogLevel {
    Info,
    Debug,
    Trace,
}

pub open spec fn spec_level_for_verbosity(verbose: u8) -> LogLevel {
    if verbose == 0 {
        LogLevel::Info
    } else if verbose == 1 {
        LogLevel::Debug
    } else {
        LogLevel::Trace
    }
}

/// The level that `-v` given `verbose` times asks for: none logs
/// information, one adds debugging, more add tracing.
pub fn level_for_verbosity(verbose: u8) -> (res: LogLevel)
    ensures
        res == spec_level_for_verbosity(verbose),
{
    if verbose == 0 {
        LogLevel::Info
    } else if verbose == 1 {
        LogLevel::Debug
    } else {
        LogLevel::Trace
    }
}

/// A log line: the time, the target and the level each in brackets after
/// it, then a space and the message.
pub open spec fn spec_log_line(
    time: Seq<char>,
    target: Seq<char>,
    level: Seq<char>,
    message: Seq<char>,
) -> Seq<char> {
    time + "["@ + target + "]["@ + level + "] "@ + message
}

/// Formats one log line from the formatted time, the record's target, the
/// (coloured) level text and the message.
pub fn format_log_message(time: &str, target: &str, level: &str, message: &str) -> (res: String)
    ensures
        res@ == spec_log_line(time@, target@, level@, message@),
{
    let a = concat_str(time, "[");
    let b = concat_str(a.as_str(), target);
    let c = concat_str(b.as_str(), "][");
    let d = concat_str(c.as_str(), level);
    let e = concat_str(d.as_str(), "] ");
    concat_str(e.as_str(), message)
}

} // verus!
