//! How log records are presented on the serial console.
use vstd::prelude::*;

verus! {

/// The level of a log record, from the most to the least severe.
#[derive(Debug, Clone, Copy, PartialEq, Eq, Structural)]
pub enum Level {
    Error,
    Warn,
    Info,
    Debug,
    Trace,
}

/// The prefix of a record of a level: a bold colored marker, then a reset of
/// the attributes.
pub open spec fn spec_prefix(level: Level) -> Seq<char> {
    match level {
        Level::Error => "\x1B[1m\x1b[31m[!]\x1b[0m"@,
        Level::Warn => "\x1B[1m\x1b[33m[-]\x1b[0m"@,
        Level::Info => "\x1B[1m\x1b[32m[*]\x1b[0m"@,
        Level::Debug => "\x1B[1m\x1b[34m[#]\x1b[0m"@,
        Level::Trace => "\x1B[1m\x1b[35m[~]\x1b[0m"@,
    }
}

/// The prefix printed before a record of the given level: `[!]` in red for
/// errors, `[-]` in yellow for warnings, `[*]` in green for information, `[#]`
/// in blue for debugging and `[~]` in magenta for traces.
pub fn prefix(level: Level) -> (r: &'static str)
    ensures
        r@ == spec_prefix(level),
{
    match level {
        Level::Error => "\x1B[1m\x1b[31m[!]\x1b[0m",
        Level::Warn => "\x1B[1m\x1b[33m[-]\x1b[0m",
        Level::Info => "\x1B[1m\x1b[32m[*]\x1b[0m",
        Level::Debug => "\x1B[1m\x1b[34m[#]\x1b[0m",
        Level::Trace => "\x1B[1m\x1b[35m[~]\x1b[0m",
    }
}

} // verus!
