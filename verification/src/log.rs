//! Which log records reach the browser console, and how.
use vstd::prelude::*;
use vstd::string::*;
use crate::text::{occurs_at, starts_with};

verus! {

/// The level of a log record, from the most to the least severe.
#[derive(Debug, Clone, Copy, PartialEq, Eq, Structural)]
pub enum LogLevel {
    Error,
    Warn,
    Info,
    Debug,
    Trace,
}

/// Whether a level is `Debug` or more verbose.
pub open spec fn is_verbose(level: LogLevel) -> bool {
    level is Debug || level is Trace
}

/// Whether a target belongs to the graphics stack, whose verbose records
/// would flood the console.
pub open spec fn is_graphics_target(target: Seq<char>) -> bool {
    occurs_at(target, "wgpu"@, 0) || occurs_at(target, "naga"@, 0)
}

/// Whether the bridge from `log` drops a record before tracing sees it:
/// verbose records of the graphics stack.
pub fn drops_record(level: LogLevel, target: &str) -> (r: bool)
    ensures
        r == (is_verbose(level) && is_graphics_target(target@)),
{
    match level {
        LogLevel::Debug | LogLevel::Trace => starts_with(target, "wgpu") || starts_with(
            target,
            "naga",
        ),
        _ => false,
    }
}

/// The console method a record is written with.
#[derive(Debug, Clone, Copy, PartialEq, Eq, Structural)]
pub enum ConsoleMethod {
    Error,
    Warn,
    Info,
    Log,
    Debug,
}

/// The console method for each level: `console.log` for `Debug` and
/// `console.debug` for `Trace`, the method of the same name otherwise.
pub fn console_method(level: LogLevel) -> (r: ConsoleMethod)
    ensures
        r == match level {
            LogLevel::Error => ConsoleMethod::Error,
            LogLevel::Warn => ConsoleMethod::Warn,
            LogLevel::Info => ConsoleMethod::Info,
            LogLevel::Debug => ConsoleMethod::Log,
            LogLevel::Trace => ConsoleMethod::Debug,
        },
{
    match level {
        LogLevel::Error => ConsoleMethod::Error,
        LogLevel::Warn => ConsoleMethod::Warn,
        LogLevel::Info => ConsoleMethod::Info,
        LogLevel::Debug => ConsoleMethod::Log,
        LogLevel::Trace => ConsoleMethod::Debug,
    }
}

/// Whether a field of a tracing event is the message the console shows.
pub fn is_message_field(name: &str) -> (r: bool)
    ensures
        r == (name@ == "message"@),
{
    crate::text::text_equals(name, "message")
}

} // verus!
