//! Log levels: which names are accepted, in any letter case, and what they
//! select.

use crate::text::text_eq;
use vstd::prelude::*;

verus! {

/// How much the server logs, from least to most.
#[derive(Debug, Clone, Copy, PartialEq, Eq, Structural)]
pub enum LogLevel {
    Error,
    Warn,
    Info,
    Debug,
    Trace,
}

/// The lower-case form of a text, as `str::to_lowercase` gives it.
pub uninterp spec fn lower_of(s: Seq<char>) -> Seq<char>;

/// Relies on `str::to_lowercase`, whose result depends on the characters
/// alone.
#[verifier::external_body]
fn lowercase(s: &str) -> (r: String)
    ensures
        r@ == lower_of(s@),
{
    s.to_lowercase()
}

/// The level that a lower-case name stands for.
pub open spec fn level_named(name: Seq<char>) -> Option<LogLevel> {
    if name == "error"@ {
        Some(LogLevel::Error)
    } else if name == "warn"@ {
        Some(LogLevel::Warn)
    } else if name == "info"@ {
        Some(LogLevel::Info)
    } else if name == "debug"@ {
        Some(LogLevel::Debug)
    } else if name == "trace"@ {
        Some(LogLevel::Trace)
    } else {
        None
    }
}

/// Finds the level that an already lower-cased name stands for.
pub fn level_from_lowercase(name: &str) -> (r: Option<LogLevel>)
    ensures
        r == level_named(name@),
{
    if text_eq(name, "error") {
        Some(LogLevel::Error)
    } else if text_eq(name, "warn") {
        Some(LogLevel::Warn)
    } else if text_eq(name, "info") {
        Some(LogLevel::Info)
    } else if text_eq(name, "debug") {
        Some(LogLevel::Debug)
    } else if text_eq(name, "trace") {
        Some(LogLevel::Trace)
    } else {
        None
    }
}

/// A level name is valid when, lower-cased, it is one of `error`, `warn`,
/// `info`, `debug` and `trace`.
pub open spec fn valid_level(level: Seq<char>) -> bool {
    level_named(lower_of(level)) is Some
}

/// Tells whether a level name is valid, in any letter case.
pub fn is_valid_log_level(level: &str) -> (r: bool)
    ensures
        r == valid_level(level@),
{
    let lower = lowercase(level);
    level_from_lowercase(lower.as_str()).is_some()
}

/// The level a name selects, in any letter case; an unknown name selects
/// `Info`.
pub fn parse_log_level(level: &str) -> (r: LogLevel)
    ensures
        r == match level_named(lower_of(level@)) {
            Some(l) => l,
            None => LogLevel::Info,
        },
{
    let lower = lowercase(level);
    match level_from_lowercase(lower.as_str()) {
        Some(l) => l,
        None => LogLevel::Info,
    }
}

/// The valid level names, from least to most verbose.
pub fn valid_log_levels() -> (r: Vec<&'static str>)
    ensures
        r@.len() == 5,
        r@[0]@ == "error"@,
        r@[1]@ == "warn"@,
        r@[2]@ == "info"@,
        r@[3]@ == "debug"@,
        r@[4]@ == "trace"@,
{
    vec!["error", "warn", "info", "debug", "trace"]
}

/// The valid level names as one comma-separated list.
pub const LEVEL_LIST: &'static str = "error, warn, info, debug, trace";

} // verus!
