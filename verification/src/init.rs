//! What is decided while the service starts.

use crate::config::Config;
use vstd::prelude::*;

verus! {

/// The lower-case form of a text, as `str::to_lowercase` gives it.
pub uninterp spec fn lowercase_of(text: Seq<char>) -> Seq<char>;

/// Calls `str::to_lowercase`. Trusted: the result is the value that
/// [`lowercase_of`] stands for.
#[verifier::external_body]
fn to_lowercase(text: &str) -> (lower: String)
    ensures
        lower@ == lowercase_of(text@),
{
    text.to_lowercase()
}

/// How much the service logs.
#[derive(Copy, Clone, Debug, PartialEq, Eq, Structural)]
pub enum LogLevel {
    Trace,
    Debug,
    Info,
    Warn,
    Error,
}

/// The level that a name stands for, whatever the case of its letters. A
/// name that is none of the five stands for `Info`.
pub open spec fn level_named(name: Seq<char>) -> LogLevel {
    let lower = lowercase_of(name);
    if lower == "trace"@ {
        LogLevel::Trace
    } else if lower == "debug"@ {
        LogLevel::Debug
    } else if lower == "info"@ {
        LogLevel::Info
    } else if lower == "warn"@ {
        LogLevel::Warn
    } else if lower == "error"@ {
        LogLevel::Error
    } else {
        LogLevel::Info
    }
}

/// The level at which the logger is set up for the configured name.
pub fn log_level(level: &str) -> (res: LogLevel)
    ensures
        res == level_named(level@),
{
    let lower = to_lowercase(level);
    if lower == String::from_str("trace") {
        LogLevel::Trace
    } else if lower == String::from_str("debug") {
        LogLevel::Debug
    } else if lower == String::from_str("info") {
        LogLevel::Info
    } else if lower == String::from_str("warn") {
        LogLevel::Warn
    } else if lower == String::from_str("error") {
        LogLevel::Error
    } else {
        LogLevel::Info
    }
}

/// Where the database is: in memory where that is asked for, else where the
/// configuration says.
pub fn db_conn_str(config: &Config, in_memory: bool) -> (url: String)
    ensures
        url@ == (if in_memory {
            "sqlite::memory:"@
        } else {
            config.database_url@
        }),
{
    if in_memory {
        String::from_str("sqlite::memory:")
    } else {
        config.database_url.clone()
    }
}

} // verus!
