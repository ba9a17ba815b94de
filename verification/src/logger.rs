//! Logging: deciding which messages are emitted and composing the log
//! line.
//!
//! A log line is the process name, the message kind, the wall-clock
//! stamp and the message, in a fixed layout.  Whether a kind is
//! active comes from the configuration; the clock comes from chrono
//! behind a trusted wrapper; writing to the terminal is a trusted
//! wrapper too; saving to disk is the application's part, which it does
//! with the line this module hands back.

use std::io::Write;

use vstd::prelude::*;
use vstd::string::*;

use crate::config::{Configs, Kinds};

verus! {

/// The kinds of log message.
#[derive(Clone, Copy, Debug, PartialEq, Eq, Structural)]
pub enum LogLevel {
    Info,
    Trace,
    Warn,
    Error,
}

/// The tag a kind shows in a log line.
pub open spec fn level_tag(l: LogLevel) -> Seq<char> {
    match l {
        LogLevel::Info => "INFO"@,
        LogLevel::Trace => "TRACE"@,
        LogLevel::Warn => "WARN"@,
        LogLevel::Error => "ERROR"@,
    }
}

/// Whether the configuration's kinds admit a message of kind `l`.
pub open spec fn level_enabled(k: Kinds, l: LogLevel) -> bool {
    match l {
        LogLevel::Info => k.info,
        LogLevel::Trace => k.trace,
        LogLevel::Warn => k.warn,
        LogLevel::Error => k.error,
    }
}

/// The full log line for a message.  The tag is rendered with its
/// quotes: they are part of the layout.
pub open spec fn log_line_spec(
    process: Seq<char>,
    l: LogLevel,
    stamp: Seq<char>,
    message: Seq<char>,
) -> Seq<char> {
    process + "::[\""@ + level_tag(l) + "\"] "@ + stamp + " - "@ + message
}

/// The full log line for a message with the caller's location (as
/// `file:line` text) between the stamp and the message.
pub open spec fn log_line_at_spec(
    process: Seq<char>,
    l: LogLevel,
    stamp: Seq<char>,
    location: Seq<char>,
    message: Seq<char>,
) -> Seq<char> {
    process + "::[\""@ + level_tag(l) + "\"] "@ + stamp + " ["@ + location + "] - "@ + message
}

/// The tag for a kind.
fn level_tag_str(l: LogLevel) -> (r: &'static str)
    ensures
        r@ == level_tag(l),
{
    match l {
        LogLevel::Info => "INFO",
        LogLevel::Trace => "TRACE",
        LogLevel::Warn => "WARN",
        LogLevel::Error => "ERROR",
    }
}

/// Composes the log line for a message.
pub fn compose_line(process: &str, l: LogLevel, stamp: &str, message: &str) -> (r: String)
    ensures
        r@ == log_line_spec(process@, l, stamp@, message@),
{
    let mut line = String::new();
    line.append(process);
    line.append("::[\"");
    line.append(level_tag_str(l));
    line.append("\"] ");
    line.append(stamp);
    line.append(" - ");
    line.append(message);
    proof {
        assert(line@ =~= log_line_spec(process@, l, stamp@, message@));
    }
    line
}

/// Composes the log line for a message with the caller's location.
pub fn compose_line_at(
    process: &str,
    l: LogLevel,
    stamp: &str,
    location: &str,
    message: &str,
) -> (r: String)
    ensures
        r@ == log_line_at_spec(process@, l, stamp@, location@, message@),
{
    let mut line = String::new();
    line.append(process);
    line.append("::[\"");
    line.append(level_tag_str(l));
    line.append("\"] ");
    line.append(stamp);
    line.append(" [");
    line.append(location);
    line.append("] - ");
    line.append(message);
    proof {
        assert(line@ =~= log_line_at_spec(process@, l, stamp@, location@, message@));
    }
    line
}

/// Relies on `chrono::Local::now` and its formatter: the current local
/// wall-clock time as `%Y-%m-%d %H:%M:%S` text.  The result depends on
/// the clock, so nothing is promised of it.
#[verifier::external_body]
fn now_stamp() -> String {
    chrono::Local::now().format("%Y-%m-%d %H:%M:%S").to_string()
}

/// Relies on `std::io::stdout`: shows one line on the terminal.
#[verifier::external_body]
pub(crate) fn print_line(line: &str) {
    let _ = writeln!(std::io::stdout(), "{}", line);
}

pub struct Logger;

impl Logger {
    /// Emits an informational message.
    pub fn info(config: &Configs, process: &str, message: &str, show: bool) -> (emitted: Option<
        String,
    >)
        ensures
            emitted is Some <==> config.log_spec().kinds.info,
            emitted matches Some(line) ==> exists|stamp: Seq<char>|
                line@ == log_line_spec(process@, LogLevel::Info, stamp, message@),
    {
        log_event(config, LogLevel::Info, process, message, show)
    }

    /// Emits a trace message.
    pub fn trace(config: &Configs, process: &str, message: &str, show: bool) -> (emitted: Option<
        String,
    >)
        ensures
            emitted is Some <==> config.log_spec().kinds.trace,
            emitted matches Some(line) ==> exists|stamp: Seq<char>|
                line@ == log_line_spec(process@, LogLevel::Trace, stamp, message@),
    {
        log_event(config, LogLevel::Trace, process, message, show)
    }

    /// Emits a warning message.
    pub fn warn(config: &Configs, process: &str, message: &str, show: bool) -> (emitted: Option<
        String,
    >)
        ensures
            emitted is Some <==> config.log_spec().kinds.warn,
            emitted matches Some(line) ==> exists|stamp: Seq<char>|
                line@ == log_line_spec(process@, LogLevel::Warn, stamp, message@),
    {
        log_event(config, LogLevel::Warn, process, message, show)
    }

    /// Emits an error message.
    pub fn error(config: &Configs, process: &str, message: &str, show: bool) -> (emitted: Option<
        String,
    >)
        ensures
            emitted is Some <==> config.log_spec().kinds.error,
            emitted matches Some(line) ==> exists|stamp: Seq<char>|
                line@ == log_line_spec(process@, LogLevel::Error, stamp, message@),
    {
        log_event(config, LogLevel::Error, process, message, show)
    }

    /// Emits a message of the given kind with the caller's location (as
    /// `file:line` text, which the application takes from its caller).
    pub fn log_at(
        config: &Configs,
        l: LogLevel,
        process: &str,
        location: &str,
        message: &str,
        show: bool,
    ) -> (emitted: Option<String>)
        ensures
            emitted is Some <==> level_enabled(config.log_spec().kinds, l),
            emitted matches Some(line) ==> exists|stamp: Seq<char>|
                line@ == log_line_at_spec(process@, l, stamp, location@, message@),
    {
        let kinds = config.get_log().kinds;
        let enabled = match l {
            LogLevel::Info => kinds.info,
            LogLevel::Trace => kinds.trace,
            LogLevel::Warn => kinds.warn,
            LogLevel::Error => kinds.error,
        };
        if enabled {
            let stamp = now_stamp();
            let line = compose_line_at(process, l, stamp.as_str(), location, message);
            if show {
                print_line(line.as_str());
            }
            proof {
                assert(line@ == log_line_at_spec(process@, l, stamp@, location@, message@));
            }
            Some(line)
        } else {
            None
        }
    }
}

/// Decides and composes one message: a line is produced exactly when
/// the message's kind is active, shown on the terminal when asked, and
/// returned so the caller can also save it.
fn log_event(config: &Configs, l: LogLevel, process: &str, message: &str, show: bool) -> (emitted:
    Option<String>)
    ensures
        emitted is Some <==> level_enabled(config.log_spec().kinds, l),
        emitted matches Some(line) ==> exists|stamp: Seq<char>|
            line@ == log_line_spec(process@, l, stamp, message@),
{
    let kinds = config.get_log().kinds;
    let enabled = match l {
        LogLevel::Info => kinds.info,
        LogLevel::Trace => kinds.trace,
        LogLevel::Warn => kinds.warn,
        LogLevel::Error => kinds.error,
    };
    if enabled {
        let stamp = now_stamp();
        let line = compose_line(process, l, stamp.as_str(), message);
        if show {
            print_line(line.as_str());
        }
        proof {
            assert(line@ == log_line_spec(process@, l, stamp@, message@));
        }
        Some(line)
    } else {
        None
    }
}

} // verus!
