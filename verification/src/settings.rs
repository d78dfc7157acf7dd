//! The settings in force: what the file says, overridden by the command line.

use crate::config::Config;
use vstd::prelude::*;

verus! {

/// How much is logged.
#[derive(Debug, Clone, Copy, PartialEq, Eq, Structural)]
pub enum LogLevel {
    Info,
    Debug,
    Trace,
}

/// What the command line gave.
#[derive(Debug, Clone, Copy, PartialEq, Eq)]
pub struct Overrides {
    /// The port, where one was given.
    pub port: Option<u16>,
    /// Whether debug logging was asked for.
    pub debug: bool,
    /// Whether trace logging was asked for.
    pub trace: bool,
}

/// The settings that the client runs with.
#[derive(Debug, PartialEq, Eq)]
pub struct Settings {
    pub port: u16,
    pub script_path: String,
    pub log_level: LogLevel,
}

/// The mathematical content of [`Settings`].
pub struct SettingsView {
    pub port: u16,
    pub script_path: Seq<char>,
    pub log_level: LogLevel,
}

impl View for Settings {
    type V = SettingsView;

    open spec fn view(&self) -> SettingsView {
        SettingsView {
            port: self.port,
            script_path: self.script_path@,
            log_level: self.log_level,
        }
    }
}

/// The lowercase form of a text as `str::to_lowercase` gives it: the
/// characters' lowercase mappings by the Unicode character database, which
/// this library does not spell out.
pub uninterp spec fn lowercase(text: Seq<char>) -> Seq<char>;

/// The level that a name in lowercase stands for. A name that is none of the
/// three stands for `Info`.
pub open spec fn level_named(lowered: Seq<char>) -> LogLevel {
    if lowered == "trace"@ {
        LogLevel::Trace
    } else if lowered == "debug"@ {
        LogLevel::Debug
    } else {
        LogLevel::Info
    }
}

/// The level in force: `trace` on the command line wins, then `debug`, then
/// the name from the file, given here in lowercase.
pub open spec fn level_in_force(trace: bool, debug: bool, lowered: Seq<char>) -> LogLevel {
    if trace {
        LogLevel::Trace
    } else if debug {
        LogLevel::Debug
    } else {
        level_named(lowered)
    }
}

/// The port in force: the command line's where it gave one.
pub open spec fn port_in_force(given: Option<u16>, configured: u16) -> u16 {
    match given {
        Some(port) => port,
        None => configured,
    }
}

/// Calls `str::to_lowercase`.
///
/// Trusted: the result is named, not described. The claim is that it
/// depends on the text alone.
#[verifier::external_body]
fn to_lowercase(text: &str) -> (lowered: String)
    ensures
        lowered@ == lowercase(text@),
{
    text.to_lowercase()
}

/// Reads a level's name, which must be in lowercase already.
pub fn level_from_lowercase(lowered: &str) -> (level: LogLevel)
    ensures
        level == level_named(lowered@),
{
    let name = String::from_str(lowered);
    if name == String::from_str("trace") {
        LogLevel::Trace
    } else if name == String::from_str("debug") {
        LogLevel::Debug
    } else {
        LogLevel::Info
    }
}

/// Decides the log level from the command line's two switches and the name
/// in the file, whose case does not matter.
pub fn select_log_level(trace: bool, debug: bool, configured: &str) -> (level: LogLevel)
    ensures
        level == level_in_force(trace, debug, lowercase(configured@)),
{
    if trace {
        LogLevel::Trace
    } else if debug {
        LogLevel::Debug
    } else {
        let lowered = to_lowercase(configured);
        level_from_lowercase(lowered.as_str())
    }
}

/// Decides the port: the command line's where it gave one, else the file's.
pub fn effective_port(given: Option<u16>, configured: u16) -> (port: u16)
    ensures
        port == port_in_force(given, configured),
{
    match given {
        Some(port) => port,
        None => configured,
    }
}

/// Puts the command line over the file.
pub fn resolve(overrides: Overrides, config: Config) -> (settings: Settings)
    ensures
        settings@ == (SettingsView {
            port: port_in_force(overrides.port, config@.port),
            script_path: config@.script_path,
            log_level: level_in_force(
                overrides.trace,
                overrides.debug,
                lowercase(config@.log_level),
            ),
        }),
{
    let log_level = select_log_level(overrides.trace, overrides.debug, config.log_level.as_str());
    Settings {
        port: effective_port(overrides.port, config.port),
        script_path: config.script_path,
        log_level,
    }
}

} // verus!
