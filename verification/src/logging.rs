//! Which diagnostics the process lets through.

use crate::config::RunConfig;
use vstd::prelude::*;

verus! {

/// The severity of a diagnostic, most severe first.
#[derive(Clone, Copy, Debug, PartialEq, Eq, Structural)]
pub enum LogLevel {
    Error,
    Warn,
    Info,
    Debug,
    Trace,
}

/// How the logger is to be set up.
#[derive(Clone, Copy, Debug, PartialEq, Eq, Structural)]
pub enum LoggerSetup {
    /// `RUST_LOG` is set and decides. With `announce`, the operator is told
    /// that it overrides `-v`.
    Environment { announce: bool },
    /// The bridge's own diagnostics pass up to `own`, everybody else's up to
    /// `others`.
    Filters { own: LogLevel, others: LogLevel },
}

/// The most detailed level that `-v`, given `ll` times, lets through.
pub open spec fn level_for_verbosity(ll: u8) -> LogLevel {
    if ll == 0 {
        LogLevel::Warn
    } else if ll == 1 {
        LogLevel::Info
    } else if ll == 2 {
        LogLevel::Debug
    } else {
        LogLevel::Trace
    }
}

/// The logger setup for verbosity `ll`, given whether `RUST_LOG` is set.
pub open spec fn logger_setup(ll: u8, rust_log_set: bool) -> LoggerSetup {
    if rust_log_set {
        LoggerSetup::Environment { announce: ll > 0 }
    } else {
        LoggerSetup::Filters { own: level_for_verbosity(ll), others: LogLevel::Warn }
    }
}

/// Decides how the logger is set up for verbosity `ll`.
///
/// `RUST_LOG`, when set, wins over `-v`, and the operator is told so if `-v`
/// was given. Otherwise the bridge's own diagnostics pass up to the level that
/// `ll` stands for, and those of other crates up to warnings.
pub fn setup_env_logger(ll: u8, rust_log_set: bool) -> (setup: LoggerSetup)
    ensures
        setup == logger_setup(ll, rust_log_set),
{
    if rust_log_set {
        return LoggerSetup::Environment { announce: ll > 0 };
    }
    let own = match ll {
        0 => LogLevel::Warn,
        1 => LogLevel::Info,
        2 => LogLevel::Debug,
        _ => LogLevel::Trace,
    };
    LoggerSetup::Filters { own, others: LogLevel::Warn }
}

/// The logger setup made before the command line is read: one with
/// verbosity 0 if early logging was asked for, none otherwise.
pub fn early_logger(early_log_set: bool, rust_log_set: bool) -> (setup: Option<LoggerSetup>)
    ensures
        setup == if early_log_set {
            Some(logger_setup(0, rust_log_set))
        } else {
            None
        },
{
    if early_log_set {
        Some(setup_env_logger(0, rust_log_set))
    } else {
        None
    }
}

/// The logger setup made once the command line is read: one with the
/// configured verbosity, unless `-q` was given or the logger is set already.
pub fn logger_for(config: &RunConfig, already_set: bool, rust_log_set: bool) -> (setup: Option<
    LoggerSetup,
>)
    ensures
        setup == if !config.quiet && !already_set {
            Some(logger_setup(config.verbosity, rust_log_set))
        } else {
            None
        },
{
    if !config.quiet && !already_set {
        Some(setup_env_logger(config.verbosity, rust_log_set))
    } else {
        None
    }
}

} // verus!
