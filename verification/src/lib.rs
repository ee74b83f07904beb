//! A small structured-logging library: severity-tagged messages are laid out
//! by a configurable template and handed to a sink.
//!
//! The library performs no I/O. The file logger decides what is to be
//! appended to its file, and its host performs the write; the functions on
//! the default logger take the logger that the host holds behind its lock.
//! Time is read and laid out by `chrono`, through the three functions at the
//! end of [time].

pub mod dispatch;
pub mod format;
pub mod log;
pub mod logger;
pub mod text;
pub mod time;

pub use dispatch::{__default_log_message, __log_message};

use crate::log::LogLevel;
use crate::logger::FileLogger;
use vstd::prelude::*;

verus! {

/// Set the default logger's output file, once the host has taken the lock of
/// the default logger and, holding it, tried to open `path` for appending.
/// `locked` is the logger behind the lock, or the error of the lock; `opened`
/// says how opening went. A failed lock is handed on and so is a failed
/// opening, which leaves the logger as it was; after a success `path` is the
/// open file.
pub fn set_output_file(locked: Result<&mut FileLogger, String>, path: &str, opened: Result<(), String>) -> (result:
    Result<(), String>)
    ensures
        match locked {
            Ok(logger) => result == opened && final(logger)@ == (if opened is Ok {
                logger@.opened(path@)
            } else {
                logger@
            }),
            Err(error) => result == Err::<(), String>(error),
        },
{
    match locked {
        Ok(logger) => logger.open_file(path, opened),
        Err(error) => Err(error),
    }
}

/// Close the file opened by the default logger. `locked` is the logger
/// behind the lock, or the error of the lock, which is handed on.
pub fn close_output_file(locked: Result<&mut FileLogger, String>) -> (result: Result<(), String>)
    ensures
        match locked {
            Ok(logger) => result is Ok && final(logger)@ == logger@.closed(),
            Err(error) => result == Err::<(), String>(error),
        },
{
    match locked {
        Ok(logger) => {
            logger.close_file();
            Ok(())
        },
        Err(error) => Err(error),
    }
}

/// Prevents the default logger from logging logs at the specified levels.
/// `locked` is the logger behind the lock, or the error of the lock, which
/// is handed on.
pub fn restrict_log_levels(locked: Result<&mut FileLogger, String>, prohibited_levels: &[LogLevel]) -> (result:
    Result<(), String>)
    ensures
        match locked {
            Ok(logger) => result is Ok && final(logger)@ == logger@.restricting(prohibited_levels@),
            Err(error) => result == Err::<(), String>(error),
        },
{
    match locked {
        Ok(logger) => {
            logger.restrict_log_levels(prohibited_levels);
            Ok(())
        },
        Err(error) => Err(error),
    }
}

/// Removes any restrictions on the specified restricted log levels. A level
/// that is not restricted stays as it is. `locked` is the logger behind the
/// lock, or the error of the lock, which is handed on.
pub fn allow_log_levels(locked: Result<&mut FileLogger, String>, allowed_log_levels: &[LogLevel]) -> (result:
    Result<(), String>)
    ensures
        match locked {
            Ok(logger) => result is Ok && final(logger)@ == logger@.allowing(allowed_log_levels@),
            Err(error) => result == Err::<(), String>(error),
        },
{
    match locked {
        Ok(logger) => {
            logger.allow_log_levels(allowed_log_levels);
            Ok(())
        },
        Err(error) => Err(error),
    }
}

} // verus!
