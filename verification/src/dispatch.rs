//! The way a log takes from the place where it is made to a logger.

use crate::format::Format;
use crate::log::{LogItem, LogLevel, Logger, Record};
use crate::logger::FileLogger;
use vstd::prelude::*;

verus! {

/// How an attempt to log ended.
#[derive(Debug)]
pub enum Dispatch<T> {
    /// The logger emitted the log and gave this back.
    Emitted(T),
    /// The logger does not let the level through.
    Suppressed,
    /// The logger lets the level through but cannot lay the log out: a time
    /// pattern is not valid.
    Unrenderable,
}

/// Makes the log of a level, a message and a format, and emits it through
/// `logger` where the logger lets it through. `None` says that the log was
/// suppressed.
pub fn __log_message<L: Logger>(log_level: LogLevel, message: &str, format: Format, logger: &mut L) -> (out:
    Option<L::ReturnType>)
    requires
        old(logger).permits(log_level) ==> old(logger).renders(
            Record { format: format@, message: message@, level: log_level },
        ),
    ensures
        out is Some <==> old(logger).permits(log_level),
        out matches Some(given) ==> old(logger).emits(
            Record { format: format@, message: message@, level: log_level },
            given,
            *final(logger),
        ),
        out is None ==> *final(logger) == *old(logger),
{
    let item = LogItem::new(format, log_level, message);
    if logger.can_log_item(&item) {
        Some(logger.log_item(item))
    } else {
        None
    }
}

/// Asks the logger what would become of a log: `Suppressed` where it does
/// not let the level through, `Unrenderable` where it lets it through but
/// cannot lay the log out, `Emitted` where it would emit it.
fn foresee<L: Logger>(log_level: LogLevel, message: &str, format: &Format, logger: &L) -> (answer: Dispatch<()>)
    ensures
        answer is Suppressed <==> !logger.permits(log_level),
        answer is Unrenderable <==> logger.permits(log_level) && !logger.renders(
            Record { format: format@, message: message@, level: log_level },
        ),
{
    let item = LogItem::new(format.clone(), log_level, message);
    if !logger.can_log_item(&item) {
        Dispatch::Suppressed
    } else if !logger.can_render_item(&item) {
        Dispatch::Unrenderable
    } else {
        Dispatch::Emitted(())
    }
}

/// Logs as [__log_message] does, after asking the logger whether it can lay
/// the log out; where it cannot, nothing is emitted.
pub fn checked_log_message<L: Logger>(log_level: LogLevel, message: &str, format: Format, logger: &mut L) -> (out:
    Dispatch<L::ReturnType>)
    ensures
        out is Suppressed <==> !old(logger).permits(log_level),
        out is Unrenderable <==> old(logger).permits(log_level) && !old(logger).renders(
            Record { format: format@, message: message@, level: log_level },
        ),
        out matches Dispatch::Emitted(given) ==> old(logger).emits(
            Record { format: format@, message: message@, level: log_level },
            given,
            *final(logger),
        ),
        !(out is Emitted) ==> *final(logger) == *old(logger),
{
    match foresee(log_level, message, &format, &*logger) {
        Dispatch::Suppressed => Dispatch::Suppressed,
        Dispatch::Unrenderable => Dispatch::Unrenderable,
        Dispatch::Emitted(()) => match __log_message(log_level, message, format, logger) {
            Some(given) => Dispatch::Emitted(given),
            None => Dispatch::Suppressed,
        },
    }
}

/// Logs through the default logger, once the host has tried to take its
/// lock. `locked` is the logger behind the lock, or the error of the lock.
/// A failed lock is handed on as the error it is and nothing is logged;
/// behind a lock that was taken, the log is emitted as [__log_message] emits
/// it, and `Ok(None)` says that the log was suppressed.
pub fn __default_log_message(log_level: LogLevel, message: &str, format: Format, locked: Result<&mut FileLogger, String>) -> (out:
    Result<Option<Option<String>>, String>)
    requires
        locked matches Ok(logger) ==> (logger.permits(log_level) ==> logger.renders(
            Record { format: format@, message: message@, level: log_level },
        )),
    ensures
        match locked {
            Ok(logger) => {
                &&& out matches Ok(given) && {
                    &&& given is Some <==> logger.permits(log_level)
                    &&& given matches Some(text) ==> logger.emits(
                        Record { format: format@, message: message@, level: log_level },
                        text,
                        *final(logger),
                    )
                    &&& given is None ==> *final(logger) == *logger
                }
            },
            Err(error) => out == Err::<Option<Option<String>>, String>(error),
        },
{
    match locked {
        Ok(logger) => Ok(__log_message(log_level, message, format, logger)),
        Err(error) => Err(error),
    }
}

/// Logs through the default logger as [__default_log_message] does, after
/// asking the logger whether it can lay the log out; where it cannot,
/// nothing is emitted. A failed lock is handed on as the error it is.
pub fn checked_default_log_message(log_level: LogLevel, message: &str, format: Format, locked: Result<&mut FileLogger, String>) -> (out:
    Result<Dispatch<Option<String>>, String>)
    ensures
        match locked {
            Ok(logger) => {
                &&& out matches Ok(end) && {
                    &&& end is Suppressed <==> !logger.permits(log_level)
                    &&& end is Unrenderable <==> logger.permits(log_level) && !logger.renders(
                        Record { format: format@, message: message@, level: log_level },
                    )
                    &&& end matches Dispatch::Emitted(given) ==> logger.emits(
                        Record { format: format@, message: message@, level: log_level },
                        given,
                        *final(logger),
                    )
                    &&& !(end is Emitted) ==> *final(logger) == *logger
                }
            },
            Err(error) => out == Err::<Dispatch<Option<String>>, String>(error),
        },
{
    match locked {
        Ok(logger) => match foresee(log_level, message, &format, &*logger) {
            Dispatch::Suppressed => Ok(Dispatch::Suppressed),
            Dispatch::Unrenderable => Ok(Dispatch::Unrenderable),
            Dispatch::Emitted(()) => match __default_log_message(log_level, message, format, Ok(logger)) {
                Ok(Some(given)) => Ok(Dispatch::Emitted(given)),
                Ok(None) => Ok(Dispatch::Suppressed),
                Err(error) => Err(error),
            },
        },
        Err(error) => Err(error),
    }
}

} // verus!
