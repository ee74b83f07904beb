//! Severities, records and the sink interface.

use crate::format::{Format, Layout};
use vstd::prelude::*;

verus! {

/// The level of severity of a log message. The four levels carry no order:
/// a sink filters by an explicit list, not by rank.
#[derive(Copy, Clone, PartialEq, Eq, Structural, Debug, Hash)]
pub enum LogLevel {
    Error,
    Warning,
    StateChange,
    Information,
}

impl LogLevel {
    /// The fixed name of a level.
    pub open spec fn label(self) -> Seq<char> {
        match self {
            LogLevel::Error => "Error"@,
            LogLevel::Warning => "Warning"@,
            LogLevel::StateChange => "StateChange"@,
            LogLevel::Information => "Information"@,
        }
    }

    /// Converts a [LogLevel] variant into a string.
    pub fn as_str(&self) -> (name: &'static str)
        ensures
            name@ == self.label(),
    {
        match self {
            LogLevel::Error => "Error",
            LogLevel::Warning => "Warning",
            LogLevel::StateChange => "StateChange",
            LogLevel::Information => "Information",
        }
    }

    /// The name of the level as an owned string.
    pub fn to_string(&self) -> (name: String)
        ensures
            name@ == self.label(),
    {
        self.as_str().to_owned()
    }
}

/// What a [LogItem] holds.
pub struct Record {
    pub format: Layout,
    pub message: Seq<char>,
    pub level: LogLevel,
}

/// One log: the format, the level and the message of it. It is made once per
/// log and used up when it is laid out.
#[derive(Debug)]
pub struct LogItem {
    format: Format,
    message: String,
    level: LogLevel,
}

impl View for LogItem {
    type V = Record;

    closed spec fn view(&self) -> Record {
        Record { format: self.format@, message: self.message@, level: self.level }
    }
}

impl Clone for LogItem {
    fn clone(&self) -> (copy: Self)
        ensures
            copy@ == self@,
    {
        LogItem { format: self.format.clone(), message: self.message.clone(), level: self.level }
    }
}

impl LogItem {
    /// Create a new [LogItem]. The message is taken as it is.
    pub fn new(format: Format, level: LogLevel, message: &str) -> (item: Self)
        ensures
            item@ == (Record { format: format@, message: message@, level }),
    {
        Self { format, message: message.to_owned(), level }
    }

    /// Get the log level of this log.
    pub fn level(&self) -> (level: LogLevel)
        ensures
            level == self@.level,
    {
        self.level
    }

    /// Get the log message of this log.
    pub fn message(&self) -> (message: &String)
        ensures
            message@ == self@.message,
    {
        &self.message
    }

    /// Consume a [LogItem], returning the message.
    pub fn into_message(self) -> (message: String)
        ensures
            message@ == self@.message,
    {
        self.message
    }

    /// Get the format of this log.
    pub fn format(&self) -> (format: &Format)
        ensures
            format@ == self@.format,
    {
        &self.format
    }

    /// Builds the format and returns the built string.
    pub fn into(self) -> (line: String)
        requires
            self@.format.renderable(),
        ensures
            self@.format.renders_to(self@.level, self@.message, line@),
    {
        self.format.build_string(self.level, self.message.as_str())
    }
}

/// Defines the expected behaviour of a logger: it may veto a log by its
/// level, and it emits the logs that it lets through.
pub trait Logger: Sized {
    /// What emitting a log gives back.
    type ReturnType;

    /// Whether the logger lets a log of this level through. The answer
    /// depends on the logger and the level, never on the message. Unless a
    /// logger says otherwise, every level is let through.
    open spec fn permits(&self, level: LogLevel) -> bool {
        true
    }

    /// Whether the logger can lay this log out.
    spec fn renders(&self, item: Record) -> bool;

    /// Whether emitting `item` may give `out` and leave the logger as
    /// `after`.
    spec fn emits(&self, item: Record, out: Self::ReturnType, after: Self) -> bool;

    /// Returns true if logging an item is permitted: a logger may decline
    /// an item before [log_item](Logger::log_item) is called.
    fn can_log_item(&self, item: &LogItem) -> (allowed: bool)
        ensures
            allowed == self.permits(item@.level),
    ;

    /// Returns true if the logger can lay the item out.
    fn can_render_item(&self, item: &LogItem) -> (ready: bool)
        ensures
            ready == self.renders(item@),
    ;

    /// This method should log an item.
    fn log_item(&mut self, item: LogItem) -> (out: Self::ReturnType)
        requires
            old(self).renders(item@),
        ensures
            old(self).emits(item@, out, *final(self)),
    ;
}

} // verus!
