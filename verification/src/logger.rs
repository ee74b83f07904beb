//! Loggers useful for various types of logging.

use crate::format::{Format, Layout};
use crate::log::{LogItem, LogLevel, Logger, Record};
use crate::text::push_char;
use vstd::prelude::*;

verus! {

/// The layout that a logger lays a log out with: the override merged with
/// the log's own format, the override preferred; the log's own format where
/// there is no override.
pub open spec fn effective_layout(override_format: Option<Layout>, own: Layout) -> Layout {
    match override_format {
        Some(preferred) => preferred.merged(own),
        None => own,
    }
}

/// The view of an optional format.
pub open spec fn layout_of(format: Option<Format>) -> Option<Layout> {
    match format {
        Some(format) => Some(format@),
        None => None,
    }
}

/// Whether the layout that a logger lays a log out with can be laid out.
fn effective_is_renderable(override_format: &Option<Format>, own: &Format) -> (ready: bool)
    ensures
        ready == effective_layout(layout_of(*override_format), own@).renderable(),
{
    match override_format {
        Some(preferred) => Format::merged(preferred, own).is_renderable(),
        None => own.is_renderable(),
    }
}

/// What a [FileLogger] holds.
pub struct FileSink {
    /// The path of the file that is open, if one is.
    pub file: Option<Seq<char>>,
    /// Whether a failed write is fatal.
    pub panic_on_fail: bool,
    /// The format that overrides the one of each log.
    pub override_format: Option<Layout>,
    /// The levels that are not logged.
    pub restricted: Set<LogLevel>,
}

impl FileSink {
    /// A logger fresh from [new](FileLogger::new).
    pub open spec fn fresh() -> FileSink {
        FileSink { file: None, panic_on_fail: false, override_format: None, restricted: Set::empty() }
    }

    /// The logger once `path` has been opened.
    pub open spec fn opened(self, path: Seq<char>) -> FileSink {
        FileSink { file: Some(path), ..self }
    }

    /// The logger once its file has been closed.
    pub open spec fn closed(self) -> FileSink {
        FileSink { file: None, ..self }
    }

    /// The logger once `levels` have been restricted.
    pub open spec fn restricting(self, levels: Seq<LogLevel>) -> FileSink {
        FileSink { restricted: self.restricted.union(levels.to_set()), ..self }
    }

    /// The logger once `levels` have been allowed again.
    pub open spec fn allowing(self, levels: Seq<LogLevel>) -> FileSink {
        FileSink { restricted: self.restricted.difference(levels.to_set()), ..self }
    }

    /// Whether a log of this level is let through.
    pub open spec fn permits(self, level: LogLevel) -> bool {
        !self.restricted.contains(level)
    }

    /// Restricting the same levels twice has the effect of restricting them
    /// once.
    pub proof fn lemma_restrict_twice(self, levels: Seq<LogLevel>)
        ensures
            self.restricting(levels).restricting(levels) == self.restricting(levels),
    {
        assert(self.restricting(levels).restricting(levels).restricted =~= self.restricting(
            levels,
        ).restricted);
    }

    /// Allowing levels of which none is restricted changes nothing.
    pub proof fn lemma_allow_unrestricted(self, levels: Seq<LogLevel>)
        requires
            forall|i: int| 0 <= i < levels.len() ==> self.permits(#[trigger] levels[i]),
        ensures
            self.allowing(levels) == self,
    {
        assert forall|l: LogLevel| self.restricted.contains(l) implies !levels.to_set().contains(l) by {
            if levels.contains(l) {
                let i = choose|i: int| 0 <= i < levels.len() && levels[i] == l;
                assert(self.permits(levels[i]));
            }
        }
        assert(self.allowing(levels).restricted =~= self.restricted);
    }

    /// A level that is restricted and then allowed is let through again, and
    /// so is every level that is allowed, whatever was restricted before.
    pub proof fn lemma_restrict_then_allow(self, levels: Seq<LogLevel>, level: LogLevel)
        requires
            levels.contains(level),
        ensures
            !self.restricting(levels).permits(level),
            self.restricting(levels).allowing(levels).permits(level),
    {
    }

    /// Closing a logger twice has the effect of closing it once.
    pub proof fn lemma_close_twice(self)
        ensures
            self.closed().closed() == self.closed(),
    {
    }
}

/// The default logger: its logs are lines to be appended to a file.
///
/// The logger decides; it does not write. It knows whether a file is open,
/// and for each log it gives the text that its host is to append to that
/// file and flush. The host reports how the write went and learns from
/// [on_write](FileLogger::on_write) whether a failure is fatal.
#[derive(Debug)]
pub struct FileLogger {
    /// The path of the file to write to, once one has been opened.
    file: Option<String>,
    /// Whether we should panic on IO errors or ignore them.
    panic_on_fail: bool,
    /// A custom format to use as an override.
    override_format: Option<Format>,
    /// Any logs with these log levels will be ignored. No level is held twice.
    restricted_log_levels: Vec<LogLevel>,
}

/// An alternative logger, primarily used for testing purposes: emitting a log
/// gives the line as a string.
#[derive(Debug)]
pub struct StringLogger {
    override_format: Option<Format>,
}

/// A copy of the levels held.
fn copy_levels(levels: &Vec<LogLevel>) -> (copy: Vec<LogLevel>)
    ensures
        copy@ == levels@,
{
    let mut copy: Vec<LogLevel> = Vec::with_capacity(levels.len());
    let mut i: usize = 0;
    while i < levels.len()
        invariant
            i <= levels.len(),
            copy@ == levels@.take(i as int),
        decreases levels.len() - i,
    {
        copy.push(levels[i]);
        assert(levels@.take(i + 1) =~= levels@.take(i as int).push(levels@[i as int]));
        i += 1;
    }
    assert(levels@.take(levels@.len() as int) =~= levels@);
    copy
}

/// Whether a level is among those held.
fn holds_level(levels: &Vec<LogLevel>, level: LogLevel) -> (held: bool)
    ensures
        held == levels@.contains(level),
{
    position_of(levels, level).is_some()
}

/// The first position at which a level is held.
fn position_of(levels: &Vec<LogLevel>, level: LogLevel) -> (position: Option<usize>)
    ensures
        position is Some <==> levels@.contains(level),
        position matches Some(i) ==> i < levels@.len() && levels@[i as int] == level,
{
    let mut i: usize = 0;
    while i < levels.len()
        invariant
            i <= levels.len(),
            forall|j: int| 0 <= j < i ==> levels@[j] != level,
        decreases levels.len() - i,
    {
        if levels[i] == level {
            return Some(i);
        }
        i += 1;
    }
    None
}

impl View for FileLogger {
    type V = FileSink;

    closed spec fn view(&self) -> FileSink {
        FileSink {
            file: crate::format::text_of(self.file),
            panic_on_fail: self.panic_on_fail,
            override_format: layout_of(self.override_format),
            restricted: self.restricted_log_levels@.to_set(),
        }
    }
}

impl FileLogger {
    #[verifier::type_invariant]
    spec fn inv(self) -> bool {
        self.restricted_log_levels@.no_duplicates()
    }

    /// Create a new instance of [FileLogger]: no file is open, a failed
    /// write is ignored, no format overrides and no level is restricted.
    pub fn new() -> (logger: FileLogger)
        ensures
            logger@ == FileSink::fresh(),
    {
        let logger = Self {
            file: None,
            panic_on_fail: false,
            override_format: None,
            restricted_log_levels: Vec::new(),
        };
        assert(logger@.restricted =~= Set::empty());
        logger
    }

    /// Sets whether a failed write to a file should result in a panic. By
    /// default this behaviour is disabled.
    pub fn set_panic_on_fail(&mut self, b: bool)
        ensures
            final(self)@ == (FileSink { panic_on_fail: b, ..old(self)@ }),
    {
        proof {
            use_type_invariant(&*self);
        }
        self.panic_on_fail = b;
    }

    /// Override any format supplied with a log. The override does not stand
    /// in for the log's format: the two are merged, the override preferred.
    pub fn set_override(&mut self, override_format: Format)
        ensures
            final(self)@ == (FileSink { override_format: Some(override_format@), ..old(self)@ }),
    {
        proof {
            use_type_invariant(&*self);
        }
        self.override_format = Some(override_format);
    }

    /// Records how the host's attempt went to open `path` for appending.
    /// After a success that file is the one that is open, whatever was open
    /// before; after a failure the logger is unchanged and the error is
    /// handed on.
    pub fn open_file(&mut self, path: &str, opened: Result<(), String>) -> (result: Result<(), String>)
        ensures
            result == opened,
            opened is Ok ==> final(self)@ == old(self)@.opened(path@),
            opened is Err ==> final(self)@ == old(self)@,
    {
        proof {
            use_type_invariant(&*self);
        }
        if opened.is_ok() {
            self.file = Some(path.to_owned());
        }
        opened
    }

    /// Close the file that is currently open. Without one nothing changes.
    pub fn close_file(&mut self)
        ensures
            final(self)@ == old(self)@.closed(),
    {
        proof {
            use_type_invariant(&*self);
        }
        self.file = None;
    }

    /// Whether a file is open.
    pub fn is_open(&self) -> (open: bool)
        ensures
            open == self@.file is Some,
    {
        self.file.is_some()
    }

    /// Whether the host is to panic after a write or a flush that went as
    /// `written` says: only after a failure, and only where that was asked
    /// for.
    pub fn on_write(&self, written: bool) -> (fatal: bool)
        ensures
            fatal == (!written && self@.panic_on_fail),
    {
        !written && self.panic_on_fail
    }

    /// Prevent logging any messages with these log levels.
    pub fn restrict_log_levels(&mut self, levels: &[LogLevel])
        ensures
            final(self)@ == old(self)@.restricting(levels@),
    {
        proof {
            use_type_invariant(&*self);
        }
        let mut next = copy_levels(&self.restricted_log_levels);
        let mut i: usize = 0;
        while i < levels.len()
            invariant
                i <= levels.len(),
                next@.no_duplicates(),
                next@.to_set() == old(self)@.restricted.union(levels@.take(i as int).to_set()),
            decreases levels.len() - i,
        {
            let level = levels[i];
            let ghost held = next@;
            if !holds_level(&next, level) {
                next.push(level);
            }
            proof {
                held.lemma_push_to_set_commute(level);
                lemma_take_one_more(levels@, i as int);
                assert(next@.to_set() =~= old(self)@.restricted.union(
                    levels@.take(i + 1).to_set(),
                ));
            }
            i += 1;
        }
        proof {
            assert(levels@.take(levels@.len() as int) =~= levels@);
        }
        self.restricted_log_levels = next;
    }

    /// Allow any previously restricted log level.
    pub fn allow_log_levels(&mut self, levels: &[LogLevel])
        ensures
            final(self)@ == old(self)@.allowing(levels@),
    {
        proof {
            use_type_invariant(&*self);
        }
        let mut next = copy_levels(&self.restricted_log_levels);
        let mut i: usize = 0;
        while i < levels.len()
            invariant
                i <= levels.len(),
                next@.no_duplicates(),
                next@.to_set() == old(self)@.restricted.difference(levels@.take(i as int).to_set()),
            decreases levels.len() - i,
        {
            let level = levels[i];
            let ghost held = next@;
            match position_of(&next, level) {
                Some(position) => {
                    next.remove(position);
                    proof {
                        lemma_remove_from_set(held, position as int);
                    }
                },
                None => {},
            }
            proof {
                lemma_take_one_more(levels@, i as int);
                assert(next@.to_set() =~= old(self)@.restricted.difference(
                    levels@.take(i + 1).to_set(),
                ));
            }
            i += 1;
        }
        proof {
            assert(levels@.take(levels@.len() as int) =~= levels@);
        }
        self.restricted_log_levels = next;
    }
}

/// The set of the first `i + 1` levels is the set of the first `i` with the
/// next one put in.
proof fn lemma_take_one_more(levels: Seq<LogLevel>, i: int)
    requires
        0 <= i < levels.len(),
    ensures
        levels.take(i + 1).to_set() == levels.take(i).to_set().insert(levels[i]),
{
    assert(levels.take(i + 1) =~= levels.take(i).push(levels[i]));
    levels.take(i).lemma_push_to_set_commute(levels[i]);
}

/// Taking one level out of a sequence that holds none twice takes it out of
/// the set, and still none is held twice.
proof fn lemma_remove_from_set(held: Seq<LogLevel>, position: int)
    requires
        held.no_duplicates(),
        0 <= position < held.len(),
    ensures
        held.remove(position).no_duplicates(),
        held.remove(position).to_set() == held.to_set().remove(held[position]),
{
    let left = held.remove(position);
    let level = held[position];
    assert forall|l: LogLevel| left.contains(l) <==> (held.contains(l) && l != level) by {
        if left.contains(l) {
            let k = choose|k: int| 0 <= k < left.len() && left[k] == l;
            assert(held[if k < position { k } else { k + 1 }] == l);
        }
        if held.contains(l) && l != level {
            let k = choose|k: int| 0 <= k < held.len() && held[k] == l;
            assert(left[if k < position { k } else { k - 1 }] == l);
        }
    }
    assert(left.to_set() =~= held.to_set().remove(level));
}

impl Logger for FileLogger {
    /// The text to append to the open file, the line and its end; `None`
    /// where no file is open.
    type ReturnType = Option<String>;

    /// A level is let through unless it is restricted.
    open spec fn permits(&self, level: LogLevel) -> bool {
        self@.permits(level)
    }

    /// Without an open file nothing is laid out; with one, the time
    /// patterns of the effective layout must be valid.
    open spec fn renders(&self, item: Record) -> bool {
        self@.file is Some ==> effective_layout(self@.override_format, item.format).renderable()
    }

    /// The logger stays as it is. Without an open file nothing is given;
    /// with one, the line of the effective layout and a line feed.
    open spec fn emits(&self, item: Record, out: Option<String>, after: Self) -> bool {
        &&& after@ == self@
        &&& self@.file is None ==> out is None
        &&& self@.file is Some ==> (out matches Some(text) && text@.len() > 0 && text@.last() == '\n'
            && effective_layout(self@.override_format, item.format).renders_to(
            item.level,
            item.message,
            text@.drop_last(),
        ))
    }

    fn can_log_item(&self, item: &LogItem) -> (allowed: bool) {
        !holds_level(&self.restricted_log_levels, item.level())
    }

    fn can_render_item(&self, item: &LogItem) -> (ready: bool) {
        if self.file.is_some() {
            effective_is_renderable(&self.override_format, item.format())
        } else {
            true
        }
    }

    fn log_item(&mut self, item: LogItem) -> (out: Option<String>) {
        if self.file.is_some() {
            let mut text = match &self.override_format {
                Some(format) => {
                    let new_format = Format::merged(format, item.format());
                    let level = item.level();
                    let message = item.into_message();
                    new_format.build_string(level, message.as_str())
                },
                None => item.into(),
            };
            let ghost line = text@;
            push_char(&mut text, '\n');
            assert(text@.drop_last() =~= line);
            Some(text)
        } else {
            None
        }
    }
}

impl View for StringLogger {
    type V = Option<Layout>;

    closed spec fn view(&self) -> Option<Layout> {
        layout_of(self.override_format)
    }
}

impl Clone for StringLogger {
    fn clone(&self) -> (copy: Self)
        ensures
            copy@ == self@,
    {
        match &self.override_format {
            Some(format) => StringLogger { override_format: Some(format.clone()) },
            None => StringLogger { override_format: None },
        }
    }
}

impl StringLogger {
    /// Create a new instance of [StringLogger], without an override.
    pub fn new() -> (logger: Self)
        ensures
            logger@ is None,
    {
        Self::new_tz()
    }

    /// Create a new instance of [StringLogger], without an override; the
    /// same as [new](StringLogger::new).
    pub fn new_tz() -> (logger: Self)
        ensures
            logger@ is None,
    {
        Self { override_format: None }
    }

    /// Override any format supplied with a log. The override does not stand
    /// in for the log's format: the two are merged, the override preferred.
    pub fn set_override(&mut self, format: Format)
        ensures
            final(self)@ == Some(format@),
    {
        self.override_format = Some(format);
    }
}

impl StringLogger {
    /// Two loggers with the same override give the same line for the same
    /// log, where the line does not depend on the clock: where the effective
    /// layout has a constant time or no time item.
    pub proof fn lemma_same_log_same_line(self, other: StringLogger, item: Record, line: String, other_line: String, after: StringLogger, other_after: StringLogger)
        requires
            self@ == other@,
            effective_layout(self@, item.format).clock_free(),
            self.emits(item, line, after),
            other.emits(item, other_line, other_after),
        ensures
            line@ == other_line@,
    {
        let layout = effective_layout(self@, item.format);
        let clock = Seq::<crate::time::Timestamp>::empty();
        assert(line@ == layout.rendered(item.level, item.message, clock));
        assert(other_line@ == layout.rendered(item.level, item.message, clock));
    }
}

impl Logger for StringLogger {
    /// [StringLogger] returns the formatted [String] instead of nothing.
    type ReturnType = String;

    /// The time patterns of the effective layout must be valid.
    open spec fn renders(&self, item: Record) -> bool {
        effective_layout(self@, item.format).renderable()
    }

    /// The logger stays as it is and gives the line of the effective layout.
    open spec fn emits(&self, item: Record, out: String, after: Self) -> bool {
        &&& after@ == self@
        &&& effective_layout(self@, item.format).renders_to(item.level, item.message, out@)
    }

    fn can_log_item(&self, item: &LogItem) -> (allowed: bool) {
        true
    }

    fn can_render_item(&self, item: &LogItem) -> (ready: bool) {
        effective_is_renderable(&self.override_format, item.format())
    }

    fn log_item(&mut self, item: LogItem) -> (out: String) {
        match &self.override_format {
            Some(format) => {
                let new_format = Format::merged(format, item.format());
                let level = item.level();
                let message = item.into_message();
                new_format.build_string(level, message.as_str())
            },
            None => item.into(),
        }
    }
}

} // verus!
