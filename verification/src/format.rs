//! Formatting for logging messages.

use crate::log::LogLevel;
use crate::text::{decimal, push_char, push_decimal};
use crate::time::{current_time, format_timestamp, pattern_is_valid, strftime_valid, Timestamp};
use vstd::prelude::*;
use vstd::string::StringExecFns;

verus! {

/// A possible item type used to dictate the format of a logged message.
#[derive(Debug)]
pub enum FormatItem {
    /// The line number of where the log was made.
    LineNumber,
    /// The column number of where the log was made.
    ColumnNumber,
    /// The module of where the log was made.
    ModulePath,
    /// The file of where the log was made.
    File,
    /// The log level of the log.
    LogLevel,
    /// The message used to log.
    LogString,
    /// The time, laid out by a strftime pattern.
    TimeString(String),
    /// A custom character.
    CustomCharacter(char),
    /// A custom string.
    CustomString(String),
}

/// What a [FormatItem] is, with its text as a sequence of characters.
pub enum Token {
    LineNumber,
    ColumnNumber,
    ModulePath,
    File,
    LogLevel,
    LogString,
    TimeString(Seq<char>),
    CustomCharacter(char),
    CustomString(Seq<char>),
}

impl View for FormatItem {
    type V = Token;

    open spec fn view(&self) -> Token {
        match self {
            FormatItem::LineNumber => Token::LineNumber,
            FormatItem::ColumnNumber => Token::ColumnNumber,
            FormatItem::ModulePath => Token::ModulePath,
            FormatItem::File => Token::File,
            FormatItem::LogLevel => Token::LogLevel,
            FormatItem::LogString => Token::LogString,
            FormatItem::TimeString(pattern) => Token::TimeString(pattern@),
            FormatItem::CustomCharacter(c) => Token::CustomCharacter(*c),
            FormatItem::CustomString(s) => Token::CustomString(s@),
        }
    }
}

impl Clone for FormatItem {
    fn clone(&self) -> (copy: Self)
        ensures
            copy@ == self@,
    {
        match self {
            FormatItem::LineNumber => FormatItem::LineNumber,
            FormatItem::ColumnNumber => FormatItem::ColumnNumber,
            FormatItem::ModulePath => FormatItem::ModulePath,
            FormatItem::File => FormatItem::File,
            FormatItem::LogLevel => FormatItem::LogLevel,
            FormatItem::LogString => FormatItem::LogString,
            FormatItem::TimeString(pattern) => FormatItem::TimeString(pattern.clone()),
            FormatItem::CustomCharacter(c) => FormatItem::CustomCharacter(*c),
            FormatItem::CustomString(s) => FormatItem::CustomString(s.clone()),
        }
    }
}

impl PartialEq for FormatItem {
    fn eq(&self, other: &Self) -> (equal: bool) {
        match (self, other) {
            (FormatItem::LineNumber, FormatItem::LineNumber) => true,
            (FormatItem::ColumnNumber, FormatItem::ColumnNumber) => true,
            (FormatItem::ModulePath, FormatItem::ModulePath) => true,
            (FormatItem::File, FormatItem::File) => true,
            (FormatItem::LogLevel, FormatItem::LogLevel) => true,
            (FormatItem::LogString, FormatItem::LogString) => true,
            (FormatItem::TimeString(a), FormatItem::TimeString(b)) => *a == *b,
            (FormatItem::CustomCharacter(a), FormatItem::CustomCharacter(b)) => *a == *b,
            (FormatItem::CustomString(a), FormatItem::CustomString(b)) => *a == *b,
            _ => false,
        }
    }
}

impl vstd::std_specs::cmp::PartialEqSpecImpl for FormatItem {
    open spec fn obeys_eq_spec() -> bool {
        true
    }

    /// Two items are equal where they are the same token.
    open spec fn eq_spec(&self, other: &Self) -> bool {
        self@ == other@
    }
}

/// The view of an optional string.
pub open spec fn text_of(s: Option<String>) -> Option<Seq<char>> {
    match s {
        Some(s) => Some(s@),
        None => None,
    }
}

/// The view of a sequence of items.
pub open spec fn tokens_of(items: Seq<FormatItem>) -> Seq<Token> {
    items.map_values(|item: FormatItem| item@)
}

/// What a [Format] holds: the tokens in the order in which they are laid
/// out, and the fields that are set.
pub struct Layout {
    pub items: Seq<Token>,
    pub column: Option<usize>,
    pub line: Option<usize>,
    pub file: Option<Seq<char>>,
    pub module: Option<Seq<char>>,
    pub custom_time: Option<Timestamp>,
}

impl Layout {
    /// The text that one token stands for. `now` is what the clock shows
    /// when the token is reached; only a time token of a layout without a
    /// fixed time reads it.
    pub open spec fn token_text(self, token: Token, level: LogLevel, message: Seq<char>, now: Timestamp) -> Seq<char> {
        match token {
            Token::LineNumber => match self.line {
                Some(n) => decimal(n as nat),
                None => Seq::empty(),
            },
            Token::ColumnNumber => match self.column {
                Some(n) => decimal(n as nat),
                None => Seq::empty(),
            },
            Token::ModulePath => match self.module {
                Some(path) => path,
                None => Seq::empty(),
            },
            Token::File => match self.file {
                Some(path) => path,
                None => Seq::empty(),
            },
            Token::LogLevel => level.label(),
            Token::LogString => message,
            Token::TimeString(pattern) => match self.custom_time {
                Some(fixed) => fixed.formatted(pattern),
                None => now.formatted(pattern),
            },
            Token::CustomCharacter(c) => seq![c],
            Token::CustomString(s) => s,
        }
    }

    /// The texts of the first `n` tokens, one after the other. `clock[i]` is
    /// what the clock shows when token `i` is reached.
    pub open spec fn rendered_prefix(self, n: int, level: LogLevel, message: Seq<char>, clock: Seq<Timestamp>) -> Seq<char>
        decreases n,
    {
        if n <= 0 {
            Seq::empty()
        } else {
            self.rendered_prefix(n - 1, level, message, clock)
                + self.token_text(self.items[n - 1], level, message, clock[n - 1])
        }
    }

    /// The line that the layout gives for a severity and a message: the texts
    /// of all its tokens in order, with nothing between them.
    pub open spec fn rendered(self, level: LogLevel, message: Seq<char>, clock: Seq<Timestamp>) -> Seq<char> {
        self.rendered_prefix(self.items.len() as int, level, message, clock)
    }

    /// Whether the line is the same whatever the clock shows: the time is
    /// fixed, or no token asks for it.
    pub open spec fn clock_free(self) -> bool {
        self.custom_time is Some || forall|i: int|
            0 <= i < self.items.len() ==> !((#[trigger] self.items[i]) is TimeString)
    }

    /// Whether `line` is a line that the layout gives for a severity and a
    /// message: the line under some reading of the clock, and under every
    /// reading where the layout does not depend on the clock.
    pub open spec fn renders_to(self, level: LogLevel, message: Seq<char>, line: Seq<char>) -> bool {
        &&& exists|clock: Seq<Timestamp>|
            clock.len() == self.items.len() && line == #[trigger] self.rendered(level, message, clock)
        &&& self.clock_free() ==> forall|clock: Seq<Timestamp>|
            line == #[trigger] self.rendered(level, message, clock)
    }

    /// Whether every time token holds a pattern that can be laid out.
    pub open spec fn renderable(self) -> bool {
        forall|i: int|
            0 <= i < self.items.len() ==> ((#[trigger] self.items[i]) matches Token::TimeString(pattern)
                ==> strftime_valid(pattern))
    }

    /// The layout that prefers `self` and falls back to `other`: each field
    /// is taken from `self` where it is set there and from `other` where it
    /// is not; the tokens are those of `self` unless it has none.
    pub open spec fn merged(self, other: Layout) -> Layout {
        Layout {
            items: if self.items.len() == 0 { other.items } else { self.items },
            column: if self.column is None { other.column } else { self.column },
            line: if self.line is None { other.line } else { self.line },
            file: if self.file is None { other.file } else { self.file },
            module: if self.module is None { other.module } else { self.module },
            custom_time: if self.custom_time is None { other.custom_time } else { self.custom_time },
        }
    }

    /// The layout with one more token at the end.
    pub open spec fn appended(self, token: Token) -> Layout {
        Layout { items: self.items.push(token), ..self }
    }

    /// The layout without its last token; unchanged where it has none.
    pub open spec fn popped(self) -> Layout {
        Layout {
            items: if self.items.len() == 0 { self.items } else { self.items.drop_last() },
            ..self
        }
    }

    /// The layout with its constant time, if it has one, shown in UTC.
    pub open spec fn in_utc(self) -> Layout {
        Layout {
            custom_time: match self.custom_time {
                Some(time) => Some(time.in_utc()),
                None => None,
            },
            ..self
        }
    }

    /// The layout without tokens and with no field set.
    pub open spec fn empty() -> Layout {
        Layout {
            items: Seq::empty(),
            column: None,
            line: None,
            file: None,
            module: None,
            custom_time: None,
        }
    }

    /// The tokens of the default layout:
    /// `[HH:MM:SS] (module line:column) level: message`.
    pub open spec fn default_items() -> Seq<Token> {
        seq![
            Token::CustomCharacter('['),
            Token::TimeString("%k:%M:%S"@),
            Token::CustomString("] ("@),
            Token::ModulePath,
            Token::CustomCharacter(' '),
            Token::LineNumber,
            Token::CustomCharacter(':'),
            Token::ColumnNumber,
            Token::CustomString(") "@),
            Token::LogLevel,
            Token::CustomString(": "@),
            Token::LogString,
        ]
    }
}

impl Layout {
    /// The text of the first `n` tokens depends on the clock only at those
    /// tokens.
    pub proof fn lemma_prefix_reads_first(self, n: int, level: LogLevel, message: Seq<char>, c1: Seq<Timestamp>, c2: Seq<Timestamp>)
        requires
            forall|j: int| 0 <= j < n ==> c1[j] == c2[j],
        ensures
            self.rendered_prefix(n, level, message, c1) == self.rendered_prefix(n, level, message, c2),
        decreases n,
    {
        if n > 0 {
            self.lemma_prefix_reads_first(n - 1, level, message, c1, c2);
        }
    }

    /// Where the time is fixed or no token asks for it, the text does not
    /// depend on the clock.
    pub proof fn lemma_clock_free_prefix(self, n: int, level: LogLevel, message: Seq<char>, c1: Seq<Timestamp>, c2: Seq<Timestamp>)
        requires
            self.clock_free(),
            n <= self.items.len(),
        ensures
            self.rendered_prefix(n, level, message, c1) == self.rendered_prefix(n, level, message, c2),
        decreases n,
    {
        if n > 0 {
            self.lemma_clock_free_prefix(n - 1, level, message, c1, c2);
            assert(self.custom_time is Some || !(self.items[n - 1] is TimeString));
        }
    }

    /// A layout without tokens gives the empty line, whatever its fields, the
    /// severity and the message are.
    pub proof fn lemma_no_tokens_no_text(self, level: LogLevel, message: Seq<char>, line: Seq<char>)
        requires
            self.items.len() == 0,
            self.renders_to(level, message, line),
        ensures
            line == Seq::<char>::empty(),
    {
    }

    /// Merging prefers the left side: a field that the left side sets is
    /// taken from it, whatever the right side holds, and so are the tokens
    /// of a left side that has any.
    pub proof fn lemma_merged_prefers_left(self, other: Layout)
        ensures
            self.column is Some ==> self.merged(other).column == self.column,
            self.line is Some ==> self.merged(other).line == self.line,
            self.file is Some ==> self.merged(other).file == self.file,
            self.module is Some ==> self.merged(other).module == self.module,
            self.custom_time is Some ==> self.merged(other).custom_time == self.custom_time,
            self.items.len() > 0 ==> self.merged(other).items == self.items,
    {
    }

    /// Merging falls back to the right side: a field that the left side does
    /// not set is taken from the right side, and so are the tokens where the
    /// left side has none.
    pub proof fn lemma_merged_falls_back(self, other: Layout)
        ensures
            self.column is None ==> self.merged(other).column == other.column,
            self.line is None ==> self.merged(other).line == other.line,
            self.file is None ==> self.merged(other).file == other.file,
            self.module is None ==> self.merged(other).module == other.module,
            self.custom_time is None ==> self.merged(other).custom_time == other.custom_time,
            self.items.len() == 0 ==> self.merged(other).items == other.items,
    {
    }

    /// Appending a token and then removing the last token gives the layout
    /// back.
    pub proof fn lemma_append_then_pop(self, token: Token)
        ensures
            self.appended(token).popped() == self,
    {
        assert(self.items.push(token).drop_last() =~= self.items);
    }

    /// A layout whose line does not depend on the clock gives one line for a
    /// severity and a message.
    pub proof fn lemma_clock_free(self, level: LogLevel, message: Seq<char>, c1: Seq<Timestamp>, c2: Seq<Timestamp>)
        requires
            self.clock_free(),
        ensures
            self.rendered(level, message, c1) == self.rendered(level, message, c2),
    {
        self.lemma_clock_free_prefix(self.items.len() as int, level, message, c1, c2);
    }
}


/// This struct dictates the format of a log message: an ordered sequence of
/// items, the place where the log was made, and optionally a fixed time that
/// stands in for the current one.
///
/// The default format is `[HH:MM:SS] (module line:column) level: message`.
#[derive(Debug)]
pub struct Format {
    items: Vec<FormatItem>,
    column: Option<usize>,
    line: Option<usize>,
    file: Option<String>,
    module: Option<String>,
    custom_time: Option<Timestamp>,
}

impl View for Format {
    type V = Layout;

    closed spec fn view(&self) -> Layout {
        Layout {
            items: tokens_of(self.items@),
            column: self.column,
            line: self.line,
            file: text_of(self.file),
            module: text_of(self.module),
            custom_time: self.custom_time,
        }
    }
}

/// A copy of an optional string.
fn clone_text(s: &Option<String>) -> (copy: Option<String>)
    ensures
        text_of(copy) == text_of(*s),
{
    match s {
        Some(s) => Some(s.clone()),
        None => None,
    }
}

/// A copy of a sequence of items.
fn clone_items(items: &Vec<FormatItem>) -> (copy: Vec<FormatItem>)
    ensures
        tokens_of(copy@) == tokens_of(items@),
{
    let mut copy: Vec<FormatItem> = Vec::with_capacity(items.len());
    let mut i: usize = 0;
    while i < items.len()
        invariant
            i <= items.len(),
            copy@.len() == i,
            forall|j: int| 0 <= j < i ==> copy@[j]@ == items@[j]@,
        decreases items.len() - i,
    {
        copy.push(items[i].clone());
        i += 1;
    }
    assert(tokens_of(copy@) =~= tokens_of(items@));
    copy
}

/// Whether two optional strings hold the same text.
fn same_text(a: &Option<String>, b: &Option<String>) -> (same: bool)
    ensures
        same == (text_of(*a) == text_of(*b)),
{
    match (a, b) {
        (Some(a), Some(b)) => *a == *b,
        (None, None) => true,
        _ => false,
    }
}

/// Whether two optional numbers are the same.
fn same_number(a: Option<usize>, b: Option<usize>) -> (same: bool)
    ensures
        same == (a == b),
{
    match (a, b) {
        (Some(a), Some(b)) => a == b,
        (None, None) => true,
        _ => false,
    }
}

/// Whether two optional points in time are the same.
fn same_time(a: Option<Timestamp>, b: Option<Timestamp>) -> (same: bool)
    ensures
        same == (a == b),
{
    match (a, b) {
        (Some(a), Some(b)) => a == b,
        (None, None) => true,
        _ => false,
    }
}

/// Whether two sequences of items hold the same tokens in the same order.
fn same_items(a: &Vec<FormatItem>, b: &Vec<FormatItem>) -> (same: bool)
    ensures
        same == (tokens_of(a@) == tokens_of(b@)),
{
    if a.len() != b.len() {
        assert(tokens_of(a@).len() != tokens_of(b@).len());
        return false;
    }
    let mut i: usize = 0;
    while i < a.len()
        invariant
            i <= a.len(),
            a.len() == b.len(),
            forall|j: int| 0 <= j < i ==> a@[j]@ == b@[j]@,
        decreases a.len() - i,
    {
        if !(a[i] == b[i]) {
            assert(tokens_of(a@)[i as int] != tokens_of(b@)[i as int]);
            return false;
        }
        i += 1;
    }
    assert(tokens_of(a@) =~= tokens_of(b@));
    true
}

impl PartialEq for Format {
    fn eq(&self, other: &Self) -> (equal: bool) {
        same_text(&self.file, &other.file) && same_time(self.custom_time, other.custom_time)
            && same_text(&self.module, &other.module) && same_number(self.column, other.column)
            && same_number(self.line, other.line) && same_items(&self.items, &other.items)
    }
}

impl vstd::std_specs::cmp::PartialEqSpecImpl for Format {
    open spec fn obeys_eq_spec() -> bool {
        true
    }

    /// Two formats are equal where every field, the sequence of items
    /// included, is equal.
    open spec fn eq_spec(&self, other: &Self) -> bool {
        self@ == other@
    }
}

impl Clone for Format {
    fn clone(&self) -> (copy: Self)
        ensures
            copy@ == self@,
    {
        Format {
            items: clone_items(&self.items),
            column: self.column,
            line: self.line,
            file: clone_text(&self.file),
            module: clone_text(&self.module),
            custom_time: self.custom_time,
        }
    }
}

impl Default for Format {
    /// Creates a new instance of [Format] with the format
    /// `[HH:MM:SS] (module line:column) level: message`.
    fn default() -> (format: Self)
        ensures
            format@ == (Layout { items: Layout::default_items(), ..Layout::empty() }),
    {
        Format::default_tz()
    }
}

impl Format {
    /// Create a new empty [Format].
    pub fn new() -> (format: Self)
        ensures
            format@ == Layout::empty(),
    {
        let format = Self {
            items: Vec::new(),
            column: None,
            line: None,
            file: None,
            module: None,
            custom_time: None,
        };
        assert(format@.items =~= Seq::empty());
        format
    }

    /// Merges two formats into one, prioritising having a value over not
    /// having a value, but where both contain a value preferring the values
    /// from `a`.
    pub fn merged(a: &Format, b: &Format) -> (format: Format)
        ensures
            format@ == a@.merged(b@),
    {
        let items = if a.items.len() == 0 {
            clone_items(&b.items)
        } else {
            clone_items(&a.items)
        };
        let column = if a.column.is_none() {
            b.column
        } else {
            a.column
        };
        let line = if a.line.is_none() {
            b.line
        } else {
            a.line
        };
        let file = if a.file.is_none() {
            clone_text(&b.file)
        } else {
            clone_text(&a.file)
        };
        let module = if a.module.is_none() {
            clone_text(&b.module)
        } else {
            clone_text(&a.module)
        };
        let custom_time = if a.custom_time.is_none() {
            b.custom_time
        } else {
            a.custom_time
        };
        Format { items, column, line, file, module, custom_time }
    }

    /// Create a new empty [Format]; the same as [new](Format::new).
    pub fn new_tz() -> (format: Self)
        ensures
            format@ == Layout::empty(),
    {
        Format::new()
    }

    /// Create a new empty [Format] but with a custom constant time.
    pub fn new_with_constant_time(constant_time: Timestamp) -> (format: Self)
        ensures
            format@ == (Layout { custom_time: Some(constant_time), ..Layout::empty() }),
    {
        let format = Self {
            items: Vec::new(),
            column: None,
            line: None,
            file: None,
            module: None,
            custom_time: Some(constant_time),
        };
        assert(format@.items =~= Seq::empty());
        format
    }

    /// The format `[HH:MM:SS] (module line:column) level: message`, with no
    /// field set; the same as [default](Format::default).
    pub fn default_tz() -> (format: Self)
        ensures
            format@ == (Layout { items: Layout::default_items(), ..Layout::empty() }),
    {
        let format = Format::new()
            .append(FormatItem::CustomCharacter('['))
            .append(FormatItem::TimeString("%k:%M:%S".to_owned()))
            .append(FormatItem::CustomString("] (".to_owned()))
            .append(FormatItem::ModulePath)
            .append(FormatItem::CustomCharacter(' '))
            .append(FormatItem::LineNumber)
            .append(FormatItem::CustomCharacter(':'))
            .append(FormatItem::ColumnNumber)
            .append(FormatItem::CustomString(") ".to_owned()))
            .append(FormatItem::LogLevel)
            .append(FormatItem::CustomString(": ".to_owned()))
            .append(FormatItem::LogString);
        assert(format@.items =~= Layout::default_items());
        format
    }

    /// Whether every time item of the format holds a pattern that can be
    /// laid out.
    pub fn is_renderable(&self) -> (valid: bool)
        ensures
            valid == self@.renderable(),
    {
        let mut i: usize = 0;
        while i < self.items.len()
            invariant
                i <= self.items.len(),
                forall|j: int|
                    0 <= j < i ==> ((#[trigger] self@.items[j]) matches Token::TimeString(pattern)
                        ==> strftime_valid(pattern)),
            decreases self.items.len() - i,
        {
            match &self.items[i] {
                FormatItem::TimeString(pattern) => {
                    if !pattern_is_valid(pattern.as_str()) {
                        assert(self@.items[i as int] == Token::TimeString(pattern@));
                        return false;
                    }
                },
                _ => {},
            }
            i += 1;
        }
        true
    }

    /// Consumes the format and builds the formatted output from the log
    /// level and log message: the text of each item in order, with nothing
    /// between them. A time item shows the constant time where one is set;
    /// where none is, it reads the clock when it is reached.
    pub fn build_string(self, log_level: LogLevel, log_message: &str) -> (line: String)
        requires
            self@.renderable(),
        ensures
            self@.renders_to(log_level, log_message@, line@),
            self@.items.len() == 0 ==> line@ == Seq::<char>::empty(),
    {
        let mut line = String::new();
        let ghost unread: Timestamp = arbitrary();
        let ghost mut clock: Seq<Timestamp> = Seq::empty();
        let mut i: usize = 0;
        while i < self.items.len()
            invariant
                i <= self.items.len(),
                clock.len() == i,
                self@.renderable(),
                line@ == self@.rendered_prefix(i as int, log_level, log_message@, clock),
            decreases self.items.len() - i,
        {
            let ghost before = clock;
            let ghost mut now = unread;
            match &self.items[i] {
                FormatItem::LineNumber => {
                    match self.line {
                        Some(n) => push_decimal(&mut line, n),
                        None => {},
                    }
                },
                FormatItem::ColumnNumber => {
                    match self.column {
                        Some(n) => push_decimal(&mut line, n),
                        None => {},
                    }
                },
                FormatItem::ModulePath => {
                    match &self.module {
                        Some(path) => line.append(path.as_str()),
                        None => {},
                    }
                },
                FormatItem::File => {
                    match &self.file {
                        Some(path) => line.append(path.as_str()),
                        None => {},
                    }
                },
                FormatItem::LogLevel => line.append(log_level.as_str()),
                FormatItem::LogString => line.append(log_message),
                FormatItem::TimeString(pattern) => {
                    let at = match self.custom_time {
                        Some(fixed) => fixed,
                        None => current_time(),
                    };
                    assert(self@.items[i as int] == Token::TimeString(pattern@));
                    let text = format_timestamp(at, pattern.as_str());
                    line.append(text.as_str());
                    proof {
                        now = at;
                    }
                },
                FormatItem::CustomCharacter(c) => push_char(&mut line, *c),
                FormatItem::CustomString(s) => line.append(s.as_str()),
            }
            proof {
                clock = before.push(now);
                self@.lemma_prefix_reads_first(i as int, log_level, log_message@, before, clock);
                assert(line@ =~= self@.rendered_prefix(i as int, log_level, log_message@, clock)
                    + self@.token_text(self@.items[i as int], log_level, log_message@, clock[i as int]));
            }
            i += 1;
        }
        proof {
            assert(line@ == self@.rendered(log_level, log_message@, clock));
            if self@.clock_free() {
                assert forall|other: Seq<Timestamp>|
                    line@ == #[trigger] self@.rendered(log_level, log_message@, other) by {
                    self@.lemma_clock_free(log_level, log_message@, clock, other);
                }
            }
        }
        line
    }

    /// Builds the formatted output where every time item can be laid out,
    /// and gives `None` where one cannot.
    pub fn try_build_string(self, log_level: LogLevel, log_message: &str) -> (line: Option<String>)
        ensures
            line is Some <==> self@.renderable(),
            line matches Some(text) ==> self@.renders_to(log_level, log_message@, text@),
    {
        if self.is_renderable() {
            Some(self.build_string(log_level, log_message))
        } else {
            None
        }
    }

    /// Set the column where the log originated.
    pub fn set_column(self, col: usize) -> (format: Self)
        ensures
            format@ == (Layout { column: Some(col), ..self@ }),
    {
        let mut format = self;
        format.column = Some(col);
        format
    }

    /// Get the column where the log originated.
    pub fn column(&self) -> (col: Option<usize>)
        ensures
            col == self@.column,
    {
        self.column
    }

    /// Set the line where the log originated.
    pub fn set_line(self, line: usize) -> (format: Self)
        ensures
            format@ == (Layout { line: Some(line), ..self@ }),
    {
        let mut format = self;
        format.line = Some(line);
        format
    }

    /// Get the line where the log originated.
    pub fn line(&self) -> (line: Option<usize>)
        ensures
            line == self@.line,
    {
        self.line
    }

    /// Set the file where the log originated.
    pub fn set_file(self, file: &str) -> (format: Self)
        ensures
            format@ == (Layout { file: Some(file@), ..self@ }),
    {
        let mut format = self;
        format.file = Some(file.to_owned());
        format
    }

    /// Get the file where the log originated.
    pub fn file(&self) -> (file: &Option<String>)
        ensures
            text_of(*file) == self@.file,
    {
        &self.file
    }

    /// Set the module where the log originated.
    pub fn set_module_path(self, path: &str) -> (format: Self)
        ensures
            format@ == (Layout { module: Some(path@), ..self@ }),
    {
        let mut format = self;
        format.module = Some(path.to_owned());
        format
    }

    /// Get the module where the log originated.
    pub fn module(&self) -> (path: &Option<String>)
        ensures
            text_of(*path) == self@.module,
    {
        &self.module
    }

    /// Set a custom time to override the current time.
    pub fn set_constant_time(self, time: Timestamp) -> (format: Self)
        ensures
            format@ == (Layout { custom_time: Some(time), ..self@ }),
    {
        let mut format = self;
        format.custom_time = Some(time);
        format
    }

    /// Get the time that overrides the current time.
    pub fn constant_time(&self) -> (time: Option<Timestamp>)
        ensures
            time == self@.custom_time,
    {
        self.custom_time
    }

    /// The same format with its constant time, if it has one, shown in UTC.
    pub fn to_utc(self) -> (format: Self)
        ensures
            format@ == self@.in_utc(),
    {
        let mut format = self;
        format.custom_time = match format.custom_time {
            Some(time) => Some(time.to_utc()),
            None => None,
        };
        format
    }

    /// Remove the override time.
    pub fn clear_constant_time(self) -> (format: Self)
        ensures
            format@ == (Layout { custom_time: None, ..self@ }),
    {
        let mut format = self;
        format.custom_time = None;
        format
    }

    /// Append a [FormatItem] to the current sequence.
    pub fn append(self, item: FormatItem) -> (format: Self)
        ensures
            format@ == self@.appended(item@),
    {
        let mut format = self;
        format.items.push(item);
        assert(format@.items =~= self@.items.push(item@));
        format
    }

    /// Remove the last [FormatItem] from the sequence.
    pub fn pop_last(self) -> (format: Self)
        ensures
            format@ == self@.popped(),
    {
        let mut format = self;
        let _ = format.items.pop();
        assert(format@.items =~= self@.popped().items);
        format
    }

    /// The number of items.
    pub fn len(&self) -> (n: usize)
        ensures
            n == self@.items.len(),
    {
        self.items.len()
    }

    /// The item at a position.
    pub fn index(&self, index: usize) -> (item: &FormatItem)
        requires
            index < self@.items.len(),
        ensures
            item@ == self@.items[index as int],
    {
        &self.items[index]
    }

    /// The item at a position, to be written.
    pub fn index_mut(&mut self, index: usize) -> (item: &mut FormatItem)
        requires
            index < old(self)@.items.len(),
        ensures
            item@ == old(self)@.items[index as int],
            final(self)@ == (Layout {
                items: old(self)@.items.update(index as int, final(item)@),
                ..old(self)@
            }),
    {
        proof {
            let items = self.items@;
            assert forall|item: FormatItem| #[trigger]
                tokens_of(items.update(index as int, item)) == tokens_of(items).update(
                    index as int,
                    item@,
                ) by {
                assert(tokens_of(items.update(index as int, item)) =~= tokens_of(items).update(
                    index as int,
                    item@,
                ));
            }
        }
        &mut self.items[index]
    }
}

} // verus!
