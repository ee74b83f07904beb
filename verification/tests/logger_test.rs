use muxide_logging::dispatch::{checked_default_log_message, checked_log_message, Dispatch};
use muxide_logging::format::{Format, FormatItem};
use muxide_logging::log::{LogItem, LogLevel, Logger};
use muxide_logging::logger::{FileLogger, StringLogger};
use muxide_logging::time::Timestamp;
use muxide_logging::{
    __default_log_message, __log_message, allow_log_levels, close_output_file,
    restrict_log_levels, set_output_file,
};

fn message_only() -> Format {
    Format::new()
        .append(FormatItem::LogLevel)
        .append(FormatItem::CustomString(": ".to_string()))
        .append(FormatItem::LogString)
}

fn open_logger() -> FileLogger {
    let mut logger = FileLogger::new();
    logger.open_file("out.log", Ok(())).unwrap();
    logger
}

fn item(level: LogLevel) -> LogItem {
    LogItem::new(message_only(), level, "m")
}

#[test]
fn level_names() {
    assert_eq!(LogLevel::Error.as_str(), "Error");
    assert_eq!(LogLevel::Warning.as_str(), "Warning");
    assert_eq!(LogLevel::StateChange.as_str(), "StateChange");
    assert_eq!(LogLevel::Information.as_str(), "Information");
    assert_eq!(LogLevel::Error.to_string(), "Error");
    assert_eq!(LogLevel::Warning.to_string(), "Warning");
    assert_eq!(LogLevel::StateChange.to_string(), "StateChange");
    assert_eq!(LogLevel::Information.to_string(), "Information");
}

#[test]
fn log_item_keeps_what_it_was_made_of() {
    let made = LogItem::new(message_only().set_line(3), LogLevel::Warning, "kept \n as is");
    assert_eq!(made.level(), LogLevel::Warning);
    assert_eq!(made.message(), "kept \n as is");
    assert_eq!(made.format(), &message_only().set_line(3));
    assert_eq!(made.clone().into_message(), "kept \n as is");
    assert_eq!(made.into(), "Warning: kept \n as is");
    assert_eq!(LogItem::new(Format::new(), LogLevel::Error, "").into(), "");
}

#[test]
fn string_logger_example() {
    let mut logger = StringLogger::new();
    let result = logger.log_item(LogItem::new(
        Format::new().append(FormatItem::LogString),
        LogLevel::Information,
        "Log message",
    ));
    assert_eq!(result, "Log message");
}

#[test]
fn string_logger_lets_every_level_through() {
    let logger = StringLogger::new();
    for level in [LogLevel::Error, LogLevel::Warning, LogLevel::StateChange, LogLevel::Information] {
        assert!(logger.can_log_item(&item(level)));
        assert!(logger.can_render_item(&item(level)));
    }
}

#[test]
fn string_logger_merges_its_override() {
    let mut logger = StringLogger::new();
    logger.set_override(Format::new().set_line(7).set_module_path("over"));
    let own = Format::new()
        .append(FormatItem::ModulePath)
        .append(FormatItem::CustomCharacter(' '))
        .append(FormatItem::LineNumber)
        .append(FormatItem::CustomCharacter(':'))
        .append(FormatItem::ColumnNumber)
        .set_line(1)
        .set_column(2)
        .set_module_path("own");
    assert_eq!(
        __log_message(LogLevel::Error, "m", own, &mut logger),
        Some("over 7:2".to_string())
    );
    let mut shaped = StringLogger::new();
    shaped.set_override(Format::new().append(FormatItem::LogString));
    assert_eq!(
        __log_message(LogLevel::Error, "only this", Format::default(), &mut shaped),
        Some("only this".to_string())
    );
}

#[test]
fn equal_logs_through_equal_loggers_give_equal_lines() {
    let at = Timestamp::new(1_057_056_757, 0, 0).unwrap();
    let make = || {
        let mut logger = StringLogger::new();
        logger.set_override(Format::default().set_constant_time(at));
        logger
    };
    let record = || LogItem::new(Format::default().set_line(9).set_column(1), LogLevel::Warning, "same");
    let mut first = make();
    let mut second = make();
    let mut copy = first.clone();
    let a = first.log_item(record());
    let b = second.log_item(record());
    let c = first.log_item(record());
    let d = copy.log_item(record().clone());
    assert_eq!(a, "[10:52:37] ( 9:1) Warning: same");
    assert_eq!(a, b);
    assert_eq!(a, c);
    assert_eq!(a, d);
}

#[test]
fn fresh_file_logger_emits_nothing() {
    let mut logger = FileLogger::new();
    assert!(!logger.is_open());
    assert!(logger.can_log_item(&item(LogLevel::Error)));
    assert_eq!(logger.log_item(item(LogLevel::Error)), None);
    assert_eq!(
        __log_message(LogLevel::Error, "m", message_only(), &mut logger),
        Some(None)
    );
    let bad = Format::new().append(FormatItem::TimeString("%".to_string()));
    assert!(logger.can_render_item(&LogItem::new(bad, LogLevel::Error, "m")));
}

#[test]
fn open_file_logger_gives_the_line_and_its_end() {
    let mut logger = open_logger();
    assert!(logger.is_open());
    assert_eq!(logger.log_item(item(LogLevel::Error)), Some("Error: m\n".to_string()));
    assert_eq!(
        logger.log_item(LogItem::new(Format::new(), LogLevel::Error, "m")),
        Some("\n".to_string())
    );
    logger.set_override(Format::new().append(FormatItem::LogString));
    assert_eq!(logger.log_item(item(LogLevel::Error)), Some("m\n".to_string()));
    logger.close_file();
    assert!(!logger.is_open());
    assert_eq!(logger.log_item(item(LogLevel::Error)), None);
    logger.close_file();
    assert!(!logger.is_open());
}

#[test]
fn failed_open_is_handed_on_and_changes_nothing() {
    let mut logger = FileLogger::new();
    assert_eq!(
        logger.open_file("/no/such/dir/x.log", Err("denied".to_string())),
        Err("denied".to_string())
    );
    assert!(!logger.is_open());
    assert_eq!(logger.open_file("a.log", Ok(())), Ok(()));
    assert!(logger.is_open());
    assert_eq!(
        logger.open_file("b.log", Err("denied".to_string())),
        Err("denied".to_string())
    );
    assert!(logger.is_open());
    assert_eq!(logger.open_file("c.log", Ok(())), Ok(()));
    assert!(logger.is_open());
}

#[test]
fn write_failure_is_fatal_only_on_request() {
    let mut logger = FileLogger::new();
    assert!(!logger.on_write(true));
    assert!(!logger.on_write(false));
    logger.set_panic_on_fail(true);
    assert!(!logger.on_write(true));
    assert!(logger.on_write(false));
    logger.set_panic_on_fail(false);
    assert!(!logger.on_write(false));
}

#[test]
fn restricted_levels_are_suppressed() {
    let mut logger = open_logger();
    logger.restrict_log_levels(&[LogLevel::Warning, LogLevel::Information]);
    assert!(logger.can_log_item(&item(LogLevel::Error)));
    assert!(!logger.can_log_item(&item(LogLevel::Warning)));
    assert!(logger.can_log_item(&item(LogLevel::StateChange)));
    assert!(!logger.can_log_item(&item(LogLevel::Information)));
    assert_eq!(__log_message(LogLevel::Warning, "m", message_only(), &mut logger), None);
    assert_eq!(
        __log_message(LogLevel::Error, "m", message_only(), &mut logger),
        Some(Some("Error: m\n".to_string()))
    );
}

#[test]
fn restricting_twice_is_restricting_once() {
    let mut logger = open_logger();
    logger.restrict_log_levels(&[LogLevel::Error]);
    logger.restrict_log_levels(&[LogLevel::Error, LogLevel::Error]);
    assert!(!logger.can_log_item(&item(LogLevel::Error)));
    logger.allow_log_levels(&[LogLevel::Error]);
    assert!(logger.can_log_item(&item(LogLevel::Error)));
}

#[test]
fn allowing_an_unrestricted_level_changes_nothing() {
    let mut logger = open_logger();
    logger.restrict_log_levels(&[LogLevel::Warning]);
    logger.allow_log_levels(&[LogLevel::Error, LogLevel::Information]);
    assert!(logger.can_log_item(&item(LogLevel::Error)));
    assert!(!logger.can_log_item(&item(LogLevel::Warning)));
    assert!(logger.can_log_item(&item(LogLevel::Information)));
    logger.allow_log_levels(&[]);
    logger.restrict_log_levels(&[]);
    assert!(!logger.can_log_item(&item(LogLevel::Warning)));
}

#[test]
fn restrict_then_allow_lets_the_level_through_again() {
    let mut logger = open_logger();
    let all = [LogLevel::Error, LogLevel::Warning, LogLevel::StateChange, LogLevel::Information];
    logger.restrict_log_levels(&all);
    for level in all {
        assert_eq!(__log_message(level, "m", message_only(), &mut logger), None);
    }
    logger.allow_log_levels(&[LogLevel::StateChange, LogLevel::StateChange]);
    assert_eq!(
        __log_message(LogLevel::StateChange, "m", message_only(), &mut logger),
        Some(Some("StateChange: m\n".to_string()))
    );
    assert_eq!(__log_message(LogLevel::Error, "m", message_only(), &mut logger), None);
    logger.allow_log_levels(&all);
    for level in all {
        assert!(logger.can_log_item(&item(level)));
    }
}

#[test]
fn default_logger_functions_hand_a_failed_lock_on() {
    let poisoned = || Err("poisoned lock".to_string());
    assert_eq!(set_output_file(poisoned(), "a.log", Ok(())), Err("poisoned lock".to_string()));
    assert_eq!(close_output_file(poisoned()), Err("poisoned lock".to_string()));
    assert_eq!(restrict_log_levels(poisoned(), &[LogLevel::Error]), Err("poisoned lock".to_string()));
    assert_eq!(allow_log_levels(poisoned(), &[LogLevel::Error]), Err("poisoned lock".to_string()));
    assert_eq!(
        __default_log_message(LogLevel::Error, "m", message_only(), poisoned()),
        Err("poisoned lock".to_string())
    );
    assert!(matches!(
        checked_default_log_message(LogLevel::Error, "m", message_only(), poisoned()),
        Err(error) if error == "poisoned lock"
    ));
}

#[test]
fn failed_lock_is_told_apart_from_a_suppressed_log() {
    let mut logger = open_logger();
    logger.restrict_log_levels(&[LogLevel::Error]);
    let suppressed = __default_log_message(LogLevel::Error, "m", message_only(), Ok(&mut logger));
    let failed = __default_log_message(
        LogLevel::Error,
        "m",
        message_only(),
        Err("poisoned lock".to_string()),
    );
    assert_eq!(suppressed, Ok(None));
    assert_eq!(failed, Err("poisoned lock".to_string()));
    assert_ne!(suppressed, failed);
    assert!(matches!(
        checked_default_log_message(LogLevel::Error, "m", message_only(), Ok(&mut logger)),
        Ok(Dispatch::Suppressed)
    ));
    let bad = Format::new().append(FormatItem::TimeString("%".to_string()));
    assert!(matches!(
        checked_default_log_message(LogLevel::Warning, "m", bad, Err("poisoned lock".to_string())),
        Err(error) if error == "poisoned lock"
    ));
}

#[test]
fn default_logger_functions_change_the_logger() {
    let mut logger = FileLogger::new();
    assert_eq!(
        set_output_file(Ok(&mut logger), "a.log", Err("denied".to_string())),
        Err("denied".to_string())
    );
    assert!(!logger.is_open());
    assert_eq!(
        __default_log_message(LogLevel::Error, "m", message_only(), Ok(&mut logger)),
        Ok(Some(None))
    );
    assert_eq!(set_output_file(Ok(&mut logger), "a.log", Ok(())), Ok(()));
    assert!(logger.is_open());
    assert_eq!(restrict_log_levels(Ok(&mut logger), &[LogLevel::Error]), Ok(()));
    assert_eq!(
        __default_log_message(LogLevel::Error, "m", message_only(), Ok(&mut logger)),
        Ok(None)
    );
    assert_eq!(
        __default_log_message(LogLevel::Warning, "m", message_only(), Ok(&mut logger)),
        Ok(Some(Some("Warning: m\n".to_string())))
    );
    assert_eq!(allow_log_levels(Ok(&mut logger), &[LogLevel::Error]), Ok(()));
    assert_eq!(
        __default_log_message(LogLevel::Error, "m", message_only(), Ok(&mut logger)),
        Ok(Some(Some("Error: m\n".to_string())))
    );
    assert_eq!(close_output_file(Ok(&mut logger)), Ok(()));
    assert!(!logger.is_open());
    assert_eq!(close_output_file(Ok(&mut logger)), Ok(()));
    assert!(!logger.is_open());
}

#[test]
fn checked_dispatch_tells_the_three_ends_apart() {
    let bad = || Format::new().append(FormatItem::TimeString("%H:%".to_string()));
    let mut strings = StringLogger::new();
    assert!(matches!(
        checked_log_message(LogLevel::Error, "m", bad(), &mut strings),
        Dispatch::Unrenderable
    ));
    match checked_log_message(LogLevel::Error, "m", message_only(), &mut strings) {
        Dispatch::Emitted(line) => assert_eq!(line, "Error: m"),
        other => panic!("not emitted: {:?}", other),
    }
    strings.set_override(message_only());
    match checked_log_message(LogLevel::Error, "m", bad(), &mut strings) {
        Dispatch::Emitted(line) => assert_eq!(line, "Error: m"),
        other => panic!("not emitted: {:?}", other),
    }

    let mut files = open_logger();
    files.restrict_log_levels(&[LogLevel::Warning]);
    assert!(matches!(
        checked_log_message(LogLevel::Warning, "m", bad(), &mut files),
        Dispatch::Suppressed
    ));
    assert!(matches!(
        checked_log_message(LogLevel::Error, "m", bad(), &mut files),
        Dispatch::Unrenderable
    ));
    assert!(matches!(
        checked_default_log_message(LogLevel::Error, "m", bad(), Ok(&mut files)),
        Ok(Dispatch::Unrenderable)
    ));
    match checked_default_log_message(LogLevel::Error, "m", message_only(), Ok(&mut files)) {
        Ok(Dispatch::Emitted(text)) => assert_eq!(text, Some("Error: m\n".to_string())),
        other => panic!("not emitted: {:?}", other),
    }
    files.close_file();
    match checked_log_message(LogLevel::Error, "m", bad(), &mut files) {
        Dispatch::Emitted(text) => assert_eq!(text, None),
        other => panic!("not emitted: {:?}", other),
    }
}
