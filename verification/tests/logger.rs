use pubg::{FrameLog, FrameLogger, LogLevel};

#[test]
fn logger_keeps_info_and_above() {
    let logger = FrameLogger;
    assert!(logger.enabled(LogLevel::Error));
    assert!(logger.enabled(LogLevel::Warn));
    assert!(logger.enabled(LogLevel::Info));
    assert!(!logger.enabled(LogLevel::Debug));
    assert!(!logger.enabled(LogLevel::Trace));
}

#[test]
fn logger_colors() {
    let logger = FrameLogger;
    assert_eq!(logger.level_color(LogLevel::Error), "\x1B[31m");
    assert_eq!(logger.level_color(LogLevel::Warn), "\x1B[33m");
    assert_eq!(logger.level_color(LogLevel::Info), "\x1B[32m");
    assert_eq!(logger.level_color(LogLevel::Debug), "\x1B[36m");
    assert_eq!(logger.level_color(LogLevel::Trace), "\x1B[90m");
}

#[test]
fn frame_shows_all_lines_and_clears_the_rest() {
    let mut log = FrameLog::new();
    log.push("a".to_string());
    log.push("b".to_string());
    let frame = log.flush_frame(5);
    assert_eq!(frame.lines, vec!["a".to_string(), "b".to_string()]);
    assert_eq!((frame.blank_from, frame.blank_to), (2, 5));
    assert!(log.entries.is_empty());
}

#[test]
fn frame_shows_the_last_lines_when_full() {
    let mut log = FrameLog::new();
    for i in 0..7 {
        log.push(format!("line {}", i));
    }
    let frame = log.flush_frame(3);
    assert_eq!(frame.lines, vec!["line 4".to_string(), "line 5".to_string(), "line 6".to_string()]);
    assert_eq!(frame.blank_from, 7);
    assert_eq!(frame.blank_to, 3);
    assert!(log.entries.is_empty());
    let rows_blanked = (frame.blank_from..frame.blank_to).count();
    assert_eq!(frame.lines.len() + rows_blanked, 3);
}

#[test]
fn frame_of_an_empty_buffer_clears_every_row() {
    let mut log = FrameLog::new();
    let frame = log.flush_frame(4);
    assert!(frame.lines.is_empty());
    assert_eq!((frame.blank_from, frame.blank_to), (0, 4));
}

#[test]
fn log_entry_is_color_level_reset_and_message() {
    let logger = FrameLogger;
    assert_eq!(
        logger.format_entry(LogLevel::Warn, "low health"),
        "\x1B[33m[WARN]\x1B[0m low health"
    );
    assert_eq!(logger.format_entry(LogLevel::Info, ""), "\x1B[32m[INFO]\x1B[0m ");
    assert_eq!(logger.level_name(LogLevel::Error), "ERROR");
    assert_eq!(logger.level_name(LogLevel::Debug), "DEBUG");
    assert_eq!(logger.level_name(LogLevel::Trace), "TRACE");
}
