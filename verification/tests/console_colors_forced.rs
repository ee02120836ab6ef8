use colored::control::set_override;
use rust_logger::{ConsoleTarget, LogLevel, Logger, Sink, Target};

#[test]
fn warning_is_yellow_where_colors_are_on() {
    set_override(true);
    let target = ConsoleTarget::new(true);
    assert_eq!(
        target.compute_colored_message("[WARNING] disk low", &LogLevel::Warning),
        "\u{1b}[33m[WARNING] disk low\u{1b}[0m"
    );
}

#[test]
fn error_is_red_where_colors_are_on() {
    set_override(true);
    let target = ConsoleTarget::new(true);
    assert_eq!(
        target.compute_colored_message("[ERROR] boom", &LogLevel::Error),
        "\u{1b}[31m[ERROR] boom\u{1b}[0m"
    );
}

#[test]
fn other_levels_are_white_where_colors_are_on() {
    set_override(true);
    let target = ConsoleTarget::new(true);
    assert_eq!(
        target.compute_colored_message("[MESSAGE] hi", &LogLevel::Message),
        "\u{1b}[37m[MESSAGE] hi\u{1b}[0m"
    );
    assert_eq!(
        target.compute_colored_message("[NOTHING] hi", &LogLevel::Nothing),
        "\u{1b}[37m[NOTHING] hi\u{1b}[0m"
    );
}

#[test]
fn color_is_reinstated_behind_a_reset_in_the_message() {
    set_override(true);
    let target = ConsoleTarget::new(true);
    assert_eq!(
        target.compute_colored_message("a\u{1b}[0mb", &LogLevel::Error),
        "\u{1b}[31ma\u{1b}[0m\u{1b}[31mb\u{1b}[0m"
    );
    assert_eq!(
        target.compute_colored_message("\u{1b}[0m\u{1b}[0mx\u{1b}[0m", &LogLevel::Warning),
        "\u{1b}[33m\u{1b}[0m\u{1b}[33m\u{1b}[0m\u{1b}[33mx\u{1b}[0m\u{1b}[33m\u{1b}[0m"
    );
}

#[test]
fn other_escapes_in_the_message_are_left_alone() {
    set_override(true);
    let target = ConsoleTarget::new(true);
    assert_eq!(
        target.compute_colored_message("\u{1b}[1mbold\u{1b}[0", &LogLevel::Warning),
        "\u{1b}[33m\u{1b}[1mbold\u{1b}[0\u{1b}[0m"
    );
}

#[test]
fn empty_message_is_colored_too() {
    set_override(true);
    let target = ConsoleTarget::new(true);
    assert_eq!(
        target.compute_colored_message("", &LogLevel::Error),
        "\u{1b}[31m\u{1b}[0m"
    );
}

#[test]
fn line_feed_follows_the_reset() {
    set_override(true);
    let target = ConsoleTarget::new(true);
    let d = target.log("[ERROR] boom", &LogLevel::Error);
    assert_eq!(d.sink, Sink::Stderr);
    assert_eq!(d.text, "\u{1b}[31m[ERROR] boom\u{1b}[0m\n");
}

#[test]
fn colored_warning_through_the_logger() {
    set_override(true);
    let logger = Logger::new(LogLevel::Message, ConsoleTarget::new(true));
    let d = logger.log_warning("disk low").unwrap();
    assert_eq!(d.sink, Sink::Stdout);
    assert_eq!(d.text, "\u{1b}[33m[WARNING] disk low\u{1b}[0m\n");
    assert!(d.text.contains("\u{1b}[33m"));
}

#[test]
fn colored_error_through_the_logger() {
    set_override(true);
    let logger = Logger::new(LogLevel::Message, ConsoleTarget::new(true));
    let d = logger.log_error("boom").unwrap();
    assert_eq!(d.sink, Sink::Stderr);
    assert_eq!(d.text, "\u{1b}[31m[ERROR] boom\u{1b}[0m\n");
    assert!(d.text.contains("\u{1b}[31m"));
}

#[test]
fn target_without_colors_ignores_the_override() {
    set_override(true);
    let logger = Logger::new(LogLevel::Message, ConsoleTarget::new(false));
    let d = logger.log_error("boom").unwrap();
    assert_eq!(d.text, "[ERROR] boom\n");
}
