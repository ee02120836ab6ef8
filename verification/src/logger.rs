//! The logger: a threshold, a line format and one target.

use crate::log_level::LogLevel;
use crate::paint::{colorized, escape, plain, Tint};
use crate::target::{call_succeeds, terminated, ConsoleTarget, Delivery, FileTarget, SinkView, Target};
use vstd::prelude::*;

verus! {

/// The line for `message` at `level`: the name of the level in square
/// brackets, a space, and the message.
pub open spec fn line(level: LogLevel, message: Seq<char>) -> Seq<char> {
    seq!['['] + level.name() + seq![']', ' '] + message
}

/// Formats `message` at `log_level` as a line, before any colouring.
pub fn format_line(log_level: &LogLevel, message: &str) -> (formatted: String)
    ensures
        formatted@ == line(*log_level, message@),
{
    let level_name = log_level.display_name();
    let mut formatted = "[".to_owned();
    formatted.append(level_name.as_str());
    formatted.append("] ");
    formatted.append(message);
    proof {
        reveal_strlit("[");
        reveal_strlit("] ");
        assert(formatted@ =~= line(*log_level, message@));
    }
    formatted
}

/// A threshold in front of a target. Both are fixed when the logger is made.
pub struct Logger<T: Target> {
    log_level: LogLevel,
    target: Box<T>,
}

impl<T: Target> Logger<T> {
    /// The least severe level that this logger lets through.
    pub closed spec fn threshold(&self) -> LogLevel {
        self.log_level
    }

    /// The target that this logger hands its lines to.
    pub closed spec fn target(&self) -> T {
        *self.target
    }

    /// Whether a call at `level` passes the threshold: `level` is at least as
    /// severe as the threshold.
    pub open spec fn admits(&self, level: LogLevel) -> bool {
        level.ordinal() <= self.threshold().ordinal()
    }

    /// Whether `d` is what a call at `level` with `message` comes to: nothing
    /// below the threshold, else a delivery that the target asks for when it
    /// is given the formatted line.
    pub open spec fn answers(&self, level: LogLevel, message: Seq<char>, d: Option<Delivery>) -> bool {
        match d {
            None => !self.admits(level),
            Some(d) => self.admits(level) && self.target().delivers(line(level, message), level, d@),
        }
    }

    pub fn new(log_level: LogLevel, target: Box<T>) -> (logger: Logger<T>)
        ensures
            logger.threshold() == log_level,
            logger.target() == *target,
    {
        Logger { log_level, target }
    }

    /// Whether a call at `log_level` passes the threshold.
    pub fn should_log(&self, log_level: &LogLevel) -> (pass: bool)
        ensures
            pass == self.admits(*log_level),
            pass == (log_level.ordinal() <= self.threshold().ordinal()),
    {
        log_level.is_at_least_as_severe(self.log_level)
    }

    /// Filters, formats and hands on: `None` for a call below the threshold,
    /// else the delivery that the target asks for when it is given the
    /// formatted line.
    pub fn log(&self, log_level: &LogLevel, message: &str) -> (d: Option<Delivery>)
        ensures
            self.answers(*log_level, message@, d),
            d is Some <==> self.admits(*log_level),
    {
        if !self.should_log(log_level) {
            return None;
        }
        let formatted_message = format_line(log_level, message);
        Some(self.target.log(formatted_message.as_str(), log_level))
    }

    /// [`Logger::log`] at the level `Message`.
    pub fn log_message(&self, message: &str) -> (d: Option<Delivery>)
        ensures
            self.answers(LogLevel::Message, message@, d),
            d is Some <==> self.threshold() == LogLevel::Message,
    {
        self.log(&LogLevel::Message, message)
    }

    /// [`Logger::log`] at the level `Warning`.
    pub fn log_warning(&self, warning: &str) -> (d: Option<Delivery>)
        ensures
            self.answers(LogLevel::Warning, warning@, d),
            d is Some <==> self.threshold() == LogLevel::Message || self.threshold()
                == LogLevel::Warning,
    {
        self.log(&LogLevel::Warning, warning)
    }

    /// [`Logger::log`] at the level `Error`.
    pub fn log_error(&self, error: &str) -> (d: Option<Delivery>)
        ensures
            self.answers(LogLevel::Error, error@, d),
            d is Some <==> self.threshold() != LogLevel::Nothing,
    {
        self.log(&LogLevel::Error, error)
    }
}

/// A line holds an escape character only where its message does.
pub proof fn lemma_line_of_plain_message_is_plain(level: LogLevel, message: Seq<char>)
    requires
        plain(message),
    ensures
        plain(line(level, message)),
{
    reveal_strlit("NOTHING");
    reveal_strlit("ERROR");
    reveal_strlit("WARNING");
    reveal_strlit("MESSAGE");
    let l = line(level, message);
    let n = level.name().len() as int;
    assert forall|i: int| 0 <= i < l.len() implies l[i] != escape() by {
        if i >= n + 3 {
            assert(l[i] == message[i - n - 3]);
            assert(message.contains(message[i - n - 3]));
        }
    }
}

/// A logger with the threshold `Nothing` answers no call at another level:
/// there is nothing to write, and so nothing that can fail.
pub proof fn lemma_nothing_suppresses<T: Target>(
    logger: Logger<T>,
    level: LogLevel,
    message: Seq<char>,
    d: Option<Delivery>,
)
    requires
        logger.threshold() == LogLevel::Nothing,
        level != LogLevel::Nothing,
        logger.answers(level, message, d),
    ensures
        d is None,
        forall|written: bool| call_succeeds(d, written),
{
}

/// A logger on the console sends a line to the error stream if its level is
/// `Error`, and to standard output at every other level.
pub proof fn lemma_console_routes_by_level(
    logger: Logger<ConsoleTarget>,
    level: LogLevel,
    message: Seq<char>,
    d: Delivery,
)
    requires
        logger.answers(level, message, Some(d)),
    ensures
        level == LogLevel::Error ==> d@.sink == SinkView::Stderr,
        level != LogLevel::Error ==> d@.sink == SinkView::Stdout,
{
}

/// A logger on a console without colours writes the line as it is formatted,
/// at every level; where the message holds no escape character, neither does
/// what is written.
pub proof fn lemma_console_without_colors_is_plain(
    logger: Logger<ConsoleTarget>,
    level: LogLevel,
    message: Seq<char>,
    d: Delivery,
)
    requires
        !logger.target().colors(),
        logger.answers(level, message, Some(d)),
    ensures
        d@.text == terminated(line(level, message)),
        plain(message) ==> plain(d@.text),
{
    if plain(message) {
        lemma_line_of_plain_message_is_plain(level, message);
        let l = line(level, message);
        assert forall|i: int| 0 <= i < d@.text.len() implies d@.text[i] != escape() by {
            if i < l.len() {
                assert(l.contains(l[i]));
            }
        }
    }
}

/// A logger on a console with colours writes the line as it is formatted, or
/// the line in the colour of its level: yellow for a warning, red for an
/// error. Which of the two depends on where the process runs. What is written
/// in colour starts with the sequence of that colour.
pub proof fn lemma_console_with_colors_marks_severity(
    logger: Logger<ConsoleTarget>,
    level: LogLevel,
    message: Seq<char>,
    d: Delivery,
)
    requires
        logger.target().colors(),
        logger.answers(level, message, Some(d)),
        d@.text != terminated(line(level, message)),
    ensures
        level == LogLevel::Warning ==> d@.text == terminated(
            colorized(line(level, message), Tint::Yellow),
        ) && Tint::Yellow.start().is_prefix_of(d@.text),
        level == LogLevel::Error ==> d@.text == terminated(
            colorized(line(level, message), Tint::Red),
        ) && Tint::Red.start().is_prefix_of(d@.text),
{
}

/// What a file holds after a delivery, where every delivery to it is appended.
pub open spec fn appended(content: Seq<char>, d: Delivery) -> Seq<char> {
    content + d@.text
}

/// Two calls on a logger with a file as its target, appended to an empty
/// file in their order, give two lines: the first formatted line, then the
/// second, each ended by a line feed. Both deliveries go to the path of the
/// target, and the second leaves the first line as it was.
pub proof fn lemma_file_keeps_lines_in_order(
    logger: Logger<FileTarget>,
    level1: LogLevel,
    message1: Seq<char>,
    d1: Delivery,
    level2: LogLevel,
    message2: Seq<char>,
    d2: Delivery,
)
    requires
        logger.answers(level1, message1, Some(d1)),
        logger.answers(level2, message2, Some(d2)),
    ensures
        d1@.sink == SinkView::File(logger.target().path()),
        d2@.sink == SinkView::File(logger.target().path()),
        appended(Seq::empty(), d1) == terminated(line(level1, message1)),
        appended(appended(Seq::empty(), d1), d2) == terminated(line(level1, message1))
            + terminated(line(level2, message2)),
        appended(Seq::empty(), d1).is_prefix_of(appended(appended(Seq::empty(), d1), d2)),
{
    assert(appended(Seq::empty(), d1) =~= d1@.text);
}

} // verus!
