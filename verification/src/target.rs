//! Targets: where a formatted line goes, and as which text.
//!
//! A target does not write. Its `log` answers with the one [`Delivery`] that
//! the call stands for: the place and the exact text. Whoever carries the
//! delivery out reports whether the text was written, and
//! [`Delivery::outcome`] turns that report into the result of the call.

use crate::error::Error;
use crate::log_level::LogLevel;
use crate::paint::{colorized, red, white, yellow, Tint};
use vstd::prelude::*;

verus! {

/// A place that text is written to.
#[derive(Debug, PartialEq, Eq)]
pub enum Sink {
    /// The standard output stream.
    Stdout,
    /// The standard error stream.
    Stderr,
    /// The end of the file at this path, which is created if it is absent.
    File(String),
}

/// The mathematical value of a [`Sink`].
pub ghost enum SinkView {
    Stdout,
    Stderr,
    File(Seq<char>),
}

impl View for Sink {
    type V = SinkView;

    open spec fn view(&self) -> SinkView {
        match self {
            Sink::Stdout => SinkView::Stdout,
            Sink::Stderr => SinkView::Stderr,
            Sink::File(path) => SinkView::File(path@),
        }
    }
}

/// One write: `text`, exactly as it stands, to `sink`.
#[derive(Debug, PartialEq, Eq)]
pub struct Delivery {
    pub sink: Sink,
    pub text: String,
}

/// The mathematical value of a [`Delivery`].
pub ghost struct DeliveryView {
    pub sink: SinkView,
    pub text: Seq<char>,
}

impl View for Delivery {
    type V = DeliveryView;

    open spec fn view(&self) -> DeliveryView {
        DeliveryView { sink: self.sink@, text: self.text@ }
    }
}

/// `line` followed by the line feed that ends it.
pub open spec fn terminated(line: Seq<char>) -> Seq<char> {
    line.push('\n')
}

/// The message of the error that a failed write to a file gives.
pub open spec fn failure_text() -> Seq<char> {
    "Could not open and write to file."@
}

impl Delivery {
    /// Whether the call that asked for this delivery succeeds, given whether
    /// the text was written: only a write to a file can fail it.
    pub open spec fn succeeds(&self, written: bool) -> bool {
        written || !(self@.sink is File)
    }

    /// The result of the call that asked for this delivery, once it is known
    /// whether the text was written.
    ///
    /// A write to a file that failed is an error, whether the file could not
    /// be opened or the text could not be written. A write to a stream of the
    /// console counts as done in either case.
    pub fn outcome(&self, written: bool) -> (r: Result<(), Error>)
        ensures
            r is Ok <==> self.succeeds(written),
            r matches Err(e) ==> e.message@ == failure_text(),
    {
        match self.sink {
            Sink::File(_) => {
                if written {
                    Ok(())
                } else {
                    Err(Error { message: "Could not open and write to file.".to_owned() })
                }
            },
            _ => Ok(()),
        }
    }
}

/// Whether a call succeeds, given what it asked for and whether that was
/// written: a call that asked for nothing does.
pub open spec fn call_succeeds(delivery: Option<Delivery>, written: bool) -> bool {
    match delivery {
        Some(d) => d.succeeds(written),
        None => true,
    }
}

/// The result of a call, from what it asked for and whether that was written.
/// A call that asked for nothing succeeds; for the others see
/// [`Delivery::outcome`].
pub fn conclude(delivery: &Option<Delivery>, written: bool) -> (r: Result<(), Error>)
    ensures
        r is Ok <==> call_succeeds(*delivery, written),
        r matches Err(e) ==> e.message@ == failure_text(),
{
    match delivery {
        Some(d) => d.outcome(written),
        None => Ok(()),
    }
}

/// The capability to take a formatted line of some severity.
pub trait Target {
    /// Whether `d` is a delivery that this target asks for when it is given
    /// `message` at `level`.
    spec fn delivers(&self, message: Seq<char>, level: LogLevel, d: DeliveryView) -> bool;

    /// The delivery for `message` at `log_level`.
    fn log(&self, message: &str, log_level: &LogLevel) -> (d: Delivery)
        ensures
            self.delivers(message@, *log_level, d@),
    ;
}

/// The console: the error stream for errors, standard output for the rest,
/// in colour if asked for.
pub struct ConsoleTarget {
    use_colors: bool,
}

impl ConsoleTarget {
    /// Whether this target colours its lines.
    pub closed spec fn colors(&self) -> bool {
        self.use_colors
    }

    /// The colour of a line at `level`.
    pub open spec fn tint(level: LogLevel) -> Tint {
        match level {
            LogLevel::Warning => Tint::Yellow,
            LogLevel::Error => Tint::Red,
            _ => Tint::White,
        }
    }

    /// The stream for a line at `level`.
    pub open spec fn stream(level: LogLevel) -> SinkView {
        if level == LogLevel::Error {
            SinkView::Stderr
        } else {
            SinkView::Stdout
        }
    }

    /// Whether `out` is `message` as this target renders it at `level`: the
    /// message itself, or, only for a target that colours, the message
    /// colorized in the tint of the level.
    pub open spec fn renders(&self, message: Seq<char>, level: LogLevel, out: Seq<char>) -> bool {
        out == message || (self.colors() && out == colorized(message, Self::tint(level)))
    }

    pub fn new(use_colors: bool) -> (t: Box<ConsoleTarget>)
        ensures
            t.colors() == use_colors,
    {
        Box::new(ConsoleTarget { use_colors })
    }

    /// Renders `message` for the terminal. Without colours the message comes
    /// back as it is; with them it is painted yellow for a warning, red for an
    /// error and white otherwise, which leaves it as it is where colouring is
    /// switched off for the process.
    pub fn compute_colored_message(&self, message: &str, log_level: &LogLevel) -> (out: String)
        ensures
            self.renders(message@, *log_level, out@),
            !self.colors() ==> out@ == message@,
    {
        if !self.use_colors {
            return message.to_owned();
        }
        match log_level {
            LogLevel::Warning => yellow(message),
            LogLevel::Error => red(message),
            _ => white(message),
        }
    }

    /// The delivery of a rendered line at `log_level`: the line and its line
    /// feed, to the stream of the level.
    pub fn route(rendered: String, log_level: &LogLevel) -> (d: Delivery)
        ensures
            d@.sink == Self::stream(*log_level),
            d@.text == terminated(rendered@),
    {
        let mut text = rendered;
        text.append("\n");
        proof {
            reveal_strlit("\n");
            assert(text@ =~= terminated(rendered@));
        }
        match log_level {
            LogLevel::Error => Delivery { sink: Sink::Stderr, text },
            _ => Delivery { sink: Sink::Stdout, text },
        }
    }
}

impl Target for ConsoleTarget {
    open spec fn delivers(&self, message: Seq<char>, level: LogLevel, d: DeliveryView) -> bool {
        &&& d.sink == Self::stream(level)
        &&& d.text == terminated(message) || (self.colors() && d.text == terminated(
            colorized(message, Self::tint(level)),
        ))
    }

    fn log(&self, message: &str, log_level: &LogLevel) -> (d: Delivery)
        ensures
            *log_level == LogLevel::Error ==> d@.sink == SinkView::Stderr,
            *log_level != LogLevel::Error ==> d@.sink == SinkView::Stdout,
            !self.colors() ==> d@.text == terminated(message@),
    {
        let final_message = self.compute_colored_message(message, log_level);
        Self::route(final_message, log_level)
    }
}

/// A file that each line is appended to.
pub struct FileTarget {
    file_path: String,
}

impl FileTarget {
    /// The path of the file.
    pub closed spec fn path(&self) -> Seq<char> {
        self.file_path@
    }

    pub fn new(file_path: &str) -> (t: Box<FileTarget>)
        ensures
            t.path() == file_path@,
    {
        Box::new(FileTarget { file_path: file_path.to_owned() })
    }
}

impl Target for FileTarget {
    open spec fn delivers(&self, message: Seq<char>, level: LogLevel, d: DeliveryView) -> bool {
        &&& d.sink == SinkView::File(self.path())
        &&& d.text == terminated(message)
    }

    fn log(&self, message: &str, log_level: &LogLevel) -> (d: Delivery)
        ensures
            d@.sink == SinkView::File(self.path()),
            d@.text == terminated(message@),
    {
        let mut text = message.to_owned();
        text.append("\n");
        proof {
            reveal_strlit("\n");
            assert(text@ =~= terminated(message@));
        }
        Delivery { sink: Sink::File(self.file_path.clone()), text }
    }
}

} // verus!
