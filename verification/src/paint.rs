//! Colouring of a line for a terminal, done by the `colored` crate.
//!
//! `colored` decides where the process runs whether it colours at all (a
//! terminal on standard output, the variables `NO_COLOR`, `CLICOLOR` and
//! `CLICOLOR_FORCE`, an override set through its `control` module). The
//! contracts here therefore state what holds of both outcomes: the text comes
//! back as it is, or wrapped in the escape sequences of its colour.

use colored::Colorize;
use vstd::prelude::*;

verus! {

/// The foreground colours that the logger uses.
#[derive(Copy, Clone, Debug, PartialEq, Eq, Structural)]
pub enum Tint {
    White,
    Yellow,
    Red,
}

impl Tint {
    /// The number of the colour in a "select graphic rendition" sequence.
    pub open spec fn code(self) -> Seq<char> {
        match self {
            Tint::White => seq!['3', '7'],
            Tint::Yellow => seq!['3', '3'],
            Tint::Red => seq!['3', '1'],
        }
    }

    /// The sequence that switches the terminal to this colour: `ESC [ code m`.
    pub open spec fn start(self) -> Seq<char> {
        seq![escape(), '['] + self.code() + seq!['m']
    }
}

/// The character that every escape sequence starts with.
pub open spec fn escape() -> char {
    '\x1b'
}

/// Whether `text` is free of escape sequences: it holds no escape character.
pub open spec fn plain(text: Seq<char>) -> bool {
    !text.contains(escape())
}

/// The sequence that switches the terminal back to its defaults: `ESC [ 0 m`.
pub open spec fn reset() -> Seq<char> {
    seq![escape(), '[', '0', 'm']
}

/// `text` with `style` put again behind every reset sequence in it, so that
/// a reset inside the text does not end the colour of the whole.
pub open spec fn reinstated(text: Seq<char>, style: Seq<char>) -> Seq<char>
    decreases text.len(),
{
    if text.len() == 0 {
        text
    } else if reset().is_prefix_of(text) {
        reset() + style + reinstated(text.skip(4), style)
    } else {
        text.take(1) + reinstated(text.skip(1), style)
    }
}

/// `text` in the colour `tint`: the start sequence, the text with the colour
/// reinstated behind inner resets, and a reset.
pub open spec fn colorized(text: Seq<char>, tint: Tint) -> Seq<char> {
    tint.start() + reinstated(text, tint.start()) + reset()
}

/// Whether `out` is a rendering of `text` in `tint`: the text as it is, where
/// colouring is switched off, or the colorized text.
pub open spec fn painted(text: Seq<char>, tint: Tint, out: Seq<char>) -> bool {
    out == text || out == colorized(text, tint)
}

/// `Colorize::white` of `colored` on a `&str`, rendered by the `Display` of
/// `ColoredString`. Trusted: the result is `message` unchanged or `message`
/// colorized in white, as `colored` decides for the process.
#[verifier::external_body]
pub(crate) fn white(message: &str) -> (out: String)
    ensures
        painted(message@, Tint::White, out@),
{
    message.white().to_string()
}

/// `Colorize::yellow` of `colored` on a `&str`, rendered by the `Display` of
/// `ColoredString`. Trusted: the result is `message` unchanged or `message`
/// colorized in yellow, as `colored` decides for the process.
#[verifier::external_body]
pub(crate) fn yellow(message: &str) -> (out: String)
    ensures
        painted(message@, Tint::Yellow, out@),
{
    message.yellow().to_string()
}

/// `Colorize::red` of `colored` on a `&str`, rendered by the `Display` of
/// `ColoredString`. Trusted: the result is `message` unchanged or `message`
/// colorized in red, as `colored` decides for the process.
#[verifier::external_body]
pub(crate) fn red(message: &str) -> (out: String)
    ensures
        painted(message@, Tint::Red, out@),
{
    message.red().to_string()
}

} // verus!
