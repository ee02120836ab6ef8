//! Severity levels and their order.

use vstd::prelude::*;

verus! {

/// The severity of a line, and the threshold of a logger.
///
/// The levels are ordered `Nothing < Error < Warning < Message`: a lower
/// ordinal is a higher priority, and `Nothing` as a threshold switches a
/// logger off for every level but `Nothing` itself.
#[derive(Copy, Clone, Debug, PartialEq, Eq, Structural)]
pub enum LogLevel {
    Nothing,
    Error,
    Warning,
    Message,
}

impl LogLevel {
    /// The position of the level in the order of severities.
    pub open spec fn ordinal(self) -> int {
        match self {
            LogLevel::Nothing => 0,
            LogLevel::Error => 1,
            LogLevel::Warning => 2,
            LogLevel::Message => 3,
        }
    }

    /// The name of the level as it is declared.
    pub open spec fn symbol(self) -> Seq<char> {
        match self {
            LogLevel::Nothing => "Nothing"@,
            LogLevel::Error => "Error"@,
            LogLevel::Warning => "Warning"@,
            LogLevel::Message => "Message"@,
        }
    }

    /// The name of the level as it stands in a line: its symbol in capitals.
    pub open spec fn name(self) -> Seq<char> {
        match self {
            LogLevel::Nothing => "NOTHING"@,
            LogLevel::Error => "ERROR"@,
            LogLevel::Warning => "WARNING"@,
            LogLevel::Message => "MESSAGE"@,
        }
    }

    /// Computes the ordinal of the level.
    pub fn rank(self) -> (r: u8)
        ensures
            r as int == self.ordinal(),
    {
        match self {
            LogLevel::Nothing => 0,
            LogLevel::Error => 1,
            LogLevel::Warning => 2,
            LogLevel::Message => 3,
        }
    }

    /// The name of the level as it is declared.
    pub fn to_string(&self) -> (s: String)
        ensures
            s@ == self.symbol(),
    {
        match self {
            LogLevel::Nothing => "Nothing".to_owned(),
            LogLevel::Error => "Error".to_owned(),
            LogLevel::Warning => "Warning".to_owned(),
            LogLevel::Message => "Message".to_owned(),
        }
    }

    /// The name of the level as it stands in a line.
    pub fn display_name(&self) -> (s: String)
        ensures
            s@ == self.name(),
    {
        match self {
            LogLevel::Nothing => "NOTHING".to_owned(),
            LogLevel::Error => "ERROR".to_owned(),
            LogLevel::Warning => "WARNING".to_owned(),
            LogLevel::Message => "MESSAGE".to_owned(),
        }
    }

    /// Whether `self` is at least as severe as `other`.
    pub fn is_at_least_as_severe(self, other: LogLevel) -> (r: bool)
        ensures
            r == (self.ordinal() <= other.ordinal()),
    {
        self.rank() <= other.rank()
    }
}

/// `c` in capitals, where `c` is a small letter of the ASCII alphabet; else `c`.
pub open spec fn capital(c: char) -> char {
    if 'a' <= c && c <= 'z' {
        ((c as u8) - 32) as u8 as char
    } else {
        c
    }
}

/// No two levels share an ordinal, and every ordinal lies between that of
/// `Nothing` and that of `Message`.
pub proof fn lemma_ordinals_tell_levels_apart(a: LogLevel, b: LogLevel)
    ensures
        a.ordinal() == b.ordinal() <==> a == b,
        LogLevel::Nothing.ordinal() <= a.ordinal() <= LogLevel::Message.ordinal(),
{
}

/// The name of a level in a line is its symbol in capitals.
pub proof fn lemma_name_is_symbol_in_capitals(level: LogLevel)
    ensures
        level.name() == level.symbol().map_values(|c: char| capital(c)),
{
    reveal_strlit("Nothing");
    reveal_strlit("NOTHING");
    reveal_strlit("Error");
    reveal_strlit("ERROR");
    reveal_strlit("Warning");
    reveal_strlit("WARNING");
    reveal_strlit("Message");
    reveal_strlit("MESSAGE");
    assert(level.name() =~= level.symbol().map_values(|c: char| capital(c)));
}

} // verus!
