//! The lines that the engine hands to the log sink: a level and a text.

use vstd::prelude::*;
use vstd::string::StringExecFns;

use crate::decimal::{decimal, push_decimal};

verus! {

/// How much a line matters.
#[derive(Clone, Copy, Debug, PartialEq, Eq, Structural)]
pub enum Level {
    Info,
    Warning,
    Error,
}

/// One line for the log sink.
#[derive(Clone, Debug, PartialEq, Eq)]
pub struct LogLine {
    pub level: Level,
    pub text: String,
}

impl View for LogLine {
    type V = (Level, Seq<char>);

    open spec fn view(&self) -> (Level, Seq<char>) {
        (self.level, self.text@)
    }
}

/// The view of a line that may be absent.
pub open spec fn line_view(line: Option<LogLine>) -> Option<(Level, Seq<char>)> {
    match line {
        Some(l) => Some(l@),
        None => None,
    }
}

/// The text that reports `bytes` bytes thrown away.
pub open spec fn discarded_text(bytes: nat) -> Seq<char> {
    "Discarded "@ + decimal(bytes) + " bytes"@
}

/// The text that reports `bytes` bytes kept in the file called `name`.
pub open spec fn saved_text(bytes: nat, name: Seq<char>) -> Seq<char> {
    "Saved "@ + decimal(bytes) + " bytes into "@ + name
}

/// The text that reports a transfer without a single byte.
pub open spec fn empty_text() -> Seq<char> {
    "Ignored empty file"@
}

/// The text that reports a second whose file names are all taken.
pub open spec fn exhausted_text() -> Seq<char> {
    "No free file name is left for this second"@
}

/// The text that reports the listener ready on `port`.
pub open spec fn started_text(port: nat) -> Seq<char> {
    "Started listener on port "@ + decimal(port)
}

/// The text that reports a connection accepted from `peer`.
pub open spec fn incoming_text(peer: Seq<char>) -> Seq<char> {
    "Incoming connection from "@ + peer
}

/// What stands for a peer whose address could not be read.
pub open spec fn unknown_peer() -> Seq<char> {
    "unknown"@
}

impl LogLine {
    /// Reports `bytes` bytes thrown away.
    pub fn discarded(bytes: u64) -> (line: LogLine)
        ensures
            line@ == (Level::Info, discarded_text(bytes as nat)),
    {
        let mut text = String::from_str("Discarded ");
        push_decimal(&mut text, bytes);
        text.append(" bytes");
        LogLine { level: Level::Info, text }
    }

    /// Reports `bytes` bytes kept in the file called `name`.
    pub fn saved(bytes: u64, name: &str) -> (line: LogLine)
        ensures
            line@ == (Level::Info, saved_text(bytes as nat, name@)),
    {
        let mut text = String::from_str("Saved ");
        push_decimal(&mut text, bytes);
        text.append(" bytes into ");
        text.append(name);
        LogLine { level: Level::Info, text }
    }

    /// Reports a transfer without a single byte.
    pub fn empty() -> (line: LogLine)
        ensures
            line@ == (Level::Warning, empty_text()),
    {
        LogLine { level: Level::Warning, text: String::from_str("Ignored empty file") }
    }

    /// Reports a second whose file names are all taken.
    pub fn exhausted() -> (line: LogLine)
        ensures
            line@ == (Level::Error, exhausted_text()),
    {
        LogLine {
            level: Level::Error,
            text: String::from_str("No free file name is left for this second"),
        }
    }

    /// Reports a failure in the words of the error that caused it.
    pub fn failure(reason: String) -> (line: LogLine)
        ensures
            line@ == (Level::Error, reason@),
    {
        LogLine { level: Level::Error, text: reason }
    }

    /// Reports the listener ready on `port`.
    pub fn started(port: u16) -> (line: LogLine)
        ensures
            line@ == (Level::Info, started_text(port as nat)),
    {
        let mut text = String::from_str("Started listener on port ");
        push_decimal(&mut text, port as u64);
        LogLine { level: Level::Info, text }
    }

    /// Reports a connection accepted; a peer whose address could not be read
    /// is written as unknown.
    pub fn incoming(peer: Option<String>) -> (line: LogLine)
        ensures
            line@ == (
                Level::Info,
                incoming_text(
                    match peer {
                        Some(p) => p@,
                        None => unknown_peer(),
                    },
                ),
            ),
    {
        let mut text = String::from_str("Incoming connection from ");
        match peer {
            Some(p) => text.append(p.as_str()),
            None => text.append("unknown"),
        }
        LogLine { level: Level::Info, text }
    }
}

} // verus!
