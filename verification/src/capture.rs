//! The capture task: what becomes of one accepted connection.
//!
//! A session is a value. The caller performs the command that each reaction
//! carries and reports the outcome as the next event, until the command is
//! one that ends the session.

use vstd::prelude::*;

use crate::destination::Destination;
use crate::logline::{discarded_text, empty_text, exhausted_text, line_view, saved_text, Level, LogLine};

verus! {

/// Where a session stands.
#[derive(Clone, Copy, Debug, PartialEq, Eq, Structural)]
pub enum Session {
    /// The stream is being drained into nothing.
    Discarding,
    /// The candidate is being tried as the destination's name.
    Allocating(Destination),
    /// The destination exists and the stream is being copied into it.
    Copying(Destination),
    /// Ended: that many bytes were thrown away.
    Discarded(u64),
    /// Ended: the destination holds that many bytes.
    Kept(Destination, u64),
    /// Ended: nothing arrived and the destination is to be removed.
    Deleted(Destination),
    /// Ended: an error stopped the session.
    Failed,
}

/// What the caller has to do next for a session.
#[derive(Clone, Copy, Debug, PartialEq, Eq, Structural)]
pub enum Command {
    /// Read the stream to its end, keeping nothing, and report the count.
    Drain,
    /// Create the file of that name if and only if none exists, in one step.
    CreateExclusive(Destination),
    /// Copy the stream to its end into the file just created and report the count.
    CopyInto(Destination),
    /// Remove the file, whether or not that succeeds, and close the connection.
    Remove(Destination),
    /// Close the connection.
    Close,
}

/// What the caller reports back.
#[derive(Clone, Debug, PartialEq, Eq)]
pub enum Event {
    /// The file did not exist and now does.
    Created,
    /// A file of that name exists; nothing was changed.
    AlreadyExists,
    /// The file could not be created for the reason given.
    CreateFailed(String),
    /// The stream ended after that many bytes.
    Copied(u64),
    /// Reading or writing failed for the reason given.
    CopyFailed(String),
}

/// A session's answer to an event.
#[derive(Clone, Debug, PartialEq, Eq)]
pub struct Reaction {
    pub session: Session,
    pub command: Command,
    pub log: Option<LogLine>,
}

impl Session {
    /// Whether the session has ended.
    pub open spec fn is_final(self) -> bool {
        self is Discarded || self is Kept || self is Deleted || self is Failed
    }

    /// Whether the session has a file of its own on disk.
    pub open spec fn owns(self) -> Option<Destination> {
        match self {
            Session::Copying(d) => Some(d),
            Session::Kept(d, _) => Some(d),
            _ => None,
        }
    }

    /// The command that a session in this state waits on.
    pub open spec fn pending(self) -> Command {
        match self {
            Session::Discarding => Command::Drain,
            Session::Allocating(d) => Command::CreateExclusive(d),
            Session::Copying(d) => Command::CopyInto(d),
            _ => Command::Close,
        }
    }

    /// Whether `event` answers the command that the session waits on.
    pub open spec fn expects(self, event: Event) -> bool {
        match self {
            Session::Discarding => event is Copied || event is CopyFailed,
            Session::Allocating(_) => event is Created || event is AlreadyExists
                || event is CreateFailed,
            Session::Copying(_) => event is Copied || event is CopyFailed,
            _ => false,
        }
    }

    /// The state in which a new session starts: draining when the policy
    /// says discard, else trying the first name of the second `now`; failed
    /// when the clock could not be read.
    pub open spec fn dispatched(discard: bool, now: Result<u64, String>) -> Session {
        if discard {
            Session::Discarding
        } else {
            match now {
                Ok(timestamp) => Session::Allocating(Destination { timestamp, suffix: 0 }),
                Err(_) => Session::Failed,
            }
        }
    }

    /// The state that follows on `event`. An event that does not answer the
    /// pending command changes nothing, so an ended session stays as it is.
    pub open spec fn next(self, event: Event) -> Session {
        match (self, event) {
            (Session::Discarding, Event::Copied(bytes)) => Session::Discarded(bytes),
            (Session::Discarding, Event::CopyFailed(_)) => Session::Failed,
            (Session::Allocating(d), Event::Created) => Session::Copying(d),
            (Session::Allocating(d), Event::AlreadyExists) => if d.suffix < u64::MAX {
                Session::Allocating(
                    Destination { timestamp: d.timestamp, suffix: (d.suffix + 1) as u64 },
                )
            } else {
                Session::Failed
            },
            (Session::Allocating(_), Event::CreateFailed(_)) => Session::Failed,
            (Session::Copying(d), Event::Copied(bytes)) => if bytes == 0 {
                Session::Deleted(d)
            } else {
                Session::Kept(d, bytes)
            },
            (Session::Copying(_), Event::CopyFailed(_)) => Session::Failed,
            _ => self,
        }
    }

    /// The command issued on entering `after` from `self`: the removal of the
    /// empty file when the session has just found it empty, else whatever the
    /// new state waits on.
    pub open spec fn command_on(self, after: Session) -> Command {
        match (self, after) {
            (Session::Copying(_), Session::Deleted(d)) => Command::Remove(d),
            _ => after.pending(),
        }
    }

    /// The line logged on `event`, if any.
    pub open spec fn logged(self, event: Event) -> Option<(Level, Seq<char>)> {
        match (self, event) {
            (Session::Discarding, Event::Copied(bytes)) => Some(
                (Level::Info, discarded_text(bytes as nat)),
            ),
            (Session::Discarding, Event::CopyFailed(reason)) => Some((Level::Error, reason@)),
            (Session::Allocating(d), Event::AlreadyExists) => if d.suffix < u64::MAX {
                None
            } else {
                Some((Level::Error, exhausted_text()))
            },
            (Session::Allocating(_), Event::CreateFailed(reason)) => Some(
                (Level::Error, reason@),
            ),
            (Session::Copying(d), Event::Copied(bytes)) => if bytes == 0 {
                Some((Level::Warning, empty_text()))
            } else {
                Some((Level::Info, saved_text(bytes as nat, d.name())))
            },
            (Session::Copying(_), Event::CopyFailed(reason)) => Some((Level::Error, reason@)),
            _ => None,
        }
    }

    /// Starts a session under the policy read for it. `now` is the clock in
    /// seconds since the epoch, or the reason why it could not be read; it
    /// matters only when the session saves.
    pub fn dispatch(discard: bool, now: Result<u64, String>) -> (r: Reaction)
        ensures
            r.session == Session::dispatched(discard, now),
            r.command == r.session.pending(),
            line_view(r.log) == (match now {
                Err(reason) if !discard => Some((Level::Error, reason@)),
                _ => None,
            }),
    {
        if discard {
            Reaction { session: Session::Discarding, command: Command::Drain, log: None }
        } else {
            match now {
                Ok(timestamp) => {
                    let first = Destination::first(timestamp);
                    Reaction {
                        session: Session::Allocating(first),
                        command: Command::CreateExclusive(first),
                        log: None,
                    }
                },
                Err(reason) => Reaction {
                    session: Session::Failed,
                    command: Command::Close,
                    log: Some(LogLine::failure(reason)),
                },
            }
        }
    }

    /// The command that the session waits on.
    pub fn command(&self) -> (c: Command)
        ensures
            c == self.pending(),
    {
        match self {
            Session::Discarding => Command::Drain,
            Session::Allocating(d) => Command::CreateExclusive(*d),
            Session::Copying(d) => Command::CopyInto(*d),
            _ => Command::Close,
        }
    }

    /// Whether the session has ended.
    pub fn finished(&self) -> (b: bool)
        ensures
            b == self.is_final(),
    {
        match self {
            Session::Discarded(_) | Session::Kept(_, _) | Session::Deleted(_) | Session::Failed => true,
            _ => false,
        }
    }

    /// Takes one event and says what follows: the new state, the command to
    /// perform, and the line to log.
    pub fn step(self, event: Event) -> (r: Reaction)
        ensures
            r.session == self.next(event),
            r.command == self.command_on(self.next(event)),
            line_view(r.log) == self.logged(event),
    {
        match self {
            Session::Discarding => match event {
                Event::Copied(bytes) => Reaction {
                    session: Session::Discarded(bytes),
                    command: Command::Close,
                    log: Some(LogLine::discarded(bytes)),
                },
                Event::CopyFailed(reason) => failed(reason),
                _ => unchanged(self),
            },
            Session::Allocating(candidate) => match event {
                Event::Created => Reaction {
                    session: Session::Copying(candidate),
                    command: Command::CopyInto(candidate),
                    log: None,
                },
                Event::AlreadyExists => match candidate.next() {
                    Some(following) => Reaction {
                        session: Session::Allocating(following),
                        command: Command::CreateExclusive(following),
                        log: None,
                    },
                    None => Reaction {
                        session: Session::Failed,
                        command: Command::Close,
                        log: Some(LogLine::exhausted()),
                    },
                },
                Event::CreateFailed(reason) => failed(reason),
                _ => unchanged(self),
            },
            Session::Copying(destination) => match event {
                Event::Copied(bytes) => if bytes == 0 {
                    Reaction {
                        session: Session::Deleted(destination),
                        command: Command::Remove(destination),
                        log: Some(LogLine::empty()),
                    }
                } else {
                    let name = destination.file_name();
                    Reaction {
                        session: Session::Kept(destination, bytes),
                        command: Command::Close,
                        log: Some(LogLine::saved(bytes, name.as_str())),
                    }
                },
                Event::CopyFailed(reason) => failed(reason),
                _ => unchanged(self),
            },
            _ => unchanged(self),
        }
    }
}

/// The reaction that ends a session on an error and logs its reason.
fn failed(reason: String) -> (r: Reaction)
    ensures
        r.session == Session::Failed,
        r.command == Command::Close,
        line_view(r.log) == Some((Level::Error, reason@)),
{
    Reaction { session: Session::Failed, command: Command::Close, log: Some(LogLine::failure(reason)) }
}

/// The reaction to an event that the session does not wait on.
fn unchanged(session: Session) -> (r: Reaction)
    ensures
        r.session == session,
        r.command == session.pending(),
        r.log is None,
{
    let command = session.command();
    Reaction { session, command, log: None }
}

} // verus!
