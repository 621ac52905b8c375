//! The listener: one server socket and an accept loop that hands every
//! connection to a task of its own and goes on at once.

use vstd::prelude::*;

use crate::logline::{incoming_text, line_view, started_text, unknown_peer, Level, LogLine};

verus! {

/// The port on which the service listens.
pub const PORT: u16 = 9100;

/// An IPv4 address by its four octets.
#[derive(Clone, Copy, Debug, PartialEq, Eq, Structural)]
pub struct Address(pub u8, pub u8, pub u8, pub u8);

/// The address and port to bind.
#[derive(Clone, Copy, Debug, PartialEq, Eq, Structural)]
pub struct Endpoint {
    pub address: Address,
    pub port: u16,
}

/// The endpoint of the service: every interface, the fixed port.
pub open spec fn service_endpoint() -> Endpoint {
    Endpoint { address: Address(0, 0, 0, 0), port: PORT }
}

/// Where the listener stands.
#[derive(Clone, Copy, Debug, PartialEq, Eq, Structural)]
pub enum Listener {
    /// The socket is being bound.
    Binding,
    /// The socket is bound and connections are accepted.
    Accepting,
    /// The socket could not be bound; the service does not run.
    Stopped,
}

/// What the caller has to do next for the listener.
#[derive(Clone, Copy, Debug, PartialEq, Eq, Structural)]
pub enum ListenerCommand {
    /// Bind the endpoint.
    Bind(Endpoint),
    /// Wait for the next connection.
    Accept,
    /// Read the policy, start a task of its own for the connection just
    /// accepted, and wait for the next connection without waiting for the task.
    Serve,
    /// Give up and surface the bind error.
    Stop,
}

/// What the caller reports back.
#[derive(Clone, Debug, PartialEq, Eq)]
pub enum ListenerEvent {
    /// The socket is bound.
    Bound,
    /// The socket could not be bound.
    BindFailed,
    /// A connection arrived; the peer's address, if it could be read.
    Accepted(Option<String>),
    /// Accepting a connection failed for the reason given.
    AcceptFailed(String),
}

/// The listener's answer to an event.
#[derive(Clone, Debug, PartialEq, Eq)]
pub struct ListenerReaction {
    pub listener: Listener,
    pub command: ListenerCommand,
    pub log: Option<LogLine>,
}

impl Listener {
    /// The command that a listener in this state waits on.
    pub open spec fn pending(self) -> ListenerCommand {
        match self {
            Listener::Binding => ListenerCommand::Bind(service_endpoint()),
            Listener::Accepting => ListenerCommand::Accept,
            Listener::Stopped => ListenerCommand::Stop,
        }
    }

    /// The state that follows on `event`. A failed bind stops the listener
    /// for good; no event on a connection ever does. An event that does not
    /// answer the pending command changes nothing.
    pub open spec fn next(self, event: ListenerEvent) -> Listener {
        match (self, event) {
            (Listener::Binding, ListenerEvent::Bound) => Listener::Accepting,
            (Listener::Binding, ListenerEvent::BindFailed) => Listener::Stopped,
            _ => self,
        }
    }

    /// The command issued on `event`.
    pub open spec fn command_on(self, event: ListenerEvent) -> ListenerCommand {
        match (self, event) {
            (Listener::Accepting, ListenerEvent::Accepted(_)) => ListenerCommand::Serve,
            _ => self.next(event).pending(),
        }
    }

    /// The line logged on `event`, if any.
    pub open spec fn logged(self, event: ListenerEvent) -> Option<(Level, Seq<char>)> {
        match (self, event) {
            (Listener::Binding, ListenerEvent::Bound) => Some(
                (Level::Info, started_text(PORT as nat)),
            ),
            (Listener::Accepting, ListenerEvent::Accepted(Some(peer))) => Some(
                (Level::Info, incoming_text(peer@)),
            ),
            (Listener::Accepting, ListenerEvent::Accepted(None)) => Some(
                (Level::Info, incoming_text(unknown_peer())),
            ),
            (Listener::Accepting, ListenerEvent::AcceptFailed(reason)) => Some(
                (Level::Error, reason@),
            ),
            _ => None,
        }
    }

    /// A listener that has yet to bind, and the command to do so.
    pub fn start() -> (r: ListenerReaction)
        ensures
            r.listener == Listener::Binding,
            r.command == ListenerCommand::Bind(service_endpoint()),
            r.log is None,
    {
        ListenerReaction {
            listener: Listener::Binding,
            command: ListenerCommand::Bind(Endpoint { address: Address(0, 0, 0, 0), port: PORT }),
            log: None,
        }
    }

    /// The command that the listener waits on.
    pub fn command(&self) -> (c: ListenerCommand)
        ensures
            c == self.pending(),
    {
        match self {
            Listener::Binding => ListenerCommand::Bind(
                Endpoint { address: Address(0, 0, 0, 0), port: PORT },
            ),
            Listener::Accepting => ListenerCommand::Accept,
            Listener::Stopped => ListenerCommand::Stop,
        }
    }

    /// Takes one event and says what follows: the new state, the command to
    /// perform, and the line to log.
    pub fn step(self, event: ListenerEvent) -> (r: ListenerReaction)
        ensures
            r.listener == self.next(event),
            r.command == self.command_on(event),
            line_view(r.log) == self.logged(event),
    {
        match self {
            Listener::Binding => match event {
                ListenerEvent::Bound => ListenerReaction {
                    listener: Listener::Accepting,
                    command: ListenerCommand::Accept,
                    log: Some(LogLine::started(PORT)),
                },
                ListenerEvent::BindFailed => ListenerReaction {
                    listener: Listener::Stopped,
                    command: ListenerCommand::Stop,
                    log: None,
                },
                _ => ListenerReaction { listener: self, command: self.command(), log: None },
            },
            Listener::Accepting => match event {
                ListenerEvent::Accepted(peer) => ListenerReaction {
                    listener: Listener::Accepting,
                    command: ListenerCommand::Serve,
                    log: Some(LogLine::incoming(peer)),
                },
                ListenerEvent::AcceptFailed(reason) => ListenerReaction {
                    listener: Listener::Accepting,
                    command: ListenerCommand::Accept,
                    log: Some(LogLine::failure(reason)),
                },
                _ => ListenerReaction { listener: self, command: self.command(), log: None },
            },
            Listener::Stopped => ListenerReaction {
                listener: Listener::Stopped,
                command: ListenerCommand::Stop,
                log: None,
            },
        }
    }
}

/// The state that `listener` reaches on `events`, taken in order.
pub open spec fn listener_after(listener: Listener, events: Seq<ListenerEvent>) -> Listener
    decreases events.len(),
{
    if events.len() == 0 {
        listener
    } else {
        listener_after(listener, events.drop_last()).next(events.last())
    }
}

/// Once the socket is bound the accept loop goes on for ever: nothing that
/// happens to a connection, and no failure to accept one, ends it.
pub proof fn lemma_accept_loop_goes_on(events: Seq<ListenerEvent>)
    ensures
        listener_after(Listener::Accepting, events) == Listener::Accepting,
        events.len() > 0 ==> {
            let command = listener_after(Listener::Accepting, events.drop_last()).command_on(
                events.last(),
            );
            command == ListenerCommand::Accept || command == ListenerCommand::Serve
        },
    decreases events.len(),
{
    if events.len() > 0 {
        lemma_accept_loop_goes_on(events.drop_last());
    }
}

} // verus!
