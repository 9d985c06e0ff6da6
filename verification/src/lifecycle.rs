//! The life of one viewer connection, from handshake to deregistration.
//!
//! The decisions are taken here; waiting for the next event and carrying out
//! the action returned for it are the caller's part.

use crate::channel::receiver_capacity;
use crate::registry::{single_slot, successor, Registry};
use tokio::sync::mpsc::Receiver;
use vstd::prelude::*;

verus! {

/// A frame of the viewer's transport, as far as the connection reads it.
#[derive(Debug, PartialEq, Eq)]
pub enum Frame {
    Text(String),
    Binary(Vec<u8>),
    Ping(Vec<u8>),
    Pong(Vec<u8>),
    Close,
}

/// Something that happened to an open connection.
#[derive(Debug, PartialEq, Eq)]
pub enum Event {
    /// A notification arrived on the connection's channel.
    Notification(String),
    /// The connection's channel will deliver nothing more.
    ChannelClosed,
    /// A frame arrived from the viewer.
    Inbound(Frame),
    /// The transport will deliver nothing more.
    TransportClosed,
    /// The transport failed, while reading or while writing.
    TransportError,
}

/// What the caller is to do after an event.
#[derive(Debug, PartialEq, Eq)]
pub enum Action {
    /// Nothing; wait for the next event.
    Idle,
    /// Send this text to the viewer.
    SendText(String),
    /// Send a keepalive pong with this payload to the viewer.
    SendPong(Vec<u8>),
    /// Remove this identifier from the registry and stop.
    Deregister(u16),
}

/// The state of one viewer connection.
#[derive(Clone, Copy, Debug, PartialEq, Eq, Structural)]
pub enum Connection {
    /// The handshake is under way; nothing is registered yet.
    Connecting,
    /// Registered under `id`. The two flags say which of the two event
    /// sources may still deliver.
    Open { id: u16, channel_open: bool, transport_open: bool },
    /// Over. No event leads out of this state.
    Closed,
}

impl Connection {
    /// The state that follows `self` on `event`, and the action to carry out.
    ///
    /// Before the handshake is over, a close frame, the end of the transport
    /// or a transport error ends the connection and anything else is ignored.
    /// While open: a notification is relayed as it is; a ping is answered with a
    /// pong of the same payload; a close frame or a transport error ends the
    /// connection; a source that runs dry ends it once the other has run dry
    /// too; any other frame is ignored. The step into `Closed` from `Open`, and
    /// no other step, deregisters.
    pub open spec fn reaction(self, event: Event) -> (Connection, Action) {
        match self {
            Connection::Connecting => match event {
                Event::Inbound(Frame::Close)
                | Event::TransportClosed
                | Event::TransportError => (Connection::Closed, Action::Idle),
                _ => (self, Action::Idle),
            },
            Connection::Open { id, channel_open, transport_open } => match event {
                Event::Notification(text) => (self, Action::SendText(text)),
                Event::ChannelClosed => if transport_open {
                    (Connection::Open { id, channel_open: false, transport_open }, Action::Idle)
                } else {
                    (Connection::Closed, Action::Deregister(id))
                },
                Event::Inbound(Frame::Close) => (Connection::Closed, Action::Deregister(id)),
                Event::Inbound(Frame::Ping(payload)) => (self, Action::SendPong(payload)),
                Event::Inbound(_) => (self, Action::Idle),
                Event::TransportClosed => if channel_open {
                    (Connection::Open { id, channel_open, transport_open: false }, Action::Idle)
                } else {
                    (Connection::Closed, Action::Deregister(id))
                },
                Event::TransportError => (Connection::Closed, Action::Deregister(id)),
            },
            Connection::Closed => (self, Action::Idle),
        }
    }

    /// The state reached from `self` after `events`, in their order.
    pub open spec fn after(self, events: Seq<Event>) -> Connection
        decreases events.len(),
    {
        if events.len() == 0 {
            self
        } else {
            self.after(events.drop_last()).reaction(events.last()).0
        }
    }

    /// The actions returned for `events`, one for each, when they arrive in
    /// their order at a connection in state `self`.
    pub open spec fn actions(self, events: Seq<Event>) -> Seq<Action>
        decreases events.len(),
    {
        if events.len() == 0 {
            Seq::empty()
        } else {
            self.actions(events.drop_last()).push(
                self.after(events.drop_last()).reaction(events.last()).1,
            )
        }
    }

    /// A connection whose handshake has not completed.
    pub fn connecting() -> (connection: Connection)
        ensures
            connection == Connection::Connecting,
    {
        Connection::Connecting
    }

    /// Completes the handshake: registers the connection and opens it under the
    /// identifier it got. The receiving half of its channel is returned with
    /// it. Called in any state but `Connecting`, it does nothing.
    pub fn establish(self, registry: &mut Registry) -> (opened: (Connection, Option<Receiver<String>>))
        ensures
            self is Connecting ==> {
                &&& opened.0 == (Connection::Open {
                    id: old(registry).next_id(),
                    channel_open: true,
                    transport_open: true,
                })
                &&& opened.1 matches Some(receiver) && receiver_capacity(receiver) == 1
                &&& final(registry).next_id() == successor(old(registry).next_id())
                &&& final(registry)@.dom() == old(registry)@.dom().insert(old(registry).next_id())
                &&& forall|id: u16|
                    id != old(registry).next_id() && old(registry)@.contains_key(id)
                        ==> final(registry)@[id] == old(registry)@[id]
            },
            single_slot(old(registry)@) ==> single_slot(final(registry)@),
            !(self is Connecting) ==> {
                &&& opened.0 == self
                &&& opened.1 is None
                &&& final(registry)@ == old(registry)@
                &&& final(registry).next_id() == old(registry).next_id()
            },
    {
        match self {
            Connection::Connecting => {
                let (id, receiver) = registry.register();
                (Connection::Open { id, channel_open: true, transport_open: true }, Some(receiver))
            },
            _ => (self, None),
        }
    }

    /// Takes one event: returns the state that follows and the action to carry
    /// out before the next event is awaited.
    pub fn step(self, event: Event) -> (outcome: (Connection, Action))
        ensures
            outcome == self.reaction(event),
    {
        match self {
            Connection::Connecting => match event {
                Event::Inbound(Frame::Close)
                | Event::TransportClosed
                | Event::TransportError => (Connection::Closed, Action::Idle),
                _ => (self, Action::Idle),
            },
            Connection::Open { id, channel_open, transport_open } => match event {
                Event::Notification(text) => (self, Action::SendText(text)),
                Event::ChannelClosed => {
                    if transport_open {
                        (Connection::Open { id, channel_open: false, transport_open }, Action::Idle)
                    } else {
                        (Connection::Closed, Action::Deregister(id))
                    }
                },
                Event::Inbound(frame) => match frame {
                    Frame::Close => (Connection::Closed, Action::Deregister(id)),
                    Frame::Ping(payload) => (self, Action::SendPong(payload)),
                    _ => (self, Action::Idle),
                },
                Event::TransportClosed => {
                    if channel_open {
                        (Connection::Open { id, channel_open, transport_open: false }, Action::Idle)
                    } else {
                        (Connection::Closed, Action::Deregister(id))
                    }
                },
                Event::TransportError => (Connection::Closed, Action::Deregister(id)),
            },
            Connection::Closed => (self, Action::Idle),
        }
    }

    /// Whether the connection is over.
    pub fn is_closed(&self) -> (closed: bool)
        ensures
            closed == (*self is Closed),
    {
        match self {
            Connection::Closed => true,
            _ => false,
        }
    }
}

/// Carries out on the registry what `action` asks of it: a `Deregister`
/// removes its identifier, any other action leaves the registry alone.
pub fn settle(registry: &mut Registry, action: &Action)
    ensures
        final(registry).next_id() == old(registry).next_id(),
        final(registry)@ == match *action {
            Action::Deregister(id) => old(registry)@.remove(id),
            _ => old(registry)@,
        },
{
    match action {
        Action::Deregister(id) => registry.deregister(*id),
        _ => {},
    }
}

/// How many of `actions` deregister.
pub open spec fn deregistrations(actions: Seq<Action>) -> nat
    decreases actions.len(),
{
    if actions.len() == 0 {
        0
    } else {
        deregistrations(actions.drop_last()) + if actions.last() is Deregister {
            1nat
        } else {
            0nat
        }
    }
}

/// A transport error is taken as a close frame is, in every state.
pub proof fn lemma_error_is_a_close(state: Connection)
    ensures
        state.reaction(Event::TransportError) == state.reaction(Event::Inbound(Frame::Close)),
{
}

/// `Closed` is terminal: every event leaves the connection closed and asks for
/// nothing.
pub proof fn lemma_closed_is_terminal(events: Seq<Event>)
    ensures
        Connection::Closed.after(events) == Connection::Closed,
        forall|k: int|
            0 <= k < events.len() ==> #[trigger] Connection::Closed.actions(events)[k]
                == Action::Idle,
        Connection::Closed.actions(events).len() == events.len(),
    decreases events.len(),
{
    if events.len() > 0 {
        lemma_closed_is_terminal(events.drop_last());
    }
}

/// An open connection stays registered under the same identifier until it
/// closes, and whatever the events are, it is deregistered exactly once if it
/// has closed and not at all if it has not; a deregistration names the
/// connection's own identifier.
pub proof fn lemma_deregisters_exactly_once(
    id: u16,
    channel_open: bool,
    transport_open: bool,
    events: Seq<Event>,
)
    ensures
        ({
            let start = Connection::Open { id, channel_open, transport_open };
            let end = start.after(events);
            let actions = start.actions(events);
            &&& actions.len() == events.len()
            &&& end is Closed || (end is Open && end->id == id)
            &&& deregistrations(actions) == if end is Closed {
                1nat
            } else {
                0nat
            }
            &&& forall|k: int|
                0 <= k < actions.len() && #[trigger] actions[k] is Deregister ==> actions[k]
                    == Action::Deregister(id)
        }),
    decreases events.len(),
{
    if events.len() > 0 {
        let start = Connection::Open { id, channel_open, transport_open };
        let earlier = events.drop_last();
        lemma_deregisters_exactly_once(id, channel_open, transport_open, earlier);
        let actions = start.actions(events);
        assert(actions.drop_last() =~= start.actions(earlier));
        assert(actions.last() == start.after(earlier).reaction(events.last()).1);
    }
}

/// A connection that never opened is never deregistered.
pub proof fn lemma_unopened_never_deregisters(events: Seq<Event>)
    ensures
        ({
            let end = Connection::Connecting.after(events);
            let actions = Connection::Connecting.actions(events);
            &&& actions.len() == events.len()
            &&& end is Connecting || end is Closed
            &&& deregistrations(actions) == 0
        }),
    decreases events.len(),
{
    if events.len() > 0 {
        let earlier = events.drop_last();
        lemma_unopened_never_deregisters(earlier);
        let actions = Connection::Connecting.actions(events);
        assert(actions.drop_last() =~= Connection::Connecting.actions(earlier));
        assert(actions.last() == Connection::Connecting.after(earlier).reaction(events.last()).1);
    }
}

} // verus!
