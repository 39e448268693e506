//! The dispatch engine: the decision core of the single task that owns the
//! socket and the dispatch table.
//!
//! The engine is driven by events — a control command arriving on the control
//! channel, a datagram read from the socket, or an I/O failure — and answers
//! each with an action for the surrounding loop to perform: transmit a
//! datagram, deliver a payload to a registered handle, drop it, or stop. The
//! whole decision is the pure function `spec_step`; the executable `step`
//! provably computes it.
//!
//! The engine is generic over the delivery-handle type `V` (the sink end of a
//! per-exchange channel) and the peer-address type `A`: it moves both around
//! but never looks inside either.

use crate::codec::token_of;
use crate::table::DispatchTable;
use vstd::prelude::*;

verus! {

/// A control command: the only way callers influence the engine.
pub enum Ctl<V, A> {
    /// Register a delivery handle for a token, overwriting any prior
    /// registration of that token.
    Register(u32, V),
    /// Deregister a token; an absent token is a silent no-op.
    Deregister(u32),
    /// Transmit one datagram to a peer address.
    Send(Vec<u8>, A),
    /// Terminate the engine; every still-registered handle observes closure.
    Exit,
}

/// One event the engine's loop can wake up on.
pub enum Event<V, A> {
    /// A command arrived on the control channel.
    Ctl(Ctl<V, A>),
    /// The control channel yielded nothing (every sender is gone).
    CtlClosed,
    /// A datagram was read from the socket: payload bytes and source address.
    Datagram(Vec<u8>, A),
    /// The socket receive failed: fatal to the whole engine.
    RecvFailed,
    /// A transmit the engine ordered failed: fatal to the whole engine.
    SendFailed,
}

/// What the surrounding loop must do after a step.
pub enum Action<A> {
    /// Nothing: wait for the next event.
    Continue,
    /// Send these bytes to this peer; report a failure back as `SendFailed`.
    Transmit(Vec<u8>, A),
    /// Forward payload and source address to the handle registered for this
    /// token (`Engine::lookup` hands it out).
    Deliver(u32, Vec<u8>, A),
    /// Drop the datagram: its token is unregistered or its bytes do not
    /// parse. Not an error; unmatched traffic is expected.
    DropDatagram,
    /// Terminate the loop; the dispatch table has been discarded.
    Stop,
    /// The engine was already terminated: the command has no effect, which a
    /// caller observes as a closed control channel.
    ChannelClosed,
}

/// The whole decision logic of the engine, as a function from state and event
/// to next state and action. The state is the dispatch table plus whether the
/// engine is still running; termination is absorbing.
pub open spec fn spec_step<V, A>(table: Map<u32, V>, running: bool, event: Event<V, A>) -> (
    Map<u32, V>,
    bool,
    Action<A>,
) {
    if !running {
        (table, false, Action::ChannelClosed)
    } else {
        match event {
            Event::Ctl(Ctl::Register(t, h)) => (table.insert(t, h), true, Action::Continue),
            Event::Ctl(Ctl::Deregister(t)) => (table.remove(t), true, Action::Continue),
            Event::Ctl(Ctl::Send(d, a)) => (table, true, Action::Transmit(d, a)),
            Event::Ctl(Ctl::Exit) => (Map::empty(), false, Action::Stop),
            Event::CtlClosed => (table, true, Action::Continue),
            Event::Datagram(d, a) => match token_of(d@) {
                Some(t) => if table.contains_key(t) {
                    (table, true, Action::Deliver(t, d, a))
                } else {
                    (table, true, Action::DropDatagram)
                },
                None => (table, true, Action::DropDatagram),
            },
            Event::RecvFailed => (Map::empty(), false, Action::Stop),
            Event::SendFailed => (Map::empty(), false, Action::Stop),
        }
    }
}

/// An event that terminates a running engine: `Exit`, or a fatal I/O
/// failure.
pub open spec fn is_terminal<V, A>(e: Event<V, A>) -> bool {
    ||| e matches Event::Ctl(Ctl::Exit)
    ||| e is RecvFailed
    ||| e is SendFailed
}

/// A run of the engine: the state reached and the actions taken, in order,
/// after processing a sequence of events one `spec_step` at a time.
pub open spec fn spec_run<V, A>(table: Map<u32, V>, running: bool, events: Seq<Event<V, A>>) -> (
    Map<u32, V>,
    bool,
    Seq<Action<A>>,
)
    decreases events.len(),
{
    if events.len() == 0 {
        (table, running, Seq::empty())
    } else {
        let (m1, r1, a1) = spec_step(table, running, events.first());
        let (m2, r2, rest) = spec_run(m1, r1, events.drop_first());
        (m2, r2, seq![a1] + rest)
    }
}

/// The datagrams a sequence of actions puts on the wire, in order: the
/// payload and destination of each `Transmit`.
pub open spec fn transmits_of<A>(acts: Seq<Action<A>>) -> Seq<(Vec<u8>, A)>
    decreases acts.len(),
{
    if acts.len() == 0 {
        Seq::empty()
    } else {
        match acts.first() {
            Action::Transmit(d, a) => seq![(d, a)] + transmits_of(acts.drop_first()),
            _ => transmits_of(acts.drop_first()),
        }
    }
}

/// The dispatch engine's state: the table of registered tokens and whether
/// the engine is still running.
pub struct Engine<V> {
    handles: DispatchTable<V>,
    running: bool,
}

impl<V> Engine<V> {
    /// The dispatch table: token to registered delivery handle.
    pub closed spec fn table(&self) -> Map<u32, V> {
        self.handles@
    }

    /// Whether the engine is still running; false once `Exit` or a fatal I/O
    /// failure was processed, and never true again.
    pub closed spec fn is_running(&self) -> bool {
        self.running
    }

    /// A fresh engine: running, with no token registered.
    pub fn new() -> (e: Self)
        ensures
            e.table() == Map::<u32, V>::empty(),
            e.is_running(),
    {
        Engine { handles: DispatchTable::new(), running: true }
    }

    /// Processes one event: the state changes and the action returned are
    /// exactly those of `spec_step`.
    pub fn step<A>(&mut self, event: Event<V, A>) -> (act: Action<A>)
        ensures
            (final(self).table(), final(self).is_running(), act) == spec_step(
                old(self).table(),
                old(self).is_running(),
                event,
            ),
    {
        if !self.running {
            return Action::ChannelClosed;
        }
        match event {
            Event::Ctl(Ctl::Register(t, h)) => {
                self.handles.insert(t, h);
                Action::Continue
            },
            Event::Ctl(Ctl::Deregister(t)) => {
                self.handles.remove(t);
                Action::Continue
            },
            Event::Ctl(Ctl::Send(d, a)) => Action::Transmit(d, a),
            Event::Ctl(Ctl::Exit) => {
                self.handles.clear();
                self.running = false;
                Action::Stop
            },
            Event::CtlClosed => Action::Continue,
            Event::Datagram(d, a) => {
                match crate::codec::decode_token(&d) {
                    Some(t) => {
                        if self.handles.contains(t) {
                            Action::Deliver(t, d, a)
                        } else {
                            Action::DropDatagram
                        }
                    },
                    None => Action::DropDatagram,
                }
            },
            Event::RecvFailed => {
                self.handles.clear();
                self.running = false;
                Action::Stop
            },
            Event::SendFailed => {
                self.handles.clear();
                self.running = false;
                Action::Stop
            },
        }
    }

    /// The handle a delivery goes to: the one registered for `token`, and
    /// `Some` exactly while `token` is registered.
    pub fn lookup(&self, token: u32) -> (r: Option<&V>)
        ensures
            match r {
                Some(h) => self.table().contains_key(token) && *h == self.table()[token],
                None => !self.table().contains_key(token),
            },
    {
        self.handles.get(token)
    }

    /// Whether the engine is still running.
    pub fn running(&self) -> (b: bool)
        ensures
            b == self.is_running(),
    {
        self.running
    }
}

} // verus!
