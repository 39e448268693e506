//! The routing and lifecycle guarantees of the dispatch engine, stated and
//! proved over `spec_step`, the engine's decision function.

use crate::codec::token_of;
use crate::engine::{is_terminal, spec_run, spec_step, transmits_of, Action, Ctl, Event};
use vstd::prelude::*;

verus! {

/// A step on any event that is not `Exit` or a fatal I/O failure leaves a
/// running engine running.
proof fn lemma_nonterminal_keeps_running<V, A>(table: Map<u32, V>, e: Event<V, A>)
    requires
        !is_terminal(e),
    ensures
        spec_step(table, true, e).1,
{
}

/// A `Send` at position `j` of the events, with no terminating event at or
/// before it, puts its datagram on the wire.
proof fn lemma_send_reaches_wire<V, A>(
    table: Map<u32, V>,
    events: Seq<Event<V, A>>,
    j: int,
    d: Vec<u8>,
    a: A,
)
    requires
        0 <= j < events.len(),
        events[j] == Event::<V, A>::Ctl(Ctl::Send(d, a)),
        forall|k: int| 0 <= k <= j ==> !is_terminal(#[trigger] events[k]),
    ensures
        ({
            let wire = transmits_of(spec_run(table, true, events).2);
            exists|q: int| 0 <= q < wire.len() && wire[q] == (d, a)
        }),
    decreases j,
{
    let e0 = events.first();
    assert(e0 == events[0]);
    let (m1, r1, act1) = spec_step(table, true, e0);
    assert(r1) by {
        lemma_nonterminal_keeps_running(table, e0);
    }
    let rest_events = events.drop_first();
    let (m2, r2, rest_acts) = spec_run(m1, r1, rest_events);
    let acts = spec_run(table, true, events).2;
    assert(acts == seq![act1] + rest_acts);
    assert(acts.first() == act1);
    assert(acts.drop_first() =~= rest_acts);
    let wire = transmits_of(acts);
    let wire_rest = transmits_of(rest_acts);
    if j == 0 {
        assert(act1 == Action::<A>::Transmit(d, a));
        assert(wire == seq![(d, a)] + wire_rest);
        assert(wire[0] == (d, a));
    } else {
        assert(rest_events[j - 1] == events[j]);
        assert forall|k: int| 0 <= k <= j - 1 implies !is_terminal(#[trigger] rest_events[k]) by {
            assert(rest_events[k] == events[k + 1]);
        }
        lemma_send_reaches_wire(m1, rest_events, j - 1, d, a);
        let q0 = choose|q: int| 0 <= q < wire_rest.len() && wire_rest[q] == (d, a);
        match act1 {
            Action::Transmit(d0, a0) => {
                assert(wire == seq![(d0, a0)] + wire_rest);
                assert(wire[q0 + 1] == (d, a));
            },
            _ => {
                assert(wire == wire_rest);
                assert(wire[q0] == (d, a));
            },
        }
    }
}

/// A token is routable only inside its registration window: starting from a
/// table that does not hold `t`, a run whose events never register `t`
/// delivers nothing for `t` — datagrams bearing it are dropped, not buffered.
pub proof fn lemma_unregistered_token_never_delivered<V, A>(
    table: Map<u32, V>,
    running: bool,
    events: Seq<Event<V, A>>,
    t: u32,
)
    requires
        !table.contains_key(t),
        forall|k: int|
            0 <= k < events.len() ==> !(#[trigger] events[k] matches Event::Ctl(
                Ctl::Register(t2, h),
            ) && t2 == t),
    ensures
        ({
            let acts = spec_run(table, running, events).2;
            forall|k: int|
                0 <= k < acts.len() ==> !(#[trigger] acts[k] matches Action::Deliver(t2, p, s)
                    && t2 == t)
        }),
    decreases events.len(),
{
    if events.len() > 0 {
        let e0 = events.first();
        assert(e0 == events[0]);
        let (m1, r1, a1) = spec_step(table, running, e0);
        assert(!m1.contains_key(t));
        let rest_events = events.drop_first();
        assert forall|k: int|
            0 <= k < rest_events.len() implies !(#[trigger] rest_events[k] matches Event::Ctl(
            Ctl::Register(t2, h),
        ) && t2 == t) by {
            assert(rest_events[k] == events[k + 1]);
        }
        lemma_unregistered_token_never_delivered(m1, r1, rest_events, t);
        let acts = spec_run(table, running, events).2;
        let rest_acts = spec_run(m1, r1, rest_events).2;
        assert(acts == seq![a1] + rest_acts);
        assert(!(a1 matches Action::Deliver(t2, p, s) && t2 == t));
        assert forall|k: int|
            0 <= k < acts.len() implies !(#[trigger] acts[k] matches Action::Deliver(t2, p, s)
            && t2 == t) by {
            if k == 0 {
                assert(acts[0] == a1);
            } else {
                assert(acts[k] == rest_acts[k - 1]);
            }
        }
    }
}

/// Per-caller send ordering: two `Send` commands standing in order in the
/// engine's event sequence — the order the control channel delivers one
/// caller's commands in — reach the wire in that same order, as long as no
/// terminating event comes between the start of the run and the second
/// `Send`.
pub proof fn lemma_send_order_preserved<V, A>(
    table: Map<u32, V>,
    events: Seq<Event<V, A>>,
    i: int,
    j: int,
    d1: Vec<u8>,
    a1: A,
    d2: Vec<u8>,
    a2: A,
)
    requires
        0 <= i < j < events.len(),
        events[i] == Event::<V, A>::Ctl(Ctl::Send(d1, a1)),
        events[j] == Event::<V, A>::Ctl(Ctl::Send(d2, a2)),
        forall|k: int| 0 <= k <= j ==> !is_terminal(#[trigger] events[k]),
    ensures
        ({
            let wire = transmits_of(spec_run(table, true, events).2);
            exists|p: int, q: int|
                0 <= p < q < wire.len() && wire[p] == (d1, a1) && wire[q] == (d2, a2)
        }),
    decreases i,
{
    let e0 = events.first();
    assert(e0 == events[0]);
    let (m1, r1, act1) = spec_step(table, true, e0);
    assert(r1) by {
        lemma_nonterminal_keeps_running(table, e0);
    }
    let rest_events = events.drop_first();
    let (m2, r2, rest_acts) = spec_run(m1, r1, rest_events);
    let acts = spec_run(table, true, events).2;
    assert(acts == seq![act1] + rest_acts);
    assert(acts.first() == act1);
    assert(acts.drop_first() =~= rest_acts);
    let wire = transmits_of(acts);
    let wire_rest = transmits_of(rest_acts);
    assert(rest_events[j - 1] == events[j]);
    assert forall|k: int| 0 <= k <= j - 1 implies !is_terminal(#[trigger] rest_events[k]) by {
        assert(rest_events[k] == events[k + 1]);
    }
    if i == 0 {
        assert(act1 == Action::<A>::Transmit(d1, a1));
        lemma_send_reaches_wire(m1, rest_events, j - 1, d2, a2);
        let q0 = choose|q: int| 0 <= q < wire_rest.len() && wire_rest[q] == (d2, a2);
        assert(wire == seq![(d1, a1)] + wire_rest);
        assert(wire[0] == (d1, a1));
        assert(wire[q0 + 1] == (d2, a2));
    } else {
        assert(rest_events[i - 1] == events[i]);
        lemma_send_order_preserved(m1, rest_events, i - 1, j - 1, d1, a1, d2, a2);
        let (p0, q0) = choose|p: int, q: int|
            0 <= p < q < wire_rest.len() && wire_rest[p] == (d1, a1) && wire_rest[q] == (d2, a2);
        match act1 {
            Action::Transmit(d0, a0) => {
                assert(wire == seq![(d0, a0)] + wire_rest);
                assert(wire[p0 + 1] == (d1, a1));
                assert(wire[q0 + 1] == (d2, a2));
            },
            _ => {
                assert(wire == wire_rest);
            },
        }
    }
}

/// Routing isolation: while two distinct tokens `t1 != t2` are registered, a
/// datagram whose decoded token is `t1` is delivered for `t1` and for no
/// other token — the handle the delivery goes to is the table's entry for
/// `t1`, never the entry for `t2` — and the table and the engine's life are
/// untouched.
pub proof fn lemma_delivery_isolation<V, A>(table: Map<u32, V>, t1: u32, t2: u32, d: Vec<u8>, a: A)
    requires
        table.contains_key(t1),
        table.contains_key(t2),
        t1 != t2,
        token_of(d@) == Some(t1),
    ensures
        spec_step(table, true, Event::<V, A>::Datagram(d, a)) == (
            table,
            true,
            Action::<A>::Deliver(t1, d, a),
        ),
        forall|t: u32, p: Vec<u8>, s: A|
            spec_step(table, true, Event::<V, A>::Datagram(d, a)).2 == Action::<A>::Deliver(
                t,
                p,
                s,
            ) ==> t == t1 && t != t2,
{
}

/// A deregistered token is dead: `Register(t)` then `Deregister(t)` then an
/// inbound datagram for `t` yields no delivery — the datagram is dropped —
/// and no error: the engine keeps running and the table keeps exactly the
/// state the deregistration left.
pub proof fn lemma_deregistered_token_dropped<V, A>(
    table: Map<u32, V>,
    t: u32,
    h: V,
    d: Vec<u8>,
    a: A,
)
    requires
        token_of(d@) == Some(t),
    ensures
        ({
            let (m1, r1, a1) = spec_step(table, true, Event::<V, A>::Ctl(Ctl::Register(t, h)));
            let (m2, r2, a2) = spec_step(m1, r1, Event::<V, A>::Ctl(Ctl::Deregister(t)));
            let (m3, r3, a3) = spec_step(m2, r2, Event::<V, A>::Datagram(d, a));
            &&& a3 == Action::<A>::DropDatagram
            &&& m3 == m2
            &&& r3
        }),
{
}

/// Exit is final: processing `Exit` discards every registration — each
/// handle is dropped, so every still-registered caller observes closure —
/// and terminates the engine; any event after that, a `Send` in particular,
/// changes nothing and is answered as a closed channel.
pub proof fn lemma_exit_closes_all<V, A>(table: Map<u32, V>, e: Event<V, A>)
    ensures
        ({
            let (m1, r1, a1) = spec_step(table, true, Event::<V, A>::Ctl(Ctl::Exit));
            &&& m1 == Map::<u32, V>::empty()
            &&& !r1
            &&& a1 == Action::<A>::Stop
            &&& spec_step(m1, r1, e) == (m1, false, Action::<A>::ChannelClosed)
        }),
{
}

/// Fatal I/O is symmetric to Exit: a transmit or receive failure discards
/// every registration and terminates the engine, and any later event is
/// answered as a closed channel.
pub proof fn lemma_fatal_io_closes_all<V, A>(table: Map<u32, V>, fatal: Event<V, A>, e: Event<V, A>)
    requires
        fatal is RecvFailed || fatal is SendFailed,
    ensures
        ({
            let (m1, r1, a1) = spec_step(table, true, fatal);
            &&& m1 == Map::<u32, V>::empty()
            &&& !r1
            &&& a1 == Action::<A>::Stop
            &&& spec_step(m1, r1, e) == (m1, false, Action::<A>::ChannelClosed)
        }),
{
}

} // verus!
