//! Engine behaviour driven event by event, with plain integers as delivery
//! handles and addresses.

use coap_dispatch::engine::{Action, Ctl, Engine, Event};

/// A minimal protocol datagram carrying the given token bytes.
fn packet_with_token(token: Vec<u8>) -> Vec<u8> {
    let mut p = coap_lite::Packet::new();
    p.set_token(token);
    p.to_bytes().unwrap()
}

#[test]
fn registered_token_routes_to_its_handle() {
    let mut engine: Engine<u64> = Engine::new();
    engine.step::<u16>(Event::Ctl(Ctl::Register(0xAAAA, 1)));
    engine.step::<u16>(Event::Ctl(Ctl::Register(0xBBBB, 2)));
    let data = packet_with_token(vec![0xAA, 0xAA]);
    match engine.step::<u16>(Event::Datagram(data.clone(), 9)) {
        Action::Deliver(token, payload, src) => {
            assert_eq!(token, 0xAAAA);
            assert_eq!(payload, data);
            assert_eq!(src, 9);
            assert_eq!(engine.lookup(token), Some(&1));
        }
        _ => panic!("expected a delivery for the registered token"),
    }
}

#[test]
fn register_overwrites_prior_registration() {
    let mut engine: Engine<u64> = Engine::new();
    engine.step::<u16>(Event::Ctl(Ctl::Register(5, 1)));
    engine.step::<u16>(Event::Ctl(Ctl::Register(5, 2)));
    assert_eq!(engine.lookup(5), Some(&2));
}

#[test]
fn deregistered_token_yields_no_delivery_and_no_error() {
    let mut engine: Engine<u64> = Engine::new();
    engine.step::<u16>(Event::Ctl(Ctl::Register(0xBEEF, 7)));
    engine.step::<u16>(Event::Ctl(Ctl::Deregister(0xBEEF)));
    let data = packet_with_token(vec![0xEF, 0xBE]);
    match engine.step::<u16>(Event::Datagram(data, 3)) {
        Action::DropDatagram => {}
        _ => panic!("a datagram for a deregistered token must be dropped"),
    }
    assert!(engine.running());
    assert_eq!(engine.lookup(0xBEEF), None);
}

#[test]
fn deregistering_an_absent_token_is_a_silent_noop() {
    let mut engine: Engine<u64> = Engine::new();
    match engine.step::<u16>(Event::Ctl(Ctl::Deregister(42))) {
        Action::Continue => {}
        _ => panic!("deregistering an absent token must be a no-op"),
    }
    assert!(engine.running());
}

#[test]
fn sends_reach_the_transmit_call_in_issue_order() {
    let mut engine: Engine<u64> = Engine::new();
    let first = engine.step::<u16>(Event::Ctl(Ctl::Send(vec![0x0A], 1)));
    let second = engine.step::<u16>(Event::Ctl(Ctl::Send(vec![0x0B], 2)));
    match first {
        Action::Transmit(d, a) => {
            assert_eq!(d, vec![0x0A]);
            assert_eq!(a, 1);
        }
        _ => panic!("the first send must be transmitted first"),
    }
    match second {
        Action::Transmit(d, a) => {
            assert_eq!(d, vec![0x0B]);
            assert_eq!(a, 2);
        }
        _ => panic!("the second send must be transmitted second"),
    }
}

#[test]
fn exit_discards_every_registration_and_later_sends_fail() {
    let mut engine: Engine<u64> = Engine::new();
    engine.step::<u16>(Event::Ctl(Ctl::Register(1, 10)));
    engine.step::<u16>(Event::Ctl(Ctl::Register(2, 20)));
    match engine.step::<u16>(Event::Ctl(Ctl::Exit)) {
        Action::Stop => {}
        _ => panic!("exit must stop the engine"),
    }
    assert!(!engine.running());
    assert_eq!(engine.lookup(1), None);
    assert_eq!(engine.lookup(2), None);
    match engine.step::<u16>(Event::Ctl(Ctl::Send(vec![1], 1))) {
        Action::ChannelClosed => {}
        _ => panic!("a send after exit must fail as a closed channel"),
    }
}

#[test]
fn transmit_failure_is_fatal_to_the_whole_engine() {
    let mut engine: Engine<u64> = Engine::new();
    engine.step::<u16>(Event::Ctl(Ctl::Register(1, 10)));
    match engine.step::<u16>(Event::Ctl(Ctl::Send(vec![1], 1))) {
        Action::Transmit(_, _) => {}
        _ => panic!("a send while running must be transmitted"),
    }
    match engine.step::<u16>(Event::SendFailed) {
        Action::Stop => {}
        _ => panic!("a transmit failure must stop the engine"),
    }
    assert!(!engine.running());
    assert_eq!(engine.lookup(1), None);
    match engine.step::<u16>(Event::Ctl(Ctl::Send(vec![2], 2))) {
        Action::ChannelClosed => {}
        _ => panic!("a send after a fatal failure must fail as a closed channel"),
    }
}

#[test]
fn receive_failure_is_fatal_to_the_whole_engine() {
    let mut engine: Engine<u64> = Engine::new();
    engine.step::<u16>(Event::Ctl(Ctl::Register(1, 10)));
    match engine.step::<u16>(Event::RecvFailed) {
        Action::Stop => {}
        _ => panic!("a receive failure must stop the engine"),
    }
    assert!(!engine.running());
    assert_eq!(engine.lookup(1), None);
}

#[test]
fn unparsable_datagram_is_dropped_not_fatal() {
    let mut engine: Engine<u64> = Engine::new();
    match engine.step::<u16>(Event::Datagram(vec![0x40], 1)) {
        Action::DropDatagram => {}
        _ => panic!("bytes that do not parse must be dropped"),
    }
    assert!(engine.running());
}

#[test]
fn termination_is_absorbing_for_every_event() {
    let mut engine: Engine<u64> = Engine::new();
    engine.step::<u16>(Event::Ctl(Ctl::Exit));
    let data = packet_with_token(vec![0x01]);
    match engine.step::<u16>(Event::Datagram(data, 1)) {
        Action::ChannelClosed => {}
        _ => panic!("a terminated engine must answer every event as closed"),
    }
    match engine.step::<u16>(Event::Ctl(Ctl::Register(1, 1))) {
        Action::ChannelClosed => {}
        _ => panic!("a terminated engine must not register anything"),
    }
    assert_eq!(engine.lookup(1), None);
}
