//! Transport core of a CoAP-style datagram client: a dispatch engine that
//! multiplexes many concurrent exchanges over one bound socket, routing each
//! inbound datagram to the caller that registered its correlation token.
//!
//! The engine itself is a verified state machine (`engine::Engine`): it owns
//! the dispatch table and decides, for every control command and every socket
//! event, how the table changes and which action the surrounding I/O loop must
//! perform. The loop that binds the socket and awaits events is ordinary
//! asynchronous code outside this crate; everything it decides is in here.

use vstd::prelude::*;

pub mod codec;
pub mod engine;
pub mod laws;
pub mod observe;
pub mod table;

verus! {

/// Fixed maximum datagram size: bounds the receive buffer; larger payloads
/// are truncated by the datagram layer, never reassembled here.
pub const COAP_MTU: usize = 1600;

} // verus!
