//! Subscriptions: the per-token, long-lived side of the transport.
//!
//! A subscription yields repeated deliveries for one token until it is
//! cancelled; the lazy stream of items itself is asynchronous and lives with
//! the runtime wrapper around this crate. What is verified here is the part
//! the contracts speak of: which token and which resource a subscription is
//! bound to, immutably for its lifetime.

use vstd::prelude::*;

verus! {

/// What any subscription handle must expose, generic over the failure kind
/// `E` of the item stream that its runtime wrapper produces.
pub trait Observer<E> {
    /// The token the subscription is bound to.
    spec fn spec_token(&self) -> u32;

    /// The resource identifier the subscription was opened for.
    spec fn spec_resource(&self) -> Seq<char>;

    /// Fetch the observer token.
    fn token(&self) -> (t: u32)
        ensures
            t == self.spec_token(),
    ;

    /// Fetch the observer resource.
    fn resource(&self) -> (r: &str)
        ensures
            r@ == self.spec_resource(),
    ;
}

/// One subscription's identity: the token its deliveries are routed by and
/// the resource it was opened for. Both are fixed at construction.
pub struct Subscription {
    token: u32,
    resource: String,
}

impl Subscription {
    /// The token the subscription is bound to.
    pub closed spec fn token_spec(&self) -> u32 {
        self.token
    }

    /// The resource identifier the subscription was opened for.
    pub closed spec fn resource_spec(&self) -> Seq<char> {
        self.resource@
    }

    /// Binds a subscription to a token and a resource.
    pub fn new(token: u32, resource: String) -> (s: Self)
        ensures
            s.token_spec() == token,
            s.resource_spec() == resource@,
    {
        Subscription { token, resource }
    }
}

impl<E> Observer<E> for Subscription {
    open spec fn spec_token(&self) -> u32 {
        self.token_spec()
    }

    open spec fn spec_resource(&self) -> Seq<char> {
        self.resource_spec()
    }

    fn token(&self) -> (t: u32) {
        self.token
    }

    fn resource(&self) -> (r: &str) {
        self.resource.as_str()
    }
}

} // verus!
