//! Establishing connections by address: dialing out, listening, and
//! connections that arrive without being asked for.
use vstd::prelude::*;
use multiaddr::Multiaddr;
use crate::poll::{ListenerStream, PollFuture};

verus! {

/// A structured network address, compared and copied as a whole.
#[verifier::external_type_specification]
#[verifier::external_body]
pub struct ExMultiaddr(Multiaddr);

/// Relies on `Multiaddr`'s derived `Clone`: the copy holds the same bytes,
/// so it is the same address.
#[verifier::external_body]
pub(crate) fn clone_addr(a: &Multiaddr) -> (r: Multiaddr)
    ensures
        r == *a,
{
    a.clone()
}

/// Something that establishes connections given an address.
///
/// Both `dial` and `listen_on` consume the transport. When it does not support
/// the address, it hands itself and the address back unchanged, so that the
/// caller can try another address or another transport.
///
/// `accepts_dial` and `accepts_listen` are the implementation's model of the
/// addresses it supports, `dial_step` and `listen_step` of what an accepted
/// call returns, and `nat_step` of `nat_traversal`.
pub trait Transport: Sized {
    /// The established connection.
    type Output;
    /// The sequence of incoming connections, each with the remote address.
    type Listener: ListenerStream<Upgrade = Self::ListenerUpgrade>;
    /// Resolves to one incoming connection.
    type ListenerUpgrade: PollFuture<Item = Self::Output>;
    /// Resolves to one outgoing connection.
    type Dial: PollFuture<Item = Self::Output>;

    spec fn accepts_listen(self, addr: Multiaddr) -> bool;

    spec fn accepts_dial(self, addr: Multiaddr) -> bool;

    spec fn listen_step(self, addr: Multiaddr, listener: Self::Listener, bound: Multiaddr) -> bool;

    spec fn dial_step(self, addr: Multiaddr, dial: Self::Dial) -> bool;

    spec fn nat_step(self, server: Multiaddr, observed: Multiaddr, r: Option<Multiaddr>) -> bool;

    /// Listens on `addr`; on success, the incoming connections and the
    /// address actually bound.
    fn listen_on(self, addr: Multiaddr) -> (r: Result<(Self::Listener, Multiaddr), (Self, Multiaddr)>)
        ensures
            r is Ok <==> Self::accepts_listen(self, addr),
            match r {
                Ok((listener, bound)) => Self::listen_step(self, addr, listener, bound),
                Err(back) => back == (self, addr),
            },
    ;

    /// Dials `addr`; on success, a future of the connection.
    fn dial(self, addr: Multiaddr) -> (r: Result<Self::Dial, (Self, Multiaddr)>)
        ensures
            r is Ok <==> Self::accepts_dial(self, addr),
            match r {
                Ok(dial) => Self::dial_step(self, addr, dial),
                Err(back) => back == (self, addr),
            },
    ;

    /// The address a peer could dial back, given the address this side
    /// listens on and the one the peer observed; `None` where there is none.
    fn nat_traversal(&self, server: &Multiaddr, observed: &Multiaddr) -> (r: Option<Multiaddr>)
        ensures
            Self::nat_step(*self, *server, *observed, r),
    ;
}

/// A transport that also surfaces connections it did not solicit, such as
/// new logical peers over one physical listener.
///
/// `incoming_step` is the implementation's model of the future returned.
pub trait MuxedTransport: Transport {
    /// Resolves to the next incoming connection and its remote address.
    type Incoming: PollFuture<Item = (Self::IncomingUpgrade, Multiaddr)>;
    /// Resolves to one incoming connection.
    type IncomingUpgrade: PollFuture<Item = Self::Output>;

    spec fn incoming_step(self, incoming: Self::Incoming) -> bool;

    fn next_incoming(self) -> (r: Self::Incoming)
        ensures
            Self::incoming_step(self, r),
    ;
}

} // verus!
