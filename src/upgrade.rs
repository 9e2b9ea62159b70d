//! The role of an endpoint and the asynchronous upgrade step applied to a
//! freshly established connection.
use vstd::prelude::*;
use multiaddr::Multiaddr;
use crate::poll::PollFuture;

verus! {

/// Which side of a connection this process is on.
#[derive(Clone, Copy, Debug, PartialEq, Eq, Structural)]
pub enum Endpoint {
    /// This side asked for the connection.
    Dialer,
    /// This side accepted the connection.
    Listener,
}

/// An immutable, duplicable description of how to turn a connection of type
/// `I` into a higher-level one (a secured channel, a multiplexed session...).
///
/// `upgrade_step(self, conn, role, addr, fut)` is the implementation's model
/// of which negotiation `fut` starts for the given connection, role and
/// remote address. A negotiation failure is reported by `fut` when polled.
pub trait Upgrade<I>: Sized {
    type Output;
    type Future: PollFuture<Item = Self::Output>;

    spec fn upgrade_step(self, conn: I, role: Endpoint, addr: Multiaddr, fut: Self::Future) -> bool;

    fn upgrade(&self, conn: I, role: Endpoint, addr: &Multiaddr) -> (fut: Self::Future)
        ensures
            Self::upgrade_step(*self, conn, role, *addr, fut),
    ;

    /// A copy that describes the same upgrade, for a connection whose
    /// lifetime overlaps with others.
    fn duplicate(&self) -> (r: Self)
        ensures
            r == *self,
    ;
}

} // verus!
