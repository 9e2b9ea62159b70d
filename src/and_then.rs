//! Chaining a transport with an asynchronous upgrade of each connection it
//! establishes, passing on the role of this side and the remote address.
use vstd::prelude::*;
use multiaddr::Multiaddr;
use crate::poll::{Async, ListenerStream, Poll, PollFuture};
use crate::transport::{clone_addr, MuxedTransport, Transport};
use crate::upgrade::{Endpoint, Upgrade};

verus! {

/// A transport whose connections are each upgraded by `upgrade`.
#[derive(Debug, Clone)]
pub struct AndThen<T, C> {
    pub transport: T,
    pub upgrade: C,
}

/// Builds the pipeline stage that upgrades every connection of `transport`.
pub fn and_then<T, C>(transport: T, upgrade: C) -> (r: AndThen<T, C>)
    ensures
        r.transport == transport,
        r.upgrade == upgrade,
{
    AndThen { transport, upgrade }
}

/// A connection being established, then upgraded.
pub enum AndThenFuture<F: PollFuture, C: Upgrade<F::Item>> {
    /// Waiting for the base connection; the upgrade will be started with this
    /// role and remote address.
    Connecting { inner: F, upgrade: C, role: Endpoint, addr: Multiaddr },
    /// The upgrade negotiation in progress.
    Upgrading { fut: C::Future },
}

/// Whether a poll outcome carries a value.
pub open spec fn is_ready<X>(r: Poll<X>) -> bool {
    r is Ok && r->Ok_0 is Ready
}

/// The same outcome without a value, at another item type: not ready, or
/// the same failure.
pub open spec fn pending_as<X, Y>(r: Poll<X>) -> Poll<Y> {
    match r {
        Err(e) => Err(e),
        _ => Ok(Async::NotReady),
    }
}

impl<F: PollFuture, C: Upgrade<F::Item>> AndThenFuture<F, C> {
    /// The future that waits for `inner` and then upgrades its connection.
    pub open spec fn connecting(inner: F, upgrade: C, role: Endpoint, addr: Multiaddr) -> Self {
        AndThenFuture::Connecting { inner, upgrade, role, addr }
    }
}

/// One poll of an `AndThenFuture`. While connecting, one poll of the base
/// future: without a connection its outcome is passed on; with one, the
/// upgrade is started with the stored role and address and polled once.
/// While upgrading, one poll of the negotiation.
pub open spec fn upgrade_poll_step<F: PollFuture, C: Upgrade<F::Item>>(
    s: AndThenFuture<F, C>,
    next: AndThenFuture<F, C>,
    r: Poll<C::Output>,
) -> bool {
    match s {
        AndThenFuture::Connecting { inner: i0, upgrade, role, addr } => match next {
            AndThenFuture::Connecting { inner: i1, upgrade: c1, role: role1, addr: addr1 } =>
                c1 == upgrade && role1 == role && addr1 == addr
                && !is_ready(r) && F::poll_step(i0, i1, pending_as::<C::Output, F::Item>(r)),
            AndThenFuture::Upgrading { fut: u1 } =>
                exists|i1: F, conn: F::Item, u0: C::Future|
                    #[trigger] F::poll_step(i0, i1, Ok(Async::Ready(conn)))
                    && #[trigger] C::upgrade_step(upgrade, conn, role, addr, u0)
                    && C::Future::poll_step(u0, u1, r),
        },
        AndThenFuture::Upgrading { fut: u0 } => match next {
            AndThenFuture::Upgrading { fut: u1 } => C::Future::poll_step(u0, u1, r),
            _ => false,
        },
    }
}

impl<F: PollFuture, C: Upgrade<F::Item>> PollFuture for AndThenFuture<F, C> {
    type Item = C::Output;

    open spec fn poll_step(self, next: Self, r: Poll<C::Output>) -> bool {
        upgrade_poll_step(self, next, r)
    }

    fn poll(&mut self) -> (r: Poll<C::Output>) {
        match *self {
            AndThenFuture::Connecting { ref mut inner, ref upgrade, role, ref addr } => {
                let ghost i0 = *inner;
                let ri = inner.poll();
                let ghost i1 = *inner;
                match ri {
                    Ok(Async::Ready(conn)) => {
                        let ghost c = conn;
                        let mut fut = upgrade.upgrade(conn, role, addr);
                        let ghost u0 = fut;
                        let r = fut.poll();
                        let ghost u1 = fut;
                        assert(F::poll_step(i0, i1, Ok(Async::Ready(c)))
                            && C::upgrade_step(*upgrade, c, role, *addr, u0)
                            && C::Future::poll_step(u0, u1, r));
                        *self = AndThenFuture::Upgrading { fut };
                        r
                    },
                    Ok(Async::NotReady) => Ok(Async::NotReady),
                    Err(e) => Err(e),
                }
            },
            AndThenFuture::Upgrading { ref mut fut } => fut.poll(),
        }
    }
}

/// The item a pipeline listener yields for an item of the base listener:
/// the connection's upgrade, started as `Listener` with the remote address,
/// and that address.
pub open spec fn listener_item<F: PollFuture, C: Upgrade<F::Item>>(
    item: (F, Multiaddr),
    upgrade: C,
) -> (AndThenFuture<F, C>, Multiaddr) {
    (AndThenFuture::connecting(item.0, upgrade, Endpoint::Listener, item.1), item.1)
}

/// What a pipeline listener reports for a poll outcome of the base listener.
pub open spec fn listener_outcome<F: PollFuture, C: Upgrade<F::Item>>(
    ri: Poll<Option<(F, Multiaddr)>>,
    upgrade: C,
) -> Poll<Option<(AndThenFuture<F, C>, Multiaddr)>> {
    match ri {
        Ok(Async::Ready(Some(item))) => Ok(Async::Ready(Some(listener_item(item, upgrade)))),
        Ok(Async::Ready(None)) => Ok(Async::Ready(None)),
        Ok(Async::NotReady) => Ok(Async::NotReady),
        Err(e) => Err(e),
    }
}

/// Wraps an incoming connection of the base transport into its upgrade,
/// started as `Listener` with the remote address.
fn start_incoming<F: PollFuture, C: Upgrade<F::Item>>(
    item: (F, Multiaddr),
    upgrade: &C,
) -> (r: (AndThenFuture<F, C>, Multiaddr))
    ensures
        r == listener_item(item, *upgrade),
{
    let (fut, remote) = item;
    let addr = clone_addr(&remote);
    let up = upgrade.duplicate();
    (AndThenFuture::Connecting { inner: fut, upgrade: up, role: Endpoint::Listener, addr }, remote)
}

/// The incoming connections of a pipeline, each with its upgrade.
pub struct AndThenListener<L, C> {
    pub inner: L,
    pub upgrade: C,
}

impl<L, C> ListenerStream for AndThenListener<L, C> where
    L: ListenerStream,
    L::Upgrade: PollFuture,
    C: Upgrade<<L::Upgrade as PollFuture>::Item>,
 {
    type Upgrade = AndThenFuture<L::Upgrade, C>;

    /// One poll of the base listener, each connection it yields paired with
    /// its upgrade; what the upgrades later do never enters the listener.
    open spec fn poll_step(self, next: Self, r: Poll<Option<(Self::Upgrade, Multiaddr)>>) -> bool {
        next.upgrade == self.upgrade && exists|ri: Poll<Option<(L::Upgrade, Multiaddr)>>|
            L::poll_step(self.inner, next.inner, ri) && r == listener_outcome(ri, self.upgrade)
    }

    fn poll(&mut self) -> (r: Poll<Option<(Self::Upgrade, Multiaddr)>>) {
        let ghost l0 = self.inner;
        let ri = self.inner.poll();
        let ghost rg = ri;
        let r = match ri {
            Ok(Async::Ready(Some(item))) => Ok(Async::Ready(Some(start_incoming(item, &self.upgrade)))),
            Ok(Async::Ready(None)) => Ok(Async::Ready(None)),
            Ok(Async::NotReady) => Ok(Async::NotReady),
            Err(e) => Err(e),
        };
        assert(L::poll_step(l0, self.inner, rg) && r == listener_outcome(rg, self.upgrade));
        r
    }
}

/// The next unsolicited connection of a pipeline, with its upgrade.
pub struct AndThenIncoming<T: MuxedTransport, C> {
    pub inner: T::Incoming,
    pub upgrade: C,
}

/// What the next-incoming future of a pipeline reports for a poll outcome of
/// the base one.
pub open spec fn incoming_outcome<F: PollFuture, C: Upgrade<F::Item>>(
    ri: Poll<(F, Multiaddr)>,
    upgrade: C,
) -> Poll<(AndThenFuture<F, C>, Multiaddr)> {
    match ri {
        Ok(Async::Ready(item)) => Ok(Async::Ready(listener_item(item, upgrade))),
        Ok(Async::NotReady) => Ok(Async::NotReady),
        Err(e) => Err(e),
    }
}

impl<T, C> PollFuture for AndThenIncoming<T, C> where
    T: MuxedTransport,
    C: Upgrade<T::Output>,
 {
    type Item = (AndThenFuture<T::IncomingUpgrade, C>, Multiaddr);

    /// One poll of the base future; the connection it yields is paired with
    /// its upgrade, started as `Listener`.
    open spec fn poll_step(self, next: Self, r: Poll<Self::Item>) -> bool {
        next.upgrade == self.upgrade && exists|ri: Poll<(T::IncomingUpgrade, Multiaddr)>|
            T::Incoming::poll_step(self.inner, next.inner, ri) && r == incoming_outcome(ri, self.upgrade)
    }

    fn poll(&mut self) -> (r: Poll<Self::Item>) {
        let ghost i0 = self.inner;
        let ri = self.inner.poll();
        let ghost rg = ri;
        let r = match ri {
            Ok(Async::Ready(item)) => Ok(Async::Ready(start_incoming(item, &self.upgrade))),
            Ok(Async::NotReady) => Ok(Async::NotReady),
            Err(e) => Err(e),
        };
        assert(T::Incoming::poll_step(i0, self.inner, rg) && r == incoming_outcome(rg, self.upgrade));
        r
    }
}

impl<T, C> Transport for AndThen<T, C> where
    T: Transport,
    C: Upgrade<T::Output>,
 {
    type Output = C::Output;
    type Listener = AndThenListener<T::Listener, C>;
    type ListenerUpgrade = AndThenFuture<T::ListenerUpgrade, C>;
    type Dial = AndThenFuture<T::Dial, C>;

    /// Exactly the addresses the base transport listens on.
    open spec fn accepts_listen(self, addr: Multiaddr) -> bool {
        T::accepts_listen(self.transport, addr)
    }

    /// Exactly the addresses the base transport dials.
    open spec fn accepts_dial(self, addr: Multiaddr) -> bool {
        T::accepts_dial(self.transport, addr)
    }

    /// The base transport listens on the address; each connection it accepts
    /// is upgraded as `Listener`.
    open spec fn listen_step(self, addr: Multiaddr, listener: Self::Listener, bound: Multiaddr) -> bool {
        listener.upgrade == self.upgrade && T::listen_step(self.transport, addr, listener.inner, bound)
    }

    /// The base transport dials the address; the connection is upgraded as
    /// `Dialer` with the address that was asked for.
    open spec fn dial_step(self, addr: Multiaddr, dial: Self::Dial) -> bool {
        exists|d: T::Dial| T::dial_step(self.transport, addr, d)
            && dial == AndThenFuture::connecting(d, self.upgrade, Endpoint::Dialer, addr)
    }

    /// Upgrades do not change addressing.
    open spec fn nat_step(self, server: Multiaddr, observed: Multiaddr, r: Option<Multiaddr>) -> bool {
        T::nat_step(self.transport, server, observed, r)
    }

    fn listen_on(self, addr: Multiaddr) -> (r: Result<(Self::Listener, Multiaddr), (Self, Multiaddr)>) {
        let AndThen { transport, upgrade } = self;
        match transport.listen_on(addr) {
            Ok((inner, bound)) => Ok((AndThenListener { inner, upgrade }, bound)),
            Err((transport, addr)) => Err((AndThen { transport, upgrade }, addr)),
        }
    }

    fn dial(self, addr: Multiaddr) -> (r: Result<Self::Dial, (Self, Multiaddr)>) {
        let AndThen { transport, upgrade } = self;
        let ghost base = transport;
        let requested = clone_addr(&addr);
        match transport.dial(addr) {
            Ok(inner) => {
                assert(T::dial_step(base, requested, inner));
                Ok(AndThenFuture::Connecting { inner, upgrade, role: Endpoint::Dialer, addr: requested })
            },
            Err((transport, addr)) => Err((AndThen { transport, upgrade }, addr)),
        }
    }

    fn nat_traversal(&self, server: &Multiaddr, observed: &Multiaddr) -> (r: Option<Multiaddr>) {
        self.transport.nat_traversal(server, observed)
    }
}

impl<T, C> MuxedTransport for AndThen<T, C> where
    T: MuxedTransport,
    C: Upgrade<T::Output>,
 {
    type Incoming = AndThenIncoming<T, C>;
    type IncomingUpgrade = AndThenFuture<T::IncomingUpgrade, C>;

    /// The base transport's next incoming connection, upgraded as `Listener`.
    open spec fn incoming_step(self, incoming: Self::Incoming) -> bool {
        incoming.upgrade == self.upgrade && T::incoming_step(self.transport, incoming.inner)
    }

    fn next_incoming(self) -> (r: Self::Incoming) {
        let AndThen { transport, upgrade } = self;
        AndThenIncoming { inner: transport.next_incoming(), upgrade }
    }
}

} // verus!
