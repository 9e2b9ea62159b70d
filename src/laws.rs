//! Properties that hold of every composition built from the combinators.
use vstd::prelude::*;
use multiaddr::Multiaddr;
use crate::and_then::{listener_outcome, upgrade_poll_step, AndThen, AndThenFuture, AndThenListener};
use crate::either::{
    lift_first, lift_listen_first, lift_listen_second, lift_second, EitherFuture, EitherListenStream,
    EitherOutbound, EitherOutput,
};
use crate::io::{AsyncRead, AsyncWrite};
use crate::muxing::StreamMuxer;
use crate::poll::{Async, ListenerStream, Poll, PollFuture};
use crate::transport::Transport;
use crate::upgrade::{Endpoint, Upgrade};

verus! {

/// Dialing through a pipeline upgrades as `Dialer` with the address that was
/// dialed: once the future has moved on to the negotiation, that negotiation
/// is one the pipeline's upgrade starts for a connection of the base
/// transport, with role `Dialer` and exactly the requested address.
pub proof fn lemma_dial_upgrades_as_dialer<T: Transport, C: Upgrade<T::Output>>(
    pipeline: AndThen<T, C>,
    addr: Multiaddr,
    dial: AndThenFuture<T::Dial, C>,
    next: AndThenFuture<T::Dial, C>,
    r: Poll<C::Output>,
)
    requires
        AndThen::<T, C>::dial_step(pipeline, addr, dial),
        upgrade_poll_step(dial, next, r),
        next is Upgrading,
    ensures
        exists|conn: T::Output, u0: C::Future|
            C::upgrade_step(pipeline.upgrade, conn, Endpoint::Dialer, addr, u0)
            && C::Future::poll_step(u0, next->Upgrading_fut, r),
{
}

/// Listening through a pipeline upgrades as `Listener` with the remote
/// address: each connection the pipeline listener yields, once it has moved
/// on to the negotiation, runs one the pipeline's upgrade starts with role
/// `Listener` and the remote address yielded beside it.
pub proof fn lemma_listen_upgrades_as_listener<L, C>(
    l0: AndThenListener<L, C>,
    l1: AndThenListener<L, C>,
    fut: AndThenFuture<L::Upgrade, C>,
    remote: Multiaddr,
    next: AndThenFuture<L::Upgrade, C>,
    r: Poll<C::Output>,
)
    where
        L: ListenerStream,
        L::Upgrade: PollFuture,
        C: Upgrade<<L::Upgrade as PollFuture>::Item>,
    requires
        AndThenListener::<L, C>::poll_step(l0, l1, Ok(Async::Ready(Some((fut, remote))))),
        upgrade_poll_step(fut, next, r),
        next is Upgrading,
    ensures
        exists|conn: <L::Upgrade as PollFuture>::Item, u0: C::Future|
            C::upgrade_step(l0.upgrade, conn, Endpoint::Listener, remote, u0)
            && C::Future::poll_step(u0, next->Upgrading_fut, r),
{
    let ri = choose|ri: Poll<Option<(L::Upgrade, Multiaddr)>>|
        L::poll_step(l0.inner, l1.inner, ri)
        && listener_outcome(ri, l0.upgrade) == Ok::<_, std::io::Error>(Async::Ready(Some((fut, remote))));
    assert(ri is Ok && ri->Ok_0 is Ready && ri->Ok_0->Ready_0 is Some);
}

/// A pipeline listener yields one item for every item of its base listener,
/// and ends or fails exactly when it does: how the negotiation of any
/// connection turns out never enters the listener, so a failed upgrade
/// stops no other connection from being accepted and upgraded.
pub proof fn lemma_listener_yields_every_item<L, C>(
    l0: AndThenListener<L, C>,
    inner1: L,
    ri: Poll<Option<(L::Upgrade, Multiaddr)>>,
)
    where
        L: ListenerStream,
        L::Upgrade: PollFuture,
        C: Upgrade<<L::Upgrade as PollFuture>::Item>,
    requires
        L::poll_step(l0.inner, inner1, ri),
    ensures
        AndThenListener::<L, C>::poll_step(
            l0,
            AndThenListener { inner: inner1, upgrade: l0.upgrade },
            listener_outcome(ri, l0.upgrade),
        ),
{
    assert(L::poll_step(l0.inner, inner1, ri) && listener_outcome(ri, l0.upgrade) == listener_outcome(ri, l0.upgrade));
}

/// An `EitherFuture` over the first case polls exactly as the future it
/// holds, its result tagged with the first case, and stays in that case.
pub proof fn lemma_either_future_first<A: PollFuture, B: PollFuture>(a0: A, a1: A, ra: Poll<A::Item>)
    ensures
        EitherFuture::<A, B>::poll_step(EitherFuture::First(a0), EitherFuture::First(a1), lift_first(ra))
            <==> A::poll_step(a0, a1, ra),
        forall|next: EitherFuture<A, B>, r: Poll<EitherOutput<A::Item, B::Item>>|
            #[trigger] EitherFuture::<A, B>::poll_step(EitherFuture::First(a0), next, r) ==> next is First,
{
    if EitherFuture::<A, B>::poll_step(EitherFuture::First(a0), EitherFuture::First(a1), lift_first(ra)) {
        let rb = choose|rb: Poll<A::Item>| A::poll_step(a0, a1, rb) && lift_first::<A::Item, B::Item>(ra) == lift_first::<A::Item, B::Item>(rb);
        assert(rb == ra);
    }
}

/// An `EitherFuture` over the second case polls exactly as the future it
/// holds, its result tagged with the second case, and stays in that case.
pub proof fn lemma_either_future_second<A: PollFuture, B: PollFuture>(b0: B, b1: B, rb: Poll<B::Item>)
    ensures
        EitherFuture::<A, B>::poll_step(EitherFuture::Second(b0), EitherFuture::Second(b1), lift_second(rb))
            <==> B::poll_step(b0, b1, rb),
        forall|next: EitherFuture<A, B>, r: Poll<EitherOutput<A::Item, B::Item>>|
            #[trigger] EitherFuture::<A, B>::poll_step(EitherFuture::Second(b0), next, r) ==> next is Second,
{
    if EitherFuture::<A, B>::poll_step(EitherFuture::Second(b0), EitherFuture::Second(b1), lift_second(rb)) {
        let rc = choose|rc: Poll<B::Item>| B::poll_step(b0, b1, rc) && lift_second::<A::Item, B::Item>(rb) == lift_second::<A::Item, B::Item>(rc);
        assert(rc == rb);
    }
}

/// An `EitherListenStream` over the first case yields exactly what the
/// listener it holds yields, each connection tagged with the first case.
pub proof fn lemma_either_listener_first<AS: ListenerStream, BS: ListenerStream>(
    a0: AS,
    a1: AS,
    ra: Poll<Option<(AS::Upgrade, Multiaddr)>>,
)
    ensures
        EitherListenStream::<AS, BS>::poll_step(
            EitherListenStream::First(a0),
            EitherListenStream::First(a1),
            lift_listen_first(ra),
        ) <==> AS::poll_step(a0, a1, ra),
{
    if EitherListenStream::<AS, BS>::poll_step(EitherListenStream::First(a0), EitherListenStream::First(a1), lift_listen_first(ra)) {
        let rb = choose|rb: Poll<Option<(AS::Upgrade, Multiaddr)>>|
            AS::poll_step(a0, a1, rb) && lift_listen_first::<AS::Upgrade, BS::Upgrade>(ra) == lift_listen_first::<AS::Upgrade, BS::Upgrade>(rb);
        assert(rb == ra);
    }
}

/// An `EitherListenStream` over the second case yields exactly what the
/// listener it holds yields, each connection tagged with the second case.
pub proof fn lemma_either_listener_second<AS: ListenerStream, BS: ListenerStream>(
    b0: BS,
    b1: BS,
    rb: Poll<Option<(BS::Upgrade, Multiaddr)>>,
)
    ensures
        EitherListenStream::<AS, BS>::poll_step(
            EitherListenStream::Second(b0),
            EitherListenStream::Second(b1),
            lift_listen_second(rb),
        ) <==> BS::poll_step(b0, b1, rb),
{
    if EitherListenStream::<AS, BS>::poll_step(EitherListenStream::Second(b0), EitherListenStream::Second(b1), lift_listen_second(rb)) {
        let rc = choose|rc: Poll<Option<(BS::Upgrade, Multiaddr)>>|
            BS::poll_step(b0, b1, rc) && lift_listen_second::<AS::Upgrade, BS::Upgrade>(rb) == lift_listen_second::<AS::Upgrade, BS::Upgrade>(rc);
        assert(rc == rb);
    }
}

/// Reading, writing, flushing and shutting down an `EitherOutput` over the
/// first case behave exactly as on the stream it holds.
pub proof fn lemma_either_output_first<A: AsyncRead + AsyncWrite, B: AsyncRead + AsyncWrite>(
    a0: A,
    a1: A,
    before: Seq<u8>,
    after: Seq<u8>,
    n: Result<usize, std::io::Error>,
    f: Result<(), std::io::Error>,
    s: Poll<()>,
)
    ensures
        EitherOutput::<A, B>::read_step(EitherOutput::First(a0), EitherOutput::First(a1), before, after, n)
            == A::read_step(a0, a1, before, after, n),
        EitherOutput::<A, B>::write_step(EitherOutput::First(a0), EitherOutput::First(a1), before, n)
            == A::write_step(a0, a1, before, n),
        EitherOutput::<A, B>::flush_step(EitherOutput::First(a0), EitherOutput::First(a1), f)
            == A::flush_step(a0, a1, f),
        EitherOutput::<A, B>::shutdown_step(EitherOutput::First(a0), EitherOutput::First(a1), s)
            == A::shutdown_step(a0, a1, s),
{
}

/// Reading, writing, flushing and shutting down an `EitherOutput` over the
/// second case behave exactly as on the stream it holds.
pub proof fn lemma_either_output_second<A: AsyncRead + AsyncWrite, B: AsyncRead + AsyncWrite>(
    b0: B,
    b1: B,
    before: Seq<u8>,
    after: Seq<u8>,
    n: Result<usize, std::io::Error>,
    f: Result<(), std::io::Error>,
    s: Poll<()>,
)
    ensures
        EitherOutput::<A, B>::read_step(EitherOutput::Second(b0), EitherOutput::Second(b1), before, after, n)
            == B::read_step(b0, b1, before, after, n),
        EitherOutput::<A, B>::write_step(EitherOutput::Second(b0), EitherOutput::Second(b1), before, n)
            == B::write_step(b0, b1, before, n),
        EitherOutput::<A, B>::flush_step(EitherOutput::Second(b0), EitherOutput::Second(b1), f)
            == B::flush_step(b0, b1, f),
        EitherOutput::<A, B>::shutdown_step(EitherOutput::Second(b0), EitherOutput::Second(b1), s)
            == B::shutdown_step(b0, b1, s),
{
}

/// A substream or outbound request that an `EitherOutput` muxer owns carries
/// the case of that muxer, and is owned by the muxer it holds.
pub proof fn lemma_either_muxer_owns_same_case<A: StreamMuxer, B: StreamMuxer>(
    m: EitherOutput<A, B>,
    s: EitherOutput<A::Substream, B::Substream>,
    h: EitherOutbound<A, B>,
)
    ensures
        m.owns_substream(s) ==> match (m, s) {
            (EitherOutput::First(x), EitherOutput::First(y)) => x.owns_substream(y),
            (EitherOutput::Second(x), EitherOutput::Second(y)) => x.owns_substream(y),
            _ => false,
        },
        m.owns_outbound(h) ==> match (m, h) {
            (EitherOutput::First(x), EitherOutbound::A(y)) => x.owns_outbound(y),
            (EitherOutput::Second(x), EitherOutbound::B(y)) => x.owns_outbound(y),
            _ => false,
        },
{
}

} // verus!
