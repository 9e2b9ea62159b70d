//! Two-case sum types that forward every operation to the case they hold,
//! so that two concrete implementations can share one static type.
use vstd::prelude::*;
use multiaddr::Multiaddr;
use crate::io::{AsyncRead, AsyncWrite};
use crate::muxing::StreamMuxer;
use crate::poll::{Async, ListenerStream, Poll, PollFuture};

verus! {

/// A connection, substream or muxer that is one of two concrete kinds.
#[derive(Debug, Clone, Copy)]
pub enum EitherOutput<A, B> {
    First(A),
    Second(B),
}

/// A future that is one of two concrete futures; it yields an
/// `EitherOutput` tagged with the case it came from.
#[derive(Debug, Clone, Copy)]
pub enum EitherFuture<A, B> {
    First(A),
    Second(B),
}

/// Tags a ready value of the first case.
pub open spec fn lift_first<A, B>(r: Poll<A>) -> Poll<EitherOutput<A, B>> {
    match r {
        Ok(Async::Ready(v)) => Ok(Async::Ready(EitherOutput::First(v))),
        Ok(Async::NotReady) => Ok(Async::NotReady),
        Err(e) => Err(e),
    }
}

/// Tags a ready value of the second case.
pub open spec fn lift_second<A, B>(r: Poll<B>) -> Poll<EitherOutput<A, B>> {
    match r {
        Ok(Async::Ready(v)) => Ok(Async::Ready(EitherOutput::Second(v))),
        Ok(Async::NotReady) => Ok(Async::NotReady),
        Err(e) => Err(e),
    }
}

/// Tags the ready value of a poll of the first case.
fn tag_first<A, B>(r: Poll<A>) -> (o: Poll<EitherOutput<A, B>>)
    ensures
        o == lift_first::<A, B>(r),
{
    match r {
        Ok(Async::Ready(v)) => Ok(Async::Ready(EitherOutput::First(v))),
        Ok(Async::NotReady) => Ok(Async::NotReady),
        Err(e) => Err(e),
    }
}

/// Tags the ready value of a poll of the second case.
fn tag_second<A, B>(r: Poll<B>) -> (o: Poll<EitherOutput<A, B>>)
    ensures
        o == lift_second::<A, B>(r),
{
    match r {
        Ok(Async::Ready(v)) => Ok(Async::Ready(EitherOutput::Second(v))),
        Ok(Async::NotReady) => Ok(Async::NotReady),
        Err(e) => Err(e),
    }
}

impl<A: PollFuture, B: PollFuture> PollFuture for EitherFuture<A, B> {
    type Item = EitherOutput<A::Item, B::Item>;

    /// One poll of the held future, its result tagged with the same case;
    /// the case never changes.
    open spec fn poll_step(self, next: Self, r: Poll<Self::Item>) -> bool {
        match (self, next) {
            (EitherFuture::First(a0), EitherFuture::First(a1)) => exists|ra: Poll<A::Item>|
                A::poll_step(a0, a1, ra) && r == lift_first::<A::Item, B::Item>(ra),
            (EitherFuture::Second(b0), EitherFuture::Second(b1)) => exists|rb: Poll<B::Item>|
                B::poll_step(b0, b1, rb) && r == lift_second::<A::Item, B::Item>(rb),
            _ => false,
        }
    }

    fn poll(&mut self) -> (r: Poll<Self::Item>) {
        match self {
            EitherFuture::First(a) => {
                let ghost a0 = *a;
                let ra = a.poll();
                let ghost a1 = *a;
                let r = tag_first::<A::Item, B::Item>(ra);
                assert(A::poll_step(a0, a1, ra) && r == lift_first::<A::Item, B::Item>(ra));
                r
            },
            EitherFuture::Second(b) => {
                let ghost b0 = *b;
                let rb = b.poll();
                let ghost b1 = *b;
                let r = tag_second::<A::Item, B::Item>(rb);
                assert(B::poll_step(b0, b1, rb) && r == lift_second::<A::Item, B::Item>(rb));
                r
            },
        }
    }
}

impl<A: AsyncRead, B: AsyncRead> AsyncRead for EitherOutput<A, B> {
    open spec fn prepare_step(self, before: Seq<u8>, after: Seq<u8>, r: bool) -> bool {
        match self {
            EitherOutput::First(a) => a.prepare_step(before, after, r),
            EitherOutput::Second(b) => b.prepare_step(before, after, r),
        }
    }

    /// A read of the held stream; the case never changes.
    open spec fn read_step(self, next: Self, before: Seq<u8>, after: Seq<u8>, r: Result<usize, std::io::Error>) -> bool {
        match (self, next) {
            (EitherOutput::First(a0), EitherOutput::First(a1)) => A::read_step(a0, a1, before, after, r),
            (EitherOutput::Second(b0), EitherOutput::Second(b1)) => B::read_step(b0, b1, before, after, r),
            _ => false,
        }
    }

    fn prepare_uninitialized_buffer(&self, buf: &mut [u8]) -> (r: bool) {
        match self {
            EitherOutput::First(a) => a.prepare_uninitialized_buffer(buf),
            EitherOutput::Second(b) => b.prepare_uninitialized_buffer(buf),
        }
    }

    fn read(&mut self, buf: &mut [u8]) -> (r: Result<usize, std::io::Error>) {
        match self {
            EitherOutput::First(a) => a.read(buf),
            EitherOutput::Second(b) => b.read(buf),
        }
    }
}

impl<A: AsyncWrite, B: AsyncWrite> AsyncWrite for EitherOutput<A, B> {
    /// A write to the held stream; the case never changes.
    open spec fn write_step(self, next: Self, buf: Seq<u8>, r: Result<usize, std::io::Error>) -> bool {
        match (self, next) {
            (EitherOutput::First(a0), EitherOutput::First(a1)) => A::write_step(a0, a1, buf, r),
            (EitherOutput::Second(b0), EitherOutput::Second(b1)) => B::write_step(b0, b1, buf, r),
            _ => false,
        }
    }

    open spec fn flush_step(self, next: Self, r: Result<(), std::io::Error>) -> bool {
        match (self, next) {
            (EitherOutput::First(a0), EitherOutput::First(a1)) => A::flush_step(a0, a1, r),
            (EitherOutput::Second(b0), EitherOutput::Second(b1)) => B::flush_step(b0, b1, r),
            _ => false,
        }
    }

    open spec fn shutdown_step(self, next: Self, r: Poll<()>) -> bool {
        match (self, next) {
            (EitherOutput::First(a0), EitherOutput::First(a1)) => A::shutdown_step(a0, a1, r),
            (EitherOutput::Second(b0), EitherOutput::Second(b1)) => B::shutdown_step(b0, b1, r),
            _ => false,
        }
    }

    fn write(&mut self, buf: &[u8]) -> (r: Result<usize, std::io::Error>) {
        match self {
            EitherOutput::First(a) => a.write(buf),
            EitherOutput::Second(b) => b.write(buf),
        }
    }

    fn flush(&mut self) -> (r: Result<(), std::io::Error>) {
        match self {
            EitherOutput::First(a) => a.flush(),
            EitherOutput::Second(b) => b.flush(),
        }
    }

    fn shutdown(&mut self) -> (r: Poll<()>) {
        match self {
            EitherOutput::First(a) => a.shutdown(),
            EitherOutput::Second(b) => b.shutdown(),
        }
    }
}

/// A listener that is one of two concrete listeners; each incoming
/// connection is an `EitherFuture` tagged with the case it came from.
#[derive(Debug, Clone, Copy)]
pub enum EitherListenStream<A, B> {
    First(A),
    Second(B),
}

/// Tags the incoming connection of a listener poll of the first case.
pub open spec fn lift_listen_first<AF, BF>(r: Poll<Option<(AF, Multiaddr)>>) -> Poll<Option<(EitherFuture<AF, BF>, Multiaddr)>> {
    match r {
        Ok(Async::Ready(Some((f, a)))) => Ok(Async::Ready(Some((EitherFuture::First(f), a)))),
        Ok(Async::Ready(None)) => Ok(Async::Ready(None)),
        Ok(Async::NotReady) => Ok(Async::NotReady),
        Err(e) => Err(e),
    }
}

/// Tags the incoming connection of a listener poll of the second case.
pub open spec fn lift_listen_second<AF, BF>(r: Poll<Option<(BF, Multiaddr)>>) -> Poll<Option<(EitherFuture<AF, BF>, Multiaddr)>> {
    match r {
        Ok(Async::Ready(Some((f, a)))) => Ok(Async::Ready(Some((EitherFuture::Second(f), a)))),
        Ok(Async::Ready(None)) => Ok(Async::Ready(None)),
        Ok(Async::NotReady) => Ok(Async::NotReady),
        Err(e) => Err(e),
    }
}

impl<AS: ListenerStream, BS: ListenerStream> ListenerStream for EitherListenStream<AS, BS> {
    type Upgrade = EitherFuture<AS::Upgrade, BS::Upgrade>;

    /// One poll of the held listener, its connection tagged with the same
    /// case; the case never changes.
    open spec fn poll_step(self, next: Self, r: Poll<Option<(Self::Upgrade, Multiaddr)>>) -> bool {
        match (self, next) {
            (EitherListenStream::First(a0), EitherListenStream::First(a1)) => exists|ra: Poll<Option<(AS::Upgrade, Multiaddr)>>|
                AS::poll_step(a0, a1, ra) && r == lift_listen_first::<AS::Upgrade, BS::Upgrade>(ra),
            (EitherListenStream::Second(b0), EitherListenStream::Second(b1)) => exists|rb: Poll<Option<(BS::Upgrade, Multiaddr)>>|
                BS::poll_step(b0, b1, rb) && r == lift_listen_second::<AS::Upgrade, BS::Upgrade>(rb),
            _ => false,
        }
    }

    fn poll(&mut self) -> (r: Poll<Option<(Self::Upgrade, Multiaddr)>>) {
        match self {
            EitherListenStream::First(a) => {
                let ghost a0 = *a;
                let ra = a.poll();
                let ghost g = ra;
                let r = match ra {
                    Ok(Async::Ready(Some((f, addr)))) => Ok(Async::Ready(Some((EitherFuture::First(f), addr)))),
                    Ok(Async::Ready(None)) => Ok(Async::Ready(None)),
                    Ok(Async::NotReady) => Ok(Async::NotReady),
                    Err(e) => Err(e),
                };
                assert(AS::poll_step(a0, *a, g) && r == lift_listen_first::<AS::Upgrade, BS::Upgrade>(g));
                r
            },
            EitherListenStream::Second(b) => {
                let ghost b0 = *b;
                let rb = b.poll();
                let ghost g = rb;
                let r = match rb {
                    Ok(Async::Ready(Some((f, addr)))) => Ok(Async::Ready(Some((EitherFuture::Second(f), addr)))),
                    Ok(Async::Ready(None)) => Ok(Async::Ready(None)),
                    Ok(Async::NotReady) => Ok(Async::NotReady),
                    Err(e) => Err(e),
                };
                assert(BS::poll_step(b0, *b, g) && r == lift_listen_second::<AS::Upgrade, BS::Upgrade>(g));
                r
            },
        }
    }
}

/// An outbound substream request of an `EitherOutput` muxer, tagged with
/// the case of the muxer that produced it.
pub enum EitherOutbound<A: StreamMuxer, B: StreamMuxer> {
    A(A::OutboundSubstream),
    B(B::OutboundSubstream),
}

/// Tags the substream of a muxer poll of the first case.
pub open spec fn lift_sub_first<SA, SB>(r: Poll<Option<SA>>) -> Poll<Option<EitherOutput<SA, SB>>> {
    match r {
        Ok(Async::Ready(Some(s))) => Ok(Async::Ready(Some(EitherOutput::First(s)))),
        Ok(Async::Ready(None)) => Ok(Async::Ready(None)),
        Ok(Async::NotReady) => Ok(Async::NotReady),
        Err(e) => Err(e),
    }
}

/// Tags the substream of a muxer poll of the second case.
pub open spec fn lift_sub_second<SA, SB>(r: Poll<Option<SB>>) -> Poll<Option<EitherOutput<SA, SB>>> {
    match r {
        Ok(Async::Ready(Some(s))) => Ok(Async::Ready(Some(EitherOutput::Second(s)))),
        Ok(Async::Ready(None)) => Ok(Async::Ready(None)),
        Ok(Async::NotReady) => Ok(Async::NotReady),
        Err(e) => Err(e),
    }
}

fn tag_sub_first<SA, SB>(r: Poll<Option<SA>>) -> (o: Poll<Option<EitherOutput<SA, SB>>>)
    ensures
        o == lift_sub_first::<SA, SB>(r),
{
    match r {
        Ok(Async::Ready(Some(s))) => Ok(Async::Ready(Some(EitherOutput::First(s)))),
        Ok(Async::Ready(None)) => Ok(Async::Ready(None)),
        Ok(Async::NotReady) => Ok(Async::NotReady),
        Err(e) => Err(e),
    }
}

fn tag_sub_second<SA, SB>(r: Poll<Option<SB>>) -> (o: Poll<Option<EitherOutput<SA, SB>>>)
    ensures
        o == lift_sub_second::<SA, SB>(r),
{
    match r {
        Ok(Async::Ready(Some(s))) => Ok(Async::Ready(Some(EitherOutput::Second(s)))),
        Ok(Async::Ready(None)) => Ok(Async::Ready(None)),
        Ok(Async::NotReady) => Ok(Async::NotReady),
        Err(e) => Err(e),
    }
}

/// A change of the first muxer that keeps what it owns keeps what the
/// `EitherOutput` holding it owns.
proof fn lemma_keeps_first<A: StreamMuxer, B: StreamMuxer>(m0: A, m1: A)
    requires
        forall|x: A::Substream| #[trigger] m0.owns_substream(x) ==> m1.owns_substream(x),
        forall|x: A::OutboundSubstream| #[trigger] m0.owns_outbound(x) ==> m1.owns_outbound(x),
    ensures
        forall|s: EitherOutput<A::Substream, B::Substream>| #[trigger] EitherOutput::<A, B>::First(m0).owns_substream(s)
            ==> EitherOutput::<A, B>::First(m1).owns_substream(s),
        forall|h: EitherOutbound<A, B>| #[trigger] EitherOutput::<A, B>::First(m0).owns_outbound(h)
            ==> EitherOutput::<A, B>::First(m1).owns_outbound(h),
{
    lemma_keeps_substreams_first::<A, B>(m0, m1);
    lemma_keeps_outbound_first::<A, B>(m0, m1);
}

/// What the first muxer still owns, the `EitherOutput` holding it owns.
proof fn lemma_keeps_substreams_first<A: StreamMuxer, B: StreamMuxer>(m0: A, m1: A)
    requires
        forall|x: A::Substream| #[trigger] m0.owns_substream(x) ==> m1.owns_substream(x),
    ensures
        forall|s: EitherOutput<A::Substream, B::Substream>| #[trigger] EitherOutput::<A, B>::First(m0).owns_substream(s)
            ==> EitherOutput::<A, B>::First(m1).owns_substream(s),
{
    assert forall|s: EitherOutput<A::Substream, B::Substream>| #[trigger] EitherOutput::<A, B>::First(m0).owns_substream(s)
        implies EitherOutput::<A, B>::First(m1).owns_substream(s) by {
        match s {
            EitherOutput::First(x) => { assert(m0.owns_substream(x)); },
            _ => {},
        }
    }
}

/// What the first muxer still owns, the `EitherOutput` holding it owns.
proof fn lemma_keeps_outbound_first<A: StreamMuxer, B: StreamMuxer>(m0: A, m1: A)
    requires
        forall|x: A::OutboundSubstream| #[trigger] m0.owns_outbound(x) ==> m1.owns_outbound(x),
    ensures
        forall|h: EitherOutbound<A, B>| #[trigger] EitherOutput::<A, B>::First(m0).owns_outbound(h)
            ==> EitherOutput::<A, B>::First(m1).owns_outbound(h),
{
    assert forall|h: EitherOutbound<A, B>| #[trigger] EitherOutput::<A, B>::First(m0).owns_outbound(h)
        implies EitherOutput::<A, B>::First(m1).owns_outbound(h) by {
        match h {
            EitherOutbound::A(x) => { assert(m0.owns_outbound(x)); },
            _ => {},
        }
    }
}

/// Releasing a substream of the first muxer releases it, tagged, from the
/// `EitherOutput` holding it, and keeps every other.
proof fn lemma_releases_substream_first<A: StreamMuxer, B: StreamMuxer>(m0: A, m1: A, gone: A::Substream)
    requires
        forall|x: A::Substream| #[trigger] m0.owns_substream(x) && x != gone ==> m1.owns_substream(x),
    ensures
        forall|s: EitherOutput<A::Substream, B::Substream>| #[trigger] EitherOutput::<A, B>::First(m0).owns_substream(s)
            && s != EitherOutput::<A::Substream, B::Substream>::First(gone)
            ==> EitherOutput::<A, B>::First(m1).owns_substream(s),
{
    assert forall|s: EitherOutput<A::Substream, B::Substream>| #[trigger] EitherOutput::<A, B>::First(m0).owns_substream(s)
        && s != EitherOutput::<A::Substream, B::Substream>::First(gone)
        implies EitherOutput::<A, B>::First(m1).owns_substream(s) by {
        match s {
            EitherOutput::First(x) => { assert(m0.owns_substream(x) && x != gone); },
            _ => {},
        }
    }
}

/// Releasing or using up a request of the first muxer does the same to it,
/// tagged, in the `EitherOutput` holding it, and keeps every other.
proof fn lemma_releases_outbound_first<A: StreamMuxer, B: StreamMuxer>(m0: A, m1: A, gone: A::OutboundSubstream)
    requires
        forall|x: A::OutboundSubstream| #[trigger] m0.owns_outbound(x) && x != gone ==> m1.owns_outbound(x),
    ensures
        forall|h: EitherOutbound<A, B>| #[trigger] EitherOutput::<A, B>::First(m0).owns_outbound(h)
            && h != EitherOutbound::<A, B>::A(gone)
            ==> EitherOutput::<A, B>::First(m1).owns_outbound(h),
{
    assert forall|h: EitherOutbound<A, B>| #[trigger] EitherOutput::<A, B>::First(m0).owns_outbound(h)
        && h != EitherOutbound::<A, B>::A(gone)
        implies EitherOutput::<A, B>::First(m1).owns_outbound(h) by {
        match h {
            EitherOutbound::A(x) => { assert(m0.owns_outbound(x) && x != gone); },
            _ => {},
        }
    }
}

/// A change of the second muxer that keeps what it owns keeps what the
/// `EitherOutput` holding it owns.
proof fn lemma_keeps_second<A: StreamMuxer, B: StreamMuxer>(m0: B, m1: B)
    requires
        forall|x: B::Substream| #[trigger] m0.owns_substream(x) ==> m1.owns_substream(x),
        forall|x: B::OutboundSubstream| #[trigger] m0.owns_outbound(x) ==> m1.owns_outbound(x),
    ensures
        forall|s: EitherOutput<A::Substream, B::Substream>| #[trigger] EitherOutput::<A, B>::Second(m0).owns_substream(s)
            ==> EitherOutput::<A, B>::Second(m1).owns_substream(s),
        forall|h: EitherOutbound<A, B>| #[trigger] EitherOutput::<A, B>::Second(m0).owns_outbound(h)
            ==> EitherOutput::<A, B>::Second(m1).owns_outbound(h),
{
    lemma_keeps_substreams_second::<A, B>(m0, m1);
    lemma_keeps_outbound_second::<A, B>(m0, m1);
}

/// What the second muxer still owns, the `EitherOutput` holding it owns.
proof fn lemma_keeps_substreams_second<A: StreamMuxer, B: StreamMuxer>(m0: B, m1: B)
    requires
        forall|x: B::Substream| #[trigger] m0.owns_substream(x) ==> m1.owns_substream(x),
    ensures
        forall|s: EitherOutput<A::Substream, B::Substream>| #[trigger] EitherOutput::<A, B>::Second(m0).owns_substream(s)
            ==> EitherOutput::<A, B>::Second(m1).owns_substream(s),
{
    assert forall|s: EitherOutput<A::Substream, B::Substream>| #[trigger] EitherOutput::<A, B>::Second(m0).owns_substream(s)
        implies EitherOutput::<A, B>::Second(m1).owns_substream(s) by {
        match s {
            EitherOutput::Second(x) => { assert(m0.owns_substream(x)); },
            _ => {},
        }
    }
}

/// What the second muxer still owns, the `EitherOutput` holding it owns.
proof fn lemma_keeps_outbound_second<A: StreamMuxer, B: StreamMuxer>(m0: B, m1: B)
    requires
        forall|x: B::OutboundSubstream| #[trigger] m0.owns_outbound(x) ==> m1.owns_outbound(x),
    ensures
        forall|h: EitherOutbound<A, B>| #[trigger] EitherOutput::<A, B>::Second(m0).owns_outbound(h)
            ==> EitherOutput::<A, B>::Second(m1).owns_outbound(h),
{
    assert forall|h: EitherOutbound<A, B>| #[trigger] EitherOutput::<A, B>::Second(m0).owns_outbound(h)
        implies EitherOutput::<A, B>::Second(m1).owns_outbound(h) by {
        match h {
            EitherOutbound::B(x) => { assert(m0.owns_outbound(x)); },
            _ => {},
        }
    }
}

/// Releasing a substream of the second muxer releases it, tagged, from the
/// `EitherOutput` holding it, and keeps every other.
proof fn lemma_releases_substream_second<A: StreamMuxer, B: StreamMuxer>(m0: B, m1: B, gone: B::Substream)
    requires
        forall|x: B::Substream| #[trigger] m0.owns_substream(x) && x != gone ==> m1.owns_substream(x),
    ensures
        forall|s: EitherOutput<A::Substream, B::Substream>| #[trigger] EitherOutput::<A, B>::Second(m0).owns_substream(s)
            && s != EitherOutput::<A::Substream, B::Substream>::Second(gone)
            ==> EitherOutput::<A, B>::Second(m1).owns_substream(s),
{
    assert forall|s: EitherOutput<A::Substream, B::Substream>| #[trigger] EitherOutput::<A, B>::Second(m0).owns_substream(s)
        && s != EitherOutput::<A::Substream, B::Substream>::Second(gone)
        implies EitherOutput::<A, B>::Second(m1).owns_substream(s) by {
        match s {
            EitherOutput::Second(x) => { assert(m0.owns_substream(x) && x != gone); },
            _ => {},
        }
    }
}

/// Releasing or using up a request of the second muxer does the same to it,
/// tagged, in the `EitherOutput` holding it, and keeps every other.
proof fn lemma_releases_outbound_second<A: StreamMuxer, B: StreamMuxer>(m0: B, m1: B, gone: B::OutboundSubstream)
    requires
        forall|x: B::OutboundSubstream| #[trigger] m0.owns_outbound(x) && x != gone ==> m1.owns_outbound(x),
    ensures
        forall|h: EitherOutbound<A, B>| #[trigger] EitherOutput::<A, B>::Second(m0).owns_outbound(h)
            && h != EitherOutbound::<A, B>::B(gone)
            ==> EitherOutput::<A, B>::Second(m1).owns_outbound(h),
{
    assert forall|h: EitherOutbound<A, B>| #[trigger] EitherOutput::<A, B>::Second(m0).owns_outbound(h)
        && h != EitherOutbound::<A, B>::B(gone)
        implies EitherOutput::<A, B>::Second(m1).owns_outbound(h) by {
        match h {
            EitherOutbound::B(x) => { assert(m0.owns_outbound(x) && x != gone); },
            _ => {},
        }
    }
}

impl<A: StreamMuxer, B: StreamMuxer> StreamMuxer for EitherOutput<A, B> {
    type Substream = EitherOutput<A::Substream, B::Substream>;
    type OutboundSubstream = EitherOutbound<A, B>;

    open spec fn inbound_closed(self) -> bool {
        match self {
            EitherOutput::First(m) => m.inbound_closed(),
            EitherOutput::Second(m) => m.inbound_closed(),
        }
    }

    open spec fn outbound_closed(self) -> bool {
        match self {
            EitherOutput::First(m) => m.outbound_closed(),
            EitherOutput::Second(m) => m.outbound_closed(),
        }
    }

    /// Only a substream of the same case, owned by the held muxer.
    open spec fn owns_substream(self, s: Self::Substream) -> bool {
        match (self, s) {
            (EitherOutput::First(m), EitherOutput::First(x)) => m.owns_substream(x),
            (EitherOutput::Second(m), EitherOutput::Second(x)) => m.owns_substream(x),
            _ => false,
        }
    }

    /// Only a request of the same case, owned by the held muxer.
    open spec fn owns_outbound(self, h: Self::OutboundSubstream) -> bool {
        match (self, h) {
            (EitherOutput::First(m), EitherOutbound::A(x)) => m.owns_outbound(x),
            (EitherOutput::Second(m), EitherOutbound::B(x)) => m.owns_outbound(x),
            _ => false,
        }
    }

    open spec fn inbound_step(self, next: Self, r: Poll<Option<Self::Substream>>) -> bool {
        match (self, next) {
            (EitherOutput::First(m0), EitherOutput::First(m1)) => exists|ra: Poll<Option<A::Substream>>|
                A::inbound_step(m0, m1, ra) && r == lift_sub_first::<A::Substream, B::Substream>(ra),
            (EitherOutput::Second(m0), EitherOutput::Second(m1)) => exists|rb: Poll<Option<B::Substream>>|
                B::inbound_step(m0, m1, rb) && r == lift_sub_second::<A::Substream, B::Substream>(rb),
            _ => false,
        }
    }

    open spec fn open_step(self, next: Self, h: Self::OutboundSubstream) -> bool {
        match (self, next, h) {
            (EitherOutput::First(m0), EitherOutput::First(m1), EitherOutbound::A(x)) => A::open_step(m0, m1, x),
            (EitherOutput::Second(m0), EitherOutput::Second(m1), EitherOutbound::B(x)) => B::open_step(m0, m1, x),
            _ => false,
        }
    }

    open spec fn outbound_step(
        self,
        next: Self,
        h0: Self::OutboundSubstream,
        h1: Self::OutboundSubstream,
        r: Poll<Option<Self::Substream>>,
    ) -> bool {
        match (self, next, h0, h1) {
            (EitherOutput::First(m0), EitherOutput::First(m1), EitherOutbound::A(x0), EitherOutbound::A(x1)) =>
                exists|ra: Poll<Option<A::Substream>>|
                    A::outbound_step(m0, m1, x0, x1, ra) && r == lift_sub_first::<A::Substream, B::Substream>(ra),
            (EitherOutput::Second(m0), EitherOutput::Second(m1), EitherOutbound::B(x0), EitherOutbound::B(x1)) =>
                exists|rb: Poll<Option<B::Substream>>|
                    B::outbound_step(m0, m1, x0, x1, rb) && r == lift_sub_second::<A::Substream, B::Substream>(rb),
            _ => false,
        }
    }

    open spec fn destroy_outbound_step(self, next: Self, h: Self::OutboundSubstream) -> bool {
        match (self, next, h) {
            (EitherOutput::First(m0), EitherOutput::First(m1), EitherOutbound::A(x)) => A::destroy_outbound_step(m0, m1, x),
            (EitherOutput::Second(m0), EitherOutput::Second(m1), EitherOutbound::B(x)) => B::destroy_outbound_step(m0, m1, x),
            _ => false,
        }
    }

    open spec fn read_step(
        self,
        next: Self,
        s0: Self::Substream,
        s1: Self::Substream,
        before: Seq<u8>,
        after: Seq<u8>,
        r: Result<usize, std::io::Error>,
    ) -> bool {
        match (self, next, s0, s1) {
            (EitherOutput::First(m0), EitherOutput::First(m1), EitherOutput::First(x0), EitherOutput::First(x1)) =>
                A::read_step(m0, m1, x0, x1, before, after, r),
            (EitherOutput::Second(m0), EitherOutput::Second(m1), EitherOutput::Second(x0), EitherOutput::Second(x1)) =>
                B::read_step(m0, m1, x0, x1, before, after, r),
            _ => false,
        }
    }

    open spec fn write_step(
        self,
        next: Self,
        s0: Self::Substream,
        s1: Self::Substream,
        buf: Seq<u8>,
        r: Result<usize, std::io::Error>,
    ) -> bool {
        match (self, next, s0, s1) {
            (EitherOutput::First(m0), EitherOutput::First(m1), EitherOutput::First(x0), EitherOutput::First(x1)) =>
                A::write_step(m0, m1, x0, x1, buf, r),
            (EitherOutput::Second(m0), EitherOutput::Second(m1), EitherOutput::Second(x0), EitherOutput::Second(x1)) =>
                B::write_step(m0, m1, x0, x1, buf, r),
            _ => false,
        }
    }

    open spec fn flush_step(self, next: Self, s0: Self::Substream, s1: Self::Substream, r: Result<(), std::io::Error>) -> bool {
        match (self, next, s0, s1) {
            (EitherOutput::First(m0), EitherOutput::First(m1), EitherOutput::First(x0), EitherOutput::First(x1)) =>
                A::flush_step(m0, m1, x0, x1, r),
            (EitherOutput::Second(m0), EitherOutput::Second(m1), EitherOutput::Second(x0), EitherOutput::Second(x1)) =>
                B::flush_step(m0, m1, x0, x1, r),
            _ => false,
        }
    }

    open spec fn shutdown_step(self, next: Self, s0: Self::Substream, s1: Self::Substream, r: Poll<()>) -> bool {
        match (self, next, s0, s1) {
            (EitherOutput::First(m0), EitherOutput::First(m1), EitherOutput::First(x0), EitherOutput::First(x1)) =>
                A::shutdown_step(m0, m1, x0, x1, r),
            (EitherOutput::Second(m0), EitherOutput::Second(m1), EitherOutput::Second(x0), EitherOutput::Second(x1)) =>
                B::shutdown_step(m0, m1, x0, x1, r),
            _ => false,
        }
    }

    open spec fn destroy_substream_step(self, next: Self, s: Self::Substream) -> bool {
        match (self, next, s) {
            (EitherOutput::First(m0), EitherOutput::First(m1), EitherOutput::First(x)) => A::destroy_substream_step(m0, m1, x),
            (EitherOutput::Second(m0), EitherOutput::Second(m1), EitherOutput::Second(x)) => B::destroy_substream_step(m0, m1, x),
            _ => false,
        }
    }

    fn poll_inbound(&mut self) -> (r: Poll<Option<Self::Substream>>) {
        match self {
            EitherOutput::First(m) => {
                let ghost m0 = *m;
                let ra = m.poll_inbound();
                let ghost g = ra;
                let r = tag_sub_first::<A::Substream, B::Substream>(ra);
                proof {
                    lemma_keeps_first::<A, B>(m0, *m);
                    assert(A::inbound_step(m0, *m, g));
                }
                r
            },
            EitherOutput::Second(m) => {
                let ghost m0 = *m;
                let rb = m.poll_inbound();
                let ghost g = rb;
                let r = tag_sub_second::<A::Substream, B::Substream>(rb);
                proof {
                    lemma_keeps_second::<A, B>(m0, *m);
                    assert(B::inbound_step(m0, *m, g));
                }
                r
            },
        }
    }

    fn open_outbound(&mut self) -> (h: Self::OutboundSubstream) {
        match self {
            EitherOutput::First(m) => {
                let ghost m0 = *m;
                let h = m.open_outbound();
                proof { lemma_keeps_first::<A, B>(m0, *m); }
                EitherOutbound::A(h)
            },
            EitherOutput::Second(m) => {
                let ghost m0 = *m;
                let h = m.open_outbound();
                proof { lemma_keeps_second::<A, B>(m0, *m); }
                EitherOutbound::B(h)
            },
        }
    }

    fn poll_outbound(&mut self, h: &mut Self::OutboundSubstream) -> (r: Poll<Option<Self::Substream>>) {
        match self {
            EitherOutput::First(m) => match h {
                EitherOutbound::A(x) => {
                    let ghost m0 = *m;
                    let ghost x0 = *x;
                    let ra = m.poll_outbound(x);
                    let r = tag_sub_first::<A::Substream, B::Substream>(ra);
                    proof {
                        lemma_keeps_substreams_first::<A, B>(m0, *m);
                        lemma_releases_outbound_first::<A, B>(m0, *m, x0);
                    }
                    r
                },
                EitherOutbound::B(_) => vstd::pervasive::unreached::<Poll<Option<Self::Substream>>>(),
            },
            EitherOutput::Second(m) => match h {
                EitherOutbound::B(x) => {
                    let ghost m0 = *m;
                    let ghost x0 = *x;
                    let rb = m.poll_outbound(x);
                    let r = tag_sub_second::<A::Substream, B::Substream>(rb);
                    proof {
                        lemma_keeps_substreams_second::<A, B>(m0, *m);
                        lemma_releases_outbound_second::<A, B>(m0, *m, x0);
                    }
                    r
                },
                EitherOutbound::A(_) => vstd::pervasive::unreached::<Poll<Option<Self::Substream>>>(),
            },
        }
    }

    fn destroy_outbound(&mut self, h: Self::OutboundSubstream) {
        match self {
            EitherOutput::First(m) => match h {
                EitherOutbound::A(x) => {
                    let ghost m0 = *m;
                    let ghost x0 = x;
                    m.destroy_outbound(x);
                    proof {
                        lemma_keeps_substreams_first::<A, B>(m0, *m);
                        lemma_releases_outbound_first::<A, B>(m0, *m, x0);
                    }
                },
                EitherOutbound::B(_) => vstd::pervasive::unreached::<()>(),
            },
            EitherOutput::Second(m) => match h {
                EitherOutbound::B(x) => {
                    let ghost m0 = *m;
                    let ghost x0 = x;
                    m.destroy_outbound(x);
                    proof {
                        lemma_keeps_substreams_second::<A, B>(m0, *m);
                        lemma_releases_outbound_second::<A, B>(m0, *m, x0);
                    }
                },
                EitherOutbound::A(_) => vstd::pervasive::unreached::<()>(),
            },
        }
    }

    fn read_substream(&mut self, s: &mut Self::Substream, buf: &mut [u8]) -> (r: Result<usize, std::io::Error>) {
        match self {
            EitherOutput::First(m) => match s {
                EitherOutput::First(x) => {
                    let ghost m0 = *m;
                    let r = m.read_substream(x, buf);
                    proof { lemma_keeps_first::<A, B>(m0, *m); }
                    r
                },
                EitherOutput::Second(_) => vstd::pervasive::unreached::<Result<usize, std::io::Error>>(),
            },
            EitherOutput::Second(m) => match s {
                EitherOutput::Second(x) => {
                    let ghost m0 = *m;
                    let r = m.read_substream(x, buf);
                    proof { lemma_keeps_second::<A, B>(m0, *m); }
                    r
                },
                EitherOutput::First(_) => vstd::pervasive::unreached::<Result<usize, std::io::Error>>(),
            },
        }
    }

    fn write_substream(&mut self, s: &mut Self::Substream, buf: &[u8]) -> (r: Result<usize, std::io::Error>) {
        match self {
            EitherOutput::First(m) => match s {
                EitherOutput::First(x) => {
                    let ghost m0 = *m;
                    let r = m.write_substream(x, buf);
                    proof { lemma_keeps_first::<A, B>(m0, *m); }
                    r
                },
                EitherOutput::Second(_) => vstd::pervasive::unreached::<Result<usize, std::io::Error>>(),
            },
            EitherOutput::Second(m) => match s {
                EitherOutput::Second(x) => {
                    let ghost m0 = *m;
                    let r = m.write_substream(x, buf);
                    proof { lemma_keeps_second::<A, B>(m0, *m); }
                    r
                },
                EitherOutput::First(_) => vstd::pervasive::unreached::<Result<usize, std::io::Error>>(),
            },
        }
    }

    fn flush_substream(&mut self, s: &mut Self::Substream) -> (r: Result<(), std::io::Error>) {
        match self {
            EitherOutput::First(m) => match s {
                EitherOutput::First(x) => {
                    let ghost m0 = *m;
                    let r = m.flush_substream(x);
                    proof { lemma_keeps_first::<A, B>(m0, *m); }
                    r
                },
                EitherOutput::Second(_) => vstd::pervasive::unreached::<Result<(), std::io::Error>>(),
            },
            EitherOutput::Second(m) => match s {
                EitherOutput::Second(x) => {
                    let ghost m0 = *m;
                    let r = m.flush_substream(x);
                    proof { lemma_keeps_second::<A, B>(m0, *m); }
                    r
                },
                EitherOutput::First(_) => vstd::pervasive::unreached::<Result<(), std::io::Error>>(),
            },
        }
    }

    fn shutdown_substream(&mut self, s: &mut Self::Substream) -> (r: Poll<()>) {
        match self {
            EitherOutput::First(m) => match s {
                EitherOutput::First(x) => {
                    let ghost m0 = *m;
                    let r = m.shutdown_substream(x);
                    proof { lemma_keeps_first::<A, B>(m0, *m); }
                    r
                },
                EitherOutput::Second(_) => vstd::pervasive::unreached::<Poll<()>>(),
            },
            EitherOutput::Second(m) => match s {
                EitherOutput::Second(x) => {
                    let ghost m0 = *m;
                    let r = m.shutdown_substream(x);
                    proof { lemma_keeps_second::<A, B>(m0, *m); }
                    r
                },
                EitherOutput::First(_) => vstd::pervasive::unreached::<Poll<()>>(),
            },
        }
    }

    fn destroy_substream(&mut self, s: Self::Substream) {
        match self {
            EitherOutput::First(m) => match s {
                EitherOutput::First(x) => {
                    let ghost m0 = *m;
                    let ghost x0 = x;
                    m.destroy_substream(x);
                    proof {
                        lemma_keeps_outbound_first::<A, B>(m0, *m);
                        lemma_releases_substream_first::<A, B>(m0, *m, x0);
                    }
                },
                EitherOutput::Second(_) => vstd::pervasive::unreached::<()>(),
            },
            EitherOutput::Second(m) => match s {
                EitherOutput::Second(x) => {
                    let ghost m0 = *m;
                    let ghost x0 = x;
                    m.destroy_substream(x);
                    proof {
                        lemma_keeps_outbound_second::<A, B>(m0, *m);
                        lemma_releases_substream_second::<A, B>(m0, *m, x0);
                    }
                },
                EitherOutput::First(_) => vstd::pervasive::unreached::<()>(),
            },
        }
    }

    fn close_inbound(&mut self) {
        match self {
            EitherOutput::First(m) => m.close_inbound(),
            EitherOutput::Second(m) => m.close_inbound(),
        }
    }

    fn close_outbound(&mut self) {
        match self {
            EitherOutput::First(m) => m.close_outbound(),
            EitherOutput::Second(m) => m.close_outbound(),
        }
    }
}

} // verus!
