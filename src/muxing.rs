//! Multiplexing many logical substreams over one connection.
use vstd::prelude::*;
use crate::io::ByteSeq;
use crate::poll::Poll;

verus! {

/// Whether a poll outcome is the end of the sequence.
pub open spec fn is_end<S>(r: Poll<Option<S>>) -> bool {
    r is Ok && r->Ok_0 is Ready && r->Ok_0->Ready_0 is None
}

/// Whether a poll outcome yields a new substream.
pub open spec fn yields<S>(r: Poll<Option<S>>) -> bool {
    r is Ok && r->Ok_0 is Ready && r->Ok_0->Ready_0 is Some
}

/// The substream a poll outcome yields.
pub open spec fn yielded<S>(r: Poll<Option<S>>) -> S
    recommends
        yields(r),
{
    r->Ok_0->Ready_0->Some_0
}

/// Many bidirectional substreams multiplexed over one connection.
///
/// Every operation but a close keeps the two half-close flags. A request
/// stops being owned once it is released or has turned into a substream, a
/// substream once it is released; everything else the muxer owns stays
/// owned.
///
/// A substream or outbound request belongs to the muxer that produced it
/// (`owns_substream`, `owns_outbound`) and may only be used with it. Inbound
/// and outbound activity can be closed independently (`inbound_closed`,
/// `outbound_closed`) without touching the substreams already open.
///
/// Each `*_step` is the implementation's model of one call.
pub trait StreamMuxer: Sized {
    type Substream;
    type OutboundSubstream;

    spec fn inbound_closed(self) -> bool;

    spec fn outbound_closed(self) -> bool;

    spec fn owns_substream(self, s: Self::Substream) -> bool;

    spec fn owns_outbound(self, h: Self::OutboundSubstream) -> bool;

    spec fn inbound_step(self, next: Self, r: Poll<Option<Self::Substream>>) -> bool;

    spec fn open_step(self, next: Self, h: Self::OutboundSubstream) -> bool;

    spec fn outbound_step(
        self,
        next: Self,
        h0: Self::OutboundSubstream,
        h1: Self::OutboundSubstream,
        r: Poll<Option<Self::Substream>>,
    ) -> bool;

    spec fn destroy_outbound_step(self, next: Self, h: Self::OutboundSubstream) -> bool;

    spec fn read_step(
        self,
        next: Self,
        s0: Self::Substream,
        s1: Self::Substream,
        before: ByteSeq,
        after: ByteSeq,
        r: Result<usize, std::io::Error>,
    ) -> bool;

    spec fn write_step(
        self,
        next: Self,
        s0: Self::Substream,
        s1: Self::Substream,
        buf: ByteSeq,
        r: Result<usize, std::io::Error>,
    ) -> bool;

    spec fn flush_step(self, next: Self, s0: Self::Substream, s1: Self::Substream, r: Result<(), std::io::Error>) -> bool;

    spec fn shutdown_step(self, next: Self, s0: Self::Substream, s1: Self::Substream, r: Poll<()>) -> bool;

    spec fn destroy_substream_step(self, next: Self, s: Self::Substream) -> bool;

    /// The next substream opened by the remote; the end once the remote
    /// opens no more, and always once inbound activity is closed.
    fn poll_inbound(&mut self) -> (r: Poll<Option<Self::Substream>>)
        ensures
            Self::inbound_step(*old(self), *final(self), r),
            final(self).inbound_closed() == old(self).inbound_closed(),
            final(self).outbound_closed() == old(self).outbound_closed(),
            forall|x: Self::Substream| #[trigger] old(self).owns_substream(x) ==> final(self).owns_substream(x),
            forall|x: Self::OutboundSubstream| #[trigger] old(self).owns_outbound(x) ==> final(self).owns_outbound(x),
            old(self).inbound_closed() ==> is_end::<Self::Substream>(r),
            yields::<Self::Substream>(r) ==> final(self).owns_substream(yielded::<Self::Substream>(r)),
    ;

    /// A request for a new outbound substream, to be driven by
    /// `poll_outbound` or released by `destroy_outbound`.
    fn open_outbound(&mut self) -> (h: Self::OutboundSubstream)
        ensures
            Self::open_step(*old(self), *final(self), h),
            final(self).inbound_closed() == old(self).inbound_closed(),
            final(self).outbound_closed() == old(self).outbound_closed(),
            forall|x: Self::Substream| #[trigger] old(self).owns_substream(x) ==> final(self).owns_substream(x),
            forall|x: Self::OutboundSubstream| #[trigger] old(self).owns_outbound(x) ==> final(self).owns_outbound(x),
            final(self).owns_outbound(h),
    ;

    /// Drives an outbound request. Once it yields its substream the request
    /// is used up; until then it must be driven again or released. Once
    /// outbound activity is closed, no new substream comes out of it.
    fn poll_outbound(&mut self, h: &mut Self::OutboundSubstream) -> (r: Poll<Option<Self::Substream>>)
        requires
            old(self).owns_outbound(*old(h)),
        ensures
            Self::outbound_step(*old(self), *final(self), *old(h), *final(h), r),
            final(self).inbound_closed() == old(self).inbound_closed(),
            final(self).outbound_closed() == old(self).outbound_closed(),
            forall|x: Self::Substream| #[trigger] old(self).owns_substream(x) ==> final(self).owns_substream(x),
            forall|x: Self::OutboundSubstream| #[trigger] old(self).owns_outbound(x) && x != *old(h) ==> final(self).owns_outbound(x),
            yields::<Self::Substream>(r) ==> !final(self).owns_outbound(*final(h)),
            !yields::<Self::Substream>(r) ==> final(self).owns_outbound(*final(h)),
            old(self).outbound_closed() ==> !yields::<Self::Substream>(r),
            yields::<Self::Substream>(r) ==> final(self).owns_substream(yielded::<Self::Substream>(r)),
    ;

    /// Releases an outbound request that was not driven to a substream.
    fn destroy_outbound(&mut self, h: Self::OutboundSubstream)
        requires
            old(self).owns_outbound(h),
        ensures
            Self::destroy_outbound_step(*old(self), *final(self), h),
            final(self).inbound_closed() == old(self).inbound_closed(),
            final(self).outbound_closed() == old(self).outbound_closed(),
            forall|x: Self::Substream| #[trigger] old(self).owns_substream(x) ==> final(self).owns_substream(x),
            forall|x: Self::OutboundSubstream| #[trigger] old(self).owns_outbound(x) && x != h ==> final(self).owns_outbound(x),
            !final(self).owns_outbound(h),
    ;

    fn read_substream(&mut self, s: &mut Self::Substream, buf: &mut [u8]) -> (r: Result<usize, std::io::Error>)
        requires
            old(self).owns_substream(*old(s)),
        ensures
            Self::read_step(*old(self), *final(self), *old(s), *final(s), old(buf)@, final(buf)@, r),
            final(self).inbound_closed() == old(self).inbound_closed(),
            final(self).outbound_closed() == old(self).outbound_closed(),
            forall|x: Self::Substream| #[trigger] old(self).owns_substream(x) ==> final(self).owns_substream(x),
            forall|x: Self::OutboundSubstream| #[trigger] old(self).owns_outbound(x) ==> final(self).owns_outbound(x),
            final(self).owns_substream(*final(s)),
    ;

    fn write_substream(&mut self, s: &mut Self::Substream, buf: &[u8]) -> (r: Result<usize, std::io::Error>)
        requires
            old(self).owns_substream(*old(s)),
        ensures
            Self::write_step(*old(self), *final(self), *old(s), *final(s), buf@, r),
            final(self).inbound_closed() == old(self).inbound_closed(),
            final(self).outbound_closed() == old(self).outbound_closed(),
            forall|x: Self::Substream| #[trigger] old(self).owns_substream(x) ==> final(self).owns_substream(x),
            forall|x: Self::OutboundSubstream| #[trigger] old(self).owns_outbound(x) ==> final(self).owns_outbound(x),
            final(self).owns_substream(*final(s)),
    ;

    fn flush_substream(&mut self, s: &mut Self::Substream) -> (r: Result<(), std::io::Error>)
        requires
            old(self).owns_substream(*old(s)),
        ensures
            Self::flush_step(*old(self), *final(self), *old(s), *final(s), r),
            final(self).inbound_closed() == old(self).inbound_closed(),
            final(self).outbound_closed() == old(self).outbound_closed(),
            forall|x: Self::Substream| #[trigger] old(self).owns_substream(x) ==> final(self).owns_substream(x),
            forall|x: Self::OutboundSubstream| #[trigger] old(self).owns_outbound(x) ==> final(self).owns_outbound(x),
            final(self).owns_substream(*final(s)),
    ;

    /// Closes the writing side of a substream; polled until it is ready.
    fn shutdown_substream(&mut self, s: &mut Self::Substream) -> (r: Poll<()>)
        requires
            old(self).owns_substream(*old(s)),
        ensures
            Self::shutdown_step(*old(self), *final(self), *old(s), *final(s), r),
            final(self).inbound_closed() == old(self).inbound_closed(),
            final(self).outbound_closed() == old(self).outbound_closed(),
            forall|x: Self::Substream| #[trigger] old(self).owns_substream(x) ==> final(self).owns_substream(x),
            forall|x: Self::OutboundSubstream| #[trigger] old(self).owns_outbound(x) ==> final(self).owns_outbound(x),
            final(self).owns_substream(*final(s)),
    ;

    /// Releases a substream once both sides are done with it.
    fn destroy_substream(&mut self, s: Self::Substream)
        requires
            old(self).owns_substream(s),
        ensures
            Self::destroy_substream_step(*old(self), *final(self), s),
            final(self).inbound_closed() == old(self).inbound_closed(),
            final(self).outbound_closed() == old(self).outbound_closed(),
            forall|x: Self::Substream| #[trigger] old(self).owns_substream(x) && x != s ==> final(self).owns_substream(x),
            !final(self).owns_substream(s),
            forall|x: Self::OutboundSubstream| #[trigger] old(self).owns_outbound(x) ==> final(self).owns_outbound(x),
    ;

    /// Stops offering new inbound substreams; outbound activity and open
    /// substreams are untouched.
    fn close_inbound(&mut self)
        ensures
            final(self).inbound_closed(),
            final(self).outbound_closed() == old(self).outbound_closed(),
            forall|s: Self::Substream| #[trigger] old(self).owns_substream(s) ==> final(self).owns_substream(s),
            forall|h: Self::OutboundSubstream| #[trigger] old(self).owns_outbound(h) ==> final(self).owns_outbound(h),
    ;

    /// Stops allowing new outbound substreams; inbound activity and open
    /// substreams are untouched.
    fn close_outbound(&mut self)
        ensures
            final(self).outbound_closed(),
            final(self).inbound_closed() == old(self).inbound_closed(),
            forall|s: Self::Substream| #[trigger] old(self).owns_substream(s) ==> final(self).owns_substream(s),
            forall|h: Self::OutboundSubstream| #[trigger] old(self).owns_outbound(h) ==> final(self).owns_outbound(h),
    ;
}

} // verus!
