//! Poll-driven asynchronous values: the readiness type, futures and streams.
use vstd::prelude::*;
use multiaddr::Multiaddr;

verus! {

/// An I/O failure reported by a connection, a listener or an upgrade.
#[verifier::external_type_specification]
#[verifier::external_body]
pub struct ExIoError(std::io::Error);

/// Outcome of a non-blocking check: a value is ready, or the caller must poll
/// again after being woken.
#[derive(Debug, Clone, Copy, PartialEq, Eq)]
pub enum Async<T> {
    Ready(T),
    NotReady,
}

/// What one poll returns: readiness, or an I/O failure.
pub type Poll<T> = Result<Async<T>, std::io::Error>;

/// A value that becomes available after repeated non-blocking polls.
///
/// `poll_step(before, after, r)` is the implementation's model of one poll:
/// the state it started from, the state it left, and what it reported.
pub trait PollFuture: Sized {
    type Item;

    spec fn poll_step(self, next: Self, r: Poll<Self::Item>) -> bool;

    fn poll(&mut self) -> (r: Poll<Self::Item>)
        ensures
            Self::poll_step(*old(self), *final(self), r),
    ;
}

/// The lazy, restartable sequence of incoming connections of a listener:
/// each item is a future of the connection and the remote address;
/// `Ready(None)` marks the end.
pub trait ListenerStream: Sized {
    /// Resolves to one incoming connection.
    type Upgrade;

    spec fn poll_step(self, next: Self, r: Poll<Option<(Self::Upgrade, Multiaddr)>>) -> bool;

    fn poll(&mut self) -> (r: Poll<Option<(Self::Upgrade, Multiaddr)>>)
        ensures
            Self::poll_step(*old(self), *final(self), r),
    ;
}

} // verus!
