//! Non-blocking byte streams.
use vstd::prelude::*;
use crate::poll::Poll;

verus! {

/// The contents of a byte buffer, as the models of reads and writes see it.
pub type ByteSeq = Seq<u8>;

/// A byte source read without blocking; a read that cannot proceed yet
/// reports a would-block failure.
///
/// Each `*_step` is the implementation's model of one call: the state before
/// and after, the buffer before and after, and what the call returned.
pub trait AsyncRead: Sized {
    spec fn prepare_step(self, before: ByteSeq, after: ByteSeq, r: bool) -> bool;

    spec fn read_step(self, next: Self, before: ByteSeq, after: ByteSeq, r: Result<usize, std::io::Error>) -> bool;

    /// Prepares `buf` to be read into; `true` when the reader requires it
    /// to be initialized.
    fn prepare_uninitialized_buffer(&self, buf: &mut [u8]) -> (r: bool)
        ensures
            Self::prepare_step(*self, old(buf)@, final(buf)@, r),
    ;

    /// Reads into `buf`; on success, the number of bytes read.
    fn read(&mut self, buf: &mut [u8]) -> (r: Result<usize, std::io::Error>)
        ensures
            Self::read_step(*old(self), *final(self), old(buf)@, final(buf)@, r),
    ;
}

/// A byte sink written without blocking, that can be half-closed.
pub trait AsyncWrite: Sized {
    spec fn write_step(self, next: Self, buf: ByteSeq, r: Result<usize, std::io::Error>) -> bool;

    spec fn flush_step(self, next: Self, r: Result<(), std::io::Error>) -> bool;

    spec fn shutdown_step(self, next: Self, r: Poll<()>) -> bool;

    /// Writes from `buf`; on success, the number of bytes written.
    fn write(&mut self, buf: &[u8]) -> (r: Result<usize, std::io::Error>)
        ensures
            Self::write_step(*old(self), *final(self), buf@, r),
    ;

    fn flush(&mut self) -> (r: Result<(), std::io::Error>)
        ensures
            Self::flush_step(*old(self), *final(self), r),
    ;

    /// Closes the writing side; polled until it is ready.
    fn shutdown(&mut self) -> (r: Poll<()>)
        ensures
            Self::shutdown_step(*old(self), *final(self), r),
    ;
}

} // verus!
