//! Writing bytes without blocking.

use crate::io::read::pinned;
use std::future::Future;
use std::pin::Pin;
use std::task::Context;
use std::task::Poll;
use vstd::prelude::*;

verus! {

/// A sink of bytes that can be written to without blocking.
pub trait AsyncWrite {
    /// Tries to write `buf`. Returns the number of bytes written, or an error,
    /// or `Poll::Pending` once the waker of `cx` is set to be invoked when
    /// writing is worth another try.
    fn poll_write(self: Pin<&mut Self>, cx: &mut Context<'_>, buf: &[u8]) -> Poll<
        Result<usize, std::io::Error>,
    >;
}

/// The `write` method for every [`AsyncWrite`].
pub trait AsyncWriteExt {
    /// A future that writes `buf` once.
    ///
    /// The future holds this writer and these bytes: it starts from what the
    /// writer holds now, and what it leaves in it is what the caller finds
    /// there.
    fn write<'a>(&'a mut self, buf: &'a [u8]) -> (write: Write<'a, Self>) where Self: Sized
        ensures
            *write.writer() == *old(self),
            *final(write.writer()) == *final(self),
            write.buf()@ == buf@,
    {
        Write { writer: self, buf }
    }
}

impl<T> AsyncWriteExt for T where T: AsyncWrite {

}

/// The future of one write.
pub struct Write<'a, T: ?Sized> {
    writer: &'a mut T,
    buf: &'a [u8],
}

impl<'a, T: ?Sized> Write<'a, T> {
    /// The writer that the future writes to.
    pub closed spec fn writer(self) -> &'a mut T {
        self.writer
    }

    /// The bytes that the future writes.
    pub closed spec fn buf(self) -> &'a [u8] {
        self.buf
    }
}

/// `Pin::get_mut` on a pinned `Write`, which may be moved freely: its writer
/// and its buffer.
#[verifier::external_body]
fn write_parts<'a, 'b, T: ?Sized>(write: Pin<&'b mut Write<'a, T>>) -> (&'b mut T, &'b [u8]) {
    let this = Pin::get_mut(write);
    (&mut *this.writer, this.buf)
}

impl<'a, T> Future for Write<'a, T> where T: AsyncWrite + Unpin + ?Sized {
    type Output = Result<usize, std::io::Error>;

    fn poll(self: Pin<&mut Self>, cx: &mut Context<'_>) -> Poll<Self::Output> {
        let (writer, buf) = write_parts(self);
        pinned(writer).poll_write(cx, buf)
    }
}

} // verus!
