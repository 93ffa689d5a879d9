//! Reading bytes without blocking.

use std::future::Future;
use std::pin::Pin;
use std::task::Context;
use std::task::Poll;
use vstd::prelude::*;

verus! {

/// `std::io::Error`, handed through from the reader or writer to the caller.
#[verifier::external_type_specification]
#[verifier::external_body]
pub struct ExIoError(std::io::Error);

/// `Pin::new`: pins a reference to a value that may be moved freely.
#[verifier::external_body]
pub(crate) fn pinned<'a, T: Unpin + ?Sized>(target: &'a mut T) -> Pin<&'a mut T> {
    Pin::new(target)
}

/// A source of bytes that can be read without blocking.
pub trait AsyncRead {
    /// Tries to read into `buf`. Returns the number of bytes read, or an error,
    /// or `Poll::Pending` once the waker of `cx` is set to be invoked when
    /// reading is worth another try.
    fn poll_read(self: Pin<&mut Self>, cx: &mut Context<'_>, buf: &mut [u8]) -> Poll<
        Result<usize, std::io::Error>,
    >;
}

/// The `read` method for every [`AsyncRead`].
pub trait AsyncReadExt {
    /// A future that reads into `buf` once.
    ///
    /// The future holds this reader and this buffer: it starts from what they
    /// hold now, and what it leaves in them is what the caller finds there.
    fn read<'a>(&'a mut self, buf: &'a mut [u8]) -> (read: Read<'a, Self>) where Self: Sized
        ensures
            *read.reader() == *old(self),
            *final(read.reader()) == *final(self),
            read.buf()@ == old(buf)@,
            final(read.buf())@ == final(buf)@,
    {
        Read { reader: self, buf }
    }
}

impl<T> AsyncReadExt for T where T: AsyncRead {

}

/// The future of one read.
pub struct Read<'a, T: ?Sized> {
    reader: &'a mut T,
    buf: &'a mut [u8],
}

impl<'a, T: ?Sized> Read<'a, T> {
    /// The reader that the future reads from.
    pub closed spec fn reader(self) -> &'a mut T {
        self.reader
    }

    /// The buffer that the future reads into.
    pub closed spec fn buf(self) -> &'a mut [u8] {
        self.buf
    }
}

/// `Pin::get_mut` on a pinned `Read`, which may be moved freely: its reader
/// and its buffer.
#[verifier::external_body]
fn read_parts<'a, 'b, T: ?Sized>(read: Pin<&'b mut Read<'a, T>>) -> (&'b mut T, &'b mut [u8]) {
    let this = Pin::get_mut(read);
    (&mut *this.reader, &mut *this.buf)
}

impl<'a, T> Future for Read<'a, T> where T: AsyncRead + Unpin + ?Sized {
    type Output = Result<usize, std::io::Error>;

    fn poll(self: Pin<&mut Self>, cx: &mut Context<'_>) -> Poll<Self::Output> {
        let (reader, buf) = read_parts(self);
        pinned(reader).poll_read(cx, buf)
    }
}

} // verus!
