//! Streams: items that arrive one after the other.

use crate::io::read::pinned;
use std::future::Future;
use std::marker::PhantomData;
use std::pin::Pin;
use std::task::Context;
use std::task::Poll;
use vstd::prelude::*;

verus! {

/// A source of items that can be asked for the next one without blocking.
pub trait Stream {
    type Item;

    /// Tries to take the next item. Returns it, or `None` at the end of the
    /// stream, or `Poll::Pending` once the waker of `cx` is set to be invoked
    /// when asking is worth another try.
    fn poll_next(self: Pin<&mut Self>, cx: &mut Context<'_>) -> Poll<Option<Self::Item>>;
}

/// The `next` method for every [`Stream`].
pub trait StreamExt {
    type Item;

    /// A future that takes the next item.
    ///
    /// The future holds this stream: it starts from what the stream holds
    /// now, and what it leaves in it is what the caller finds there.
    fn next<'a>(&'a mut self) -> (next: Next<'a, Self, Self::Item>) where Self: Sized
        ensures
            *next.stream() == *old(self),
            *final(next.stream()) == *final(self),
    {
        Next { stream: self, _phantom_data: PhantomData }
    }
}

impl<T, I> StreamExt for T where T: Stream<Item = I> {
    type Item = I;
}

/// The future of the next item.
pub struct Next<'a, S: ?Sized, I> {
    stream: &'a mut S,
    _phantom_data: PhantomData<Box<I>>,
}

impl<'a, S: ?Sized, I> Next<'a, S, I> {
    /// The stream that the future takes the item from.
    pub closed spec fn stream(self) -> &'a mut S {
        self.stream
    }
}

/// `Pin::get_mut` on a pinned `Next`, which may be moved freely: its stream.
#[verifier::external_body]
fn next_stream<'a, 'b, S: ?Sized, I>(next: Pin<&'b mut Next<'a, S, I>>) -> &'b mut S {
    let this = Pin::get_mut(next);
    &mut *this.stream
}

impl<'a, T, I> Future for Next<'a, T, I> where T: Stream<Item = I> + Unpin + ?Sized {
    type Output = Option<I>;

    fn poll(self: Pin<&mut Self>, cx: &mut Context<'_>) -> Poll<Self::Output> {
        let stream = next_stream(self);
        pinned(stream).poll_next(cx)
    }
}

} // verus!
