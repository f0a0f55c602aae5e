//! The small tasks that protocols are built from.
use vstd::prelude::*;

use core::marker::PhantomData;

use crate::{Channel, Poll, Task};

verus! {

/// A task that holds its result from the start and hands it out at the
/// first poll.
pub struct Ready<T>(pub Option<T>);

impl<T> Ready<T> {
    /// A task that resolves to `value`.
    pub fn new(value: T) -> (r: Self)
        ensures
            r == Ready(Some(value)),
    {
        Ready(Some(value))
    }
}

impl<C: View, T> Task<C> for Ready<T> {
    type Output = T;

    open spec fn unresolved(self) -> bool {
        self.0 is Some
    }

    open spec fn polled(self, ctx: C::V) -> (Self, C::V, Poll<T>) {
        match self.0 {
            Some(value) => (Ready(None), ctx, Poll::Ready(value)),
            None => (self, ctx, Poll::Pending),
        }
    }

    fn poll(&mut self, ctx: &mut C) -> (r: Poll<T>) {
        match self.0.take() {
            Some(value) => Poll::Ready(value),
            None => Poll::Pending,
        }
    }

    /// Nothing is held in the context.
    open spec fn cancelled(self, ctx: C::V) -> C::V {
        ctx
    }

    fn cancel(self, ctx: &mut C) {
    }
}

/// Sends one item into a channel and closes the channel's outbound side:
/// it waits until the channel is ready, hands the item over, then closes.
pub struct Forward<Ch, T, U> {
    pub channel: Ch,
    /// The item, until it has been handed over.
    pub item: Option<U>,
    /// True once the channel has been closed or has failed.
    pub done: bool,
    pub marker: PhantomData<T>,
}

impl<Ch, T, U> Forward<Ch, T, U> {
    /// The task that sends `item` into `channel`.
    pub fn new(item: U, channel: Ch) -> (r: Self)
        ensures
            r == Self::once(item, channel),
    {
        Forward { channel, item: Some(item), done: false, marker: PhantomData }
    }

    pub open spec fn once(item: U, channel: Ch) -> Self {
        Forward { channel, item: Some(item), done: false, marker: PhantomData }
    }

    /// The task that sends nothing into `channel` and closes it.
    pub fn end(channel: Ch) -> (r: Self)
        ensures
            r == Self::ending(channel),
    {
        Forward { channel, item: None, done: false, marker: PhantomData }
    }

    pub open spec fn ending(channel: Ch) -> Self {
        Forward { channel, item: None, done: false, marker: PhantomData }
    }
}

impl<Ch, T, U> Forward<Ch, T, U> {
    /// The closing step: the task resolves as soon as the channel has
    /// closed.
    pub open spec fn closing<S: View>(self, ctx: S::V) -> (Self, S::V, Poll<Result<(), Ch::Error>>)
        where Ch: Channel<T, U, S>
    {
        let step = self.channel.closed(ctx);
        match step.2 {
            Poll::Ready(r) => (
                Forward { channel: step.0, item: None, done: true, marker: self.marker },
                step.1,
                Poll::Ready(r),
            ),
            Poll::Pending => (
                Forward { channel: step.0, item: None, done: false, marker: self.marker },
                step.1,
                Poll::Pending,
            ),
        }
    }

    fn close<S: View>(&mut self, ctx: &mut S) -> (r: Poll<Result<(), Ch::Error>>)
        where Ch: Channel<T, U, S>
        requires
            old(self).item is None,
        ensures
            (*final(self), final(ctx)@, r) == old(self).closing::<S>(old(ctx)@),
    {
        match self.channel.poll_close(ctx) {
            Poll::Ready(r) => {
                self.done = true;
                Poll::Ready(r)
            },
            Poll::Pending => {
                self.done = false;
                Poll::Pending
            },
        }
    }
}

impl<S: View, T, U, Ch: Channel<T, U, S>> Task<S> for Forward<Ch, T, U> {
    type Output = Result<(), Ch::Error>;

    open spec fn unresolved(self) -> bool {
        !self.done
    }

    open spec fn polled(self, ctx: S::V) -> (Self, S::V, Poll<Self::Output>) {
        match self.item {
            Some(item) => {
                let ready = self.channel.ready(ctx);
                match ready.2 {
                    Poll::Pending => (
                        Forward { channel: ready.0, item: self.item, done: false, marker: self.marker },
                        ready.1,
                        Poll::Pending,
                    ),
                    Poll::Ready(Err(e)) => (
                        Forward { channel: ready.0, item: None, done: true, marker: self.marker },
                        ready.1,
                        Poll::Ready(Err(e)),
                    ),
                    Poll::Ready(Ok(())) => {
                        let sent = ready.0.sent(ready.1, item);
                        match sent.2 {
                            Err(e) => (
                                Forward { channel: sent.0, item: None, done: true, marker: self.marker },
                                sent.1,
                                Poll::Ready(Err(e)),
                            ),
                            Ok(()) => (Forward {
                                channel: sent.0,
                                item: None,
                                done: false,
                                marker: self.marker,
                            }).closing::<S>(sent.1),
                        }
                    },
                }
            },
            None => self.closing::<S>(ctx),
        }
    }

    fn poll(&mut self, ctx: &mut S) -> (r: Poll<Self::Output>) {
        if self.item.is_some() {
            match self.channel.poll_ready(ctx) {
                Poll::Pending => {
                    return Poll::Pending;
                },
                Poll::Ready(Err(e)) => {
                    self.item = None;
                    self.done = true;
                    return Poll::Ready(Err(e));
                },
                Poll::Ready(Ok(())) => {},
            }
            let item = self.item.take().unwrap();
            match self.channel.start_send(ctx, item) {
                Err(e) => {
                    self.done = true;
                    return Poll::Ready(Err(e));
                },
                Ok(()) => {},
            }
        }
        self.close(ctx)
    }

    /// Nothing is held in the context.
    open spec fn cancelled(self, ctx: S::V) -> S::V {
        ctx
    }

    fn cancel(self, ctx: &mut S) {
    }
}

/// Sends one item into a channel and hands the channel back: it waits
/// until the channel is ready and hands the item over. The channel stays
/// open.
pub struct Send<Ch, T, U> {
    /// The channel, until it is handed back.
    pub channel: Option<Ch>,
    /// The item, until it has been handed over.
    pub item: Option<U>,
    pub marker: PhantomData<T>,
}

impl<Ch, T, U> Send<Ch, T, U> {
    /// The task that sends `item` into `channel`.
    pub fn new(item: U, channel: Ch) -> (r: Self)
        ensures
            r == Self::of(item, channel),
    {
        Send { channel: Some(channel), item: Some(item), marker: PhantomData }
    }

    pub open spec fn of(item: U, channel: Ch) -> Self {
        Send { channel: Some(channel), item: Some(item), marker: PhantomData }
    }
}

impl<S: View, T, U, Ch: Channel<T, U, S>> Task<S> for Send<Ch, T, U> {
    type Output = Result<Ch, Ch::Error>;

    open spec fn unresolved(self) -> bool {
        self.channel is Some && self.item is Some
    }

    open spec fn polled(self, ctx: S::V) -> (Self, S::V, Poll<Self::Output>) {
        match (self.channel, self.item) {
            (Some(channel), Some(item)) => {
                let ready = channel.ready(ctx);
                match ready.2 {
                    Poll::Pending => (
                        Send { channel: Some(ready.0), item: Some(item), marker: self.marker },
                        ready.1,
                        Poll::Pending,
                    ),
                    Poll::Ready(Err(e)) => (
                        Send { channel: Some(ready.0), item: Some(item), marker: self.marker },
                        ready.1,
                        Poll::Ready(Err(e)),
                    ),
                    Poll::Ready(Ok(())) => {
                        let sent = ready.0.sent(ready.1, item);
                        match sent.2 {
                            Err(e) => (
                                Send { channel: None, item: None, marker: self.marker },
                                sent.1,
                                Poll::Ready(Err(e)),
                            ),
                            Ok(()) => (
                                Send { channel: None, item: None, marker: self.marker },
                                sent.1,
                                Poll::Ready(Ok(sent.0)),
                            ),
                        }
                    },
                }
            },
            _ => (self, ctx, Poll::Pending),
        }
    }

    fn poll(&mut self, ctx: &mut S) -> (r: Poll<Self::Output>) {
        let ready = match &mut self.channel {
            Some(channel) => channel.poll_ready(ctx),
            None => Poll::Pending,
        };
        match ready {
            Poll::Pending => {
                return Poll::Pending;
            },
            Poll::Ready(Err(e)) => {
                return Poll::Ready(Err(e));
            },
            Poll::Ready(Ok(())) => {},
        }
        let mut channel = self.channel.take().unwrap();
        let item = self.item.take().unwrap();
        match channel.start_send(ctx, item) {
            Err(e) => Poll::Ready(Err(e)),
            Ok(()) => Poll::Ready(Ok(channel)),
        }
    }

    /// Nothing is held in the context.
    open spec fn cancelled(self, ctx: S::V) -> S::V {
        ctx
    }

    fn cancel(self, ctx: &mut S) {
    }
}

/// Waits for the next item of a channel and hands it out together with the
/// channel: `None` when the stream has ended.
pub struct StreamFuture<Ch, T, U> {
    /// The channel, until the task has resolved.
    pub channel: Option<Ch>,
    pub marker: PhantomData<(T, U)>,
}

impl<Ch, T, U> StreamFuture<Ch, T, U> {
    /// The task that waits for the next item of `channel`.
    pub fn new(channel: Ch) -> (r: Self)
        ensures
            r == Self::of(channel),
    {
        StreamFuture { channel: Some(channel), marker: PhantomData }
    }

    pub open spec fn of(channel: Ch) -> Self {
        StreamFuture { channel: Some(channel), marker: PhantomData }
    }
}

impl<S: View, T, U, Ch: Channel<T, U, S>> Task<S> for StreamFuture<Ch, T, U> {
    type Output = (Option<T>, Ch);

    open spec fn unresolved(self) -> bool {
        self.channel is Some
    }

    open spec fn polled(self, ctx: S::V) -> (Self, S::V, Poll<Self::Output>) {
        match self.channel {
            Some(channel) => {
                let step = channel.next(ctx);
                match step.2 {
                    Poll::Ready(item) => (
                        StreamFuture { channel: None, marker: self.marker },
                        step.1,
                        Poll::Ready((item, step.0)),
                    ),
                    Poll::Pending => (
                        StreamFuture { channel: Some(step.0), marker: self.marker },
                        step.1,
                        Poll::Pending,
                    ),
                }
            },
            None => (self, ctx, Poll::Pending),
        }
    }

    fn poll(&mut self, ctx: &mut S) -> (r: Poll<Self::Output>) {
        let mut channel = self.channel.take().unwrap();
        match channel.poll_next(ctx) {
            Poll::Ready(item) => Poll::Ready((item, channel)),
            Poll::Pending => {
                self.channel = Some(channel);
                Poll::Pending
            },
        }
    }

    /// Nothing is held in the context.
    open spec fn cancelled(self, ctx: S::V) -> S::V {
        ctx
    }

    fn cancel(self, ctx: &mut S) {
    }
}

/// One of two tasks with the same result.
pub enum Either<A, B> {
    Left(A),
    Right(B),
}

impl<C: View, T, A: Task<C, Output = T>, B: Task<C, Output = T>> Task<C> for Either<A, B> {
    type Output = T;

    open spec fn unresolved(self) -> bool {
        match self {
            Either::Left(task) => task.unresolved(),
            Either::Right(task) => task.unresolved(),
        }
    }

    open spec fn polled(self, ctx: C::V) -> (Self, C::V, Poll<T>) {
        match self {
            Either::Left(task) => {
                let step = task.polled(ctx);
                (Either::Left(step.0), step.1, step.2)
            },
            Either::Right(task) => {
                let step = task.polled(ctx);
                (Either::Right(step.0), step.1, step.2)
            },
        }
    }

    fn poll(&mut self, ctx: &mut C) -> (r: Poll<T>) {
        match self {
            Either::Left(task) => task.poll(ctx),
            Either::Right(task) => task.poll(ctx),
        }
    }

    open spec fn cancelled(self, ctx: C::V) -> C::V {
        match self {
            Either::Left(task) => task.cancelled(ctx),
            Either::Right(task) => task.cancelled(ctx),
        }
    }

    fn cancel(self, ctx: &mut C) {
        match self {
            Either::Left(task) => task.cancel(ctx),
            Either::Right(task) => task.cancel(ctx),
        }
    }
}

} // verus!
