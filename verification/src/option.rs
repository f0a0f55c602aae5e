//! The protocol of `Option`: `Some` spawns its content and sends the handle,
//! `None` sends nothing.
use vstd::prelude::*;

use crate::future::{Either, Forward, Ready, StreamFuture};
use crate::{Bottom, Channel, Channels, ContextError, Dispatch, Join, Pass, Poll, Protocol, Spawn, Task};

verus! {

/// An error of unraveling an `Option`: the content could not be spawned, or
/// its handle could not be sent.
pub enum Error<Unravel, Send> {
    Unravel(Unravel),
    Send(Send),
}

/// An error of rebuilding an `Option`: the item on its channel could not be
/// read as a handle, or what the handle names could not be joined.
pub enum Incomplete<Join> {
    Corrupt,
    Join(Join),
}

/// Rebuilding an `Option`: first the wait for a handle, then the join of
/// what the handle names.
pub enum Coalesce<
    C: Channels<<C as Dispatch>::Handle, Bottom> + Pass<T, F>,
    T: Protocol<<C as Spawn<T, F>>::Target, F> + Protocol<<C as Join<T, F>>::Target, F>,
    F,
> {
    Next(StreamFuture<<C as Channels<<C as Dispatch>::Handle, Bottom>>::Coalesce, <C as Dispatch>::Handle, Bottom>),
    Join(<C as Join<T, F>>::Output),
}

/// Sending an `Option` that holds something: first the spawn of the
/// content, then the sending of its handle. The channel waits in the first
/// stage and is moved into the second.
pub enum Unravel<
    C: Pass<T, F> + Channels<<C as Dispatch>::Handle, Bottom>,
    T: Protocol<<C as Spawn<T, F>>::Target, F> + Protocol<<C as Join<T, F>>::Target, F>,
    F,
> {
    Spawn(Option<<C as Channels<<C as Dispatch>::Handle, Bottom>>::Unravel>, <C as Spawn<T, F>>::Output),
    Send(Forward<<C as Channels<<C as Dispatch>::Handle, Bottom>>::Unravel, Bottom, <C as Dispatch>::Handle>),
}

impl<
    F,
    C: Pass<T, F> + Channels<<C as Dispatch>::Handle, Bottom>,
    T: Protocol<<C as Spawn<T, F>>::Target, F> + Protocol<<C as Join<T, F>>::Target, F>,
> Coalesce<C, T, F> {
    /// The first stage: the wait for a handle on `channel`.
    pub fn new(channel: <C as Channels<<C as Dispatch>::Handle, Bottom>>::Coalesce) -> (r: Self)
        ensures
            r == Self::start(channel),
    {
        Coalesce::Next(StreamFuture::new(channel))
    }

    pub open spec fn start(
        channel: <C as Channels<<C as Dispatch>::Handle, Bottom>>::Coalesce,
    ) -> Self {
        Coalesce::Next(StreamFuture::of(channel))
    }

    /// The second stage: `Some` of what the join gives, once it gives it.
    pub open spec fn joined(join: <C as Join<T, F>>::Output, ctx: C::V) -> (
        Self,
        C::V,
        Poll<
            Result<
                Option<T>,
                Incomplete<
                    ContextError<<C as Join<T, F>>::Error, <T as Protocol<<C as Join<T, F>>::Target, F>>::CoalesceError>,
                >,
            >,
        >,
    ) {
        let step = join.polled(ctx);
        (
            Coalesce::Join(step.0),
            step.1,
            match step.2 {
                Poll::Ready(Ok(item)) => Poll::Ready(Ok(Some(item))),
                Poll::Ready(Err(e)) => Poll::Ready(Err(Incomplete::Join(e))),
                Poll::Pending => Poll::Pending,
            },
        )
    }
}

impl<
    F,
    C: Pass<T, F> + Channels<<C as Dispatch>::Handle, Bottom>,
    T: Protocol<<C as Spawn<T, F>>::Target, F> + Protocol<<C as Join<T, F>>::Target, F>,
> Task<C> for Coalesce<C, T, F> {
    type Output = Result<
        Option<T>,
        Incomplete<
            ContextError<<C as Join<T, F>>::Error, <T as Protocol<<C as Join<T, F>>::Target, F>>::CoalesceError>,
        >,
    >;

    open spec fn unresolved(self) -> bool {
        match self {
            Coalesce::Next(next) => next.unresolved(),
            Coalesce::Join(join) => join.unresolved(),
        }
    }

    open spec fn polled(self, ctx: C::V) -> (Self, C::V, Poll<Self::Output>) {
        match self {
            Coalesce::Next(next) => {
                let step = next.polled(ctx);
                match step.2 {
                    Poll::Pending => (Coalesce::Next(step.0), step.1, Poll::Pending),
                    Poll::Ready((None, channel)) => (
                        Coalesce::Next(step.0),
                        step.1,
                        if channel.broken(step.1) {
                            Poll::Ready(Err(Incomplete::Corrupt))
                        } else {
                            Poll::Ready(Ok(None))
                        },
                    ),
                    Poll::Ready((Some(handle), _)) => {
                        let join = <C as Join<T, F>>::joining(step.1, handle);
                        Self::joined(join.0, join.1)
                    },
                }
            },
            Coalesce::Join(join) => Self::joined(join, ctx),
        }
    }

    fn poll(&mut self, ctx: &mut C) -> (r: Poll<Self::Output>) {
        if let Coalesce::Next(next) = self {
            let handle = match next.poll(ctx) {
                Poll::Pending => {
                    return Poll::Pending;
                },
                Poll::Ready((None, channel)) => {
                    if channel.is_broken(ctx) {
                        return Poll::Ready(Err(Incomplete::Corrupt));
                    }
                    return Poll::Ready(Ok(None));
                },
                Poll::Ready((Some(handle), _)) => handle,
            };
            let join = <C as Join<T, F>>::join(ctx, handle);
            *self = Coalesce::Join(join);
        }
        match self {
            Coalesce::Join(join) => match join.poll(ctx) {
                Poll::Ready(Ok(item)) => Poll::Ready(Ok(Some(item))),
                Poll::Ready(Err(e)) => Poll::Ready(Err(Incomplete::Join(e))),
                Poll::Pending => Poll::Pending,
            },
            Coalesce::Next(_) => Poll::Pending,
        }
    }

    /// A join in progress is given up with the task.
    open spec fn cancelled(self, ctx: C::V) -> C::V {
        match self {
            Coalesce::Next(_) => ctx,
            Coalesce::Join(join) => join.cancelled(ctx),
        }
    }

    fn cancel(self, ctx: &mut C) {
        match self {
            Coalesce::Next(_) => {},
            Coalesce::Join(join) => join.cancel(ctx),
        }
    }
}

impl<
    F,
    C: Pass<T, F> + Channels<<C as Dispatch>::Handle, Bottom>,
    T: Protocol<<C as Spawn<T, F>>::Target, F> + Protocol<<C as Join<T, F>>::Target, F>,
> Unravel<C, T, F> {
    /// The first stage: `item` is spawned in `ctx`, and `channel` waits for
    /// the handle.
    pub fn new(
        channel: <C as Channels<<C as Dispatch>::Handle, Bottom>>::Unravel,
        item: T,
        ctx: &mut C,
    ) -> (r: Self)
        ensures
            (r, final(ctx)@) == Self::start(channel, item, old(ctx)@),
            r.unresolved(),
    {
        let spawn = <C as Spawn<T, F>>::spawn(ctx, item);
        Unravel::Spawn(Some(channel), spawn)
    }

    pub open spec fn start(
        channel: <C as Channels<<C as Dispatch>::Handle, Bottom>>::Unravel,
        item: T,
        ctx: C::V,
    ) -> (Self, C::V) {
        let spawn = <C as Spawn<T, F>>::spawning(ctx, item);
        (Unravel::Spawn(Some(channel), spawn.0), spawn.1)
    }

    /// The second stage: done once the handle has been sent and the channel
    /// closed.
    pub open spec fn sending(
        send: Forward<<C as Channels<<C as Dispatch>::Handle, Bottom>>::Unravel, Bottom, <C as Dispatch>::Handle>,
        ctx: C::V,
    ) -> (
        Self,
        C::V,
        Poll<
            Result<
                (),
                Error<
                    ContextError<<C as Spawn<T, F>>::Error, <T as Protocol<<C as Spawn<T, F>>::Target, F>>::UnravelError>,
                    <<C as Channels<<C as Dispatch>::Handle, Bottom>>::Unravel as Channel<Bottom, <C as Dispatch>::Handle, C>>::Error,
                >,
            >,
        >,
    ) {
        let step = send.polled(ctx);
        (
            Unravel::Send(step.0),
            step.1,
            match step.2 {
                Poll::Ready(Ok(())) => Poll::Ready(Ok(())),
                Poll::Ready(Err(e)) => Poll::Ready(Err(Error::Send(e))),
                Poll::Pending => Poll::Pending,
            },
        )
    }
}

impl<
    F,
    C: Pass<T, F> + Channels<<C as Dispatch>::Handle, Bottom>,
    T: Protocol<<C as Spawn<T, F>>::Target, F> + Protocol<<C as Join<T, F>>::Target, F>,
> Task<C> for Unravel<C, T, F> {
    type Output = Result<
        (),
        Error<
            ContextError<<C as Spawn<T, F>>::Error, <T as Protocol<<C as Spawn<T, F>>::Target, F>>::UnravelError>,
            <<C as Channels<<C as Dispatch>::Handle, Bottom>>::Unravel as Channel<Bottom, <C as Dispatch>::Handle, C>>::Error,
        >,
    >;

    /// The spawn stage counts only while it still holds its channel.
    open spec fn unresolved(self) -> bool {
        match self {
            Unravel::Spawn(channel, spawn) => channel is Some && spawn.unresolved(),
            Unravel::Send(send) => send.unresolved(),
        }
    }

    open spec fn polled(self, ctx: C::V) -> (Self, C::V, Poll<Self::Output>) {
        match self {
            Unravel::Spawn(channel, spawn) => {
                let step = spawn.polled(ctx);
                match step.2 {
                    Poll::Pending => (Unravel::Spawn(channel, step.0), step.1, Poll::Pending),
                    Poll::Ready(Err(e)) => (
                        Unravel::Spawn(channel, step.0),
                        step.1,
                        Poll::Ready(Err(Error::Unravel(e))),
                    ),
                    Poll::Ready(Ok(handle)) => match channel {
                        Some(channel) => Self::sending(Forward::once(handle, channel), step.1),
                        None => (Unravel::Spawn(channel, step.0), step.1, Poll::Pending),
                    },
                }
            },
            Unravel::Send(send) => Self::sending(send, ctx),
        }
    }

    fn poll(&mut self, ctx: &mut C) -> (r: Poll<Self::Output>) {
        if let Unravel::Spawn(channel, spawn) = self {
            let handle = match spawn.poll(ctx) {
                Poll::Pending => {
                    return Poll::Pending;
                },
                Poll::Ready(Err(e)) => {
                    return Poll::Ready(Err(Error::Unravel(e)));
                },
                Poll::Ready(Ok(handle)) => handle,
            };
            let channel = channel.take().unwrap();
            *self = Unravel::Send(Forward::new(handle, channel));
        }
        match self {
            Unravel::Send(send) => match send.poll(ctx) {
                Poll::Ready(Ok(())) => Poll::Ready(Ok(())),
                Poll::Ready(Err(e)) => Poll::Ready(Err(Error::Send(e))),
                Poll::Pending => Poll::Pending,
            },
            Unravel::Spawn(_, _) => Poll::Pending,
        }
    }

    /// A spawn in progress is given up with the task.
    open spec fn cancelled(self, ctx: C::V) -> C::V {
        match self {
            Unravel::Spawn(_, spawn) => spawn.cancelled(ctx),
            Unravel::Send(_) => ctx,
        }
    }

    fn cancel(self, ctx: &mut C) {
        match self {
            Unravel::Spawn(_, spawn) => spawn.cancel(ctx),
            Unravel::Send(_) => {},
        }
    }
}

impl<
    F,
    C: Pass<T, F> + Channels<<C as Dispatch>::Handle, Bottom>,
    T: Protocol<<C as Spawn<T, F>>::Target, F> + Protocol<<C as Join<T, F>>::Target, F>,
> Protocol<C, F> for Option<T> {
    type Unravel = <C as Dispatch>::Handle;

    type UnravelError = Error<
        ContextError<<C as Spawn<T, F>>::Error, <T as Protocol<<C as Spawn<T, F>>::Target, F>>::UnravelError>,
        <<C as Channels<<C as Dispatch>::Handle, Bottom>>::Unravel as Channel<Bottom, <C as Dispatch>::Handle, C>>::Error,
    >;

    type UnravelFuture = Either<Unravel<C, T, F>, Ready<Result<(), Self::UnravelError>>>;

    type Coalesce = Bottom;

    type CoalesceError = Incomplete<
        ContextError<
            <C as Join<T, F>>::Error,
            <T as Protocol<<C as Join<T, F>>::Target, F>>::CoalesceError,
        >,
    >;

    type CoalesceFuture = Coalesce<C, T, F>;

    open spec fn unraveling(
        self,
        channel: <C as Channels<<C as Dispatch>::Handle, Bottom>>::Unravel,
        ctx: C::V,
    ) -> (Self::UnravelFuture, C::V) {
        match self {
            Some(item) => {
                let start = Unravel::<C, T, F>::start(channel, item, ctx);
                (Either::Left(start.0), start.1)
            },
            None => (Either::Right(Ready(Some(Ok(())))), ctx),
        }
    }

    fn unravel(
        self,
        channel: <C as Channels<<C as Dispatch>::Handle, Bottom>>::Unravel,
        ctx: &mut C,
    ) -> (r: Self::UnravelFuture) {
        if let Some(item) = self {
            let task = Unravel::new(channel, item, ctx);
            assert(task.unresolved());
            let r: Self::UnravelFuture = Either::Left(task);
            assert(r.unresolved());
            r
        } else {
            Either::Right(Ready::new(Ok(())))
        }
    }

    open spec fn coalescing(
        channel: <C as Channels<<C as Dispatch>::Handle, Bottom>>::Coalesce,
        ctx: C::V,
    ) -> (Self::CoalesceFuture, C::V) {
        (Coalesce::start(channel), ctx)
    }

    fn coalesce(
        channel: <C as Channels<<C as Dispatch>::Handle, Bottom>>::Coalesce,
        ctx: &mut C,
    ) -> (r: Self::CoalesceFuture) {
        Coalesce::new(channel)
    }
}

} // verus!
