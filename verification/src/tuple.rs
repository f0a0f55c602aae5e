//! The protocol of tuples: each component is spawned on its own, and the
//! tuple itself sends the handles of its components, in their order, on
//! its own channel.
//!
//! A tuple travels as the list of its components. A list is either empty,
//! or a first component and the rest; the rest goes on on the channel on
//! which the handle of the first was sent.
use vstd::prelude::*;

use core::convert::Infallible;
use core::marker::PhantomData;

use crate::future::{Forward, Ready, Send, StreamFuture};
use crate::{Bottom, Channel, Channels, ContextError, Dispatch, Join, Pass, Poll, Protocol, Spawn, Task};

verus! {

/// The list without components.
#[derive(Clone, Copy, Debug, PartialEq, Eq)]
pub struct Nil;

/// The list of a first component and the rest.
#[derive(Debug, PartialEq, Eq)]
pub struct Cons<A, R>(pub A, pub R);

/// An error of unraveling a list: its first component could not be
/// spawned, the handle of the first could not be sent, or the rest failed.
pub enum Error<Head, Send, Tail> {
    Head(Head),
    Send(Send),
    Tail(Tail),
}

/// An error of coalescing a list: the stream ended before the handle of
/// the first component, the item that came could not be read as a handle,
/// the first could not be joined, or the rest failed.
pub enum Incomplete<Head, Tail> {
    Insufficient,
    Corrupt,
    Head(Head),
    Tail(Tail),
}

/// The empty list sends nothing and closes the channel.
impl<C: Dispatch + Channels<<C as Dispatch>::Handle, Bottom>, F> Protocol<C, F> for Nil {
    type Unravel = <C as Dispatch>::Handle;

    type UnravelError = <<C as Channels<<C as Dispatch>::Handle, Bottom>>::Unravel as Channel<Bottom, <C as Dispatch>::Handle, C>>::Error;

    type UnravelFuture = Forward<<C as Channels<<C as Dispatch>::Handle, Bottom>>::Unravel, Bottom, <C as Dispatch>::Handle>;

    type Coalesce = Bottom;

    type CoalesceError = Infallible;

    type CoalesceFuture = Ready<Result<Nil, Infallible>>;

    open spec fn unraveling(self, channel: <C as Channels<<C as Dispatch>::Handle, Bottom>>::Unravel, ctx: C::V) -> (Self::UnravelFuture, C::V) {
        (Forward::ending(channel), ctx)
    }

    fn unravel(self, channel: <C as Channels<<C as Dispatch>::Handle, Bottom>>::Unravel, ctx: &mut C) -> (r: Self::UnravelFuture) {
        Forward::end(channel)
    }

    open spec fn coalescing(channel: <C as Channels<<C as Dispatch>::Handle, Bottom>>::Coalesce, ctx: C::V) -> (Self::CoalesceFuture, C::V) {
        (Ready(Some(Ok(Nil))), ctx)
    }

    fn coalesce(channel: <C as Channels<<C as Dispatch>::Handle, Bottom>>::Coalesce, ctx: &mut C) -> (r: Self::CoalesceFuture) {
        Ready::new(Ok(Nil))
    }
}

/// Sending a list: the first component is spawned when the task is made.
/// The task drives the spawn, sends the handle, and then sends the rest on
/// the same channel.
pub enum Unravel <
    C: Pass<A, F> + Channels<<C as Dispatch>::Handle, Bottom>,
    A: Protocol<<C as Spawn<A, F>>::Target, F> + Protocol<<C as Join<A, F>>::Target, F>,
    R: Protocol<C, F, Unravel = <C as Dispatch>::Handle, Coalesce = Bottom>,
    F,
> {
    /// The first component is being spawned. The channel and the rest wait.
    Spawn(<C as Spawn<A, F>>::Output, Option<<C as Channels<<C as Dispatch>::Handle, Bottom>>::Unravel>, Option<R>),
    /// The handle of the first component is being sent. The rest waits.
    Send(Send<<C as Channels<<C as Dispatch>::Handle, Bottom>>::Unravel, Bottom, <C as Dispatch>::Handle>, Option<R>),
    /// The rest is being sent.
    Rest(<R as Protocol<C, F>>::UnravelFuture),
}

impl<
    C: Pass<A, F> + Channels<<C as Dispatch>::Handle, Bottom>,
    A: Protocol<<C as Spawn<A, F>>::Target, F> + Protocol<<C as Join<A, F>>::Target, F>,
    R: Protocol<C, F, Unravel = <C as Dispatch>::Handle, Coalesce = Bottom>,
    F,
> Unravel<C, A, R, F> {
    /// The task for the list of `first` and `rest`: `first` is spawned in
    /// `ctx`.
    pub fn new(channel: <C as Channels<<C as Dispatch>::Handle, Bottom>>::Unravel, first: A, rest: R, ctx: &mut C) -> (r: Self)
        ensures
            (r, final(ctx)@) == Self::start(channel, first, rest, old(ctx)@),
            r.live(),
    {
        let spawn = <C as Spawn<A, F>>::spawn(ctx, first);
        Unravel::Spawn(spawn, Some(channel), Some(rest))
    }

    pub open spec fn start(channel: <C as Channels<<C as Dispatch>::Handle, Bottom>>::Unravel, first: A, rest: R, ctx: C::V) -> (Self, C::V) {
        let spawn = <C as Spawn<A, F>>::spawning(ctx, first);
        (Unravel::Spawn(spawn.0, Some(channel), Some(rest)), spawn.1)
    }

    /// Whether the task is in a state that `new` and `poll` lead to and has
    /// not resolved.
    pub open spec fn live(self) -> bool {
        match self {
            Unravel::Spawn(spawn, channel, rest) => spawn.unresolved() && channel is Some
                && rest is Some,
            Unravel::Send(send, rest) => send.unresolved() && rest is Some,
            Unravel::Rest(task) => task.unresolved(),
        }
    }

    /// The first stage: the spawn of the first component is driven.
    pub open spec fn spawned(spawn: <C as Spawn<A, F>>::Output, channel: <C as Channels<<C as Dispatch>::Handle, Bottom>>::Unravel, rest: R, ctx: C::V) -> (
        Self,
        C::V,
        Poll<<Self as Task<C>>::Output>,
    ) {
        let step = spawn.polled(ctx);
        match step.2 {
            Poll::Pending => (Unravel::Spawn(step.0, Some(channel), Some(rest)), step.1, Poll::Pending),
            Poll::Ready(Err(e)) => (
                Unravel::Spawn(step.0, Some(channel), Some(rest)),
                step.1,
                Poll::Ready(Err(Error::Head(e))),
            ),
            Poll::Ready(Ok(handle)) => Self::sent(Send::of(handle, channel), rest, step.1),
        }
    }

    /// The second stage: the handle of the first component is sent, and
    /// the rest starts on the channel that comes back.
    pub open spec fn sent(send: Send<<C as Channels<<C as Dispatch>::Handle, Bottom>>::Unravel, Bottom, <C as Dispatch>::Handle>, rest: R, ctx: C::V) -> (
        Self,
        C::V,
        Poll<<Self as Task<C>>::Output>,
    ) {
        let step = send.polled(ctx);
        match step.2 {
            Poll::Pending => (Unravel::Send(step.0, Some(rest)), step.1, Poll::Pending),
            Poll::Ready(Err(e)) => (
                Unravel::Send(step.0, Some(rest)),
                step.1,
                Poll::Ready(Err(Error::Send(e))),
            ),
            Poll::Ready(Ok(channel)) => {
                let start = <R as Protocol<C, F>>::unraveling(rest, channel, step.1);
                Self::rested(start.0, start.1)
            },
        }
    }

    /// The last stage: the rest is driven.
    pub open spec fn rested(task: <R as Protocol<C, F>>::UnravelFuture, ctx: C::V) -> (
        Self,
        C::V,
        Poll<<Self as Task<C>>::Output>,
    ) {
        let step = task.polled(ctx);
        (
            Unravel::Rest(step.0),
            step.1,
            match step.2 {
                Poll::Pending => Poll::Pending,
                Poll::Ready(Ok(())) => Poll::Ready(Ok(())),
                Poll::Ready(Err(e)) => Poll::Ready(Err(Error::Tail(e))),
            },
        )
    }

    fn poll_rest(&mut self, ctx: &mut C) -> (r: Poll<<Self as Task<C>>::Output>)
        requires
            *old(self) matches Unravel::Rest(task) && task.unresolved(),
        ensures
            (*final(self), final(ctx)@, r) == Self::rested((*old(self))->Rest_0, old(ctx)@),
            r is Pending ==> final(self).live(),
    {
        match self {
            Unravel::Rest(task) => match task.poll(ctx) {
                Poll::Pending => Poll::Pending,
                Poll::Ready(Ok(())) => Poll::Ready(Ok(())),
                Poll::Ready(Err(e)) => Poll::Ready(Err(Error::Tail(e))),
            },
            _ => Poll::Pending,
        }
    }

    fn poll_send(&mut self, ctx: &mut C) -> (r: Poll<<Self as Task<C>>::Output>)
        requires
            *old(self) matches Unravel::Send(send, rest) && send.unresolved() && rest is Some,
        ensures
            (*final(self), final(ctx)@, r) == Self::sent(
                (*old(self))->Send_0,
                (*old(self))->Send_1->0,
                old(ctx)@,
            ),
            r is Pending ==> final(self).live(),
    {
        let (channel, rest) = match self {
            Unravel::Send(send, rest) => match send.poll(ctx) {
                Poll::Pending => {
                    return Poll::Pending;
                },
                Poll::Ready(Err(e)) => {
                    return Poll::Ready(Err(Error::Send(e)));
                },
                Poll::Ready(Ok(channel)) => (channel, rest.take().unwrap()),
            },
            _ => {
                return Poll::Pending;
            },
        };
        let task = <R as Protocol<C, F>>::unravel(rest, channel, ctx);
        *self = Unravel::Rest(task);
        self.poll_rest(ctx)
    }

    fn poll_spawn(&mut self, ctx: &mut C) -> (r: Poll<<Self as Task<C>>::Output>)
        requires
            *old(self) matches Unravel::Spawn(spawn, channel, rest) && spawn.unresolved()
                && channel is Some && rest is Some,
        ensures
            (*final(self), final(ctx)@, r) == Self::spawned(
                (*old(self))->Spawn_0,
                (*old(self))->Spawn_1->0,
                (*old(self))->Spawn_2->0,
                old(ctx)@,
            ),
            r is Pending ==> final(self).live(),
    {
        let (handle, channel, rest) = match self {
            Unravel::Spawn(spawn, channel, rest) => match spawn.poll(ctx) {
                Poll::Pending => {
                    return Poll::Pending;
                },
                Poll::Ready(Err(e)) => {
                    return Poll::Ready(Err(Error::Head(e)));
                },
                Poll::Ready(Ok(handle)) => (handle, channel.take().unwrap(), rest.take().unwrap()),
            },
            _ => {
                return Poll::Pending;
            },
        };
        *self = Unravel::Send(Send::new(handle, channel), Some(rest));
        self.poll_send(ctx)
    }
}

impl<
    C: Pass<A, F> + Channels<<C as Dispatch>::Handle, Bottom>,
    A: Protocol<<C as Spawn<A, F>>::Target, F> + Protocol<<C as Join<A, F>>::Target, F>,
    R: Protocol<C, F, Unravel = <C as Dispatch>::Handle, Coalesce = Bottom>,
    F,
> Task<C> for Unravel<C, A, R, F> {
    type Output = Result<
        (),
        Error<
            ContextError<<C as Spawn<A, F>>::Error, <A as Protocol<<C as Spawn<A, F>>::Target, F>>::UnravelError>,
            <<C as Channels<<C as Dispatch>::Handle, Bottom>>::Unravel as Channel<Bottom, <C as Dispatch>::Handle, C>>::Error,
            <R as Protocol<C, F>>::UnravelError,
        >,
    >;

    open spec fn unresolved(self) -> bool {
        self.live()
    }

    open spec fn polled(self, ctx: C::V) -> (Self, C::V, Poll<Self::Output>) {
        match self {
            Unravel::Spawn(spawn, Some(channel), Some(rest)) => Self::spawned(
                spawn,
                channel,
                rest,
                ctx,
            ),
            Unravel::Send(send, Some(rest)) => Self::sent(send, rest, ctx),
            Unravel::Rest(task) => Self::rested(task, ctx),
            _ => (self, ctx, Poll::Pending),
        }
    }

    fn poll(&mut self, ctx: &mut C) -> (r: Poll<Self::Output>) {
        match self {
            Unravel::Spawn(_, _, _) => self.poll_spawn(ctx),
            Unravel::Send(_, _) => self.poll_send(ctx),
            Unravel::Rest(_) => self.poll_rest(ctx),
        }
    }

    /// What is in progress is given up with the task.
    open spec fn cancelled(self, ctx: C::V) -> C::V {
        match self {
            Unravel::Spawn(spawn, _, _) => spawn.cancelled(ctx),
            Unravel::Send(_, _) => ctx,
            Unravel::Rest(task) => task.cancelled(ctx),
        }
    }

    fn cancel(self, ctx: &mut C) {
        match self {
            Unravel::Spawn(spawn, _, _) => spawn.cancel(ctx),
            Unravel::Send(_, _) => {},
            Unravel::Rest(task) => task.cancel(ctx),
        }
    }
}

/// Rebuilding a list: the wait for the handle of the first component, the
/// join of the first, and then the rest, read from the same channel.
pub enum Coalesce <
    C: Pass<A, F> + Channels<<C as Dispatch>::Handle, Bottom>,
    A: Protocol<<C as Spawn<A, F>>::Target, F> + Protocol<<C as Join<A, F>>::Target, F>,
    R: Protocol<C, F, Unravel = <C as Dispatch>::Handle, Coalesce = Bottom>,
    F,
> {
    /// The handle of the first component is awaited.
    Next(StreamFuture<<C as Channels<<C as Dispatch>::Handle, Bottom>>::Coalesce, <C as Dispatch>::Handle, Bottom>),
    /// The first component is being joined. The channel waits.
    Join(<C as Join<A, F>>::Output, Option<<C as Channels<<C as Dispatch>::Handle, Bottom>>::Coalesce>),
    /// The rest is being rebuilt. The first component waits.
    Rest(<R as Protocol<C, F>>::CoalesceFuture, Option<A>),
}

impl<
    C: Pass<A, F> + Channels<<C as Dispatch>::Handle, Bottom>,
    A: Protocol<<C as Spawn<A, F>>::Target, F> + Protocol<<C as Join<A, F>>::Target, F>,
    R: Protocol<C, F, Unravel = <C as Dispatch>::Handle, Coalesce = Bottom>,
    F,
> Coalesce<C, A, R, F> {
    /// The first stage: the wait for the first handle on `channel`.
    pub fn new(channel: <C as Channels<<C as Dispatch>::Handle, Bottom>>::Coalesce) -> (r: Self)
        ensures
            r == Self::start(channel),
            r.live(),
    {
        Coalesce::Next(StreamFuture::new(channel))
    }

    pub open spec fn start(channel: <C as Channels<<C as Dispatch>::Handle, Bottom>>::Coalesce) -> Self {
        Coalesce::Next(StreamFuture::of(channel))
    }

    /// Whether the task is in a state that `new` and `poll` lead to and has
    /// not resolved.
    pub open spec fn live(self) -> bool {
        match self {
            Coalesce::Next(next) => next.unresolved(),
            Coalesce::Join(join, channel) => join.unresolved() && channel is Some,
            Coalesce::Rest(task, first) => task.unresolved() && first is Some,
        }
    }

    /// The first stage: the handle is awaited, and joined when it comes.
    pub open spec fn awaited(next: StreamFuture<<C as Channels<<C as Dispatch>::Handle, Bottom>>::Coalesce, <C as Dispatch>::Handle, Bottom>, ctx: C::V) -> (
        Self,
        C::V,
        Poll<<Self as Task<C>>::Output>,
    ) {
        let step = next.polled(ctx);
        match step.2 {
            Poll::Pending => (Coalesce::Next(step.0), step.1, Poll::Pending),
            Poll::Ready((None, channel)) => (
                Coalesce::Next(step.0),
                step.1,
                if channel.broken(step.1) {
                    Poll::Ready(Err(Incomplete::Corrupt))
                } else {
                    Poll::Ready(Err(Incomplete::Insufficient))
                },
            ),
            Poll::Ready((Some(handle), channel)) => {
                let join = <C as Join<A, F>>::joining(step.1, handle);
                Self::joined(join.0, channel, join.1)
            },
        }
    }

    /// The second stage: the join of the first component is driven, and
    /// the rest starts on the channel.
    pub open spec fn joined(join: <C as Join<A, F>>::Output, channel: <C as Channels<<C as Dispatch>::Handle, Bottom>>::Coalesce, ctx: C::V) -> (
        Self,
        C::V,
        Poll<<Self as Task<C>>::Output>,
    ) {
        let step = join.polled(ctx);
        match step.2 {
            Poll::Pending => (Coalesce::Join(step.0, Some(channel)), step.1, Poll::Pending),
            Poll::Ready(Err(e)) => (
                Coalesce::Join(step.0, Some(channel)),
                step.1,
                Poll::Ready(Err(Incomplete::Head(e))),
            ),
            Poll::Ready(Ok(first)) => {
                let start = <R as Protocol<C, F>>::coalescing(channel, step.1);
                Self::rested(start.0, first, start.1)
            },
        }
    }

    /// The last stage: the rest is driven, and the list is put together.
    pub open spec fn rested(task: <R as Protocol<C, F>>::CoalesceFuture, first: A, ctx: C::V) -> (
        Self,
        C::V,
        Poll<<Self as Task<C>>::Output>,
    ) {
        let step = task.polled(ctx);
        match step.2 {
            Poll::Pending => (Coalesce::Rest(step.0, Some(first)), step.1, Poll::Pending),
            Poll::Ready(Err(e)) => (
                Coalesce::Rest(step.0, Some(first)),
                step.1,
                Poll::Ready(Err(Incomplete::Tail(e))),
            ),
            Poll::Ready(Ok(rest)) => (
                Coalesce::Rest(step.0, None),
                step.1,
                Poll::Ready(Ok(Cons(first, rest))),
            ),
        }
    }

    fn poll_rest(&mut self, ctx: &mut C) -> (r: Poll<<Self as Task<C>>::Output>)
        requires
            *old(self) matches Coalesce::Rest(task, first) && task.unresolved() && first is Some,
        ensures
            (*final(self), final(ctx)@, r) == Self::rested(
                (*old(self))->Rest_0,
                (*old(self))->Rest_1->0,
                old(ctx)@,
            ),
            r is Pending ==> final(self).live(),
    {
        match self {
            Coalesce::Rest(task, first) => match task.poll(ctx) {
                Poll::Pending => Poll::Pending,
                Poll::Ready(Err(e)) => Poll::Ready(Err(Incomplete::Tail(e))),
                Poll::Ready(Ok(rest)) => {
                    let first = first.take().unwrap();
                    Poll::Ready(Ok(Cons(first, rest)))
                },
            },
            _ => Poll::Pending,
        }
    }

    fn poll_join(&mut self, ctx: &mut C) -> (r: Poll<<Self as Task<C>>::Output>)
        requires
            *old(self) matches Coalesce::Join(join, channel) && join.unresolved()
                && channel is Some,
        ensures
            (*final(self), final(ctx)@, r) == Self::joined(
                (*old(self))->Join_0,
                (*old(self))->Join_1->0,
                old(ctx)@,
            ),
            r is Pending ==> final(self).live(),
    {
        let (first, channel) = match self {
            Coalesce::Join(join, channel) => match join.poll(ctx) {
                Poll::Pending => {
                    return Poll::Pending;
                },
                Poll::Ready(Err(e)) => {
                    return Poll::Ready(Err(Incomplete::Head(e)));
                },
                Poll::Ready(Ok(first)) => (first, channel.take().unwrap()),
            },
            _ => {
                return Poll::Pending;
            },
        };
        let task = <R as Protocol<C, F>>::coalesce(channel, ctx);
        *self = Coalesce::Rest(task, Some(first));
        self.poll_rest(ctx)
    }

    fn poll_next(&mut self, ctx: &mut C) -> (r: Poll<<Self as Task<C>>::Output>)
        requires
            *old(self) matches Coalesce::Next(next) && next.unresolved(),
        ensures
            (*final(self), final(ctx)@, r) == Self::awaited((*old(self))->Next_0, old(ctx)@),
            r is Pending ==> final(self).live(),
    {
        let (handle, channel) = match self {
            Coalesce::Next(next) => match next.poll(ctx) {
                Poll::Pending => {
                    return Poll::Pending;
                },
                Poll::Ready((None, channel)) => {
                    if channel.is_broken(ctx) {
                        return Poll::Ready(Err(Incomplete::Corrupt));
                    }
                    return Poll::Ready(Err(Incomplete::Insufficient));
                },
                Poll::Ready((Some(handle), channel)) => (handle, channel),
            },
            _ => {
                return Poll::Pending;
            },
        };
        let join = <C as Join<A, F>>::join(ctx, handle);
        *self = Coalesce::Join(join, Some(channel));
        self.poll_join(ctx)
    }
}

impl<
    C: Pass<A, F> + Channels<<C as Dispatch>::Handle, Bottom>,
    A: Protocol<<C as Spawn<A, F>>::Target, F> + Protocol<<C as Join<A, F>>::Target, F>,
    R: Protocol<C, F, Unravel = <C as Dispatch>::Handle, Coalesce = Bottom>,
    F,
> Task<C> for Coalesce<C, A, R, F> {
    type Output = Result<
        Cons<A, R>,
        Incomplete<
            ContextError<<C as Join<A, F>>::Error, <A as Protocol<<C as Join<A, F>>::Target, F>>::CoalesceError>,
            <R as Protocol<C, F>>::CoalesceError,
        >,
    >;

    open spec fn unresolved(self) -> bool {
        self.live()
    }

    open spec fn polled(self, ctx: C::V) -> (Self, C::V, Poll<Self::Output>) {
        match self {
            Coalesce::Next(next) => Self::awaited(next, ctx),
            Coalesce::Join(join, Some(channel)) => Self::joined(join, channel, ctx),
            Coalesce::Rest(task, Some(first)) => Self::rested(task, first, ctx),
            _ => (self, ctx, Poll::Pending),
        }
    }

    fn poll(&mut self, ctx: &mut C) -> (r: Poll<Self::Output>) {
        match self {
            Coalesce::Next(_) => self.poll_next(ctx),
            Coalesce::Join(_, _) => self.poll_join(ctx),
            Coalesce::Rest(_, _) => self.poll_rest(ctx),
        }
    }

    /// What is in progress is given up with the task.
    open spec fn cancelled(self, ctx: C::V) -> C::V {
        match self {
            Coalesce::Next(_) => ctx,
            Coalesce::Join(join, _) => join.cancelled(ctx),
            Coalesce::Rest(task, _) => task.cancelled(ctx),
        }
    }

    fn cancel(self, ctx: &mut C) {
        match self {
            Coalesce::Next(_) => {},
            Coalesce::Join(join, _) => join.cancel(ctx),
            Coalesce::Rest(task, _) => task.cancel(ctx),
        }
    }
}

/// A list with a first component spawns the first, sends its handle, and
/// goes on with the rest.
impl<
    C: Pass<A, F> + Channels<<C as Dispatch>::Handle, Bottom>,
    A: Protocol<<C as Spawn<A, F>>::Target, F> + Protocol<<C as Join<A, F>>::Target, F>,
    R: Protocol<C, F, Unravel = <C as Dispatch>::Handle, Coalesce = Bottom>,
    F,
> Protocol<C, F> for Cons<A, R> {
    type Unravel = <C as Dispatch>::Handle;

    type UnravelError = Error<
        ContextError<<C as Spawn<A, F>>::Error, <A as Protocol<<C as Spawn<A, F>>::Target, F>>::UnravelError>,
        <<C as Channels<<C as Dispatch>::Handle, Bottom>>::Unravel as Channel<Bottom, <C as Dispatch>::Handle, C>>::Error,
        <R as Protocol<C, F>>::UnravelError,
    >;

    type UnravelFuture = Unravel<C, A, R, F>;

    type Coalesce = Bottom;

    type CoalesceError = Incomplete<
        ContextError<<C as Join<A, F>>::Error, <A as Protocol<<C as Join<A, F>>::Target, F>>::CoalesceError>,
        <R as Protocol<C, F>>::CoalesceError,
    >;

    type CoalesceFuture = Coalesce<C, A, R, F>;

    open spec fn unraveling(self, channel: <C as Channels<<C as Dispatch>::Handle, Bottom>>::Unravel, ctx: C::V) -> (Self::UnravelFuture, C::V) {
        Unravel::<C, A, R, F>::start(channel, self.0, self.1, ctx)
    }

    fn unravel(self, channel: <C as Channels<<C as Dispatch>::Handle, Bottom>>::Unravel, ctx: &mut C) -> (r: Self::UnravelFuture) {
        Unravel::new(channel, self.0, self.1, ctx)
    }

    open spec fn coalescing(channel: <C as Channels<<C as Dispatch>::Handle, Bottom>>::Coalesce, ctx: C::V) -> (Self::CoalesceFuture, C::V) {
        (Coalesce::start(channel), ctx)
    }

    fn coalesce(channel: <C as Channels<<C as Dispatch>::Handle, Bottom>>::Coalesce, ctx: &mut C) -> (r: Self::CoalesceFuture) {
        Coalesce::new(channel)
    }
}

/// A tuple and the list of its components.
pub trait Listed: Sized {
    type List;

    /// The list of the components of the tuple.
    spec fn list(self) -> Self::List;

    fn into_list(self) -> (r: Self::List)
        ensures
            r == self.list(),
    ;

    /// The tuple of the components of a list.
    spec fn tuple(list: Self::List) -> Self;

    fn from_list(list: Self::List) -> (r: Self)
        ensures
            r == Self::tuple(list),
    ;

    /// The list of a tuple gives the tuple back.
    proof fn lemma_list(self)
        ensures
            Self::tuple(self.list()) == self,
    ;
}

/// Hands out as a tuple what a task gives as a list.
pub struct Tupled<Fut, T, E>(pub Fut, pub PhantomData<(T, E)>);

impl<Fut, T, E> Tupled<Fut, T, E> {
    pub fn new(task: Fut) -> (r: Self)
        ensures
            r.0 == task,
    {
        Tupled(task, PhantomData)
    }
}

impl<C: View, T: Listed, E, Fut: Task<C, Output = Result<T::List, E>>> Task<C> for Tupled<Fut, T, E> {
    type Output = Result<T, E>;

    open spec fn unresolved(self) -> bool {
        self.0.unresolved()
    }

    open spec fn polled(self, ctx: C::V) -> (Self, C::V, Poll<Self::Output>) {
        let step = self.0.polled(ctx);
        let r: Poll<Result<T, E>> = match step.2 {
            Poll::Ready(Ok(list)) => Poll::Ready(Ok(T::tuple(list))),
            Poll::Ready(Err(e)) => Poll::Ready(Err(e)),
            Poll::Pending => Poll::Pending,
        };
        (Tupled(step.0, self.1), step.1, r)
    }

    fn poll(&mut self, ctx: &mut C) -> (r: Poll<Self::Output>) {
        match self.0.poll(ctx) {
            Poll::Ready(Ok(list)) => Poll::Ready(Ok(T::from_list(list))),
            Poll::Ready(Err(e)) => Poll::Ready(Err(e)),
            Poll::Pending => Poll::Pending,
        }
    }

    open spec fn cancelled(self, ctx: C::V) -> C::V {
        self.0.cancelled(ctx)
    }

    fn cancel(self, ctx: &mut C) {
        self.0.cancel(ctx)
    }
}

impl<T1, T2> Listed for (T1, T2) {
    type List = Cons<T1, Cons<T2, Nil>>;

    open spec fn list(self) -> Cons<T1, Cons<T2, Nil>> {
        Cons(self.0, Cons(self.1, Nil))
    }

    fn into_list(self) -> (r: Cons<T1, Cons<T2, Nil>>) {
        Cons(self.0, Cons(self.1, Nil))
    }

    open spec fn tuple(list: Cons<T1, Cons<T2, Nil>>) -> (T1, T2) {
        let Cons(v1, Cons(v2, Nil)) = list;
        (v1, v2)
    }

    fn from_list(list: Cons<T1, Cons<T2, Nil>>) -> (r: (T1, T2)) {
        let Cons(v1, Cons(v2, Nil)) = list;
        (v1, v2)
    }

    proof fn lemma_list(self) {
    }
}

/// A tuple of two travels as the list of its components.
impl<C, T1, T2, F> Protocol<C, F> for (T1, T2) where
    C: Pass<T1, F> + Pass<T2, F> + Channels<<C as Dispatch>::Handle, Bottom>,
    T1: Protocol<<C as Spawn<T1, F>>::Target, F> + Protocol<<C as Join<T1, F>>::Target, F>,
    T2: Protocol<<C as Spawn<T2, F>>::Target, F> + Protocol<<C as Join<T2, F>>::Target, F>,
 {
    type Unravel = <C as Dispatch>::Handle;

    type UnravelError = <Cons<T1, Cons<T2, Nil>> as Protocol<C, F>>::UnravelError;

    type UnravelFuture = <Cons<T1, Cons<T2, Nil>> as Protocol<C, F>>::UnravelFuture;

    type Coalesce = Bottom;

    type CoalesceError = <Cons<T1, Cons<T2, Nil>> as Protocol<C, F>>::CoalesceError;

    type CoalesceFuture = Tupled<<Cons<T1, Cons<T2, Nil>> as Protocol<C, F>>::CoalesceFuture, (T1, T2), Self::CoalesceError>;

    open spec fn unraveling(
        self,
        channel: <C as Channels<<C as Dispatch>::Handle, Bottom>>::Unravel,
        ctx: C::V,
    ) -> (Self::UnravelFuture, C::V) {
        <Cons<T1, Cons<T2, Nil>> as Protocol<C, F>>::unraveling(self.list(), channel, ctx)
    }

    fn unravel(
        self,
        channel: <C as Channels<<C as Dispatch>::Handle, Bottom>>::Unravel,
        ctx: &mut C,
    ) -> (r: Self::UnravelFuture) {
        <Cons<T1, Cons<T2, Nil>> as Protocol<C, F>>::unravel(self.into_list(), channel, ctx)
    }

    open spec fn coalescing(
        channel: <C as Channels<<C as Dispatch>::Handle, Bottom>>::Coalesce,
        ctx: C::V,
    ) -> (Self::CoalesceFuture, C::V) {
        let start = <Cons<T1, Cons<T2, Nil>> as Protocol<C, F>>::coalescing(channel, ctx);
        (Tupled(start.0, PhantomData), start.1)
    }

    fn coalesce(
        channel: <C as Channels<<C as Dispatch>::Handle, Bottom>>::Coalesce,
        ctx: &mut C,
    ) -> (r: Self::CoalesceFuture) {
        Tupled::new(<Cons<T1, Cons<T2, Nil>> as Protocol<C, F>>::coalesce(channel, ctx))
    }
}

impl<T1, T2, T3> Listed for (T1, T2, T3) {
    type List = Cons<T1, Cons<T2, Cons<T3, Nil>>>;

    open spec fn list(self) -> Cons<T1, Cons<T2, Cons<T3, Nil>>> {
        Cons(self.0, Cons(self.1, Cons(self.2, Nil)))
    }

    fn into_list(self) -> (r: Cons<T1, Cons<T2, Cons<T3, Nil>>>) {
        Cons(self.0, Cons(self.1, Cons(self.2, Nil)))
    }

    open spec fn tuple(list: Cons<T1, Cons<T2, Cons<T3, Nil>>>) -> (T1, T2, T3) {
        let Cons(v1, Cons(v2, Cons(v3, Nil))) = list;
        (v1, v2, v3)
    }

    fn from_list(list: Cons<T1, Cons<T2, Cons<T3, Nil>>>) -> (r: (T1, T2, T3)) {
        let Cons(v1, Cons(v2, Cons(v3, Nil))) = list;
        (v1, v2, v3)
    }

    proof fn lemma_list(self) {
    }
}

/// A tuple of three travels as the list of its components.
impl<C, T1, T2, T3, F> Protocol<C, F> for (T1, T2, T3) where
    C: Pass<T1, F> + Pass<T2, F> + Pass<T3, F> + Channels<<C as Dispatch>::Handle, Bottom>,
    T1: Protocol<<C as Spawn<T1, F>>::Target, F> + Protocol<<C as Join<T1, F>>::Target, F>,
    T2: Protocol<<C as Spawn<T2, F>>::Target, F> + Protocol<<C as Join<T2, F>>::Target, F>,
    T3: Protocol<<C as Spawn<T3, F>>::Target, F> + Protocol<<C as Join<T3, F>>::Target, F>,
 {
    type Unravel = <C as Dispatch>::Handle;

    type UnravelError = <Cons<T1, Cons<T2, Cons<T3, Nil>>> as Protocol<C, F>>::UnravelError;

    type UnravelFuture = <Cons<T1, Cons<T2, Cons<T3, Nil>>> as Protocol<C, F>>::UnravelFuture;

    type Coalesce = Bottom;

    type CoalesceError = <Cons<T1, Cons<T2, Cons<T3, Nil>>> as Protocol<C, F>>::CoalesceError;

    type CoalesceFuture = Tupled<<Cons<T1, Cons<T2, Cons<T3, Nil>>> as Protocol<C, F>>::CoalesceFuture, (T1, T2, T3), Self::CoalesceError>;

    open spec fn unraveling(
        self,
        channel: <C as Channels<<C as Dispatch>::Handle, Bottom>>::Unravel,
        ctx: C::V,
    ) -> (Self::UnravelFuture, C::V) {
        <Cons<T1, Cons<T2, Cons<T3, Nil>>> as Protocol<C, F>>::unraveling(self.list(), channel, ctx)
    }

    fn unravel(
        self,
        channel: <C as Channels<<C as Dispatch>::Handle, Bottom>>::Unravel,
        ctx: &mut C,
    ) -> (r: Self::UnravelFuture) {
        <Cons<T1, Cons<T2, Cons<T3, Nil>>> as Protocol<C, F>>::unravel(self.into_list(), channel, ctx)
    }

    open spec fn coalescing(
        channel: <C as Channels<<C as Dispatch>::Handle, Bottom>>::Coalesce,
        ctx: C::V,
    ) -> (Self::CoalesceFuture, C::V) {
        let start = <Cons<T1, Cons<T2, Cons<T3, Nil>>> as Protocol<C, F>>::coalescing(channel, ctx);
        (Tupled(start.0, PhantomData), start.1)
    }

    fn coalesce(
        channel: <C as Channels<<C as Dispatch>::Handle, Bottom>>::Coalesce,
        ctx: &mut C,
    ) -> (r: Self::CoalesceFuture) {
        Tupled::new(<Cons<T1, Cons<T2, Cons<T3, Nil>>> as Protocol<C, F>>::coalesce(channel, ctx))
    }
}

impl<T1, T2, T3, T4> Listed for (T1, T2, T3, T4) {
    type List = Cons<T1, Cons<T2, Cons<T3, Cons<T4, Nil>>>>;

    open spec fn list(self) -> Cons<T1, Cons<T2, Cons<T3, Cons<T4, Nil>>>> {
        Cons(self.0, Cons(self.1, Cons(self.2, Cons(self.3, Nil))))
    }

    fn into_list(self) -> (r: Cons<T1, Cons<T2, Cons<T3, Cons<T4, Nil>>>>) {
        Cons(self.0, Cons(self.1, Cons(self.2, Cons(self.3, Nil))))
    }

    open spec fn tuple(list: Cons<T1, Cons<T2, Cons<T3, Cons<T4, Nil>>>>) -> (T1, T2, T3, T4) {
        let Cons(v1, Cons(v2, Cons(v3, Cons(v4, Nil)))) = list;
        (v1, v2, v3, v4)
    }

    fn from_list(list: Cons<T1, Cons<T2, Cons<T3, Cons<T4, Nil>>>>) -> (r: (T1, T2, T3, T4)) {
        let Cons(v1, Cons(v2, Cons(v3, Cons(v4, Nil)))) = list;
        (v1, v2, v3, v4)
    }

    proof fn lemma_list(self) {
    }
}

/// A tuple of four travels as the list of its components.
impl<C, T1, T2, T3, T4, F> Protocol<C, F> for (T1, T2, T3, T4) where
    C: Pass<T1, F> + Pass<T2, F> + Pass<T3, F> + Pass<T4, F> + Channels<<C as Dispatch>::Handle, Bottom>,
    T1: Protocol<<C as Spawn<T1, F>>::Target, F> + Protocol<<C as Join<T1, F>>::Target, F>,
    T2: Protocol<<C as Spawn<T2, F>>::Target, F> + Protocol<<C as Join<T2, F>>::Target, F>,
    T3: Protocol<<C as Spawn<T3, F>>::Target, F> + Protocol<<C as Join<T3, F>>::Target, F>,
    T4: Protocol<<C as Spawn<T4, F>>::Target, F> + Protocol<<C as Join<T4, F>>::Target, F>,
 {
    type Unravel = <C as Dispatch>::Handle;

    type UnravelError = <Cons<T1, Cons<T2, Cons<T3, Cons<T4, Nil>>>> as Protocol<C, F>>::UnravelError;

    type UnravelFuture = <Cons<T1, Cons<T2, Cons<T3, Cons<T4, Nil>>>> as Protocol<C, F>>::UnravelFuture;

    type Coalesce = Bottom;

    type CoalesceError = <Cons<T1, Cons<T2, Cons<T3, Cons<T4, Nil>>>> as Protocol<C, F>>::CoalesceError;

    type CoalesceFuture = Tupled<<Cons<T1, Cons<T2, Cons<T3, Cons<T4, Nil>>>> as Protocol<C, F>>::CoalesceFuture, (T1, T2, T3, T4), Self::CoalesceError>;

    open spec fn unraveling(
        self,
        channel: <C as Channels<<C as Dispatch>::Handle, Bottom>>::Unravel,
        ctx: C::V,
    ) -> (Self::UnravelFuture, C::V) {
        <Cons<T1, Cons<T2, Cons<T3, Cons<T4, Nil>>>> as Protocol<C, F>>::unraveling(self.list(), channel, ctx)
    }

    fn unravel(
        self,
        channel: <C as Channels<<C as Dispatch>::Handle, Bottom>>::Unravel,
        ctx: &mut C,
    ) -> (r: Self::UnravelFuture) {
        <Cons<T1, Cons<T2, Cons<T3, Cons<T4, Nil>>>> as Protocol<C, F>>::unravel(self.into_list(), channel, ctx)
    }

    open spec fn coalescing(
        channel: <C as Channels<<C as Dispatch>::Handle, Bottom>>::Coalesce,
        ctx: C::V,
    ) -> (Self::CoalesceFuture, C::V) {
        let start = <Cons<T1, Cons<T2, Cons<T3, Cons<T4, Nil>>>> as Protocol<C, F>>::coalescing(channel, ctx);
        (Tupled(start.0, PhantomData), start.1)
    }

    fn coalesce(
        channel: <C as Channels<<C as Dispatch>::Handle, Bottom>>::Coalesce,
        ctx: &mut C,
    ) -> (r: Self::CoalesceFuture) {
        Tupled::new(<Cons<T1, Cons<T2, Cons<T3, Cons<T4, Nil>>>> as Protocol<C, F>>::coalesce(channel, ctx))
    }
}

impl<T1, T2, T3, T4, T5> Listed for (T1, T2, T3, T4, T5) {
    type List = Cons<T1, Cons<T2, Cons<T3, Cons<T4, Cons<T5, Nil>>>>>;

    open spec fn list(self) -> Cons<T1, Cons<T2, Cons<T3, Cons<T4, Cons<T5, Nil>>>>> {
        Cons(self.0, Cons(self.1, Cons(self.2, Cons(self.3, Cons(self.4, Nil)))))
    }

    fn into_list(self) -> (r: Cons<T1, Cons<T2, Cons<T3, Cons<T4, Cons<T5, Nil>>>>>) {
        Cons(self.0, Cons(self.1, Cons(self.2, Cons(self.3, Cons(self.4, Nil)))))
    }

    open spec fn tuple(list: Cons<T1, Cons<T2, Cons<T3, Cons<T4, Cons<T5, Nil>>>>>) -> (T1, T2, T3, T4, T5) {
        let Cons(v1, Cons(v2, Cons(v3, Cons(v4, Cons(v5, Nil))))) = list;
        (v1, v2, v3, v4, v5)
    }

    fn from_list(list: Cons<T1, Cons<T2, Cons<T3, Cons<T4, Cons<T5, Nil>>>>>) -> (r: (T1, T2, T3, T4, T5)) {
        let Cons(v1, Cons(v2, Cons(v3, Cons(v4, Cons(v5, Nil))))) = list;
        (v1, v2, v3, v4, v5)
    }

    proof fn lemma_list(self) {
    }
}

/// A tuple of five travels as the list of its components.
impl<C, T1, T2, T3, T4, T5, F> Protocol<C, F> for (T1, T2, T3, T4, T5) where
    C: Pass<T1, F> + Pass<T2, F> + Pass<T3, F> + Pass<T4, F> + Pass<T5, F> + Channels<<C as Dispatch>::Handle, Bottom>,
    T1: Protocol<<C as Spawn<T1, F>>::Target, F> + Protocol<<C as Join<T1, F>>::Target, F>,
    T2: Protocol<<C as Spawn<T2, F>>::Target, F> + Protocol<<C as Join<T2, F>>::Target, F>,
    T3: Protocol<<C as Spawn<T3, F>>::Target, F> + Protocol<<C as Join<T3, F>>::Target, F>,
    T4: Protocol<<C as Spawn<T4, F>>::Target, F> + Protocol<<C as Join<T4, F>>::Target, F>,
    T5: Protocol<<C as Spawn<T5, F>>::Target, F> + Protocol<<C as Join<T5, F>>::Target, F>,
 {
    type Unravel = <C as Dispatch>::Handle;

    type UnravelError = <Cons<T1, Cons<T2, Cons<T3, Cons<T4, Cons<T5, Nil>>>>> as Protocol<C, F>>::UnravelError;

    type UnravelFuture = <Cons<T1, Cons<T2, Cons<T3, Cons<T4, Cons<T5, Nil>>>>> as Protocol<C, F>>::UnravelFuture;

    type Coalesce = Bottom;

    type CoalesceError = <Cons<T1, Cons<T2, Cons<T3, Cons<T4, Cons<T5, Nil>>>>> as Protocol<C, F>>::CoalesceError;

    type CoalesceFuture = Tupled<<Cons<T1, Cons<T2, Cons<T3, Cons<T4, Cons<T5, Nil>>>>> as Protocol<C, F>>::CoalesceFuture, (T1, T2, T3, T4, T5), Self::CoalesceError>;

    open spec fn unraveling(
        self,
        channel: <C as Channels<<C as Dispatch>::Handle, Bottom>>::Unravel,
        ctx: C::V,
    ) -> (Self::UnravelFuture, C::V) {
        <Cons<T1, Cons<T2, Cons<T3, Cons<T4, Cons<T5, Nil>>>>> as Protocol<C, F>>::unraveling(self.list(), channel, ctx)
    }

    fn unravel(
        self,
        channel: <C as Channels<<C as Dispatch>::Handle, Bottom>>::Unravel,
        ctx: &mut C,
    ) -> (r: Self::UnravelFuture) {
        <Cons<T1, Cons<T2, Cons<T3, Cons<T4, Cons<T5, Nil>>>>> as Protocol<C, F>>::unravel(self.into_list(), channel, ctx)
    }

    open spec fn coalescing(
        channel: <C as Channels<<C as Dispatch>::Handle, Bottom>>::Coalesce,
        ctx: C::V,
    ) -> (Self::CoalesceFuture, C::V) {
        let start = <Cons<T1, Cons<T2, Cons<T3, Cons<T4, Cons<T5, Nil>>>>> as Protocol<C, F>>::coalescing(channel, ctx);
        (Tupled(start.0, PhantomData), start.1)
    }

    fn coalesce(
        channel: <C as Channels<<C as Dispatch>::Handle, Bottom>>::Coalesce,
        ctx: &mut C,
    ) -> (r: Self::CoalesceFuture) {
        Tupled::new(<Cons<T1, Cons<T2, Cons<T3, Cons<T4, Cons<T5, Nil>>>>> as Protocol<C, F>>::coalesce(channel, ctx))
    }
}

impl<T1, T2, T3, T4, T5, T6> Listed for (T1, T2, T3, T4, T5, T6) {
    type List = Cons<T1, Cons<T2, Cons<T3, Cons<T4, Cons<T5, Cons<T6, Nil>>>>>>;

    open spec fn list(self) -> Cons<T1, Cons<T2, Cons<T3, Cons<T4, Cons<T5, Cons<T6, Nil>>>>>> {
        Cons(self.0, Cons(self.1, Cons(self.2, Cons(self.3, Cons(self.4, Cons(self.5, Nil))))))
    }

    fn into_list(self) -> (r: Cons<T1, Cons<T2, Cons<T3, Cons<T4, Cons<T5, Cons<T6, Nil>>>>>>) {
        Cons(self.0, Cons(self.1, Cons(self.2, Cons(self.3, Cons(self.4, Cons(self.5, Nil))))))
    }

    open spec fn tuple(list: Cons<T1, Cons<T2, Cons<T3, Cons<T4, Cons<T5, Cons<T6, Nil>>>>>>) -> (T1, T2, T3, T4, T5, T6) {
        let Cons(v1, Cons(v2, Cons(v3, Cons(v4, Cons(v5, Cons(v6, Nil)))))) = list;
        (v1, v2, v3, v4, v5, v6)
    }

    fn from_list(list: Cons<T1, Cons<T2, Cons<T3, Cons<T4, Cons<T5, Cons<T6, Nil>>>>>>) -> (r: (T1, T2, T3, T4, T5, T6)) {
        let Cons(v1, Cons(v2, Cons(v3, Cons(v4, Cons(v5, Cons(v6, Nil)))))) = list;
        (v1, v2, v3, v4, v5, v6)
    }

    proof fn lemma_list(self) {
    }
}

/// A tuple of six travels as the list of its components.
impl<C, T1, T2, T3, T4, T5, T6, F> Protocol<C, F> for (T1, T2, T3, T4, T5, T6) where
    C: Pass<T1, F> + Pass<T2, F> + Pass<T3, F> + Pass<T4, F> + Pass<T5, F> + Pass<T6, F> + Channels<<C as Dispatch>::Handle, Bottom>,
    T1: Protocol<<C as Spawn<T1, F>>::Target, F> + Protocol<<C as Join<T1, F>>::Target, F>,
    T2: Protocol<<C as Spawn<T2, F>>::Target, F> + Protocol<<C as Join<T2, F>>::Target, F>,
    T3: Protocol<<C as Spawn<T3, F>>::Target, F> + Protocol<<C as Join<T3, F>>::Target, F>,
    T4: Protocol<<C as Spawn<T4, F>>::Target, F> + Protocol<<C as Join<T4, F>>::Target, F>,
    T5: Protocol<<C as Spawn<T5, F>>::Target, F> + Protocol<<C as Join<T5, F>>::Target, F>,
    T6: Protocol<<C as Spawn<T6, F>>::Target, F> + Protocol<<C as Join<T6, F>>::Target, F>,
 {
    type Unravel = <C as Dispatch>::Handle;

    type UnravelError = <Cons<T1, Cons<T2, Cons<T3, Cons<T4, Cons<T5, Cons<T6, Nil>>>>>> as Protocol<C, F>>::UnravelError;

    type UnravelFuture = <Cons<T1, Cons<T2, Cons<T3, Cons<T4, Cons<T5, Cons<T6, Nil>>>>>> as Protocol<C, F>>::UnravelFuture;

    type Coalesce = Bottom;

    type CoalesceError = <Cons<T1, Cons<T2, Cons<T3, Cons<T4, Cons<T5, Cons<T6, Nil>>>>>> as Protocol<C, F>>::CoalesceError;

    type CoalesceFuture = Tupled<<Cons<T1, Cons<T2, Cons<T3, Cons<T4, Cons<T5, Cons<T6, Nil>>>>>> as Protocol<C, F>>::CoalesceFuture, (T1, T2, T3, T4, T5, T6), Self::CoalesceError>;

    open spec fn unraveling(
        self,
        channel: <C as Channels<<C as Dispatch>::Handle, Bottom>>::Unravel,
        ctx: C::V,
    ) -> (Self::UnravelFuture, C::V) {
        <Cons<T1, Cons<T2, Cons<T3, Cons<T4, Cons<T5, Cons<T6, Nil>>>>>> as Protocol<C, F>>::unraveling(self.list(), channel, ctx)
    }

    fn unravel(
        self,
        channel: <C as Channels<<C as Dispatch>::Handle, Bottom>>::Unravel,
        ctx: &mut C,
    ) -> (r: Self::UnravelFuture) {
        <Cons<T1, Cons<T2, Cons<T3, Cons<T4, Cons<T5, Cons<T6, Nil>>>>>> as Protocol<C, F>>::unravel(self.into_list(), channel, ctx)
    }

    open spec fn coalescing(
        channel: <C as Channels<<C as Dispatch>::Handle, Bottom>>::Coalesce,
        ctx: C::V,
    ) -> (Self::CoalesceFuture, C::V) {
        let start = <Cons<T1, Cons<T2, Cons<T3, Cons<T4, Cons<T5, Cons<T6, Nil>>>>>> as Protocol<C, F>>::coalescing(channel, ctx);
        (Tupled(start.0, PhantomData), start.1)
    }

    fn coalesce(
        channel: <C as Channels<<C as Dispatch>::Handle, Bottom>>::Coalesce,
        ctx: &mut C,
    ) -> (r: Self::CoalesceFuture) {
        Tupled::new(<Cons<T1, Cons<T2, Cons<T3, Cons<T4, Cons<T5, Cons<T6, Nil>>>>>> as Protocol<C, F>>::coalesce(channel, ctx))
    }
}

impl<T1, T2, T3, T4, T5, T6, T7> Listed for (T1, T2, T3, T4, T5, T6, T7) {
    type List = Cons<T1, Cons<T2, Cons<T3, Cons<T4, Cons<T5, Cons<T6, Cons<T7, Nil>>>>>>>;

    open spec fn list(self) -> Cons<T1, Cons<T2, Cons<T3, Cons<T4, Cons<T5, Cons<T6, Cons<T7, Nil>>>>>>> {
        Cons(self.0, Cons(self.1, Cons(self.2, Cons(self.3, Cons(self.4, Cons(self.5, Cons(self.6, Nil)))))))
    }

    fn into_list(self) -> (r: Cons<T1, Cons<T2, Cons<T3, Cons<T4, Cons<T5, Cons<T6, Cons<T7, Nil>>>>>>>) {
        Cons(self.0, Cons(self.1, Cons(self.2, Cons(self.3, Cons(self.4, Cons(self.5, Cons(self.6, Nil)))))))
    }

    open spec fn tuple(list: Cons<T1, Cons<T2, Cons<T3, Cons<T4, Cons<T5, Cons<T6, Cons<T7, Nil>>>>>>>) -> (T1, T2, T3, T4, T5, T6, T7) {
        let Cons(v1, Cons(v2, Cons(v3, Cons(v4, Cons(v5, Cons(v6, Cons(v7, Nil))))))) = list;
        (v1, v2, v3, v4, v5, v6, v7)
    }

    fn from_list(list: Cons<T1, Cons<T2, Cons<T3, Cons<T4, Cons<T5, Cons<T6, Cons<T7, Nil>>>>>>>) -> (r: (T1, T2, T3, T4, T5, T6, T7)) {
        let Cons(v1, Cons(v2, Cons(v3, Cons(v4, Cons(v5, Cons(v6, Cons(v7, Nil))))))) = list;
        (v1, v2, v3, v4, v5, v6, v7)
    }

    proof fn lemma_list(self) {
    }
}

/// A tuple of seven travels as the list of its components.
impl<C, T1, T2, T3, T4, T5, T6, T7, F> Protocol<C, F> for (T1, T2, T3, T4, T5, T6, T7) where
    C: Pass<T1, F> + Pass<T2, F> + Pass<T3, F> + Pass<T4, F> + Pass<T5, F> + Pass<T6, F> + Pass<T7, F> + Channels<<C as Dispatch>::Handle, Bottom>,
    T1: Protocol<<C as Spawn<T1, F>>::Target, F> + Protocol<<C as Join<T1, F>>::Target, F>,
    T2: Protocol<<C as Spawn<T2, F>>::Target, F> + Protocol<<C as Join<T2, F>>::Target, F>,
    T3: Protocol<<C as Spawn<T3, F>>::Target, F> + Protocol<<C as Join<T3, F>>::Target, F>,
    T4: Protocol<<C as Spawn<T4, F>>::Target, F> + Protocol<<C as Join<T4, F>>::Target, F>,
    T5: Protocol<<C as Spawn<T5, F>>::Target, F> + Protocol<<C as Join<T5, F>>::Target, F>,
    T6: Protocol<<C as Spawn<T6, F>>::Target, F> + Protocol<<C as Join<T6, F>>::Target, F>,
    T7: Protocol<<C as Spawn<T7, F>>::Target, F> + Protocol<<C as Join<T7, F>>::Target, F>,
 {
    type Unravel = <C as Dispatch>::Handle;

    type UnravelError = <Cons<T1, Cons<T2, Cons<T3, Cons<T4, Cons<T5, Cons<T6, Cons<T7, Nil>>>>>>> as Protocol<C, F>>::UnravelError;

    type UnravelFuture = <Cons<T1, Cons<T2, Cons<T3, Cons<T4, Cons<T5, Cons<T6, Cons<T7, Nil>>>>>>> as Protocol<C, F>>::UnravelFuture;

    type Coalesce = Bottom;

    type CoalesceError = <Cons<T1, Cons<T2, Cons<T3, Cons<T4, Cons<T5, Cons<T6, Cons<T7, Nil>>>>>>> as Protocol<C, F>>::CoalesceError;

    type CoalesceFuture = Tupled<<Cons<T1, Cons<T2, Cons<T3, Cons<T4, Cons<T5, Cons<T6, Cons<T7, Nil>>>>>>> as Protocol<C, F>>::CoalesceFuture, (T1, T2, T3, T4, T5, T6, T7), Self::CoalesceError>;

    open spec fn unraveling(
        self,
        channel: <C as Channels<<C as Dispatch>::Handle, Bottom>>::Unravel,
        ctx: C::V,
    ) -> (Self::UnravelFuture, C::V) {
        <Cons<T1, Cons<T2, Cons<T3, Cons<T4, Cons<T5, Cons<T6, Cons<T7, Nil>>>>>>> as Protocol<C, F>>::unraveling(self.list(), channel, ctx)
    }

    fn unravel(
        self,
        channel: <C as Channels<<C as Dispatch>::Handle, Bottom>>::Unravel,
        ctx: &mut C,
    ) -> (r: Self::UnravelFuture) {
        <Cons<T1, Cons<T2, Cons<T3, Cons<T4, Cons<T5, Cons<T6, Cons<T7, Nil>>>>>>> as Protocol<C, F>>::unravel(self.into_list(), channel, ctx)
    }

    open spec fn coalescing(
        channel: <C as Channels<<C as Dispatch>::Handle, Bottom>>::Coalesce,
        ctx: C::V,
    ) -> (Self::CoalesceFuture, C::V) {
        let start = <Cons<T1, Cons<T2, Cons<T3, Cons<T4, Cons<T5, Cons<T6, Cons<T7, Nil>>>>>>> as Protocol<C, F>>::coalescing(channel, ctx);
        (Tupled(start.0, PhantomData), start.1)
    }

    fn coalesce(
        channel: <C as Channels<<C as Dispatch>::Handle, Bottom>>::Coalesce,
        ctx: &mut C,
    ) -> (r: Self::CoalesceFuture) {
        Tupled::new(<Cons<T1, Cons<T2, Cons<T3, Cons<T4, Cons<T5, Cons<T6, Cons<T7, Nil>>>>>>> as Protocol<C, F>>::coalesce(channel, ctx))
    }
}

impl<T1, T2, T3, T4, T5, T6, T7, T8> Listed for (T1, T2, T3, T4, T5, T6, T7, T8) {
    type List = Cons<T1, Cons<T2, Cons<T3, Cons<T4, Cons<T5, Cons<T6, Cons<T7, Cons<T8, Nil>>>>>>>>;

    open spec fn list(self) -> Cons<T1, Cons<T2, Cons<T3, Cons<T4, Cons<T5, Cons<T6, Cons<T7, Cons<T8, Nil>>>>>>>> {
        Cons(self.0, Cons(self.1, Cons(self.2, Cons(self.3, Cons(self.4, Cons(self.5, Cons(self.6, Cons(self.7, Nil))))))))
    }

    fn into_list(self) -> (r: Cons<T1, Cons<T2, Cons<T3, Cons<T4, Cons<T5, Cons<T6, Cons<T7, Cons<T8, Nil>>>>>>>>) {
        Cons(self.0, Cons(self.1, Cons(self.2, Cons(self.3, Cons(self.4, Cons(self.5, Cons(self.6, Cons(self.7, Nil))))))))
    }

    open spec fn tuple(list: Cons<T1, Cons<T2, Cons<T3, Cons<T4, Cons<T5, Cons<T6, Cons<T7, Cons<T8, Nil>>>>>>>>) -> (T1, T2, T3, T4, T5, T6, T7, T8) {
        let Cons(v1, Cons(v2, Cons(v3, Cons(v4, Cons(v5, Cons(v6, Cons(v7, Cons(v8, Nil)))))))) = list;
        (v1, v2, v3, v4, v5, v6, v7, v8)
    }

    fn from_list(list: Cons<T1, Cons<T2, Cons<T3, Cons<T4, Cons<T5, Cons<T6, Cons<T7, Cons<T8, Nil>>>>>>>>) -> (r: (T1, T2, T3, T4, T5, T6, T7, T8)) {
        let Cons(v1, Cons(v2, Cons(v3, Cons(v4, Cons(v5, Cons(v6, Cons(v7, Cons(v8, Nil)))))))) = list;
        (v1, v2, v3, v4, v5, v6, v7, v8)
    }

    proof fn lemma_list(self) {
    }
}

/// A tuple of eight travels as the list of its components.
impl<C, T1, T2, T3, T4, T5, T6, T7, T8, F> Protocol<C, F> for (T1, T2, T3, T4, T5, T6, T7, T8) where
    C: Pass<T1, F> + Pass<T2, F> + Pass<T3, F> + Pass<T4, F> + Pass<T5, F> + Pass<T6, F> + Pass<T7, F> + Pass<T8, F> + Channels<<C as Dispatch>::Handle, Bottom>,
    T1: Protocol<<C as Spawn<T1, F>>::Target, F> + Protocol<<C as Join<T1, F>>::Target, F>,
    T2: Protocol<<C as Spawn<T2, F>>::Target, F> + Protocol<<C as Join<T2, F>>::Target, F>,
    T3: Protocol<<C as Spawn<T3, F>>::Target, F> + Protocol<<C as Join<T3, F>>::Target, F>,
    T4: Protocol<<C as Spawn<T4, F>>::Target, F> + Protocol<<C as Join<T4, F>>::Target, F>,
    T5: Protocol<<C as Spawn<T5, F>>::Target, F> + Protocol<<C as Join<T5, F>>::Target, F>,
    T6: Protocol<<C as Spawn<T6, F>>::Target, F> + Protocol<<C as Join<T6, F>>::Target, F>,
    T7: Protocol<<C as Spawn<T7, F>>::Target, F> + Protocol<<C as Join<T7, F>>::Target, F>,
    T8: Protocol<<C as Spawn<T8, F>>::Target, F> + Protocol<<C as Join<T8, F>>::Target, F>,
 {
    type Unravel = <C as Dispatch>::Handle;

    type UnravelError = <Cons<T1, Cons<T2, Cons<T3, Cons<T4, Cons<T5, Cons<T6, Cons<T7, Cons<T8, Nil>>>>>>>> as Protocol<C, F>>::UnravelError;

    type UnravelFuture = <Cons<T1, Cons<T2, Cons<T3, Cons<T4, Cons<T5, Cons<T6, Cons<T7, Cons<T8, Nil>>>>>>>> as Protocol<C, F>>::UnravelFuture;

    type Coalesce = Bottom;

    type CoalesceError = <Cons<T1, Cons<T2, Cons<T3, Cons<T4, Cons<T5, Cons<T6, Cons<T7, Cons<T8, Nil>>>>>>>> as Protocol<C, F>>::CoalesceError;

    type CoalesceFuture = Tupled<<Cons<T1, Cons<T2, Cons<T3, Cons<T4, Cons<T5, Cons<T6, Cons<T7, Cons<T8, Nil>>>>>>>> as Protocol<C, F>>::CoalesceFuture, (T1, T2, T3, T4, T5, T6, T7, T8), Self::CoalesceError>;

    open spec fn unraveling(
        self,
        channel: <C as Channels<<C as Dispatch>::Handle, Bottom>>::Unravel,
        ctx: C::V,
    ) -> (Self::UnravelFuture, C::V) {
        <Cons<T1, Cons<T2, Cons<T3, Cons<T4, Cons<T5, Cons<T6, Cons<T7, Cons<T8, Nil>>>>>>>> as Protocol<C, F>>::unraveling(self.list(), channel, ctx)
    }

    fn unravel(
        self,
        channel: <C as Channels<<C as Dispatch>::Handle, Bottom>>::Unravel,
        ctx: &mut C,
    ) -> (r: Self::UnravelFuture) {
        <Cons<T1, Cons<T2, Cons<T3, Cons<T4, Cons<T5, Cons<T6, Cons<T7, Cons<T8, Nil>>>>>>>> as Protocol<C, F>>::unravel(self.into_list(), channel, ctx)
    }

    open spec fn coalescing(
        channel: <C as Channels<<C as Dispatch>::Handle, Bottom>>::Coalesce,
        ctx: C::V,
    ) -> (Self::CoalesceFuture, C::V) {
        let start = <Cons<T1, Cons<T2, Cons<T3, Cons<T4, Cons<T5, Cons<T6, Cons<T7, Cons<T8, Nil>>>>>>>> as Protocol<C, F>>::coalescing(channel, ctx);
        (Tupled(start.0, PhantomData), start.1)
    }

    fn coalesce(
        channel: <C as Channels<<C as Dispatch>::Handle, Bottom>>::Coalesce,
        ctx: &mut C,
    ) -> (r: Self::CoalesceFuture) {
        Tupled::new(<Cons<T1, Cons<T2, Cons<T3, Cons<T4, Cons<T5, Cons<T6, Cons<T7, Cons<T8, Nil>>>>>>>> as Protocol<C, F>>::coalesce(channel, ctx))
    }
}

impl<T1, T2, T3, T4, T5, T6, T7, T8, T9> Listed for (T1, T2, T3, T4, T5, T6, T7, T8, T9) {
    type List = Cons<T1, Cons<T2, Cons<T3, Cons<T4, Cons<T5, Cons<T6, Cons<T7, Cons<T8, Cons<T9, Nil>>>>>>>>>;

    open spec fn list(self) -> Cons<T1, Cons<T2, Cons<T3, Cons<T4, Cons<T5, Cons<T6, Cons<T7, Cons<T8, Cons<T9, Nil>>>>>>>>> {
        Cons(self.0, Cons(self.1, Cons(self.2, Cons(self.3, Cons(self.4, Cons(self.5, Cons(self.6, Cons(self.7, Cons(self.8, Nil)))))))))
    }

    fn into_list(self) -> (r: Cons<T1, Cons<T2, Cons<T3, Cons<T4, Cons<T5, Cons<T6, Cons<T7, Cons<T8, Cons<T9, Nil>>>>>>>>>) {
        Cons(self.0, Cons(self.1, Cons(self.2, Cons(self.3, Cons(self.4, Cons(self.5, Cons(self.6, Cons(self.7, Cons(self.8, Nil)))))))))
    }

    open spec fn tuple(list: Cons<T1, Cons<T2, Cons<T3, Cons<T4, Cons<T5, Cons<T6, Cons<T7, Cons<T8, Cons<T9, Nil>>>>>>>>>) -> (T1, T2, T3, T4, T5, T6, T7, T8, T9) {
        let Cons(v1, Cons(v2, Cons(v3, Cons(v4, Cons(v5, Cons(v6, Cons(v7, Cons(v8, Cons(v9, Nil))))))))) = list;
        (v1, v2, v3, v4, v5, v6, v7, v8, v9)
    }

    fn from_list(list: Cons<T1, Cons<T2, Cons<T3, Cons<T4, Cons<T5, Cons<T6, Cons<T7, Cons<T8, Cons<T9, Nil>>>>>>>>>) -> (r: (T1, T2, T3, T4, T5, T6, T7, T8, T9)) {
        let Cons(v1, Cons(v2, Cons(v3, Cons(v4, Cons(v5, Cons(v6, Cons(v7, Cons(v8, Cons(v9, Nil))))))))) = list;
        (v1, v2, v3, v4, v5, v6, v7, v8, v9)
    }

    proof fn lemma_list(self) {
    }
}

/// A tuple of nine travels as the list of its components.
impl<C, T1, T2, T3, T4, T5, T6, T7, T8, T9, F> Protocol<C, F> for (T1, T2, T3, T4, T5, T6, T7, T8, T9) where
    C: Pass<T1, F> + Pass<T2, F> + Pass<T3, F> + Pass<T4, F> + Pass<T5, F> + Pass<T6, F> + Pass<T7, F> + Pass<T8, F> + Pass<T9, F> + Channels<<C as Dispatch>::Handle, Bottom>,
    T1: Protocol<<C as Spawn<T1, F>>::Target, F> + Protocol<<C as Join<T1, F>>::Target, F>,
    T2: Protocol<<C as Spawn<T2, F>>::Target, F> + Protocol<<C as Join<T2, F>>::Target, F>,
    T3: Protocol<<C as Spawn<T3, F>>::Target, F> + Protocol<<C as Join<T3, F>>::Target, F>,
    T4: Protocol<<C as Spawn<T4, F>>::Target, F> + Protocol<<C as Join<T4, F>>::Target, F>,
    T5: Protocol<<C as Spawn<T5, F>>::Target, F> + Protocol<<C as Join<T5, F>>::Target, F>,
    T6: Protocol<<C as Spawn<T6, F>>::Target, F> + Protocol<<C as Join<T6, F>>::Target, F>,
    T7: Protocol<<C as Spawn<T7, F>>::Target, F> + Protocol<<C as Join<T7, F>>::Target, F>,
    T8: Protocol<<C as Spawn<T8, F>>::Target, F> + Protocol<<C as Join<T8, F>>::Target, F>,
    T9: Protocol<<C as Spawn<T9, F>>::Target, F> + Protocol<<C as Join<T9, F>>::Target, F>,
 {
    type Unravel = <C as Dispatch>::Handle;

    type UnravelError = <Cons<T1, Cons<T2, Cons<T3, Cons<T4, Cons<T5, Cons<T6, Cons<T7, Cons<T8, Cons<T9, Nil>>>>>>>>> as Protocol<C, F>>::UnravelError;

    type UnravelFuture = <Cons<T1, Cons<T2, Cons<T3, Cons<T4, Cons<T5, Cons<T6, Cons<T7, Cons<T8, Cons<T9, Nil>>>>>>>>> as Protocol<C, F>>::UnravelFuture;

    type Coalesce = Bottom;

    type CoalesceError = <Cons<T1, Cons<T2, Cons<T3, Cons<T4, Cons<T5, Cons<T6, Cons<T7, Cons<T8, Cons<T9, Nil>>>>>>>>> as Protocol<C, F>>::CoalesceError;

    type CoalesceFuture = Tupled<<Cons<T1, Cons<T2, Cons<T3, Cons<T4, Cons<T5, Cons<T6, Cons<T7, Cons<T8, Cons<T9, Nil>>>>>>>>> as Protocol<C, F>>::CoalesceFuture, (T1, T2, T3, T4, T5, T6, T7, T8, T9), Self::CoalesceError>;

    open spec fn unraveling(
        self,
        channel: <C as Channels<<C as Dispatch>::Handle, Bottom>>::Unravel,
        ctx: C::V,
    ) -> (Self::UnravelFuture, C::V) {
        <Cons<T1, Cons<T2, Cons<T3, Cons<T4, Cons<T5, Cons<T6, Cons<T7, Cons<T8, Cons<T9, Nil>>>>>>>>> as Protocol<C, F>>::unraveling(self.list(), channel, ctx)
    }

    fn unravel(
        self,
        channel: <C as Channels<<C as Dispatch>::Handle, Bottom>>::Unravel,
        ctx: &mut C,
    ) -> (r: Self::UnravelFuture) {
        <Cons<T1, Cons<T2, Cons<T3, Cons<T4, Cons<T5, Cons<T6, Cons<T7, Cons<T8, Cons<T9, Nil>>>>>>>>> as Protocol<C, F>>::unravel(self.into_list(), channel, ctx)
    }

    open spec fn coalescing(
        channel: <C as Channels<<C as Dispatch>::Handle, Bottom>>::Coalesce,
        ctx: C::V,
    ) -> (Self::CoalesceFuture, C::V) {
        let start = <Cons<T1, Cons<T2, Cons<T3, Cons<T4, Cons<T5, Cons<T6, Cons<T7, Cons<T8, Cons<T9, Nil>>>>>>>>> as Protocol<C, F>>::coalescing(channel, ctx);
        (Tupled(start.0, PhantomData), start.1)
    }

    fn coalesce(
        channel: <C as Channels<<C as Dispatch>::Handle, Bottom>>::Coalesce,
        ctx: &mut C,
    ) -> (r: Self::CoalesceFuture) {
        Tupled::new(<Cons<T1, Cons<T2, Cons<T3, Cons<T4, Cons<T5, Cons<T6, Cons<T7, Cons<T8, Cons<T9, Nil>>>>>>>>> as Protocol<C, F>>::coalesce(channel, ctx))
    }
}

impl<T1, T2, T3, T4, T5, T6, T7, T8, T9, T10> Listed for (T1, T2, T3, T4, T5, T6, T7, T8, T9, T10) {
    type List = Cons<T1, Cons<T2, Cons<T3, Cons<T4, Cons<T5, Cons<T6, Cons<T7, Cons<T8, Cons<T9, Cons<T10, Nil>>>>>>>>>>;

    open spec fn list(self) -> Cons<T1, Cons<T2, Cons<T3, Cons<T4, Cons<T5, Cons<T6, Cons<T7, Cons<T8, Cons<T9, Cons<T10, Nil>>>>>>>>>> {
        Cons(self.0, Cons(self.1, Cons(self.2, Cons(self.3, Cons(self.4, Cons(self.5, Cons(self.6, Cons(self.7, Cons(self.8, Cons(self.9, Nil))))))))))
    }

    fn into_list(self) -> (r: Cons<T1, Cons<T2, Cons<T3, Cons<T4, Cons<T5, Cons<T6, Cons<T7, Cons<T8, Cons<T9, Cons<T10, Nil>>>>>>>>>>) {
        Cons(self.0, Cons(self.1, Cons(self.2, Cons(self.3, Cons(self.4, Cons(self.5, Cons(self.6, Cons(self.7, Cons(self.8, Cons(self.9, Nil))))))))))
    }

    open spec fn tuple(list: Cons<T1, Cons<T2, Cons<T3, Cons<T4, Cons<T5, Cons<T6, Cons<T7, Cons<T8, Cons<T9, Cons<T10, Nil>>>>>>>>>>) -> (T1, T2, T3, T4, T5, T6, T7, T8, T9, T10) {
        let Cons(v1, Cons(v2, Cons(v3, Cons(v4, Cons(v5, Cons(v6, Cons(v7, Cons(v8, Cons(v9, Cons(v10, Nil)))))))))) = list;
        (v1, v2, v3, v4, v5, v6, v7, v8, v9, v10)
    }

    fn from_list(list: Cons<T1, Cons<T2, Cons<T3, Cons<T4, Cons<T5, Cons<T6, Cons<T7, Cons<T8, Cons<T9, Cons<T10, Nil>>>>>>>>>>) -> (r: (T1, T2, T3, T4, T5, T6, T7, T8, T9, T10)) {
        let Cons(v1, Cons(v2, Cons(v3, Cons(v4, Cons(v5, Cons(v6, Cons(v7, Cons(v8, Cons(v9, Cons(v10, Nil)))))))))) = list;
        (v1, v2, v3, v4, v5, v6, v7, v8, v9, v10)
    }

    proof fn lemma_list(self) {
    }
}

/// A tuple of ten travels as the list of its components.
impl<C, T1, T2, T3, T4, T5, T6, T7, T8, T9, T10, F> Protocol<C, F> for (T1, T2, T3, T4, T5, T6, T7, T8, T9, T10) where
    C: Pass<T1, F> + Pass<T2, F> + Pass<T3, F> + Pass<T4, F> + Pass<T5, F> + Pass<T6, F> + Pass<T7, F> + Pass<T8, F> + Pass<T9, F> + Pass<T10, F> + Channels<<C as Dispatch>::Handle, Bottom>,
    T1: Protocol<<C as Spawn<T1, F>>::Target, F> + Protocol<<C as Join<T1, F>>::Target, F>,
    T2: Protocol<<C as Spawn<T2, F>>::Target, F> + Protocol<<C as Join<T2, F>>::Target, F>,
    T3: Protocol<<C as Spawn<T3, F>>::Target, F> + Protocol<<C as Join<T3, F>>::Target, F>,
    T4: Protocol<<C as Spawn<T4, F>>::Target, F> + Protocol<<C as Join<T4, F>>::Target, F>,
    T5: Protocol<<C as Spawn<T5, F>>::Target, F> + Protocol<<C as Join<T5, F>>::Target, F>,
    T6: Protocol<<C as Spawn<T6, F>>::Target, F> + Protocol<<C as Join<T6, F>>::Target, F>,
    T7: Protocol<<C as Spawn<T7, F>>::Target, F> + Protocol<<C as Join<T7, F>>::Target, F>,
    T8: Protocol<<C as Spawn<T8, F>>::Target, F> + Protocol<<C as Join<T8, F>>::Target, F>,
    T9: Protocol<<C as Spawn<T9, F>>::Target, F> + Protocol<<C as Join<T9, F>>::Target, F>,
    T10: Protocol<<C as Spawn<T10, F>>::Target, F> + Protocol<<C as Join<T10, F>>::Target, F>,
 {
    type Unravel = <C as Dispatch>::Handle;

    type UnravelError = <Cons<T1, Cons<T2, Cons<T3, Cons<T4, Cons<T5, Cons<T6, Cons<T7, Cons<T8, Cons<T9, Cons<T10, Nil>>>>>>>>>> as Protocol<C, F>>::UnravelError;

    type UnravelFuture = <Cons<T1, Cons<T2, Cons<T3, Cons<T4, Cons<T5, Cons<T6, Cons<T7, Cons<T8, Cons<T9, Cons<T10, Nil>>>>>>>>>> as Protocol<C, F>>::UnravelFuture;

    type Coalesce = Bottom;

    type CoalesceError = <Cons<T1, Cons<T2, Cons<T3, Cons<T4, Cons<T5, Cons<T6, Cons<T7, Cons<T8, Cons<T9, Cons<T10, Nil>>>>>>>>>> as Protocol<C, F>>::CoalesceError;

    type CoalesceFuture = Tupled<<Cons<T1, Cons<T2, Cons<T3, Cons<T4, Cons<T5, Cons<T6, Cons<T7, Cons<T8, Cons<T9, Cons<T10, Nil>>>>>>>>>> as Protocol<C, F>>::CoalesceFuture, (T1, T2, T3, T4, T5, T6, T7, T8, T9, T10), Self::CoalesceError>;

    open spec fn unraveling(
        self,
        channel: <C as Channels<<C as Dispatch>::Handle, Bottom>>::Unravel,
        ctx: C::V,
    ) -> (Self::UnravelFuture, C::V) {
        <Cons<T1, Cons<T2, Cons<T3, Cons<T4, Cons<T5, Cons<T6, Cons<T7, Cons<T8, Cons<T9, Cons<T10, Nil>>>>>>>>>> as Protocol<C, F>>::unraveling(self.list(), channel, ctx)
    }

    fn unravel(
        self,
        channel: <C as Channels<<C as Dispatch>::Handle, Bottom>>::Unravel,
        ctx: &mut C,
    ) -> (r: Self::UnravelFuture) {
        <Cons<T1, Cons<T2, Cons<T3, Cons<T4, Cons<T5, Cons<T6, Cons<T7, Cons<T8, Cons<T9, Cons<T10, Nil>>>>>>>>>> as Protocol<C, F>>::unravel(self.into_list(), channel, ctx)
    }

    open spec fn coalescing(
        channel: <C as Channels<<C as Dispatch>::Handle, Bottom>>::Coalesce,
        ctx: C::V,
    ) -> (Self::CoalesceFuture, C::V) {
        let start = <Cons<T1, Cons<T2, Cons<T3, Cons<T4, Cons<T5, Cons<T6, Cons<T7, Cons<T8, Cons<T9, Cons<T10, Nil>>>>>>>>>> as Protocol<C, F>>::coalescing(channel, ctx);
        (Tupled(start.0, PhantomData), start.1)
    }

    fn coalesce(
        channel: <C as Channels<<C as Dispatch>::Handle, Bottom>>::Coalesce,
        ctx: &mut C,
    ) -> (r: Self::CoalesceFuture) {
        Tupled::new(<Cons<T1, Cons<T2, Cons<T3, Cons<T4, Cons<T5, Cons<T6, Cons<T7, Cons<T8, Cons<T9, Cons<T10, Nil>>>>>>>>>> as Protocol<C, F>>::coalesce(channel, ctx))
    }
}

impl<T1, T2, T3, T4, T5, T6, T7, T8, T9, T10, T11> Listed for (T1, T2, T3, T4, T5, T6, T7, T8, T9, T10, T11) {
    type List = Cons<T1, Cons<T2, Cons<T3, Cons<T4, Cons<T5, Cons<T6, Cons<T7, Cons<T8, Cons<T9, Cons<T10, Cons<T11, Nil>>>>>>>>>>>;

    open spec fn list(self) -> Cons<T1, Cons<T2, Cons<T3, Cons<T4, Cons<T5, Cons<T6, Cons<T7, Cons<T8, Cons<T9, Cons<T10, Cons<T11, Nil>>>>>>>>>>> {
        Cons(self.0, Cons(self.1, Cons(self.2, Cons(self.3, Cons(self.4, Cons(self.5, Cons(self.6, Cons(self.7, Cons(self.8, Cons(self.9, Cons(self.10, Nil)))))))))))
    }

    fn into_list(self) -> (r: Cons<T1, Cons<T2, Cons<T3, Cons<T4, Cons<T5, Cons<T6, Cons<T7, Cons<T8, Cons<T9, Cons<T10, Cons<T11, Nil>>>>>>>>>>>) {
        Cons(self.0, Cons(self.1, Cons(self.2, Cons(self.3, Cons(self.4, Cons(self.5, Cons(self.6, Cons(self.7, Cons(self.8, Cons(self.9, Cons(self.10, Nil)))))))))))
    }

    open spec fn tuple(list: Cons<T1, Cons<T2, Cons<T3, Cons<T4, Cons<T5, Cons<T6, Cons<T7, Cons<T8, Cons<T9, Cons<T10, Cons<T11, Nil>>>>>>>>>>>) -> (T1, T2, T3, T4, T5, T6, T7, T8, T9, T10, T11) {
        let Cons(v1, Cons(v2, Cons(v3, Cons(v4, Cons(v5, Cons(v6, Cons(v7, Cons(v8, Cons(v9, Cons(v10, Cons(v11, Nil))))))))))) = list;
        (v1, v2, v3, v4, v5, v6, v7, v8, v9, v10, v11)
    }

    fn from_list(list: Cons<T1, Cons<T2, Cons<T3, Cons<T4, Cons<T5, Cons<T6, Cons<T7, Cons<T8, Cons<T9, Cons<T10, Cons<T11, Nil>>>>>>>>>>>) -> (r: (T1, T2, T3, T4, T5, T6, T7, T8, T9, T10, T11)) {
        let Cons(v1, Cons(v2, Cons(v3, Cons(v4, Cons(v5, Cons(v6, Cons(v7, Cons(v8, Cons(v9, Cons(v10, Cons(v11, Nil))))))))))) = list;
        (v1, v2, v3, v4, v5, v6, v7, v8, v9, v10, v11)
    }

    proof fn lemma_list(self) {
    }
}

/// A tuple of eleven travels as the list of its components.
impl<C, T1, T2, T3, T4, T5, T6, T7, T8, T9, T10, T11, F> Protocol<C, F> for (T1, T2, T3, T4, T5, T6, T7, T8, T9, T10, T11) where
    C: Pass<T1, F> + Pass<T2, F> + Pass<T3, F> + Pass<T4, F> + Pass<T5, F> + Pass<T6, F> + Pass<T7, F> + Pass<T8, F> + Pass<T9, F> + Pass<T10, F> + Pass<T11, F> + Channels<<C as Dispatch>::Handle, Bottom>,
    T1: Protocol<<C as Spawn<T1, F>>::Target, F> + Protocol<<C as Join<T1, F>>::Target, F>,
    T2: Protocol<<C as Spawn<T2, F>>::Target, F> + Protocol<<C as Join<T2, F>>::Target, F>,
    T3: Protocol<<C as Spawn<T3, F>>::Target, F> + Protocol<<C as Join<T3, F>>::Target, F>,
    T4: Protocol<<C as Spawn<T4, F>>::Target, F> + Protocol<<C as Join<T4, F>>::Target, F>,
    T5: Protocol<<C as Spawn<T5, F>>::Target, F> + Protocol<<C as Join<T5, F>>::Target, F>,
    T6: Protocol<<C as Spawn<T6, F>>::Target, F> + Protocol<<C as Join<T6, F>>::Target, F>,
    T7: Protocol<<C as Spawn<T7, F>>::Target, F> + Protocol<<C as Join<T7, F>>::Target, F>,
    T8: Protocol<<C as Spawn<T8, F>>::Target, F> + Protocol<<C as Join<T8, F>>::Target, F>,
    T9: Protocol<<C as Spawn<T9, F>>::Target, F> + Protocol<<C as Join<T9, F>>::Target, F>,
    T10: Protocol<<C as Spawn<T10, F>>::Target, F> + Protocol<<C as Join<T10, F>>::Target, F>,
    T11: Protocol<<C as Spawn<T11, F>>::Target, F> + Protocol<<C as Join<T11, F>>::Target, F>,
 {
    type Unravel = <C as Dispatch>::Handle;

    type UnravelError = <Cons<T1, Cons<T2, Cons<T3, Cons<T4, Cons<T5, Cons<T6, Cons<T7, Cons<T8, Cons<T9, Cons<T10, Cons<T11, Nil>>>>>>>>>>> as Protocol<C, F>>::UnravelError;

    type UnravelFuture = <Cons<T1, Cons<T2, Cons<T3, Cons<T4, Cons<T5, Cons<T6, Cons<T7, Cons<T8, Cons<T9, Cons<T10, Cons<T11, Nil>>>>>>>>>>> as Protocol<C, F>>::UnravelFuture;

    type Coalesce = Bottom;

    type CoalesceError = <Cons<T1, Cons<T2, Cons<T3, Cons<T4, Cons<T5, Cons<T6, Cons<T7, Cons<T8, Cons<T9, Cons<T10, Cons<T11, Nil>>>>>>>>>>> as Protocol<C, F>>::CoalesceError;

    type CoalesceFuture = Tupled<<Cons<T1, Cons<T2, Cons<T3, Cons<T4, Cons<T5, Cons<T6, Cons<T7, Cons<T8, Cons<T9, Cons<T10, Cons<T11, Nil>>>>>>>>>>> as Protocol<C, F>>::CoalesceFuture, (T1, T2, T3, T4, T5, T6, T7, T8, T9, T10, T11), Self::CoalesceError>;

    open spec fn unraveling(
        self,
        channel: <C as Channels<<C as Dispatch>::Handle, Bottom>>::Unravel,
        ctx: C::V,
    ) -> (Self::UnravelFuture, C::V) {
        <Cons<T1, Cons<T2, Cons<T3, Cons<T4, Cons<T5, Cons<T6, Cons<T7, Cons<T8, Cons<T9, Cons<T10, Cons<T11, Nil>>>>>>>>>>> as Protocol<C, F>>::unraveling(self.list(), channel, ctx)
    }

    fn unravel(
        self,
        channel: <C as Channels<<C as Dispatch>::Handle, Bottom>>::Unravel,
        ctx: &mut C,
    ) -> (r: Self::UnravelFuture) {
        <Cons<T1, Cons<T2, Cons<T3, Cons<T4, Cons<T5, Cons<T6, Cons<T7, Cons<T8, Cons<T9, Cons<T10, Cons<T11, Nil>>>>>>>>>>> as Protocol<C, F>>::unravel(self.into_list(), channel, ctx)
    }

    open spec fn coalescing(
        channel: <C as Channels<<C as Dispatch>::Handle, Bottom>>::Coalesce,
        ctx: C::V,
    ) -> (Self::CoalesceFuture, C::V) {
        let start = <Cons<T1, Cons<T2, Cons<T3, Cons<T4, Cons<T5, Cons<T6, Cons<T7, Cons<T8, Cons<T9, Cons<T10, Cons<T11, Nil>>>>>>>>>>> as Protocol<C, F>>::coalescing(channel, ctx);
        (Tupled(start.0, PhantomData), start.1)
    }

    fn coalesce(
        channel: <C as Channels<<C as Dispatch>::Handle, Bottom>>::Coalesce,
        ctx: &mut C,
    ) -> (r: Self::CoalesceFuture) {
        Tupled::new(<Cons<T1, Cons<T2, Cons<T3, Cons<T4, Cons<T5, Cons<T6, Cons<T7, Cons<T8, Cons<T9, Cons<T10, Cons<T11, Nil>>>>>>>>>>> as Protocol<C, F>>::coalesce(channel, ctx))
    }
}

impl<T1, T2, T3, T4, T5, T6, T7, T8, T9, T10, T11, T12> Listed for (T1, T2, T3, T4, T5, T6, T7, T8, T9, T10, T11, T12) {
    type List = Cons<T1, Cons<T2, Cons<T3, Cons<T4, Cons<T5, Cons<T6, Cons<T7, Cons<T8, Cons<T9, Cons<T10, Cons<T11, Cons<T12, Nil>>>>>>>>>>>>;

    open spec fn list(self) -> Cons<T1, Cons<T2, Cons<T3, Cons<T4, Cons<T5, Cons<T6, Cons<T7, Cons<T8, Cons<T9, Cons<T10, Cons<T11, Cons<T12, Nil>>>>>>>>>>>> {
        Cons(self.0, Cons(self.1, Cons(self.2, Cons(self.3, Cons(self.4, Cons(self.5, Cons(self.6, Cons(self.7, Cons(self.8, Cons(self.9, Cons(self.10, Cons(self.11, Nil))))))))))))
    }

    fn into_list(self) -> (r: Cons<T1, Cons<T2, Cons<T3, Cons<T4, Cons<T5, Cons<T6, Cons<T7, Cons<T8, Cons<T9, Cons<T10, Cons<T11, Cons<T12, Nil>>>>>>>>>>>>) {
        Cons(self.0, Cons(self.1, Cons(self.2, Cons(self.3, Cons(self.4, Cons(self.5, Cons(self.6, Cons(self.7, Cons(self.8, Cons(self.9, Cons(self.10, Cons(self.11, Nil))))))))))))
    }

    open spec fn tuple(list: Cons<T1, Cons<T2, Cons<T3, Cons<T4, Cons<T5, Cons<T6, Cons<T7, Cons<T8, Cons<T9, Cons<T10, Cons<T11, Cons<T12, Nil>>>>>>>>>>>>) -> (T1, T2, T3, T4, T5, T6, T7, T8, T9, T10, T11, T12) {
        let Cons(v1, Cons(v2, Cons(v3, Cons(v4, Cons(v5, Cons(v6, Cons(v7, Cons(v8, Cons(v9, Cons(v10, Cons(v11, Cons(v12, Nil)))))))))))) = list;
        (v1, v2, v3, v4, v5, v6, v7, v8, v9, v10, v11, v12)
    }

    fn from_list(list: Cons<T1, Cons<T2, Cons<T3, Cons<T4, Cons<T5, Cons<T6, Cons<T7, Cons<T8, Cons<T9, Cons<T10, Cons<T11, Cons<T12, Nil>>>>>>>>>>>>) -> (r: (T1, T2, T3, T4, T5, T6, T7, T8, T9, T10, T11, T12)) {
        let Cons(v1, Cons(v2, Cons(v3, Cons(v4, Cons(v5, Cons(v6, Cons(v7, Cons(v8, Cons(v9, Cons(v10, Cons(v11, Cons(v12, Nil)))))))))))) = list;
        (v1, v2, v3, v4, v5, v6, v7, v8, v9, v10, v11, v12)
    }

    proof fn lemma_list(self) {
    }
}

/// A tuple of twelve travels as the list of its components.
impl<C, T1, T2, T3, T4, T5, T6, T7, T8, T9, T10, T11, T12, F> Protocol<C, F> for (T1, T2, T3, T4, T5, T6, T7, T8, T9, T10, T11, T12) where
    C: Pass<T1, F> + Pass<T2, F> + Pass<T3, F> + Pass<T4, F> + Pass<T5, F> + Pass<T6, F> + Pass<T7, F> + Pass<T8, F> + Pass<T9, F> + Pass<T10, F> + Pass<T11, F> + Pass<T12, F> + Channels<<C as Dispatch>::Handle, Bottom>,
    T1: Protocol<<C as Spawn<T1, F>>::Target, F> + Protocol<<C as Join<T1, F>>::Target, F>,
    T2: Protocol<<C as Spawn<T2, F>>::Target, F> + Protocol<<C as Join<T2, F>>::Target, F>,
    T3: Protocol<<C as Spawn<T3, F>>::Target, F> + Protocol<<C as Join<T3, F>>::Target, F>,
    T4: Protocol<<C as Spawn<T4, F>>::Target, F> + Protocol<<C as Join<T4, F>>::Target, F>,
    T5: Protocol<<C as Spawn<T5, F>>::Target, F> + Protocol<<C as Join<T5, F>>::Target, F>,
    T6: Protocol<<C as Spawn<T6, F>>::Target, F> + Protocol<<C as Join<T6, F>>::Target, F>,
    T7: Protocol<<C as Spawn<T7, F>>::Target, F> + Protocol<<C as Join<T7, F>>::Target, F>,
    T8: Protocol<<C as Spawn<T8, F>>::Target, F> + Protocol<<C as Join<T8, F>>::Target, F>,
    T9: Protocol<<C as Spawn<T9, F>>::Target, F> + Protocol<<C as Join<T9, F>>::Target, F>,
    T10: Protocol<<C as Spawn<T10, F>>::Target, F> + Protocol<<C as Join<T10, F>>::Target, F>,
    T11: Protocol<<C as Spawn<T11, F>>::Target, F> + Protocol<<C as Join<T11, F>>::Target, F>,
    T12: Protocol<<C as Spawn<T12, F>>::Target, F> + Protocol<<C as Join<T12, F>>::Target, F>,
 {
    type Unravel = <C as Dispatch>::Handle;

    type UnravelError = <Cons<T1, Cons<T2, Cons<T3, Cons<T4, Cons<T5, Cons<T6, Cons<T7, Cons<T8, Cons<T9, Cons<T10, Cons<T11, Cons<T12, Nil>>>>>>>>>>>> as Protocol<C, F>>::UnravelError;

    type UnravelFuture = <Cons<T1, Cons<T2, Cons<T3, Cons<T4, Cons<T5, Cons<T6, Cons<T7, Cons<T8, Cons<T9, Cons<T10, Cons<T11, Cons<T12, Nil>>>>>>>>>>>> as Protocol<C, F>>::UnravelFuture;

    type Coalesce = Bottom;

    type CoalesceError = <Cons<T1, Cons<T2, Cons<T3, Cons<T4, Cons<T5, Cons<T6, Cons<T7, Cons<T8, Cons<T9, Cons<T10, Cons<T11, Cons<T12, Nil>>>>>>>>>>>> as Protocol<C, F>>::CoalesceError;

    type CoalesceFuture = Tupled<<Cons<T1, Cons<T2, Cons<T3, Cons<T4, Cons<T5, Cons<T6, Cons<T7, Cons<T8, Cons<T9, Cons<T10, Cons<T11, Cons<T12, Nil>>>>>>>>>>>> as Protocol<C, F>>::CoalesceFuture, (T1, T2, T3, T4, T5, T6, T7, T8, T9, T10, T11, T12), Self::CoalesceError>;

    open spec fn unraveling(
        self,
        channel: <C as Channels<<C as Dispatch>::Handle, Bottom>>::Unravel,
        ctx: C::V,
    ) -> (Self::UnravelFuture, C::V) {
        <Cons<T1, Cons<T2, Cons<T3, Cons<T4, Cons<T5, Cons<T6, Cons<T7, Cons<T8, Cons<T9, Cons<T10, Cons<T11, Cons<T12, Nil>>>>>>>>>>>> as Protocol<C, F>>::unraveling(self.list(), channel, ctx)
    }

    fn unravel(
        self,
        channel: <C as Channels<<C as Dispatch>::Handle, Bottom>>::Unravel,
        ctx: &mut C,
    ) -> (r: Self::UnravelFuture) {
        <Cons<T1, Cons<T2, Cons<T3, Cons<T4, Cons<T5, Cons<T6, Cons<T7, Cons<T8, Cons<T9, Cons<T10, Cons<T11, Cons<T12, Nil>>>>>>>>>>>> as Protocol<C, F>>::unravel(self.into_list(), channel, ctx)
    }

    open spec fn coalescing(
        channel: <C as Channels<<C as Dispatch>::Handle, Bottom>>::Coalesce,
        ctx: C::V,
    ) -> (Self::CoalesceFuture, C::V) {
        let start = <Cons<T1, Cons<T2, Cons<T3, Cons<T4, Cons<T5, Cons<T6, Cons<T7, Cons<T8, Cons<T9, Cons<T10, Cons<T11, Cons<T12, Nil>>>>>>>>>>>> as Protocol<C, F>>::coalescing(channel, ctx);
        (Tupled(start.0, PhantomData), start.1)
    }

    fn coalesce(
        channel: <C as Channels<<C as Dispatch>::Handle, Bottom>>::Coalesce,
        ctx: &mut C,
    ) -> (r: Self::CoalesceFuture) {
        Tupled::new(<Cons<T1, Cons<T2, Cons<T3, Cons<T4, Cons<T5, Cons<T6, Cons<T7, Cons<T8, Cons<T9, Cons<T10, Cons<T11, Cons<T12, Nil>>>>>>>>>>>> as Protocol<C, F>>::coalesce(channel, ctx))
    }
}

} // verus!
