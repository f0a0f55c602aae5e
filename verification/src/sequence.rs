//! The protocol of sequences: each element is spawned on its own, and the
//! sequence itself sends the handles of its elements, in their order, on
//! its own channel; the end of the stream is the end of the sequence.
use vstd::prelude::*;

use crate::future::{Forward, Send, StreamFuture};
use crate::{Bottom, Channel, Channels, ContextError, Dispatch, Join, Pass, Poll, Protocol, Spawn, Task};

verus! {

/// The greatest number of elements that a sequence is rebuilt from.
pub const LIMIT: usize = 1024;

/// A sequence of values that travel together: empty, or a first element
/// and the rest.
#[derive(Debug, PartialEq, Eq)]
pub enum Sequence<T> {
    End,
    More(T, Box<Sequence<T>>),
}

impl<T> Sequence<T> {
    /// The elements, first to last.
    pub open spec fn items(self) -> Seq<T>
        decreases self,
    {
        match self {
            Sequence::End => Seq::empty(),
            Sequence::More(first, rest) => seq![first] + rest.items(),
        }
    }

    /// The number of elements.
    pub open spec fn len(self) -> nat
        decreases self,
    {
        match self {
            Sequence::End => 0,
            Sequence::More(_, rest) => 1 + rest.len(),
        }
    }

    /// The elements in reverse, before those of `onto`.
    pub open spec fn reversed(self, onto: Self) -> Self
        decreases self,
    {
        match self {
            Sequence::End => onto,
            Sequence::More(first, rest) => rest.reversed(Sequence::More(first, Box::new(onto))),
        }
    }

    /// A sequence has as many elements as it has items.
    pub proof fn lemma_len(self)
        ensures
            self.len() == self.items().len(),
        decreases self,
    {
        match self {
            Sequence::End => {},
            Sequence::More(_, rest) => {
                rest.lemma_len();
            },
        }
    }

    /// Two sequences with the same elements are the same.
    pub proof fn lemma_items(self, other: Self)
        requires
            self.items() == other.items(),
        ensures
            self == other,
        decreases self,
    {
        self.lemma_len();
        other.lemma_len();
        match (self, other) {
            (Sequence::More(a, rest), Sequence::More(b, more)) => {
                assert(self.items()[0] == a && other.items()[0] == b);
                assert(rest.items() =~= self.items().subrange(1, self.items().len() as int));
                assert(more.items() =~= other.items().subrange(1, other.items().len() as int));
                rest.lemma_items(*more);
            },
            _ => {},
        }
    }

    /// Reversing puts the elements in reverse before those of `onto`.
    pub proof fn lemma_reversed(self, onto: Self)
        ensures
            self.reversed(onto).items() == self.items().reverse() + onto.items(),
            self.reversed(onto).len() == self.len() + onto.len(),
        decreases self,
    {
        match self {
            Sequence::End => {
                assert(self.items().reverse() + onto.items() =~= onto.items());
            },
            Sequence::More(first, rest) => {
                let next = Sequence::More(first, Box::new(onto));
                rest.lemma_reversed(next);
                assert(rest.items().reverse() + next.items() =~= self.items().reverse()
                    + onto.items());
            },
        }
    }

    /// Reversing twice gives the sequence back.
    pub proof fn lemma_reversed_twice(self)
        ensures
            self.reversed(Sequence::End).reversed(Sequence::End) == self,
    {
        let once = self.reversed(Sequence::End);
        self.lemma_reversed(Sequence::End);
        once.lemma_reversed(Sequence::End);
        assert(once.items() =~= self.items().reverse());
        assert(self.items().reverse().reverse() =~= self.items());
        assert(once.reversed(Sequence::End).items() =~= self.items());
        once.reversed(Sequence::End).lemma_items(self);
    }

    /// The empty sequence.
    pub fn new() -> (r: Self)
        ensures
            r == Sequence::<T>::End,
    {
        Sequence::End
    }

    /// The sequence of `first` and then the elements of `self`.
    pub fn prepend(self, first: T) -> (r: Self)
        ensures
            r == Sequence::More(first, Box::new(self)),
    {
        Sequence::More(first, Box::new(self))
    }

    /// The elements in reverse.
    pub fn reverse(self) -> (r: Self)
        ensures
            r == self.reversed(Sequence::End),
    {
        let mut from = self;
        let mut onto = Sequence::End;
        loop
            invariant
                from.reversed(onto) == self.reversed(Sequence::End),
            decreases from,
        {
            match from {
                Sequence::End => {
                    return onto;
                },
                Sequence::More(first, rest) => {
                    onto = Sequence::More(first, Box::new(onto));
                    from = *rest;
                },
            }
        }
    }

    /// The sequence of the elements of a vector.
    pub fn from_vec(items: Vec<T>) -> (r: Self)
        ensures
            r.items() == items@,
    {
        let mut left = items;
        let mut r = Sequence::End;
        loop
            invariant
                left@ + r.items() == items@,
            decreases left.len(),
        {
            match left.pop() {
                Some(last) => {
                    let ghost before = r;
                    r = Sequence::More(last, Box::new(r));
                    assert(left@ + r.items() =~= (left@.push(last)) + before.items());
                },
                None => {
                    assert(left@ + r.items() =~= r.items());
                    return r;
                },
            }
        }
    }

    /// The vector of the elements of the sequence.
    pub fn into_vec(self) -> (r: Vec<T>)
        ensures
            r@ == self.items(),
    {
        let mut from = self;
        let mut r: Vec<T> = Vec::new();
        loop
            invariant
                r@ + from.items() == self.items(),
            decreases from,
        {
            match from {
                Sequence::End => {
                    assert(r@ + from.items() =~= r@);
                    return r;
                },
                Sequence::More(first, rest) => {
                    let ghost before = r@;
                    r.push(first);
                    from = *rest;
                    assert(r@ + from.items() =~= before + (seq![first] + from.items()));
                },
            }
        }
    }
}

/// An error of unraveling a sequence: an element could not be spawned, or
/// a handle could not be sent.
pub enum Error<Head, Sent> {
    Head(Head),
    Send(Sent),
}

/// An error of coalescing a sequence: an element could not be joined, the
/// stream carries more handles than a sequence may have elements, or an
/// item on the channel could not be read as a handle.
pub enum Incomplete<Head> {
    Head(Head),
    TooLong,
    Corrupt,
}

/// Sending a sequence: the first element is spawned when the task is made.
/// The task drives the spawn, sends the handle, and goes on with the next
/// element until none is left; then it closes the channel.
pub enum Unravel <
    C: Pass<T, F> + Channels<<C as Dispatch>::Handle, Bottom>,
    T: Protocol<<C as Spawn<T, F>>::Target, F> + Protocol<<C as Join<T, F>>::Target, F>,
    F,
> {
    /// An element is being spawned. The channel and the elements after it
    /// wait.
    Spawn(<C as Spawn<T, F>>::Output, Option<<C as Channels<<C as Dispatch>::Handle, Bottom>>::Unravel>, Option<Sequence<T>>),
    /// The handle of an element is being sent. The elements after it wait.
    Send(Send<<C as Channels<<C as Dispatch>::Handle, Bottom>>::Unravel, Bottom, <C as Dispatch>::Handle>, Option<Sequence<T>>),
    /// Every handle is sent; the channel is being closed.
    Close(Forward<<C as Channels<<C as Dispatch>::Handle, Bottom>>::Unravel, Bottom, <C as Dispatch>::Handle>),
}

impl<
    C: Pass<T, F> + Channels<<C as Dispatch>::Handle, Bottom>,
    T: Protocol<<C as Spawn<T, F>>::Target, F> + Protocol<<C as Join<T, F>>::Target, F>,
    F,
> Unravel<C, T, F> {
    /// The task for `value`: its first element, if it has one, is spawned
    /// in `ctx`.
    pub fn new(channel: <C as Channels<<C as Dispatch>::Handle, Bottom>>::Unravel, value: Sequence<T>, ctx: &mut C) -> (r: Self)
        ensures
            (r, final(ctx)@) == Self::start(channel, value, old(ctx)@),
            r.live(),
    {
        match value {
            Sequence::End => Unravel::Close(Forward::end(channel)),
            Sequence::More(first, rest) => {
                let spawn = <C as Spawn<T, F>>::spawn(ctx, first);
                Unravel::Spawn(spawn, Some(channel), Some(*rest))
            },
        }
    }

    pub open spec fn start(channel: <C as Channels<<C as Dispatch>::Handle, Bottom>>::Unravel, value: Sequence<T>, ctx: C::V) -> (Self, C::V) {
        match value {
            Sequence::End => (Unravel::Close(Forward::ending(channel)), ctx),
            Sequence::More(first, rest) => {
                let spawn = <C as Spawn<T, F>>::spawning(ctx, first);
                (Unravel::Spawn(spawn.0, Some(channel), Some(*rest)), spawn.1)
            },
        }
    }

    /// Whether the task is in a state that `new` and `poll` lead to and has
    /// not resolved.
    pub open spec fn live(self) -> bool {
        match self {
            Unravel::Spawn(spawn, channel, rest) => spawn.unresolved() && channel is Some
                && rest is Some,
            Unravel::Send(send, rest) => send.unresolved() && rest is Some,
            Unravel::Close(close) => close.unresolved(),
        }
    }

    /// How far the task is from its end at most: three steps for each
    /// element that waits, and what is left of the current one.
    pub open spec fn weight(self) -> nat {
        match self {
            Unravel::Spawn(_, _, Some(rest)) => 3 * rest.len() + 3,
            Unravel::Send(_, Some(rest)) => 3 * rest.len() + 2,
            _ => 0,
        }
    }

    /// The channel is free: the next element is spawned, or, if none is
    /// left, the channel is closed.
    pub open spec fn begun(channel: <C as Channels<<C as Dispatch>::Handle, Bottom>>::Unravel, rest: Sequence<T>, ctx: C::V) -> (
        Self,
        C::V,
        Poll<<Self as Task<C>>::Output>,
    )
        decreases rest, 0nat,
    {
        match rest {
            Sequence::End => Self::closed(Forward::ending(channel), ctx),
            Sequence::More(first, rest) => {
                let spawn = <C as Spawn<T, F>>::spawning(ctx, first);
                Self::spawned(spawn.0, channel, *rest, spawn.1)
            },
        }
    }

    /// The spawn of an element is driven.
    pub open spec fn spawned(
        spawn: <C as Spawn<T, F>>::Output,
        channel: <C as Channels<<C as Dispatch>::Handle, Bottom>>::Unravel,
        rest: Sequence<T>,
        ctx: C::V,
    ) -> (Self, C::V, Poll<<Self as Task<C>>::Output>)
        decreases rest, 2nat,
    {
        let step = spawn.polled(ctx);
        match step.2 {
            Poll::Pending => (Unravel::Spawn(step.0, Some(channel), Some(rest)), step.1, Poll::Pending),
            Poll::Ready(Err(e)) => (
                Unravel::Spawn(step.0, Some(channel), Some(rest)),
                step.1,
                Poll::Ready(Err(Error::Head(e))),
            ),
            Poll::Ready(Ok(handle)) => Self::sent(Send::of(handle, channel), rest, step.1),
        }
    }

    /// The handle of an element is sent.
    pub open spec fn sent(send: Send<<C as Channels<<C as Dispatch>::Handle, Bottom>>::Unravel, Bottom, <C as Dispatch>::Handle>, rest: Sequence<T>, ctx: C::V) -> (
        Self,
        C::V,
        Poll<<Self as Task<C>>::Output>,
    )
        decreases rest, 1nat,
    {
        let step = send.polled(ctx);
        match step.2 {
            Poll::Pending => (Unravel::Send(step.0, Some(rest)), step.1, Poll::Pending),
            Poll::Ready(Err(e)) => (
                Unravel::Send(step.0, Some(rest)),
                step.1,
                Poll::Ready(Err(Error::Send(e))),
            ),
            Poll::Ready(Ok(channel)) => Self::begun(channel, rest, step.1),
        }
    }

    /// The channel is closed.
    pub open spec fn closed(close: Forward<<C as Channels<<C as Dispatch>::Handle, Bottom>>::Unravel, Bottom, <C as Dispatch>::Handle>, ctx: C::V) -> (
        Self,
        C::V,
        Poll<<Self as Task<C>>::Output>,
    ) {
        let step = close.polled(ctx);
        (
            Unravel::Close(step.0),
            step.1,
            match step.2 {
                Poll::Pending => Poll::Pending,
                Poll::Ready(Ok(())) => Poll::Ready(Ok(())),
                Poll::Ready(Err(e)) => Poll::Ready(Err(Error::Send(e))),
            },
        )
    }
}

impl<
    C: Pass<T, F> + Channels<<C as Dispatch>::Handle, Bottom>,
    T: Protocol<<C as Spawn<T, F>>::Target, F> + Protocol<<C as Join<T, F>>::Target, F>,
    F,
> Task<C> for Unravel<C, T, F> {
    type Output = Result<
        (),
        Error<
            ContextError<<C as Spawn<T, F>>::Error, <T as Protocol<<C as Spawn<T, F>>::Target, F>>::UnravelError>,
            <<C as Channels<<C as Dispatch>::Handle, Bottom>>::Unravel as Channel<Bottom, <C as Dispatch>::Handle, C>>::Error,
        >,
    >;

    open spec fn unresolved(self) -> bool {
        self.live()
    }

    open spec fn polled(self, ctx: C::V) -> (Self, C::V, Poll<Self::Output>) {
        match self {
            Unravel::Spawn(spawn, Some(channel), Some(rest)) => Self::spawned(
                spawn,
                channel,
                rest,
                ctx,
            ),
            Unravel::Send(send, Some(rest)) => Self::sent(send, rest, ctx),
            Unravel::Close(close) => Self::closed(close, ctx),
            _ => (self, ctx, Poll::Pending),
        }
    }

    fn poll(&mut self, ctx: &mut C) -> (r: Poll<Self::Output>) {
        let ghost goal = self.polled(ctx@);
        loop
            invariant
                self.live(),
                self.polled(ctx@) == goal,
                goal == (*old(self)).polled(old(ctx)@),
            decreases self.weight(),
        {
            // What comes free in this step: the handle to send, or the
            // channel for the next element.
            let next = match self {
                Unravel::Spawn(spawn, channel, rest) => match spawn.poll(ctx) {
                    Poll::Pending => {
                        return Poll::Pending;
                    },
                    Poll::Ready(Err(e)) => {
                        return Poll::Ready(Err(Error::Head(e)));
                    },
                    Poll::Ready(Ok(handle)) => Unravel::Send(
                        Send::new(handle, channel.take().unwrap()),
                        Some(rest.take().unwrap()),
                    ),
                },
                Unravel::Send(send, rest) => match send.poll(ctx) {
                    Poll::Pending => {
                        return Poll::Pending;
                    },
                    Poll::Ready(Err(e)) => {
                        return Poll::Ready(Err(Error::Send(e)));
                    },
                    Poll::Ready(Ok(channel)) => match rest.take().unwrap() {
                        Sequence::End => Unravel::Close(Forward::end(channel)),
                        Sequence::More(first, rest) => {
                            let spawn = <C as Spawn<T, F>>::spawn(ctx, first);
                            Unravel::Spawn(spawn, Some(channel), Some(*rest))
                        },
                    },
                },
                Unravel::Close(close) => {
                    return match close.poll(ctx) {
                        Poll::Pending => Poll::Pending,
                        Poll::Ready(Ok(())) => Poll::Ready(Ok(())),
                        Poll::Ready(Err(e)) => Poll::Ready(Err(Error::Send(e))),
                    };
                },
            };
            *self = next;
        }
    }

    /// What is in progress is given up with the task.
    open spec fn cancelled(self, ctx: C::V) -> C::V {
        match self {
            Unravel::Spawn(spawn, _, _) => spawn.cancelled(ctx),
            _ => ctx,
        }
    }

    fn cancel(self, ctx: &mut C) {
        match self {
            Unravel::Spawn(spawn, _, _) => spawn.cancel(ctx),
            _ => {},
        }
    }
}

/// Rebuilding a sequence: the wait for a handle, the join of the element
/// that it names, and so on until the stream ends. The elements so far are
/// kept last first, with their number.
pub enum Coalesce <
    C: Pass<T, F> + Channels<<C as Dispatch>::Handle, Bottom>,
    T: Protocol<<C as Spawn<T, F>>::Target, F> + Protocol<<C as Join<T, F>>::Target, F>,
    F,
> {
    /// A handle is awaited.
    Next(StreamFuture<<C as Channels<<C as Dispatch>::Handle, Bottom>>::Coalesce, <C as Dispatch>::Handle, Bottom>, Option<Sequence<T>>, usize),
    /// An element is being joined. The channel waits.
    Join(<C as Join<T, F>>::Output, Option<<C as Channels<<C as Dispatch>::Handle, Bottom>>::Coalesce>, Option<Sequence<T>>, usize),
}

impl<
    C: Pass<T, F> + Channels<<C as Dispatch>::Handle, Bottom>,
    T: Protocol<<C as Spawn<T, F>>::Target, F> + Protocol<<C as Join<T, F>>::Target, F>,
    F,
> Coalesce<C, T, F> {
    /// The first stage: the wait for the first handle on `channel`.
    pub fn new(channel: <C as Channels<<C as Dispatch>::Handle, Bottom>>::Coalesce) -> (r: Self)
        ensures
            r == Self::start(channel),
            r.live(),
    {
        Coalesce::Next(StreamFuture::new(channel), Some(Sequence::End), 0)
    }

    pub open spec fn start(channel: <C as Channels<<C as Dispatch>::Handle, Bottom>>::Coalesce) -> Self {
        Coalesce::Next(StreamFuture::of(channel), Some(Sequence::End), 0)
    }

    /// Whether the task is in a state that `new` and `poll` lead to and has
    /// not resolved.
    pub open spec fn live(self) -> bool {
        match self {
            Coalesce::Next(next, so_far, count) => next.unresolved() && so_far is Some && count
                <= LIMIT,
            Coalesce::Join(join, channel, so_far, count) => join.unresolved() && channel is Some
                && so_far is Some && count < LIMIT,
        }
    }

    /// How far the task is from its end at most: two steps for each
    /// element that may still come.
    pub open spec fn weight(self) -> nat {
        match self {
            Coalesce::Next(_, _, count) => (2 * (LIMIT - count) + 2) as nat,
            Coalesce::Join(_, _, _, count) => (2 * (LIMIT - count) + 1) as nat,
        }
    }

    /// A handle is awaited, and joined when it comes. The end of the
    /// stream is the end of the sequence, unless the channel is broken.
    pub open spec fn awaited(
        next: StreamFuture<<C as Channels<<C as Dispatch>::Handle, Bottom>>::Coalesce, <C as Dispatch>::Handle, Bottom>,
        so_far: Sequence<T>,
        count: usize,
        ctx: C::V,
    ) -> (Self, C::V, Poll<<Self as Task<C>>::Output>)
        decreases LIMIT - count, 1nat,
    {
        let step = next.polled(ctx);
        match step.2 {
            Poll::Pending => (Coalesce::Next(step.0, Some(so_far), count), step.1, Poll::Pending),
            Poll::Ready((None, channel)) => (
                Coalesce::Next(step.0, None, count),
                step.1,
                if channel.broken(step.1) {
                    Poll::Ready(Err(Incomplete::Corrupt))
                } else {
                    Poll::Ready(Ok(so_far.reversed(Sequence::End)))
                },
            ),
            Poll::Ready((Some(handle), channel)) => if count < LIMIT {
                let join = <C as Join<T, F>>::joining(step.1, handle);
                Self::joined(join.0, channel, so_far, count, join.1)
            } else {
                (
                    Coalesce::Next(step.0, Some(so_far), count),
                    step.1,
                    Poll::Ready(Err(Incomplete::TooLong)),
                )
            },
        }
    }

    /// The join of an element is driven, and the next handle awaited.
    pub open spec fn joined(
        join: <C as Join<T, F>>::Output,
        channel: <C as Channels<<C as Dispatch>::Handle, Bottom>>::Coalesce,
        so_far: Sequence<T>,
        count: usize,
        ctx: C::V,
    ) -> (Self, C::V, Poll<<Self as Task<C>>::Output>)
        decreases LIMIT - count, 0nat,
    {
        let step = join.polled(ctx);
        match step.2 {
            Poll::Pending => (
                Coalesce::Join(step.0, Some(channel), Some(so_far), count),
                step.1,
                Poll::Pending,
            ),
            Poll::Ready(Err(e)) => (
                Coalesce::Join(step.0, Some(channel), Some(so_far), count),
                step.1,
                Poll::Ready(Err(Incomplete::Head(e))),
            ),
            Poll::Ready(Ok(item)) => if count < LIMIT {
                Self::awaited(
                    StreamFuture::of(channel),
                    Sequence::More(item, Box::new(so_far)),
                    (count + 1) as usize,
                    step.1,
                )
            } else {
                (Coalesce::Join(step.0, Some(channel), Some(so_far), count), step.1, Poll::Pending)
            },
        }
    }
}

impl<
    C: Pass<T, F> + Channels<<C as Dispatch>::Handle, Bottom>,
    T: Protocol<<C as Spawn<T, F>>::Target, F> + Protocol<<C as Join<T, F>>::Target, F>,
    F,
> Task<C> for Coalesce<C, T, F> {
    type Output = Result<
        Sequence<T>,
        Incomplete<
            ContextError<<C as Join<T, F>>::Error, <T as Protocol<<C as Join<T, F>>::Target, F>>::CoalesceError>,
        >,
    >;

    open spec fn unresolved(self) -> bool {
        self.live()
    }

    open spec fn polled(self, ctx: C::V) -> (Self, C::V, Poll<Self::Output>) {
        match self {
            Coalesce::Next(next, Some(so_far), count) => Self::awaited(next, so_far, count, ctx),
            Coalesce::Join(join, Some(channel), Some(so_far), count) => Self::joined(
                join,
                channel,
                so_far,
                count,
                ctx,
            ),
            _ => (self, ctx, Poll::Pending),
        }
    }

    fn poll(&mut self, ctx: &mut C) -> (r: Poll<Self::Output>) {
        let ghost goal = self.polled(ctx@);
        loop
            invariant
                self.live(),
                self.polled(ctx@) == goal,
                goal == (*old(self)).polled(old(ctx)@),
            decreases self.weight(),
        {
            let next = match self {
                Coalesce::Next(next, so_far, count) => match next.poll(ctx) {
                    Poll::Pending => {
                        return Poll::Pending;
                    },
                    Poll::Ready((None, channel)) => {
                        let so_far = so_far.take().unwrap();
                        if channel.is_broken(ctx) {
                            return Poll::Ready(Err(Incomplete::Corrupt));
                        }
                        return Poll::Ready(Ok(so_far.reverse()));
                    },
                    Poll::Ready((Some(handle), channel)) => {
                        if *count < LIMIT {
                            let join = <C as Join<T, F>>::join(ctx, handle);
                            Coalesce::Join(join, Some(channel), Some(so_far.take().unwrap()), *count)
                        } else {
                            return Poll::Ready(Err(Incomplete::TooLong));
                        }
                    },
                },
                Coalesce::Join(join, channel, so_far, count) => match join.poll(ctx) {
                    Poll::Pending => {
                        return Poll::Pending;
                    },
                    Poll::Ready(Err(e)) => {
                        return Poll::Ready(Err(Incomplete::Head(e)));
                    },
                    Poll::Ready(Ok(item)) => Coalesce::Next(
                        StreamFuture::new(channel.take().unwrap()),
                        Some(so_far.take().unwrap().prepend(item)),
                        *count + 1,
                    ),
                },
            };
            *self = next;
        }
    }

    /// A join in progress is given up with the task.
    open spec fn cancelled(self, ctx: C::V) -> C::V {
        match self {
            Coalesce::Next(_, _, _) => ctx,
            Coalesce::Join(join, _, _, _) => join.cancelled(ctx),
        }
    }

    fn cancel(self, ctx: &mut C) {
        match self {
            Coalesce::Next(_, _, _) => {},
            Coalesce::Join(join, _, _, _) => join.cancel(ctx),
        }
    }
}

/// A sequence spawns each element and sends its handle, and ends the
/// stream after the last.
impl<
    C: Pass<T, F> + Channels<<C as Dispatch>::Handle, Bottom>,
    T: Protocol<<C as Spawn<T, F>>::Target, F> + Protocol<<C as Join<T, F>>::Target, F>,
    F,
> Protocol<C, F> for Sequence<T> {
    type Unravel = <C as Dispatch>::Handle;

    type UnravelError = Error<
        ContextError<<C as Spawn<T, F>>::Error, <T as Protocol<<C as Spawn<T, F>>::Target, F>>::UnravelError>,
        <<C as Channels<<C as Dispatch>::Handle, Bottom>>::Unravel as Channel<Bottom, <C as Dispatch>::Handle, C>>::Error,
    >;

    type UnravelFuture = Unravel<C, T, F>;

    type Coalesce = Bottom;

    type CoalesceError = Incomplete<
        ContextError<<C as Join<T, F>>::Error, <T as Protocol<<C as Join<T, F>>::Target, F>>::CoalesceError>,
    >;

    type CoalesceFuture = Coalesce<C, T, F>;

    open spec fn unraveling(self, channel: <C as Channels<<C as Dispatch>::Handle, Bottom>>::Unravel, ctx: C::V) -> (Self::UnravelFuture, C::V) {
        Unravel::<C, T, F>::start(channel, self, ctx)
    }

    fn unravel(self, channel: <C as Channels<<C as Dispatch>::Handle, Bottom>>::Unravel, ctx: &mut C) -> (r: Self::UnravelFuture) {
        Unravel::new(channel, self, ctx)
    }

    open spec fn coalescing(channel: <C as Channels<<C as Dispatch>::Handle, Bottom>>::Coalesce, ctx: C::V) -> (Self::CoalesceFuture, C::V) {
        (Coalesce::start(channel), ctx)
    }

    fn coalesce(channel: <C as Channels<<C as Dispatch>::Handle, Bottom>>::Coalesce, ctx: &mut C) -> (r: Self::CoalesceFuture) {
        Coalesce::new(channel)
    }
}

} // verus!
