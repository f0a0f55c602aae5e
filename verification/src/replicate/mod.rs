//! Values that are held in several places, and values that report how
//! they change.
use vstd::prelude::*;

use std::sync::Arc;

use crate::option;
use crate::{Bottom, Channel, Channels, ContextError, Dispatch, Join, Pass, Poll, Protocol, Spawn, Task};

verus! {

/// A value of which a second holder can be made. Every `Clone` type shares
/// by cloning.
pub trait Share: Sized {
    fn share(&self) -> Self;
}

impl<T: Clone> Share for T {
    fn share(&self) -> (r: Self)
        ensures
            vstd::pervasive::strictly_cloned(*self, r),
    {
        self.clone()
    }
}

/// `Arc::clone`: one more pointer to the same allocation, so the same
/// value.
#[verifier::external_body]
fn arc_clone<T>(arc: &Arc<T>) -> (r: Arc<T>)
    ensures
        r == *arc,
{
    Arc::clone(arc)
}

/// A boxed value with any number of holders. The holders are read-only:
/// each reads the value that was given to `new`, and none can change it,
/// so what one holder reads is at all times what every other reads.
pub struct Shared<T>(Arc<Box<T>>);

impl<T> Shared<T> {
    /// The value that the holders share. It is fixed when the first holder
    /// is made.
    pub closed spec fn item(self) -> T {
        **self.0
    }

    /// The first holder of `item`.
    pub fn new(item: Box<T>) -> (r: Self)
        ensures
            r.item() == *item,
    {
        Shared(Arc::new(item))
    }

    /// Reads the shared value. This is the only access that a holder has.
    pub fn get(&self) -> (r: &T)
        ensures
            *r == self.item(),
    {
        &**self.0
    }
}

impl<T> Share for Shared<T> {
    /// One more read-only holder of the same value.
    fn share(&self) -> (r: Self)
        ensures
            r.item() == self.item(),
    {
        Shared(arc_clone(&self.0))
    }
}

/// A value that can report its changes: it splits into the value and the
/// feed of the mutations that will be applied to it.
pub trait Reactive: Sized {
    type Mutation: Share;
    type Feed;

    /// The value and its feed, as `react` gives them.
    open spec fn reacting(self) -> (Self, Self::Feed) {
        arbitrary()
    }

    fn react(self) -> (r: (Self, Self::Feed))
        ensures
            r == self.reacting(),
    ;
}

/// A reactive value together with the feed of its mutations.
pub struct React<T: Reactive>(T, T::Feed);

impl<T: Reactive> React<T> {
    /// The value that is watched.
    pub closed spec fn item(self) -> T {
        self.0
    }

    /// The feed of its mutations.
    pub closed spec fn feed(self) -> T::Feed {
        self.1
    }

    /// A watched value is its value and its feed, and nothing more.
    pub proof fn lemma_parts(self)
        ensures
            self == Self::of(self.item(), self.feed()),
    {
    }

    /// Takes the value and its feed apart.
    pub fn split(self) -> (r: (T, T::Feed))
        ensures
            r == (self.item(), self.feed()),
    {
        (self.0, self.1)
    }

    /// Starts watching `item`: holds what `item.react()` gives.
    pub fn new(item: T) -> (r: Self)
        ensures
            (r.item(), r.feed()) == item.reacting(),
    {
        let (item, feed) = item.react();
        React(item, feed)
    }
}

impl<T: Reactive> React<T> {
    /// The watched value and its feed, put together.
    pub closed spec fn of(item: T, feed: T::Feed) -> Self {
        React(item, feed)
    }

    /// What was put together can be taken apart again.
    pub proof fn lemma_of(item: T, feed: T::Feed)
        ensures
            Self::of(item, feed).item() == item,
            Self::of(item, feed).feed() == feed,
    {
    }

    /// Puts a value and its feed together.
    pub fn from_parts(item: T, feed: T::Feed) -> (r: Self)
        ensures
            r == Self::of(item, feed),
    {
        React(item, feed)
    }
}

/// An error of coalescing a watched value: the stream ended before the
/// handle of the value and its feed, the item on the channel could not be
/// read as a handle, or the two could not be joined.
pub enum Missing<E> {
    /// The stream ended after `got` of the `expected` handles.
    Insufficient { got: usize, expected: usize },
    Corrupt,
    Join(E),
}

/// Rebuilding a watched value: the value and its feed are awaited as one
/// forked pair.
pub struct Coalesce<
    C: Channels<<C as Dispatch>::Handle, Bottom> + Pass<(T, T::Feed), F>,
    T: Reactive,
    F,
>(pub option::Coalesce<C, (T, T::Feed), F>) where
    (T, T::Feed): Protocol<<C as Spawn<(T, T::Feed), F>>::Target, F> + Protocol<
        <C as Join<(T, T::Feed), F>>::Target,
        F,
    >,
;

impl<
    C: Channels<<C as Dispatch>::Handle, Bottom> + Pass<(T, T::Feed), F>,
    T: Reactive,
    F,
> Task<C> for Coalesce<C, T, F> where
    (T, T::Feed): Protocol<<C as Spawn<(T, T::Feed), F>>::Target, F> + Protocol<
        <C as Join<(T, T::Feed), F>>::Target,
        F,
    >,
 {
    type Output = Result<
        React<T>,
        Missing<
            ContextError<
                <C as Join<(T, T::Feed), F>>::Error,
                <(T, T::Feed) as Protocol<<C as Join<(T, T::Feed), F>>::Target, F>>::CoalesceError,
            >,
        >,
    >;

    open spec fn unresolved(self) -> bool {
        self.0.unresolved()
    }

    open spec fn polled(self, ctx: C::V) -> (Self, C::V, Poll<Self::Output>) {
        let step = self.0.polled(ctx);
        let r: Poll<Self::Output> = match step.2 {
            Poll::Ready(Ok(Some(parts))) => Poll::Ready(Ok(React::of(parts.0, parts.1))),
            Poll::Ready(Ok(None)) => Poll::Ready(
                Err(Missing::Insufficient { got: 0, expected: 1 }),
            ),
            Poll::Ready(Err(option::Incomplete::Corrupt)) => Poll::Ready(Err(Missing::Corrupt)),
            Poll::Ready(Err(option::Incomplete::Join(e))) => Poll::Ready(Err(Missing::Join(e))),
            Poll::Pending => Poll::Pending,
        };
        (Coalesce(step.0), step.1, r)
    }

    fn poll(&mut self, ctx: &mut C) -> (r: Poll<Self::Output>) {
        match self.0.poll(ctx) {
            Poll::Ready(Ok(Some(parts))) => Poll::Ready(Ok(React::from_parts(parts.0, parts.1))),
            Poll::Ready(Ok(None)) => Poll::Ready(Err(Missing::Insufficient { got: 0, expected: 1 })),
            Poll::Ready(Err(option::Incomplete::Corrupt)) => Poll::Ready(Err(Missing::Corrupt)),
            Poll::Ready(Err(option::Incomplete::Join(e))) => Poll::Ready(Err(Missing::Join(e))),
            Poll::Pending => Poll::Pending,
        }
    }

    open spec fn cancelled(self, ctx: C::V) -> C::V {
        self.0.cancelled(ctx)
    }

    fn cancel(self, ctx: &mut C) {
        self.0.cancel(ctx)
    }
}

/// A watched value travels as the handle of the pair of the value and its
/// feed.
impl<
    C: Channels<<C as Dispatch>::Handle, Bottom> + Pass<(T, T::Feed), F>,
    T: Reactive,
    F,
> Protocol<C, F> for React<T> where
    (T, T::Feed): Protocol<<C as Spawn<(T, T::Feed), F>>::Target, F> + Protocol<
        <C as Join<(T, T::Feed), F>>::Target,
        F,
    >,
 {
    type Unravel = <C as Dispatch>::Handle;

    type UnravelError = option::Error<
        ContextError<
            <C as Spawn<(T, T::Feed), F>>::Error,
            <(T, T::Feed) as Protocol<<C as Spawn<(T, T::Feed), F>>::Target, F>>::UnravelError,
        >,
        <<C as Channels<<C as Dispatch>::Handle, Bottom>>::Unravel as Channel<
            Bottom,
            <C as Dispatch>::Handle,
            C,
        >>::Error,
    >;

    type UnravelFuture = option::Unravel<C, (T, T::Feed), F>;

    type Coalesce = Bottom;

    type CoalesceError = Missing<
        ContextError<
            <C as Join<(T, T::Feed), F>>::Error,
            <(T, T::Feed) as Protocol<<C as Join<(T, T::Feed), F>>::Target, F>>::CoalesceError,
        >,
    >;

    type CoalesceFuture = Coalesce<C, T, F>;

    open spec fn unraveling(
        self,
        channel: <C as Channels<<C as Dispatch>::Handle, Bottom>>::Unravel,
        ctx: C::V,
    ) -> (Self::UnravelFuture, C::V) {
        option::Unravel::<C, (T, T::Feed), F>::start(channel, (self.item(), self.feed()), ctx)
    }

    fn unravel(
        self,
        channel: <C as Channels<<C as Dispatch>::Handle, Bottom>>::Unravel,
        ctx: &mut C,
    ) -> (r: Self::UnravelFuture) {
        option::Unravel::new(channel, self.split(), ctx)
    }

    open spec fn coalescing(
        channel: <C as Channels<<C as Dispatch>::Handle, Bottom>>::Coalesce,
        ctx: C::V,
    ) -> (Self::CoalesceFuture, C::V) {
        (Coalesce(option::Coalesce::start(channel)), ctx)
    }

    fn coalesce(
        channel: <C as Channels<<C as Dispatch>::Handle, Bottom>>::Coalesce,
        ctx: &mut C,
    ) -> (r: Self::CoalesceFuture) {
        Coalesce(option::Coalesce::new(channel))
    }
}

} // verus!
