//! A distributed-object protocol kernel.
//!
//! A value is carried across a transport by decomposing it into a forest of
//! typed sub-channels that share the transport. One side *unravels* the
//! value, the other *coalesces* it. Everything here is free of I/O: a context
//! holds the state that the two sides share with their transport, channels
//! are handles into it, and a task is advanced by polling it against the
//! context. Each executable step has a model, a pure function from the
//! state before to the state after and the result, so that the behaviour of
//! a composed protocol is the composition of the models of its parts.
//!
//! The multiplexed channel of [`channel::id`] is the context in which every
//! protocol of this crate runs; [`director`] holds the contexts of the two
//! degenerate transports. What the multiplexed channel guarantees of every
//! protocol that it carries faithfully is proved in
//! [`channel::id::faithful`].
use vstd::prelude::*;

use std::marker::PhantomData;

pub mod channel;
pub mod director;
pub mod flat;
pub mod format;
pub mod future;
pub mod input;
pub mod option;
pub mod orchestrator;
pub mod replicate;
pub mod sequence;
pub mod tuple;
pub mod unit;

pub use director::Director;
pub use format::Format;

verus! {

/// Outcome of advancing a task or a channel by one step.
pub enum Poll<T> {
    /// The step finished with a value.
    Ready(T),
    /// Nothing can be done before more input arrives.
    Pending,
}

/// A value that cannot be built: nothing constructs it, and its invariant
/// is false.
pub struct Never {
    never: (),
}

impl Never {
    #[verifier::type_invariant]
    pub open spec fn uninhabited(self) -> bool {
        false
    }
}

/// The type without values. It marks a direction of a channel in which
/// nothing is ever sent, or an error that cannot occur.
pub enum Bottom {
    Never(Never),
}

impl View for Bottom {
    type V = Bottom;

    open spec fn view(&self) -> Bottom {
        *self
    }
}

/// An error of a spawn or a join: raised by the context itself, or by the
/// protocol that ran inside it.
#[derive(Debug)]
pub enum ContextError<Context, Protocol> {
    Context(Context),
    Protocol(Protocol),
}

/// A computation that is advanced by polling it against a context. Each
/// step has a model, a function from the state before the step to the state
/// after it and the result; an implementation that gives none leaves its
/// steps open. The same holds of the other traits of this crate.
pub trait Task<C: View>: Sized {
    type Output;

    /// True while the task has not handed out its result.
    open spec fn unresolved(self) -> bool {
        arbitrary()
    }

    /// The task and the context after one poll, and what the poll returns.
    open spec fn polled(self, ctx: C::V) -> (Self, C::V, Poll<Self::Output>) {
        arbitrary()
    }

    /// Advances the task. Once it has returned `Ready` it must not be
    /// polled again.
    fn poll(&mut self, ctx: &mut C) -> (r: Poll<Self::Output>)
        requires
            old(self).unresolved(),
        ensures
            (*final(self), final(ctx)@, r) == (*old(self)).polled(old(ctx)@),
            r is Pending ==> final(self).unresolved(),
    ;

    /// The context after the computation has been given up.
    open spec fn cancelled(self, ctx: C::V) -> C::V {
        arbitrary()
    }

    /// Gives the computation up: whatever it holds in the context is
    /// released. This is what dropping it must amount to.
    fn cancel(self, ctx: &mut C)
        ensures
            final(ctx)@ == self.cancelled(old(ctx)@),
    ;
}

/// Runs a protocol's task inside a context whose own errors have type `E`:
/// the result `T` is passed on, an error `P` of the protocol as
/// `ContextError::Protocol`.
pub struct InContext<Fut, T, P, E>(pub Fut, pub PhantomData<(T, P, E)>);

impl<Fut, T, P, E> InContext<Fut, T, P, E> {
    pub fn new(task: Fut) -> (r: Self)
        ensures
            r.0 == task,
    {
        InContext(task, PhantomData)
    }
}

impl<C: View, T, P, E, Fut: Task<C, Output = Result<T, P>>> Task<C> for InContext<Fut, T, P, E> {
    type Output = Result<T, ContextError<E, P>>;

    open spec fn unresolved(self) -> bool {
        self.0.unresolved()
    }

    open spec fn polled(self, ctx: C::V) -> (Self, C::V, Poll<Self::Output>) {
        let step = self.0.polled(ctx);
        let r: Poll<Result<T, ContextError<E, P>>> = match step.2 {
            Poll::Ready(Ok(value)) => Poll::Ready(Ok(value)),
            Poll::Ready(Err(e)) => Poll::Ready(Err(ContextError::Protocol(e))),
            Poll::Pending => Poll::Pending,
        };
        (InContext(step.0, self.1), step.1, r)
    }

    fn poll(&mut self, ctx: &mut C) -> (r: Poll<Self::Output>) {
        match self.0.poll(ctx) {
            Poll::Ready(Ok(value)) => Poll::Ready(Ok(value)),
            Poll::Ready(Err(e)) => Poll::Ready(Err(ContextError::Protocol(e))),
            Poll::Pending => Poll::Pending,
        }
    }

    open spec fn cancelled(self, ctx: C::V) -> C::V {
        self.0.cancelled(ctx)
    }

    fn cancel(self, ctx: &mut C) {
        self.0.cancel(ctx)
    }
}

/// A context that names what it spawns by handles.
pub trait Dispatch {
    type Handle;
}

/// One end of a typed pipe inside a context `S`: it yields items of type `T`
/// and accepts items of type `U`.
pub trait Channel<T, U, S: View>: Sized {
    type Error;

    /// The next inbound item: `Some` while there is one, `None` at the end
    /// of the stream, `Pending` while neither is known.
    open spec fn next(self, ctx: S::V) -> (Self, S::V, Poll<Option<T>>) {
        arbitrary()
    }

    fn poll_next(&mut self, ctx: &mut S) -> (r: Poll<Option<T>>)
        ensures
            (*final(self), final(ctx)@, r) == (*old(self)).next(old(ctx)@),
    ;

    /// Whether the inbound side is broken: an item arrived that could not
    /// be read, and the stream ended in its place.
    open spec fn broken(self, ctx: S::V) -> bool {
        arbitrary()
    }

    fn is_broken(&self, ctx: &S) -> (r: bool)
        ensures
            r == (*self).broken(ctx@),
    ;

    /// Whether the outbound side can take an item.
    open spec fn ready(self, ctx: S::V) -> (Self, S::V, Poll<Result<(), Self::Error>>) {
        arbitrary()
    }

    fn poll_ready(&mut self, ctx: &mut S) -> (r: Poll<Result<(), Self::Error>>)
        ensures
            (*final(self), final(ctx)@, r) == (*old(self)).ready(old(ctx)@),
    ;

    /// Hands one item to the outbound side.
    open spec fn sent(self, ctx: S::V, item: U) -> (Self, S::V, Result<(), Self::Error>) {
        arbitrary()
    }

    fn start_send(&mut self, ctx: &mut S, item: U) -> (r: Result<(), Self::Error>)
        ensures
            (*final(self), final(ctx)@, r) == (*old(self)).sent(old(ctx)@, item),
    ;

    /// Pushes what was sent towards the transport.
    open spec fn flushed(self, ctx: S::V) -> (Self, S::V, Poll<Result<(), Self::Error>>) {
        arbitrary()
    }

    fn poll_flush(&mut self, ctx: &mut S) -> (r: Poll<Result<(), Self::Error>>)
        ensures
            (*final(self), final(ctx)@, r) == (*old(self)).flushed(old(ctx)@),
    ;

    /// Flushes and ends the outbound side.
    open spec fn closed(self, ctx: S::V) -> (Self, S::V, Poll<Result<(), Self::Error>>) {
        arbitrary()
    }

    fn poll_close(&mut self, ctx: &mut S) -> (r: Poll<Result<(), Self::Error>>)
        ensures
            (*final(self), final(ctx)@, r) == (*old(self)).closed(old(ctx)@),
    ;
}

/// The two ends that a context offers to a protocol whose unravel side sends
/// `Unravel` items and whose coalesce side sends `Coalesce` items.
pub trait Channels<Unravel, Coalesce>: View + Sized {
    type Unravel: Channel<Coalesce, Unravel, Self>;
    type Coalesce: Channel<Unravel, Coalesce, Self>;
}

/// How a type is taken apart into a channel and put together from one.
pub trait Protocol<C: View, F>: Sized {
    /// Items that the unravel side sends.
    type Unravel;
    type UnravelError;
    type UnravelFuture: Task<C, Output = Result<(), Self::UnravelError>>;
    /// Items that the coalesce side sends back.
    type Coalesce;
    type CoalesceError;
    type CoalesceFuture: Task<C, Output = Result<Self, Self::CoalesceError>>;

    /// The task that `unravel` starts, and the context after starting it.
    open spec fn unraveling(self, channel: C::Unravel, ctx: C::V) -> (Self::UnravelFuture, C::V) where
        C: Channels<Self::Unravel, Self::Coalesce>,
     {
        arbitrary()
    }

    /// Starts sending `self` over `channel`.
    fn unravel(self, channel: C::Unravel, ctx: &mut C) -> (r: Self::UnravelFuture) where
        C: Channels<Self::Unravel, Self::Coalesce>,

        ensures
            (r, final(ctx)@) == self.unraveling(channel, old(ctx)@),
            r.unresolved(),
    ;

    /// The task that `coalesce` starts, and the context after starting it.
    open spec fn coalescing(channel: C::Coalesce, ctx: C::V) -> (Self::CoalesceFuture, C::V) where
        C: Channels<Self::Unravel, Self::Coalesce>,
     {
        arbitrary()
    }

    /// Starts rebuilding a value from `channel`.
    fn coalesce(channel: C::Coalesce, ctx: &mut C) -> (r: Self::CoalesceFuture) where
        C: Channels<Self::Unravel, Self::Coalesce>,

        ensures
            (r, final(ctx)@) == Self::coalescing(channel, old(ctx)@),
            r.unresolved(),
    ;
}

/// A context that can rebuild a value of protocol `P` from a handle.
pub trait Join<P: Protocol<Self::Target, F>, F>: Dispatch + View + Sized {
    type Error;
    type Target: View;
    type Output: Task<Self, Output = Result<P, ContextError<Self::Error, P::CoalesceError>>>;

    /// The task that `join` starts, and the context after starting it.
    open spec fn joining(ctx: Self::V, handle: Self::Handle) -> (Self::Output, Self::V) {
        arbitrary()
    }

    fn join(&mut self, handle: Self::Handle) -> (r: Self::Output)
        ensures
            (r, final(self)@) == Self::joining(old(self)@, handle),
            r.unresolved(),
    ;
}

/// A context that can send a value of protocol `P` on its own and name it by
/// a handle.
pub trait Spawn<P: Protocol<Self::Target, F>, F>: Dispatch + View + Sized {
    type Error;
    type Target: View;
    type Output: Task<Self, Output = Result<Self::Handle, ContextError<Self::Error, P::UnravelError>>>;

    /// The task that `spawn` starts, and the context after starting it.
    open spec fn spawning(ctx: Self::V, item: P) -> (Self::Output, Self::V) {
        arbitrary()
    }

    fn spawn(&mut self, item: P) -> (r: Self::Output)
        ensures
            (r, final(self)@) == Self::spawning(old(self)@, item),
            r.unresolved(),
    ;
}

/// A context that can both spawn and join values of protocol `P`.
pub trait Pass<P: Protocol<<Self as Spawn<P, F>>::Target, F> + Protocol<<Self as Join<P, F>>::Target, F>, F>:
    Spawn<P, F> + Join<P, F> {
}

impl<
    F,
    P: Protocol<<T as Spawn<P, F>>::Target, F> + Protocol<<T as Join<P, F>>::Target, F>,
    T: Spawn<P, F> + Join<P, F>,
> Pass<P, F> for T {
}

} // verus!
