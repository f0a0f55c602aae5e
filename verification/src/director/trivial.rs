//! The director that hands the transport to the protocol as it is.
use vstd::prelude::*;

use core::convert::Infallible;
use core::marker::PhantomData;

use crate::director::{Directed, Director, Empty};
use crate::{Bottom, Channel, Channels, ContextError, Dispatch, Format, Join, Poll, Protocol, Spawn, Task};

verus! {

/// The context of a transport that is used as it is: `T` on the side that
/// coalesces, `U` on the side that unravels. It holds no state; the
/// transports live in the channels.
pub struct Context<T, U>(pub PhantomData<(T, U)>);

impl<T, U> Context<T, U> {
    pub fn new() -> (r: Self)
        ensures
            r == Context::<T, U>(PhantomData),
    {
        Context(PhantomData)
    }
}

impl<T, U> View for Context<T, U> {
    type V = Context<T, U>;

    open spec fn view(&self) -> Context<T, U> {
        *self
    }
}

/// The channel of the side that unravels: the transport `U` and its
/// context.
pub struct Unravel<T, U>(pub U, pub Context<T, U>);

/// The channel of the side that coalesces: the transport `T` and its
/// context.
pub struct Coalesce<T, U>(pub T, pub Context<T, U>);

impl<A, B, T, U: Channel<B, A, ()>> Channel<B, A, Context<T, U>> for Unravel<T, U> {
    type Error = U::Error;

    open spec fn next(self, ctx: Context<T, U>) -> (Self, Context<T, U>, Poll<Option<B>>) {
        let step = self.0.next(());
        (Unravel(step.0, self.1), ctx, step.2)
    }

    fn poll_next(&mut self, ctx: &mut Context<T, U>) -> (r: Poll<Option<B>>) {
        let mut unit = ();
        self.0.poll_next(&mut unit)
    }

    open spec fn broken(self, ctx: Context<T, U>) -> bool {
        self.0.broken(())
    }

    fn is_broken(&self, ctx: &Context<T, U>) -> (r: bool) {
        self.0.is_broken(&())
    }

    open spec fn ready(self, ctx: Context<T, U>) -> (Self, Context<T, U>, Poll<Result<(), U::Error>>) {
        let step = self.0.ready(());
        (Unravel(step.0, self.1), ctx, step.2)
    }

    fn poll_ready(&mut self, ctx: &mut Context<T, U>) -> (r: Poll<Result<(), U::Error>>) {
        let mut unit = ();
        self.0.poll_ready(&mut unit)
    }

    open spec fn sent(self, ctx: Context<T, U>, item: A) -> (Self, Context<T, U>, Result<(), U::Error>) {
        let step = self.0.sent((), item);
        (Unravel(step.0, self.1), ctx, step.2)
    }

    fn start_send(&mut self, ctx: &mut Context<T, U>, item: A) -> (r: Result<(), U::Error>) {
        let mut unit = ();
        self.0.start_send(&mut unit, item)
    }

    open spec fn flushed(self, ctx: Context<T, U>) -> (Self, Context<T, U>, Poll<Result<(), U::Error>>) {
        let step = self.0.flushed(());
        (Unravel(step.0, self.1), ctx, step.2)
    }

    fn poll_flush(&mut self, ctx: &mut Context<T, U>) -> (r: Poll<Result<(), U::Error>>) {
        let mut unit = ();
        self.0.poll_flush(&mut unit)
    }

    open spec fn closed(self, ctx: Context<T, U>) -> (Self, Context<T, U>, Poll<Result<(), U::Error>>) {
        let step = self.0.closed(());
        (Unravel(step.0, self.1), ctx, step.2)
    }

    fn poll_close(&mut self, ctx: &mut Context<T, U>) -> (r: Poll<Result<(), U::Error>>) {
        let mut unit = ();
        self.0.poll_close(&mut unit)
    }
}

impl<A, B, T: Channel<A, B, ()>, U> Channel<A, B, Context<T, U>> for Coalesce<T, U> {
    type Error = T::Error;

    open spec fn next(self, ctx: Context<T, U>) -> (Self, Context<T, U>, Poll<Option<A>>) {
        let step = self.0.next(());
        (Coalesce(step.0, self.1), ctx, step.2)
    }

    fn poll_next(&mut self, ctx: &mut Context<T, U>) -> (r: Poll<Option<A>>) {
        let mut unit = ();
        self.0.poll_next(&mut unit)
    }

    open spec fn broken(self, ctx: Context<T, U>) -> bool {
        self.0.broken(())
    }

    fn is_broken(&self, ctx: &Context<T, U>) -> (r: bool) {
        self.0.is_broken(&())
    }

    open spec fn ready(self, ctx: Context<T, U>) -> (Self, Context<T, U>, Poll<Result<(), T::Error>>) {
        let step = self.0.ready(());
        (Coalesce(step.0, self.1), ctx, step.2)
    }

    fn poll_ready(&mut self, ctx: &mut Context<T, U>) -> (r: Poll<Result<(), T::Error>>) {
        let mut unit = ();
        self.0.poll_ready(&mut unit)
    }

    open spec fn sent(self, ctx: Context<T, U>, item: B) -> (Self, Context<T, U>, Result<(), T::Error>) {
        let step = self.0.sent((), item);
        (Coalesce(step.0, self.1), ctx, step.2)
    }

    fn start_send(&mut self, ctx: &mut Context<T, U>, item: B) -> (r: Result<(), T::Error>) {
        let mut unit = ();
        self.0.start_send(&mut unit, item)
    }

    open spec fn flushed(self, ctx: Context<T, U>) -> (Self, Context<T, U>, Poll<Result<(), T::Error>>) {
        let step = self.0.flushed(());
        (Coalesce(step.0, self.1), ctx, step.2)
    }

    fn poll_flush(&mut self, ctx: &mut Context<T, U>) -> (r: Poll<Result<(), T::Error>>) {
        let mut unit = ();
        self.0.poll_flush(&mut unit)
    }

    open spec fn closed(self, ctx: Context<T, U>) -> (Self, Context<T, U>, Poll<Result<(), T::Error>>) {
        let step = self.0.closed(());
        (Coalesce(step.0, self.1), ctx, step.2)
    }

    fn poll_close(&mut self, ctx: &mut Context<T, U>) -> (r: Poll<Result<(), T::Error>>) {
        let mut unit = ();
        self.0.poll_close(&mut unit)
    }
}

impl<T, U> Unravel<T, U> {
    /// The context that the channel belongs to.
    pub fn deref(&self) -> (r: &Context<T, U>)
        ensures
            *r == self.1,
    {
        &self.1
    }

    /// The context that the channel belongs to, for change.
    pub fn deref_mut(&mut self) -> (r: &mut Context<T, U>)
        ensures
            *r == old(self).1,
            *final(self) == Unravel(old(self).0, *final(r)),
    {
        &mut self.1
    }
}

impl<T, U> Coalesce<T, U> {
    /// The context that the channel belongs to.
    pub fn deref(&self) -> (r: &Context<T, U>)
        ensures
            *r == self.1,
    {
        &self.1
    }

    /// The context that the channel belongs to, for change.
    pub fn deref_mut(&mut self) -> (r: &mut Context<T, U>)
        ensures
            *r == old(self).1,
            *final(self) == Coalesce(old(self).0, *final(r)),
    {
        &mut self.1
    }
}

impl<A, B, T: Channel<A, B, ()>, U: Channel<B, A, ()>> Channels<A, B> for Context<T, U> {
    type Unravel = Unravel<T, U>;

    type Coalesce = Coalesce<T, U>;
}

impl<T, U> Dispatch for Context<T, U> {
    type Handle = ();
}

/// A task of a protocol that exchanges nothing, run beside the transport in
/// the context of two empty channels. The result `R` is passed on, an error
/// `P` of the protocol as `ContextError::Protocol`.
pub struct Aside<Fut, R, P>(pub Fut, pub Context<Empty, Empty>, pub PhantomData<(R, P)>);

impl<Fut, R, P> Aside<Fut, R, P> {
    pub fn new(task: Fut, ctx: Context<Empty, Empty>) -> (r: Self)
        ensures
            r.0 == task,
            r.1 == ctx,
    {
        Aside(task, ctx, PhantomData)
    }
}

impl<C: View, R, P, Fut: Task<Context<Empty, Empty>, Output = Result<R, P>>> Task<C> for Aside<Fut, R, P> {
    type Output = Result<R, ContextError<Infallible, P>>;

    open spec fn unresolved(self) -> bool {
        self.0.unresolved()
    }

    open spec fn polled(self, ctx: C::V) -> (Self, C::V, Poll<Self::Output>) {
        let step = self.0.polled(self.1);
        let r: Poll<Result<R, ContextError<Infallible, P>>> = match step.2 {
            Poll::Ready(Ok(value)) => Poll::Ready(Ok(value)),
            Poll::Ready(Err(e)) => Poll::Ready(Err(ContextError::Protocol(e))),
            Poll::Pending => Poll::Pending,
        };
        (Aside(step.0, step.1, self.2), ctx, r)
    }

    fn poll(&mut self, ctx: &mut C) -> (r: Poll<Self::Output>) {
        match self.0.poll(&mut self.1) {
            Poll::Ready(Ok(value)) => Poll::Ready(Ok(value)),
            Poll::Ready(Err(e)) => Poll::Ready(Err(ContextError::Protocol(e))),
            Poll::Pending => Poll::Pending,
        }
    }

    /// What the protocol holds, it holds in its own context: the context
    /// of the transport is not touched.
    open spec fn cancelled(self, ctx: C::V) -> C::V {
        ctx
    }

    fn cancel(self, ctx: &mut C) {
        let Aside(task, inner, _) = self;
        let mut inner = inner;
        task.cancel(&mut inner);
    }
}

impl<
    F: Format<Bottom>,
    T,
    U,
    P: Protocol<Context<Empty, Empty>, F, Unravel = Bottom, Coalesce = Bottom>,
> Join<P, F> for Context<T, U> {
    type Error = Infallible;

    type Target = Context<Empty, Empty>;

    type Output = Aside<P::CoalesceFuture, P, P::CoalesceError>;

    open spec fn joining(ctx: Context<T, U>, handle: ()) -> (Self::Output, Context<T, U>) {
        let start = <P as Protocol<Context<Empty, Empty>, F>>::coalescing(
            Coalesce(Empty(crate::director::null::Context), Context(PhantomData)),
            Context(PhantomData),
        );
        (Aside(start.0, start.1, PhantomData), ctx)
    }

    fn join(&mut self, handle: ()) -> (r: Self::Output) {
        let mut inner = Context::new();
        let task = <P as Protocol<Context<Empty, Empty>, F>>::coalesce(
            Coalesce(Empty::new(), Context::new()),
            &mut inner,
        );
        Aside::new(task, inner)
    }
}

impl<
    F: Format<Bottom>,
    T,
    U,
    P: Protocol<Context<Empty, Empty>, F, Unravel = Bottom, Coalesce = Bottom>,
> Spawn<P, F> for Context<T, U> {
    type Error = Infallible;

    type Target = Context<Empty, Empty>;

    type Output = Aside<P::UnravelFuture, (), P::UnravelError>;

    open spec fn spawning(ctx: Context<T, U>, item: P) -> (Self::Output, Context<T, U>) {
        let start = <P as Protocol<Context<Empty, Empty>, F>>::unraveling(
            item,
            Unravel(Empty(crate::director::null::Context), Context(PhantomData)),
            Context(PhantomData),
        );
        (Aside(start.0, start.1, PhantomData), ctx)
    }

    fn spawn(&mut self, item: P) -> (r: Self::Output) {
        let mut inner = Context::new();
        let task = <P as Protocol<Context<Empty, Empty>, F>>::unravel(
            item,
            Unravel(Empty::new(), Context::new()),
            &mut inner,
        );
        Aside::new(task, inner)
    }
}

/// The director for a transport that already carries the protocol's own
/// items: the protocol runs on the transport directly.
pub struct Trivial;

impl<
    F: Format<P::Unravel> + Format<P::Coalesce>,
    P: Protocol<Context<U, T>, F>,
    T: Channel<P::Coalesce, P::Unravel, ()>,
    U: Channel<P::Unravel, P::Coalesce, ()>,
> Director<P, F, U, T> for Trivial {
    type Context = Context<U, T>;

    type UnravelError = Infallible;

    type Unravel = Directed<P::UnravelFuture, (), P::UnravelError, Infallible>;

    type CoalesceError = Infallible;

    type Coalesce = Directed<P::CoalesceFuture, P, P::CoalesceError, Infallible>;

    open spec fn unraveling(self, protocol: P, transport: T) -> (Self::Unravel, Context<U, T>) {
        let start = <P as Protocol<Context<U, T>, F>>::unraveling(
            protocol,
            Unravel(transport, Context(PhantomData)),
            Context(PhantomData),
        );
        (Directed(start.0, PhantomData), start.1)
    }

    fn unravel(self, protocol: P, transport: T) -> (r: (Self::Unravel, Context<U, T>)) {
        let mut ctx = Context::new();
        let task = <P as Protocol<Context<U, T>, F>>::unravel(
            protocol,
            Unravel(transport, Context::new()),
            &mut ctx,
        );
        (Directed::new(task), ctx)
    }

    open spec fn coalescing(self, transport: U) -> (Self::Coalesce, Context<U, T>) {
        let start = <P as Protocol<Context<U, T>, F>>::coalescing(
            Coalesce(transport, Context(PhantomData)),
            Context(PhantomData),
        );
        (Directed(start.0, PhantomData), start.1)
    }

    fn coalesce(self, transport: U) -> (r: (Self::Coalesce, Context<U, T>)) {
        let mut ctx = Context::new();
        let task = <P as Protocol<Context<U, T>, F>>::coalesce(
            Coalesce(transport, Context::new()),
            &mut ctx,
        );
        (Directed::new(task), ctx)
    }
}

} // verus!
