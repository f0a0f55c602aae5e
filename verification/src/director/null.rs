//! The director for protocols that exchange nothing.
use vstd::prelude::*;

use core::convert::Infallible;
use core::marker::PhantomData;

use crate::director::{Directed, Director};
use crate::{Bottom, Channel, Channels, Dispatch, Format, InContext, Join, Poll, Protocol, Spawn};

verus! {

/// The context in which nothing is exchanged. It holds no state.
pub struct Context;

impl View for Context {
    type V = Context;

    open spec fn view(&self) -> Context {
        *self
    }
}

/// The channel of the empty context: its stream has ended from the start,
/// and no item can be sent into it, since there is none to send.
pub struct Empty(pub Context);

impl Empty {
    pub fn new() -> (r: Self)
        ensures
            r == Empty(Context),
    {
        Empty(Context)
    }

    /// The context that the channel belongs to.
    pub fn deref(&self) -> (r: &Context)
        ensures
            *r == self.0,
    {
        &self.0
    }

    /// The context that the channel belongs to, for change.
    pub fn deref_mut(&mut self) -> (r: &mut Context)
        ensures
            *r == old(self).0,
            *final(self) == Empty(*final(r)),
    {
        &mut self.0
    }
}

impl<S: View> Channel<Bottom, Bottom, S> for Empty {
    type Error = Infallible;

    open spec fn next(self, ctx: S::V) -> (Self, S::V, Poll<Option<Bottom>>) {
        (self, ctx, Poll::Ready(None))
    }

    fn poll_next(&mut self, ctx: &mut S) -> (r: Poll<Option<Bottom>>) {
        Poll::Ready(None)
    }

    open spec fn broken(self, ctx: S::V) -> bool {
        false
    }

    fn is_broken(&self, ctx: &S) -> (r: bool) {
        false
    }

    open spec fn ready(self, ctx: S::V) -> (Self, S::V, Poll<Result<(), Infallible>>) {
        (self, ctx, Poll::Ready(Ok(())))
    }

    fn poll_ready(&mut self, ctx: &mut S) -> (r: Poll<Result<(), Infallible>>) {
        Poll::Ready(Ok(()))
    }

    open spec fn sent(self, ctx: S::V, item: Bottom) -> (Self, S::V, Result<(), Infallible>) {
        (self, ctx, Ok(()))
    }

    fn start_send(&mut self, ctx: &mut S, item: Bottom) -> (r: Result<(), Infallible>) {
        Ok(())
    }

    open spec fn flushed(self, ctx: S::V) -> (Self, S::V, Poll<Result<(), Infallible>>) {
        (self, ctx, Poll::Ready(Ok(())))
    }

    fn poll_flush(&mut self, ctx: &mut S) -> (r: Poll<Result<(), Infallible>>) {
        Poll::Ready(Ok(()))
    }

    open spec fn closed(self, ctx: S::V) -> (Self, S::V, Poll<Result<(), Infallible>>) {
        (self, ctx, Poll::Ready(Ok(())))
    }

    fn poll_close(&mut self, ctx: &mut S) -> (r: Poll<Result<(), Infallible>>) {
        Poll::Ready(Ok(()))
    }
}

impl Channels<Bottom, Bottom> for Context {
    type Unravel = Empty;

    type Coalesce = Empty;
}

impl Dispatch for Context {
    type Handle = ();
}

impl<F: Format<Bottom>, P: Protocol<Context, F, Unravel = Bottom, Coalesce = Bottom>> Join<P, F> for Context {
    type Error = Infallible;

    type Target = Context;

    type Output = InContext<P::CoalesceFuture, P, P::CoalesceError, Infallible>;

    open spec fn joining(ctx: Context, handle: ()) -> (Self::Output, Context) {
        let (task, ctx) = <P as Protocol<Context, F>>::coalescing(Empty(Context), ctx);
        (InContext(task, PhantomData), ctx)
    }

    fn join(&mut self, handle: ()) -> (r: Self::Output) {
        InContext::new(<P as Protocol<Context, F>>::coalesce(Empty(Context), self))
    }
}

impl<F: Format<Bottom>, P: Protocol<Context, F, Unravel = Bottom, Coalesce = Bottom>> Spawn<P, F> for Context {
    type Error = Infallible;

    type Target = Context;

    type Output = InContext<P::UnravelFuture, (), P::UnravelError, Infallible>;

    open spec fn spawning(ctx: Context, item: P) -> (Self::Output, Context) {
        let (task, ctx) = <P as Protocol<Context, F>>::unraveling(item, Empty(Context), ctx);
        (InContext(task, PhantomData), ctx)
    }

    fn spawn(&mut self, item: P) -> (r: Self::Output) {
        InContext::new(<P as Protocol<Context, F>>::unravel(item, Empty(Context), self))
    }
}

/// The director for protocols that send nothing in either direction: it
/// runs them over the empty channel and never touches the transport.
pub struct Null;

impl<F: Format<Bottom>, P: Protocol<Context, F, Unravel = Bottom, Coalesce = Bottom>, U, T> Director<P, F, U, T> for Null {
    type Context = Context;

    type UnravelError = Infallible;

    type Unravel = Directed<P::UnravelFuture, (), P::UnravelError, Infallible>;

    type CoalesceError = Infallible;

    type Coalesce = Directed<P::CoalesceFuture, P, P::CoalesceError, Infallible>;

    open spec fn unraveling(self, protocol: P, transport: T) -> (Self::Unravel, Context) {
        let (task, ctx) = <P as Protocol<Context, F>>::unraveling(protocol, Empty(Context), Context);
        (Directed(task, PhantomData), ctx)
    }

    fn unravel(self, protocol: P, transport: T) -> (r: (Self::Unravel, Context)) {
        let mut ctx = Context;
        let task = <P as Protocol<Context, F>>::unravel(protocol, Empty(Context), &mut ctx);
        (Directed::new(task), ctx)
    }

    open spec fn coalescing(self, transport: U) -> (Self::Coalesce, Context) {
        let (task, ctx) = <P as Protocol<Context, F>>::coalescing(Empty(Context), Context);
        (Directed(task, PhantomData), ctx)
    }

    fn coalesce(self, transport: U) -> (r: (Self::Coalesce, Context)) {
        let mut ctx = Context;
        let task = <P as Protocol<Context, F>>::coalesce(Empty(Context), &mut ctx);
        (Directed::new(task), ctx)
    }
}

} // verus!
