//! Directors bind a protocol to a transport.
use vstd::prelude::*;

use core::marker::PhantomData;

use crate::{Poll, Protocol, Task};

pub mod null;
pub mod pipe;
pub mod trivial;

pub use null::{Empty, Null};
pub use trivial::Trivial;

verus! {

/// An error of a directed exchange: raised by the director itself, or by the
/// protocol that it ran.
#[derive(Debug)]
pub enum DirectorError<T, U> {
    Director(T),
    Protocol(U),
}

/// A strategy that runs protocol `P` over a transport: `T` on the side that
/// unravels, `U` on the side that coalesces.
pub trait Director<P: Protocol<Self::Context, F>, F, U, T>: Sized {
    type Context: View;
    type UnravelError;
    type Unravel: Task<Self::Context, Output = Result<(), DirectorError<Self::UnravelError, P::UnravelError>>>;
    type CoalesceError;
    type Coalesce: Task<Self::Context, Output = Result<P, DirectorError<Self::CoalesceError, P::CoalesceError>>>;

    /// The task that `unravel` starts and the context to poll it against.
    open spec fn unraveling(self, protocol: P, transport: T) -> (
        Self::Unravel,
        <Self::Context as View>::V,
    ) {
        arbitrary()
    }

    /// Starts sending `protocol` over `transport`.
    fn unravel(self, protocol: P, transport: T) -> (r: (Self::Unravel, Self::Context))
        ensures
            (r.0, r.1@) == self.unraveling(protocol, transport),
            r.0.unresolved(),
    ;

    /// The task that `coalesce` starts and the context to poll it against.
    open spec fn coalescing(self, transport: U) -> (Self::Coalesce, <Self::Context as View>::V) {
        arbitrary()
    }

    /// Starts rebuilding a value from `transport`.
    fn coalesce(self, transport: U) -> (r: (Self::Coalesce, Self::Context))
        ensures
            (r.0, r.1@) == self.coalescing(transport),
            r.0.unresolved(),
    ;
}

/// Runs a protocol's task under a director whose own errors have type `E`:
/// the result `T` is passed on, an error `P` of the protocol as
/// `DirectorError::Protocol`.
pub struct Directed<Fut, T, P, E>(pub Fut, pub PhantomData<(T, P, E)>);

impl<Fut, T, P, E> Directed<Fut, T, P, E> {
    pub fn new(task: Fut) -> (r: Self)
        ensures
            r.0 == task,
    {
        Directed(task, PhantomData)
    }
}

impl<C: View, T, P, E, Fut: Task<C, Output = Result<T, P>>> Task<C> for Directed<Fut, T, P, E> {
    type Output = Result<T, DirectorError<E, P>>;

    open spec fn unresolved(self) -> bool {
        self.0.unresolved()
    }

    open spec fn polled(self, ctx: C::V) -> (Self, C::V, Poll<Self::Output>) {
        let step = self.0.polled(ctx);
        let r: Poll<Result<T, DirectorError<E, P>>> = match step.2 {
            Poll::Ready(Ok(value)) => Poll::Ready(Ok(value)),
            Poll::Ready(Err(e)) => Poll::Ready(Err(DirectorError::Protocol(e))),
            Poll::Pending => Poll::Pending,
        };
        (Directed(step.0, self.1), step.1, r)
    }

    fn poll(&mut self, ctx: &mut C) -> (r: Poll<Self::Output>) {
        match self.0.poll(ctx) {
            Poll::Ready(Ok(value)) => Poll::Ready(Ok(value)),
            Poll::Ready(Err(e)) => Poll::Ready(Err(DirectorError::Protocol(e))),
            Poll::Pending => Poll::Pending,
        }
    }

    open spec fn cancelled(self, ctx: C::V) -> C::V {
        self.0.cancelled(ctx)
    }

    fn cancel(self, ctx: &mut C) {
        self.0.cancel(ctx)
    }
}

} // verus!
