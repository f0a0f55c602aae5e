//! Protocols of the types that carry no information: nothing is exchanged,
//! and both directions finish at the first poll.
use vstd::prelude::*;

use core::convert::Infallible;
use core::marker::PhantomData;

use crate::future::Ready;
use crate::{Bottom, Channels, Protocol};

verus! {

impl<C: View, F> Protocol<C, F> for () {
    type Unravel = Bottom;

    type UnravelError = Infallible;

    type UnravelFuture = Ready<Result<(), Infallible>>;

    type Coalesce = Bottom;

    type CoalesceError = Infallible;

    type CoalesceFuture = Ready<Result<(), Infallible>>;

    open spec fn unraveling(self, channel: C::Unravel, ctx: C::V) -> (Self::UnravelFuture, C::V)
        where C: Channels<Self::Unravel, Self::Coalesce>
    {
        (Ready(Some(Ok(()))), ctx)
    }

    fn unravel(self, channel: C::Unravel, ctx: &mut C) -> (r: Self::UnravelFuture)
        where C: Channels<Self::Unravel, Self::Coalesce>
    {
        Ready::new(Ok(()))
    }

    open spec fn coalescing(channel: C::Coalesce, ctx: C::V) -> (Self::CoalesceFuture, C::V)
        where C: Channels<Self::Unravel, Self::Coalesce>
    {
        (Ready(Some(Ok(()))), ctx)
    }

    fn coalesce(channel: C::Coalesce, ctx: &mut C) -> (r: Self::CoalesceFuture)
        where C: Channels<Self::Unravel, Self::Coalesce>
    {
        Ready::new(Ok(()))
    }
}

impl<T, C: View, F> Protocol<C, F> for PhantomData<T> {
    type Unravel = Bottom;

    type UnravelError = Infallible;

    type UnravelFuture = Ready<Result<(), Infallible>>;

    type Coalesce = Bottom;

    type CoalesceError = Infallible;

    type CoalesceFuture = Ready<Result<PhantomData<T>, Infallible>>;

    open spec fn unraveling(self, channel: C::Unravel, ctx: C::V) -> (Self::UnravelFuture, C::V)
        where C: Channels<Self::Unravel, Self::Coalesce>
    {
        (Ready(Some(Ok(()))), ctx)
    }

    fn unravel(self, channel: C::Unravel, ctx: &mut C) -> (r: Self::UnravelFuture)
        where C: Channels<Self::Unravel, Self::Coalesce>
    {
        Ready::new(Ok(()))
    }

    open spec fn coalescing(channel: C::Coalesce, ctx: C::V) -> (Self::CoalesceFuture, C::V)
        where C: Channels<Self::Unravel, Self::Coalesce>
    {
        (Ready(Some(Ok(PhantomData))), ctx)
    }

    fn coalesce(channel: C::Coalesce, ctx: &mut C) -> (r: Self::CoalesceFuture)
        where C: Channels<Self::Unravel, Self::Coalesce>
    {
        Ready::new(Ok(PhantomData))
    }
}

impl<T, C: View, F> Protocol<C, F> for [T; 0] {
    type Unravel = Bottom;

    type UnravelError = Infallible;

    type UnravelFuture = Ready<Result<(), Infallible>>;

    type Coalesce = Bottom;

    type CoalesceError = Infallible;

    type CoalesceFuture = Ready<Result<[T; 0], Infallible>>;

    open spec fn unraveling(self, channel: C::Unravel, ctx: C::V) -> (Self::UnravelFuture, C::V)
        where C: Channels<Self::Unravel, Self::Coalesce>
    {
        (Ready(Some(Ok(()))), ctx)
    }

    fn unravel(self, channel: C::Unravel, ctx: &mut C) -> (r: Self::UnravelFuture)
        where C: Channels<Self::Unravel, Self::Coalesce>
    {
        Ready::new(Ok(()))
    }

    open spec fn coalescing(channel: C::Coalesce, ctx: C::V) -> (Self::CoalesceFuture, C::V)
        where C: Channels<Self::Unravel, Self::Coalesce>
    {
        (Ready(Some(Ok([]))), ctx)
    }

    fn coalesce(channel: C::Coalesce, ctx: &mut C) -> (r: Self::CoalesceFuture)
        where C: Channels<Self::Unravel, Self::Coalesce>
    {
        Ready::new(Ok([]))
    }
}

} // verus!
