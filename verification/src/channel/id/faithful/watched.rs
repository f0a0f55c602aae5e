//! Watched values are carried faithfully: a watched value is as faithful as
//! the option of the pair of its value and its feed.
use vstd::prelude::*;

use crate::channel::id::faithful::options::{
    lemma_option_cancel, lemma_option_coalesce, lemma_option_resolves, lemma_option_trace,
    lemma_option_unravel, option_trace,
};
use crate::channel::id::faithful::tuples::trace_2;
use crate::channel::id::faithful::{Faithful, Trace};
use crate::channel::id::{ForkHandle, IdChannel, IdChannelFork, Model};
use crate::format::{Format, Lossless};
use crate::replicate::{React, Reactive};
use crate::{Bottom, Poll, Protocol, Task};

verus! {

/// What sending a watched value leaves behind: what sending `Some` of the
/// pair of the value and its feed leaves.
pub open spec fn react_trace<
    F: Format<ForkHandle, Representation = Vec<u8>>,
    T: Reactive + Faithful<F>,
>(value: React<T>, id: u32, next: nat, format: F) -> Option<Trace<F>> where
    <T as Reactive>::Feed: Faithful<F>,
 {
    if next <= u32::MAX {
        match trace_2((value.item(), value.feed()), next as u32, next + 1, format) {
            Some(inner) => {
                let encoded = <F as Format<ForkHandle>>::serialized(
                    inner.format,
                    ForkHandle(next as u32),
                );
                match encoded.1 {
                    Ok(payload) => Some(
                        Trace {
                            items: inner.items.push((id, payload)),
                            next: inner.next,
                            format: encoded.0,
                        },
                    ),
                    Err(_) => None,
                }
            },
            None => None,
        }
    } else {
        None
    }
}

/// The trace of a watched value is that of the option of its parts.
pub proof fn lemma_react_trace<
    F: Lossless<ForkHandle> + Format<ForkHandle, Representation = Vec<u8>> + Format<
        Bottom,
        Representation = Vec<u8>,
    > + Format<<T as Protocol<IdChannel<F>, F>>::Unravel, Representation = Vec<u8>> + Format<
        <T as Protocol<IdChannel<F>, F>>::Coalesce,
        Representation = Vec<u8>,
    > + Format<
        <<T as Reactive>::Feed as Protocol<IdChannel<F>, F>>::Unravel,
        Representation = Vec<u8>,
    > + Format<
        <<T as Reactive>::Feed as Protocol<IdChannel<F>, F>>::Coalesce,
        Representation = Vec<u8>,
    >,
    T: Reactive + Faithful<F> + Protocol<IdChannel<F>, F>,
>(value: React<T>, id: u32, next: nat, format: F) where
    <T as Reactive>::Feed: Faithful<F> + Protocol<IdChannel<F>, F>,

    ensures
        react_trace(value, id, next, format) == option_trace(
            Some((value.item(), value.feed())),
            id,
            next,
            format,
        ),
{
}

/// Unraveling a watched value resolves at the first poll and leaves the
/// live registry as it was; it leaves its trace if all of it could be sent.
/// Given up before, it leaves the live registry as it was.
pub proof fn lemma_react_unravel<
    F: Lossless<ForkHandle> + Format<ForkHandle, Representation = Vec<u8>> + Format<
        Bottom,
        Representation = Vec<u8>,
    > + Format<<T as Protocol<IdChannel<F>, F>>::Unravel, Representation = Vec<u8>> + Format<
        <T as Protocol<IdChannel<F>, F>>::Coalesce,
        Representation = Vec<u8>,
    > + Format<
        <<T as Reactive>::Feed as Protocol<IdChannel<F>, F>>::Unravel,
        Representation = Vec<u8>,
    > + Format<
        <<T as Reactive>::Feed as Protocol<IdChannel<F>, F>>::Coalesce,
        Representation = Vec<u8>,
    >,
    T: Reactive + Faithful<F> + Protocol<IdChannel<F>, F>,
>(value: React<T>, ctx: Model<F>, id: u32) where
    <T as Reactive>::Feed: Faithful<F> + Protocol<IdChannel<F>, F>,

    requires
        ctx.wf(),
    ensures
        ({
            let start = <React<T> as Protocol<IdChannel<F>, F>>::unraveling(
                value,
                IdChannelFork::of(id),
                ctx,
            );
            let step = start.0.polled(start.1);
            &&& start.0.cancelled(start.1).sinks == ctx.sinks
            &&& start.0.cancelled(start.1).wf()
            &&& step.2 is Ready
            &&& step.1.sinks == ctx.sinks
            &&& step.1.wf()
            &&& ctx.sinks.contains_key(id) && react_trace(value, id, ctx.next, ctx.format) is Some
                ==> {
                &&& start.0.unresolved()
                &&& step.2 == Poll::Ready(
                    Ok::<(), <React<T> as Protocol<IdChannel<F>, F>>::UnravelError>(()),
                )
                &&& step.1 == ctx.sent(react_trace(value, id, ctx.next, ctx.format)->0)
                &&& step.1.wf()
            }
        }),
{
    let parts = Some((value.item(), value.feed()));
    lemma_react_trace(value, id, ctx.next, ctx.format);
    lemma_option_cancel(parts, ctx, id);
    lemma_option_resolves(parts, ctx, id);
    if ctx.sinks.contains_key(id) && react_trace(value, id, ctx.next, ctx.format) is Some {
        lemma_option_unravel(parts, ctx, id);
    }
}

/// Coalescing a watched value from an endpoint that holds what unraveling
/// it left resolves at the first poll to the value.
pub proof fn lemma_react_coalesce<
    F: Lossless<ForkHandle> + Format<ForkHandle, Representation = Vec<u8>> + Format<
        Bottom,
        Representation = Vec<u8>,
    > + Format<<T as Protocol<IdChannel<F>, F>>::Unravel, Representation = Vec<u8>> + Format<
        <T as Protocol<IdChannel<F>, F>>::Coalesce,
        Representation = Vec<u8>,
    > + Format<
        <<T as Reactive>::Feed as Protocol<IdChannel<F>, F>>::Unravel,
        Representation = Vec<u8>,
    > + Format<
        <<T as Reactive>::Feed as Protocol<IdChannel<F>, F>>::Coalesce,
        Representation = Vec<u8>,
    >,
    T: Reactive + Faithful<F> + Protocol<IdChannel<F>, F>,
>(
    value: React<T>,
    id: u32,
    next: nat,
    format: F,
    ctx: Model<F>,
) where
    <T as Reactive>::Feed: Faithful<F> + Protocol<IdChannel<F>, F>,

    requires
        react_trace(value, id, next, format) is Some,
        ctx.holds(
            react_trace(value, id, next, format)->0.items,
            id,
            next,
            react_trace(value, id, next, format)->0.next,
        ),
    ensures
        ({
            let start = <React<T> as Protocol<IdChannel<F>, F>>::coalescing(
                IdChannelFork::of(id),
                ctx,
            );
            let step = start.0.polled(start.1);
            &&& start.0.unresolved()
            &&& step.2 == Poll::Ready(
                Ok::<React<T>, <React<T> as Protocol<IdChannel<F>, F>>::CoalesceError>(value),
            )
            &&& step.1.with_format(ctx.format) == ctx.rebuilt(
                id,
                next,
                react_trace(value, id, next, format)->0.next,
            )
            &&& step.1.wf()
        }),
{
    let parts = Some((value.item(), value.feed()));
    lemma_react_trace(value, id, next, format);
    lemma_option_coalesce(parts, id, next, format, ctx);
    value.lemma_parts();
}

impl<
    F: Lossless<ForkHandle> + Format<ForkHandle, Representation = Vec<u8>> + Format<
        Bottom,
        Representation = Vec<u8>,
    > + Format<<T as Protocol<IdChannel<F>, F>>::Unravel, Representation = Vec<u8>> + Format<
        <T as Protocol<IdChannel<F>, F>>::Coalesce,
        Representation = Vec<u8>,
    > + Format<
        <<T as Reactive>::Feed as Protocol<IdChannel<F>, F>>::Unravel,
        Representation = Vec<u8>,
    > + Format<
        <<T as Reactive>::Feed as Protocol<IdChannel<F>, F>>::Coalesce,
        Representation = Vec<u8>,
    >,
    T: Reactive + Faithful<F> + Protocol<IdChannel<F>, F>,
> Faithful<F> for React<T> where
    <T as Reactive>::Feed: Faithful<F> + Protocol<IdChannel<F>, F>,
 {
    open spec fn trace(self, id: u32, next: nat, format: F) -> Option<Trace<F>> {
        react_trace(self, id, next, format)
    }

    proof fn law_trace(self, id: u32, next: nat, format: F) {
        lemma_react_trace(self, id, next, format);
        lemma_option_trace(Some((self.item(), self.feed())), id, next, format);
    }

    proof fn law_unravel(self, ctx: Model<F>, id: u32) {
        lemma_react_unravel(self, ctx, id);
    }

    proof fn law_resolve(self, ctx: Model<F>, id: u32) {
        lemma_react_unravel(self, ctx, id);
    }

    proof fn law_cancel(self, ctx: Model<F>, id: u32) {
        lemma_react_unravel(self, ctx, id);
    }

    proof fn law_idle(id: u32, ctx: Model<F>, other: Model<F>) {
        lemma_react_idle::<F, T>(id, ctx, other);
    }

    proof fn law_coalesce(self, id: u32, next: nat, format: F, ctx: Model<F>) {
        lemma_react_coalesce(self, id, next, format, ctx);
    }
}

/// Starting to coalesce a watched value touches nothing and reads nothing.
pub proof fn lemma_react_idle<
    F: Lossless<ForkHandle> + Format<ForkHandle, Representation = Vec<u8>> + Format<
        Bottom,
        Representation = Vec<u8>,
    > + Format<<T as Protocol<IdChannel<F>, F>>::Unravel, Representation = Vec<u8>> + Format<
        <T as Protocol<IdChannel<F>, F>>::Coalesce,
        Representation = Vec<u8>,
    > + Format<
        <<T as Reactive>::Feed as Protocol<IdChannel<F>, F>>::Unravel,
        Representation = Vec<u8>,
    > + Format<
        <<T as Reactive>::Feed as Protocol<IdChannel<F>, F>>::Coalesce,
        Representation = Vec<u8>,
    >,
    T: Reactive + Faithful<F> + Protocol<IdChannel<F>, F>,
>(id: u32, ctx: Model<F>, other: Model<F>) where
    <T as Reactive>::Feed: Faithful<F> + Protocol<IdChannel<F>, F>,

    ensures
        <React<T> as Protocol<IdChannel<F>, F>>::coalescing(IdChannelFork::of(id), ctx).1 == ctx,
        <React<T> as Protocol<IdChannel<F>, F>>::coalescing(IdChannelFork::of(id), ctx).0 == <React<
            T,
        > as Protocol<IdChannel<F>, F>>::coalescing(IdChannelFork::of(id), other).0,
{
}

} // verus!
