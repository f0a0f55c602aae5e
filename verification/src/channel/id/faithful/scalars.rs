//! Scalars are carried faithfully by every format whose serializer gives
//! back what it serialized.
use vstd::prelude::*;

use core::time::Duration;

use crate::channel::id::faithful::{Faithful, Trace};
use crate::channel::id::wire::project;
use crate::channel::id::{IdChannel, IdChannelFork, Model};
use crate::flat;
use crate::format::serde::{Exact, Serde};
use crate::format::{Format, Lossless};
use crate::future::{Forward, StreamFuture};
use crate::{Bottom, Poll, Task};

verus! {

/// What sending a scalar leaves behind: one item on its own sub-channel,
/// the scalar as the format serializes it.
pub open spec fn flat_trace<F: Format<T, Representation = Vec<u8>>, T>(
    item: T,
    id: u32,
    next: nat,
    format: F,
) -> Option<Trace<F>> {
    let encoded = <F as Format<T>>::serialized(format, item);
    match encoded.1 {
        Ok(payload) => if next <= 0x1_0000_0000 {
            Some(Trace { items: seq![(id, payload)], next, format: encoded.0 })
        } else {
            None
        },
        Err(_) => None,
    }
}

/// Sending a scalar that serializes resolves at the first poll and leaves
/// its trace.
pub proof fn lemma_flat_unravel<
    F: Format<T, Representation = Vec<u8>> + Format<Bottom, Representation = Vec<u8>>,
    T,
>(item: T, ctx: Model<F>, id: u32)
    requires
        ctx.wf(),
        flat_trace(item, id, ctx.next, ctx.format) is Some,
    ensures
        ({
            let send = Forward::<IdChannelFork<Bottom, T>, Bottom, T>::once(item, IdChannelFork::of(id));
            let step = <Forward<IdChannelFork<Bottom, T>, Bottom, T> as Task<IdChannel<F>>>::polled(
                send,
                ctx,
            );
            &&& step.2 == Poll::Ready(Ok::<(), <F as Format<T>>::SerializeError>(()))
            &&& step.1 == ctx.sent(flat_trace(item, id, ctx.next, ctx.format)->0)
            &&& step.1.wf()
        }),
{
    let trace = flat_trace(item, id, ctx.next, ctx.format)->0;
    assert(ctx.sent(trace).known =~= ctx.known);
    assert(ctx.sent(trace).held =~= ctx.held);
    assert(ctx.sent(trace).parked =~= ctx.parked);
    assert(ctx.sent(trace).outbound =~= ctx.outbound.push(trace.items[0]));
}

/// Sending a scalar resolves at the first poll, whether the scalar
/// serializes or not, and leaves the live registry as it was.
pub proof fn lemma_flat_resolves<
    F: Format<T, Representation = Vec<u8>> + Format<Bottom, Representation = Vec<u8>>,
    T,
>(item: T, ctx: Model<F>, id: u32)
    requires
        ctx.wf(),
    ensures
        ({
            let send = Forward::<IdChannelFork<Bottom, T>, Bottom, T>::once(item, IdChannelFork::of(id));
            let step = <Forward<IdChannelFork<Bottom, T>, Bottom, T> as Task<IdChannel<F>>>::polled(
                send,
                ctx,
            );
            &&& step.2 is Ready
            &&& step.1.sinks == ctx.sinks
            &&& step.1.wf()
        }),
{
}

/// Reading a scalar from an endpoint that holds what sending it left
/// resolves at the first poll to the scalar.
pub proof fn lemma_flat_coalesce<
    F: Lossless<T> + Format<T, Representation = Vec<u8>> + Format<Bottom, Representation = Vec<u8>>,
    T,
>(item: T, id: u32, next: nat, format: F, ctx: Model<F>)
    requires
        flat_trace(item, id, next, format) is Some,
        ctx.holds(flat_trace(item, id, next, format)->0.items, id, next, next),
    ensures
        ({
            let read = flat::Coalesce(StreamFuture::<IdChannelFork<T, Bottom>, T, Bottom>::of(IdChannelFork::of(id)));
            let step = <flat::Coalesce<IdChannelFork<T, Bottom>, T> as Task<IdChannel<F>>>::polled(
                read,
                ctx,
            );
            &&& step.2 == Poll::Ready(Ok::<T, flat::Unread>(item))
            &&& step.1.with_format(ctx.format) == ctx.rebuilt(id, next, next)
            &&& step.1.wf()
        }),
{
    let trace = flat_trace(item, id, next, format)->0;
    let payload = trace.items[0].1;
    assert(trace.items.drop_last() =~= Seq::empty());
    assert(project(trace.items, id) =~= seq![payload]) by {
        reveal_with_fuel(project, 2);
    }
    <F as Lossless<T>>::round_trip(format, ctx.format, item);
    let done = ctx.rebuilt(id, next, next);
    assert(done.known =~= ctx.known);
    assert(done.held =~= ctx.held);
    assert(done.parked =~= ctx.parked);
    assert(ctx.sinks[id].remove(0) =~= Seq::empty());
}

impl<S: Exact<Representation = Vec<u8>>> Faithful<Serde<S>> for bool {
    open spec fn trace(self, id: u32, next: nat, format: Serde<S>) -> Option<Trace<Serde<S>>> {
        flat_trace(self, id, next, format)
    }

    proof fn law_trace(self, id: u32, next: nat, format: Serde<S>) {
    }

    proof fn law_unravel(self, ctx: Model<Serde<S>>, id: u32) {
        lemma_flat_unravel(self, ctx, id);
    }

    proof fn law_resolve(self, ctx: Model<Serde<S>>, id: u32) {
        lemma_flat_resolves(self, ctx, id);
    }

    proof fn law_cancel(self, ctx: Model<Serde<S>>, id: u32) {
    }

    proof fn law_idle(id: u32, ctx: Model<Serde<S>>, other: Model<Serde<S>>) {
    }

    proof fn law_coalesce(self, id: u32, next: nat, format: Serde<S>, ctx: Model<Serde<S>>) {
        lemma_flat_coalesce(self, id, next, format, ctx);
    }
}

impl<S: Exact<Representation = Vec<u8>>> Faithful<Serde<S>> for char {
    open spec fn trace(self, id: u32, next: nat, format: Serde<S>) -> Option<Trace<Serde<S>>> {
        flat_trace(self, id, next, format)
    }

    proof fn law_trace(self, id: u32, next: nat, format: Serde<S>) {
    }

    proof fn law_unravel(self, ctx: Model<Serde<S>>, id: u32) {
        lemma_flat_unravel(self, ctx, id);
    }

    proof fn law_resolve(self, ctx: Model<Serde<S>>, id: u32) {
        lemma_flat_resolves(self, ctx, id);
    }

    proof fn law_cancel(self, ctx: Model<Serde<S>>, id: u32) {
    }

    proof fn law_idle(id: u32, ctx: Model<Serde<S>>, other: Model<Serde<S>>) {
    }

    proof fn law_coalesce(self, id: u32, next: nat, format: Serde<S>, ctx: Model<Serde<S>>) {
        lemma_flat_coalesce(self, id, next, format, ctx);
    }
}

impl<S: Exact<Representation = Vec<u8>>> Faithful<Serde<S>> for u8 {
    open spec fn trace(self, id: u32, next: nat, format: Serde<S>) -> Option<Trace<Serde<S>>> {
        flat_trace(self, id, next, format)
    }

    proof fn law_trace(self, id: u32, next: nat, format: Serde<S>) {
    }

    proof fn law_unravel(self, ctx: Model<Serde<S>>, id: u32) {
        lemma_flat_unravel(self, ctx, id);
    }

    proof fn law_resolve(self, ctx: Model<Serde<S>>, id: u32) {
        lemma_flat_resolves(self, ctx, id);
    }

    proof fn law_cancel(self, ctx: Model<Serde<S>>, id: u32) {
    }

    proof fn law_idle(id: u32, ctx: Model<Serde<S>>, other: Model<Serde<S>>) {
    }

    proof fn law_coalesce(self, id: u32, next: nat, format: Serde<S>, ctx: Model<Serde<S>>) {
        lemma_flat_coalesce(self, id, next, format, ctx);
    }
}

impl<S: Exact<Representation = Vec<u8>>> Faithful<Serde<S>> for u16 {
    open spec fn trace(self, id: u32, next: nat, format: Serde<S>) -> Option<Trace<Serde<S>>> {
        flat_trace(self, id, next, format)
    }

    proof fn law_trace(self, id: u32, next: nat, format: Serde<S>) {
    }

    proof fn law_unravel(self, ctx: Model<Serde<S>>, id: u32) {
        lemma_flat_unravel(self, ctx, id);
    }

    proof fn law_resolve(self, ctx: Model<Serde<S>>, id: u32) {
        lemma_flat_resolves(self, ctx, id);
    }

    proof fn law_cancel(self, ctx: Model<Serde<S>>, id: u32) {
    }

    proof fn law_idle(id: u32, ctx: Model<Serde<S>>, other: Model<Serde<S>>) {
    }

    proof fn law_coalesce(self, id: u32, next: nat, format: Serde<S>, ctx: Model<Serde<S>>) {
        lemma_flat_coalesce(self, id, next, format, ctx);
    }
}

impl<S: Exact<Representation = Vec<u8>>> Faithful<Serde<S>> for u32 {
    open spec fn trace(self, id: u32, next: nat, format: Serde<S>) -> Option<Trace<Serde<S>>> {
        flat_trace(self, id, next, format)
    }

    proof fn law_trace(self, id: u32, next: nat, format: Serde<S>) {
    }

    proof fn law_unravel(self, ctx: Model<Serde<S>>, id: u32) {
        lemma_flat_unravel(self, ctx, id);
    }

    proof fn law_resolve(self, ctx: Model<Serde<S>>, id: u32) {
        lemma_flat_resolves(self, ctx, id);
    }

    proof fn law_cancel(self, ctx: Model<Serde<S>>, id: u32) {
    }

    proof fn law_idle(id: u32, ctx: Model<Serde<S>>, other: Model<Serde<S>>) {
    }

    proof fn law_coalesce(self, id: u32, next: nat, format: Serde<S>, ctx: Model<Serde<S>>) {
        lemma_flat_coalesce(self, id, next, format, ctx);
    }
}

impl<S: Exact<Representation = Vec<u8>>> Faithful<Serde<S>> for u64 {
    open spec fn trace(self, id: u32, next: nat, format: Serde<S>) -> Option<Trace<Serde<S>>> {
        flat_trace(self, id, next, format)
    }

    proof fn law_trace(self, id: u32, next: nat, format: Serde<S>) {
    }

    proof fn law_unravel(self, ctx: Model<Serde<S>>, id: u32) {
        lemma_flat_unravel(self, ctx, id);
    }

    proof fn law_resolve(self, ctx: Model<Serde<S>>, id: u32) {
        lemma_flat_resolves(self, ctx, id);
    }

    proof fn law_cancel(self, ctx: Model<Serde<S>>, id: u32) {
    }

    proof fn law_idle(id: u32, ctx: Model<Serde<S>>, other: Model<Serde<S>>) {
    }

    proof fn law_coalesce(self, id: u32, next: nat, format: Serde<S>, ctx: Model<Serde<S>>) {
        lemma_flat_coalesce(self, id, next, format, ctx);
    }
}

impl<S: Exact<Representation = Vec<u8>>> Faithful<Serde<S>> for u128 {
    open spec fn trace(self, id: u32, next: nat, format: Serde<S>) -> Option<Trace<Serde<S>>> {
        flat_trace(self, id, next, format)
    }

    proof fn law_trace(self, id: u32, next: nat, format: Serde<S>) {
    }

    proof fn law_unravel(self, ctx: Model<Serde<S>>, id: u32) {
        lemma_flat_unravel(self, ctx, id);
    }

    proof fn law_resolve(self, ctx: Model<Serde<S>>, id: u32) {
        lemma_flat_resolves(self, ctx, id);
    }

    proof fn law_cancel(self, ctx: Model<Serde<S>>, id: u32) {
    }

    proof fn law_idle(id: u32, ctx: Model<Serde<S>>, other: Model<Serde<S>>) {
    }

    proof fn law_coalesce(self, id: u32, next: nat, format: Serde<S>, ctx: Model<Serde<S>>) {
        lemma_flat_coalesce(self, id, next, format, ctx);
    }
}

impl<S: Exact<Representation = Vec<u8>>> Faithful<Serde<S>> for usize {
    open spec fn trace(self, id: u32, next: nat, format: Serde<S>) -> Option<Trace<Serde<S>>> {
        flat_trace(self, id, next, format)
    }

    proof fn law_trace(self, id: u32, next: nat, format: Serde<S>) {
    }

    proof fn law_unravel(self, ctx: Model<Serde<S>>, id: u32) {
        lemma_flat_unravel(self, ctx, id);
    }

    proof fn law_resolve(self, ctx: Model<Serde<S>>, id: u32) {
        lemma_flat_resolves(self, ctx, id);
    }

    proof fn law_cancel(self, ctx: Model<Serde<S>>, id: u32) {
    }

    proof fn law_idle(id: u32, ctx: Model<Serde<S>>, other: Model<Serde<S>>) {
    }

    proof fn law_coalesce(self, id: u32, next: nat, format: Serde<S>, ctx: Model<Serde<S>>) {
        lemma_flat_coalesce(self, id, next, format, ctx);
    }
}

impl<S: Exact<Representation = Vec<u8>>> Faithful<Serde<S>> for i8 {
    open spec fn trace(self, id: u32, next: nat, format: Serde<S>) -> Option<Trace<Serde<S>>> {
        flat_trace(self, id, next, format)
    }

    proof fn law_trace(self, id: u32, next: nat, format: Serde<S>) {
    }

    proof fn law_unravel(self, ctx: Model<Serde<S>>, id: u32) {
        lemma_flat_unravel(self, ctx, id);
    }

    proof fn law_resolve(self, ctx: Model<Serde<S>>, id: u32) {
        lemma_flat_resolves(self, ctx, id);
    }

    proof fn law_cancel(self, ctx: Model<Serde<S>>, id: u32) {
    }

    proof fn law_idle(id: u32, ctx: Model<Serde<S>>, other: Model<Serde<S>>) {
    }

    proof fn law_coalesce(self, id: u32, next: nat, format: Serde<S>, ctx: Model<Serde<S>>) {
        lemma_flat_coalesce(self, id, next, format, ctx);
    }
}

impl<S: Exact<Representation = Vec<u8>>> Faithful<Serde<S>> for i16 {
    open spec fn trace(self, id: u32, next: nat, format: Serde<S>) -> Option<Trace<Serde<S>>> {
        flat_trace(self, id, next, format)
    }

    proof fn law_trace(self, id: u32, next: nat, format: Serde<S>) {
    }

    proof fn law_unravel(self, ctx: Model<Serde<S>>, id: u32) {
        lemma_flat_unravel(self, ctx, id);
    }

    proof fn law_resolve(self, ctx: Model<Serde<S>>, id: u32) {
        lemma_flat_resolves(self, ctx, id);
    }

    proof fn law_cancel(self, ctx: Model<Serde<S>>, id: u32) {
    }

    proof fn law_idle(id: u32, ctx: Model<Serde<S>>, other: Model<Serde<S>>) {
    }

    proof fn law_coalesce(self, id: u32, next: nat, format: Serde<S>, ctx: Model<Serde<S>>) {
        lemma_flat_coalesce(self, id, next, format, ctx);
    }
}

impl<S: Exact<Representation = Vec<u8>>> Faithful<Serde<S>> for i32 {
    open spec fn trace(self, id: u32, next: nat, format: Serde<S>) -> Option<Trace<Serde<S>>> {
        flat_trace(self, id, next, format)
    }

    proof fn law_trace(self, id: u32, next: nat, format: Serde<S>) {
    }

    proof fn law_unravel(self, ctx: Model<Serde<S>>, id: u32) {
        lemma_flat_unravel(self, ctx, id);
    }

    proof fn law_resolve(self, ctx: Model<Serde<S>>, id: u32) {
        lemma_flat_resolves(self, ctx, id);
    }

    proof fn law_cancel(self, ctx: Model<Serde<S>>, id: u32) {
    }

    proof fn law_idle(id: u32, ctx: Model<Serde<S>>, other: Model<Serde<S>>) {
    }

    proof fn law_coalesce(self, id: u32, next: nat, format: Serde<S>, ctx: Model<Serde<S>>) {
        lemma_flat_coalesce(self, id, next, format, ctx);
    }
}

impl<S: Exact<Representation = Vec<u8>>> Faithful<Serde<S>> for i64 {
    open spec fn trace(self, id: u32, next: nat, format: Serde<S>) -> Option<Trace<Serde<S>>> {
        flat_trace(self, id, next, format)
    }

    proof fn law_trace(self, id: u32, next: nat, format: Serde<S>) {
    }

    proof fn law_unravel(self, ctx: Model<Serde<S>>, id: u32) {
        lemma_flat_unravel(self, ctx, id);
    }

    proof fn law_resolve(self, ctx: Model<Serde<S>>, id: u32) {
        lemma_flat_resolves(self, ctx, id);
    }

    proof fn law_cancel(self, ctx: Model<Serde<S>>, id: u32) {
    }

    proof fn law_idle(id: u32, ctx: Model<Serde<S>>, other: Model<Serde<S>>) {
    }

    proof fn law_coalesce(self, id: u32, next: nat, format: Serde<S>, ctx: Model<Serde<S>>) {
        lemma_flat_coalesce(self, id, next, format, ctx);
    }
}

impl<S: Exact<Representation = Vec<u8>>> Faithful<Serde<S>> for i128 {
    open spec fn trace(self, id: u32, next: nat, format: Serde<S>) -> Option<Trace<Serde<S>>> {
        flat_trace(self, id, next, format)
    }

    proof fn law_trace(self, id: u32, next: nat, format: Serde<S>) {
    }

    proof fn law_unravel(self, ctx: Model<Serde<S>>, id: u32) {
        lemma_flat_unravel(self, ctx, id);
    }

    proof fn law_resolve(self, ctx: Model<Serde<S>>, id: u32) {
        lemma_flat_resolves(self, ctx, id);
    }

    proof fn law_cancel(self, ctx: Model<Serde<S>>, id: u32) {
    }

    proof fn law_idle(id: u32, ctx: Model<Serde<S>>, other: Model<Serde<S>>) {
    }

    proof fn law_coalesce(self, id: u32, next: nat, format: Serde<S>, ctx: Model<Serde<S>>) {
        lemma_flat_coalesce(self, id, next, format, ctx);
    }
}

impl<S: Exact<Representation = Vec<u8>>> Faithful<Serde<S>> for isize {
    open spec fn trace(self, id: u32, next: nat, format: Serde<S>) -> Option<Trace<Serde<S>>> {
        flat_trace(self, id, next, format)
    }

    proof fn law_trace(self, id: u32, next: nat, format: Serde<S>) {
    }

    proof fn law_unravel(self, ctx: Model<Serde<S>>, id: u32) {
        lemma_flat_unravel(self, ctx, id);
    }

    proof fn law_resolve(self, ctx: Model<Serde<S>>, id: u32) {
        lemma_flat_resolves(self, ctx, id);
    }

    proof fn law_cancel(self, ctx: Model<Serde<S>>, id: u32) {
    }

    proof fn law_idle(id: u32, ctx: Model<Serde<S>>, other: Model<Serde<S>>) {
    }

    proof fn law_coalesce(self, id: u32, next: nat, format: Serde<S>, ctx: Model<Serde<S>>) {
        lemma_flat_coalesce(self, id, next, format, ctx);
    }
}

impl<
    F: Lossless<String> + Format<String, Representation = Vec<u8>> + Format<
        Bottom,
        Representation = Vec<u8>,
    >,
> Faithful<F> for String {
    open spec fn trace(self, id: u32, next: nat, format: F) -> Option<Trace<F>> {
        flat_trace(self, id, next, format)
    }

    proof fn law_trace(self, id: u32, next: nat, format: F) {
    }

    proof fn law_unravel(self, ctx: Model<F>, id: u32) {
        lemma_flat_unravel(self, ctx, id);
    }

    proof fn law_resolve(self, ctx: Model<F>, id: u32) {
        lemma_flat_resolves(self, ctx, id);
    }

    proof fn law_cancel(self, ctx: Model<F>, id: u32) {
    }

    proof fn law_idle(id: u32, ctx: Model<F>, other: Model<F>) {
    }

    proof fn law_coalesce(self, id: u32, next: nat, format: F, ctx: Model<F>) {
        lemma_flat_coalesce(self, id, next, format, ctx);
    }
}

impl<
    F: Lossless<Duration> + Format<Duration, Representation = Vec<u8>> + Format<
        Bottom,
        Representation = Vec<u8>,
    >,
> Faithful<F> for Duration {
    open spec fn trace(self, id: u32, next: nat, format: F) -> Option<Trace<F>> {
        flat_trace(self, id, next, format)
    }

    proof fn law_trace(self, id: u32, next: nat, format: F) {
    }

    proof fn law_unravel(self, ctx: Model<F>, id: u32) {
        lemma_flat_unravel(self, ctx, id);
    }

    proof fn law_resolve(self, ctx: Model<F>, id: u32) {
        lemma_flat_resolves(self, ctx, id);
    }

    proof fn law_cancel(self, ctx: Model<F>, id: u32) {
    }

    proof fn law_idle(id: u32, ctx: Model<F>, other: Model<F>) {
    }

    proof fn law_coalesce(self, id: u32, next: nat, format: F, ctx: Model<F>) {
        lemma_flat_coalesce(self, id, next, format, ctx);
    }
}

} // verus!
