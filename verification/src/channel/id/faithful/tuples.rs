//! Tuples are carried faithfully: a tuple is as faithful as the list of its
//! components.
use vstd::prelude::*;

use crate::channel::id::faithful::chain::{
    lemma_followed_cons, lemma_followed_nil, lemma_followed_start, lemma_then_bound, nothing, then,
};
use crate::channel::id::faithful::{Faithful, Trace};
use crate::channel::id::{ForkHandle, IdChannel, IdChannelFork, Model};
use crate::format::{Format, Lossless};
use crate::tuple::{Cons, Listed, Nil};
use crate::{Bottom, Poll, Protocol, Task};

verus! {

/// What sending a tuple of two leaves behind: for each component in
/// turn, the trace of the component on a sub-channel of its own and then
/// its handle on the sub-channel of the tuple.
pub open spec fn trace_2<
    F: Format<ForkHandle, Representation = Vec<u8>>,
    T1: Faithful<F>,
    T2: Faithful<F>,
>(value: (T1, T2), id: u32, next: nat, format: F) -> Option<Trace<F>> {
    then(
        then(
            nothing(next, format),
            value.0,
            id,
        ),
        value.1,
        id,
    )
}

/// The trace of a tuple of two is the trace of the list of its
/// components.
pub proof fn lemma_trace_2<F, T1, T2>(value: (T1, T2), id: u32, next: nat, format: F) where
    F: Lossless<ForkHandle> + Format<ForkHandle, Representation = Vec<u8>> + Format<
        Bottom,
        Representation = Vec<u8>,
    > + Format<<T1 as Protocol<IdChannel<F>, F>>::Unravel, Representation = Vec<u8>> + Format<
        <T1 as Protocol<IdChannel<F>, F>>::Coalesce,
        Representation = Vec<u8>,
    > + Format<<T2 as Protocol<IdChannel<F>, F>>::Unravel, Representation = Vec<u8>> + Format<
        <T2 as Protocol<IdChannel<F>, F>>::Coalesce,
        Representation = Vec<u8>,
    >,
    T1: Faithful<F> + Protocol<IdChannel<F>, F>,
    T2: Faithful<F> + Protocol<IdChannel<F>, F>,

    ensures
        trace_2(value, id, next, format) == value.list().trace(id, next, format),
{
    let s0 = nothing(next, format);
    let s1 = then(s0, value.0, id);
    let s2 = then(s1, value.1, id);
    lemma_followed_start(value.list(), id, next, format);
    lemma_followed_cons(s0, Cons(value.0, Cons(value.1, Nil)), id);
    lemma_followed_cons(s1, Cons(value.1, Nil), id);
    lemma_then_bound(s1, value.1, id);
    lemma_followed_nil(s2, id);
}

/// Unraveling a tuple of two resolves at the first poll and leaves
/// the live registry as it was; it leaves its trace if all of it could be sent.
/// Given up before, it leaves the live registry as it was.
pub proof fn lemma_unravel_2<F, T1, T2>(value: (T1, T2), ctx: Model<F>, id: u32) where
    F: Lossless<ForkHandle> + Format<ForkHandle, Representation = Vec<u8>> + Format<
        Bottom,
        Representation = Vec<u8>,
    > + Format<<T1 as Protocol<IdChannel<F>, F>>::Unravel, Representation = Vec<u8>> + Format<
        <T1 as Protocol<IdChannel<F>, F>>::Coalesce,
        Representation = Vec<u8>,
    > + Format<<T2 as Protocol<IdChannel<F>, F>>::Unravel, Representation = Vec<u8>> + Format<
        <T2 as Protocol<IdChannel<F>, F>>::Coalesce,
        Representation = Vec<u8>,
    >,
    T1: Faithful<F> + Protocol<IdChannel<F>, F>,
    T2: Faithful<F> + Protocol<IdChannel<F>, F>,

    requires
        ctx.wf(),
    ensures
        ({
            let start = <(T1, T2) as Protocol<IdChannel<F>, F>>::unraveling(
                value,
                IdChannelFork::of(id),
                ctx,
            );
            let step = start.0.polled(start.1);
            &&& start.0.cancelled(start.1).sinks == ctx.sinks
            &&& start.0.cancelled(start.1).wf()
            &&& step.2 is Ready
            &&& step.1.sinks == ctx.sinks
            &&& step.1.wf()
            &&& ctx.sinks.contains_key(id) && trace_2(value, id, ctx.next, ctx.format) is Some
                ==> {
                &&& start.0.unresolved()
                &&& step.2 == Poll::Ready(
                    Ok::<(), <(T1, T2) as Protocol<IdChannel<F>, F>>::UnravelError>(()),
                )
                &&& step.1 == ctx.sent(trace_2(value, id, ctx.next, ctx.format)->0)
                &&& step.1.wf()
            }
        }),
{
    lemma_trace_2(value, id, ctx.next, ctx.format);
    value.list().law_cancel(ctx, id);
    value.list().law_resolve(ctx, id);
    if ctx.sinks.contains_key(id) && trace_2(value, id, ctx.next, ctx.format) is Some {
        value.list().law_unravel(ctx, id);
    }
}

/// Coalescing a tuple of two from an endpoint that holds what unraveling
/// it left resolves at the first poll to the tuple; starting to coalesce
/// touches nothing.
pub proof fn lemma_coalesce_2<F, T1, T2>(
    value: (T1, T2),
    id: u32,
    next: nat,
    format: F,
    ctx: Model<F>,
    other: Model<F>,
) where
    F: Lossless<ForkHandle> + Format<ForkHandle, Representation = Vec<u8>> + Format<
        Bottom,
        Representation = Vec<u8>,
    > + Format<<T1 as Protocol<IdChannel<F>, F>>::Unravel, Representation = Vec<u8>> + Format<
        <T1 as Protocol<IdChannel<F>, F>>::Coalesce,
        Representation = Vec<u8>,
    > + Format<<T2 as Protocol<IdChannel<F>, F>>::Unravel, Representation = Vec<u8>> + Format<
        <T2 as Protocol<IdChannel<F>, F>>::Coalesce,
        Representation = Vec<u8>,
    >,
    T1: Faithful<F> + Protocol<IdChannel<F>, F>,
    T2: Faithful<F> + Protocol<IdChannel<F>, F>,

    ensures
        <(T1, T2) as Protocol<IdChannel<F>, F>>::coalescing(IdChannelFork::of(id), ctx).1 == ctx,
        <(T1, T2) as Protocol<IdChannel<F>, F>>::coalescing(IdChannelFork::of(id), ctx).0
            == <(T1, T2) as Protocol<IdChannel<F>, F>>::coalescing(IdChannelFork::of(id), other).0,
        trace_2(value, id, next, format) is Some && ctx.holds(
            trace_2(value, id, next, format)->0.items,
            id,
            next,
            trace_2(value, id, next, format)->0.next,
        ) ==> ({
            let start = <(T1, T2) as Protocol<IdChannel<F>, F>>::coalescing(
                IdChannelFork::of(id),
                ctx,
            );
            let step = start.0.polled(start.1);
            &&& start.0.unresolved()
            &&& step.2 == Poll::Ready(
                Ok::<(T1, T2), <(T1, T2) as Protocol<IdChannel<F>, F>>::CoalesceError>(value),
            )
            &&& step.1.with_format(ctx.format) == ctx.rebuilt(
                id,
                next,
                trace_2(value, id, next, format)->0.next,
            )
            &&& step.1.wf()
        }),
{
    lemma_trace_2(value, id, next, format);
    <Cons<T1, Cons<T2, Nil>> as Faithful<F>>::law_idle(id, ctx, other);
    if trace_2(value, id, next, format) is Some && ctx.holds(
        trace_2(value, id, next, format)->0.items,
        id,
        next,
        trace_2(value, id, next, format)->0.next,
    ) {
        value.list().law_coalesce(id, next, format, ctx);
        value.lemma_list();
    }
}

impl<F, T1, T2> Faithful<F> for (T1, T2) where
    F: Lossless<ForkHandle> + Format<ForkHandle, Representation = Vec<u8>> + Format<
        Bottom,
        Representation = Vec<u8>,
    > + Format<<T1 as Protocol<IdChannel<F>, F>>::Unravel, Representation = Vec<u8>> + Format<
        <T1 as Protocol<IdChannel<F>, F>>::Coalesce,
        Representation = Vec<u8>,
    > + Format<<T2 as Protocol<IdChannel<F>, F>>::Unravel, Representation = Vec<u8>> + Format<
        <T2 as Protocol<IdChannel<F>, F>>::Coalesce,
        Representation = Vec<u8>,
    >,
    T1: Faithful<F> + Protocol<IdChannel<F>, F>,
    T2: Faithful<F> + Protocol<IdChannel<F>, F>,
 {
    open spec fn trace(self, id: u32, next: nat, format: F) -> Option<Trace<F>> {
        trace_2(self, id, next, format)
    }

    proof fn law_trace(self, id: u32, next: nat, format: F) {
        lemma_trace_2(self, id, next, format);
        self.list().law_trace(id, next, format);
    }

    proof fn law_unravel(self, ctx: Model<F>, id: u32) {
        lemma_unravel_2(self, ctx, id);
    }

    proof fn law_resolve(self, ctx: Model<F>, id: u32) {
        lemma_unravel_2(self, ctx, id);
    }

    proof fn law_cancel(self, ctx: Model<F>, id: u32) {
        lemma_unravel_2(self, ctx, id);
    }

    proof fn law_idle(id: u32, ctx: Model<F>, other: Model<F>) {
        lemma_coalesce_2::<F, T1, T2>(arbitrary(), id, 0, arbitrary(), ctx, other);
    }

    proof fn law_coalesce(self, id: u32, next: nat, format: F, ctx: Model<F>) {
        lemma_coalesce_2(self, id, next, format, ctx, ctx);
    }
}

/// What sending a tuple of three leaves behind: for each component in
/// turn, the trace of the component on a sub-channel of its own and then
/// its handle on the sub-channel of the tuple.
pub open spec fn trace_3<
    F: Format<ForkHandle, Representation = Vec<u8>>,
    T1: Faithful<F>,
    T2: Faithful<F>,
    T3: Faithful<F>,
>(value: (T1, T2, T3), id: u32, next: nat, format: F) -> Option<Trace<F>> {
    then(
        then(
            then(
                nothing(next, format),
                value.0,
                id,
            ),
            value.1,
            id,
        ),
        value.2,
        id,
    )
}

/// The trace of a tuple of three is the trace of the list of its
/// components.
pub proof fn lemma_trace_3<F, T1, T2, T3>(value: (T1, T2, T3), id: u32, next: nat, format: F) where
    F: Lossless<ForkHandle> + Format<ForkHandle, Representation = Vec<u8>> + Format<
        Bottom,
        Representation = Vec<u8>,
    > + Format<<T1 as Protocol<IdChannel<F>, F>>::Unravel, Representation = Vec<u8>> + Format<
        <T1 as Protocol<IdChannel<F>, F>>::Coalesce,
        Representation = Vec<u8>,
    > + Format<<T2 as Protocol<IdChannel<F>, F>>::Unravel, Representation = Vec<u8>> + Format<
        <T2 as Protocol<IdChannel<F>, F>>::Coalesce,
        Representation = Vec<u8>,
    > + Format<<T3 as Protocol<IdChannel<F>, F>>::Unravel, Representation = Vec<u8>> + Format<
        <T3 as Protocol<IdChannel<F>, F>>::Coalesce,
        Representation = Vec<u8>,
    >,
    T1: Faithful<F> + Protocol<IdChannel<F>, F>,
    T2: Faithful<F> + Protocol<IdChannel<F>, F>,
    T3: Faithful<F> + Protocol<IdChannel<F>, F>,

    ensures
        trace_3(value, id, next, format) == value.list().trace(id, next, format),
{
    let s0 = nothing(next, format);
    let s1 = then(s0, value.0, id);
    let s2 = then(s1, value.1, id);
    let s3 = then(s2, value.2, id);
    lemma_followed_start(value.list(), id, next, format);
    lemma_followed_cons(s0, Cons(value.0, Cons(value.1, Cons(value.2, Nil))), id);
    lemma_followed_cons(s1, Cons(value.1, Cons(value.2, Nil)), id);
    lemma_followed_cons(s2, Cons(value.2, Nil), id);
    lemma_then_bound(s2, value.2, id);
    lemma_followed_nil(s3, id);
}

/// Unraveling a tuple of three resolves at the first poll and leaves
/// the live registry as it was; it leaves its trace if all of it could be sent.
/// Given up before, it leaves the live registry as it was.
pub proof fn lemma_unravel_3<F, T1, T2, T3>(value: (T1, T2, T3), ctx: Model<F>, id: u32) where
    F: Lossless<ForkHandle> + Format<ForkHandle, Representation = Vec<u8>> + Format<
        Bottom,
        Representation = Vec<u8>,
    > + Format<<T1 as Protocol<IdChannel<F>, F>>::Unravel, Representation = Vec<u8>> + Format<
        <T1 as Protocol<IdChannel<F>, F>>::Coalesce,
        Representation = Vec<u8>,
    > + Format<<T2 as Protocol<IdChannel<F>, F>>::Unravel, Representation = Vec<u8>> + Format<
        <T2 as Protocol<IdChannel<F>, F>>::Coalesce,
        Representation = Vec<u8>,
    > + Format<<T3 as Protocol<IdChannel<F>, F>>::Unravel, Representation = Vec<u8>> + Format<
        <T3 as Protocol<IdChannel<F>, F>>::Coalesce,
        Representation = Vec<u8>,
    >,
    T1: Faithful<F> + Protocol<IdChannel<F>, F>,
    T2: Faithful<F> + Protocol<IdChannel<F>, F>,
    T3: Faithful<F> + Protocol<IdChannel<F>, F>,

    requires
        ctx.wf(),
    ensures
        ({
            let start = <(T1, T2, T3) as Protocol<IdChannel<F>, F>>::unraveling(
                value,
                IdChannelFork::of(id),
                ctx,
            );
            let step = start.0.polled(start.1);
            &&& start.0.cancelled(start.1).sinks == ctx.sinks
            &&& start.0.cancelled(start.1).wf()
            &&& step.2 is Ready
            &&& step.1.sinks == ctx.sinks
            &&& step.1.wf()
            &&& ctx.sinks.contains_key(id) && trace_3(value, id, ctx.next, ctx.format) is Some
                ==> {
                &&& start.0.unresolved()
                &&& step.2 == Poll::Ready(
                    Ok::<(), <(T1, T2, T3) as Protocol<IdChannel<F>, F>>::UnravelError>(()),
                )
                &&& step.1 == ctx.sent(trace_3(value, id, ctx.next, ctx.format)->0)
                &&& step.1.wf()
            }
        }),
{
    lemma_trace_3(value, id, ctx.next, ctx.format);
    value.list().law_cancel(ctx, id);
    value.list().law_resolve(ctx, id);
    if ctx.sinks.contains_key(id) && trace_3(value, id, ctx.next, ctx.format) is Some {
        value.list().law_unravel(ctx, id);
    }
}

/// Coalescing a tuple of three from an endpoint that holds what unraveling
/// it left resolves at the first poll to the tuple; starting to coalesce
/// touches nothing.
pub proof fn lemma_coalesce_3<F, T1, T2, T3>(
    value: (T1, T2, T3),
    id: u32,
    next: nat,
    format: F,
    ctx: Model<F>,
    other: Model<F>,
) where
    F: Lossless<ForkHandle> + Format<ForkHandle, Representation = Vec<u8>> + Format<
        Bottom,
        Representation = Vec<u8>,
    > + Format<<T1 as Protocol<IdChannel<F>, F>>::Unravel, Representation = Vec<u8>> + Format<
        <T1 as Protocol<IdChannel<F>, F>>::Coalesce,
        Representation = Vec<u8>,
    > + Format<<T2 as Protocol<IdChannel<F>, F>>::Unravel, Representation = Vec<u8>> + Format<
        <T2 as Protocol<IdChannel<F>, F>>::Coalesce,
        Representation = Vec<u8>,
    > + Format<<T3 as Protocol<IdChannel<F>, F>>::Unravel, Representation = Vec<u8>> + Format<
        <T3 as Protocol<IdChannel<F>, F>>::Coalesce,
        Representation = Vec<u8>,
    >,
    T1: Faithful<F> + Protocol<IdChannel<F>, F>,
    T2: Faithful<F> + Protocol<IdChannel<F>, F>,
    T3: Faithful<F> + Protocol<IdChannel<F>, F>,

    ensures
        <(T1, T2, T3) as Protocol<IdChannel<F>, F>>::coalescing(IdChannelFork::of(id), ctx).1 == ctx,
        <(T1, T2, T3) as Protocol<IdChannel<F>, F>>::coalescing(IdChannelFork::of(id), ctx).0
            == <(T1, T2, T3) as Protocol<IdChannel<F>, F>>::coalescing(IdChannelFork::of(id), other).0,
        trace_3(value, id, next, format) is Some && ctx.holds(
            trace_3(value, id, next, format)->0.items,
            id,
            next,
            trace_3(value, id, next, format)->0.next,
        ) ==> ({
            let start = <(T1, T2, T3) as Protocol<IdChannel<F>, F>>::coalescing(
                IdChannelFork::of(id),
                ctx,
            );
            let step = start.0.polled(start.1);
            &&& start.0.unresolved()
            &&& step.2 == Poll::Ready(
                Ok::<(T1, T2, T3), <(T1, T2, T3) as Protocol<IdChannel<F>, F>>::CoalesceError>(value),
            )
            &&& step.1.with_format(ctx.format) == ctx.rebuilt(
                id,
                next,
                trace_3(value, id, next, format)->0.next,
            )
            &&& step.1.wf()
        }),
{
    lemma_trace_3(value, id, next, format);
    <Cons<T1, Cons<T2, Cons<T3, Nil>>> as Faithful<F>>::law_idle(id, ctx, other);
    if trace_3(value, id, next, format) is Some && ctx.holds(
        trace_3(value, id, next, format)->0.items,
        id,
        next,
        trace_3(value, id, next, format)->0.next,
    ) {
        value.list().law_coalesce(id, next, format, ctx);
        value.lemma_list();
    }
}

impl<F, T1, T2, T3> Faithful<F> for (T1, T2, T3) where
    F: Lossless<ForkHandle> + Format<ForkHandle, Representation = Vec<u8>> + Format<
        Bottom,
        Representation = Vec<u8>,
    > + Format<<T1 as Protocol<IdChannel<F>, F>>::Unravel, Representation = Vec<u8>> + Format<
        <T1 as Protocol<IdChannel<F>, F>>::Coalesce,
        Representation = Vec<u8>,
    > + Format<<T2 as Protocol<IdChannel<F>, F>>::Unravel, Representation = Vec<u8>> + Format<
        <T2 as Protocol<IdChannel<F>, F>>::Coalesce,
        Representation = Vec<u8>,
    > + Format<<T3 as Protocol<IdChannel<F>, F>>::Unravel, Representation = Vec<u8>> + Format<
        <T3 as Protocol<IdChannel<F>, F>>::Coalesce,
        Representation = Vec<u8>,
    >,
    T1: Faithful<F> + Protocol<IdChannel<F>, F>,
    T2: Faithful<F> + Protocol<IdChannel<F>, F>,
    T3: Faithful<F> + Protocol<IdChannel<F>, F>,
 {
    open spec fn trace(self, id: u32, next: nat, format: F) -> Option<Trace<F>> {
        trace_3(self, id, next, format)
    }

    proof fn law_trace(self, id: u32, next: nat, format: F) {
        lemma_trace_3(self, id, next, format);
        self.list().law_trace(id, next, format);
    }

    proof fn law_unravel(self, ctx: Model<F>, id: u32) {
        lemma_unravel_3(self, ctx, id);
    }

    proof fn law_resolve(self, ctx: Model<F>, id: u32) {
        lemma_unravel_3(self, ctx, id);
    }

    proof fn law_cancel(self, ctx: Model<F>, id: u32) {
        lemma_unravel_3(self, ctx, id);
    }

    proof fn law_idle(id: u32, ctx: Model<F>, other: Model<F>) {
        lemma_coalesce_3::<F, T1, T2, T3>(arbitrary(), id, 0, arbitrary(), ctx, other);
    }

    proof fn law_coalesce(self, id: u32, next: nat, format: F, ctx: Model<F>) {
        lemma_coalesce_3(self, id, next, format, ctx, ctx);
    }
}

/// What sending a tuple of four leaves behind: for each component in
/// turn, the trace of the component on a sub-channel of its own and then
/// its handle on the sub-channel of the tuple.
pub open spec fn trace_4<
    F: Format<ForkHandle, Representation = Vec<u8>>,
    T1: Faithful<F>,
    T2: Faithful<F>,
    T3: Faithful<F>,
    T4: Faithful<F>,
>(value: (T1, T2, T3, T4), id: u32, next: nat, format: F) -> Option<Trace<F>> {
    then(
        then(
            then(
                then(
                    nothing(next, format),
                    value.0,
                    id,
                ),
                value.1,
                id,
            ),
            value.2,
            id,
        ),
        value.3,
        id,
    )
}

/// The trace of a tuple of four is the trace of the list of its
/// components.
pub proof fn lemma_trace_4<F, T1, T2, T3, T4>(value: (T1, T2, T3, T4), id: u32, next: nat, format: F) where
    F: Lossless<ForkHandle> + Format<ForkHandle, Representation = Vec<u8>> + Format<
        Bottom,
        Representation = Vec<u8>,
    > + Format<<T1 as Protocol<IdChannel<F>, F>>::Unravel, Representation = Vec<u8>> + Format<
        <T1 as Protocol<IdChannel<F>, F>>::Coalesce,
        Representation = Vec<u8>,
    > + Format<<T2 as Protocol<IdChannel<F>, F>>::Unravel, Representation = Vec<u8>> + Format<
        <T2 as Protocol<IdChannel<F>, F>>::Coalesce,
        Representation = Vec<u8>,
    > + Format<<T3 as Protocol<IdChannel<F>, F>>::Unravel, Representation = Vec<u8>> + Format<
        <T3 as Protocol<IdChannel<F>, F>>::Coalesce,
        Representation = Vec<u8>,
    > + Format<<T4 as Protocol<IdChannel<F>, F>>::Unravel, Representation = Vec<u8>> + Format<
        <T4 as Protocol<IdChannel<F>, F>>::Coalesce,
        Representation = Vec<u8>,
    >,
    T1: Faithful<F> + Protocol<IdChannel<F>, F>,
    T2: Faithful<F> + Protocol<IdChannel<F>, F>,
    T3: Faithful<F> + Protocol<IdChannel<F>, F>,
    T4: Faithful<F> + Protocol<IdChannel<F>, F>,

    ensures
        trace_4(value, id, next, format) == value.list().trace(id, next, format),
{
    let s0 = nothing(next, format);
    let s1 = then(s0, value.0, id);
    let s2 = then(s1, value.1, id);
    let s3 = then(s2, value.2, id);
    let s4 = then(s3, value.3, id);
    lemma_followed_start(value.list(), id, next, format);
    lemma_followed_cons(s0, Cons(value.0, Cons(value.1, Cons(value.2, Cons(value.3, Nil)))), id);
    lemma_followed_cons(s1, Cons(value.1, Cons(value.2, Cons(value.3, Nil))), id);
    lemma_followed_cons(s2, Cons(value.2, Cons(value.3, Nil)), id);
    lemma_followed_cons(s3, Cons(value.3, Nil), id);
    lemma_then_bound(s3, value.3, id);
    lemma_followed_nil(s4, id);
}

/// Unraveling a tuple of four resolves at the first poll and leaves
/// the live registry as it was; it leaves its trace if all of it could be sent.
/// Given up before, it leaves the live registry as it was.
pub proof fn lemma_unravel_4<F, T1, T2, T3, T4>(value: (T1, T2, T3, T4), ctx: Model<F>, id: u32) where
    F: Lossless<ForkHandle> + Format<ForkHandle, Representation = Vec<u8>> + Format<
        Bottom,
        Representation = Vec<u8>,
    > + Format<<T1 as Protocol<IdChannel<F>, F>>::Unravel, Representation = Vec<u8>> + Format<
        <T1 as Protocol<IdChannel<F>, F>>::Coalesce,
        Representation = Vec<u8>,
    > + Format<<T2 as Protocol<IdChannel<F>, F>>::Unravel, Representation = Vec<u8>> + Format<
        <T2 as Protocol<IdChannel<F>, F>>::Coalesce,
        Representation = Vec<u8>,
    > + Format<<T3 as Protocol<IdChannel<F>, F>>::Unravel, Representation = Vec<u8>> + Format<
        <T3 as Protocol<IdChannel<F>, F>>::Coalesce,
        Representation = Vec<u8>,
    > + Format<<T4 as Protocol<IdChannel<F>, F>>::Unravel, Representation = Vec<u8>> + Format<
        <T4 as Protocol<IdChannel<F>, F>>::Coalesce,
        Representation = Vec<u8>,
    >,
    T1: Faithful<F> + Protocol<IdChannel<F>, F>,
    T2: Faithful<F> + Protocol<IdChannel<F>, F>,
    T3: Faithful<F> + Protocol<IdChannel<F>, F>,
    T4: Faithful<F> + Protocol<IdChannel<F>, F>,

    requires
        ctx.wf(),
    ensures
        ({
            let start = <(T1, T2, T3, T4) as Protocol<IdChannel<F>, F>>::unraveling(
                value,
                IdChannelFork::of(id),
                ctx,
            );
            let step = start.0.polled(start.1);
            &&& start.0.cancelled(start.1).sinks == ctx.sinks
            &&& start.0.cancelled(start.1).wf()
            &&& step.2 is Ready
            &&& step.1.sinks == ctx.sinks
            &&& step.1.wf()
            &&& ctx.sinks.contains_key(id) && trace_4(value, id, ctx.next, ctx.format) is Some
                ==> {
                &&& start.0.unresolved()
                &&& step.2 == Poll::Ready(
                    Ok::<(), <(T1, T2, T3, T4) as Protocol<IdChannel<F>, F>>::UnravelError>(()),
                )
                &&& step.1 == ctx.sent(trace_4(value, id, ctx.next, ctx.format)->0)
                &&& step.1.wf()
            }
        }),
{
    lemma_trace_4(value, id, ctx.next, ctx.format);
    value.list().law_cancel(ctx, id);
    value.list().law_resolve(ctx, id);
    if ctx.sinks.contains_key(id) && trace_4(value, id, ctx.next, ctx.format) is Some {
        value.list().law_unravel(ctx, id);
    }
}

/// Coalescing a tuple of four from an endpoint that holds what unraveling
/// it left resolves at the first poll to the tuple; starting to coalesce
/// touches nothing.
pub proof fn lemma_coalesce_4<F, T1, T2, T3, T4>(
    value: (T1, T2, T3, T4),
    id: u32,
    next: nat,
    format: F,
    ctx: Model<F>,
    other: Model<F>,
) where
    F: Lossless<ForkHandle> + Format<ForkHandle, Representation = Vec<u8>> + Format<
        Bottom,
        Representation = Vec<u8>,
    > + Format<<T1 as Protocol<IdChannel<F>, F>>::Unravel, Representation = Vec<u8>> + Format<
        <T1 as Protocol<IdChannel<F>, F>>::Coalesce,
        Representation = Vec<u8>,
    > + Format<<T2 as Protocol<IdChannel<F>, F>>::Unravel, Representation = Vec<u8>> + Format<
        <T2 as Protocol<IdChannel<F>, F>>::Coalesce,
        Representation = Vec<u8>,
    > + Format<<T3 as Protocol<IdChannel<F>, F>>::Unravel, Representation = Vec<u8>> + Format<
        <T3 as Protocol<IdChannel<F>, F>>::Coalesce,
        Representation = Vec<u8>,
    > + Format<<T4 as Protocol<IdChannel<F>, F>>::Unravel, Representation = Vec<u8>> + Format<
        <T4 as Protocol<IdChannel<F>, F>>::Coalesce,
        Representation = Vec<u8>,
    >,
    T1: Faithful<F> + Protocol<IdChannel<F>, F>,
    T2: Faithful<F> + Protocol<IdChannel<F>, F>,
    T3: Faithful<F> + Protocol<IdChannel<F>, F>,
    T4: Faithful<F> + Protocol<IdChannel<F>, F>,

    ensures
        <(T1, T2, T3, T4) as Protocol<IdChannel<F>, F>>::coalescing(IdChannelFork::of(id), ctx).1 == ctx,
        <(T1, T2, T3, T4) as Protocol<IdChannel<F>, F>>::coalescing(IdChannelFork::of(id), ctx).0
            == <(T1, T2, T3, T4) as Protocol<IdChannel<F>, F>>::coalescing(IdChannelFork::of(id), other).0,
        trace_4(value, id, next, format) is Some && ctx.holds(
            trace_4(value, id, next, format)->0.items,
            id,
            next,
            trace_4(value, id, next, format)->0.next,
        ) ==> ({
            let start = <(T1, T2, T3, T4) as Protocol<IdChannel<F>, F>>::coalescing(
                IdChannelFork::of(id),
                ctx,
            );
            let step = start.0.polled(start.1);
            &&& start.0.unresolved()
            &&& step.2 == Poll::Ready(
                Ok::<(T1, T2, T3, T4), <(T1, T2, T3, T4) as Protocol<IdChannel<F>, F>>::CoalesceError>(value),
            )
            &&& step.1.with_format(ctx.format) == ctx.rebuilt(
                id,
                next,
                trace_4(value, id, next, format)->0.next,
            )
            &&& step.1.wf()
        }),
{
    lemma_trace_4(value, id, next, format);
    <Cons<T1, Cons<T2, Cons<T3, Cons<T4, Nil>>>> as Faithful<F>>::law_idle(id, ctx, other);
    if trace_4(value, id, next, format) is Some && ctx.holds(
        trace_4(value, id, next, format)->0.items,
        id,
        next,
        trace_4(value, id, next, format)->0.next,
    ) {
        value.list().law_coalesce(id, next, format, ctx);
        value.lemma_list();
    }
}

impl<F, T1, T2, T3, T4> Faithful<F> for (T1, T2, T3, T4) where
    F: Lossless<ForkHandle> + Format<ForkHandle, Representation = Vec<u8>> + Format<
        Bottom,
        Representation = Vec<u8>,
    > + Format<<T1 as Protocol<IdChannel<F>, F>>::Unravel, Representation = Vec<u8>> + Format<
        <T1 as Protocol<IdChannel<F>, F>>::Coalesce,
        Representation = Vec<u8>,
    > + Format<<T2 as Protocol<IdChannel<F>, F>>::Unravel, Representation = Vec<u8>> + Format<
        <T2 as Protocol<IdChannel<F>, F>>::Coalesce,
        Representation = Vec<u8>,
    > + Format<<T3 as Protocol<IdChannel<F>, F>>::Unravel, Representation = Vec<u8>> + Format<
        <T3 as Protocol<IdChannel<F>, F>>::Coalesce,
        Representation = Vec<u8>,
    > + Format<<T4 as Protocol<IdChannel<F>, F>>::Unravel, Representation = Vec<u8>> + Format<
        <T4 as Protocol<IdChannel<F>, F>>::Coalesce,
        Representation = Vec<u8>,
    >,
    T1: Faithful<F> + Protocol<IdChannel<F>, F>,
    T2: Faithful<F> + Protocol<IdChannel<F>, F>,
    T3: Faithful<F> + Protocol<IdChannel<F>, F>,
    T4: Faithful<F> + Protocol<IdChannel<F>, F>,
 {
    open spec fn trace(self, id: u32, next: nat, format: F) -> Option<Trace<F>> {
        trace_4(self, id, next, format)
    }

    proof fn law_trace(self, id: u32, next: nat, format: F) {
        lemma_trace_4(self, id, next, format);
        self.list().law_trace(id, next, format);
    }

    proof fn law_unravel(self, ctx: Model<F>, id: u32) {
        lemma_unravel_4(self, ctx, id);
    }

    proof fn law_resolve(self, ctx: Model<F>, id: u32) {
        lemma_unravel_4(self, ctx, id);
    }

    proof fn law_cancel(self, ctx: Model<F>, id: u32) {
        lemma_unravel_4(self, ctx, id);
    }

    proof fn law_idle(id: u32, ctx: Model<F>, other: Model<F>) {
        lemma_coalesce_4::<F, T1, T2, T3, T4>(arbitrary(), id, 0, arbitrary(), ctx, other);
    }

    proof fn law_coalesce(self, id: u32, next: nat, format: F, ctx: Model<F>) {
        lemma_coalesce_4(self, id, next, format, ctx, ctx);
    }
}

/// What sending a tuple of five leaves behind: for each component in
/// turn, the trace of the component on a sub-channel of its own and then
/// its handle on the sub-channel of the tuple.
pub open spec fn trace_5<
    F: Format<ForkHandle, Representation = Vec<u8>>,
    T1: Faithful<F>,
    T2: Faithful<F>,
    T3: Faithful<F>,
    T4: Faithful<F>,
    T5: Faithful<F>,
>(value: (T1, T2, T3, T4, T5), id: u32, next: nat, format: F) -> Option<Trace<F>> {
    then(
        then(
            then(
                then(
                    then(
                        nothing(next, format),
                        value.0,
                        id,
                    ),
                    value.1,
                    id,
                ),
                value.2,
                id,
            ),
            value.3,
            id,
        ),
        value.4,
        id,
    )
}

/// The trace of a tuple of five is the trace of the list of its
/// components.
pub proof fn lemma_trace_5<F, T1, T2, T3, T4, T5>(value: (T1, T2, T3, T4, T5), id: u32, next: nat, format: F) where
    F: Lossless<ForkHandle> + Format<ForkHandle, Representation = Vec<u8>> + Format<
        Bottom,
        Representation = Vec<u8>,
    > + Format<<T1 as Protocol<IdChannel<F>, F>>::Unravel, Representation = Vec<u8>> + Format<
        <T1 as Protocol<IdChannel<F>, F>>::Coalesce,
        Representation = Vec<u8>,
    > + Format<<T2 as Protocol<IdChannel<F>, F>>::Unravel, Representation = Vec<u8>> + Format<
        <T2 as Protocol<IdChannel<F>, F>>::Coalesce,
        Representation = Vec<u8>,
    > + Format<<T3 as Protocol<IdChannel<F>, F>>::Unravel, Representation = Vec<u8>> + Format<
        <T3 as Protocol<IdChannel<F>, F>>::Coalesce,
        Representation = Vec<u8>,
    > + Format<<T4 as Protocol<IdChannel<F>, F>>::Unravel, Representation = Vec<u8>> + Format<
        <T4 as Protocol<IdChannel<F>, F>>::Coalesce,
        Representation = Vec<u8>,
    > + Format<<T5 as Protocol<IdChannel<F>, F>>::Unravel, Representation = Vec<u8>> + Format<
        <T5 as Protocol<IdChannel<F>, F>>::Coalesce,
        Representation = Vec<u8>,
    >,
    T1: Faithful<F> + Protocol<IdChannel<F>, F>,
    T2: Faithful<F> + Protocol<IdChannel<F>, F>,
    T3: Faithful<F> + Protocol<IdChannel<F>, F>,
    T4: Faithful<F> + Protocol<IdChannel<F>, F>,
    T5: Faithful<F> + Protocol<IdChannel<F>, F>,

    ensures
        trace_5(value, id, next, format) == value.list().trace(id, next, format),
{
    let s0 = nothing(next, format);
    let s1 = then(s0, value.0, id);
    let s2 = then(s1, value.1, id);
    let s3 = then(s2, value.2, id);
    let s4 = then(s3, value.3, id);
    let s5 = then(s4, value.4, id);
    lemma_followed_start(value.list(), id, next, format);
    lemma_followed_cons(s0, Cons(value.0, Cons(value.1, Cons(value.2, Cons(value.3, Cons(value.4, Nil))))), id);
    lemma_followed_cons(s1, Cons(value.1, Cons(value.2, Cons(value.3, Cons(value.4, Nil)))), id);
    lemma_followed_cons(s2, Cons(value.2, Cons(value.3, Cons(value.4, Nil))), id);
    lemma_followed_cons(s3, Cons(value.3, Cons(value.4, Nil)), id);
    lemma_followed_cons(s4, Cons(value.4, Nil), id);
    lemma_then_bound(s4, value.4, id);
    lemma_followed_nil(s5, id);
}

/// Unraveling a tuple of five resolves at the first poll and leaves
/// the live registry as it was; it leaves its trace if all of it could be sent.
/// Given up before, it leaves the live registry as it was.
pub proof fn lemma_unravel_5<F, T1, T2, T3, T4, T5>(value: (T1, T2, T3, T4, T5), ctx: Model<F>, id: u32) where
    F: Lossless<ForkHandle> + Format<ForkHandle, Representation = Vec<u8>> + Format<
        Bottom,
        Representation = Vec<u8>,
    > + Format<<T1 as Protocol<IdChannel<F>, F>>::Unravel, Representation = Vec<u8>> + Format<
        <T1 as Protocol<IdChannel<F>, F>>::Coalesce,
        Representation = Vec<u8>,
    > + Format<<T2 as Protocol<IdChannel<F>, F>>::Unravel, Representation = Vec<u8>> + Format<
        <T2 as Protocol<IdChannel<F>, F>>::Coalesce,
        Representation = Vec<u8>,
    > + Format<<T3 as Protocol<IdChannel<F>, F>>::Unravel, Representation = Vec<u8>> + Format<
        <T3 as Protocol<IdChannel<F>, F>>::Coalesce,
        Representation = Vec<u8>,
    > + Format<<T4 as Protocol<IdChannel<F>, F>>::Unravel, Representation = Vec<u8>> + Format<
        <T4 as Protocol<IdChannel<F>, F>>::Coalesce,
        Representation = Vec<u8>,
    > + Format<<T5 as Protocol<IdChannel<F>, F>>::Unravel, Representation = Vec<u8>> + Format<
        <T5 as Protocol<IdChannel<F>, F>>::Coalesce,
        Representation = Vec<u8>,
    >,
    T1: Faithful<F> + Protocol<IdChannel<F>, F>,
    T2: Faithful<F> + Protocol<IdChannel<F>, F>,
    T3: Faithful<F> + Protocol<IdChannel<F>, F>,
    T4: Faithful<F> + Protocol<IdChannel<F>, F>,
    T5: Faithful<F> + Protocol<IdChannel<F>, F>,

    requires
        ctx.wf(),
    ensures
        ({
            let start = <(T1, T2, T3, T4, T5) as Protocol<IdChannel<F>, F>>::unraveling(
                value,
                IdChannelFork::of(id),
                ctx,
            );
            let step = start.0.polled(start.1);
            &&& start.0.cancelled(start.1).sinks == ctx.sinks
            &&& start.0.cancelled(start.1).wf()
            &&& step.2 is Ready
            &&& step.1.sinks == ctx.sinks
            &&& step.1.wf()
            &&& ctx.sinks.contains_key(id) && trace_5(value, id, ctx.next, ctx.format) is Some
                ==> {
                &&& start.0.unresolved()
                &&& step.2 == Poll::Ready(
                    Ok::<(), <(T1, T2, T3, T4, T5) as Protocol<IdChannel<F>, F>>::UnravelError>(()),
                )
                &&& step.1 == ctx.sent(trace_5(value, id, ctx.next, ctx.format)->0)
                &&& step.1.wf()
            }
        }),
{
    lemma_trace_5(value, id, ctx.next, ctx.format);
    value.list().law_cancel(ctx, id);
    value.list().law_resolve(ctx, id);
    if ctx.sinks.contains_key(id) && trace_5(value, id, ctx.next, ctx.format) is Some {
        value.list().law_unravel(ctx, id);
    }
}

/// Coalescing a tuple of five from an endpoint that holds what unraveling
/// it left resolves at the first poll to the tuple; starting to coalesce
/// touches nothing.
pub proof fn lemma_coalesce_5<F, T1, T2, T3, T4, T5>(
    value: (T1, T2, T3, T4, T5),
    id: u32,
    next: nat,
    format: F,
    ctx: Model<F>,
    other: Model<F>,
) where
    F: Lossless<ForkHandle> + Format<ForkHandle, Representation = Vec<u8>> + Format<
        Bottom,
        Representation = Vec<u8>,
    > + Format<<T1 as Protocol<IdChannel<F>, F>>::Unravel, Representation = Vec<u8>> + Format<
        <T1 as Protocol<IdChannel<F>, F>>::Coalesce,
        Representation = Vec<u8>,
    > + Format<<T2 as Protocol<IdChannel<F>, F>>::Unravel, Representation = Vec<u8>> + Format<
        <T2 as Protocol<IdChannel<F>, F>>::Coalesce,
        Representation = Vec<u8>,
    > + Format<<T3 as Protocol<IdChannel<F>, F>>::Unravel, Representation = Vec<u8>> + Format<
        <T3 as Protocol<IdChannel<F>, F>>::Coalesce,
        Representation = Vec<u8>,
    > + Format<<T4 as Protocol<IdChannel<F>, F>>::Unravel, Representation = Vec<u8>> + Format<
        <T4 as Protocol<IdChannel<F>, F>>::Coalesce,
        Representation = Vec<u8>,
    > + Format<<T5 as Protocol<IdChannel<F>, F>>::Unravel, Representation = Vec<u8>> + Format<
        <T5 as Protocol<IdChannel<F>, F>>::Coalesce,
        Representation = Vec<u8>,
    >,
    T1: Faithful<F> + Protocol<IdChannel<F>, F>,
    T2: Faithful<F> + Protocol<IdChannel<F>, F>,
    T3: Faithful<F> + Protocol<IdChannel<F>, F>,
    T4: Faithful<F> + Protocol<IdChannel<F>, F>,
    T5: Faithful<F> + Protocol<IdChannel<F>, F>,

    ensures
        <(T1, T2, T3, T4, T5) as Protocol<IdChannel<F>, F>>::coalescing(IdChannelFork::of(id), ctx).1 == ctx,
        <(T1, T2, T3, T4, T5) as Protocol<IdChannel<F>, F>>::coalescing(IdChannelFork::of(id), ctx).0
            == <(T1, T2, T3, T4, T5) as Protocol<IdChannel<F>, F>>::coalescing(IdChannelFork::of(id), other).0,
        trace_5(value, id, next, format) is Some && ctx.holds(
            trace_5(value, id, next, format)->0.items,
            id,
            next,
            trace_5(value, id, next, format)->0.next,
        ) ==> ({
            let start = <(T1, T2, T3, T4, T5) as Protocol<IdChannel<F>, F>>::coalescing(
                IdChannelFork::of(id),
                ctx,
            );
            let step = start.0.polled(start.1);
            &&& start.0.unresolved()
            &&& step.2 == Poll::Ready(
                Ok::<(T1, T2, T3, T4, T5), <(T1, T2, T3, T4, T5) as Protocol<IdChannel<F>, F>>::CoalesceError>(value),
            )
            &&& step.1.with_format(ctx.format) == ctx.rebuilt(
                id,
                next,
                trace_5(value, id, next, format)->0.next,
            )
            &&& step.1.wf()
        }),
{
    lemma_trace_5(value, id, next, format);
    <Cons<T1, Cons<T2, Cons<T3, Cons<T4, Cons<T5, Nil>>>>> as Faithful<F>>::law_idle(id, ctx, other);
    if trace_5(value, id, next, format) is Some && ctx.holds(
        trace_5(value, id, next, format)->0.items,
        id,
        next,
        trace_5(value, id, next, format)->0.next,
    ) {
        value.list().law_coalesce(id, next, format, ctx);
        value.lemma_list();
    }
}

impl<F, T1, T2, T3, T4, T5> Faithful<F> for (T1, T2, T3, T4, T5) where
    F: Lossless<ForkHandle> + Format<ForkHandle, Representation = Vec<u8>> + Format<
        Bottom,
        Representation = Vec<u8>,
    > + Format<<T1 as Protocol<IdChannel<F>, F>>::Unravel, Representation = Vec<u8>> + Format<
        <T1 as Protocol<IdChannel<F>, F>>::Coalesce,
        Representation = Vec<u8>,
    > + Format<<T2 as Protocol<IdChannel<F>, F>>::Unravel, Representation = Vec<u8>> + Format<
        <T2 as Protocol<IdChannel<F>, F>>::Coalesce,
        Representation = Vec<u8>,
    > + Format<<T3 as Protocol<IdChannel<F>, F>>::Unravel, Representation = Vec<u8>> + Format<
        <T3 as Protocol<IdChannel<F>, F>>::Coalesce,
        Representation = Vec<u8>,
    > + Format<<T4 as Protocol<IdChannel<F>, F>>::Unravel, Representation = Vec<u8>> + Format<
        <T4 as Protocol<IdChannel<F>, F>>::Coalesce,
        Representation = Vec<u8>,
    > + Format<<T5 as Protocol<IdChannel<F>, F>>::Unravel, Representation = Vec<u8>> + Format<
        <T5 as Protocol<IdChannel<F>, F>>::Coalesce,
        Representation = Vec<u8>,
    >,
    T1: Faithful<F> + Protocol<IdChannel<F>, F>,
    T2: Faithful<F> + Protocol<IdChannel<F>, F>,
    T3: Faithful<F> + Protocol<IdChannel<F>, F>,
    T4: Faithful<F> + Protocol<IdChannel<F>, F>,
    T5: Faithful<F> + Protocol<IdChannel<F>, F>,
 {
    open spec fn trace(self, id: u32, next: nat, format: F) -> Option<Trace<F>> {
        trace_5(self, id, next, format)
    }

    proof fn law_trace(self, id: u32, next: nat, format: F) {
        lemma_trace_5(self, id, next, format);
        self.list().law_trace(id, next, format);
    }

    proof fn law_unravel(self, ctx: Model<F>, id: u32) {
        lemma_unravel_5(self, ctx, id);
    }

    proof fn law_resolve(self, ctx: Model<F>, id: u32) {
        lemma_unravel_5(self, ctx, id);
    }

    proof fn law_cancel(self, ctx: Model<F>, id: u32) {
        lemma_unravel_5(self, ctx, id);
    }

    proof fn law_idle(id: u32, ctx: Model<F>, other: Model<F>) {
        lemma_coalesce_5::<F, T1, T2, T3, T4, T5>(arbitrary(), id, 0, arbitrary(), ctx, other);
    }

    proof fn law_coalesce(self, id: u32, next: nat, format: F, ctx: Model<F>) {
        lemma_coalesce_5(self, id, next, format, ctx, ctx);
    }
}

/// What sending a tuple of six leaves behind: for each component in
/// turn, the trace of the component on a sub-channel of its own and then
/// its handle on the sub-channel of the tuple.
pub open spec fn trace_6<
    F: Format<ForkHandle, Representation = Vec<u8>>,
    T1: Faithful<F>,
    T2: Faithful<F>,
    T3: Faithful<F>,
    T4: Faithful<F>,
    T5: Faithful<F>,
    T6: Faithful<F>,
>(value: (T1, T2, T3, T4, T5, T6), id: u32, next: nat, format: F) -> Option<Trace<F>> {
    then(
        then(
            then(
                then(
                    then(
                        then(
                            nothing(next, format),
                            value.0,
                            id,
                        ),
                        value.1,
                        id,
                    ),
                    value.2,
                    id,
                ),
                value.3,
                id,
            ),
            value.4,
            id,
        ),
        value.5,
        id,
    )
}

/// The trace of a tuple of six is the trace of the list of its
/// components.
pub proof fn lemma_trace_6<F, T1, T2, T3, T4, T5, T6>(value: (T1, T2, T3, T4, T5, T6), id: u32, next: nat, format: F) where
    F: Lossless<ForkHandle> + Format<ForkHandle, Representation = Vec<u8>> + Format<
        Bottom,
        Representation = Vec<u8>,
    > + Format<<T1 as Protocol<IdChannel<F>, F>>::Unravel, Representation = Vec<u8>> + Format<
        <T1 as Protocol<IdChannel<F>, F>>::Coalesce,
        Representation = Vec<u8>,
    > + Format<<T2 as Protocol<IdChannel<F>, F>>::Unravel, Representation = Vec<u8>> + Format<
        <T2 as Protocol<IdChannel<F>, F>>::Coalesce,
        Representation = Vec<u8>,
    > + Format<<T3 as Protocol<IdChannel<F>, F>>::Unravel, Representation = Vec<u8>> + Format<
        <T3 as Protocol<IdChannel<F>, F>>::Coalesce,
        Representation = Vec<u8>,
    > + Format<<T4 as Protocol<IdChannel<F>, F>>::Unravel, Representation = Vec<u8>> + Format<
        <T4 as Protocol<IdChannel<F>, F>>::Coalesce,
        Representation = Vec<u8>,
    > + Format<<T5 as Protocol<IdChannel<F>, F>>::Unravel, Representation = Vec<u8>> + Format<
        <T5 as Protocol<IdChannel<F>, F>>::Coalesce,
        Representation = Vec<u8>,
    > + Format<<T6 as Protocol<IdChannel<F>, F>>::Unravel, Representation = Vec<u8>> + Format<
        <T6 as Protocol<IdChannel<F>, F>>::Coalesce,
        Representation = Vec<u8>,
    >,
    T1: Faithful<F> + Protocol<IdChannel<F>, F>,
    T2: Faithful<F> + Protocol<IdChannel<F>, F>,
    T3: Faithful<F> + Protocol<IdChannel<F>, F>,
    T4: Faithful<F> + Protocol<IdChannel<F>, F>,
    T5: Faithful<F> + Protocol<IdChannel<F>, F>,
    T6: Faithful<F> + Protocol<IdChannel<F>, F>,

    ensures
        trace_6(value, id, next, format) == value.list().trace(id, next, format),
{
    let s0 = nothing(next, format);
    let s1 = then(s0, value.0, id);
    let s2 = then(s1, value.1, id);
    let s3 = then(s2, value.2, id);
    let s4 = then(s3, value.3, id);
    let s5 = then(s4, value.4, id);
    let s6 = then(s5, value.5, id);
    lemma_followed_start(value.list(), id, next, format);
    lemma_followed_cons(s0, Cons(value.0, Cons(value.1, Cons(value.2, Cons(value.3, Cons(value.4, Cons(value.5, Nil)))))), id);
    lemma_followed_cons(s1, Cons(value.1, Cons(value.2, Cons(value.3, Cons(value.4, Cons(value.5, Nil))))), id);
    lemma_followed_cons(s2, Cons(value.2, Cons(value.3, Cons(value.4, Cons(value.5, Nil)))), id);
    lemma_followed_cons(s3, Cons(value.3, Cons(value.4, Cons(value.5, Nil))), id);
    lemma_followed_cons(s4, Cons(value.4, Cons(value.5, Nil)), id);
    lemma_followed_cons(s5, Cons(value.5, Nil), id);
    lemma_then_bound(s5, value.5, id);
    lemma_followed_nil(s6, id);
}

/// Unraveling a tuple of six resolves at the first poll and leaves
/// the live registry as it was; it leaves its trace if all of it could be sent.
/// Given up before, it leaves the live registry as it was.
pub proof fn lemma_unravel_6<F, T1, T2, T3, T4, T5, T6>(value: (T1, T2, T3, T4, T5, T6), ctx: Model<F>, id: u32) where
    F: Lossless<ForkHandle> + Format<ForkHandle, Representation = Vec<u8>> + Format<
        Bottom,
        Representation = Vec<u8>,
    > + Format<<T1 as Protocol<IdChannel<F>, F>>::Unravel, Representation = Vec<u8>> + Format<
        <T1 as Protocol<IdChannel<F>, F>>::Coalesce,
        Representation = Vec<u8>,
    > + Format<<T2 as Protocol<IdChannel<F>, F>>::Unravel, Representation = Vec<u8>> + Format<
        <T2 as Protocol<IdChannel<F>, F>>::Coalesce,
        Representation = Vec<u8>,
    > + Format<<T3 as Protocol<IdChannel<F>, F>>::Unravel, Representation = Vec<u8>> + Format<
        <T3 as Protocol<IdChannel<F>, F>>::Coalesce,
        Representation = Vec<u8>,
    > + Format<<T4 as Protocol<IdChannel<F>, F>>::Unravel, Representation = Vec<u8>> + Format<
        <T4 as Protocol<IdChannel<F>, F>>::Coalesce,
        Representation = Vec<u8>,
    > + Format<<T5 as Protocol<IdChannel<F>, F>>::Unravel, Representation = Vec<u8>> + Format<
        <T5 as Protocol<IdChannel<F>, F>>::Coalesce,
        Representation = Vec<u8>,
    > + Format<<T6 as Protocol<IdChannel<F>, F>>::Unravel, Representation = Vec<u8>> + Format<
        <T6 as Protocol<IdChannel<F>, F>>::Coalesce,
        Representation = Vec<u8>,
    >,
    T1: Faithful<F> + Protocol<IdChannel<F>, F>,
    T2: Faithful<F> + Protocol<IdChannel<F>, F>,
    T3: Faithful<F> + Protocol<IdChannel<F>, F>,
    T4: Faithful<F> + Protocol<IdChannel<F>, F>,
    T5: Faithful<F> + Protocol<IdChannel<F>, F>,
    T6: Faithful<F> + Protocol<IdChannel<F>, F>,

    requires
        ctx.wf(),
    ensures
        ({
            let start = <(T1, T2, T3, T4, T5, T6) as Protocol<IdChannel<F>, F>>::unraveling(
                value,
                IdChannelFork::of(id),
                ctx,
            );
            let step = start.0.polled(start.1);
            &&& start.0.cancelled(start.1).sinks == ctx.sinks
            &&& start.0.cancelled(start.1).wf()
            &&& step.2 is Ready
            &&& step.1.sinks == ctx.sinks
            &&& step.1.wf()
            &&& ctx.sinks.contains_key(id) && trace_6(value, id, ctx.next, ctx.format) is Some
                ==> {
                &&& start.0.unresolved()
                &&& step.2 == Poll::Ready(
                    Ok::<(), <(T1, T2, T3, T4, T5, T6) as Protocol<IdChannel<F>, F>>::UnravelError>(()),
                )
                &&& step.1 == ctx.sent(trace_6(value, id, ctx.next, ctx.format)->0)
                &&& step.1.wf()
            }
        }),
{
    lemma_trace_6(value, id, ctx.next, ctx.format);
    value.list().law_cancel(ctx, id);
    value.list().law_resolve(ctx, id);
    if ctx.sinks.contains_key(id) && trace_6(value, id, ctx.next, ctx.format) is Some {
        value.list().law_unravel(ctx, id);
    }
}

/// Coalescing a tuple of six from an endpoint that holds what unraveling
/// it left resolves at the first poll to the tuple; starting to coalesce
/// touches nothing.
pub proof fn lemma_coalesce_6<F, T1, T2, T3, T4, T5, T6>(
    value: (T1, T2, T3, T4, T5, T6),
    id: u32,
    next: nat,
    format: F,
    ctx: Model<F>,
    other: Model<F>,
) where
    F: Lossless<ForkHandle> + Format<ForkHandle, Representation = Vec<u8>> + Format<
        Bottom,
        Representation = Vec<u8>,
    > + Format<<T1 as Protocol<IdChannel<F>, F>>::Unravel, Representation = Vec<u8>> + Format<
        <T1 as Protocol<IdChannel<F>, F>>::Coalesce,
        Representation = Vec<u8>,
    > + Format<<T2 as Protocol<IdChannel<F>, F>>::Unravel, Representation = Vec<u8>> + Format<
        <T2 as Protocol<IdChannel<F>, F>>::Coalesce,
        Representation = Vec<u8>,
    > + Format<<T3 as Protocol<IdChannel<F>, F>>::Unravel, Representation = Vec<u8>> + Format<
        <T3 as Protocol<IdChannel<F>, F>>::Coalesce,
        Representation = Vec<u8>,
    > + Format<<T4 as Protocol<IdChannel<F>, F>>::Unravel, Representation = Vec<u8>> + Format<
        <T4 as Protocol<IdChannel<F>, F>>::Coalesce,
        Representation = Vec<u8>,
    > + Format<<T5 as Protocol<IdChannel<F>, F>>::Unravel, Representation = Vec<u8>> + Format<
        <T5 as Protocol<IdChannel<F>, F>>::Coalesce,
        Representation = Vec<u8>,
    > + Format<<T6 as Protocol<IdChannel<F>, F>>::Unravel, Representation = Vec<u8>> + Format<
        <T6 as Protocol<IdChannel<F>, F>>::Coalesce,
        Representation = Vec<u8>,
    >,
    T1: Faithful<F> + Protocol<IdChannel<F>, F>,
    T2: Faithful<F> + Protocol<IdChannel<F>, F>,
    T3: Faithful<F> + Protocol<IdChannel<F>, F>,
    T4: Faithful<F> + Protocol<IdChannel<F>, F>,
    T5: Faithful<F> + Protocol<IdChannel<F>, F>,
    T6: Faithful<F> + Protocol<IdChannel<F>, F>,

    ensures
        <(T1, T2, T3, T4, T5, T6) as Protocol<IdChannel<F>, F>>::coalescing(IdChannelFork::of(id), ctx).1 == ctx,
        <(T1, T2, T3, T4, T5, T6) as Protocol<IdChannel<F>, F>>::coalescing(IdChannelFork::of(id), ctx).0
            == <(T1, T2, T3, T4, T5, T6) as Protocol<IdChannel<F>, F>>::coalescing(IdChannelFork::of(id), other).0,
        trace_6(value, id, next, format) is Some && ctx.holds(
            trace_6(value, id, next, format)->0.items,
            id,
            next,
            trace_6(value, id, next, format)->0.next,
        ) ==> ({
            let start = <(T1, T2, T3, T4, T5, T6) as Protocol<IdChannel<F>, F>>::coalescing(
                IdChannelFork::of(id),
                ctx,
            );
            let step = start.0.polled(start.1);
            &&& start.0.unresolved()
            &&& step.2 == Poll::Ready(
                Ok::<(T1, T2, T3, T4, T5, T6), <(T1, T2, T3, T4, T5, T6) as Protocol<IdChannel<F>, F>>::CoalesceError>(value),
            )
            &&& step.1.with_format(ctx.format) == ctx.rebuilt(
                id,
                next,
                trace_6(value, id, next, format)->0.next,
            )
            &&& step.1.wf()
        }),
{
    lemma_trace_6(value, id, next, format);
    <Cons<T1, Cons<T2, Cons<T3, Cons<T4, Cons<T5, Cons<T6, Nil>>>>>> as Faithful<F>>::law_idle(id, ctx, other);
    if trace_6(value, id, next, format) is Some && ctx.holds(
        trace_6(value, id, next, format)->0.items,
        id,
        next,
        trace_6(value, id, next, format)->0.next,
    ) {
        value.list().law_coalesce(id, next, format, ctx);
        value.lemma_list();
    }
}

impl<F, T1, T2, T3, T4, T5, T6> Faithful<F> for (T1, T2, T3, T4, T5, T6) where
    F: Lossless<ForkHandle> + Format<ForkHandle, Representation = Vec<u8>> + Format<
        Bottom,
        Representation = Vec<u8>,
    > + Format<<T1 as Protocol<IdChannel<F>, F>>::Unravel, Representation = Vec<u8>> + Format<
        <T1 as Protocol<IdChannel<F>, F>>::Coalesce,
        Representation = Vec<u8>,
    > + Format<<T2 as Protocol<IdChannel<F>, F>>::Unravel, Representation = Vec<u8>> + Format<
        <T2 as Protocol<IdChannel<F>, F>>::Coalesce,
        Representation = Vec<u8>,
    > + Format<<T3 as Protocol<IdChannel<F>, F>>::Unravel, Representation = Vec<u8>> + Format<
        <T3 as Protocol<IdChannel<F>, F>>::Coalesce,
        Representation = Vec<u8>,
    > + Format<<T4 as Protocol<IdChannel<F>, F>>::Unravel, Representation = Vec<u8>> + Format<
        <T4 as Protocol<IdChannel<F>, F>>::Coalesce,
        Representation = Vec<u8>,
    > + Format<<T5 as Protocol<IdChannel<F>, F>>::Unravel, Representation = Vec<u8>> + Format<
        <T5 as Protocol<IdChannel<F>, F>>::Coalesce,
        Representation = Vec<u8>,
    > + Format<<T6 as Protocol<IdChannel<F>, F>>::Unravel, Representation = Vec<u8>> + Format<
        <T6 as Protocol<IdChannel<F>, F>>::Coalesce,
        Representation = Vec<u8>,
    >,
    T1: Faithful<F> + Protocol<IdChannel<F>, F>,
    T2: Faithful<F> + Protocol<IdChannel<F>, F>,
    T3: Faithful<F> + Protocol<IdChannel<F>, F>,
    T4: Faithful<F> + Protocol<IdChannel<F>, F>,
    T5: Faithful<F> + Protocol<IdChannel<F>, F>,
    T6: Faithful<F> + Protocol<IdChannel<F>, F>,
 {
    open spec fn trace(self, id: u32, next: nat, format: F) -> Option<Trace<F>> {
        trace_6(self, id, next, format)
    }

    proof fn law_trace(self, id: u32, next: nat, format: F) {
        lemma_trace_6(self, id, next, format);
        self.list().law_trace(id, next, format);
    }

    proof fn law_unravel(self, ctx: Model<F>, id: u32) {
        lemma_unravel_6(self, ctx, id);
    }

    proof fn law_resolve(self, ctx: Model<F>, id: u32) {
        lemma_unravel_6(self, ctx, id);
    }

    proof fn law_cancel(self, ctx: Model<F>, id: u32) {
        lemma_unravel_6(self, ctx, id);
    }

    proof fn law_idle(id: u32, ctx: Model<F>, other: Model<F>) {
        lemma_coalesce_6::<F, T1, T2, T3, T4, T5, T6>(arbitrary(), id, 0, arbitrary(), ctx, other);
    }

    proof fn law_coalesce(self, id: u32, next: nat, format: F, ctx: Model<F>) {
        lemma_coalesce_6(self, id, next, format, ctx, ctx);
    }
}

/// What sending a tuple of seven leaves behind: for each component in
/// turn, the trace of the component on a sub-channel of its own and then
/// its handle on the sub-channel of the tuple.
pub open spec fn trace_7<
    F: Format<ForkHandle, Representation = Vec<u8>>,
    T1: Faithful<F>,
    T2: Faithful<F>,
    T3: Faithful<F>,
    T4: Faithful<F>,
    T5: Faithful<F>,
    T6: Faithful<F>,
    T7: Faithful<F>,
>(value: (T1, T2, T3, T4, T5, T6, T7), id: u32, next: nat, format: F) -> Option<Trace<F>> {
    then(
        then(
            then(
                then(
                    then(
                        then(
                            then(
                                nothing(next, format),
                                value.0,
                                id,
                            ),
                            value.1,
                            id,
                        ),
                        value.2,
                        id,
                    ),
                    value.3,
                    id,
                ),
                value.4,
                id,
            ),
            value.5,
            id,
        ),
        value.6,
        id,
    )
}

/// The trace of a tuple of seven is the trace of the list of its
/// components.
pub proof fn lemma_trace_7<F, T1, T2, T3, T4, T5, T6, T7>(value: (T1, T2, T3, T4, T5, T6, T7), id: u32, next: nat, format: F) where
    F: Lossless<ForkHandle> + Format<ForkHandle, Representation = Vec<u8>> + Format<
        Bottom,
        Representation = Vec<u8>,
    > + Format<<T1 as Protocol<IdChannel<F>, F>>::Unravel, Representation = Vec<u8>> + Format<
        <T1 as Protocol<IdChannel<F>, F>>::Coalesce,
        Representation = Vec<u8>,
    > + Format<<T2 as Protocol<IdChannel<F>, F>>::Unravel, Representation = Vec<u8>> + Format<
        <T2 as Protocol<IdChannel<F>, F>>::Coalesce,
        Representation = Vec<u8>,
    > + Format<<T3 as Protocol<IdChannel<F>, F>>::Unravel, Representation = Vec<u8>> + Format<
        <T3 as Protocol<IdChannel<F>, F>>::Coalesce,
        Representation = Vec<u8>,
    > + Format<<T4 as Protocol<IdChannel<F>, F>>::Unravel, Representation = Vec<u8>> + Format<
        <T4 as Protocol<IdChannel<F>, F>>::Coalesce,
        Representation = Vec<u8>,
    > + Format<<T5 as Protocol<IdChannel<F>, F>>::Unravel, Representation = Vec<u8>> + Format<
        <T5 as Protocol<IdChannel<F>, F>>::Coalesce,
        Representation = Vec<u8>,
    > + Format<<T6 as Protocol<IdChannel<F>, F>>::Unravel, Representation = Vec<u8>> + Format<
        <T6 as Protocol<IdChannel<F>, F>>::Coalesce,
        Representation = Vec<u8>,
    > + Format<<T7 as Protocol<IdChannel<F>, F>>::Unravel, Representation = Vec<u8>> + Format<
        <T7 as Protocol<IdChannel<F>, F>>::Coalesce,
        Representation = Vec<u8>,
    >,
    T1: Faithful<F> + Protocol<IdChannel<F>, F>,
    T2: Faithful<F> + Protocol<IdChannel<F>, F>,
    T3: Faithful<F> + Protocol<IdChannel<F>, F>,
    T4: Faithful<F> + Protocol<IdChannel<F>, F>,
    T5: Faithful<F> + Protocol<IdChannel<F>, F>,
    T6: Faithful<F> + Protocol<IdChannel<F>, F>,
    T7: Faithful<F> + Protocol<IdChannel<F>, F>,

    ensures
        trace_7(value, id, next, format) == value.list().trace(id, next, format),
{
    let s0 = nothing(next, format);
    let s1 = then(s0, value.0, id);
    let s2 = then(s1, value.1, id);
    let s3 = then(s2, value.2, id);
    let s4 = then(s3, value.3, id);
    let s5 = then(s4, value.4, id);
    let s6 = then(s5, value.5, id);
    let s7 = then(s6, value.6, id);
    lemma_followed_start(value.list(), id, next, format);
    lemma_followed_cons(s0, Cons(value.0, Cons(value.1, Cons(value.2, Cons(value.3, Cons(value.4, Cons(value.5, Cons(value.6, Nil))))))), id);
    lemma_followed_cons(s1, Cons(value.1, Cons(value.2, Cons(value.3, Cons(value.4, Cons(value.5, Cons(value.6, Nil)))))), id);
    lemma_followed_cons(s2, Cons(value.2, Cons(value.3, Cons(value.4, Cons(value.5, Cons(value.6, Nil))))), id);
    lemma_followed_cons(s3, Cons(value.3, Cons(value.4, Cons(value.5, Cons(value.6, Nil)))), id);
    lemma_followed_cons(s4, Cons(value.4, Cons(value.5, Cons(value.6, Nil))), id);
    lemma_followed_cons(s5, Cons(value.5, Cons(value.6, Nil)), id);
    lemma_followed_cons(s6, Cons(value.6, Nil), id);
    lemma_then_bound(s6, value.6, id);
    lemma_followed_nil(s7, id);
}

/// Unraveling a tuple of seven resolves at the first poll and leaves
/// the live registry as it was; it leaves its trace if all of it could be sent.
/// Given up before, it leaves the live registry as it was.
pub proof fn lemma_unravel_7<F, T1, T2, T3, T4, T5, T6, T7>(value: (T1, T2, T3, T4, T5, T6, T7), ctx: Model<F>, id: u32) where
    F: Lossless<ForkHandle> + Format<ForkHandle, Representation = Vec<u8>> + Format<
        Bottom,
        Representation = Vec<u8>,
    > + Format<<T1 as Protocol<IdChannel<F>, F>>::Unravel, Representation = Vec<u8>> + Format<
        <T1 as Protocol<IdChannel<F>, F>>::Coalesce,
        Representation = Vec<u8>,
    > + Format<<T2 as Protocol<IdChannel<F>, F>>::Unravel, Representation = Vec<u8>> + Format<
        <T2 as Protocol<IdChannel<F>, F>>::Coalesce,
        Representation = Vec<u8>,
    > + Format<<T3 as Protocol<IdChannel<F>, F>>::Unravel, Representation = Vec<u8>> + Format<
        <T3 as Protocol<IdChannel<F>, F>>::Coalesce,
        Representation = Vec<u8>,
    > + Format<<T4 as Protocol<IdChannel<F>, F>>::Unravel, Representation = Vec<u8>> + Format<
        <T4 as Protocol<IdChannel<F>, F>>::Coalesce,
        Representation = Vec<u8>,
    > + Format<<T5 as Protocol<IdChannel<F>, F>>::Unravel, Representation = Vec<u8>> + Format<
        <T5 as Protocol<IdChannel<F>, F>>::Coalesce,
        Representation = Vec<u8>,
    > + Format<<T6 as Protocol<IdChannel<F>, F>>::Unravel, Representation = Vec<u8>> + Format<
        <T6 as Protocol<IdChannel<F>, F>>::Coalesce,
        Representation = Vec<u8>,
    > + Format<<T7 as Protocol<IdChannel<F>, F>>::Unravel, Representation = Vec<u8>> + Format<
        <T7 as Protocol<IdChannel<F>, F>>::Coalesce,
        Representation = Vec<u8>,
    >,
    T1: Faithful<F> + Protocol<IdChannel<F>, F>,
    T2: Faithful<F> + Protocol<IdChannel<F>, F>,
    T3: Faithful<F> + Protocol<IdChannel<F>, F>,
    T4: Faithful<F> + Protocol<IdChannel<F>, F>,
    T5: Faithful<F> + Protocol<IdChannel<F>, F>,
    T6: Faithful<F> + Protocol<IdChannel<F>, F>,
    T7: Faithful<F> + Protocol<IdChannel<F>, F>,

    requires
        ctx.wf(),
    ensures
        ({
            let start = <(T1, T2, T3, T4, T5, T6, T7) as Protocol<IdChannel<F>, F>>::unraveling(
                value,
                IdChannelFork::of(id),
                ctx,
            );
            let step = start.0.polled(start.1);
            &&& start.0.cancelled(start.1).sinks == ctx.sinks
            &&& start.0.cancelled(start.1).wf()
            &&& step.2 is Ready
            &&& step.1.sinks == ctx.sinks
            &&& step.1.wf()
            &&& ctx.sinks.contains_key(id) && trace_7(value, id, ctx.next, ctx.format) is Some
                ==> {
                &&& start.0.unresolved()
                &&& step.2 == Poll::Ready(
                    Ok::<(), <(T1, T2, T3, T4, T5, T6, T7) as Protocol<IdChannel<F>, F>>::UnravelError>(()),
                )
                &&& step.1 == ctx.sent(trace_7(value, id, ctx.next, ctx.format)->0)
                &&& step.1.wf()
            }
        }),
{
    lemma_trace_7(value, id, ctx.next, ctx.format);
    value.list().law_cancel(ctx, id);
    value.list().law_resolve(ctx, id);
    if ctx.sinks.contains_key(id) && trace_7(value, id, ctx.next, ctx.format) is Some {
        value.list().law_unravel(ctx, id);
    }
}

/// Coalescing a tuple of seven from an endpoint that holds what unraveling
/// it left resolves at the first poll to the tuple; starting to coalesce
/// touches nothing.
pub proof fn lemma_coalesce_7<F, T1, T2, T3, T4, T5, T6, T7>(
    value: (T1, T2, T3, T4, T5, T6, T7),
    id: u32,
    next: nat,
    format: F,
    ctx: Model<F>,
    other: Model<F>,
) where
    F: Lossless<ForkHandle> + Format<ForkHandle, Representation = Vec<u8>> + Format<
        Bottom,
        Representation = Vec<u8>,
    > + Format<<T1 as Protocol<IdChannel<F>, F>>::Unravel, Representation = Vec<u8>> + Format<
        <T1 as Protocol<IdChannel<F>, F>>::Coalesce,
        Representation = Vec<u8>,
    > + Format<<T2 as Protocol<IdChannel<F>, F>>::Unravel, Representation = Vec<u8>> + Format<
        <T2 as Protocol<IdChannel<F>, F>>::Coalesce,
        Representation = Vec<u8>,
    > + Format<<T3 as Protocol<IdChannel<F>, F>>::Unravel, Representation = Vec<u8>> + Format<
        <T3 as Protocol<IdChannel<F>, F>>::Coalesce,
        Representation = Vec<u8>,
    > + Format<<T4 as Protocol<IdChannel<F>, F>>::Unravel, Representation = Vec<u8>> + Format<
        <T4 as Protocol<IdChannel<F>, F>>::Coalesce,
        Representation = Vec<u8>,
    > + Format<<T5 as Protocol<IdChannel<F>, F>>::Unravel, Representation = Vec<u8>> + Format<
        <T5 as Protocol<IdChannel<F>, F>>::Coalesce,
        Representation = Vec<u8>,
    > + Format<<T6 as Protocol<IdChannel<F>, F>>::Unravel, Representation = Vec<u8>> + Format<
        <T6 as Protocol<IdChannel<F>, F>>::Coalesce,
        Representation = Vec<u8>,
    > + Format<<T7 as Protocol<IdChannel<F>, F>>::Unravel, Representation = Vec<u8>> + Format<
        <T7 as Protocol<IdChannel<F>, F>>::Coalesce,
        Representation = Vec<u8>,
    >,
    T1: Faithful<F> + Protocol<IdChannel<F>, F>,
    T2: Faithful<F> + Protocol<IdChannel<F>, F>,
    T3: Faithful<F> + Protocol<IdChannel<F>, F>,
    T4: Faithful<F> + Protocol<IdChannel<F>, F>,
    T5: Faithful<F> + Protocol<IdChannel<F>, F>,
    T6: Faithful<F> + Protocol<IdChannel<F>, F>,
    T7: Faithful<F> + Protocol<IdChannel<F>, F>,

    ensures
        <(T1, T2, T3, T4, T5, T6, T7) as Protocol<IdChannel<F>, F>>::coalescing(IdChannelFork::of(id), ctx).1 == ctx,
        <(T1, T2, T3, T4, T5, T6, T7) as Protocol<IdChannel<F>, F>>::coalescing(IdChannelFork::of(id), ctx).0
            == <(T1, T2, T3, T4, T5, T6, T7) as Protocol<IdChannel<F>, F>>::coalescing(IdChannelFork::of(id), other).0,
        trace_7(value, id, next, format) is Some && ctx.holds(
            trace_7(value, id, next, format)->0.items,
            id,
            next,
            trace_7(value, id, next, format)->0.next,
        ) ==> ({
            let start = <(T1, T2, T3, T4, T5, T6, T7) as Protocol<IdChannel<F>, F>>::coalescing(
                IdChannelFork::of(id),
                ctx,
            );
            let step = start.0.polled(start.1);
            &&& start.0.unresolved()
            &&& step.2 == Poll::Ready(
                Ok::<(T1, T2, T3, T4, T5, T6, T7), <(T1, T2, T3, T4, T5, T6, T7) as Protocol<IdChannel<F>, F>>::CoalesceError>(value),
            )
            &&& step.1.with_format(ctx.format) == ctx.rebuilt(
                id,
                next,
                trace_7(value, id, next, format)->0.next,
            )
            &&& step.1.wf()
        }),
{
    lemma_trace_7(value, id, next, format);
    <Cons<T1, Cons<T2, Cons<T3, Cons<T4, Cons<T5, Cons<T6, Cons<T7, Nil>>>>>>> as Faithful<F>>::law_idle(id, ctx, other);
    if trace_7(value, id, next, format) is Some && ctx.holds(
        trace_7(value, id, next, format)->0.items,
        id,
        next,
        trace_7(value, id, next, format)->0.next,
    ) {
        value.list().law_coalesce(id, next, format, ctx);
        value.lemma_list();
    }
}

impl<F, T1, T2, T3, T4, T5, T6, T7> Faithful<F> for (T1, T2, T3, T4, T5, T6, T7) where
    F: Lossless<ForkHandle> + Format<ForkHandle, Representation = Vec<u8>> + Format<
        Bottom,
        Representation = Vec<u8>,
    > + Format<<T1 as Protocol<IdChannel<F>, F>>::Unravel, Representation = Vec<u8>> + Format<
        <T1 as Protocol<IdChannel<F>, F>>::Coalesce,
        Representation = Vec<u8>,
    > + Format<<T2 as Protocol<IdChannel<F>, F>>::Unravel, Representation = Vec<u8>> + Format<
        <T2 as Protocol<IdChannel<F>, F>>::Coalesce,
        Representation = Vec<u8>,
    > + Format<<T3 as Protocol<IdChannel<F>, F>>::Unravel, Representation = Vec<u8>> + Format<
        <T3 as Protocol<IdChannel<F>, F>>::Coalesce,
        Representation = Vec<u8>,
    > + Format<<T4 as Protocol<IdChannel<F>, F>>::Unravel, Representation = Vec<u8>> + Format<
        <T4 as Protocol<IdChannel<F>, F>>::Coalesce,
        Representation = Vec<u8>,
    > + Format<<T5 as Protocol<IdChannel<F>, F>>::Unravel, Representation = Vec<u8>> + Format<
        <T5 as Protocol<IdChannel<F>, F>>::Coalesce,
        Representation = Vec<u8>,
    > + Format<<T6 as Protocol<IdChannel<F>, F>>::Unravel, Representation = Vec<u8>> + Format<
        <T6 as Protocol<IdChannel<F>, F>>::Coalesce,
        Representation = Vec<u8>,
    > + Format<<T7 as Protocol<IdChannel<F>, F>>::Unravel, Representation = Vec<u8>> + Format<
        <T7 as Protocol<IdChannel<F>, F>>::Coalesce,
        Representation = Vec<u8>,
    >,
    T1: Faithful<F> + Protocol<IdChannel<F>, F>,
    T2: Faithful<F> + Protocol<IdChannel<F>, F>,
    T3: Faithful<F> + Protocol<IdChannel<F>, F>,
    T4: Faithful<F> + Protocol<IdChannel<F>, F>,
    T5: Faithful<F> + Protocol<IdChannel<F>, F>,
    T6: Faithful<F> + Protocol<IdChannel<F>, F>,
    T7: Faithful<F> + Protocol<IdChannel<F>, F>,
 {
    open spec fn trace(self, id: u32, next: nat, format: F) -> Option<Trace<F>> {
        trace_7(self, id, next, format)
    }

    proof fn law_trace(self, id: u32, next: nat, format: F) {
        lemma_trace_7(self, id, next, format);
        self.list().law_trace(id, next, format);
    }

    proof fn law_unravel(self, ctx: Model<F>, id: u32) {
        lemma_unravel_7(self, ctx, id);
    }

    proof fn law_resolve(self, ctx: Model<F>, id: u32) {
        lemma_unravel_7(self, ctx, id);
    }

    proof fn law_cancel(self, ctx: Model<F>, id: u32) {
        lemma_unravel_7(self, ctx, id);
    }

    proof fn law_idle(id: u32, ctx: Model<F>, other: Model<F>) {
        lemma_coalesce_7::<F, T1, T2, T3, T4, T5, T6, T7>(arbitrary(), id, 0, arbitrary(), ctx, other);
    }

    proof fn law_coalesce(self, id: u32, next: nat, format: F, ctx: Model<F>) {
        lemma_coalesce_7(self, id, next, format, ctx, ctx);
    }
}

/// What sending a tuple of eight leaves behind: for each component in
/// turn, the trace of the component on a sub-channel of its own and then
/// its handle on the sub-channel of the tuple.
pub open spec fn trace_8<
    F: Format<ForkHandle, Representation = Vec<u8>>,
    T1: Faithful<F>,
    T2: Faithful<F>,
    T3: Faithful<F>,
    T4: Faithful<F>,
    T5: Faithful<F>,
    T6: Faithful<F>,
    T7: Faithful<F>,
    T8: Faithful<F>,
>(value: (T1, T2, T3, T4, T5, T6, T7, T8), id: u32, next: nat, format: F) -> Option<Trace<F>> {
    then(
        then(
            then(
                then(
                    then(
                        then(
                            then(
                                then(
                                    nothing(next, format),
                                    value.0,
                                    id,
                                ),
                                value.1,
                                id,
                            ),
                            value.2,
                            id,
                        ),
                        value.3,
                        id,
                    ),
                    value.4,
                    id,
                ),
                value.5,
                id,
            ),
            value.6,
            id,
        ),
        value.7,
        id,
    )
}

/// The trace of a tuple of eight is the trace of the list of its
/// components.
pub proof fn lemma_trace_8<F, T1, T2, T3, T4, T5, T6, T7, T8>(value: (T1, T2, T3, T4, T5, T6, T7, T8), id: u32, next: nat, format: F) where
    F: Lossless<ForkHandle> + Format<ForkHandle, Representation = Vec<u8>> + Format<
        Bottom,
        Representation = Vec<u8>,
    > + Format<<T1 as Protocol<IdChannel<F>, F>>::Unravel, Representation = Vec<u8>> + Format<
        <T1 as Protocol<IdChannel<F>, F>>::Coalesce,
        Representation = Vec<u8>,
    > + Format<<T2 as Protocol<IdChannel<F>, F>>::Unravel, Representation = Vec<u8>> + Format<
        <T2 as Protocol<IdChannel<F>, F>>::Coalesce,
        Representation = Vec<u8>,
    > + Format<<T3 as Protocol<IdChannel<F>, F>>::Unravel, Representation = Vec<u8>> + Format<
        <T3 as Protocol<IdChannel<F>, F>>::Coalesce,
        Representation = Vec<u8>,
    > + Format<<T4 as Protocol<IdChannel<F>, F>>::Unravel, Representation = Vec<u8>> + Format<
        <T4 as Protocol<IdChannel<F>, F>>::Coalesce,
        Representation = Vec<u8>,
    > + Format<<T5 as Protocol<IdChannel<F>, F>>::Unravel, Representation = Vec<u8>> + Format<
        <T5 as Protocol<IdChannel<F>, F>>::Coalesce,
        Representation = Vec<u8>,
    > + Format<<T6 as Protocol<IdChannel<F>, F>>::Unravel, Representation = Vec<u8>> + Format<
        <T6 as Protocol<IdChannel<F>, F>>::Coalesce,
        Representation = Vec<u8>,
    > + Format<<T7 as Protocol<IdChannel<F>, F>>::Unravel, Representation = Vec<u8>> + Format<
        <T7 as Protocol<IdChannel<F>, F>>::Coalesce,
        Representation = Vec<u8>,
    > + Format<<T8 as Protocol<IdChannel<F>, F>>::Unravel, Representation = Vec<u8>> + Format<
        <T8 as Protocol<IdChannel<F>, F>>::Coalesce,
        Representation = Vec<u8>,
    >,
    T1: Faithful<F> + Protocol<IdChannel<F>, F>,
    T2: Faithful<F> + Protocol<IdChannel<F>, F>,
    T3: Faithful<F> + Protocol<IdChannel<F>, F>,
    T4: Faithful<F> + Protocol<IdChannel<F>, F>,
    T5: Faithful<F> + Protocol<IdChannel<F>, F>,
    T6: Faithful<F> + Protocol<IdChannel<F>, F>,
    T7: Faithful<F> + Protocol<IdChannel<F>, F>,
    T8: Faithful<F> + Protocol<IdChannel<F>, F>,

    ensures
        trace_8(value, id, next, format) == value.list().trace(id, next, format),
{
    let s0 = nothing(next, format);
    let s1 = then(s0, value.0, id);
    let s2 = then(s1, value.1, id);
    let s3 = then(s2, value.2, id);
    let s4 = then(s3, value.3, id);
    let s5 = then(s4, value.4, id);
    let s6 = then(s5, value.5, id);
    let s7 = then(s6, value.6, id);
    let s8 = then(s7, value.7, id);
    lemma_followed_start(value.list(), id, next, format);
    lemma_followed_cons(s0, Cons(value.0, Cons(value.1, Cons(value.2, Cons(value.3, Cons(value.4, Cons(value.5, Cons(value.6, Cons(value.7, Nil)))))))), id);
    lemma_followed_cons(s1, Cons(value.1, Cons(value.2, Cons(value.3, Cons(value.4, Cons(value.5, Cons(value.6, Cons(value.7, Nil))))))), id);
    lemma_followed_cons(s2, Cons(value.2, Cons(value.3, Cons(value.4, Cons(value.5, Cons(value.6, Cons(value.7, Nil)))))), id);
    lemma_followed_cons(s3, Cons(value.3, Cons(value.4, Cons(value.5, Cons(value.6, Cons(value.7, Nil))))), id);
    lemma_followed_cons(s4, Cons(value.4, Cons(value.5, Cons(value.6, Cons(value.7, Nil)))), id);
    lemma_followed_cons(s5, Cons(value.5, Cons(value.6, Cons(value.7, Nil))), id);
    lemma_followed_cons(s6, Cons(value.6, Cons(value.7, Nil)), id);
    lemma_followed_cons(s7, Cons(value.7, Nil), id);
    lemma_then_bound(s7, value.7, id);
    lemma_followed_nil(s8, id);
}

/// Unraveling a tuple of eight resolves at the first poll and leaves
/// the live registry as it was; it leaves its trace if all of it could be sent.
/// Given up before, it leaves the live registry as it was.
pub proof fn lemma_unravel_8<F, T1, T2, T3, T4, T5, T6, T7, T8>(value: (T1, T2, T3, T4, T5, T6, T7, T8), ctx: Model<F>, id: u32) where
    F: Lossless<ForkHandle> + Format<ForkHandle, Representation = Vec<u8>> + Format<
        Bottom,
        Representation = Vec<u8>,
    > + Format<<T1 as Protocol<IdChannel<F>, F>>::Unravel, Representation = Vec<u8>> + Format<
        <T1 as Protocol<IdChannel<F>, F>>::Coalesce,
        Representation = Vec<u8>,
    > + Format<<T2 as Protocol<IdChannel<F>, F>>::Unravel, Representation = Vec<u8>> + Format<
        <T2 as Protocol<IdChannel<F>, F>>::Coalesce,
        Representation = Vec<u8>,
    > + Format<<T3 as Protocol<IdChannel<F>, F>>::Unravel, Representation = Vec<u8>> + Format<
        <T3 as Protocol<IdChannel<F>, F>>::Coalesce,
        Representation = Vec<u8>,
    > + Format<<T4 as Protocol<IdChannel<F>, F>>::Unravel, Representation = Vec<u8>> + Format<
        <T4 as Protocol<IdChannel<F>, F>>::Coalesce,
        Representation = Vec<u8>,
    > + Format<<T5 as Protocol<IdChannel<F>, F>>::Unravel, Representation = Vec<u8>> + Format<
        <T5 as Protocol<IdChannel<F>, F>>::Coalesce,
        Representation = Vec<u8>,
    > + Format<<T6 as Protocol<IdChannel<F>, F>>::Unravel, Representation = Vec<u8>> + Format<
        <T6 as Protocol<IdChannel<F>, F>>::Coalesce,
        Representation = Vec<u8>,
    > + Format<<T7 as Protocol<IdChannel<F>, F>>::Unravel, Representation = Vec<u8>> + Format<
        <T7 as Protocol<IdChannel<F>, F>>::Coalesce,
        Representation = Vec<u8>,
    > + Format<<T8 as Protocol<IdChannel<F>, F>>::Unravel, Representation = Vec<u8>> + Format<
        <T8 as Protocol<IdChannel<F>, F>>::Coalesce,
        Representation = Vec<u8>,
    >,
    T1: Faithful<F> + Protocol<IdChannel<F>, F>,
    T2: Faithful<F> + Protocol<IdChannel<F>, F>,
    T3: Faithful<F> + Protocol<IdChannel<F>, F>,
    T4: Faithful<F> + Protocol<IdChannel<F>, F>,
    T5: Faithful<F> + Protocol<IdChannel<F>, F>,
    T6: Faithful<F> + Protocol<IdChannel<F>, F>,
    T7: Faithful<F> + Protocol<IdChannel<F>, F>,
    T8: Faithful<F> + Protocol<IdChannel<F>, F>,

    requires
        ctx.wf(),
    ensures
        ({
            let start = <(T1, T2, T3, T4, T5, T6, T7, T8) as Protocol<IdChannel<F>, F>>::unraveling(
                value,
                IdChannelFork::of(id),
                ctx,
            );
            let step = start.0.polled(start.1);
            &&& start.0.cancelled(start.1).sinks == ctx.sinks
            &&& start.0.cancelled(start.1).wf()
            &&& step.2 is Ready
            &&& step.1.sinks == ctx.sinks
            &&& step.1.wf()
            &&& ctx.sinks.contains_key(id) && trace_8(value, id, ctx.next, ctx.format) is Some
                ==> {
                &&& start.0.unresolved()
                &&& step.2 == Poll::Ready(
                    Ok::<(), <(T1, T2, T3, T4, T5, T6, T7, T8) as Protocol<IdChannel<F>, F>>::UnravelError>(()),
                )
                &&& step.1 == ctx.sent(trace_8(value, id, ctx.next, ctx.format)->0)
                &&& step.1.wf()
            }
        }),
{
    lemma_trace_8(value, id, ctx.next, ctx.format);
    value.list().law_cancel(ctx, id);
    value.list().law_resolve(ctx, id);
    if ctx.sinks.contains_key(id) && trace_8(value, id, ctx.next, ctx.format) is Some {
        value.list().law_unravel(ctx, id);
    }
}

/// Coalescing a tuple of eight from an endpoint that holds what unraveling
/// it left resolves at the first poll to the tuple; starting to coalesce
/// touches nothing.
pub proof fn lemma_coalesce_8<F, T1, T2, T3, T4, T5, T6, T7, T8>(
    value: (T1, T2, T3, T4, T5, T6, T7, T8),
    id: u32,
    next: nat,
    format: F,
    ctx: Model<F>,
    other: Model<F>,
) where
    F: Lossless<ForkHandle> + Format<ForkHandle, Representation = Vec<u8>> + Format<
        Bottom,
        Representation = Vec<u8>,
    > + Format<<T1 as Protocol<IdChannel<F>, F>>::Unravel, Representation = Vec<u8>> + Format<
        <T1 as Protocol<IdChannel<F>, F>>::Coalesce,
        Representation = Vec<u8>,
    > + Format<<T2 as Protocol<IdChannel<F>, F>>::Unravel, Representation = Vec<u8>> + Format<
        <T2 as Protocol<IdChannel<F>, F>>::Coalesce,
        Representation = Vec<u8>,
    > + Format<<T3 as Protocol<IdChannel<F>, F>>::Unravel, Representation = Vec<u8>> + Format<
        <T3 as Protocol<IdChannel<F>, F>>::Coalesce,
        Representation = Vec<u8>,
    > + Format<<T4 as Protocol<IdChannel<F>, F>>::Unravel, Representation = Vec<u8>> + Format<
        <T4 as Protocol<IdChannel<F>, F>>::Coalesce,
        Representation = Vec<u8>,
    > + Format<<T5 as Protocol<IdChannel<F>, F>>::Unravel, Representation = Vec<u8>> + Format<
        <T5 as Protocol<IdChannel<F>, F>>::Coalesce,
        Representation = Vec<u8>,
    > + Format<<T6 as Protocol<IdChannel<F>, F>>::Unravel, Representation = Vec<u8>> + Format<
        <T6 as Protocol<IdChannel<F>, F>>::Coalesce,
        Representation = Vec<u8>,
    > + Format<<T7 as Protocol<IdChannel<F>, F>>::Unravel, Representation = Vec<u8>> + Format<
        <T7 as Protocol<IdChannel<F>, F>>::Coalesce,
        Representation = Vec<u8>,
    > + Format<<T8 as Protocol<IdChannel<F>, F>>::Unravel, Representation = Vec<u8>> + Format<
        <T8 as Protocol<IdChannel<F>, F>>::Coalesce,
        Representation = Vec<u8>,
    >,
    T1: Faithful<F> + Protocol<IdChannel<F>, F>,
    T2: Faithful<F> + Protocol<IdChannel<F>, F>,
    T3: Faithful<F> + Protocol<IdChannel<F>, F>,
    T4: Faithful<F> + Protocol<IdChannel<F>, F>,
    T5: Faithful<F> + Protocol<IdChannel<F>, F>,
    T6: Faithful<F> + Protocol<IdChannel<F>, F>,
    T7: Faithful<F> + Protocol<IdChannel<F>, F>,
    T8: Faithful<F> + Protocol<IdChannel<F>, F>,

    ensures
        <(T1, T2, T3, T4, T5, T6, T7, T8) as Protocol<IdChannel<F>, F>>::coalescing(IdChannelFork::of(id), ctx).1 == ctx,
        <(T1, T2, T3, T4, T5, T6, T7, T8) as Protocol<IdChannel<F>, F>>::coalescing(IdChannelFork::of(id), ctx).0
            == <(T1, T2, T3, T4, T5, T6, T7, T8) as Protocol<IdChannel<F>, F>>::coalescing(IdChannelFork::of(id), other).0,
        trace_8(value, id, next, format) is Some && ctx.holds(
            trace_8(value, id, next, format)->0.items,
            id,
            next,
            trace_8(value, id, next, format)->0.next,
        ) ==> ({
            let start = <(T1, T2, T3, T4, T5, T6, T7, T8) as Protocol<IdChannel<F>, F>>::coalescing(
                IdChannelFork::of(id),
                ctx,
            );
            let step = start.0.polled(start.1);
            &&& start.0.unresolved()
            &&& step.2 == Poll::Ready(
                Ok::<(T1, T2, T3, T4, T5, T6, T7, T8), <(T1, T2, T3, T4, T5, T6, T7, T8) as Protocol<IdChannel<F>, F>>::CoalesceError>(value),
            )
            &&& step.1.with_format(ctx.format) == ctx.rebuilt(
                id,
                next,
                trace_8(value, id, next, format)->0.next,
            )
            &&& step.1.wf()
        }),
{
    lemma_trace_8(value, id, next, format);
    <Cons<T1, Cons<T2, Cons<T3, Cons<T4, Cons<T5, Cons<T6, Cons<T7, Cons<T8, Nil>>>>>>>> as Faithful<F>>::law_idle(id, ctx, other);
    if trace_8(value, id, next, format) is Some && ctx.holds(
        trace_8(value, id, next, format)->0.items,
        id,
        next,
        trace_8(value, id, next, format)->0.next,
    ) {
        value.list().law_coalesce(id, next, format, ctx);
        value.lemma_list();
    }
}

impl<F, T1, T2, T3, T4, T5, T6, T7, T8> Faithful<F> for (T1, T2, T3, T4, T5, T6, T7, T8) where
    F: Lossless<ForkHandle> + Format<ForkHandle, Representation = Vec<u8>> + Format<
        Bottom,
        Representation = Vec<u8>,
    > + Format<<T1 as Protocol<IdChannel<F>, F>>::Unravel, Representation = Vec<u8>> + Format<
        <T1 as Protocol<IdChannel<F>, F>>::Coalesce,
        Representation = Vec<u8>,
    > + Format<<T2 as Protocol<IdChannel<F>, F>>::Unravel, Representation = Vec<u8>> + Format<
        <T2 as Protocol<IdChannel<F>, F>>::Coalesce,
        Representation = Vec<u8>,
    > + Format<<T3 as Protocol<IdChannel<F>, F>>::Unravel, Representation = Vec<u8>> + Format<
        <T3 as Protocol<IdChannel<F>, F>>::Coalesce,
        Representation = Vec<u8>,
    > + Format<<T4 as Protocol<IdChannel<F>, F>>::Unravel, Representation = Vec<u8>> + Format<
        <T4 as Protocol<IdChannel<F>, F>>::Coalesce,
        Representation = Vec<u8>,
    > + Format<<T5 as Protocol<IdChannel<F>, F>>::Unravel, Representation = Vec<u8>> + Format<
        <T5 as Protocol<IdChannel<F>, F>>::Coalesce,
        Representation = Vec<u8>,
    > + Format<<T6 as Protocol<IdChannel<F>, F>>::Unravel, Representation = Vec<u8>> + Format<
        <T6 as Protocol<IdChannel<F>, F>>::Coalesce,
        Representation = Vec<u8>,
    > + Format<<T7 as Protocol<IdChannel<F>, F>>::Unravel, Representation = Vec<u8>> + Format<
        <T7 as Protocol<IdChannel<F>, F>>::Coalesce,
        Representation = Vec<u8>,
    > + Format<<T8 as Protocol<IdChannel<F>, F>>::Unravel, Representation = Vec<u8>> + Format<
        <T8 as Protocol<IdChannel<F>, F>>::Coalesce,
        Representation = Vec<u8>,
    >,
    T1: Faithful<F> + Protocol<IdChannel<F>, F>,
    T2: Faithful<F> + Protocol<IdChannel<F>, F>,
    T3: Faithful<F> + Protocol<IdChannel<F>, F>,
    T4: Faithful<F> + Protocol<IdChannel<F>, F>,
    T5: Faithful<F> + Protocol<IdChannel<F>, F>,
    T6: Faithful<F> + Protocol<IdChannel<F>, F>,
    T7: Faithful<F> + Protocol<IdChannel<F>, F>,
    T8: Faithful<F> + Protocol<IdChannel<F>, F>,
 {
    open spec fn trace(self, id: u32, next: nat, format: F) -> Option<Trace<F>> {
        trace_8(self, id, next, format)
    }

    proof fn law_trace(self, id: u32, next: nat, format: F) {
        lemma_trace_8(self, id, next, format);
        self.list().law_trace(id, next, format);
    }

    proof fn law_unravel(self, ctx: Model<F>, id: u32) {
        lemma_unravel_8(self, ctx, id);
    }

    proof fn law_resolve(self, ctx: Model<F>, id: u32) {
        lemma_unravel_8(self, ctx, id);
    }

    proof fn law_cancel(self, ctx: Model<F>, id: u32) {
        lemma_unravel_8(self, ctx, id);
    }

    proof fn law_idle(id: u32, ctx: Model<F>, other: Model<F>) {
        lemma_coalesce_8::<F, T1, T2, T3, T4, T5, T6, T7, T8>(arbitrary(), id, 0, arbitrary(), ctx, other);
    }

    proof fn law_coalesce(self, id: u32, next: nat, format: F, ctx: Model<F>) {
        lemma_coalesce_8(self, id, next, format, ctx, ctx);
    }
}

/// What sending a tuple of nine leaves behind: for each component in
/// turn, the trace of the component on a sub-channel of its own and then
/// its handle on the sub-channel of the tuple.
pub open spec fn trace_9<
    F: Format<ForkHandle, Representation = Vec<u8>>,
    T1: Faithful<F>,
    T2: Faithful<F>,
    T3: Faithful<F>,
    T4: Faithful<F>,
    T5: Faithful<F>,
    T6: Faithful<F>,
    T7: Faithful<F>,
    T8: Faithful<F>,
    T9: Faithful<F>,
>(value: (T1, T2, T3, T4, T5, T6, T7, T8, T9), id: u32, next: nat, format: F) -> Option<Trace<F>> {
    then(
        then(
            then(
                then(
                    then(
                        then(
                            then(
                                then(
                                    then(
                                        nothing(next, format),
                                        value.0,
                                        id,
                                    ),
                                    value.1,
                                    id,
                                ),
                                value.2,
                                id,
                            ),
                            value.3,
                            id,
                        ),
                        value.4,
                        id,
                    ),
                    value.5,
                    id,
                ),
                value.6,
                id,
            ),
            value.7,
            id,
        ),
        value.8,
        id,
    )
}

/// The trace of a tuple of nine is the trace of the list of its
/// components.
pub proof fn lemma_trace_9<F, T1, T2, T3, T4, T5, T6, T7, T8, T9>(value: (T1, T2, T3, T4, T5, T6, T7, T8, T9), id: u32, next: nat, format: F) where
    F: Lossless<ForkHandle> + Format<ForkHandle, Representation = Vec<u8>> + Format<
        Bottom,
        Representation = Vec<u8>,
    > + Format<<T1 as Protocol<IdChannel<F>, F>>::Unravel, Representation = Vec<u8>> + Format<
        <T1 as Protocol<IdChannel<F>, F>>::Coalesce,
        Representation = Vec<u8>,
    > + Format<<T2 as Protocol<IdChannel<F>, F>>::Unravel, Representation = Vec<u8>> + Format<
        <T2 as Protocol<IdChannel<F>, F>>::Coalesce,
        Representation = Vec<u8>,
    > + Format<<T3 as Protocol<IdChannel<F>, F>>::Unravel, Representation = Vec<u8>> + Format<
        <T3 as Protocol<IdChannel<F>, F>>::Coalesce,
        Representation = Vec<u8>,
    > + Format<<T4 as Protocol<IdChannel<F>, F>>::Unravel, Representation = Vec<u8>> + Format<
        <T4 as Protocol<IdChannel<F>, F>>::Coalesce,
        Representation = Vec<u8>,
    > + Format<<T5 as Protocol<IdChannel<F>, F>>::Unravel, Representation = Vec<u8>> + Format<
        <T5 as Protocol<IdChannel<F>, F>>::Coalesce,
        Representation = Vec<u8>,
    > + Format<<T6 as Protocol<IdChannel<F>, F>>::Unravel, Representation = Vec<u8>> + Format<
        <T6 as Protocol<IdChannel<F>, F>>::Coalesce,
        Representation = Vec<u8>,
    > + Format<<T7 as Protocol<IdChannel<F>, F>>::Unravel, Representation = Vec<u8>> + Format<
        <T7 as Protocol<IdChannel<F>, F>>::Coalesce,
        Representation = Vec<u8>,
    > + Format<<T8 as Protocol<IdChannel<F>, F>>::Unravel, Representation = Vec<u8>> + Format<
        <T8 as Protocol<IdChannel<F>, F>>::Coalesce,
        Representation = Vec<u8>,
    > + Format<<T9 as Protocol<IdChannel<F>, F>>::Unravel, Representation = Vec<u8>> + Format<
        <T9 as Protocol<IdChannel<F>, F>>::Coalesce,
        Representation = Vec<u8>,
    >,
    T1: Faithful<F> + Protocol<IdChannel<F>, F>,
    T2: Faithful<F> + Protocol<IdChannel<F>, F>,
    T3: Faithful<F> + Protocol<IdChannel<F>, F>,
    T4: Faithful<F> + Protocol<IdChannel<F>, F>,
    T5: Faithful<F> + Protocol<IdChannel<F>, F>,
    T6: Faithful<F> + Protocol<IdChannel<F>, F>,
    T7: Faithful<F> + Protocol<IdChannel<F>, F>,
    T8: Faithful<F> + Protocol<IdChannel<F>, F>,
    T9: Faithful<F> + Protocol<IdChannel<F>, F>,

    ensures
        trace_9(value, id, next, format) == value.list().trace(id, next, format),
{
    let s0 = nothing(next, format);
    let s1 = then(s0, value.0, id);
    let s2 = then(s1, value.1, id);
    let s3 = then(s2, value.2, id);
    let s4 = then(s3, value.3, id);
    let s5 = then(s4, value.4, id);
    let s6 = then(s5, value.5, id);
    let s7 = then(s6, value.6, id);
    let s8 = then(s7, value.7, id);
    let s9 = then(s8, value.8, id);
    lemma_followed_start(value.list(), id, next, format);
    lemma_followed_cons(s0, Cons(value.0, Cons(value.1, Cons(value.2, Cons(value.3, Cons(value.4, Cons(value.5, Cons(value.6, Cons(value.7, Cons(value.8, Nil))))))))), id);
    lemma_followed_cons(s1, Cons(value.1, Cons(value.2, Cons(value.3, Cons(value.4, Cons(value.5, Cons(value.6, Cons(value.7, Cons(value.8, Nil)))))))), id);
    lemma_followed_cons(s2, Cons(value.2, Cons(value.3, Cons(value.4, Cons(value.5, Cons(value.6, Cons(value.7, Cons(value.8, Nil))))))), id);
    lemma_followed_cons(s3, Cons(value.3, Cons(value.4, Cons(value.5, Cons(value.6, Cons(value.7, Cons(value.8, Nil)))))), id);
    lemma_followed_cons(s4, Cons(value.4, Cons(value.5, Cons(value.6, Cons(value.7, Cons(value.8, Nil))))), id);
    lemma_followed_cons(s5, Cons(value.5, Cons(value.6, Cons(value.7, Cons(value.8, Nil)))), id);
    lemma_followed_cons(s6, Cons(value.6, Cons(value.7, Cons(value.8, Nil))), id);
    lemma_followed_cons(s7, Cons(value.7, Cons(value.8, Nil)), id);
    lemma_followed_cons(s8, Cons(value.8, Nil), id);
    lemma_then_bound(s8, value.8, id);
    lemma_followed_nil(s9, id);
}

/// Unraveling a tuple of nine resolves at the first poll and leaves
/// the live registry as it was; it leaves its trace if all of it could be sent.
/// Given up before, it leaves the live registry as it was.
pub proof fn lemma_unravel_9<F, T1, T2, T3, T4, T5, T6, T7, T8, T9>(value: (T1, T2, T3, T4, T5, T6, T7, T8, T9), ctx: Model<F>, id: u32) where
    F: Lossless<ForkHandle> + Format<ForkHandle, Representation = Vec<u8>> + Format<
        Bottom,
        Representation = Vec<u8>,
    > + Format<<T1 as Protocol<IdChannel<F>, F>>::Unravel, Representation = Vec<u8>> + Format<
        <T1 as Protocol<IdChannel<F>, F>>::Coalesce,
        Representation = Vec<u8>,
    > + Format<<T2 as Protocol<IdChannel<F>, F>>::Unravel, Representation = Vec<u8>> + Format<
        <T2 as Protocol<IdChannel<F>, F>>::Coalesce,
        Representation = Vec<u8>,
    > + Format<<T3 as Protocol<IdChannel<F>, F>>::Unravel, Representation = Vec<u8>> + Format<
        <T3 as Protocol<IdChannel<F>, F>>::Coalesce,
        Representation = Vec<u8>,
    > + Format<<T4 as Protocol<IdChannel<F>, F>>::Unravel, Representation = Vec<u8>> + Format<
        <T4 as Protocol<IdChannel<F>, F>>::Coalesce,
        Representation = Vec<u8>,
    > + Format<<T5 as Protocol<IdChannel<F>, F>>::Unravel, Representation = Vec<u8>> + Format<
        <T5 as Protocol<IdChannel<F>, F>>::Coalesce,
        Representation = Vec<u8>,
    > + Format<<T6 as Protocol<IdChannel<F>, F>>::Unravel, Representation = Vec<u8>> + Format<
        <T6 as Protocol<IdChannel<F>, F>>::Coalesce,
        Representation = Vec<u8>,
    > + Format<<T7 as Protocol<IdChannel<F>, F>>::Unravel, Representation = Vec<u8>> + Format<
        <T7 as Protocol<IdChannel<F>, F>>::Coalesce,
        Representation = Vec<u8>,
    > + Format<<T8 as Protocol<IdChannel<F>, F>>::Unravel, Representation = Vec<u8>> + Format<
        <T8 as Protocol<IdChannel<F>, F>>::Coalesce,
        Representation = Vec<u8>,
    > + Format<<T9 as Protocol<IdChannel<F>, F>>::Unravel, Representation = Vec<u8>> + Format<
        <T9 as Protocol<IdChannel<F>, F>>::Coalesce,
        Representation = Vec<u8>,
    >,
    T1: Faithful<F> + Protocol<IdChannel<F>, F>,
    T2: Faithful<F> + Protocol<IdChannel<F>, F>,
    T3: Faithful<F> + Protocol<IdChannel<F>, F>,
    T4: Faithful<F> + Protocol<IdChannel<F>, F>,
    T5: Faithful<F> + Protocol<IdChannel<F>, F>,
    T6: Faithful<F> + Protocol<IdChannel<F>, F>,
    T7: Faithful<F> + Protocol<IdChannel<F>, F>,
    T8: Faithful<F> + Protocol<IdChannel<F>, F>,
    T9: Faithful<F> + Protocol<IdChannel<F>, F>,

    requires
        ctx.wf(),
    ensures
        ({
            let start = <(T1, T2, T3, T4, T5, T6, T7, T8, T9) as Protocol<IdChannel<F>, F>>::unraveling(
                value,
                IdChannelFork::of(id),
                ctx,
            );
            let step = start.0.polled(start.1);
            &&& start.0.cancelled(start.1).sinks == ctx.sinks
            &&& start.0.cancelled(start.1).wf()
            &&& step.2 is Ready
            &&& step.1.sinks == ctx.sinks
            &&& step.1.wf()
            &&& ctx.sinks.contains_key(id) && trace_9(value, id, ctx.next, ctx.format) is Some
                ==> {
                &&& start.0.unresolved()
                &&& step.2 == Poll::Ready(
                    Ok::<(), <(T1, T2, T3, T4, T5, T6, T7, T8, T9) as Protocol<IdChannel<F>, F>>::UnravelError>(()),
                )
                &&& step.1 == ctx.sent(trace_9(value, id, ctx.next, ctx.format)->0)
                &&& step.1.wf()
            }
        }),
{
    lemma_trace_9(value, id, ctx.next, ctx.format);
    value.list().law_cancel(ctx, id);
    value.list().law_resolve(ctx, id);
    if ctx.sinks.contains_key(id) && trace_9(value, id, ctx.next, ctx.format) is Some {
        value.list().law_unravel(ctx, id);
    }
}

/// Coalescing a tuple of nine from an endpoint that holds what unraveling
/// it left resolves at the first poll to the tuple; starting to coalesce
/// touches nothing.
pub proof fn lemma_coalesce_9<F, T1, T2, T3, T4, T5, T6, T7, T8, T9>(
    value: (T1, T2, T3, T4, T5, T6, T7, T8, T9),
    id: u32,
    next: nat,
    format: F,
    ctx: Model<F>,
    other: Model<F>,
) where
    F: Lossless<ForkHandle> + Format<ForkHandle, Representation = Vec<u8>> + Format<
        Bottom,
        Representation = Vec<u8>,
    > + Format<<T1 as Protocol<IdChannel<F>, F>>::Unravel, Representation = Vec<u8>> + Format<
        <T1 as Protocol<IdChannel<F>, F>>::Coalesce,
        Representation = Vec<u8>,
    > + Format<<T2 as Protocol<IdChannel<F>, F>>::Unravel, Representation = Vec<u8>> + Format<
        <T2 as Protocol<IdChannel<F>, F>>::Coalesce,
        Representation = Vec<u8>,
    > + Format<<T3 as Protocol<IdChannel<F>, F>>::Unravel, Representation = Vec<u8>> + Format<
        <T3 as Protocol<IdChannel<F>, F>>::Coalesce,
        Representation = Vec<u8>,
    > + Format<<T4 as Protocol<IdChannel<F>, F>>::Unravel, Representation = Vec<u8>> + Format<
        <T4 as Protocol<IdChannel<F>, F>>::Coalesce,
        Representation = Vec<u8>,
    > + Format<<T5 as Protocol<IdChannel<F>, F>>::Unravel, Representation = Vec<u8>> + Format<
        <T5 as Protocol<IdChannel<F>, F>>::Coalesce,
        Representation = Vec<u8>,
    > + Format<<T6 as Protocol<IdChannel<F>, F>>::Unravel, Representation = Vec<u8>> + Format<
        <T6 as Protocol<IdChannel<F>, F>>::Coalesce,
        Representation = Vec<u8>,
    > + Format<<T7 as Protocol<IdChannel<F>, F>>::Unravel, Representation = Vec<u8>> + Format<
        <T7 as Protocol<IdChannel<F>, F>>::Coalesce,
        Representation = Vec<u8>,
    > + Format<<T8 as Protocol<IdChannel<F>, F>>::Unravel, Representation = Vec<u8>> + Format<
        <T8 as Protocol<IdChannel<F>, F>>::Coalesce,
        Representation = Vec<u8>,
    > + Format<<T9 as Protocol<IdChannel<F>, F>>::Unravel, Representation = Vec<u8>> + Format<
        <T9 as Protocol<IdChannel<F>, F>>::Coalesce,
        Representation = Vec<u8>,
    >,
    T1: Faithful<F> + Protocol<IdChannel<F>, F>,
    T2: Faithful<F> + Protocol<IdChannel<F>, F>,
    T3: Faithful<F> + Protocol<IdChannel<F>, F>,
    T4: Faithful<F> + Protocol<IdChannel<F>, F>,
    T5: Faithful<F> + Protocol<IdChannel<F>, F>,
    T6: Faithful<F> + Protocol<IdChannel<F>, F>,
    T7: Faithful<F> + Protocol<IdChannel<F>, F>,
    T8: Faithful<F> + Protocol<IdChannel<F>, F>,
    T9: Faithful<F> + Protocol<IdChannel<F>, F>,

    ensures
        <(T1, T2, T3, T4, T5, T6, T7, T8, T9) as Protocol<IdChannel<F>, F>>::coalescing(IdChannelFork::of(id), ctx).1 == ctx,
        <(T1, T2, T3, T4, T5, T6, T7, T8, T9) as Protocol<IdChannel<F>, F>>::coalescing(IdChannelFork::of(id), ctx).0
            == <(T1, T2, T3, T4, T5, T6, T7, T8, T9) as Protocol<IdChannel<F>, F>>::coalescing(IdChannelFork::of(id), other).0,
        trace_9(value, id, next, format) is Some && ctx.holds(
            trace_9(value, id, next, format)->0.items,
            id,
            next,
            trace_9(value, id, next, format)->0.next,
        ) ==> ({
            let start = <(T1, T2, T3, T4, T5, T6, T7, T8, T9) as Protocol<IdChannel<F>, F>>::coalescing(
                IdChannelFork::of(id),
                ctx,
            );
            let step = start.0.polled(start.1);
            &&& start.0.unresolved()
            &&& step.2 == Poll::Ready(
                Ok::<(T1, T2, T3, T4, T5, T6, T7, T8, T9), <(T1, T2, T3, T4, T5, T6, T7, T8, T9) as Protocol<IdChannel<F>, F>>::CoalesceError>(value),
            )
            &&& step.1.with_format(ctx.format) == ctx.rebuilt(
                id,
                next,
                trace_9(value, id, next, format)->0.next,
            )
            &&& step.1.wf()
        }),
{
    lemma_trace_9(value, id, next, format);
    <Cons<T1, Cons<T2, Cons<T3, Cons<T4, Cons<T5, Cons<T6, Cons<T7, Cons<T8, Cons<T9, Nil>>>>>>>>> as Faithful<F>>::law_idle(id, ctx, other);
    if trace_9(value, id, next, format) is Some && ctx.holds(
        trace_9(value, id, next, format)->0.items,
        id,
        next,
        trace_9(value, id, next, format)->0.next,
    ) {
        value.list().law_coalesce(id, next, format, ctx);
        value.lemma_list();
    }
}

impl<F, T1, T2, T3, T4, T5, T6, T7, T8, T9> Faithful<F> for (T1, T2, T3, T4, T5, T6, T7, T8, T9) where
    F: Lossless<ForkHandle> + Format<ForkHandle, Representation = Vec<u8>> + Format<
        Bottom,
        Representation = Vec<u8>,
    > + Format<<T1 as Protocol<IdChannel<F>, F>>::Unravel, Representation = Vec<u8>> + Format<
        <T1 as Protocol<IdChannel<F>, F>>::Coalesce,
        Representation = Vec<u8>,
    > + Format<<T2 as Protocol<IdChannel<F>, F>>::Unravel, Representation = Vec<u8>> + Format<
        <T2 as Protocol<IdChannel<F>, F>>::Coalesce,
        Representation = Vec<u8>,
    > + Format<<T3 as Protocol<IdChannel<F>, F>>::Unravel, Representation = Vec<u8>> + Format<
        <T3 as Protocol<IdChannel<F>, F>>::Coalesce,
        Representation = Vec<u8>,
    > + Format<<T4 as Protocol<IdChannel<F>, F>>::Unravel, Representation = Vec<u8>> + Format<
        <T4 as Protocol<IdChannel<F>, F>>::Coalesce,
        Representation = Vec<u8>,
    > + Format<<T5 as Protocol<IdChannel<F>, F>>::Unravel, Representation = Vec<u8>> + Format<
        <T5 as Protocol<IdChannel<F>, F>>::Coalesce,
        Representation = Vec<u8>,
    > + Format<<T6 as Protocol<IdChannel<F>, F>>::Unravel, Representation = Vec<u8>> + Format<
        <T6 as Protocol<IdChannel<F>, F>>::Coalesce,
        Representation = Vec<u8>,
    > + Format<<T7 as Protocol<IdChannel<F>, F>>::Unravel, Representation = Vec<u8>> + Format<
        <T7 as Protocol<IdChannel<F>, F>>::Coalesce,
        Representation = Vec<u8>,
    > + Format<<T8 as Protocol<IdChannel<F>, F>>::Unravel, Representation = Vec<u8>> + Format<
        <T8 as Protocol<IdChannel<F>, F>>::Coalesce,
        Representation = Vec<u8>,
    > + Format<<T9 as Protocol<IdChannel<F>, F>>::Unravel, Representation = Vec<u8>> + Format<
        <T9 as Protocol<IdChannel<F>, F>>::Coalesce,
        Representation = Vec<u8>,
    >,
    T1: Faithful<F> + Protocol<IdChannel<F>, F>,
    T2: Faithful<F> + Protocol<IdChannel<F>, F>,
    T3: Faithful<F> + Protocol<IdChannel<F>, F>,
    T4: Faithful<F> + Protocol<IdChannel<F>, F>,
    T5: Faithful<F> + Protocol<IdChannel<F>, F>,
    T6: Faithful<F> + Protocol<IdChannel<F>, F>,
    T7: Faithful<F> + Protocol<IdChannel<F>, F>,
    T8: Faithful<F> + Protocol<IdChannel<F>, F>,
    T9: Faithful<F> + Protocol<IdChannel<F>, F>,
 {
    open spec fn trace(self, id: u32, next: nat, format: F) -> Option<Trace<F>> {
        trace_9(self, id, next, format)
    }

    proof fn law_trace(self, id: u32, next: nat, format: F) {
        lemma_trace_9(self, id, next, format);
        self.list().law_trace(id, next, format);
    }

    proof fn law_unravel(self, ctx: Model<F>, id: u32) {
        lemma_unravel_9(self, ctx, id);
    }

    proof fn law_resolve(self, ctx: Model<F>, id: u32) {
        lemma_unravel_9(self, ctx, id);
    }

    proof fn law_cancel(self, ctx: Model<F>, id: u32) {
        lemma_unravel_9(self, ctx, id);
    }

    proof fn law_idle(id: u32, ctx: Model<F>, other: Model<F>) {
        lemma_coalesce_9::<F, T1, T2, T3, T4, T5, T6, T7, T8, T9>(arbitrary(), id, 0, arbitrary(), ctx, other);
    }

    proof fn law_coalesce(self, id: u32, next: nat, format: F, ctx: Model<F>) {
        lemma_coalesce_9(self, id, next, format, ctx, ctx);
    }
}

/// What sending a tuple of ten leaves behind: for each component in
/// turn, the trace of the component on a sub-channel of its own and then
/// its handle on the sub-channel of the tuple.
pub open spec fn trace_10<
    F: Format<ForkHandle, Representation = Vec<u8>>,
    T1: Faithful<F>,
    T2: Faithful<F>,
    T3: Faithful<F>,
    T4: Faithful<F>,
    T5: Faithful<F>,
    T6: Faithful<F>,
    T7: Faithful<F>,
    T8: Faithful<F>,
    T9: Faithful<F>,
    T10: Faithful<F>,
>(value: (T1, T2, T3, T4, T5, T6, T7, T8, T9, T10), id: u32, next: nat, format: F) -> Option<Trace<F>> {
    then(
        then(
            then(
                then(
                    then(
                        then(
                            then(
                                then(
                                    then(
                                        then(
                                            nothing(next, format),
                                            value.0,
                                            id,
                                        ),
                                        value.1,
                                        id,
                                    ),
                                    value.2,
                                    id,
                                ),
                                value.3,
                                id,
                            ),
                            value.4,
                            id,
                        ),
                        value.5,
                        id,
                    ),
                    value.6,
                    id,
                ),
                value.7,
                id,
            ),
            value.8,
            id,
        ),
        value.9,
        id,
    )
}

/// The trace of a tuple of ten is the trace of the list of its
/// components.
pub proof fn lemma_trace_10<F, T1, T2, T3, T4, T5, T6, T7, T8, T9, T10>(value: (T1, T2, T3, T4, T5, T6, T7, T8, T9, T10), id: u32, next: nat, format: F) where
    F: Lossless<ForkHandle> + Format<ForkHandle, Representation = Vec<u8>> + Format<
        Bottom,
        Representation = Vec<u8>,
    > + Format<<T1 as Protocol<IdChannel<F>, F>>::Unravel, Representation = Vec<u8>> + Format<
        <T1 as Protocol<IdChannel<F>, F>>::Coalesce,
        Representation = Vec<u8>,
    > + Format<<T2 as Protocol<IdChannel<F>, F>>::Unravel, Representation = Vec<u8>> + Format<
        <T2 as Protocol<IdChannel<F>, F>>::Coalesce,
        Representation = Vec<u8>,
    > + Format<<T3 as Protocol<IdChannel<F>, F>>::Unravel, Representation = Vec<u8>> + Format<
        <T3 as Protocol<IdChannel<F>, F>>::Coalesce,
        Representation = Vec<u8>,
    > + Format<<T4 as Protocol<IdChannel<F>, F>>::Unravel, Representation = Vec<u8>> + Format<
        <T4 as Protocol<IdChannel<F>, F>>::Coalesce,
        Representation = Vec<u8>,
    > + Format<<T5 as Protocol<IdChannel<F>, F>>::Unravel, Representation = Vec<u8>> + Format<
        <T5 as Protocol<IdChannel<F>, F>>::Coalesce,
        Representation = Vec<u8>,
    > + Format<<T6 as Protocol<IdChannel<F>, F>>::Unravel, Representation = Vec<u8>> + Format<
        <T6 as Protocol<IdChannel<F>, F>>::Coalesce,
        Representation = Vec<u8>,
    > + Format<<T7 as Protocol<IdChannel<F>, F>>::Unravel, Representation = Vec<u8>> + Format<
        <T7 as Protocol<IdChannel<F>, F>>::Coalesce,
        Representation = Vec<u8>,
    > + Format<<T8 as Protocol<IdChannel<F>, F>>::Unravel, Representation = Vec<u8>> + Format<
        <T8 as Protocol<IdChannel<F>, F>>::Coalesce,
        Representation = Vec<u8>,
    > + Format<<T9 as Protocol<IdChannel<F>, F>>::Unravel, Representation = Vec<u8>> + Format<
        <T9 as Protocol<IdChannel<F>, F>>::Coalesce,
        Representation = Vec<u8>,
    > + Format<<T10 as Protocol<IdChannel<F>, F>>::Unravel, Representation = Vec<u8>> + Format<
        <T10 as Protocol<IdChannel<F>, F>>::Coalesce,
        Representation = Vec<u8>,
    >,
    T1: Faithful<F> + Protocol<IdChannel<F>, F>,
    T2: Faithful<F> + Protocol<IdChannel<F>, F>,
    T3: Faithful<F> + Protocol<IdChannel<F>, F>,
    T4: Faithful<F> + Protocol<IdChannel<F>, F>,
    T5: Faithful<F> + Protocol<IdChannel<F>, F>,
    T6: Faithful<F> + Protocol<IdChannel<F>, F>,
    T7: Faithful<F> + Protocol<IdChannel<F>, F>,
    T8: Faithful<F> + Protocol<IdChannel<F>, F>,
    T9: Faithful<F> + Protocol<IdChannel<F>, F>,
    T10: Faithful<F> + Protocol<IdChannel<F>, F>,

    ensures
        trace_10(value, id, next, format) == value.list().trace(id, next, format),
{
    let s0 = nothing(next, format);
    let s1 = then(s0, value.0, id);
    let s2 = then(s1, value.1, id);
    let s3 = then(s2, value.2, id);
    let s4 = then(s3, value.3, id);
    let s5 = then(s4, value.4, id);
    let s6 = then(s5, value.5, id);
    let s7 = then(s6, value.6, id);
    let s8 = then(s7, value.7, id);
    let s9 = then(s8, value.8, id);
    let s10 = then(s9, value.9, id);
    lemma_followed_start(value.list(), id, next, format);
    lemma_followed_cons(s0, Cons(value.0, Cons(value.1, Cons(value.2, Cons(value.3, Cons(value.4, Cons(value.5, Cons(value.6, Cons(value.7, Cons(value.8, Cons(value.9, Nil)))))))))), id);
    lemma_followed_cons(s1, Cons(value.1, Cons(value.2, Cons(value.3, Cons(value.4, Cons(value.5, Cons(value.6, Cons(value.7, Cons(value.8, Cons(value.9, Nil))))))))), id);
    lemma_followed_cons(s2, Cons(value.2, Cons(value.3, Cons(value.4, Cons(value.5, Cons(value.6, Cons(value.7, Cons(value.8, Cons(value.9, Nil)))))))), id);
    lemma_followed_cons(s3, Cons(value.3, Cons(value.4, Cons(value.5, Cons(value.6, Cons(value.7, Cons(value.8, Cons(value.9, Nil))))))), id);
    lemma_followed_cons(s4, Cons(value.4, Cons(value.5, Cons(value.6, Cons(value.7, Cons(value.8, Cons(value.9, Nil)))))), id);
    lemma_followed_cons(s5, Cons(value.5, Cons(value.6, Cons(value.7, Cons(value.8, Cons(value.9, Nil))))), id);
    lemma_followed_cons(s6, Cons(value.6, Cons(value.7, Cons(value.8, Cons(value.9, Nil)))), id);
    lemma_followed_cons(s7, Cons(value.7, Cons(value.8, Cons(value.9, Nil))), id);
    lemma_followed_cons(s8, Cons(value.8, Cons(value.9, Nil)), id);
    lemma_followed_cons(s9, Cons(value.9, Nil), id);
    lemma_then_bound(s9, value.9, id);
    lemma_followed_nil(s10, id);
}

/// Unraveling a tuple of ten resolves at the first poll and leaves
/// the live registry as it was; it leaves its trace if all of it could be sent.
/// Given up before, it leaves the live registry as it was.
pub proof fn lemma_unravel_10<F, T1, T2, T3, T4, T5, T6, T7, T8, T9, T10>(value: (T1, T2, T3, T4, T5, T6, T7, T8, T9, T10), ctx: Model<F>, id: u32) where
    F: Lossless<ForkHandle> + Format<ForkHandle, Representation = Vec<u8>> + Format<
        Bottom,
        Representation = Vec<u8>,
    > + Format<<T1 as Protocol<IdChannel<F>, F>>::Unravel, Representation = Vec<u8>> + Format<
        <T1 as Protocol<IdChannel<F>, F>>::Coalesce,
        Representation = Vec<u8>,
    > + Format<<T2 as Protocol<IdChannel<F>, F>>::Unravel, Representation = Vec<u8>> + Format<
        <T2 as Protocol<IdChannel<F>, F>>::Coalesce,
        Representation = Vec<u8>,
    > + Format<<T3 as Protocol<IdChannel<F>, F>>::Unravel, Representation = Vec<u8>> + Format<
        <T3 as Protocol<IdChannel<F>, F>>::Coalesce,
        Representation = Vec<u8>,
    > + Format<<T4 as Protocol<IdChannel<F>, F>>::Unravel, Representation = Vec<u8>> + Format<
        <T4 as Protocol<IdChannel<F>, F>>::Coalesce,
        Representation = Vec<u8>,
    > + Format<<T5 as Protocol<IdChannel<F>, F>>::Unravel, Representation = Vec<u8>> + Format<
        <T5 as Protocol<IdChannel<F>, F>>::Coalesce,
        Representation = Vec<u8>,
    > + Format<<T6 as Protocol<IdChannel<F>, F>>::Unravel, Representation = Vec<u8>> + Format<
        <T6 as Protocol<IdChannel<F>, F>>::Coalesce,
        Representation = Vec<u8>,
    > + Format<<T7 as Protocol<IdChannel<F>, F>>::Unravel, Representation = Vec<u8>> + Format<
        <T7 as Protocol<IdChannel<F>, F>>::Coalesce,
        Representation = Vec<u8>,
    > + Format<<T8 as Protocol<IdChannel<F>, F>>::Unravel, Representation = Vec<u8>> + Format<
        <T8 as Protocol<IdChannel<F>, F>>::Coalesce,
        Representation = Vec<u8>,
    > + Format<<T9 as Protocol<IdChannel<F>, F>>::Unravel, Representation = Vec<u8>> + Format<
        <T9 as Protocol<IdChannel<F>, F>>::Coalesce,
        Representation = Vec<u8>,
    > + Format<<T10 as Protocol<IdChannel<F>, F>>::Unravel, Representation = Vec<u8>> + Format<
        <T10 as Protocol<IdChannel<F>, F>>::Coalesce,
        Representation = Vec<u8>,
    >,
    T1: Faithful<F> + Protocol<IdChannel<F>, F>,
    T2: Faithful<F> + Protocol<IdChannel<F>, F>,
    T3: Faithful<F> + Protocol<IdChannel<F>, F>,
    T4: Faithful<F> + Protocol<IdChannel<F>, F>,
    T5: Faithful<F> + Protocol<IdChannel<F>, F>,
    T6: Faithful<F> + Protocol<IdChannel<F>, F>,
    T7: Faithful<F> + Protocol<IdChannel<F>, F>,
    T8: Faithful<F> + Protocol<IdChannel<F>, F>,
    T9: Faithful<F> + Protocol<IdChannel<F>, F>,
    T10: Faithful<F> + Protocol<IdChannel<F>, F>,

    requires
        ctx.wf(),
    ensures
        ({
            let start = <(T1, T2, T3, T4, T5, T6, T7, T8, T9, T10) as Protocol<IdChannel<F>, F>>::unraveling(
                value,
                IdChannelFork::of(id),
                ctx,
            );
            let step = start.0.polled(start.1);
            &&& start.0.cancelled(start.1).sinks == ctx.sinks
            &&& start.0.cancelled(start.1).wf()
            &&& step.2 is Ready
            &&& step.1.sinks == ctx.sinks
            &&& step.1.wf()
            &&& ctx.sinks.contains_key(id) && trace_10(value, id, ctx.next, ctx.format) is Some
                ==> {
                &&& start.0.unresolved()
                &&& step.2 == Poll::Ready(
                    Ok::<(), <(T1, T2, T3, T4, T5, T6, T7, T8, T9, T10) as Protocol<IdChannel<F>, F>>::UnravelError>(()),
                )
                &&& step.1 == ctx.sent(trace_10(value, id, ctx.next, ctx.format)->0)
                &&& step.1.wf()
            }
        }),
{
    lemma_trace_10(value, id, ctx.next, ctx.format);
    value.list().law_cancel(ctx, id);
    value.list().law_resolve(ctx, id);
    if ctx.sinks.contains_key(id) && trace_10(value, id, ctx.next, ctx.format) is Some {
        value.list().law_unravel(ctx, id);
    }
}

/// Coalescing a tuple of ten from an endpoint that holds what unraveling
/// it left resolves at the first poll to the tuple; starting to coalesce
/// touches nothing.
pub proof fn lemma_coalesce_10<F, T1, T2, T3, T4, T5, T6, T7, T8, T9, T10>(
    value: (T1, T2, T3, T4, T5, T6, T7, T8, T9, T10),
    id: u32,
    next: nat,
    format: F,
    ctx: Model<F>,
    other: Model<F>,
) where
    F: Lossless<ForkHandle> + Format<ForkHandle, Representation = Vec<u8>> + Format<
        Bottom,
        Representation = Vec<u8>,
    > + Format<<T1 as Protocol<IdChannel<F>, F>>::Unravel, Representation = Vec<u8>> + Format<
        <T1 as Protocol<IdChannel<F>, F>>::Coalesce,
        Representation = Vec<u8>,
    > + Format<<T2 as Protocol<IdChannel<F>, F>>::Unravel, Representation = Vec<u8>> + Format<
        <T2 as Protocol<IdChannel<F>, F>>::Coalesce,
        Representation = Vec<u8>,
    > + Format<<T3 as Protocol<IdChannel<F>, F>>::Unravel, Representation = Vec<u8>> + Format<
        <T3 as Protocol<IdChannel<F>, F>>::Coalesce,
        Representation = Vec<u8>,
    > + Format<<T4 as Protocol<IdChannel<F>, F>>::Unravel, Representation = Vec<u8>> + Format<
        <T4 as Protocol<IdChannel<F>, F>>::Coalesce,
        Representation = Vec<u8>,
    > + Format<<T5 as Protocol<IdChannel<F>, F>>::Unravel, Representation = Vec<u8>> + Format<
        <T5 as Protocol<IdChannel<F>, F>>::Coalesce,
        Representation = Vec<u8>,
    > + Format<<T6 as Protocol<IdChannel<F>, F>>::Unravel, Representation = Vec<u8>> + Format<
        <T6 as Protocol<IdChannel<F>, F>>::Coalesce,
        Representation = Vec<u8>,
    > + Format<<T7 as Protocol<IdChannel<F>, F>>::Unravel, Representation = Vec<u8>> + Format<
        <T7 as Protocol<IdChannel<F>, F>>::Coalesce,
        Representation = Vec<u8>,
    > + Format<<T8 as Protocol<IdChannel<F>, F>>::Unravel, Representation = Vec<u8>> + Format<
        <T8 as Protocol<IdChannel<F>, F>>::Coalesce,
        Representation = Vec<u8>,
    > + Format<<T9 as Protocol<IdChannel<F>, F>>::Unravel, Representation = Vec<u8>> + Format<
        <T9 as Protocol<IdChannel<F>, F>>::Coalesce,
        Representation = Vec<u8>,
    > + Format<<T10 as Protocol<IdChannel<F>, F>>::Unravel, Representation = Vec<u8>> + Format<
        <T10 as Protocol<IdChannel<F>, F>>::Coalesce,
        Representation = Vec<u8>,
    >,
    T1: Faithful<F> + Protocol<IdChannel<F>, F>,
    T2: Faithful<F> + Protocol<IdChannel<F>, F>,
    T3: Faithful<F> + Protocol<IdChannel<F>, F>,
    T4: Faithful<F> + Protocol<IdChannel<F>, F>,
    T5: Faithful<F> + Protocol<IdChannel<F>, F>,
    T6: Faithful<F> + Protocol<IdChannel<F>, F>,
    T7: Faithful<F> + Protocol<IdChannel<F>, F>,
    T8: Faithful<F> + Protocol<IdChannel<F>, F>,
    T9: Faithful<F> + Protocol<IdChannel<F>, F>,
    T10: Faithful<F> + Protocol<IdChannel<F>, F>,

    ensures
        <(T1, T2, T3, T4, T5, T6, T7, T8, T9, T10) as Protocol<IdChannel<F>, F>>::coalescing(IdChannelFork::of(id), ctx).1 == ctx,
        <(T1, T2, T3, T4, T5, T6, T7, T8, T9, T10) as Protocol<IdChannel<F>, F>>::coalescing(IdChannelFork::of(id), ctx).0
            == <(T1, T2, T3, T4, T5, T6, T7, T8, T9, T10) as Protocol<IdChannel<F>, F>>::coalescing(IdChannelFork::of(id), other).0,
        trace_10(value, id, next, format) is Some && ctx.holds(
            trace_10(value, id, next, format)->0.items,
            id,
            next,
            trace_10(value, id, next, format)->0.next,
        ) ==> ({
            let start = <(T1, T2, T3, T4, T5, T6, T7, T8, T9, T10) as Protocol<IdChannel<F>, F>>::coalescing(
                IdChannelFork::of(id),
                ctx,
            );
            let step = start.0.polled(start.1);
            &&& start.0.unresolved()
            &&& step.2 == Poll::Ready(
                Ok::<(T1, T2, T3, T4, T5, T6, T7, T8, T9, T10), <(T1, T2, T3, T4, T5, T6, T7, T8, T9, T10) as Protocol<IdChannel<F>, F>>::CoalesceError>(value),
            )
            &&& step.1.with_format(ctx.format) == ctx.rebuilt(
                id,
                next,
                trace_10(value, id, next, format)->0.next,
            )
            &&& step.1.wf()
        }),
{
    lemma_trace_10(value, id, next, format);
    <Cons<T1, Cons<T2, Cons<T3, Cons<T4, Cons<T5, Cons<T6, Cons<T7, Cons<T8, Cons<T9, Cons<T10, Nil>>>>>>>>>> as Faithful<F>>::law_idle(id, ctx, other);
    if trace_10(value, id, next, format) is Some && ctx.holds(
        trace_10(value, id, next, format)->0.items,
        id,
        next,
        trace_10(value, id, next, format)->0.next,
    ) {
        value.list().law_coalesce(id, next, format, ctx);
        value.lemma_list();
    }
}

impl<F, T1, T2, T3, T4, T5, T6, T7, T8, T9, T10> Faithful<F> for (T1, T2, T3, T4, T5, T6, T7, T8, T9, T10) where
    F: Lossless<ForkHandle> + Format<ForkHandle, Representation = Vec<u8>> + Format<
        Bottom,
        Representation = Vec<u8>,
    > + Format<<T1 as Protocol<IdChannel<F>, F>>::Unravel, Representation = Vec<u8>> + Format<
        <T1 as Protocol<IdChannel<F>, F>>::Coalesce,
        Representation = Vec<u8>,
    > + Format<<T2 as Protocol<IdChannel<F>, F>>::Unravel, Representation = Vec<u8>> + Format<
        <T2 as Protocol<IdChannel<F>, F>>::Coalesce,
        Representation = Vec<u8>,
    > + Format<<T3 as Protocol<IdChannel<F>, F>>::Unravel, Representation = Vec<u8>> + Format<
        <T3 as Protocol<IdChannel<F>, F>>::Coalesce,
        Representation = Vec<u8>,
    > + Format<<T4 as Protocol<IdChannel<F>, F>>::Unravel, Representation = Vec<u8>> + Format<
        <T4 as Protocol<IdChannel<F>, F>>::Coalesce,
        Representation = Vec<u8>,
    > + Format<<T5 as Protocol<IdChannel<F>, F>>::Unravel, Representation = Vec<u8>> + Format<
        <T5 as Protocol<IdChannel<F>, F>>::Coalesce,
        Representation = Vec<u8>,
    > + Format<<T6 as Protocol<IdChannel<F>, F>>::Unravel, Representation = Vec<u8>> + Format<
        <T6 as Protocol<IdChannel<F>, F>>::Coalesce,
        Representation = Vec<u8>,
    > + Format<<T7 as Protocol<IdChannel<F>, F>>::Unravel, Representation = Vec<u8>> + Format<
        <T7 as Protocol<IdChannel<F>, F>>::Coalesce,
        Representation = Vec<u8>,
    > + Format<<T8 as Protocol<IdChannel<F>, F>>::Unravel, Representation = Vec<u8>> + Format<
        <T8 as Protocol<IdChannel<F>, F>>::Coalesce,
        Representation = Vec<u8>,
    > + Format<<T9 as Protocol<IdChannel<F>, F>>::Unravel, Representation = Vec<u8>> + Format<
        <T9 as Protocol<IdChannel<F>, F>>::Coalesce,
        Representation = Vec<u8>,
    > + Format<<T10 as Protocol<IdChannel<F>, F>>::Unravel, Representation = Vec<u8>> + Format<
        <T10 as Protocol<IdChannel<F>, F>>::Coalesce,
        Representation = Vec<u8>,
    >,
    T1: Faithful<F> + Protocol<IdChannel<F>, F>,
    T2: Faithful<F> + Protocol<IdChannel<F>, F>,
    T3: Faithful<F> + Protocol<IdChannel<F>, F>,
    T4: Faithful<F> + Protocol<IdChannel<F>, F>,
    T5: Faithful<F> + Protocol<IdChannel<F>, F>,
    T6: Faithful<F> + Protocol<IdChannel<F>, F>,
    T7: Faithful<F> + Protocol<IdChannel<F>, F>,
    T8: Faithful<F> + Protocol<IdChannel<F>, F>,
    T9: Faithful<F> + Protocol<IdChannel<F>, F>,
    T10: Faithful<F> + Protocol<IdChannel<F>, F>,
 {
    open spec fn trace(self, id: u32, next: nat, format: F) -> Option<Trace<F>> {
        trace_10(self, id, next, format)
    }

    proof fn law_trace(self, id: u32, next: nat, format: F) {
        lemma_trace_10(self, id, next, format);
        self.list().law_trace(id, next, format);
    }

    proof fn law_unravel(self, ctx: Model<F>, id: u32) {
        lemma_unravel_10(self, ctx, id);
    }

    proof fn law_resolve(self, ctx: Model<F>, id: u32) {
        lemma_unravel_10(self, ctx, id);
    }

    proof fn law_cancel(self, ctx: Model<F>, id: u32) {
        lemma_unravel_10(self, ctx, id);
    }

    proof fn law_idle(id: u32, ctx: Model<F>, other: Model<F>) {
        lemma_coalesce_10::<F, T1, T2, T3, T4, T5, T6, T7, T8, T9, T10>(arbitrary(), id, 0, arbitrary(), ctx, other);
    }

    proof fn law_coalesce(self, id: u32, next: nat, format: F, ctx: Model<F>) {
        lemma_coalesce_10(self, id, next, format, ctx, ctx);
    }
}

/// What sending a tuple of eleven leaves behind: for each component in
/// turn, the trace of the component on a sub-channel of its own and then
/// its handle on the sub-channel of the tuple.
pub open spec fn trace_11<
    F: Format<ForkHandle, Representation = Vec<u8>>,
    T1: Faithful<F>,
    T2: Faithful<F>,
    T3: Faithful<F>,
    T4: Faithful<F>,
    T5: Faithful<F>,
    T6: Faithful<F>,
    T7: Faithful<F>,
    T8: Faithful<F>,
    T9: Faithful<F>,
    T10: Faithful<F>,
    T11: Faithful<F>,
>(value: (T1, T2, T3, T4, T5, T6, T7, T8, T9, T10, T11), id: u32, next: nat, format: F) -> Option<Trace<F>> {
    then(
        then(
            then(
                then(
                    then(
                        then(
                            then(
                                then(
                                    then(
                                        then(
                                            then(
                                                nothing(next, format),
                                                value.0,
                                                id,
                                            ),
                                            value.1,
                                            id,
                                        ),
                                        value.2,
                                        id,
                                    ),
                                    value.3,
                                    id,
                                ),
                                value.4,
                                id,
                            ),
                            value.5,
                            id,
                        ),
                        value.6,
                        id,
                    ),
                    value.7,
                    id,
                ),
                value.8,
                id,
            ),
            value.9,
            id,
        ),
        value.10,
        id,
    )
}

/// The trace of a tuple of eleven is the trace of the list of its
/// components.
pub proof fn lemma_trace_11<F, T1, T2, T3, T4, T5, T6, T7, T8, T9, T10, T11>(value: (T1, T2, T3, T4, T5, T6, T7, T8, T9, T10, T11), id: u32, next: nat, format: F) where
    F: Lossless<ForkHandle> + Format<ForkHandle, Representation = Vec<u8>> + Format<
        Bottom,
        Representation = Vec<u8>,
    > + Format<<T1 as Protocol<IdChannel<F>, F>>::Unravel, Representation = Vec<u8>> + Format<
        <T1 as Protocol<IdChannel<F>, F>>::Coalesce,
        Representation = Vec<u8>,
    > + Format<<T2 as Protocol<IdChannel<F>, F>>::Unravel, Representation = Vec<u8>> + Format<
        <T2 as Protocol<IdChannel<F>, F>>::Coalesce,
        Representation = Vec<u8>,
    > + Format<<T3 as Protocol<IdChannel<F>, F>>::Unravel, Representation = Vec<u8>> + Format<
        <T3 as Protocol<IdChannel<F>, F>>::Coalesce,
        Representation = Vec<u8>,
    > + Format<<T4 as Protocol<IdChannel<F>, F>>::Unravel, Representation = Vec<u8>> + Format<
        <T4 as Protocol<IdChannel<F>, F>>::Coalesce,
        Representation = Vec<u8>,
    > + Format<<T5 as Protocol<IdChannel<F>, F>>::Unravel, Representation = Vec<u8>> + Format<
        <T5 as Protocol<IdChannel<F>, F>>::Coalesce,
        Representation = Vec<u8>,
    > + Format<<T6 as Protocol<IdChannel<F>, F>>::Unravel, Representation = Vec<u8>> + Format<
        <T6 as Protocol<IdChannel<F>, F>>::Coalesce,
        Representation = Vec<u8>,
    > + Format<<T7 as Protocol<IdChannel<F>, F>>::Unravel, Representation = Vec<u8>> + Format<
        <T7 as Protocol<IdChannel<F>, F>>::Coalesce,
        Representation = Vec<u8>,
    > + Format<<T8 as Protocol<IdChannel<F>, F>>::Unravel, Representation = Vec<u8>> + Format<
        <T8 as Protocol<IdChannel<F>, F>>::Coalesce,
        Representation = Vec<u8>,
    > + Format<<T9 as Protocol<IdChannel<F>, F>>::Unravel, Representation = Vec<u8>> + Format<
        <T9 as Protocol<IdChannel<F>, F>>::Coalesce,
        Representation = Vec<u8>,
    > + Format<<T10 as Protocol<IdChannel<F>, F>>::Unravel, Representation = Vec<u8>> + Format<
        <T10 as Protocol<IdChannel<F>, F>>::Coalesce,
        Representation = Vec<u8>,
    > + Format<<T11 as Protocol<IdChannel<F>, F>>::Unravel, Representation = Vec<u8>> + Format<
        <T11 as Protocol<IdChannel<F>, F>>::Coalesce,
        Representation = Vec<u8>,
    >,
    T1: Faithful<F> + Protocol<IdChannel<F>, F>,
    T2: Faithful<F> + Protocol<IdChannel<F>, F>,
    T3: Faithful<F> + Protocol<IdChannel<F>, F>,
    T4: Faithful<F> + Protocol<IdChannel<F>, F>,
    T5: Faithful<F> + Protocol<IdChannel<F>, F>,
    T6: Faithful<F> + Protocol<IdChannel<F>, F>,
    T7: Faithful<F> + Protocol<IdChannel<F>, F>,
    T8: Faithful<F> + Protocol<IdChannel<F>, F>,
    T9: Faithful<F> + Protocol<IdChannel<F>, F>,
    T10: Faithful<F> + Protocol<IdChannel<F>, F>,
    T11: Faithful<F> + Protocol<IdChannel<F>, F>,

    ensures
        trace_11(value, id, next, format) == value.list().trace(id, next, format),
{
    let s0 = nothing(next, format);
    let s1 = then(s0, value.0, id);
    let s2 = then(s1, value.1, id);
    let s3 = then(s2, value.2, id);
    let s4 = then(s3, value.3, id);
    let s5 = then(s4, value.4, id);
    let s6 = then(s5, value.5, id);
    let s7 = then(s6, value.6, id);
    let s8 = then(s7, value.7, id);
    let s9 = then(s8, value.8, id);
    let s10 = then(s9, value.9, id);
    let s11 = then(s10, value.10, id);
    lemma_followed_start(value.list(), id, next, format);
    lemma_followed_cons(s0, Cons(value.0, Cons(value.1, Cons(value.2, Cons(value.3, Cons(value.4, Cons(value.5, Cons(value.6, Cons(value.7, Cons(value.8, Cons(value.9, Cons(value.10, Nil))))))))))), id);
    lemma_followed_cons(s1, Cons(value.1, Cons(value.2, Cons(value.3, Cons(value.4, Cons(value.5, Cons(value.6, Cons(value.7, Cons(value.8, Cons(value.9, Cons(value.10, Nil)))))))))), id);
    lemma_followed_cons(s2, Cons(value.2, Cons(value.3, Cons(value.4, Cons(value.5, Cons(value.6, Cons(value.7, Cons(value.8, Cons(value.9, Cons(value.10, Nil))))))))), id);
    lemma_followed_cons(s3, Cons(value.3, Cons(value.4, Cons(value.5, Cons(value.6, Cons(value.7, Cons(value.8, Cons(value.9, Cons(value.10, Nil)))))))), id);
    lemma_followed_cons(s4, Cons(value.4, Cons(value.5, Cons(value.6, Cons(value.7, Cons(value.8, Cons(value.9, Cons(value.10, Nil))))))), id);
    lemma_followed_cons(s5, Cons(value.5, Cons(value.6, Cons(value.7, Cons(value.8, Cons(value.9, Cons(value.10, Nil)))))), id);
    lemma_followed_cons(s6, Cons(value.6, Cons(value.7, Cons(value.8, Cons(value.9, Cons(value.10, Nil))))), id);
    lemma_followed_cons(s7, Cons(value.7, Cons(value.8, Cons(value.9, Cons(value.10, Nil)))), id);
    lemma_followed_cons(s8, Cons(value.8, Cons(value.9, Cons(value.10, Nil))), id);
    lemma_followed_cons(s9, Cons(value.9, Cons(value.10, Nil)), id);
    lemma_followed_cons(s10, Cons(value.10, Nil), id);
    lemma_then_bound(s10, value.10, id);
    lemma_followed_nil(s11, id);
}

/// Unraveling a tuple of eleven resolves at the first poll and leaves
/// the live registry as it was; it leaves its trace if all of it could be sent.
/// Given up before, it leaves the live registry as it was.
pub proof fn lemma_unravel_11<F, T1, T2, T3, T4, T5, T6, T7, T8, T9, T10, T11>(value: (T1, T2, T3, T4, T5, T6, T7, T8, T9, T10, T11), ctx: Model<F>, id: u32) where
    F: Lossless<ForkHandle> + Format<ForkHandle, Representation = Vec<u8>> + Format<
        Bottom,
        Representation = Vec<u8>,
    > + Format<<T1 as Protocol<IdChannel<F>, F>>::Unravel, Representation = Vec<u8>> + Format<
        <T1 as Protocol<IdChannel<F>, F>>::Coalesce,
        Representation = Vec<u8>,
    > + Format<<T2 as Protocol<IdChannel<F>, F>>::Unravel, Representation = Vec<u8>> + Format<
        <T2 as Protocol<IdChannel<F>, F>>::Coalesce,
        Representation = Vec<u8>,
    > + Format<<T3 as Protocol<IdChannel<F>, F>>::Unravel, Representation = Vec<u8>> + Format<
        <T3 as Protocol<IdChannel<F>, F>>::Coalesce,
        Representation = Vec<u8>,
    > + Format<<T4 as Protocol<IdChannel<F>, F>>::Unravel, Representation = Vec<u8>> + Format<
        <T4 as Protocol<IdChannel<F>, F>>::Coalesce,
        Representation = Vec<u8>,
    > + Format<<T5 as Protocol<IdChannel<F>, F>>::Unravel, Representation = Vec<u8>> + Format<
        <T5 as Protocol<IdChannel<F>, F>>::Coalesce,
        Representation = Vec<u8>,
    > + Format<<T6 as Protocol<IdChannel<F>, F>>::Unravel, Representation = Vec<u8>> + Format<
        <T6 as Protocol<IdChannel<F>, F>>::Coalesce,
        Representation = Vec<u8>,
    > + Format<<T7 as Protocol<IdChannel<F>, F>>::Unravel, Representation = Vec<u8>> + Format<
        <T7 as Protocol<IdChannel<F>, F>>::Coalesce,
        Representation = Vec<u8>,
    > + Format<<T8 as Protocol<IdChannel<F>, F>>::Unravel, Representation = Vec<u8>> + Format<
        <T8 as Protocol<IdChannel<F>, F>>::Coalesce,
        Representation = Vec<u8>,
    > + Format<<T9 as Protocol<IdChannel<F>, F>>::Unravel, Representation = Vec<u8>> + Format<
        <T9 as Protocol<IdChannel<F>, F>>::Coalesce,
        Representation = Vec<u8>,
    > + Format<<T10 as Protocol<IdChannel<F>, F>>::Unravel, Representation = Vec<u8>> + Format<
        <T10 as Protocol<IdChannel<F>, F>>::Coalesce,
        Representation = Vec<u8>,
    > + Format<<T11 as Protocol<IdChannel<F>, F>>::Unravel, Representation = Vec<u8>> + Format<
        <T11 as Protocol<IdChannel<F>, F>>::Coalesce,
        Representation = Vec<u8>,
    >,
    T1: Faithful<F> + Protocol<IdChannel<F>, F>,
    T2: Faithful<F> + Protocol<IdChannel<F>, F>,
    T3: Faithful<F> + Protocol<IdChannel<F>, F>,
    T4: Faithful<F> + Protocol<IdChannel<F>, F>,
    T5: Faithful<F> + Protocol<IdChannel<F>, F>,
    T6: Faithful<F> + Protocol<IdChannel<F>, F>,
    T7: Faithful<F> + Protocol<IdChannel<F>, F>,
    T8: Faithful<F> + Protocol<IdChannel<F>, F>,
    T9: Faithful<F> + Protocol<IdChannel<F>, F>,
    T10: Faithful<F> + Protocol<IdChannel<F>, F>,
    T11: Faithful<F> + Protocol<IdChannel<F>, F>,

    requires
        ctx.wf(),
    ensures
        ({
            let start = <(T1, T2, T3, T4, T5, T6, T7, T8, T9, T10, T11) as Protocol<IdChannel<F>, F>>::unraveling(
                value,
                IdChannelFork::of(id),
                ctx,
            );
            let step = start.0.polled(start.1);
            &&& start.0.cancelled(start.1).sinks == ctx.sinks
            &&& start.0.cancelled(start.1).wf()
            &&& step.2 is Ready
            &&& step.1.sinks == ctx.sinks
            &&& step.1.wf()
            &&& ctx.sinks.contains_key(id) && trace_11(value, id, ctx.next, ctx.format) is Some
                ==> {
                &&& start.0.unresolved()
                &&& step.2 == Poll::Ready(
                    Ok::<(), <(T1, T2, T3, T4, T5, T6, T7, T8, T9, T10, T11) as Protocol<IdChannel<F>, F>>::UnravelError>(()),
                )
                &&& step.1 == ctx.sent(trace_11(value, id, ctx.next, ctx.format)->0)
                &&& step.1.wf()
            }
        }),
{
    lemma_trace_11(value, id, ctx.next, ctx.format);
    value.list().law_cancel(ctx, id);
    value.list().law_resolve(ctx, id);
    if ctx.sinks.contains_key(id) && trace_11(value, id, ctx.next, ctx.format) is Some {
        value.list().law_unravel(ctx, id);
    }
}

/// Coalescing a tuple of eleven from an endpoint that holds what unraveling
/// it left resolves at the first poll to the tuple; starting to coalesce
/// touches nothing.
pub proof fn lemma_coalesce_11<F, T1, T2, T3, T4, T5, T6, T7, T8, T9, T10, T11>(
    value: (T1, T2, T3, T4, T5, T6, T7, T8, T9, T10, T11),
    id: u32,
    next: nat,
    format: F,
    ctx: Model<F>,
    other: Model<F>,
) where
    F: Lossless<ForkHandle> + Format<ForkHandle, Representation = Vec<u8>> + Format<
        Bottom,
        Representation = Vec<u8>,
    > + Format<<T1 as Protocol<IdChannel<F>, F>>::Unravel, Representation = Vec<u8>> + Format<
        <T1 as Protocol<IdChannel<F>, F>>::Coalesce,
        Representation = Vec<u8>,
    > + Format<<T2 as Protocol<IdChannel<F>, F>>::Unravel, Representation = Vec<u8>> + Format<
        <T2 as Protocol<IdChannel<F>, F>>::Coalesce,
        Representation = Vec<u8>,
    > + Format<<T3 as Protocol<IdChannel<F>, F>>::Unravel, Representation = Vec<u8>> + Format<
        <T3 as Protocol<IdChannel<F>, F>>::Coalesce,
        Representation = Vec<u8>,
    > + Format<<T4 as Protocol<IdChannel<F>, F>>::Unravel, Representation = Vec<u8>> + Format<
        <T4 as Protocol<IdChannel<F>, F>>::Coalesce,
        Representation = Vec<u8>,
    > + Format<<T5 as Protocol<IdChannel<F>, F>>::Unravel, Representation = Vec<u8>> + Format<
        <T5 as Protocol<IdChannel<F>, F>>::Coalesce,
        Representation = Vec<u8>,
    > + Format<<T6 as Protocol<IdChannel<F>, F>>::Unravel, Representation = Vec<u8>> + Format<
        <T6 as Protocol<IdChannel<F>, F>>::Coalesce,
        Representation = Vec<u8>,
    > + Format<<T7 as Protocol<IdChannel<F>, F>>::Unravel, Representation = Vec<u8>> + Format<
        <T7 as Protocol<IdChannel<F>, F>>::Coalesce,
        Representation = Vec<u8>,
    > + Format<<T8 as Protocol<IdChannel<F>, F>>::Unravel, Representation = Vec<u8>> + Format<
        <T8 as Protocol<IdChannel<F>, F>>::Coalesce,
        Representation = Vec<u8>,
    > + Format<<T9 as Protocol<IdChannel<F>, F>>::Unravel, Representation = Vec<u8>> + Format<
        <T9 as Protocol<IdChannel<F>, F>>::Coalesce,
        Representation = Vec<u8>,
    > + Format<<T10 as Protocol<IdChannel<F>, F>>::Unravel, Representation = Vec<u8>> + Format<
        <T10 as Protocol<IdChannel<F>, F>>::Coalesce,
        Representation = Vec<u8>,
    > + Format<<T11 as Protocol<IdChannel<F>, F>>::Unravel, Representation = Vec<u8>> + Format<
        <T11 as Protocol<IdChannel<F>, F>>::Coalesce,
        Representation = Vec<u8>,
    >,
    T1: Faithful<F> + Protocol<IdChannel<F>, F>,
    T2: Faithful<F> + Protocol<IdChannel<F>, F>,
    T3: Faithful<F> + Protocol<IdChannel<F>, F>,
    T4: Faithful<F> + Protocol<IdChannel<F>, F>,
    T5: Faithful<F> + Protocol<IdChannel<F>, F>,
    T6: Faithful<F> + Protocol<IdChannel<F>, F>,
    T7: Faithful<F> + Protocol<IdChannel<F>, F>,
    T8: Faithful<F> + Protocol<IdChannel<F>, F>,
    T9: Faithful<F> + Protocol<IdChannel<F>, F>,
    T10: Faithful<F> + Protocol<IdChannel<F>, F>,
    T11: Faithful<F> + Protocol<IdChannel<F>, F>,

    ensures
        <(T1, T2, T3, T4, T5, T6, T7, T8, T9, T10, T11) as Protocol<IdChannel<F>, F>>::coalescing(IdChannelFork::of(id), ctx).1 == ctx,
        <(T1, T2, T3, T4, T5, T6, T7, T8, T9, T10, T11) as Protocol<IdChannel<F>, F>>::coalescing(IdChannelFork::of(id), ctx).0
            == <(T1, T2, T3, T4, T5, T6, T7, T8, T9, T10, T11) as Protocol<IdChannel<F>, F>>::coalescing(IdChannelFork::of(id), other).0,
        trace_11(value, id, next, format) is Some && ctx.holds(
            trace_11(value, id, next, format)->0.items,
            id,
            next,
            trace_11(value, id, next, format)->0.next,
        ) ==> ({
            let start = <(T1, T2, T3, T4, T5, T6, T7, T8, T9, T10, T11) as Protocol<IdChannel<F>, F>>::coalescing(
                IdChannelFork::of(id),
                ctx,
            );
            let step = start.0.polled(start.1);
            &&& start.0.unresolved()
            &&& step.2 == Poll::Ready(
                Ok::<(T1, T2, T3, T4, T5, T6, T7, T8, T9, T10, T11), <(T1, T2, T3, T4, T5, T6, T7, T8, T9, T10, T11) as Protocol<IdChannel<F>, F>>::CoalesceError>(value),
            )
            &&& step.1.with_format(ctx.format) == ctx.rebuilt(
                id,
                next,
                trace_11(value, id, next, format)->0.next,
            )
            &&& step.1.wf()
        }),
{
    lemma_trace_11(value, id, next, format);
    <Cons<T1, Cons<T2, Cons<T3, Cons<T4, Cons<T5, Cons<T6, Cons<T7, Cons<T8, Cons<T9, Cons<T10, Cons<T11, Nil>>>>>>>>>>> as Faithful<F>>::law_idle(id, ctx, other);
    if trace_11(value, id, next, format) is Some && ctx.holds(
        trace_11(value, id, next, format)->0.items,
        id,
        next,
        trace_11(value, id, next, format)->0.next,
    ) {
        value.list().law_coalesce(id, next, format, ctx);
        value.lemma_list();
    }
}

impl<F, T1, T2, T3, T4, T5, T6, T7, T8, T9, T10, T11> Faithful<F> for (T1, T2, T3, T4, T5, T6, T7, T8, T9, T10, T11) where
    F: Lossless<ForkHandle> + Format<ForkHandle, Representation = Vec<u8>> + Format<
        Bottom,
        Representation = Vec<u8>,
    > + Format<<T1 as Protocol<IdChannel<F>, F>>::Unravel, Representation = Vec<u8>> + Format<
        <T1 as Protocol<IdChannel<F>, F>>::Coalesce,
        Representation = Vec<u8>,
    > + Format<<T2 as Protocol<IdChannel<F>, F>>::Unravel, Representation = Vec<u8>> + Format<
        <T2 as Protocol<IdChannel<F>, F>>::Coalesce,
        Representation = Vec<u8>,
    > + Format<<T3 as Protocol<IdChannel<F>, F>>::Unravel, Representation = Vec<u8>> + Format<
        <T3 as Protocol<IdChannel<F>, F>>::Coalesce,
        Representation = Vec<u8>,
    > + Format<<T4 as Protocol<IdChannel<F>, F>>::Unravel, Representation = Vec<u8>> + Format<
        <T4 as Protocol<IdChannel<F>, F>>::Coalesce,
        Representation = Vec<u8>,
    > + Format<<T5 as Protocol<IdChannel<F>, F>>::Unravel, Representation = Vec<u8>> + Format<
        <T5 as Protocol<IdChannel<F>, F>>::Coalesce,
        Representation = Vec<u8>,
    > + Format<<T6 as Protocol<IdChannel<F>, F>>::Unravel, Representation = Vec<u8>> + Format<
        <T6 as Protocol<IdChannel<F>, F>>::Coalesce,
        Representation = Vec<u8>,
    > + Format<<T7 as Protocol<IdChannel<F>, F>>::Unravel, Representation = Vec<u8>> + Format<
        <T7 as Protocol<IdChannel<F>, F>>::Coalesce,
        Representation = Vec<u8>,
    > + Format<<T8 as Protocol<IdChannel<F>, F>>::Unravel, Representation = Vec<u8>> + Format<
        <T8 as Protocol<IdChannel<F>, F>>::Coalesce,
        Representation = Vec<u8>,
    > + Format<<T9 as Protocol<IdChannel<F>, F>>::Unravel, Representation = Vec<u8>> + Format<
        <T9 as Protocol<IdChannel<F>, F>>::Coalesce,
        Representation = Vec<u8>,
    > + Format<<T10 as Protocol<IdChannel<F>, F>>::Unravel, Representation = Vec<u8>> + Format<
        <T10 as Protocol<IdChannel<F>, F>>::Coalesce,
        Representation = Vec<u8>,
    > + Format<<T11 as Protocol<IdChannel<F>, F>>::Unravel, Representation = Vec<u8>> + Format<
        <T11 as Protocol<IdChannel<F>, F>>::Coalesce,
        Representation = Vec<u8>,
    >,
    T1: Faithful<F> + Protocol<IdChannel<F>, F>,
    T2: Faithful<F> + Protocol<IdChannel<F>, F>,
    T3: Faithful<F> + Protocol<IdChannel<F>, F>,
    T4: Faithful<F> + Protocol<IdChannel<F>, F>,
    T5: Faithful<F> + Protocol<IdChannel<F>, F>,
    T6: Faithful<F> + Protocol<IdChannel<F>, F>,
    T7: Faithful<F> + Protocol<IdChannel<F>, F>,
    T8: Faithful<F> + Protocol<IdChannel<F>, F>,
    T9: Faithful<F> + Protocol<IdChannel<F>, F>,
    T10: Faithful<F> + Protocol<IdChannel<F>, F>,
    T11: Faithful<F> + Protocol<IdChannel<F>, F>,
 {
    open spec fn trace(self, id: u32, next: nat, format: F) -> Option<Trace<F>> {
        trace_11(self, id, next, format)
    }

    proof fn law_trace(self, id: u32, next: nat, format: F) {
        lemma_trace_11(self, id, next, format);
        self.list().law_trace(id, next, format);
    }

    proof fn law_unravel(self, ctx: Model<F>, id: u32) {
        lemma_unravel_11(self, ctx, id);
    }

    proof fn law_resolve(self, ctx: Model<F>, id: u32) {
        lemma_unravel_11(self, ctx, id);
    }

    proof fn law_cancel(self, ctx: Model<F>, id: u32) {
        lemma_unravel_11(self, ctx, id);
    }

    proof fn law_idle(id: u32, ctx: Model<F>, other: Model<F>) {
        lemma_coalesce_11::<F, T1, T2, T3, T4, T5, T6, T7, T8, T9, T10, T11>(arbitrary(), id, 0, arbitrary(), ctx, other);
    }

    proof fn law_coalesce(self, id: u32, next: nat, format: F, ctx: Model<F>) {
        lemma_coalesce_11(self, id, next, format, ctx, ctx);
    }
}

/// What sending a tuple of twelve leaves behind: for each component in
/// turn, the trace of the component on a sub-channel of its own and then
/// its handle on the sub-channel of the tuple.
pub open spec fn trace_12<
    F: Format<ForkHandle, Representation = Vec<u8>>,
    T1: Faithful<F>,
    T2: Faithful<F>,
    T3: Faithful<F>,
    T4: Faithful<F>,
    T5: Faithful<F>,
    T6: Faithful<F>,
    T7: Faithful<F>,
    T8: Faithful<F>,
    T9: Faithful<F>,
    T10: Faithful<F>,
    T11: Faithful<F>,
    T12: Faithful<F>,
>(value: (T1, T2, T3, T4, T5, T6, T7, T8, T9, T10, T11, T12), id: u32, next: nat, format: F) -> Option<Trace<F>> {
    then(
        then(
            then(
                then(
                    then(
                        then(
                            then(
                                then(
                                    then(
                                        then(
                                            then(
                                                then(
                                                    nothing(next, format),
                                                    value.0,
                                                    id,
                                                ),
                                                value.1,
                                                id,
                                            ),
                                            value.2,
                                            id,
                                        ),
                                        value.3,
                                        id,
                                    ),
                                    value.4,
                                    id,
                                ),
                                value.5,
                                id,
                            ),
                            value.6,
                            id,
                        ),
                        value.7,
                        id,
                    ),
                    value.8,
                    id,
                ),
                value.9,
                id,
            ),
            value.10,
            id,
        ),
        value.11,
        id,
    )
}

/// The trace of a tuple of twelve is the trace of the list of its
/// components.
pub proof fn lemma_trace_12<F, T1, T2, T3, T4, T5, T6, T7, T8, T9, T10, T11, T12>(value: (T1, T2, T3, T4, T5, T6, T7, T8, T9, T10, T11, T12), id: u32, next: nat, format: F) where
    F: Lossless<ForkHandle> + Format<ForkHandle, Representation = Vec<u8>> + Format<
        Bottom,
        Representation = Vec<u8>,
    > + Format<<T1 as Protocol<IdChannel<F>, F>>::Unravel, Representation = Vec<u8>> + Format<
        <T1 as Protocol<IdChannel<F>, F>>::Coalesce,
        Representation = Vec<u8>,
    > + Format<<T2 as Protocol<IdChannel<F>, F>>::Unravel, Representation = Vec<u8>> + Format<
        <T2 as Protocol<IdChannel<F>, F>>::Coalesce,
        Representation = Vec<u8>,
    > + Format<<T3 as Protocol<IdChannel<F>, F>>::Unravel, Representation = Vec<u8>> + Format<
        <T3 as Protocol<IdChannel<F>, F>>::Coalesce,
        Representation = Vec<u8>,
    > + Format<<T4 as Protocol<IdChannel<F>, F>>::Unravel, Representation = Vec<u8>> + Format<
        <T4 as Protocol<IdChannel<F>, F>>::Coalesce,
        Representation = Vec<u8>,
    > + Format<<T5 as Protocol<IdChannel<F>, F>>::Unravel, Representation = Vec<u8>> + Format<
        <T5 as Protocol<IdChannel<F>, F>>::Coalesce,
        Representation = Vec<u8>,
    > + Format<<T6 as Protocol<IdChannel<F>, F>>::Unravel, Representation = Vec<u8>> + Format<
        <T6 as Protocol<IdChannel<F>, F>>::Coalesce,
        Representation = Vec<u8>,
    > + Format<<T7 as Protocol<IdChannel<F>, F>>::Unravel, Representation = Vec<u8>> + Format<
        <T7 as Protocol<IdChannel<F>, F>>::Coalesce,
        Representation = Vec<u8>,
    > + Format<<T8 as Protocol<IdChannel<F>, F>>::Unravel, Representation = Vec<u8>> + Format<
        <T8 as Protocol<IdChannel<F>, F>>::Coalesce,
        Representation = Vec<u8>,
    > + Format<<T9 as Protocol<IdChannel<F>, F>>::Unravel, Representation = Vec<u8>> + Format<
        <T9 as Protocol<IdChannel<F>, F>>::Coalesce,
        Representation = Vec<u8>,
    > + Format<<T10 as Protocol<IdChannel<F>, F>>::Unravel, Representation = Vec<u8>> + Format<
        <T10 as Protocol<IdChannel<F>, F>>::Coalesce,
        Representation = Vec<u8>,
    > + Format<<T11 as Protocol<IdChannel<F>, F>>::Unravel, Representation = Vec<u8>> + Format<
        <T11 as Protocol<IdChannel<F>, F>>::Coalesce,
        Representation = Vec<u8>,
    > + Format<<T12 as Protocol<IdChannel<F>, F>>::Unravel, Representation = Vec<u8>> + Format<
        <T12 as Protocol<IdChannel<F>, F>>::Coalesce,
        Representation = Vec<u8>,
    >,
    T1: Faithful<F> + Protocol<IdChannel<F>, F>,
    T2: Faithful<F> + Protocol<IdChannel<F>, F>,
    T3: Faithful<F> + Protocol<IdChannel<F>, F>,
    T4: Faithful<F> + Protocol<IdChannel<F>, F>,
    T5: Faithful<F> + Protocol<IdChannel<F>, F>,
    T6: Faithful<F> + Protocol<IdChannel<F>, F>,
    T7: Faithful<F> + Protocol<IdChannel<F>, F>,
    T8: Faithful<F> + Protocol<IdChannel<F>, F>,
    T9: Faithful<F> + Protocol<IdChannel<F>, F>,
    T10: Faithful<F> + Protocol<IdChannel<F>, F>,
    T11: Faithful<F> + Protocol<IdChannel<F>, F>,
    T12: Faithful<F> + Protocol<IdChannel<F>, F>,

    ensures
        trace_12(value, id, next, format) == value.list().trace(id, next, format),
{
    let s0 = nothing(next, format);
    let s1 = then(s0, value.0, id);
    let s2 = then(s1, value.1, id);
    let s3 = then(s2, value.2, id);
    let s4 = then(s3, value.3, id);
    let s5 = then(s4, value.4, id);
    let s6 = then(s5, value.5, id);
    let s7 = then(s6, value.6, id);
    let s8 = then(s7, value.7, id);
    let s9 = then(s8, value.8, id);
    let s10 = then(s9, value.9, id);
    let s11 = then(s10, value.10, id);
    let s12 = then(s11, value.11, id);
    lemma_followed_start(value.list(), id, next, format);
    lemma_followed_cons(s0, Cons(value.0, Cons(value.1, Cons(value.2, Cons(value.3, Cons(value.4, Cons(value.5, Cons(value.6, Cons(value.7, Cons(value.8, Cons(value.9, Cons(value.10, Cons(value.11, Nil)))))))))))), id);
    lemma_followed_cons(s1, Cons(value.1, Cons(value.2, Cons(value.3, Cons(value.4, Cons(value.5, Cons(value.6, Cons(value.7, Cons(value.8, Cons(value.9, Cons(value.10, Cons(value.11, Nil))))))))))), id);
    lemma_followed_cons(s2, Cons(value.2, Cons(value.3, Cons(value.4, Cons(value.5, Cons(value.6, Cons(value.7, Cons(value.8, Cons(value.9, Cons(value.10, Cons(value.11, Nil)))))))))), id);
    lemma_followed_cons(s3, Cons(value.3, Cons(value.4, Cons(value.5, Cons(value.6, Cons(value.7, Cons(value.8, Cons(value.9, Cons(value.10, Cons(value.11, Nil))))))))), id);
    lemma_followed_cons(s4, Cons(value.4, Cons(value.5, Cons(value.6, Cons(value.7, Cons(value.8, Cons(value.9, Cons(value.10, Cons(value.11, Nil)))))))), id);
    lemma_followed_cons(s5, Cons(value.5, Cons(value.6, Cons(value.7, Cons(value.8, Cons(value.9, Cons(value.10, Cons(value.11, Nil))))))), id);
    lemma_followed_cons(s6, Cons(value.6, Cons(value.7, Cons(value.8, Cons(value.9, Cons(value.10, Cons(value.11, Nil)))))), id);
    lemma_followed_cons(s7, Cons(value.7, Cons(value.8, Cons(value.9, Cons(value.10, Cons(value.11, Nil))))), id);
    lemma_followed_cons(s8, Cons(value.8, Cons(value.9, Cons(value.10, Cons(value.11, Nil)))), id);
    lemma_followed_cons(s9, Cons(value.9, Cons(value.10, Cons(value.11, Nil))), id);
    lemma_followed_cons(s10, Cons(value.10, Cons(value.11, Nil)), id);
    lemma_followed_cons(s11, Cons(value.11, Nil), id);
    lemma_then_bound(s11, value.11, id);
    lemma_followed_nil(s12, id);
}

/// Unraveling a tuple of twelve resolves at the first poll and leaves
/// the live registry as it was; it leaves its trace if all of it could be sent.
/// Given up before, it leaves the live registry as it was.
pub proof fn lemma_unravel_12<F, T1, T2, T3, T4, T5, T6, T7, T8, T9, T10, T11, T12>(value: (T1, T2, T3, T4, T5, T6, T7, T8, T9, T10, T11, T12), ctx: Model<F>, id: u32) where
    F: Lossless<ForkHandle> + Format<ForkHandle, Representation = Vec<u8>> + Format<
        Bottom,
        Representation = Vec<u8>,
    > + Format<<T1 as Protocol<IdChannel<F>, F>>::Unravel, Representation = Vec<u8>> + Format<
        <T1 as Protocol<IdChannel<F>, F>>::Coalesce,
        Representation = Vec<u8>,
    > + Format<<T2 as Protocol<IdChannel<F>, F>>::Unravel, Representation = Vec<u8>> + Format<
        <T2 as Protocol<IdChannel<F>, F>>::Coalesce,
        Representation = Vec<u8>,
    > + Format<<T3 as Protocol<IdChannel<F>, F>>::Unravel, Representation = Vec<u8>> + Format<
        <T3 as Protocol<IdChannel<F>, F>>::Coalesce,
        Representation = Vec<u8>,
    > + Format<<T4 as Protocol<IdChannel<F>, F>>::Unravel, Representation = Vec<u8>> + Format<
        <T4 as Protocol<IdChannel<F>, F>>::Coalesce,
        Representation = Vec<u8>,
    > + Format<<T5 as Protocol<IdChannel<F>, F>>::Unravel, Representation = Vec<u8>> + Format<
        <T5 as Protocol<IdChannel<F>, F>>::Coalesce,
        Representation = Vec<u8>,
    > + Format<<T6 as Protocol<IdChannel<F>, F>>::Unravel, Representation = Vec<u8>> + Format<
        <T6 as Protocol<IdChannel<F>, F>>::Coalesce,
        Representation = Vec<u8>,
    > + Format<<T7 as Protocol<IdChannel<F>, F>>::Unravel, Representation = Vec<u8>> + Format<
        <T7 as Protocol<IdChannel<F>, F>>::Coalesce,
        Representation = Vec<u8>,
    > + Format<<T8 as Protocol<IdChannel<F>, F>>::Unravel, Representation = Vec<u8>> + Format<
        <T8 as Protocol<IdChannel<F>, F>>::Coalesce,
        Representation = Vec<u8>,
    > + Format<<T9 as Protocol<IdChannel<F>, F>>::Unravel, Representation = Vec<u8>> + Format<
        <T9 as Protocol<IdChannel<F>, F>>::Coalesce,
        Representation = Vec<u8>,
    > + Format<<T10 as Protocol<IdChannel<F>, F>>::Unravel, Representation = Vec<u8>> + Format<
        <T10 as Protocol<IdChannel<F>, F>>::Coalesce,
        Representation = Vec<u8>,
    > + Format<<T11 as Protocol<IdChannel<F>, F>>::Unravel, Representation = Vec<u8>> + Format<
        <T11 as Protocol<IdChannel<F>, F>>::Coalesce,
        Representation = Vec<u8>,
    > + Format<<T12 as Protocol<IdChannel<F>, F>>::Unravel, Representation = Vec<u8>> + Format<
        <T12 as Protocol<IdChannel<F>, F>>::Coalesce,
        Representation = Vec<u8>,
    >,
    T1: Faithful<F> + Protocol<IdChannel<F>, F>,
    T2: Faithful<F> + Protocol<IdChannel<F>, F>,
    T3: Faithful<F> + Protocol<IdChannel<F>, F>,
    T4: Faithful<F> + Protocol<IdChannel<F>, F>,
    T5: Faithful<F> + Protocol<IdChannel<F>, F>,
    T6: Faithful<F> + Protocol<IdChannel<F>, F>,
    T7: Faithful<F> + Protocol<IdChannel<F>, F>,
    T8: Faithful<F> + Protocol<IdChannel<F>, F>,
    T9: Faithful<F> + Protocol<IdChannel<F>, F>,
    T10: Faithful<F> + Protocol<IdChannel<F>, F>,
    T11: Faithful<F> + Protocol<IdChannel<F>, F>,
    T12: Faithful<F> + Protocol<IdChannel<F>, F>,

    requires
        ctx.wf(),
    ensures
        ({
            let start = <(T1, T2, T3, T4, T5, T6, T7, T8, T9, T10, T11, T12) as Protocol<IdChannel<F>, F>>::unraveling(
                value,
                IdChannelFork::of(id),
                ctx,
            );
            let step = start.0.polled(start.1);
            &&& start.0.cancelled(start.1).sinks == ctx.sinks
            &&& start.0.cancelled(start.1).wf()
            &&& step.2 is Ready
            &&& step.1.sinks == ctx.sinks
            &&& step.1.wf()
            &&& ctx.sinks.contains_key(id) && trace_12(value, id, ctx.next, ctx.format) is Some
                ==> {
                &&& start.0.unresolved()
                &&& step.2 == Poll::Ready(
                    Ok::<(), <(T1, T2, T3, T4, T5, T6, T7, T8, T9, T10, T11, T12) as Protocol<IdChannel<F>, F>>::UnravelError>(()),
                )
                &&& step.1 == ctx.sent(trace_12(value, id, ctx.next, ctx.format)->0)
                &&& step.1.wf()
            }
        }),
{
    lemma_trace_12(value, id, ctx.next, ctx.format);
    value.list().law_cancel(ctx, id);
    value.list().law_resolve(ctx, id);
    if ctx.sinks.contains_key(id) && trace_12(value, id, ctx.next, ctx.format) is Some {
        value.list().law_unravel(ctx, id);
    }
}

/// Coalescing a tuple of twelve from an endpoint that holds what unraveling
/// it left resolves at the first poll to the tuple; starting to coalesce
/// touches nothing.
pub proof fn lemma_coalesce_12<F, T1, T2, T3, T4, T5, T6, T7, T8, T9, T10, T11, T12>(
    value: (T1, T2, T3, T4, T5, T6, T7, T8, T9, T10, T11, T12),
    id: u32,
    next: nat,
    format: F,
    ctx: Model<F>,
    other: Model<F>,
) where
    F: Lossless<ForkHandle> + Format<ForkHandle, Representation = Vec<u8>> + Format<
        Bottom,
        Representation = Vec<u8>,
    > + Format<<T1 as Protocol<IdChannel<F>, F>>::Unravel, Representation = Vec<u8>> + Format<
        <T1 as Protocol<IdChannel<F>, F>>::Coalesce,
        Representation = Vec<u8>,
    > + Format<<T2 as Protocol<IdChannel<F>, F>>::Unravel, Representation = Vec<u8>> + Format<
        <T2 as Protocol<IdChannel<F>, F>>::Coalesce,
        Representation = Vec<u8>,
    > + Format<<T3 as Protocol<IdChannel<F>, F>>::Unravel, Representation = Vec<u8>> + Format<
        <T3 as Protocol<IdChannel<F>, F>>::Coalesce,
        Representation = Vec<u8>,
    > + Format<<T4 as Protocol<IdChannel<F>, F>>::Unravel, Representation = Vec<u8>> + Format<
        <T4 as Protocol<IdChannel<F>, F>>::Coalesce,
        Representation = Vec<u8>,
    > + Format<<T5 as Protocol<IdChannel<F>, F>>::Unravel, Representation = Vec<u8>> + Format<
        <T5 as Protocol<IdChannel<F>, F>>::Coalesce,
        Representation = Vec<u8>,
    > + Format<<T6 as Protocol<IdChannel<F>, F>>::Unravel, Representation = Vec<u8>> + Format<
        <T6 as Protocol<IdChannel<F>, F>>::Coalesce,
        Representation = Vec<u8>,
    > + Format<<T7 as Protocol<IdChannel<F>, F>>::Unravel, Representation = Vec<u8>> + Format<
        <T7 as Protocol<IdChannel<F>, F>>::Coalesce,
        Representation = Vec<u8>,
    > + Format<<T8 as Protocol<IdChannel<F>, F>>::Unravel, Representation = Vec<u8>> + Format<
        <T8 as Protocol<IdChannel<F>, F>>::Coalesce,
        Representation = Vec<u8>,
    > + Format<<T9 as Protocol<IdChannel<F>, F>>::Unravel, Representation = Vec<u8>> + Format<
        <T9 as Protocol<IdChannel<F>, F>>::Coalesce,
        Representation = Vec<u8>,
    > + Format<<T10 as Protocol<IdChannel<F>, F>>::Unravel, Representation = Vec<u8>> + Format<
        <T10 as Protocol<IdChannel<F>, F>>::Coalesce,
        Representation = Vec<u8>,
    > + Format<<T11 as Protocol<IdChannel<F>, F>>::Unravel, Representation = Vec<u8>> + Format<
        <T11 as Protocol<IdChannel<F>, F>>::Coalesce,
        Representation = Vec<u8>,
    > + Format<<T12 as Protocol<IdChannel<F>, F>>::Unravel, Representation = Vec<u8>> + Format<
        <T12 as Protocol<IdChannel<F>, F>>::Coalesce,
        Representation = Vec<u8>,
    >,
    T1: Faithful<F> + Protocol<IdChannel<F>, F>,
    T2: Faithful<F> + Protocol<IdChannel<F>, F>,
    T3: Faithful<F> + Protocol<IdChannel<F>, F>,
    T4: Faithful<F> + Protocol<IdChannel<F>, F>,
    T5: Faithful<F> + Protocol<IdChannel<F>, F>,
    T6: Faithful<F> + Protocol<IdChannel<F>, F>,
    T7: Faithful<F> + Protocol<IdChannel<F>, F>,
    T8: Faithful<F> + Protocol<IdChannel<F>, F>,
    T9: Faithful<F> + Protocol<IdChannel<F>, F>,
    T10: Faithful<F> + Protocol<IdChannel<F>, F>,
    T11: Faithful<F> + Protocol<IdChannel<F>, F>,
    T12: Faithful<F> + Protocol<IdChannel<F>, F>,

    ensures
        <(T1, T2, T3, T4, T5, T6, T7, T8, T9, T10, T11, T12) as Protocol<IdChannel<F>, F>>::coalescing(IdChannelFork::of(id), ctx).1 == ctx,
        <(T1, T2, T3, T4, T5, T6, T7, T8, T9, T10, T11, T12) as Protocol<IdChannel<F>, F>>::coalescing(IdChannelFork::of(id), ctx).0
            == <(T1, T2, T3, T4, T5, T6, T7, T8, T9, T10, T11, T12) as Protocol<IdChannel<F>, F>>::coalescing(IdChannelFork::of(id), other).0,
        trace_12(value, id, next, format) is Some && ctx.holds(
            trace_12(value, id, next, format)->0.items,
            id,
            next,
            trace_12(value, id, next, format)->0.next,
        ) ==> ({
            let start = <(T1, T2, T3, T4, T5, T6, T7, T8, T9, T10, T11, T12) as Protocol<IdChannel<F>, F>>::coalescing(
                IdChannelFork::of(id),
                ctx,
            );
            let step = start.0.polled(start.1);
            &&& start.0.unresolved()
            &&& step.2 == Poll::Ready(
                Ok::<(T1, T2, T3, T4, T5, T6, T7, T8, T9, T10, T11, T12), <(T1, T2, T3, T4, T5, T6, T7, T8, T9, T10, T11, T12) as Protocol<IdChannel<F>, F>>::CoalesceError>(value),
            )
            &&& step.1.with_format(ctx.format) == ctx.rebuilt(
                id,
                next,
                trace_12(value, id, next, format)->0.next,
            )
            &&& step.1.wf()
        }),
{
    lemma_trace_12(value, id, next, format);
    <Cons<T1, Cons<T2, Cons<T3, Cons<T4, Cons<T5, Cons<T6, Cons<T7, Cons<T8, Cons<T9, Cons<T10, Cons<T11, Cons<T12, Nil>>>>>>>>>>>> as Faithful<F>>::law_idle(id, ctx, other);
    if trace_12(value, id, next, format) is Some && ctx.holds(
        trace_12(value, id, next, format)->0.items,
        id,
        next,
        trace_12(value, id, next, format)->0.next,
    ) {
        value.list().law_coalesce(id, next, format, ctx);
        value.lemma_list();
    }
}

impl<F, T1, T2, T3, T4, T5, T6, T7, T8, T9, T10, T11, T12> Faithful<F> for (T1, T2, T3, T4, T5, T6, T7, T8, T9, T10, T11, T12) where
    F: Lossless<ForkHandle> + Format<ForkHandle, Representation = Vec<u8>> + Format<
        Bottom,
        Representation = Vec<u8>,
    > + Format<<T1 as Protocol<IdChannel<F>, F>>::Unravel, Representation = Vec<u8>> + Format<
        <T1 as Protocol<IdChannel<F>, F>>::Coalesce,
        Representation = Vec<u8>,
    > + Format<<T2 as Protocol<IdChannel<F>, F>>::Unravel, Representation = Vec<u8>> + Format<
        <T2 as Protocol<IdChannel<F>, F>>::Coalesce,
        Representation = Vec<u8>,
    > + Format<<T3 as Protocol<IdChannel<F>, F>>::Unravel, Representation = Vec<u8>> + Format<
        <T3 as Protocol<IdChannel<F>, F>>::Coalesce,
        Representation = Vec<u8>,
    > + Format<<T4 as Protocol<IdChannel<F>, F>>::Unravel, Representation = Vec<u8>> + Format<
        <T4 as Protocol<IdChannel<F>, F>>::Coalesce,
        Representation = Vec<u8>,
    > + Format<<T5 as Protocol<IdChannel<F>, F>>::Unravel, Representation = Vec<u8>> + Format<
        <T5 as Protocol<IdChannel<F>, F>>::Coalesce,
        Representation = Vec<u8>,
    > + Format<<T6 as Protocol<IdChannel<F>, F>>::Unravel, Representation = Vec<u8>> + Format<
        <T6 as Protocol<IdChannel<F>, F>>::Coalesce,
        Representation = Vec<u8>,
    > + Format<<T7 as Protocol<IdChannel<F>, F>>::Unravel, Representation = Vec<u8>> + Format<
        <T7 as Protocol<IdChannel<F>, F>>::Coalesce,
        Representation = Vec<u8>,
    > + Format<<T8 as Protocol<IdChannel<F>, F>>::Unravel, Representation = Vec<u8>> + Format<
        <T8 as Protocol<IdChannel<F>, F>>::Coalesce,
        Representation = Vec<u8>,
    > + Format<<T9 as Protocol<IdChannel<F>, F>>::Unravel, Representation = Vec<u8>> + Format<
        <T9 as Protocol<IdChannel<F>, F>>::Coalesce,
        Representation = Vec<u8>,
    > + Format<<T10 as Protocol<IdChannel<F>, F>>::Unravel, Representation = Vec<u8>> + Format<
        <T10 as Protocol<IdChannel<F>, F>>::Coalesce,
        Representation = Vec<u8>,
    > + Format<<T11 as Protocol<IdChannel<F>, F>>::Unravel, Representation = Vec<u8>> + Format<
        <T11 as Protocol<IdChannel<F>, F>>::Coalesce,
        Representation = Vec<u8>,
    > + Format<<T12 as Protocol<IdChannel<F>, F>>::Unravel, Representation = Vec<u8>> + Format<
        <T12 as Protocol<IdChannel<F>, F>>::Coalesce,
        Representation = Vec<u8>,
    >,
    T1: Faithful<F> + Protocol<IdChannel<F>, F>,
    T2: Faithful<F> + Protocol<IdChannel<F>, F>,
    T3: Faithful<F> + Protocol<IdChannel<F>, F>,
    T4: Faithful<F> + Protocol<IdChannel<F>, F>,
    T5: Faithful<F> + Protocol<IdChannel<F>, F>,
    T6: Faithful<F> + Protocol<IdChannel<F>, F>,
    T7: Faithful<F> + Protocol<IdChannel<F>, F>,
    T8: Faithful<F> + Protocol<IdChannel<F>, F>,
    T9: Faithful<F> + Protocol<IdChannel<F>, F>,
    T10: Faithful<F> + Protocol<IdChannel<F>, F>,
    T11: Faithful<F> + Protocol<IdChannel<F>, F>,
    T12: Faithful<F> + Protocol<IdChannel<F>, F>,
 {
    open spec fn trace(self, id: u32, next: nat, format: F) -> Option<Trace<F>> {
        trace_12(self, id, next, format)
    }

    proof fn law_trace(self, id: u32, next: nat, format: F) {
        lemma_trace_12(self, id, next, format);
        self.list().law_trace(id, next, format);
    }

    proof fn law_unravel(self, ctx: Model<F>, id: u32) {
        lemma_unravel_12(self, ctx, id);
    }

    proof fn law_resolve(self, ctx: Model<F>, id: u32) {
        lemma_unravel_12(self, ctx, id);
    }

    proof fn law_cancel(self, ctx: Model<F>, id: u32) {
        lemma_unravel_12(self, ctx, id);
    }

    proof fn law_idle(id: u32, ctx: Model<F>, other: Model<F>) {
        lemma_coalesce_12::<F, T1, T2, T3, T4, T5, T6, T7, T8, T9, T10, T11, T12>(arbitrary(), id, 0, arbitrary(), ctx, other);
    }

    proof fn law_coalesce(self, id: u32, next: nat, format: F, ctx: Model<F>) {
        lemma_coalesce_12(self, id, next, format, ctx, ctx);
    }
}

} // verus!
