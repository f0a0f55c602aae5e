//! A list is carried faithfully if its components are; and what a tuple
//! leaves on the wire, component by component.
use vstd::prelude::*;

use core::convert::Infallible;

use crate::channel::id::faithful::steps::{
    handed, inlet, lemma_close, lemma_handed, lemma_next, lemma_send, lemma_send_resolves, outlet,
    taken,
};
use crate::channel::id::faithful::{
    lemma_fork, lemma_fork_resolves, lemma_join, span, theorem_cancel, Faithful, Trace,
};
use crate::channel::id::wire::{
    lemma_project_absent, lemma_project_add, lemma_project_push, project,
};
use crate::channel::id::{ForkHandle, IdChannel, IdChannelFork, Model};
use crate::format::{Format, Lossless};
use crate::future::{Ready, Send, StreamFuture};
use crate::tuple::{self, Cons, Nil};
use crate::{Bottom, Poll, Protocol, Task};

verus! {

/// The empty list closes its channel and leaves everything else as it is,
/// in both directions.
pub proof fn lemma_nil<
    F: Format<ForkHandle, Representation = Vec<u8>> + Format<Bottom, Representation = Vec<u8>>,
>(ctx: Model<F>, other: Model<F>, id: u32)
    ensures
        ({
            let start = <Nil as Protocol<IdChannel<F>, F>>::unraveling(Nil, outlet(id), ctx);
            let step = <<Nil as Protocol<IdChannel<F>, F>>::UnravelFuture as Task<IdChannel<F>>>::polled(start.0, start.1);
            &&& <<Nil as Protocol<IdChannel<F>, F>>::UnravelFuture as Task<IdChannel<F>>>::unresolved(start.0)
            &&& start.1 == ctx
            &&& <<Nil as Protocol<IdChannel<F>, F>>::UnravelFuture as Task<IdChannel<F>>>::cancelled(start.0, start.1) == ctx
            &&& step.1 == ctx
            &&& step.2 == Poll::Ready(
                Ok::<(), <Nil as Protocol<IdChannel<F>, F>>::UnravelError>(()),
            )
        }),
        ({
            let start = <Nil as Protocol<IdChannel<F>, F>>::coalescing(inlet(id), ctx);
            let step = <<Nil as Protocol<IdChannel<F>, F>>::CoalesceFuture as Task<IdChannel<F>>>::polled(start.0, start.1);
            &&& <<Nil as Protocol<IdChannel<F>, F>>::CoalesceFuture as Task<IdChannel<F>>>::unresolved(start.0)
            &&& start.1 == ctx
            &&& start.0 == <Nil as Protocol<IdChannel<F>, F>>::coalescing(inlet(id), other).0
            &&& step.1 == ctx
            &&& step.2 == Poll::Ready(Ok::<Nil, Infallible>(Nil))
        }),
{
    lemma_close(ctx, id);
    let done: Ready<Result<Nil, Infallible>> = Ready(Some(Ok(Nil)));
    assert(<Nil as Protocol<IdChannel<F>, F>>::coalescing(inlet(id), ctx) == (done, ctx));
    assert(<Nil as Protocol<IdChannel<F>, F>>::coalescing(inlet(id), other) == (done, other));
    let polled = <Ready<Result<Nil, Infallible>> as Task<IdChannel<F>>>::polled(done, ctx);
    assert(polled.1 == ctx);
    assert(polled.2 == Poll::Ready(Ok::<Nil, Infallible>(Nil)));
}

impl<
    F: Format<ForkHandle, Representation = Vec<u8>> + Format<Bottom, Representation = Vec<u8>>,
> Faithful<F> for Nil {
    /// Nothing is sent.
    open spec fn trace(self, id: u32, next: nat, format: F) -> Option<Trace<F>> {
        if next <= 0x1_0000_0000 {
            Some(Trace { items: Seq::empty(), next, format })
        } else {
            None
        }
    }

    proof fn law_trace(self, id: u32, next: nat, format: F) {
    }

    proof fn law_unravel(self, ctx: Model<F>, id: u32) {
        lemma_nil(ctx, ctx, id);
        let trace = self.trace(id, ctx.next, ctx.format)->0;
        assert(ctx.sent(trace).known =~= ctx.known);
        assert(ctx.sent(trace).held =~= ctx.held);
        assert(ctx.sent(trace).parked =~= ctx.parked);
        assert(ctx.sent(trace).outbound =~= ctx.outbound);
        assert(ctx.sent(trace) == ctx);
    }

    proof fn law_resolve(self, ctx: Model<F>, id: u32) {
        lemma_nil(ctx, ctx, id);
    }

    proof fn law_cancel(self, ctx: Model<F>, id: u32) {
        lemma_nil(ctx, ctx, id);
    }

    proof fn law_idle(id: u32, ctx: Model<F>, other: Model<F>) {
        lemma_nil(ctx, other, id);
    }

    proof fn law_coalesce(self, id: u32, next: nat, format: F, ctx: Model<F>) {
        lemma_nil(ctx, ctx, id);
        let done = ctx.rebuilt(id, next, next);
        assert(done.known =~= ctx.known);
        assert(done.held =~= ctx.held);
        assert(done.parked =~= ctx.parked);
        assert(done.sinks =~= ctx.sinks);
        assert(ctx.with_format(ctx.format) == done);
    }
}

/// What sending a list leaves behind: the trace of the first component on
/// a sub-channel of its own, the handle of the first on the sub-channel of
/// the list, and then the trace of the rest on the sub-channel of the
/// list.
pub open spec fn cons_trace<
    F: Format<ForkHandle, Representation = Vec<u8>>,
    A: Faithful<F>,
    R: Faithful<F>,
>(value: Cons<A, R>, id: u32, next: nat, format: F) -> Option<Trace<F>> {
    if next <= u32::MAX {
        match value.0.trace(next as u32, next + 1, format) {
            Some(first) => {
                let encoded = <F as Format<ForkHandle>>::serialized(
                    first.format,
                    ForkHandle(next as u32),
                );
                match encoded.1 {
                    Ok(payload) => match value.1.trace(id, first.next, encoded.0) {
                        Some(rest) => Some(
                            Trace {
                                items: first.items.push((id, payload)) + rest.items,
                                next: rest.next,
                                format: rest.format,
                            },
                        ),
                        None => None,
                    },
                    Err(_) => None,
                }
            },
            None => None,
        }
    } else {
        None
    }
}

/// A list uses the identifiers that its components use, and one more for
/// each component.
pub proof fn lemma_cons_trace<
    F: Format<ForkHandle, Representation = Vec<u8>>,
    A: Faithful<F>,
    R: Faithful<F>,
>(value: Cons<A, R>, id: u32, next: nat, format: F)
    requires
        cons_trace(value, id, next, format) is Some,
    ensures
        next < cons_trace(value, id, next, format)->0.next <= 0x1_0000_0000,
        forall|i: int|
            0 <= i < cons_trace(value, id, next, format)->0.items.len() ==> {
                let at = (#[trigger] cons_trace(value, id, next, format)->0.items[i]).0;
                at == id || next <= at < cons_trace(value, id, next, format)->0.next
            },
{
    let first = value.0.trace(next as u32, next + 1, format)->0;
    let encoded = <F as Format<ForkHandle>>::serialized(first.format, ForkHandle(next as u32));
    value.0.law_trace(next as u32, next + 1, format);
    value.1.law_trace(id, first.next, encoded.0);
}

/// Unraveling a list resolves at the first poll and leaves its trace.
pub proof fn lemma_cons_unravel<
    F: Lossless<ForkHandle> + Format<ForkHandle, Representation = Vec<u8>> + Format<
        Bottom,
        Representation = Vec<u8>,
    > + Format<<A as Protocol<IdChannel<F>, F>>::Unravel, Representation = Vec<u8>> + Format<
        <A as Protocol<IdChannel<F>, F>>::Coalesce,
        Representation = Vec<u8>,
    >,
    A: Faithful<F> + Protocol<IdChannel<F>, F>,
    R: Faithful<F> + Protocol<IdChannel<F>, F, Unravel = ForkHandle, Coalesce = Bottom>,
>(value: Cons<A, R>, ctx: Model<F>, id: u32)
    requires
        ctx.wf(),
        ctx.sinks.contains_key(id),
        cons_trace(value, id, ctx.next, ctx.format) is Some,
    ensures
        ({
            let start = <Cons<A, R> as Protocol<IdChannel<F>, F>>::unraveling(
                value,
                IdChannelFork::of(id),
                ctx,
            );
            let step = start.0.polled(start.1);
            &&& start.0.unresolved()
            &&& step.2 == Poll::Ready(
                Ok::<(), <Cons<A, R> as Protocol<IdChannel<F>, F>>::UnravelError>(()),
            )
            &&& step.1 == ctx.sent(cons_trace(value, id, ctx.next, ctx.format)->0)
            &&& step.1.wf()
        }),
{
    let trace = cons_trace(value, id, ctx.next, ctx.format)->0;
    let handle = ForkHandle(ctx.next as u32);
    let first = value.0.trace(ctx.next as u32, ctx.next + 1, ctx.format)->0;
    let encoded = <F as Format<ForkHandle>>::serialized(first.format, handle);
    let rest = value.1.trace(id, first.next, encoded.0)->0;
    let start = <Cons<A, R> as Protocol<IdChannel<F>, F>>::unraveling(value, outlet(id), ctx);
    let step = start.0.polled(start.1);
    // The first component is forked, and its fork resolves.
    lemma_fork(value.0, ctx);
    let fork = IdChannel::<F>::forking(ctx, value.0);
    let forked = fork.0.polled(fork.1);
    assert(forked.1 == ctx.sent(first));
    assert(start == (
        tuple::Unravel::<IdChannel<F>, A, R, F>::Spawn(fork.0, Some(outlet(id)), Some(value.1)),
        fork.1,
    ));
    // Its handle is sent.
    lemma_send(forked.1, id, handle);
    let send = Send::<IdChannelFork<Bottom, ForkHandle>, Bottom, ForkHandle>::of(
        handle,
        outlet(id),
    );
    let sent = <Send<IdChannelFork<Bottom, ForkHandle>, Bottom, ForkHandle> as Task<
        IdChannel<F>,
    >>::polled(send, forked.1);
    assert(sent.1 == handed(forked.1, id, handle));
    assert(sent.1.wf());
    // The rest is sent.
    value.1.law_trace(id, first.next, encoded.0);
    value.1.law_unravel(sent.1, id);
    let tail = <R as Protocol<IdChannel<F>, F>>::unraveling(value.1, outlet(id), sent.1);
    let sailed = tail.0.polled(tail.1);
    assert(sailed.1 == sent.1.sent(rest));
    let third = tuple::Unravel::<IdChannel<F>, A, R, F>::rested(tail.0, tail.1);
    assert(third.1 == sailed.1);
    assert(third.2 == Poll::Ready(
        Ok::<(), <Cons<A, R> as Protocol<IdChannel<F>, F>>::UnravelError>(()),
    ));
    let second = tuple::Unravel::<IdChannel<F>, A, R, F>::sent(send, value.1, forked.1);
    assert(second == third);
    assert(tuple::Unravel::<IdChannel<F>, A, R, F>::spawned(
        fork.0,
        outlet(id),
        value.1,
        fork.1,
    ) == second);
    assert(step == third);
    // What is left is what the trace says.
    let done = ctx.sent(trace);
    let after = sailed.1;
    assert(after.known =~= done.known);
    assert(after.held =~= done.held);
    assert(after.parked =~= done.parked);
    assert(after.outbound =~= done.outbound);
    assert(after == done);
}

/// Unraveling a list resolves at the first poll, whether all of it could
/// be sent or not, and leaves the live registry as it was.
pub proof fn lemma_cons_resolves<
    F: Lossless<ForkHandle> + Format<ForkHandle, Representation = Vec<u8>> + Format<
        Bottom,
        Representation = Vec<u8>,
    > + Format<<A as Protocol<IdChannel<F>, F>>::Unravel, Representation = Vec<u8>> + Format<
        <A as Protocol<IdChannel<F>, F>>::Coalesce,
        Representation = Vec<u8>,
    >,
    A: Faithful<F> + Protocol<IdChannel<F>, F>,
    R: Faithful<F> + Protocol<IdChannel<F>, F, Unravel = ForkHandle, Coalesce = Bottom>,
>(value: Cons<A, R>, ctx: Model<F>, id: u32)
    requires
        ctx.wf(),
    ensures
        ({
            let start = <Cons<A, R> as Protocol<IdChannel<F>, F>>::unraveling(
                value,
                IdChannelFork::of(id),
                ctx,
            );
            let step = start.0.polled(start.1);
            &&& step.2 is Ready
            &&& step.1.sinks == ctx.sinks
            &&& step.1.wf()
        }),
{
    let start = <Cons<A, R> as Protocol<IdChannel<F>, F>>::unraveling(value, outlet(id), ctx);
    let step = start.0.polled(start.1);
    // The first component is forked, and its fork resolves.
    lemma_fork_resolves(value.0, ctx);
    let fork = IdChannel::<F>::forking(ctx, value.0);
    let forked = fork.0.polled(fork.1);
    assert(start == (
        tuple::Unravel::<IdChannel<F>, A, R, F>::Spawn(fork.0, Some(outlet(id)), Some(value.1)),
        fork.1,
    ));
    let first = tuple::Unravel::<IdChannel<F>, A, R, F>::spawned(
        fork.0,
        outlet(id),
        value.1,
        fork.1,
    );
    assert(step == first);
    match forked.2 {
        Poll::Ready(Ok(handle)) => {
            // Its handle is sent.
            lemma_send_resolves(forked.1, id, handle);
            lemma_handed(forked.1, id, handle);
            let send = Send::<IdChannelFork<Bottom, ForkHandle>, Bottom, ForkHandle>::of(
                handle,
                outlet(id),
            );
            let sent = <Send<IdChannelFork<Bottom, ForkHandle>, Bottom, ForkHandle> as Task<
                IdChannel<F>,
            >>::polled(send, forked.1);
            let second = tuple::Unravel::<IdChannel<F>, A, R, F>::sent(send, value.1, forked.1);
            assert(first == second);
            match sent.2 {
                Poll::Ready(Ok(channel)) => {
                    // The rest is sent.
                    value.1.law_resolve(sent.1, id);
                    let tail = <R as Protocol<IdChannel<F>, F>>::unraveling(
                        value.1,
                        outlet(id),
                        sent.1,
                    );
                    let sailed = tail.0.polled(tail.1);
                    let third = tuple::Unravel::<IdChannel<F>, A, R, F>::rested(tail.0, tail.1);
                    assert(third.1 == sailed.1);
                    assert(third.2 is Ready);
                    assert(second == third);
                },
                _ => {
                    assert(second.1 == sent.1);
                    assert(second.2 is Ready);
                },
            }
        },
        _ => {
            assert(first.1 == forked.1);
            assert(first.2 is Ready);
        },
    }
}

/// Giving the unraveling of a list up before it was polled leaves the
/// live registry as it was before the unraveling started.
pub proof fn lemma_cons_cancel<
    F: Lossless<ForkHandle> + Format<ForkHandle, Representation = Vec<u8>> + Format<
        Bottom,
        Representation = Vec<u8>,
    > + Format<<A as Protocol<IdChannel<F>, F>>::Unravel, Representation = Vec<u8>> + Format<
        <A as Protocol<IdChannel<F>, F>>::Coalesce,
        Representation = Vec<u8>,
    >,
    A: Faithful<F> + Protocol<IdChannel<F>, F>,
    R: Faithful<F> + Protocol<IdChannel<F>, F, Unravel = ForkHandle, Coalesce = Bottom>,
>(value: Cons<A, R>, ctx: Model<F>, id: u32)
    requires
        ctx.wf(),
    ensures
        ({
            let start = <Cons<A, R> as Protocol<IdChannel<F>, F>>::unraveling(
                value,
                IdChannelFork::of(id),
                ctx,
            );
            &&& start.0.cancelled(start.1).sinks == ctx.sinks
            &&& start.0.cancelled(start.1).wf()
        }),
{
    theorem_cancel(value.0, ctx);
    let start = <Cons<A, R> as Protocol<IdChannel<F>, F>>::unraveling(value, outlet(id), ctx);
    let fork = IdChannel::<F>::forking(ctx, value.0);
    assert(start == (
        tuple::Unravel::<IdChannel<F>, A, R, F>::Spawn(fork.0, Some(outlet(id)), Some(value.1)),
        fork.1,
    ));
    assert(start.0.cancelled(start.1) == fork.0.cancelled(fork.1));
}

/// Starting to coalesce a list touches nothing and reads nothing.
pub proof fn lemma_cons_idle<
    F: Lossless<ForkHandle> + Format<ForkHandle, Representation = Vec<u8>> + Format<
        Bottom,
        Representation = Vec<u8>,
    > + Format<<A as Protocol<IdChannel<F>, F>>::Unravel, Representation = Vec<u8>> + Format<
        <A as Protocol<IdChannel<F>, F>>::Coalesce,
        Representation = Vec<u8>,
    >,
    A: Faithful<F> + Protocol<IdChannel<F>, F>,
    R: Faithful<F> + Protocol<IdChannel<F>, F, Unravel = ForkHandle, Coalesce = Bottom>,
>(id: u32, ctx: Model<F>, other: Model<F>)
    ensures
        <Cons<A, R> as Protocol<IdChannel<F>, F>>::coalescing(IdChannelFork::of(id), ctx).1 == ctx,
        <Cons<A, R> as Protocol<IdChannel<F>, F>>::coalescing(IdChannelFork::of(id), ctx).0 == <Cons<
            A,
            R,
        > as Protocol<IdChannel<F>, F>>::coalescing(IdChannelFork::of(id), other).0,
{
}

/// Coalescing a list from an endpoint that holds what unraveling it left
/// resolves at the first poll to the list.
pub proof fn lemma_cons_coalesce<
    F: Lossless<ForkHandle> + Format<ForkHandle, Representation = Vec<u8>> + Format<
        Bottom,
        Representation = Vec<u8>,
    > + Format<<A as Protocol<IdChannel<F>, F>>::Unravel, Representation = Vec<u8>> + Format<
        <A as Protocol<IdChannel<F>, F>>::Coalesce,
        Representation = Vec<u8>,
    >,
    A: Faithful<F> + Protocol<IdChannel<F>, F>,
    R: Faithful<F> + Protocol<IdChannel<F>, F, Unravel = ForkHandle, Coalesce = Bottom>,
>(value: Cons<A, R>, id: u32, next: nat, format: F, ctx: Model<F>)
    requires
        cons_trace(value, id, next, format) is Some,
        ctx.holds(
            cons_trace(value, id, next, format)->0.items,
            id,
            next,
            cons_trace(value, id, next, format)->0.next,
        ),
    ensures
        ({
            let start = <Cons<A, R> as Protocol<IdChannel<F>, F>>::coalescing(
                IdChannelFork::of(id),
                ctx,
            );
            let step = start.0.polled(start.1);
            &&& start.0.unresolved()
            &&& step.2 == Poll::Ready(
                Ok::<Cons<A, R>, <Cons<A, R> as Protocol<IdChannel<F>, F>>::CoalesceError>(value),
            )
            &&& step.1.with_format(ctx.format) == ctx.rebuilt(
                id,
                next,
                cons_trace(value, id, next, format)->0.next,
            )
            &&& step.1.wf()
        }),
{
    let trace = cons_trace(value, id, next, format)->0;
    let n = next as u32;
    let handle = ForkHandle(n);
    let first = value.0.trace(n, next + 1, format)->0;
    let encoded = <F as Format<ForkHandle>>::serialized(first.format, handle);
    let payload = encoded.1->Ok_0;
    let rest = value.1.trace(id, first.next, encoded.0)->0;
    let head = first.items.push((id, payload));
    let next_handle = StreamFuture::<IdChannelFork<ForkHandle, Bottom>, ForkHandle, Bottom>::of(
        inlet(id),
    );
    let start = <Cons<A, R> as Protocol<IdChannel<F>, F>>::coalescing(inlet(id), ctx);
    let machine = tuple::Coalesce::<IdChannel<F>, A, R, F>::Next(next_handle);
    assert(start == (machine, ctx));
    let step = machine.polled(ctx);
    value.0.law_trace(n, next + 1, format);
    value.1.law_trace(id, first.next, encoded.0);
    assert(trace.items == head + rest.items);
    assert(ctx.known.contains(id));
    // What the wire carries for each sub-channel.
    assert forall|i: int| 0 <= i < first.items.len() implies (#[trigger] first.items[i]).0
        != id by {
        let at = first.items[i].0;
        if at == id {
            assert(!ctx.known.contains(at));
        }
    }
    lemma_project_absent(first.items, id);
    lemma_project_push(first.items, (id, payload), id);
    lemma_project_add(head, rest.items, id);
    assert(ctx.sinks[id] =~= seq![payload] + project(rest.items, id));
    assert(ctx.sinks[id].remove(0) =~= project(rest.items, id));
    assert forall|other: u32| n <= other < first.next implies #[trigger] project(
        trace.items,
        other,
    ) == project(first.items, other) by {
        lemma_project_push(first.items, (id, payload), other);
        lemma_project_add(head, rest.items, other);
        assert forall|i: int| 0 <= i < rest.items.len() implies (#[trigger] rest.items[i]).0
            != other by {
            let at = rest.items[i].0;
            if at == other {
                assert(!ctx.known.contains(other));
            }
        }
        lemma_project_absent(rest.items, other);
        assert(project(first.items, other) + Seq::<Seq<u8>>::empty() =~= project(
            first.items,
            other,
        ));
    }
    assert forall|other: u32| first.next <= other < rest.next implies #[trigger] project(
        trace.items,
        other,
    ) == project(rest.items, other) by {
        lemma_project_push(first.items, (id, payload), other);
        lemma_project_add(head, rest.items, other);
        lemma_project_absent(first.items, other);
        assert(!ctx.known.contains(other));
        assert(Seq::<Seq<u8>>::empty() + project(rest.items, other) =~= project(
            rest.items,
            other,
        ));
    }
    // The handle is read.
    <F as Lossless<ForkHandle>>::round_trip(first.format, ctx.format, handle);
    lemma_next(ctx, id, handle);
    let c1 = taken(ctx, id);
    assert(c1.sinks =~= ctx.sinks.insert(id, project(rest.items, id)));
    assert(c1.wf());
    // The first component is joined.
    assert(c1.awaits(trace.items, n as nat, first.next)) by {
        assert forall|other: u32| n <= other < first.next implies !c1.known.contains(other)
            && #[trigger] c1.early(other) == project(trace.items, other) by {
            assert(!ctx.known.contains(other));
            assert(ctx.early(other) == project(trace.items, other));
        }
    }
    lemma_join(value.0, n, format, trace.items, c1);
    let join = IdChannel::<F>::joining_fork::<A>(c1, handle);
    let joined = join.0.polled(join.1);
    let c2 = joined.1;
    assert(joined.2 matches Poll::Ready(Ok(got)) && got == value.0);
    assert(c2.sinks == c1.sinks && c2.known == c1.known + span(n as nat, first.next) && c2.held
        == c1.held.remove_keys(span(n as nat, first.next)) && c2.ended == c1.ended
        && c2.outbound == c1.outbound && c2.fault == c1.fault && c2.next == c1.joined(
        n as nat,
        first.next,
    ).next) by {
        assert(c2.with_format(c1.format) == c1.joined(n as nat, first.next));
    }
    // The rest is rebuilt.
    assert(c2.holds(rest.items, id, first.next, rest.next)) by {
        assert forall|other: u32| first.next <= other < rest.next implies !c2.known.contains(
            other,
        ) && #[trigger] c2.early(other) == project(rest.items, other) by {
            assert(!ctx.known.contains(other));
            assert(ctx.early(other) == project(trace.items, other));
            assert(c2.early(other) == ctx.early(other));
        }
    }
    R::law_idle(id, c2, c2);
    value.1.law_coalesce(id, first.next, encoded.0, c2);
    let tail = <R as Protocol<IdChannel<F>, F>>::coalescing(inlet(id), c2);
    let sailed = tail.0.polled(tail.1);
    let c3 = sailed.1;
    assert(c3.sinks == c2.sinks.insert(id, Seq::empty()) && c3.known == c2.known + span(
        first.next,
        rest.next,
    ) && c3.held == c2.held.remove_keys(span(first.next, rest.next)) && c3.ended == c2.ended
        && c3.outbound == c2.outbound && c3.fault == c2.fault && c3.next == c2.rebuilt(
        id,
        first.next,
        rest.next,
    ).next) by {
        assert(c3.with_format(c2.format) == c2.rebuilt(id, first.next, rest.next));
    }
    let third = tuple::Coalesce::<IdChannel<F>, A, R, F>::rested(tail.0, value.0, tail.1);
    assert(third.1 == c3);
    assert(third.2 == Poll::Ready(
        Ok::<Cons<A, R>, <Cons<A, R> as Protocol<IdChannel<F>, F>>::CoalesceError>(
            Cons(value.0, value.1),
        ),
    ));
    let second = tuple::Coalesce::<IdChannel<F>, A, R, F>::joined(join.0, inlet(id), join.1);
    assert(second == third);
    assert(tuple::Coalesce::<IdChannel<F>, A, R, F>::awaited(next_handle, ctx) == second);
    assert(step == third);
    // What is left is what the trace says.
    let done = ctx.rebuilt(id, next, trace.next);
    let after = c3.with_format(ctx.format);
    assert(after.sinks =~= done.sinks);
    assert(after.known =~= done.known);
    assert(after.held =~= done.held);
    assert(after.parked =~= done.parked);
    assert(after.next == done.next);
    assert(after == done);
}

impl<
    F: Lossless<ForkHandle> + Format<ForkHandle, Representation = Vec<u8>> + Format<
        Bottom,
        Representation = Vec<u8>,
    > + Format<<A as Protocol<IdChannel<F>, F>>::Unravel, Representation = Vec<u8>> + Format<
        <A as Protocol<IdChannel<F>, F>>::Coalesce,
        Representation = Vec<u8>,
    >,
    A: Faithful<F> + Protocol<IdChannel<F>, F>,
    R: Faithful<F> + Protocol<IdChannel<F>, F, Unravel = ForkHandle, Coalesce = Bottom>,
> Faithful<F> for Cons<A, R> {
    open spec fn trace(self, id: u32, next: nat, format: F) -> Option<Trace<F>> {
        cons_trace(self, id, next, format)
    }

    proof fn law_trace(self, id: u32, next: nat, format: F) {
        lemma_cons_trace(self, id, next, format);
    }

    proof fn law_unravel(self, ctx: Model<F>, id: u32) {
        lemma_cons_unravel(self, ctx, id);
    }

    proof fn law_resolve(self, ctx: Model<F>, id: u32) {
        lemma_cons_resolves(self, ctx, id);
    }

    proof fn law_cancel(self, ctx: Model<F>, id: u32) {
        lemma_cons_cancel(self, ctx, id);
    }

    proof fn law_idle(id: u32, ctx: Model<F>, other: Model<F>) {
        lemma_cons_idle::<F, A, R>(id, ctx, other);
    }

    proof fn law_coalesce(self, id: u32, next: nat, format: F, ctx: Model<F>) {
        lemma_cons_coalesce(self, id, next, format, ctx);
    }
}

} // verus!
