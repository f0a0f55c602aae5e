//! Sequences are carried faithfully, up to the greatest number of elements
//! that a sequence is rebuilt from.
use vstd::prelude::*;

use crate::channel::id::faithful::steps::{
    handed, inlet, lemma_close, lemma_end, lemma_handed, lemma_next, lemma_send,
    lemma_send_resolves, outlet, taken,
};
use crate::channel::id::faithful::{
    lemma_fork, lemma_fork_resolves, lemma_join, span, theorem_cancel, Faithful, Trace,
};
use crate::channel::id::wire::{
    lemma_project_absent, lemma_project_add, lemma_project_push, project,
};
use crate::channel::id::{ForkHandle, IdChannel, IdChannelFork, Model};
use crate::format::{Format, Lossless};
use crate::future::{Forward, Send, StreamFuture};
use crate::sequence::{self, Sequence, LIMIT};
use crate::{Bottom, Poll, Protocol, Task};

verus! {

/// What sending the elements of a sequence leaves behind: for each element
/// in turn, the trace of the element on a sub-channel of its own and then
/// its handle on the sub-channel of the sequence.
pub open spec fn elements_trace<F: Format<ForkHandle, Representation = Vec<u8>>, T: Faithful<F>>(
    value: Sequence<T>,
    id: u32,
    next: nat,
    format: F,
) -> Option<Trace<F>>
    decreases value,
{
    match value {
        Sequence::End => if next <= 0x1_0000_0000 {
            Some(Trace { items: Seq::empty(), next, format })
        } else {
            None
        },
        Sequence::More(first, rest) => if next <= u32::MAX {
            match first.trace(next as u32, next + 1, format) {
                Some(own) => {
                    let encoded = <F as Format<ForkHandle>>::serialized(
                        own.format,
                        ForkHandle(next as u32),
                    );
                    match encoded.1 {
                        Ok(payload) => match elements_trace(*rest, id, own.next, encoded.0) {
                            Some(tail) => Some(
                                Trace {
                                    items: own.items.push((id, payload)) + tail.items,
                                    next: tail.next,
                                    format: tail.format,
                                },
                            ),
                            None => None,
                        },
                        Err(_) => None,
                    }
                },
                None => None,
            }
        } else {
            None
        },
    }
}

/// What sending a sequence leaves behind, if the sequence is short enough
/// to be rebuilt.
pub open spec fn sequence_trace<F: Format<ForkHandle, Representation = Vec<u8>>, T: Faithful<F>>(
    value: Sequence<T>,
    id: u32,
    next: nat,
    format: F,
) -> Option<Trace<F>> {
    if value.len() <= LIMIT {
        elements_trace(value, id, next, format)
    } else {
        None
    }
}

/// A sequence uses the identifiers that its elements use, and one more for
/// each element.
pub proof fn lemma_elements_trace<F: Format<ForkHandle, Representation = Vec<u8>>, T: Faithful<F>>(
    value: Sequence<T>,
    id: u32,
    next: nat,
    format: F,
)
    requires
        elements_trace(value, id, next, format) is Some,
    ensures
        next <= elements_trace(value, id, next, format)->0.next <= 0x1_0000_0000,
        forall|i: int|
            0 <= i < elements_trace(value, id, next, format)->0.items.len() ==> {
                let at = (#[trigger] elements_trace(value, id, next, format)->0.items[i]).0;
                at == id || next <= at < elements_trace(value, id, next, format)->0.next
            },
    decreases value,
{
    match value {
        Sequence::End => {},
        Sequence::More(first, rest) => {
            let own = first.trace(next as u32, next + 1, format)->0;
            let encoded = <F as Format<ForkHandle>>::serialized(own.format, ForkHandle(next as u32));
            first.law_trace(next as u32, next + 1, format);
            lemma_elements_trace(*rest, id, own.next, encoded.0);
        },
    }
}

/// Sending goes on faithfully from any point: with the channel free, the
/// elements that wait are sent one after the other, and the channel is
/// closed.
pub proof fn lemma_sequence_begun<
    F: Lossless<ForkHandle> + Format<ForkHandle, Representation = Vec<u8>> + Format<
        Bottom,
        Representation = Vec<u8>,
    > + Format<<T as Protocol<IdChannel<F>, F>>::Unravel, Representation = Vec<u8>> + Format<
        <T as Protocol<IdChannel<F>, F>>::Coalesce,
        Representation = Vec<u8>,
    >,
    T: Faithful<F> + Protocol<IdChannel<F>, F>,
>(value: Sequence<T>, ctx: Model<F>, id: u32)
    requires
        ctx.wf(),
        ctx.sinks.contains_key(id),
        elements_trace(value, id, ctx.next, ctx.format) is Some,
    ensures
        ({
            let step = sequence::Unravel::<IdChannel<F>, T, F>::begun(outlet(id), value, ctx);
            &&& step.2 == Poll::Ready(
                Ok::<(), <Sequence<T> as Protocol<IdChannel<F>, F>>::UnravelError>(()),
            )
            &&& step.1 == ctx.sent(elements_trace(value, id, ctx.next, ctx.format)->0)
            &&& step.1.wf()
        }),
    decreases value,
{
    let trace = elements_trace(value, id, ctx.next, ctx.format)->0;
    let step = sequence::Unravel::<IdChannel<F>, T, F>::begun(outlet(id), value, ctx);
    match value {
        Sequence::End => {
            lemma_close(ctx, id);
            let close = Forward::<IdChannelFork<Bottom, ForkHandle>, Bottom, ForkHandle>::ending(
                outlet(id),
            );
            assert(step == sequence::Unravel::<IdChannel<F>, T, F>::closed(close, ctx));
            assert(step.1 == ctx);
            assert(ctx.sent(trace).known =~= ctx.known);
            assert(ctx.sent(trace).held =~= ctx.held);
            assert(ctx.sent(trace).parked =~= ctx.parked);
            assert(ctx.sent(trace).outbound =~= ctx.outbound);
            assert(ctx.sent(trace) == ctx);
        },
        Sequence::More(first, rest) => {
            let handle = ForkHandle(ctx.next as u32);
            let own = first.trace(ctx.next as u32, ctx.next + 1, ctx.format)->0;
            let encoded = <F as Format<ForkHandle>>::serialized(own.format, handle);
            let tail = elements_trace(*rest, id, own.next, encoded.0)->0;
            // The element is forked, and its fork resolves.
            lemma_fork(first, ctx);
            let fork = IdChannel::<F>::forking(ctx, first);
            let forked = fork.0.polled(fork.1);
            assert(forked.1 == ctx.sent(own));
            // Its handle is sent.
            lemma_send(forked.1, id, handle);
            let send = Send::<IdChannelFork<Bottom, ForkHandle>, Bottom, ForkHandle>::of(
                handle,
                outlet(id),
            );
            let sent = <Send<IdChannelFork<Bottom, ForkHandle>, Bottom, ForkHandle> as Task<
                IdChannel<F>,
            >>::polled(send, forked.1);
            assert(sent.1 == handed(forked.1, id, handle));
            assert(sent.1.wf());
            // The elements after it are sent.
            lemma_elements_trace(*rest, id, own.next, encoded.0);
            lemma_sequence_begun(*rest, sent.1, id);
            let third = sequence::Unravel::<IdChannel<F>, T, F>::begun(outlet(id), *rest, sent.1);
            let second = sequence::Unravel::<IdChannel<F>, T, F>::sent(send, *rest, forked.1);
            assert(second == third);
            assert(sequence::Unravel::<IdChannel<F>, T, F>::spawned(
                fork.0,
                outlet(id),
                *rest,
                fork.1,
            ) == second);
            assert(step == third);
            // What is left is what the trace says.
            let done = ctx.sent(trace);
            let after = sent.1.sent(tail);
            assert(after.known =~= done.known);
            assert(after.held =~= done.held);
            assert(after.parked =~= done.parked);
            assert(after.outbound =~= done.outbound);
            assert(after == done);
        },
    }
}

/// Unraveling a sequence resolves at the first poll and leaves the trace
/// of its elements.
pub proof fn lemma_sequence_unravel<
    F: Lossless<ForkHandle> + Format<ForkHandle, Representation = Vec<u8>> + Format<
        Bottom,
        Representation = Vec<u8>,
    > + Format<<T as Protocol<IdChannel<F>, F>>::Unravel, Representation = Vec<u8>> + Format<
        <T as Protocol<IdChannel<F>, F>>::Coalesce,
        Representation = Vec<u8>,
    >,
    T: Faithful<F> + Protocol<IdChannel<F>, F>,
>(value: Sequence<T>, ctx: Model<F>, id: u32)
    requires
        ctx.wf(),
        ctx.sinks.contains_key(id),
        elements_trace(value, id, ctx.next, ctx.format) is Some,
    ensures
        ({
            let start = <Sequence<T> as Protocol<IdChannel<F>, F>>::unraveling(
                value,
                IdChannelFork::of(id),
                ctx,
            );
            let step = start.0.polled(start.1);
            &&& start.0.unresolved()
            &&& step.2 == Poll::Ready(
                Ok::<(), <Sequence<T> as Protocol<IdChannel<F>, F>>::UnravelError>(()),
            )
            &&& step.1 == ctx.sent(elements_trace(value, id, ctx.next, ctx.format)->0)
            &&& step.1.wf()
        }),
{
    lemma_sequence_begun(value, ctx, id);
    let start = <Sequence<T> as Protocol<IdChannel<F>, F>>::unraveling(value, outlet(id), ctx);
    let whole = sequence::Unravel::<IdChannel<F>, T, F>::begun(outlet(id), value, ctx);
    match value {
        Sequence::End => {
            lemma_close(ctx, id);
            let close = Forward::<IdChannelFork<Bottom, ForkHandle>, Bottom, ForkHandle>::ending(
                outlet(id),
            );
            assert(start == (sequence::Unravel::<IdChannel<F>, T, F>::Close(close), ctx));
            assert(start.0.polled(start.1) == whole);
        },
        Sequence::More(first, rest) => {
            lemma_fork(first, ctx);
            let fork = IdChannel::<F>::forking(ctx, first);
            assert(start == (
                sequence::Unravel::<IdChannel<F>, T, F>::Spawn(
                    fork.0,
                    Some(outlet(id)),
                    Some(*rest),
                ),
                fork.1,
            ));
            assert(start.0.polled(start.1) == whole);
        },
    }
}

/// Sending comes to an end from any point: with the channel free, the
/// elements that wait are sent until one cannot be, and the registry is
/// left as it was.
pub proof fn lemma_sequence_begun_resolves<
    F: Lossless<ForkHandle> + Format<ForkHandle, Representation = Vec<u8>> + Format<
        Bottom,
        Representation = Vec<u8>,
    > + Format<<T as Protocol<IdChannel<F>, F>>::Unravel, Representation = Vec<u8>> + Format<
        <T as Protocol<IdChannel<F>, F>>::Coalesce,
        Representation = Vec<u8>,
    >,
    T: Faithful<F> + Protocol<IdChannel<F>, F>,
>(value: Sequence<T>, ctx: Model<F>, id: u32)
    requires
        ctx.wf(),
    ensures
        ({
            let step = sequence::Unravel::<IdChannel<F>, T, F>::begun(outlet(id), value, ctx);
            &&& step.2 is Ready
            &&& step.1.sinks == ctx.sinks
            &&& step.1.wf()
        }),
    decreases value,
{
    let step = sequence::Unravel::<IdChannel<F>, T, F>::begun(outlet(id), value, ctx);
    match value {
        Sequence::End => {
            lemma_close(ctx, id);
            let close = Forward::<IdChannelFork<Bottom, ForkHandle>, Bottom, ForkHandle>::ending(
                outlet(id),
            );
            assert(step == sequence::Unravel::<IdChannel<F>, T, F>::closed(close, ctx));
            assert(step.1 == ctx);
        },
        Sequence::More(first, rest) => {
            // The element is forked, and its fork resolves.
            lemma_fork_resolves(first, ctx);
            let fork = IdChannel::<F>::forking(ctx, first);
            let forked = fork.0.polled(fork.1);
            let whole = sequence::Unravel::<IdChannel<F>, T, F>::spawned(
                fork.0,
                outlet(id),
                *rest,
                fork.1,
            );
            assert(step == whole);
            match forked.2 {
                Poll::Ready(Ok(handle)) => {
                    // Its handle is sent.
                    lemma_send_resolves(forked.1, id, handle);
                    lemma_handed(forked.1, id, handle);
                    let send = Send::<IdChannelFork<Bottom, ForkHandle>, Bottom, ForkHandle>::of(
                        handle,
                        outlet(id),
                    );
                    let sent = <Send<IdChannelFork<Bottom, ForkHandle>, Bottom, ForkHandle> as Task<
                        IdChannel<F>,
                    >>::polled(send, forked.1);
                    let second = sequence::Unravel::<IdChannel<F>, T, F>::sent(
                        send,
                        *rest,
                        forked.1,
                    );
                    assert(whole == second);
                    match sent.2 {
                        Poll::Ready(Ok(channel)) => {
                            // The elements after it are sent.
                            lemma_sequence_begun_resolves(*rest, sent.1, id);
                            let third = sequence::Unravel::<IdChannel<F>, T, F>::begun(
                                outlet(id),
                                *rest,
                                sent.1,
                            );
                            assert(second == third);
                        },
                        _ => {
                            assert(second.1 == sent.1);
                            assert(second.2 is Ready);
                        },
                    }
                },
                _ => {
                    assert(whole.1 == forked.1);
                    assert(whole.2 is Ready);
                },
            }
        },
    }
}

/// Unraveling a sequence resolves at the first poll, whether all of it
/// could be sent or not, and leaves the live registry as it was.
pub proof fn lemma_sequence_resolves<
    F: Lossless<ForkHandle> + Format<ForkHandle, Representation = Vec<u8>> + Format<
        Bottom,
        Representation = Vec<u8>,
    > + Format<<T as Protocol<IdChannel<F>, F>>::Unravel, Representation = Vec<u8>> + Format<
        <T as Protocol<IdChannel<F>, F>>::Coalesce,
        Representation = Vec<u8>,
    >,
    T: Faithful<F> + Protocol<IdChannel<F>, F>,
>(value: Sequence<T>, ctx: Model<F>, id: u32)
    requires
        ctx.wf(),
    ensures
        ({
            let start = <Sequence<T> as Protocol<IdChannel<F>, F>>::unraveling(
                value,
                IdChannelFork::of(id),
                ctx,
            );
            let step = start.0.polled(start.1);
            &&& step.2 is Ready
            &&& step.1.sinks == ctx.sinks
            &&& step.1.wf()
        }),
{
    lemma_sequence_begun_resolves(value, ctx, id);
    let start = <Sequence<T> as Protocol<IdChannel<F>, F>>::unraveling(value, outlet(id), ctx);
    let whole = sequence::Unravel::<IdChannel<F>, T, F>::begun(outlet(id), value, ctx);
    match value {
        Sequence::End => {
            let close = Forward::<IdChannelFork<Bottom, ForkHandle>, Bottom, ForkHandle>::ending(
                outlet(id),
            );
            assert(start == (sequence::Unravel::<IdChannel<F>, T, F>::Close(close), ctx));
            assert(start.0.polled(start.1) == whole);
        },
        Sequence::More(first, rest) => {
            let fork = IdChannel::<F>::forking(ctx, first);
            assert(start == (
                sequence::Unravel::<IdChannel<F>, T, F>::Spawn(
                    fork.0,
                    Some(outlet(id)),
                    Some(*rest),
                ),
                fork.1,
            ));
            assert(start.0.polled(start.1) == whole);
        },
    }
}

/// Giving the unraveling of a sequence up before it was polled leaves the
/// live registry as it was before the unraveling started.
pub proof fn lemma_sequence_cancel<
    F: Lossless<ForkHandle> + Format<ForkHandle, Representation = Vec<u8>> + Format<
        Bottom,
        Representation = Vec<u8>,
    > + Format<<T as Protocol<IdChannel<F>, F>>::Unravel, Representation = Vec<u8>> + Format<
        <T as Protocol<IdChannel<F>, F>>::Coalesce,
        Representation = Vec<u8>,
    >,
    T: Faithful<F> + Protocol<IdChannel<F>, F>,
>(value: Sequence<T>, ctx: Model<F>, id: u32)
    requires
        ctx.wf(),
    ensures
        ({
            let start = <Sequence<T> as Protocol<IdChannel<F>, F>>::unraveling(
                value,
                IdChannelFork::of(id),
                ctx,
            );
            &&& start.0.cancelled(start.1).sinks == ctx.sinks
            &&& start.0.cancelled(start.1).wf()
        }),
{
    let start = <Sequence<T> as Protocol<IdChannel<F>, F>>::unraveling(value, outlet(id), ctx);
    match value {
        Sequence::End => {
            let close = Forward::<IdChannelFork<Bottom, ForkHandle>, Bottom, ForkHandle>::ending(
                outlet(id),
            );
            assert(start == (sequence::Unravel::<IdChannel<F>, T, F>::Close(close), ctx));
            assert(start.0.cancelled(start.1) == ctx);
        },
        Sequence::More(first, rest) => {
            theorem_cancel(first, ctx);
            let fork = IdChannel::<F>::forking(ctx, first);
            assert(start == (
                sequence::Unravel::<IdChannel<F>, T, F>::Spawn(
                    fork.0,
                    Some(outlet(id)),
                    Some(*rest),
                ),
                fork.1,
            ));
            assert(start.0.cancelled(start.1) == fork.0.cancelled(fork.1));
        },
    }
}

/// Starting to coalesce a sequence touches nothing and reads nothing.
pub proof fn lemma_sequence_idle<
    F: Lossless<ForkHandle> + Format<ForkHandle, Representation = Vec<u8>> + Format<
        Bottom,
        Representation = Vec<u8>,
    > + Format<<T as Protocol<IdChannel<F>, F>>::Unravel, Representation = Vec<u8>> + Format<
        <T as Protocol<IdChannel<F>, F>>::Coalesce,
        Representation = Vec<u8>,
    >,
    T: Faithful<F> + Protocol<IdChannel<F>, F>,
>(id: u32, ctx: Model<F>, other: Model<F>)
    ensures
        <Sequence<T> as Protocol<IdChannel<F>, F>>::coalescing(IdChannelFork::of(id), ctx).1
            == ctx,
        <Sequence<T> as Protocol<IdChannel<F>, F>>::coalescing(IdChannelFork::of(id), ctx).0
            == <Sequence<T> as Protocol<IdChannel<F>, F>>::coalescing(
            IdChannelFork::of(id),
            other,
        ).0,
{
}

/// Rebuilding goes on faithfully from any point: with `so_far` rebuilt,
/// last first, an endpoint that holds what unraveling `value` left gives
/// the elements of `so_far` and then those of `value`.
pub proof fn lemma_sequence_rest<
    F: Lossless<ForkHandle> + Format<ForkHandle, Representation = Vec<u8>> + Format<
        Bottom,
        Representation = Vec<u8>,
    > + Format<<T as Protocol<IdChannel<F>, F>>::Unravel, Representation = Vec<u8>> + Format<
        <T as Protocol<IdChannel<F>, F>>::Coalesce,
        Representation = Vec<u8>,
    >,
    T: Faithful<F> + Protocol<IdChannel<F>, F>,
>(
    value: Sequence<T>,
    so_far: Sequence<T>,
    count: usize,
    id: u32,
    next: nat,
    format: F,
    ctx: Model<F>,
)
    requires
        elements_trace(value, id, next, format) is Some,
        ctx.holds(
            elements_trace(value, id, next, format)->0.items,
            id,
            next,
            elements_trace(value, id, next, format)->0.next,
        ),
        count + value.len() <= LIMIT,
    ensures
        ({
            let step = sequence::Coalesce::<IdChannel<F>, T, F>::awaited(
                StreamFuture::of(IdChannelFork::of(id)),
                so_far,
                count,
                ctx,
            );
            &&& step.2 == Poll::Ready(
                Ok::<Sequence<T>, <Sequence<T> as Protocol<IdChannel<F>, F>>::CoalesceError>(
                    value.reversed(so_far).reversed(Sequence::End),
                ),
            )
            &&& step.1.with_format(ctx.format) == ctx.rebuilt(
                id,
                next,
                elements_trace(value, id, next, format)->0.next,
            )
            &&& step.1.wf()
        }),
    decreases value,
{
    let trace = elements_trace(value, id, next, format)->0;
    let next_handle = StreamFuture::<IdChannelFork<ForkHandle, Bottom>, ForkHandle, Bottom>::of(
        inlet(id),
    );
    let whole = sequence::Coalesce::<IdChannel<F>, T, F>::awaited(next_handle, so_far, count, ctx);
    match value {
        Sequence::End => {
            assert(ctx.sinks[id] =~= Seq::empty());
            lemma_end(ctx, id);
            assert(whole.1 == ctx);
            assert(whole.2 == Poll::Ready(
                Ok::<Sequence<T>, <Sequence<T> as Protocol<IdChannel<F>, F>>::CoalesceError>(
                    so_far.reversed(Sequence::End),
                ),
            ));
            let done = ctx.rebuilt(id, next, next);
            assert(done.known =~= ctx.known);
            assert(done.held =~= ctx.held);
            assert(done.parked =~= ctx.parked);
            assert(done.sinks =~= ctx.sinks);
            assert(ctx.with_format(ctx.format) == done);
        },
        Sequence::More(first, rest) => {
            let n = next as u32;
            let own = first.trace(n, next + 1, format)->0;
            let encoded = <F as Format<ForkHandle>>::serialized(own.format, ForkHandle(n));
            let payload = encoded.1->Ok_0;
            let tail = elements_trace(*rest, id, own.next, encoded.0)->0;
            let head = own.items.push((id, payload));
            first.law_trace(n, next + 1, format);
            lemma_elements_trace(*rest, id, own.next, encoded.0);
            assert(trace.items == head + tail.items);
            assert(ctx.known.contains(id));
            // What the wire carries for each sub-channel.
            assert forall|i: int| 0 <= i < own.items.len() implies (#[trigger] own.items[i]).0
                != id by {
                let at = own.items[i].0;
                if at == id {
                    assert(!ctx.known.contains(at));
                }
            }
            lemma_project_absent(own.items, id);
            lemma_project_push(own.items, (id, payload), id);
            lemma_project_add(head, tail.items, id);
            assert(ctx.sinks[id] =~= seq![payload] + project(tail.items, id));
            assert forall|other: u32| n <= other < own.next implies #[trigger] project(
                trace.items,
                other,
            ) == project(own.items, other) by {
                lemma_project_push(own.items, (id, payload), other);
                lemma_project_add(head, tail.items, other);
                assert forall|i: int| 0 <= i < tail.items.len() implies (#[trigger] tail.items[i]).0
                    != other by {
                    let at = tail.items[i].0;
                    if at == other {
                        assert(!ctx.known.contains(other));
                    }
                }
                lemma_project_absent(tail.items, other);
                assert(project(own.items, other) + Seq::<Seq<u8>>::empty() =~= project(
                    own.items,
                    other,
                ));
            }
            assert forall|other: u32| own.next <= other < tail.next implies #[trigger] project(
                trace.items,
                other,
            ) == project(tail.items, other) by {
                lemma_project_push(own.items, (id, payload), other);
                lemma_project_add(head, tail.items, other);
                lemma_project_absent(own.items, other);
                assert(!ctx.known.contains(other));
                assert(Seq::<Seq<u8>>::empty() + project(tail.items, other) =~= project(
                    tail.items,
                    other,
                ));
            }
            // The handle is read.
            let handle = ForkHandle(n);
            <F as Lossless<ForkHandle>>::round_trip(own.format, ctx.format, handle);
            assert(ctx.sinks[id].remove(0) =~= project(tail.items, id));
            lemma_next(ctx, id, handle);
            let c1 = taken(ctx, id);
            assert(c1.sinks =~= ctx.sinks.insert(id, project(tail.items, id)));
            assert(c1.wf());
            // The element is joined.
            value.lemma_len();
            assert(c1.awaits(trace.items, n as nat, own.next)) by {
                assert forall|other: u32| n <= other < own.next implies !c1.known.contains(other)
                    && #[trigger] c1.early(other) == project(trace.items, other) by {
                    assert(!ctx.known.contains(other));
                    assert(ctx.early(other) == project(trace.items, other));
                }
            }
            lemma_join(first, n, format, trace.items, c1);
            let join = IdChannel::<F>::joining_fork::<T>(c1, handle);
            let joined = join.0.polled(join.1);
            let c2 = joined.1;
            assert(joined.2 matches Poll::Ready(Ok(got)) && got == first);
            assert(c2.sinks == c1.sinks && c2.known == c1.known + span(n as nat, own.next)
                && c2.held == c1.held.remove_keys(span(n as nat, own.next)) && c2.ended
                == c1.ended && c2.outbound == c1.outbound && c2.fault == c1.fault && c2.next
                == c1.joined(n as nat, own.next).next) by {
                assert(c2.with_format(c1.format) == c1.joined(n as nat, own.next));
            }
            // The elements after it.
            assert(c2.holds(tail.items, id, own.next, tail.next)) by {
                assert forall|other: u32| own.next <= other < tail.next implies !c2.known.contains(
                    other,
                ) && #[trigger] c2.early(other) == project(tail.items, other) by {
                    assert(!ctx.known.contains(other));
                    assert(ctx.early(other) == project(trace.items, other));
                    assert(c2.early(other) == ctx.early(other));
                }
            }
            let more = Sequence::More(first, Box::new(so_far));
            assert(count < LIMIT);
            lemma_sequence_rest(*rest, more, (count + 1) as usize, id, own.next, encoded.0, c2);
            let third = sequence::Coalesce::<IdChannel<F>, T, F>::awaited(
                next_handle,
                more,
                (count + 1) as usize,
                c2,
            );
            let c3 = third.1;
            let second = sequence::Coalesce::<IdChannel<F>, T, F>::joined(
                join.0,
                inlet(id),
                so_far,
                count,
                join.1,
            );
            assert(second == third);
            assert(whole == second);
            assert(value.reversed(so_far) == rest.reversed(more));
            assert(c3.sinks == c2.sinks.insert(id, Seq::empty()) && c3.known == c2.known + span(
                own.next,
                tail.next,
            ) && c3.held == c2.held.remove_keys(span(own.next, tail.next)) && c3.ended
                == c2.ended && c3.outbound == c2.outbound && c3.fault == c2.fault && c3.next
                == c2.rebuilt(id, own.next, tail.next).next) by {
                assert(c3.with_format(c2.format) == c2.rebuilt(id, own.next, tail.next));
            }
            let done = ctx.rebuilt(id, next, trace.next);
            let after = c3.with_format(ctx.format);
            assert(after.sinks =~= done.sinks);
            assert(after.known =~= done.known);
            assert(after.held =~= done.held);
            assert(after.parked =~= done.parked);
            assert(after.next == done.next);
            assert(after == done);
        },
    }
}

/// Coalescing a sequence from an endpoint that holds what unraveling it
/// left resolves at the first poll to the sequence.
pub proof fn lemma_sequence_coalesce<
    F: Lossless<ForkHandle> + Format<ForkHandle, Representation = Vec<u8>> + Format<
        Bottom,
        Representation = Vec<u8>,
    > + Format<<T as Protocol<IdChannel<F>, F>>::Unravel, Representation = Vec<u8>> + Format<
        <T as Protocol<IdChannel<F>, F>>::Coalesce,
        Representation = Vec<u8>,
    >,
    T: Faithful<F> + Protocol<IdChannel<F>, F>,
>(
    value: Sequence<T>,
    id: u32,
    next: nat,
    format: F,
    ctx: Model<F>,
)
    requires
        sequence_trace(value, id, next, format) is Some,
        ctx.holds(
            sequence_trace(value, id, next, format)->0.items,
            id,
            next,
            sequence_trace(value, id, next, format)->0.next,
        ),
    ensures
        ({
            let start = <Sequence<T> as Protocol<IdChannel<F>, F>>::coalescing(
                IdChannelFork::of(id),
                ctx,
            );
            let step = start.0.polled(start.1);
            &&& start.0.unresolved()
            &&& step.2 == Poll::Ready(
                Ok::<Sequence<T>, <Sequence<T> as Protocol<IdChannel<F>, F>>::CoalesceError>(
                    value,
                ),
            )
            &&& step.1.with_format(ctx.format) == ctx.rebuilt(
                id,
                next,
                sequence_trace(value, id, next, format)->0.next,
            )
            &&& step.1.wf()
        }),
{
    lemma_sequence_rest(value, Sequence::End, 0, id, next, format, ctx);
    value.lemma_reversed_twice();
}

impl<
    F: Lossless<ForkHandle> + Format<ForkHandle, Representation = Vec<u8>> + Format<
        Bottom,
        Representation = Vec<u8>,
    > + Format<<T as Protocol<IdChannel<F>, F>>::Unravel, Representation = Vec<u8>> + Format<
        <T as Protocol<IdChannel<F>, F>>::Coalesce,
        Representation = Vec<u8>,
    >,
    T: Faithful<F> + Protocol<IdChannel<F>, F>,
> Faithful<F> for Sequence<T> {
    open spec fn trace(self, id: u32, next: nat, format: F) -> Option<Trace<F>> {
        sequence_trace(self, id, next, format)
    }

    proof fn law_trace(self, id: u32, next: nat, format: F) {
        lemma_elements_trace(self, id, next, format);
    }

    proof fn law_unravel(self, ctx: Model<F>, id: u32) {
        lemma_sequence_unravel(self, ctx, id);
    }

    proof fn law_resolve(self, ctx: Model<F>, id: u32) {
        lemma_sequence_resolves(self, ctx, id);
    }

    proof fn law_cancel(self, ctx: Model<F>, id: u32) {
        lemma_sequence_cancel(self, ctx, id);
    }

    proof fn law_idle(id: u32, ctx: Model<F>, other: Model<F>) {
        lemma_sequence_idle::<F, T>(id, ctx, other);
    }

    proof fn law_coalesce(self, id: u32, next: nat, format: F, ctx: Model<F>) {
        lemma_sequence_coalesce(self, id, next, format, ctx);
    }
}

} // verus!
