//! An option is carried faithfully if its content is.
use vstd::prelude::*;

use crate::channel::id::faithful::steps::{
    handed, inlet, lemma_end, lemma_forward, lemma_forward_resolves, lemma_handed, lemma_next,
    outlet, taken,
};
use crate::channel::id::faithful::{
    lemma_fork, lemma_fork_resolves, lemma_join, theorem_cancel, Faithful, Trace,
};
use crate::channel::id::wire::{lemma_project_absent, lemma_project_push, project};
use crate::channel::id::{Error, ForkHandle, IdChannel, IdChannelFork, Model};
use crate::format::{Format, Lossless};
use crate::future::{Either, Forward, Ready, StreamFuture};
use crate::option;
use crate::{Bottom, ContextError, Poll, Protocol, Task};

verus! {

/// What sending an option leaves behind. `None` sends nothing. `Some`
/// forks its content, which leaves its own trace on the new sub-channel,
/// and then sends the handle on the sub-channel of the option.
pub open spec fn option_trace<F: Format<ForkHandle, Representation = Vec<u8>>, T: Faithful<F>>(
    value: Option<T>,
    id: u32,
    next: nat,
    format: F,
) -> Option<Trace<F>> {
    match value {
        None => if next <= 0x1_0000_0000 {
            Some(Trace { items: Seq::empty(), next, format })
        } else {
            None
        },
        Some(item) => if next <= u32::MAX {
            match item.trace(next as u32, next + 1, format) {
                Some(inner) => {
                    let encoded = <F as Format<ForkHandle>>::serialized(
                        inner.format,
                        ForkHandle(next as u32),
                    );
                    match encoded.1 {
                        Ok(payload) => Some(
                            Trace {
                                items: inner.items.push((id, payload)),
                                next: inner.next,
                                format: encoded.0,
                            },
                        ),
                        Err(_) => None,
                    }
                },
                None => None,
            }
        } else {
            None
        },
    }
}

/// An option uses the identifiers that its content uses, and one more for
/// the content itself.
pub proof fn lemma_option_trace<F: Format<ForkHandle, Representation = Vec<u8>>, T: Faithful<F>>(
    value: Option<T>,
    id: u32,
    next: nat,
    format: F,
)
    requires
        option_trace(value, id, next, format) is Some,
    ensures
        next <= option_trace(value, id, next, format)->0.next <= 0x1_0000_0000,
        value is Some ==> next < option_trace(value, id, next, format)->0.next,
        forall|i: int|
            0 <= i < option_trace(value, id, next, format)->0.items.len() ==> {
                let at = (#[trigger] option_trace(value, id, next, format)->0.items[i]).0;
                at == id || next <= at < option_trace(value, id, next, format)->0.next
            },
{
    match value {
        None => {},
        Some(item) => {
            item.law_trace(next as u32, next + 1, format);
        },
    }
}

/// Unraveling an option resolves at the first poll and leaves its trace.
pub proof fn lemma_option_unravel<
    F: Lossless<ForkHandle> + Format<ForkHandle, Representation = Vec<u8>> + Format<
        Bottom,
        Representation = Vec<u8>,
    > + Format<<T as Protocol<IdChannel<F>, F>>::Unravel, Representation = Vec<u8>> + Format<
        <T as Protocol<IdChannel<F>, F>>::Coalesce,
        Representation = Vec<u8>,
    >,
    T: Faithful<F> + Protocol<IdChannel<F>, F>,
>(value: Option<T>, ctx: Model<F>, id: u32)
    requires
        ctx.wf(),
        ctx.sinks.contains_key(id),
        option_trace(value, id, ctx.next, ctx.format) is Some,
    ensures
        ({
            let start = <Option<T> as Protocol<IdChannel<F>, F>>::unraveling(
                value,
                IdChannelFork::of(id),
                ctx,
            );
            let step = start.0.polled(start.1);
            &&& start.0.unresolved()
            &&& step.2 == Poll::Ready(
                Ok::<(), <Option<T> as Protocol<IdChannel<F>, F>>::UnravelError>(()),
            )
            &&& step.1 == ctx.sent(option_trace(value, id, ctx.next, ctx.format)->0)
            &&& step.1.wf()
        }),
{
    let trace = option_trace(value, id, ctx.next, ctx.format)->0;
    let start = <Option<T> as Protocol<IdChannel<F>, F>>::unraveling(value, outlet(id), ctx);
    let step = start.0.polled(start.1);
    match value {
        None => {
            let done: Ready<Result<(), <Option<T> as Protocol<IdChannel<F>, F>>::UnravelError>> =
                Ready(Some(Ok(())));
            assert(start.0 == Either::<option::Unravel<IdChannel<F>, T, F>, _>::Right(done));
            assert(start.1 == ctx);
            assert(step.1 == ctx);
            assert(ctx.sent(trace).known =~= ctx.known);
            assert(ctx.sent(trace).held =~= ctx.held);
            assert(ctx.sent(trace).parked =~= ctx.parked);
            assert(ctx.sent(trace).outbound =~= ctx.outbound);
            assert(ctx.sent(trace) == ctx);
        },
        Some(item) => {
            let handle = ForkHandle(ctx.next as u32);
            let inner = item.trace(ctx.next as u32, ctx.next + 1, ctx.format)->0;
            // The content is forked, and its fork resolves.
            lemma_fork(item, ctx);
            let fork = IdChannel::<F>::forking(ctx, item);
            let forked = fork.0.polled(fork.1);
            assert(forked.1 == ctx.sent(inner));
            let first = option::Unravel::<IdChannel<F>, T, F>::Spawn(Some(outlet(id)), fork.0);
            assert(start.0 == Either::<
                _,
                Ready<Result<(), <Option<T> as Protocol<IdChannel<F>, F>>::UnravelError>>,
            >::Left(first));
            assert(start.1 == fork.1);
            // The handle is sent.
            lemma_forward(forked.1, id, handle);
            let send = Forward::<IdChannelFork<Bottom, ForkHandle>, Bottom, ForkHandle>::once(
                handle,
                outlet(id),
            );
            let sent = <Forward<IdChannelFork<Bottom, ForkHandle>, Bottom, ForkHandle> as Task<
                IdChannel<F>,
            >>::polled(send, forked.1);
            assert(sent.1 == handed(forked.1, id, handle));
            let second = option::Unravel::<IdChannel<F>, T, F>::sending(send, forked.1);
            assert(second.1 == sent.1);
            assert(second.2 == Poll::Ready(
                Ok::<(), <Option<T> as Protocol<IdChannel<F>, F>>::UnravelError>(()),
            ));
            assert(first.polled(fork.1) == second);
            assert(step.1 == second.1);
            assert(step.2 == second.2);
            // What is left is what the trace says.
            let done = ctx.sent(trace);
            assert(sent.1.known =~= done.known);
            assert(sent.1.held =~= done.held);
            assert(sent.1.parked =~= done.parked);
            assert(sent.1.outbound =~= done.outbound);
            assert(sent.1 == done);
        },
    }
}

/// Unraveling an option resolves at the first poll, whether all of it
/// could be sent or not, and leaves the live registry as it was.
pub proof fn lemma_option_resolves<
    F: Lossless<ForkHandle> + Format<ForkHandle, Representation = Vec<u8>> + Format<
        Bottom,
        Representation = Vec<u8>,
    > + Format<<T as Protocol<IdChannel<F>, F>>::Unravel, Representation = Vec<u8>> + Format<
        <T as Protocol<IdChannel<F>, F>>::Coalesce,
        Representation = Vec<u8>,
    >,
    T: Faithful<F> + Protocol<IdChannel<F>, F>,
>(value: Option<T>, ctx: Model<F>, id: u32)
    requires
        ctx.wf(),
    ensures
        ({
            let start = <Option<T> as Protocol<IdChannel<F>, F>>::unraveling(
                value,
                IdChannelFork::of(id),
                ctx,
            );
            let step = start.0.polled(start.1);
            &&& step.2 is Ready
            &&& step.1.sinks == ctx.sinks
            &&& step.1.wf()
        }),
{
    let start = <Option<T> as Protocol<IdChannel<F>, F>>::unraveling(value, outlet(id), ctx);
    let step = start.0.polled(start.1);
    match value {
        None => {
            let done: Ready<Result<(), <Option<T> as Protocol<IdChannel<F>, F>>::UnravelError>> =
                Ready(Some(Ok(())));
            assert(start.0 == Either::<option::Unravel<IdChannel<F>, T, F>, _>::Right(done));
            assert(start.1 == ctx);
            assert(step.1 == ctx);
        },
        Some(item) => {
            // The content is forked, and its fork resolves.
            lemma_fork_resolves(item, ctx);
            let fork = IdChannel::<F>::forking(ctx, item);
            let forked = fork.0.polled(fork.1);
            let first = option::Unravel::<IdChannel<F>, T, F>::Spawn(Some(outlet(id)), fork.0);
            assert(start.0 == Either::<
                _,
                Ready<Result<(), <Option<T> as Protocol<IdChannel<F>, F>>::UnravelError>>,
            >::Left(first));
            assert(start.1 == fork.1);
            let whole = first.polled(fork.1);
            assert(step.1 == whole.1);
            assert(step.2 is Ready <==> whole.2 is Ready);
            match forked.2 {
                Poll::Ready(Ok(handle)) => {
                    // The handle is sent.
                    lemma_forward_resolves(forked.1, id, handle);
                    lemma_handed(forked.1, id, handle);
                    let send = Forward::<
                        IdChannelFork<Bottom, ForkHandle>,
                        Bottom,
                        ForkHandle,
                    >::once(handle, outlet(id));
                    let sent = <Forward<IdChannelFork<Bottom, ForkHandle>, Bottom, ForkHandle> as Task<
                        IdChannel<F>,
                    >>::polled(send, forked.1);
                    let second = option::Unravel::<IdChannel<F>, T, F>::sending(send, forked.1);
                    assert(second.1 == sent.1);
                    assert(second.2 is Ready);
                    assert(whole == second);
                },
                _ => {
                    assert(whole.1 == forked.1);
                    assert(whole.2 is Ready);
                },
            }
        },
    }
}

/// Giving the unraveling of an option up before it was polled leaves the
/// live registry as it was before the unraveling started.
pub proof fn lemma_option_cancel<
    F: Lossless<ForkHandle> + Format<ForkHandle, Representation = Vec<u8>> + Format<
        Bottom,
        Representation = Vec<u8>,
    > + Format<<T as Protocol<IdChannel<F>, F>>::Unravel, Representation = Vec<u8>> + Format<
        <T as Protocol<IdChannel<F>, F>>::Coalesce,
        Representation = Vec<u8>,
    >,
    T: Faithful<F> + Protocol<IdChannel<F>, F>,
>(value: Option<T>, ctx: Model<F>, id: u32)
    requires
        ctx.wf(),
    ensures
        ({
            let start = <Option<T> as Protocol<IdChannel<F>, F>>::unraveling(
                value,
                IdChannelFork::of(id),
                ctx,
            );
            &&& start.0.cancelled(start.1).sinks == ctx.sinks
            &&& start.0.cancelled(start.1).wf()
        }),
{
    let start = <Option<T> as Protocol<IdChannel<F>, F>>::unraveling(value, outlet(id), ctx);
    match value {
        None => {
            let done: Ready<Result<(), <Option<T> as Protocol<IdChannel<F>, F>>::UnravelError>> =
                Ready(Some(Ok(())));
            assert(start.0 == Either::<option::Unravel<IdChannel<F>, T, F>, _>::Right(done));
            assert(start.1 == ctx);
            assert(start.0.cancelled(start.1) == ctx);
        },
        Some(item) => {
            theorem_cancel(item, ctx);
            let fork = IdChannel::<F>::forking(ctx, item);
            let first = option::Unravel::<IdChannel<F>, T, F>::Spawn(Some(outlet(id)), fork.0);
            assert(start.0 == Either::<
                _,
                Ready<Result<(), <Option<T> as Protocol<IdChannel<F>, F>>::UnravelError>>,
            >::Left(first));
            assert(start.1 == fork.1);
            assert(start.0.cancelled(start.1) == fork.0.cancelled(fork.1));
        },
    }
}

/// Starting to coalesce an option touches nothing and reads nothing.
pub proof fn lemma_option_idle<
    F: Lossless<ForkHandle> + Format<ForkHandle, Representation = Vec<u8>> + Format<
        Bottom,
        Representation = Vec<u8>,
    > + Format<<T as Protocol<IdChannel<F>, F>>::Unravel, Representation = Vec<u8>> + Format<
        <T as Protocol<IdChannel<F>, F>>::Coalesce,
        Representation = Vec<u8>,
    >,
    T: Faithful<F> + Protocol<IdChannel<F>, F>,
>(id: u32, ctx: Model<F>, other: Model<F>)
    ensures
        <Option<T> as Protocol<IdChannel<F>, F>>::coalescing(IdChannelFork::of(id), ctx).1 == ctx,
        <Option<T> as Protocol<IdChannel<F>, F>>::coalescing(IdChannelFork::of(id), ctx).0 == <Option<
            T,
        > as Protocol<IdChannel<F>, F>>::coalescing(IdChannelFork::of(id), other).0,
{
}

/// Coalescing an option from an endpoint that holds what unraveling it
/// left resolves at the first poll to the option.
pub proof fn lemma_option_coalesce<
    F: Lossless<ForkHandle> + Format<ForkHandle, Representation = Vec<u8>> + Format<
        Bottom,
        Representation = Vec<u8>,
    > + Format<<T as Protocol<IdChannel<F>, F>>::Unravel, Representation = Vec<u8>> + Format<
        <T as Protocol<IdChannel<F>, F>>::Coalesce,
        Representation = Vec<u8>,
    >,
    T: Faithful<F> + Protocol<IdChannel<F>, F>,
>(value: Option<T>, id: u32, next: nat, format: F, ctx: Model<F>)
    requires
        option_trace(value, id, next, format) is Some,
        ctx.holds(
            option_trace(value, id, next, format)->0.items,
            id,
            next,
            option_trace(value, id, next, format)->0.next,
        ),
    ensures
        ({
            let start = <Option<T> as Protocol<IdChannel<F>, F>>::coalescing(
                IdChannelFork::of(id),
                ctx,
            );
            let step = start.0.polled(start.1);
            &&& start.0.unresolved()
            &&& step.2 == Poll::Ready(
                Ok::<Option<T>, <Option<T> as Protocol<IdChannel<F>, F>>::CoalesceError>(value),
            )
            &&& step.1.with_format(ctx.format) == ctx.rebuilt(
                id,
                next,
                option_trace(value, id, next, format)->0.next,
            )
            &&& step.1.wf()
        }),
{
    let trace = option_trace(value, id, next, format)->0;
    let next_handle = StreamFuture::<IdChannelFork<ForkHandle, Bottom>, ForkHandle, Bottom>::of(
        inlet(id),
    );
    let start = <Option<T> as Protocol<IdChannel<F>, F>>::coalescing(inlet(id), ctx);
    let first = option::Coalesce::<IdChannel<F>, T, F>::Next(next_handle);
    assert(start == (first, ctx));
    let step = first.polled(ctx);
    match value {
        None => {
            assert(ctx.sinks[id] =~= Seq::empty());
            lemma_end(ctx, id);
            assert(step.1 == ctx);
            assert(step.2 == Poll::Ready(
                Ok::<Option<T>, <Option<T> as Protocol<IdChannel<F>, F>>::CoalesceError>(None),
            ));
            let done = ctx.rebuilt(id, next, next);
            assert(done.known =~= ctx.known);
            assert(done.held =~= ctx.held);
            assert(done.parked =~= ctx.parked);
            assert(done.sinks =~= ctx.sinks);
            assert(ctx.with_format(ctx.format) == done);
        },
        Some(item) => {
            let n = next as u32;
            let handle = ForkHandle(n);
            let inner = item.trace(n, next + 1, format)->0;
            let payload = trace.items.last().1;
            item.law_trace(n, next + 1, format);
            // The option's own sub-channel carries the handle and nothing else.
            assert(ctx.known.contains(id));
            assert(!ctx.known.contains(n));
            assert(!ctx.sinks.contains_key(n));
            assert forall|i: int| 0 <= i < inner.items.len() implies (#[trigger] inner.items[i]).0
                != id by {
                let at = inner.items[i].0;
                if at == id {
                    assert(!ctx.known.contains(at));
                }
            }
            lemma_project_absent(inner.items, id);
            lemma_project_push(inner.items, (id, payload), id);
            assert(ctx.sinks[id] =~= seq![payload]);
            assert(ctx.sinks[id].remove(0) =~= Seq::empty());
            // The handle is read.
            <F as Lossless<ForkHandle>>::round_trip(inner.format, ctx.format, handle);
            lemma_next(ctx, id, handle);
            let read = taken(ctx, id);
            assert(read.sinks =~= ctx.sinks.insert(id, Seq::empty()));
            assert(read.wf());
            // The content is joined.
            assert(read.awaits(trace.items, n as nat, inner.next)) by {
                assert forall|other: u32| n <= other < inner.next implies !read.known.contains(
                    other,
                ) && #[trigger] read.early(other) == project(trace.items, other) by {
                    assert(!ctx.known.contains(other));
                    assert(ctx.early(other) == project(trace.items, other));
                }
            }
            assert forall|other: u32| n <= other < inner.next implies #[trigger] project(
                trace.items,
                other,
            ) == project(inner.items, other) by {
                lemma_project_push(inner.items, (id, payload), other);
            }
            lemma_join(item, n, format, trace.items, read);
            let join = IdChannel::<F>::joining_fork::<T>(read, handle);
            let joined = join.0.polled(join.1);
            assert(joined.2 == Poll::Ready(
                Ok::<T, ContextError<Error, <T as Protocol<IdChannel<F>, F>>::CoalesceError>>(
                    item,
                ),
            ));
            let second = option::Coalesce::<IdChannel<F>, T, F>::joined(join.0, join.1);
            assert(second.1 == joined.1);
            assert(second.2 == Poll::Ready(
                Ok::<Option<T>, <Option<T> as Protocol<IdChannel<F>, F>>::CoalesceError>(
                    Some(item),
                ),
            ));
            assert(step == second);
            // What is left is what the trace says.
            let done = ctx.rebuilt(id, next, trace.next);
            let after = joined.1.with_format(ctx.format);
            assert(joined.1.with_format(read.format) == read.joined(n as nat, inner.next));
            assert(after.sinks =~= done.sinks);
            assert(after.known =~= done.known);
            assert(after.held =~= done.held);
            assert(after.parked =~= done.parked);
            assert(after.next == done.next);
            assert(after == done);
        },
    }
}

impl<
    F: Lossless<ForkHandle> + Format<ForkHandle, Representation = Vec<u8>> + Format<
        Bottom,
        Representation = Vec<u8>,
    > + Format<<T as Protocol<IdChannel<F>, F>>::Unravel, Representation = Vec<u8>> + Format<
        <T as Protocol<IdChannel<F>, F>>::Coalesce,
        Representation = Vec<u8>,
    >,
    T: Faithful<F> + Protocol<IdChannel<F>, F>,
> Faithful<F> for Option<T> {
    open spec fn trace(self, id: u32, next: nat, format: F) -> Option<Trace<F>> {
        option_trace(self, id, next, format)
    }

    proof fn law_trace(self, id: u32, next: nat, format: F) {
        lemma_option_trace(self, id, next, format);
    }

    proof fn law_unravel(self, ctx: Model<F>, id: u32) {
        lemma_option_unravel(self, ctx, id);
    }

    proof fn law_resolve(self, ctx: Model<F>, id: u32) {
        lemma_option_resolves(self, ctx, id);
    }

    proof fn law_cancel(self, ctx: Model<F>, id: u32) {
        lemma_option_cancel(self, ctx, id);
    }

    proof fn law_idle(id: u32, ctx: Model<F>, other: Model<F>) {
        lemma_option_idle::<F, T>(id, ctx, other);
    }

    proof fn law_coalesce(self, id: u32, next: nat, format: F, ctx: Model<F>) {
        lemma_option_coalesce(self, id, next, format, ctx);
    }
}

} // verus!
