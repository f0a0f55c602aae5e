//! Protocols that the multiplexed channel carries faithfully: what one
//! endpoint unravels, the other coalesces to the same value, and neither
//! keeps a sub-channel registered in the end. The live registry of an
//! endpoint holds the sub-channels whose own side is at work; a
//! sub-channel whose handle has gone out rests in the registry until the
//! transport has ended.
use vstd::prelude::*;

use core::marker::PhantomData;

use crate::channel::id::wire::project;
use crate::channel::id::{
    Error, ForkHandle, Forked, IdChannel, IdChannelFork, Joined, Model, Shim, ROOT,
};
use crate::format::Format;
use crate::{ContextError, Poll, Protocol, Task};

pub mod chain;
pub mod lists;
pub mod options;
pub mod scalars;
pub mod sequences;
pub mod steps;
pub mod tuples;
pub mod units;
pub mod watched;

verus! {

/// What unraveling a value leaves behind: the items that it put on the
/// wire, the identifier that the next fork gets, and the format as it is
/// afterwards.
pub struct Trace<F> {
    pub items: Seq<(u32, Seq<u8>)>,
    pub next: nat,
    pub format: F,
}

/// The identifiers from `lo` up to, not including, `hi`.
pub open spec fn span(lo: nat, hi: nat) -> Set<u32> {
    Set::new(|id: u32| lo <= id < hi)
}

impl<F> Model<F> {
    /// The endpoint after a value with trace `trace` has been sent: its
    /// items wait for the transport, the identifiers that it used are
    /// known and spent, the live part of the registry is as it was, and
    /// the sub-channels of what the value forked rest in the registry,
    /// each with what was held for it.
    pub open spec fn sent(self, trace: Trace<F>) -> Self {
        Model {
            format: trace.format,
            next: trace.next,
            known: self.known + span(self.next, trace.next),
            parked: Map::new(
                |id: u32| self.parked.contains_key(id) || span(self.next, trace.next).contains(id),
                |id: u32|
                    if span(self.next, trace.next).contains(id) {
                        self.early(id)
                    } else {
                        self.parked[id]
                    },
            ),
            held: self.held.remove_keys(span(self.next, trace.next)),
            outbound: self.outbound + trace.items,
            ..self
        }
    }

    /// Whether the endpoint has all of a value before it: the transport
    /// has ended, the sub-channel `id` is registered and holds exactly what
    /// `items` carry for it, and each identifier from `lo` up to `hi` has
    /// never been registered and has held for it exactly what `items` carry
    /// for it.
    pub open spec fn holds(self, items: Seq<(u32, Seq<u8>)>, id: u32, lo: nat, hi: nat) -> bool {
        &&& self.wf()
        &&& self.ended
        &&& self.sinks.contains_key(id)
        &&& self.sinks[id] == project(items, id)
        &&& forall|other: u32|
            #![trigger self.early(other)]
            #![trigger self.known.contains(other)]
            lo <= other < hi ==> !self.known.contains(other) && self.early(other) == project(
                items,
                other,
            )
    }

    /// The endpoint after the value that it held for the identifiers from
    /// `lo` up to `hi` has been rebuilt from sub-channel `id`: everything
    /// that was there for the value has been read, the identifiers are
    /// known, and of them only `id` is registered, as it was.
    pub open spec fn rebuilt(self, id: u32, lo: nat, hi: nat) -> Self {
        Model {
            next: if lo < hi && self.next < hi {
                hi
            } else {
                self.next
            },
            known: self.known + span(lo, hi),
            sinks: self.sinks.insert(id, Seq::empty()),
            held: self.held.remove_keys(span(lo, hi)),
            ..self
        }
    }
}

/// A protocol that the multiplexed channel carries faithfully.
pub trait Faithful<F>: Sized {
    /// What unraveling `self` on sub-channel `id` leaves behind, when the
    /// next fork gets `next` and the format is `format`: `None` where an
    /// item does not serialize or the identifiers run out.
    spec fn trace(self, id: u32, next: nat, format: F) -> Option<Trace<F>>;

    /// A value uses the identifiers from `next` on, without a gap, and
    /// puts items on its own sub-channel and on those only.
    proof fn law_trace(self, id: u32, next: nat, format: F)
        requires
            self.trace(id, next, format) is Some,
        ensures
            next <= self.trace(id, next, format)->0.next <= 0x1_0000_0000,
            forall|i: int|
                0 <= i < self.trace(id, next, format)->0.items.len() ==> {
                    let at = (#[trigger] self.trace(id, next, format)->0.items[i]).0;
                    at == id || next <= at < self.trace(id, next, format)->0.next
                },
    ;

    /// Unraveling resolves at the first poll and leaves its trace.
    proof fn law_unravel(self, ctx: Model<F>, id: u32) where
        Self: Protocol<IdChannel<F>, F>,
        F: Format<<Self as Protocol<IdChannel<F>, F>>::Unravel, Representation = Vec<u8>> + Format<
            <Self as Protocol<IdChannel<F>, F>>::Coalesce,
            Representation = Vec<u8>,
        >,

        requires
            ctx.wf(),
            ctx.sinks.contains_key(id),
            self.trace(id, ctx.next, ctx.format) is Some,
        ensures
            ({
                let start = self.unraveling(IdChannelFork::of(id), ctx);
                let step = start.0.polled(start.1);
                &&& start.0.unresolved()
                &&& step.2 == Poll::Ready(Ok::<(), Self::UnravelError>(()))
                &&& step.1 == ctx.sent(self.trace(id, ctx.next, ctx.format)->0)
                &&& step.1.wf()
            }),
    ;

    /// Unraveling resolves at the first poll, whether all of the value
    /// could be sent or not, and leaves the live registry as it was.
    proof fn law_resolve(self, ctx: Model<F>, id: u32) where
        Self: Protocol<IdChannel<F>, F>,
        F: Format<<Self as Protocol<IdChannel<F>, F>>::Unravel, Representation = Vec<u8>> + Format<
            <Self as Protocol<IdChannel<F>, F>>::Coalesce,
            Representation = Vec<u8>,
        >,

        requires
            ctx.wf(),
        ensures
            ({
                let start = self.unraveling(IdChannelFork::of(id), ctx);
                let step = start.0.polled(start.1);
                &&& step.2 is Ready
                &&& step.1.sinks == ctx.sinks
                &&& step.1.wf()
            }),
    ;

    /// Giving an unraveling up before it was polled leaves the registry as
    /// it was before the unraveling started.
    proof fn law_cancel(self, ctx: Model<F>, id: u32) where
        Self: Protocol<IdChannel<F>, F>,
        F: Format<<Self as Protocol<IdChannel<F>, F>>::Unravel, Representation = Vec<u8>> + Format<
            <Self as Protocol<IdChannel<F>, F>>::Coalesce,
            Representation = Vec<u8>,
        >,

        requires
            ctx.wf(),
        ensures
            ({
                let start = self.unraveling(IdChannelFork::of(id), ctx);
                &&& start.0.cancelled(start.1).sinks == ctx.sinks
                &&& start.0.cancelled(start.1).wf()
            }),
    ;

    /// Starting to coalesce touches nothing and reads nothing.
    proof fn law_idle(id: u32, ctx: Model<F>, other: Model<F>) where
        Self: Protocol<IdChannel<F>, F>,
        F: Format<<Self as Protocol<IdChannel<F>, F>>::Unravel, Representation = Vec<u8>> + Format<
            <Self as Protocol<IdChannel<F>, F>>::Coalesce,
            Representation = Vec<u8>,
        >,

        ensures
            Self::coalescing(IdChannelFork::of(id), ctx).1 == ctx,
            Self::coalescing(IdChannelFork::of(id), ctx).0 == Self::coalescing(
                IdChannelFork::of(id),
                other,
            ).0,
    ;

    /// Coalescing from an endpoint that holds what unraveling `self` left
    /// resolves at the first poll to `self`, whatever state the format of
    /// the endpoint is in.
    proof fn law_coalesce(self, id: u32, next: nat, format: F, ctx: Model<F>) where
        Self: Protocol<IdChannel<F>, F>,
        F: Format<<Self as Protocol<IdChannel<F>, F>>::Unravel, Representation = Vec<u8>> + Format<
            <Self as Protocol<IdChannel<F>, F>>::Coalesce,
            Representation = Vec<u8>,
        >,

        requires
            self.trace(id, next, format) is Some,
            ctx.holds(
                self.trace(id, next, format)->0.items,
                id,
                next,
                self.trace(id, next, format)->0.next,
            ),
        ensures
            ({
                let start = Self::coalescing(IdChannelFork::of(id), ctx);
                let step = start.0.polled(start.1);
                &&& start.0.unresolved()
                &&& step.2 == Poll::Ready(Ok::<Self, Self::CoalesceError>(self))
                &&& step.1.with_format(ctx.format) == ctx.rebuilt(
                    id,
                    next,
                    self.trace(id, next, format)->0.next,
                )
                &&& step.1.wf()
            }),
    ;
}

impl<F> Model<F> {
    /// Whether the endpoint has all of a forked value before it: the
    /// transport has ended, and each identifier from `lo` up to `hi` has
    /// never been registered and has held for it exactly what `items` carry
    /// for it.
    pub open spec fn awaits(self, items: Seq<(u32, Seq<u8>)>, lo: nat, hi: nat) -> bool {
        &&& self.wf()
        &&& self.ended
        &&& forall|other: u32|
            #![trigger self.early(other)]
            #![trigger self.known.contains(other)]
            lo <= other < hi ==> !self.known.contains(other) && self.early(other) == project(
                items,
                other,
            )
    }

    /// The endpoint after the forked value that it held for the
    /// identifiers from `lo` up to `hi` has been joined: everything that
    /// was there for the value has been read, the identifiers are known,
    /// and the registry is as it was.
    pub open spec fn joined(self, lo: nat, hi: nat) -> Self {
        Model {
            next: if lo < hi && self.next < hi {
                hi
            } else {
                self.next
            },
            known: self.known + span(lo, hi),
            held: self.held.remove_keys(span(lo, hi)),
            ..self
        }
    }
}

/// A fork of a faithful value resolves at its first poll to the handle of
/// the next identifier and leaves the trace of the value. When the handle
/// is handed out, its sub-channel is in the registry, with what was held
/// for it, and takes what arrives for it; the live part of the registry is
/// as it was.
pub proof fn lemma_fork<F, V: Faithful<F> + Protocol<IdChannel<F>, F>>(value: V, ctx: Model<F>) where
    F: Format<<V as Protocol<IdChannel<F>, F>>::Unravel, Representation = Vec<u8>> + Format<
        <V as Protocol<IdChannel<F>, F>>::Coalesce,
        Representation = Vec<u8>,
    >,

    requires
        ctx.wf(),
        ctx.next <= u32::MAX,
        value.trace(ctx.next as u32, ctx.next + 1, ctx.format) is Some,
    ensures
        ({
            let trace = value.trace(ctx.next as u32, ctx.next + 1, ctx.format)->0;
            let fork = IdChannel::<F>::forking(ctx, value);
            let step = fork.0.polled(fork.1);
            &&& fork.0.unresolved()
            &&& step.2 == Poll::Ready(
                Ok::<ForkHandle, ContextError<Error, V::UnravelError>>(ForkHandle(ctx.next as u32)),
            )
            &&& step.1 == ctx.sent(trace)
            &&& step.1.wf()
            &&& ctx.next < trace.next <= 0x1_0000_0000
            &&& step.1.registry().contains_key(ctx.next as u32)
            &&& step.1.registry()[ctx.next as u32] == ctx.early(ctx.next as u32)
            &&& forall|payload: Seq<u8>| #[trigger]
                step.1.route(ctx.next as u32, payload).1 == Ok::<(), Error>(())
            &&& step.1.registry().dom() == ctx.registry().dom() + span(ctx.next, trace.next)
            &&& forall|id: u32| #[trigger]
                ctx.registry().contains_key(id) ==> step.1.registry()[id] == ctx.registry()[id]
        }),
{
    let n = ctx.next as u32;
    let trace = value.trace(n, ctx.next + 1, ctx.format)->0;
    let registered = ctx.register(n);
    ctx.lemma_register_wf(n);
    value.law_trace(n, ctx.next + 1, ctx.format);
    value.law_unravel(registered, n);
    // The fork is the unraveling of the value on the new sub-channel.
    let fork = IdChannel::<F>::forking(ctx, value);
    let start = value.unraveling(IdChannelFork::of(n), registered);
    assert(ctx.allocate() == Some(n));
    assert(fork == (Forked::<V::UnravelFuture, V::UnravelError>::Running(n, start.0), start.1));
    let inner = start.0.polled(start.1);
    assert(inner.1 == registered.sent(trace));
    let step = fork.0.polled(fork.1);
    assert(step.1 == inner.1.park(n));
    assert(step.2 == Poll::Ready(
        Ok::<ForkHandle, ContextError<Error, V::UnravelError>>(ForkHandle(n)),
    ));
    // The sub-channel rests in the registry.
    let after = registered.sent(trace).park(n);
    registered.sent(trace).lemma_wf(n, Seq::empty(), ctx.format);
    assert(!ctx.known.contains(n));
    assert(!ctx.sinks.contains_key(n));
    assert(!ctx.parked.contains_key(n));
    assert(registered.sent(trace).sinks.contains_key(n));
    assert(registered.sent(trace).sinks[n] == ctx.early(n));
    assert(after.sinks =~= ctx.sinks);
    assert(after.known =~= ctx.known + span(ctx.next, trace.next));
    assert(after.held =~= ctx.held.remove_keys(span(ctx.next, trace.next)));
    assert forall|id: u32| span(n as nat + 1, trace.next).contains(id) implies registered.early(
        id,
    ) == ctx.early(id) by {}
    assert(after.parked =~= ctx.sent(trace).parked);
    assert(after == ctx.sent(trace));
    assert(after.parked.contains_key(n));
    assert(after.registry().contains_key(n));
    assert(after.registry()[n] == ctx.early(n));
    assert(after.registry().dom() =~= ctx.registry().dom() + span(ctx.next, trace.next));
    assert forall|id: u32| #[trigger] ctx.registry().contains_key(id) implies after.registry()[id]
        == ctx.registry()[id] by {
        assert(ctx.known.contains(id));
        assert(!span(ctx.next, trace.next).contains(id));
    }
    assert forall|payload: Seq<u8>| #[trigger] after.route(n, payload).1 == Ok::<(), Error>(()) by {}
}

/// A fork of a faithful value resolves at its first poll, whether the
/// value could be sent or not, and leaves the live registry as it was.
pub proof fn lemma_fork_resolves<F, V: Faithful<F> + Protocol<IdChannel<F>, F>>(
    value: V,
    ctx: Model<F>,
) where
    F: Format<<V as Protocol<IdChannel<F>, F>>::Unravel, Representation = Vec<u8>> + Format<
        <V as Protocol<IdChannel<F>, F>>::Coalesce,
        Representation = Vec<u8>,
    >,

    requires
        ctx.wf(),
    ensures
        ({
            let fork = IdChannel::<F>::forking(ctx, value);
            let step = fork.0.polled(fork.1);
            &&& step.2 is Ready
            &&& step.1.sinks == ctx.sinks
            &&& step.1.wf()
        }),
{
    let fork = IdChannel::<F>::forking(ctx, value);
    let step = fork.0.polled(fork.1);
    if ctx.next <= u32::MAX {
        let n = ctx.next as u32;
        let registered = ctx.register(n);
        ctx.lemma_register_wf(n);
        value.law_resolve(registered, n);
        let start = value.unraveling(IdChannelFork::of(n), registered);
        assert(ctx.allocate() == Some(n));
        assert(fork == (Forked::<V::UnravelFuture, V::UnravelError>::Running(n, start.0), start.1));
        let inner = start.0.polled(start.1);
        assert(step.1 == inner.1.retire(n) || step.1 == inner.1.park(n));
        assert(step.2 is Ready);
        inner.1.lemma_wf(n, Seq::empty(), ctx.format);
        assert(!ctx.known.contains(n));
        assert(!ctx.sinks.contains_key(n));
        assert(registered.sinks.remove(n) =~= ctx.sinks);
        assert(step.1.sinks =~= ctx.sinks);
    } else {
        assert(ctx.allocate() is None);
        assert(fork == (
            Forked::<V::UnravelFuture, V::UnravelError>::Refused(
                Some(Error::Exhausted),
                PhantomData,
            ),
            ctx,
        ));
        assert(step.1 == ctx);
    }
}

/// A join of the handle of a faithful value, on an endpoint that holds
/// what the fork of the value left, resolves at its first poll to the
/// value and leaves the live registry as it was.
pub proof fn lemma_join<F, V: Faithful<F> + Protocol<IdChannel<F>, F>>(
    value: V,
    id: u32,
    format: F,
    items: Seq<(u32, Seq<u8>)>,
    ctx: Model<F>,
) where
    F: Format<<V as Protocol<IdChannel<F>, F>>::Unravel, Representation = Vec<u8>> + Format<
        <V as Protocol<IdChannel<F>, F>>::Coalesce,
        Representation = Vec<u8>,
    >,

    requires
        value.trace(id, (id + 1) as nat, format) is Some,
        ctx.awaits(items, id as nat, value.trace(id, (id + 1) as nat, format)->0.next),
        forall|other: u32|
            id <= other < value.trace(id, (id + 1) as nat, format)->0.next ==> #[trigger] project(
                items,
                other,
            ) == project(value.trace(id, (id + 1) as nat, format)->0.items, other),
    ensures
        ({
            let trace = value.trace(id, (id + 1) as nat, format)->0;
            let join = IdChannel::<F>::joining_fork::<V>(ctx, ForkHandle(id));
            let step = join.0.polled(join.1);
            &&& join.0.unresolved()
            &&& step.2 == Poll::Ready(Ok::<V, ContextError<Error, V::CoalesceError>>(value))
            &&& step.1.with_format(ctx.format) == ctx.joined(id as nat, trace.next)
            &&& step.1.wf()
            &&& id < trace.next <= 0x1_0000_0000
        }),
{
    let trace = value.trace(id, (id + 1) as nat, format)->0;
    value.law_trace(id, (id + 1) as nat, format);
    assert(!ctx.known.contains(id));
    assert(!ctx.sinks.contains_key(id));
    let registered = ctx.register(id);
    ctx.lemma_register_wf(id);
    assert(registered.sinks[id] == project(trace.items, id)) by {
        assert(ctx.early(id) == project(items, id));
    }
    assert forall|other: u32| id + 1 <= other < trace.next implies !registered.known.contains(
        other,
    ) && #[trigger] registered.early(other) == project(trace.items, other) by {
        assert(!ctx.known.contains(other));
        assert(ctx.early(other) == project(items, other));
        assert(registered.early(other) == ctx.early(other));
    }
    assert(registered.holds(trace.items, id, (id + 1) as nat, trace.next));
    V::law_idle(id, registered, registered);
    value.law_coalesce(id, (id + 1) as nat, format, registered);
    // The join is the coalescing of the value from the new sub-channel.
    let join = IdChannel::<F>::joining_fork::<V>(ctx, ForkHandle(id));
    let start = V::coalescing(IdChannelFork::of(id), registered);
    assert(start.1 == registered);
    assert(join == (Joined::<V::CoalesceFuture, V, V::CoalesceError>::Running(id, start.0), start.1));
    let step = start.0.polled(start.1);
    let whole = join.0.polled(join.1);
    assert(whole.1 == step.1.retire(id));
    assert(whole.2 == Poll::Ready(Ok::<V, ContextError<Error, V::CoalesceError>>(value)));
    // The sub-channel leaves the registry again.
    step.1.lemma_retire_wf(id);
    let done = ctx.joined(id as nat, trace.next);
    let after = step.1.retire(id).with_format(ctx.format);
    assert(step.1.with_format(ctx.format) == registered.rebuilt(
        id,
        (id + 1) as nat,
        trace.next,
    ).with_format(ctx.format));
    assert(registered.sinks =~= ctx.sinks.insert(id, ctx.early(id)));
    assert(after.sinks =~= done.sinks);
    assert(after.known =~= done.known);
    assert(after.held =~= done.held);
    assert(after.parked =~= done.parked);
    assert(after.next == done.next);
    assert(after == done);
}

/// What one endpoint unravels, the other coalesces to the same value, and
/// neither keeps a sub-channel registered in the end. The side that
/// unravels `value` on a fresh endpoint resolves at its first poll: no
/// sub-channel is live then, and the root rests in the registry until the
/// transport of that side has ended, which leaves the registry empty. Once
/// the transport has delivered what that side queued, in order, and has
/// ended, the side that coalesces resolves at its next poll to `value`,
/// and its registry is empty. This holds of every faithful protocol and
/// every pair of format states, provided that each item of `value`
/// serializes.
pub proof fn theorem_round_trip<F, V: Faithful<F> + Protocol<IdChannel<F>, F>>(
    value: V,
    sender: F,
    receiver: F,
) where
    F: Format<<V as Protocol<IdChannel<F>, F>>::Unravel, Representation = Vec<u8>> + Format<
        <V as Protocol<IdChannel<F>, F>>::Coalesce,
        Representation = Vec<u8>,
    >,

    requires
        value.trace(ROOT, 1, sender) is Some,
    ensures
        ({
            let root = IdChannel::<F>::rooting(value, sender);
            let sent = root.0.polled(root.1);
            let shim = Shim::<V>::completing(receiver);
            let arrived = shim.1.accept(sent.1.outbound).finish();
            let got = shim.0.polled(arrived);
            &&& root.0.unresolved()
            &&& sent.2 == Poll::Ready(
                Ok::<ForkHandle, ContextError<Error, V::UnravelError>>(ForkHandle(ROOT)),
            )
            &&& sent.1.outbound == value.trace(ROOT, 1, sender)->0.items
            &&& sent.1.sinks.is_empty()
            &&& sent.1.registry().contains_key(ROOT)
            &&& sent.1.finish().registry().is_empty()
            &&& shim.0.unresolved()
            &&& got.2 == Poll::Ready(Ok::<V, ContextError<Error, V::CoalesceError>>(value))
            &&& got.1.registry().is_empty()
        }),
{
    let trace = value.trace(ROOT, 1, sender)->0;
    value.law_trace(ROOT, 1, sender);
    // The side that unravels.
    let rooted = Model::fresh(sender).register(ROOT);
    Model::fresh(sender).lemma_register_wf(ROOT);
    value.law_unravel(rooted, ROOT);
    let root = IdChannel::<F>::rooting(value, sender);
    let unravel = value.unraveling(IdChannelFork::of(ROOT), rooted);
    assert(root == (
        Forked::<V::UnravelFuture, V::UnravelError>::Running(ROOT, unravel.0),
        unravel.1,
    ));
    let sent = root.0.polled(root.1);
    assert(sent.1 == unravel.0.polled(unravel.1).1.park(ROOT));
    assert(sent.1 == rooted.sent(trace).park(ROOT));
    assert(rooted.sent(trace).sinks.contains_key(ROOT));
    assert(rooted.sent(trace).park(ROOT).sinks =~= Map::empty());
    assert(sent.1.parked.contains_key(ROOT));
    assert(sent.1.registry().contains_key(ROOT));
    assert(sent.1.finish().registry() =~= Map::empty());
    assert(rooted.sent(trace).outbound =~= trace.items);
    assert(sent.1.outbound == trace.items);
    // The side that coalesces.
    let joined = Model::fresh(receiver).register(ROOT);
    Model::fresh(receiver).lemma_register_wf(ROOT);
    V::law_idle(ROOT, joined, joined);
    let arrived = joined.accept(trace.items).finish();
    joined.lemma_accept(trace.items);
    joined.lemma_ordering(trace.items, ROOT);
    assert(arrived.sinks[ROOT] =~= project(trace.items, ROOT));
    assert forall|other: u32| 1 <= other < trace.next implies !arrived.known.contains(other)
        && #[trigger] arrived.early(other) == project(trace.items, other) by {
        joined.lemma_ordering(trace.items, other);
        assert(!joined.sinks.contains_key(other));
        assert(joined.inbound(other) =~= Seq::empty());
        assert(arrived.early(other) =~= project(trace.items, other));
    }
    assert(arrived.holds(trace.items, ROOT, 1, trace.next));
    V::law_idle(ROOT, arrived, joined);
    value.law_coalesce(ROOT, 1, sender, arrived);
    let shim = Shim::<V>::completing(receiver);
    let waiting = V::coalescing(IdChannelFork::of(ROOT), joined);
    assert(waiting.1 == joined);
    assert(shim == (
        Joined::<V::CoalesceFuture, V, V::CoalesceError>::Running(ROOT, waiting.0),
        joined,
    ));
    assert(shim.1.accept(sent.1.outbound).finish() == arrived);
    let start = V::coalescing(IdChannelFork::of(ROOT), arrived);
    assert(start.0 == waiting.0);
    let step = start.0.polled(start.1);
    let got = shim.0.polled(arrived);
    assert(got.1 == step.1.retire(ROOT));
    assert(got.2 == Poll::Ready(Ok::<V, ContextError<Error, V::CoalesceError>>(value)));
    assert(step.1.sinks == arrived.rebuilt(ROOT, 1, trace.next).sinks) by {
        assert(step.1.with_format(arrived.format).sinks == step.1.sinks);
    }
    assert(arrived.sinks.dom() =~= set![ROOT]);
    assert(step.1.retire(ROOT).sinks =~= Map::empty());
    assert(step.1.parked == arrived.rebuilt(ROOT, 1, trace.next).parked) by {
        assert(step.1.with_format(arrived.format).parked == step.1.parked);
    }
    assert(got.1.registry() =~= Map::empty());
}

/// The unraveling of a whole value resolves at its first poll, whether
/// the value could be sent or not, and leaves no sub-channel live. So the
/// unraveling is never found half done: it has either not been polled, or
/// it has resolved, and of the sub-channels that it registered those
/// whose handles went out rest until the transport has ended, which
/// leaves the registry empty.
pub proof fn theorem_resolve<F, V: Faithful<F> + Protocol<IdChannel<F>, F>>(value: V, format: F) where
    F: Format<<V as Protocol<IdChannel<F>, F>>::Unravel, Representation = Vec<u8>> + Format<
        <V as Protocol<IdChannel<F>, F>>::Coalesce,
        Representation = Vec<u8>,
    >,

    ensures
        ({
            let root = IdChannel::<F>::rooting(value, format);
            let sent = root.0.polled(root.1);
            &&& sent.2 is Ready
            &&& sent.1.sinks.is_empty()
            &&& sent.1.finish().registry().is_empty()
        }),
{
    let rooted = Model::fresh(format).register(ROOT);
    Model::fresh(format).lemma_register_wf(ROOT);
    value.law_resolve(rooted, ROOT);
    let root = IdChannel::<F>::rooting(value, format);
    let unravel = value.unraveling(IdChannelFork::of(ROOT), rooted);
    assert(root == (
        Forked::<V::UnravelFuture, V::UnravelError>::Running(ROOT, unravel.0),
        unravel.1,
    ));
    let inner = unravel.0.polled(unravel.1);
    let sent = root.0.polled(root.1);
    assert(sent.1 == inner.1.retire(ROOT) || sent.1 == inner.1.park(ROOT));
    assert(sent.2 is Ready);
    assert(rooted.sinks.remove(ROOT) =~= Map::empty());
    assert(sent.1.sinks =~= Map::empty());
    assert(sent.1.finish().registry() =~= Map::empty());
}

/// Giving up a fork before it was polled leaves the live registry as it was
/// before the fork: every sub-channel that the fork registered, for the
/// value and for what the value forked in turn, is released.
pub proof fn theorem_cancel<F, V: Faithful<F> + Protocol<IdChannel<F>, F>>(
    value: V,
    ctx: Model<F>,
) where
    F: Format<<V as Protocol<IdChannel<F>, F>>::Unravel, Representation = Vec<u8>> + Format<
        <V as Protocol<IdChannel<F>, F>>::Coalesce,
        Representation = Vec<u8>,
    >,

    requires
        ctx.wf(),
    ensures
        ({
            let fork = IdChannel::<F>::forking(ctx, value);
            &&& fork.0.cancelled(fork.1).sinks == ctx.sinks
            &&& fork.0.cancelled(fork.1).wf()
        }),
{
    if ctx.next <= u32::MAX {
        let n = ctx.next as u32;
        ctx.lemma_register_wf(n);
        value.law_cancel(ctx.register(n), n);
        let start = value.unraveling(IdChannelFork::of(n), ctx.register(n));
        let fork = IdChannel::<F>::forking(ctx, value);
        assert(ctx.allocate() == Some(n));
        assert(fork == (Forked::<V::UnravelFuture, V::UnravelError>::Running(n, start.0), start.1));
        assert(fork.0.cancelled(fork.1) == start.0.cancelled(start.1).retire(n));
        start.0.cancelled(start.1).lemma_retire_wf(n);
        assert(!ctx.known.contains(n));
        assert(!ctx.sinks.contains_key(n));
        assert(ctx.register(n).sinks.remove(n) =~= ctx.sinks);
    } else {
        let fork = IdChannel::<F>::forking(ctx, value);
        assert(ctx.allocate() is None);
        assert(fork.0.cancelled(fork.1) == ctx);
    }
}

/// Giving up the unraveling of a whole value before it was polled leaves
/// the registry of its endpoint empty.
pub proof fn theorem_cancel_root<F, V: Faithful<F> + Protocol<IdChannel<F>, F>>(
    value: V,
    format: F,
) where
    F: Format<<V as Protocol<IdChannel<F>, F>>::Unravel, Representation = Vec<u8>> + Format<
        <V as Protocol<IdChannel<F>, F>>::Coalesce,
        Representation = Vec<u8>,
    >,

    ensures
        ({
            let root = IdChannel::<F>::rooting(value, format);
            root.0.cancelled(root.1).sinks.is_empty()
        }),
{
    let rooted = Model::fresh(format).register(ROOT);
    Model::fresh(format).lemma_register_wf(ROOT);
    value.law_cancel(rooted, ROOT);
    let root = IdChannel::<F>::rooting(value, format);
    let unravel = value.unraveling(IdChannelFork::of(ROOT), rooted);
    assert(root == (
        Forked::<V::UnravelFuture, V::UnravelError>::Running(ROOT, unravel.0),
        unravel.1,
    ));
    assert(root.0.cancelled(root.1) == unravel.0.cancelled(unravel.1).retire(ROOT));
    assert(rooted.sinks.remove(ROOT) =~= Map::empty());
}

} // verus!
