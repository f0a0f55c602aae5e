//! What holds of every endpoint, whatever protocols run on it: the order
//! of the items of a sub-channel, the independence of sub-channels, the
//! routing of what arrives around a join, and the registration of a
//! sub-channel at the time when its handle goes out.
use vstd::prelude::*;

use crate::channel::id::{Error, ForkHandle, Forked, IdChannel, Model};
use crate::{ContextError, Poll, Task};

verus! {

/// The payloads that `wire` carries for sub-channel `id`, in the order of
/// the wire.
pub open spec fn project(wire: Seq<(u32, Seq<u8>)>, id: u32) -> Seq<Seq<u8>>
    decreases wire.len(),
{
    if wire.len() == 0 {
        Seq::empty()
    } else if wire.last().0 == id {
        project(wire.drop_last(), id).push(wire.last().1)
    } else {
        project(wire.drop_last(), id)
    }
}

/// One more item on the wire is one more payload for its own sub-channel,
/// and nothing for the others.
pub proof fn lemma_project_push(wire: Seq<(u32, Seq<u8>)>, item: (u32, Seq<u8>), id: u32)
    ensures
        project(wire.push(item), id) == if item.0 == id {
            project(wire, id).push(item.1)
        } else {
            project(wire, id)
        },
{
    assert(wire.push(item).drop_last() =~= wire);
}

/// What two wires carry one after the other is what the first carries,
/// then what the second carries.
pub proof fn lemma_project_add(first: Seq<(u32, Seq<u8>)>, second: Seq<(u32, Seq<u8>)>, id: u32)
    ensures
        project(first + second, id) == project(first, id) + project(second, id),
    decreases second.len(),
{
    if second.len() == 0 {
        assert(first + second =~= first);
        assert(project(first, id) + project(second, id) =~= project(first, id));
    } else {
        lemma_project_add(first, second.drop_last(), id);
        assert((first + second).drop_last() =~= first + second.drop_last());
        assert((first + second).last() == second.last());
        if second.last().0 == id {
            assert(project(first, id) + project(second.drop_last(), id).push(second.last().1)
                =~= (project(first, id) + project(second.drop_last(), id)).push(second.last().1));
        }
    }
}

/// A wire without an item of a sub-channel carries nothing for it.
pub proof fn lemma_project_absent(wire: Seq<(u32, Seq<u8>)>, id: u32)
    requires
        forall|i: int| 0 <= i < wire.len() ==> (#[trigger] wire[i]).0 != id,
    ensures
        project(wire, id) == Seq::<Seq<u8>>::empty(),
    decreases wire.len(),
{
    if wire.len() > 0 {
        lemma_project_absent(wire.drop_last(), id);
    }
}

/// When a fork hands its handle out, the sub-channel of the handle is in
/// the registry, whatever the protocol: the step that resolves to the
/// handle leaves the registry as the unraveling left it, and what arrives
/// for the sub-channel afterwards is taken. The sub-channel leaves the
/// registry in a later step, when the transport has ended.
pub proof fn lemma_handle_is_registered<F, P, Fut: Task<IdChannel<F>, Output = Result<(), P>>>(
    id: u32,
    task: Fut,
    ctx: Model<F>,
    payload: Seq<u8>,
)
    requires
        task.polled(ctx).2 == Poll::Ready(Ok::<(), P>(())),
        task.polled(ctx).1.sinks.contains_key(id),
    ensures
        ({
            let inner = task.polled(ctx);
            let step = Forked::<Fut, P>::Running(id, task).polled(ctx);
            &&& step.2 == Poll::Ready(Ok::<ForkHandle, ContextError<Error, P>>(ForkHandle(id)))
            &&& step.1.registry() == inner.1.registry()
            &&& step.1.registry().contains_key(id)
            &&& step.1.registry()[id] == inner.1.sinks[id]
            &&& step.1.route(id, payload).1 == Ok::<(), Error>(())
            &&& !step.1.finish().registry().contains_key(id)
        }),
{
    let inner = task.polled(ctx);
    let step = Forked::<Fut, P>::Running(id, task).polled(ctx);
    assert(step.1 == inner.1.park(id));
    inner.1.lemma_park(id, payload);
}

impl<F> Model<F> {
    /// What has arrived for `id` and has not been read: the queue of its
    /// sink if it is registered, what is held for it if it is not.
    pub open spec fn inbound(self, id: u32) -> Seq<Seq<u8>> {
        if self.sinks.contains_key(id) {
            self.sinks[id]
        } else {
            self.early(id)
        }
    }

    /// The endpoint after the transport has delivered the items of `wire`
    /// in order. An item that is refused changes nothing.
    pub open spec fn accept(self, wire: Seq<(u32, Seq<u8>)>) -> Self
        decreases wire.len(),
    {
        if wire.len() == 0 {
            self
        } else {
            self.accept(wire.drop_last()).deliver(wire.last().0, wire.last().1).0
        }
    }

    /// Registering keeps an endpoint well formed.
    pub proof fn lemma_register_wf(self, id: u32)
        requires
            self.wf(),
        ensures
            self.register(id).wf(),
            self.register(id).sinks.contains_key(id),
            self.register(id).sinks[id] == self.early(id),
    {
    }

    /// Retiring keeps an endpoint well formed.
    pub proof fn lemma_retire_wf(self, id: u32)
        requires
            self.wf(),
        ensures
            self.retire(id).wf(),
    {
    }

    /// Every step of an endpoint keeps it well formed.
    pub proof fn lemma_wf(self, id: u32, payload: Seq<u8>, format: F)
        requires
            self.wf(),
        ensures
            self.register(id).wf(),
            self.retire(id).wf(),
            self.park(id).wf(),
            self.route(id, payload).0.wf(),
            self.deliver(id, payload).0.wf(),
            self.emit(id, payload).wf(),
            self.take().0.wf(),
            self.recv(id).0.wf(),
            self.finish().wf(),
            self.torn_down().wf(),
            self.blame(id).wf(),
            self.with_format(format).wf(),
    {
    }

    /// Delivering keeps an endpoint well formed, and touches nothing but
    /// what has arrived for the sub-channel of the item.
    pub proof fn lemma_deliver(self, id: u32, payload: Seq<u8>)
        requires
            self.wf(),
        ensures
            self.deliver(id, payload).0.wf(),
            self.deliver(id, payload).0.known == self.known,
            self.deliver(id, payload).0.next == self.next,
            self.deliver(id, payload).0.sinks.dom() == self.sinks.dom(),
            self.deliver(id, payload).0.outbound == self.outbound,
            self.deliver(id, payload).0.format == self.format,
            self.deliver(id, payload).0.ended == self.ended,
            self.deliver(id, payload).0.fault == self.fault,
            forall|other: u32|
                other != id ==> #[trigger] self.deliver(id, payload).0.inbound(other)
                    == self.inbound(other),
            self.sinks.contains_key(id) || !self.known.contains(id) ==> self.deliver(
                id,
                payload,
            ).0.inbound(id) == self.inbound(id).push(payload),
            self.deliver(id, payload).1 is Ok <==> (self.registry().contains_key(id)
                || !self.known.contains(id)),
    {
        let after = self.deliver(id, payload).0;
        assert(after.sinks.dom() =~= self.sinks.dom());
    }

    /// What the transport delivers reaches each sub-channel in the order
    /// of the wire: after the items of `wire`, a sub-channel that is
    /// registered, or has never been, holds what it held and then what the
    /// wire carries for it.
    pub proof fn lemma_ordering(self, wire: Seq<(u32, Seq<u8>)>, id: u32)
        requires
            self.wf(),
            self.sinks.contains_key(id) || !self.known.contains(id),
        ensures
            self.accept(wire).inbound(id) == self.inbound(id) + project(wire, id),
        decreases wire.len(),
    {
        self.lemma_accept(wire);
        if wire.len() == 0 {
            assert(self.inbound(id) + project(wire, id) =~= self.inbound(id));
        } else {
            let before = self.accept(wire.drop_last());
            self.lemma_ordering(wire.drop_last(), id);
            self.lemma_accept(wire.drop_last());
            before.lemma_deliver(wire.last().0, wire.last().1);
            if wire.last().0 == id {
                assert(before.sinks.contains_key(id) <==> self.sinks.contains_key(id));
                assert((self.inbound(id) + project(wire.drop_last(), id)).push(wire.last().1)
                    =~= self.inbound(id) + project(wire.drop_last(), id).push(wire.last().1));
            }
        }
    }

    /// Delivering a wire keeps an endpoint well formed and leaves the
    /// registry, the known identifiers and the outbound side as they
    /// were.
    pub proof fn lemma_accept(self, wire: Seq<(u32, Seq<u8>)>)
        requires
            self.wf(),
        ensures
            self.accept(wire).wf(),
            self.accept(wire).known == self.known,
            self.accept(wire).next == self.next,
            self.accept(wire).sinks.dom() == self.sinks.dom(),
            self.accept(wire).outbound == self.outbound,
            self.accept(wire).format == self.format,
            self.accept(wire).ended == self.ended,
            self.accept(wire).fault == self.fault,
        decreases wire.len(),
    {
        if wire.len() > 0 {
            self.lemma_accept(wire.drop_last());
            self.accept(wire.drop_last()).lemma_deliver(wire.last().0, wire.last().1);
        }
    }

    /// Sub-channels do not wait for one another: what a poll of
    /// sub-channel `b` answers does not depend on what arrives for another
    /// sub-channel `a`, nor on whether `a` is read, and a payload for `b`
    /// is taken however much waits unread for `a`.
    pub proof fn lemma_isolation(self, a: u32, b: u32, payload: Seq<u8>)
        requires
            a != b,
        ensures
            self.deliver(a, payload).0.recv(b).1 == self.recv(b).1,
            self.route(a, payload).0.recv(b).1 == self.recv(b).1,
            self.recv(a).0.recv(b).1 == self.recv(b).1,
            self.deliver(b, payload).1 == self.recv(a).0.deliver(b, payload).1,
            self.registry().contains_key(b) ==> self.deliver(b, payload).1 == Ok::<(), Error>(()),
    {
    }

    /// A sub-channel whose own side is done stays in the registry: putting
    /// it to rest keeps the registry as it is, with the queue of every
    /// sub-channel intact, and what arrives for it afterwards is taken and
    /// put behind what had arrived.
    pub proof fn lemma_park(self, id: u32, payload: Seq<u8>)
        requires
            self.sinks.contains_key(id),
        ensures
            self.park(id).registry() == self.registry(),
            self.park(id).parked.contains_key(id),
            self.park(id).parked[id] == self.sinks[id],
            self.park(id).route(id, payload).1 == Ok::<(), Error>(()),
            self.park(id).route(id, payload).0.registry() == self.registry().insert(
                id,
                self.sinks[id].push(payload),
            ),
            self.park(id).finish().registry() == self.retire(id).finish().registry(),
    {
        assert(self.park(id).registry() =~= self.registry());
        assert(self.park(id).route(id, payload).0.registry() =~= self.registry().insert(
            id,
            self.sinks[id].push(payload),
        ));
        assert(self.park(id).finish().registry() =~= self.retire(id).finish().registry());
    }

    /// What arrives for a sub-channel before it is joined is kept, and
    /// after the join nothing for it is refused: an identifier that was
    /// never registered takes every payload, the join hands what was held
    /// to the sink in the order of arrival, and routing to the joined
    /// sub-channel succeeds.
    pub proof fn lemma_handle_before_data(self, id: u32, before: Seq<u8>, after: Seq<u8>)
        requires
            self.wf(),
            !self.known.contains(id),
        ensures
            self.deliver(id, before).1 == Ok::<(), Error>(()),
            self.deliver(id, before).0.register(id).sinks[id] == self.early(id).push(before),
            self.register(id).route(id, after).1 == Ok::<(), Error>(()),
            self.register(id).deliver(id, after).1 == Ok::<(), Error>(()),
            self.register(id).route(id, after).0.sinks[id] == self.early(id).push(after),
    {
    }

    /// The endpoint after the items of `items` have been queued for the
    /// transport, in order.
    pub open spec fn queued(self, items: Seq<(u32, Seq<u8>)>) -> Self
        decreases items.len(),
    {
        if items.len() == 0 {
            self
        } else {
            self.queued(items.drop_last()).emit(items.last().0, items.last().1)
        }
    }

    /// The endpoint after the transport has asked `n` times for an item,
    /// and the items that it got, in order.
    pub open spec fn drawn(self, n: nat) -> (Self, Seq<(u32, Seq<u8>)>)
        decreases n,
    {
        if n == 0 {
            (self, Seq::empty())
        } else {
            let before = self.drawn((n - 1) as nat);
            let step = before.0.take();
            match step.1 {
                Poll::Ready(Some(item)) => (step.0, before.1.push(item)),
                _ => (step.0, before.1),
            }
        }
    }

    /// The endpoint after sub-channel `id` has been read `n` times, and
    /// the payloads that the reads gave, in order.
    pub open spec fn read(self, id: u32, n: nat) -> (Self, Seq<Seq<u8>>)
        decreases n,
    {
        if n == 0 {
            (self, Seq::empty())
        } else {
            let before = self.read(id, (n - 1) as nat);
            let step = before.0.recv(id);
            match step.1 {
                Poll::Ready(Some(payload)) => (step.0, before.1.push(payload)),
                _ => (step.0, before.1),
            }
        }
    }

    /// What is queued waits behind what waited, in the order of queuing.
    pub proof fn lemma_queued(self, items: Seq<(u32, Seq<u8>)>)
        ensures
            self.queued(items) == (Model { outbound: self.outbound + items, ..self }),
        decreases items.len(),
    {
        if items.len() == 0 {
            assert(self.outbound + items =~= self.outbound);
        } else {
            self.lemma_queued(items.drop_last());
            assert((self.outbound + items.drop_last()).push(items.last()) =~= self.outbound
                + items);
        }
    }

    /// The transport gets what waits, oldest first.
    pub proof fn lemma_drawn(self, n: nat)
        requires
            n <= self.outbound.len(),
        ensures
            self.drawn(n).1 == self.outbound.take(n as int),
            self.drawn(n).0 == (Model { outbound: self.outbound.skip(n as int), ..self }),
        decreases n,
    {
        if n == 0 {
            assert(self.outbound.take(0) =~= Seq::empty());
            assert(self.outbound.skip(0) =~= self.outbound);
        } else {
            self.lemma_drawn((n - 1) as nat);
            let before = self.drawn((n - 1) as nat);
            assert(before.0.outbound[0] == self.outbound[n - 1]);
            assert(self.outbound.take(n - 1).push(self.outbound[n - 1]) =~= self.outbound.take(
                n as int,
            ));
            assert(self.outbound.skip(n - 1).remove(0) =~= self.outbound.skip(n as int));
        }
    }

    /// A sub-channel reads what has arrived for it, oldest first.
    pub proof fn lemma_read(self, id: u32, n: nat)
        requires
            self.sinks.contains_key(id),
            n <= self.sinks[id].len(),
        ensures
            self.read(id, n).1 == self.sinks[id].take(n as int),
            self.read(id, n).0 == (Model {
                sinks: self.sinks.insert(id, self.sinks[id].skip(n as int)),
                ..self
            }),
        decreases n,
    {
        if n == 0 {
            assert(self.sinks[id].take(0) =~= Seq::empty());
            assert(self.sinks[id].skip(0) =~= self.sinks[id]);
            assert(self.sinks.insert(id, self.sinks[id]) =~= self.sinks);
        } else {
            self.lemma_read(id, (n - 1) as nat);
            let before = self.read(id, (n - 1) as nat);
            let queue = self.sinks[id];
            assert(before.0.sinks[id] == queue.skip(n - 1));
            assert(queue.skip(n - 1)[0] == queue[n - 1]);
            assert(queue.take(n - 1).push(queue[n - 1]) =~= queue.take(n as int));
            assert(queue.skip(n - 1).remove(0) =~= queue.skip(n as int));
            assert(before.0.sinks.insert(id, queue.skip(n as int)) =~= self.sinks.insert(
                id,
                queue.skip(n as int),
            ));
        }
    }

    /// A sub-channel observes what was produced for it, in the order in
    /// which it was produced: what one endpoint queues, the transport
    /// carries in that order, and when it has arrived at the other
    /// endpoint, the reads of each sub-channel that is registered there
    /// and had nothing waiting give the payloads that were queued for it,
    /// in order, whatever was queued in between for other sub-channels.
    pub proof fn lemma_in_order(self, peer: Self, items: Seq<(u32, Seq<u8>)>, id: u32)
        requires
            self.outbound.len() == 0,
            peer.wf(),
            peer.sinks.contains_key(id),
            peer.sinks[id].len() == 0,
        ensures
            ({
                let wire = self.queued(items).drawn(items.len()).1;
                let arrived = peer.accept(wire);
                &&& wire == items
                &&& arrived.read(id, project(items, id).len()).1 == project(items, id)
            }),
    {
        self.lemma_queued(items);
        assert(self.outbound + items =~= items);
        self.queued(items).lemma_drawn(items.len());
        assert(items.take(items.len() as int) =~= items);
        peer.lemma_accept(items);
        peer.lemma_ordering(items, id);
        let arrived = peer.accept(items);
        assert(arrived.sinks.dom() == peer.sinks.dom());
        assert(arrived.sinks[id] =~= project(items, id));
        arrived.lemma_read(id, project(items, id).len());
        assert(project(items, id).take(project(items, id).len() as int) =~= project(items, id));
    }

    /// The transport gets the items in the order in which they were
    /// queued: a queued item goes behind what waits, and the oldest item
    /// leaves first.
    pub proof fn lemma_outbound_order(self, id: u32, payload: Seq<u8>)
        ensures
            self.emit(id, payload).outbound == self.outbound.push((id, payload)),
            project(self.emit(id, payload).outbound, id) == project(self.outbound, id).push(payload),
            self.outbound.len() > 0 ==> self.take().1 == Poll::Ready(Some(self.outbound[0]))
                && self.take().0.outbound == self.outbound.skip(1),
    {
        lemma_project_push(self.outbound, (id, payload), id);
        if self.outbound.len() > 0 {
            assert(self.outbound.remove(0) =~= self.outbound.skip(1));
        }
    }
}

} // verus!
