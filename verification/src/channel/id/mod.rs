//! The multiplexed channel: many typed sub-channels over one transport,
//! told apart by the identifier that every item on the wire carries.
//!
//! A sub-channel has two halves. It is live while the task of its own side
//! is at work. When a fork hands its handle out, its own side is done: the
//! sub-channel rests in the registry and takes what the peer sends to it,
//! until the transport has ended and nothing more can arrive. A join
//! reads what the fork has sent before its handle, so its sub-channel
//! leaves the registry when the join resolves.
use vstd::prelude::*;

use std::collections::HashMap;
use std::collections::HashSet;

use core::marker::PhantomData;

use vstd::bytes::{
    lemma_auto_spec_u32_to_from_le_bytes, spec_u32_from_le_bytes, spec_u32_to_le_bytes,
    u32_from_le_bytes, u32_to_le_bytes,
};
use vstd::slice::{slice_subrange, slice_to_vec};

use crate::flat::{Flat, Kind, Scalar};
use crate::format::Format;
use crate::{Channel, Channels, ContextError, Dispatch, Join, Poll, Protocol, Spawn, Task};

pub mod faithful;
pub mod wire;

verus! {

broadcast use vstd::std_specs::hash::group_hash_axioms;

/// The identifier of the root sub-channel.
pub const ROOT: u32 = 0;

/// The name of a sub-channel on the endpoint that created it. It is what
/// travels in place of a forked value.
#[derive(Clone, Copy, Debug, PartialEq, Eq)]
pub struct ForkHandle(pub u32);

impl View for ForkHandle {
    type V = ForkHandle;

    open spec fn view(&self) -> ForkHandle {
        *self
    }
}

/// A handle is sent as the unsigned number that it holds.
impl Flat for ForkHandle {
    proof fn plain(self) {
    }

    open spec fn kind_of() -> Kind {
        Kind::Unsigned
    }

    fn kind() -> (r: Kind) {
        Kind::Unsigned
    }

    open spec fn scalar_of(self) -> Scalar {
        Scalar::Unsigned(self.0 as u128)
    }

    fn scalar(&self) -> (r: Scalar) {
        Scalar::Unsigned(self.0 as u128)
    }

    open spec fn of_scalar(scalar: Scalar) -> Option<Self> {
        match scalar {
            Scalar::Unsigned(value) => if value <= u32::MAX as u128 {
                Some(ForkHandle(value as u32))
            } else {
                None
            },
            _ => None,
        }
    }

    fn from_scalar(scalar: Scalar) -> (r: Option<Self>) {
        match scalar {
            Scalar::Unsigned(value) => if value <= u32::MAX as u128 {
                Some(ForkHandle(value as u32))
            } else {
                None
            },
            _ => None,
        }
    }

    proof fn scalar_round_trip(self) {
    }
}

/// What the wire carries: the identifier of a sub-channel and one payload
/// in the representation of the format.
#[derive(Debug)]
pub struct Item(pub u32, pub Vec<u8>);

impl View for Item {
    type V = (u32, Seq<u8>);

    open spec fn view(&self) -> (u32, Seq<u8>) {
        (self.0, self.1@)
    }
}

impl Item {
    pub fn new(id: u32, payload: Vec<u8>) -> (r: Self)
        ensures
            r@ == (id, payload@),
    {
        Item(id, payload)
    }

    /// The bytes of an item: the identifier as four bytes, least
    /// significant first, then the payload.
    pub open spec fn encoded(item: (u32, Seq<u8>)) -> Seq<u8> {
        spec_u32_to_le_bytes(item.0) + item.1
    }

    /// The item that bytes stand for: none if they are too few to hold an
    /// identifier.
    pub open spec fn decoded(bytes: Seq<u8>) -> Option<(u32, Seq<u8>)> {
        if bytes.len() >= 4 {
            Some((spec_u32_from_le_bytes(bytes.subrange(0, 4)), bytes.subrange(4, bytes.len() as int)))
        } else {
            None
        }
    }

    /// Decoding gives back what was encoded, and encoding gives back what
    /// was decoded.
    pub proof fn lemma_encoding(item: (u32, Seq<u8>), bytes: Seq<u8>)
        ensures
            Self::decoded(Self::encoded(item)) == Some(item),
            Self::decoded(bytes) matches Some(found) ==> Self::encoded(found) == bytes,
    {
        lemma_auto_spec_u32_to_from_le_bytes();
        let whole = Self::encoded(item);
        assert(whole.subrange(0, 4) =~= spec_u32_to_le_bytes(item.0));
        assert(whole.subrange(4, whole.len() as int) =~= item.1);
        if bytes.len() >= 4 {
            assert(bytes.subrange(0, 4) + bytes.subrange(4, bytes.len() as int) =~= bytes);
        }
    }

    /// Encodes the item for a transport that carries bytes.
    pub fn encode(self) -> (r: Vec<u8>)
        ensures
            r@ == Self::encoded(self@),
    {
        let Item(id, payload) = self;
        let mut payload = payload;
        let mut out = u32_to_le_bytes(id);
        out.append(&mut payload);
        out
    }

    /// Decodes what a transport that carries bytes delivered.
    pub fn decode(bytes: Vec<u8>) -> (r: Option<Self>)
        ensures
            match r {
                Some(item) => Self::decoded(bytes@) == Some(item@),
                None => Self::decoded(bytes@) is None,
            },
    {
        if bytes.len() < 4 {
            None
        } else {
            let id = u32_from_le_bytes(slice_subrange(bytes.as_slice(), 0, 4));
            let payload = slice_to_vec(slice_subrange(bytes.as_slice(), 4, bytes.len()));
            Some(Item(id, payload))
        }
    }
}

/// Why the registry refused.
#[derive(Clone, Copy, Debug, PartialEq, Eq)]
pub enum Error {
    /// An item named a sub-channel that is not registered.
    UnknownSubId,
    /// A handle was joined a second time.
    DoubleJoin,
    /// Every identifier has been given out.
    Exhausted,
}

/// The model of an endpoint: what its contracts speak of.
pub struct Model<F> {
    /// The format of the endpoint, in its current state.
    pub format: F,
    /// The identifier that the next fork gets.
    pub next: nat,
    /// The identifiers that were registered at some time.
    pub known: Set<u32>,
    /// The live part of the registry: for each sub-channel whose own side
    /// is at work, the payloads that have arrived for it and have not been
    /// read.
    pub sinks: Map<u32, Seq<Seq<u8>>>,
    /// The resting part of the registry: the sub-channels whose own side
    /// is done. They stay registered, and take what arrives for them,
    /// until the transport has ended.
    pub parked: Map<u32, Seq<Seq<u8>>>,
    /// The payloads that arrived for sub-channels not registered yet.
    pub held: Map<u32, Seq<Seq<u8>>>,
    /// The items that wait for the transport, oldest first.
    pub outbound: Seq<(u32, Seq<u8>)>,
    /// True once the transport has delivered its last item.
    pub ended: bool,
    /// The first sub-channel on which a payload could not be decoded.
    pub fault: Option<u32>,
}

impl<F> Model<F> {
    /// The invariant of an endpoint.
    pub open spec fn wf(self) -> bool {
        &&& 1 <= self.next <= 0x1_0000_0000
        &&& self.known.finite()
        &&& self.sinks.dom().finite()
        &&& self.held.dom().finite()
        &&& self.parked.dom().finite()
        &&& forall|id: u32| self.known.contains(id) ==> id < self.next
        &&& forall|id: u32| self.sinks.contains_key(id) ==> self.known.contains(id)
        &&& forall|id: u32| self.parked.contains_key(id) ==> self.known.contains(id)
        &&& forall|id: u32| self.held.contains_key(id) ==> !self.known.contains(id)
    }

    /// An endpoint on which nothing has happened.
    pub open spec fn fresh(format: F) -> Self {
        Model {
            format,
            next: 1,
            known: Set::empty(),
            sinks: Map::empty(),
            parked: Map::empty(),
            held: Map::empty(),
            outbound: Seq::empty(),
            ended: false,
            fault: None,
        }
    }

    /// The registry: every sub-channel that takes what arrives for it,
    /// live or resting, with what has arrived and has not been read.
    pub open spec fn registry(self) -> Map<u32, Seq<Seq<u8>>> {
        self.parked.union_prefer_right(self.sinks)
    }

    /// The identifier that a fork would get now.
    pub open spec fn allocate(self) -> Option<u32> {
        if self.next <= u32::MAX {
            Some(self.next as u32)
        } else {
            None
        }
    }

    /// What has arrived for `id` before it was registered.
    pub open spec fn early(self, id: u32) -> Seq<Seq<u8>> {
        if self.held.contains_key(id) {
            self.held[id]
        } else {
            Seq::empty()
        }
    }

    /// Registers `id`: it becomes live, and what was held for it becomes
    /// its inbound queue.
    pub open spec fn register(self, id: u32) -> Self {
        Model {
            next: if self.next <= id {
                (id + 1) as nat
            } else {
                self.next
            },
            known: self.known.insert(id),
            sinks: self.sinks.insert(id, self.early(id)),
            held: self.held.remove(id),
            ..self
        }
    }

    /// Removes the live sub-channel `id` from the registry, with what had
    /// arrived for it.
    pub open spec fn retire(self, id: u32) -> Self {
        Model { sinks: self.sinks.remove(id), ..self }
    }

    /// Puts the live sub-channel `id` to rest: its own side is done. It
    /// stays in the registry with its queue as it is, and goes on taking
    /// what arrives for it.
    pub open spec fn park(self, id: u32) -> Self {
        if self.sinks.contains_key(id) {
            Model {
                sinks: self.sinks.remove(id),
                parked: self.parked.insert(id, self.sinks[id]),
                ..self
            }
        } else {
            self
        }
    }

    /// Routes a payload to the sink of `id`, which must be registered,
    /// live or resting.
    pub open spec fn route(self, id: u32, payload: Seq<u8>) -> (Self, Result<(), Error>) {
        if self.sinks.contains_key(id) {
            (Model { sinks: self.sinks.insert(id, self.sinks[id].push(payload)), ..self }, Ok(()))
        } else if self.parked.contains_key(id) {
            (
                Model { parked: self.parked.insert(id, self.parked[id].push(payload)), ..self },
                Ok(()),
            )
        } else {
            (self, Err(Error::UnknownSubId))
        }
    }

    /// Takes a payload from the transport: routed if `id` is registered,
    /// held back if `id` has never been, refused if `id` was retired.
    pub open spec fn deliver(self, id: u32, payload: Seq<u8>) -> (Self, Result<(), Error>) {
        if self.sinks.contains_key(id) || self.known.contains(id) {
            self.route(id, payload)
        } else {
            (Model { held: self.held.insert(id, self.early(id).push(payload)), ..self }, Ok(()))
        }
    }

    /// Queues a payload of sub-channel `id` for the transport.
    pub open spec fn emit(self, id: u32, payload: Seq<u8>) -> Self {
        Model { outbound: self.outbound.push((id, payload)), ..self }
    }

    /// Hands the oldest waiting item to the transport. The outbound side
    /// ends when nothing waits and no sub-channel is live.
    pub open spec fn take(self) -> (Self, Poll<Option<(u32, Seq<u8>)>>) {
        if self.outbound.len() > 0 {
            (
                Model { outbound: self.outbound.remove(0), ..self },
                Poll::Ready(Some(self.outbound[0])),
            )
        } else if self.sinks.is_empty() {
            (self, Poll::Ready(None))
        } else {
            (self, Poll::Pending)
        }
    }

    /// Reads the oldest payload that has arrived for `id`. The stream of a
    /// sub-channel ends when nothing waits for it and the transport has
    /// ended or the sub-channel is not live.
    pub open spec fn recv(self, id: u32) -> (Self, Poll<Option<Seq<u8>>>) {
        if self.sinks.contains_key(id) && self.sinks[id].len() > 0 {
            (
                Model { sinks: self.sinks.insert(id, self.sinks[id].remove(0)), ..self },
                Poll::Ready(Some(self.sinks[id][0])),
            )
        } else if self.ended || !self.sinks.contains_key(id) {
            (self, Poll::Ready(None))
        } else {
            (self, Poll::Pending)
        }
    }

    /// Marks the end of what the transport delivers. Nothing can arrive
    /// any more, so the sub-channels that rest leave the registry: both
    /// their halves are done.
    pub open spec fn finish(self) -> Self {
        Model { ended: true, parked: Map::empty(), ..self }
    }

    /// The endpoint after the session has ended: nothing is registered and
    /// nothing is held.
    pub open spec fn torn_down(self) -> Self {
        Model {
            sinks: Map::empty(),
            parked: Map::empty(),
            held: Map::empty(),
            ended: true,
            ..self
        }
    }
}

/// The registry's book of identifiers: which have been registered, and
/// which comes next.
pub struct Context {
    next: u64,
    known: HashSet<u32>,
}

impl Context {
    /// The identifier that the next fork gets.
    pub closed spec fn next(&self) -> nat {
        self.next as nat
    }

    /// The identifiers that were registered at some time.
    pub closed spec fn known(&self) -> Set<u32> {
        self.known@
    }

    /// Whether `id` was registered at some time.
    pub fn contains(&self, id: u32) -> (r: bool)
        ensures
            r == self.known().contains(id),
    {
        self.known.contains(&id)
    }
}

/// The payloads of a queue.
pub open spec fn payloads(queue: Vec<Vec<u8>>) -> Seq<Seq<u8>> {
    queue@.map_values(|payload: Vec<u8>| payload@)
}

/// The queues of a table.
pub open spec fn queues(table: Map<u32, Vec<Vec<u8>>>) -> Map<u32, Seq<Seq<u8>>> {
    table.map_values(|queue: Vec<Vec<u8>>| payloads(queue))
}

/// A table of queues has the keys of its table.
pub proof fn lemma_queues(table: Map<u32, Vec<Vec<u8>>>)
    ensures
        queues(table).dom() =~= table.dom(),
        forall|id: u32| #[trigger]
            table.contains_key(id) ==> queues(table)[id] == payloads(table[id]),
{
}

/// The items of a queue.
pub open spec fn items(queue: Vec<Item>) -> Seq<(u32, Seq<u8>)> {
    queue@.map_values(|item: Item| item@)
}

/// One endpoint of the multiplexed channel. It holds the registry of the
/// sub-channels, live and resting, with what has arrived for each, the
/// items that wait for the transport, and the format.
pub struct IdChannel<F> {
    out_channel: Vec<Item>,
    context: Context,
    in_channels: HashMap<u32, Vec<Vec<u8>>>,
    parked: HashMap<u32, Vec<Vec<u8>>>,
    held: HashMap<u32, Vec<Vec<u8>>>,
    ended: bool,
    fault: Option<u32>,
    format: F,
}

impl<F> View for IdChannel<F> {
    type V = Model<F>;

    closed spec fn view(&self) -> Model<F> {
        Model {
            format: self.format,
            next: self.context.next as nat,
            known: self.context.known@,
            sinks: queues(self.in_channels@),
            parked: queues(self.parked@),
            held: queues(self.held@),
            outbound: items(self.out_channel),
            ended: self.ended,
            fault: self.fault,
        }
    }
}

impl<F> IdChannel<F> {
    /// An endpoint on which nothing has happened.
    pub fn new(format: F) -> (r: Self)
        ensures
            r@ == Model::fresh(format),
            r@.wf(),
    {
        let out_channel: Vec<Item> = Vec::new();
        let in_channels: HashMap<u32, Vec<Vec<u8>>> = HashMap::new();
        let parked: HashMap<u32, Vec<Vec<u8>>> = HashMap::new();
        let held: HashMap<u32, Vec<Vec<u8>>> = HashMap::new();
        proof {
            lemma_queues(in_channels@);
            lemma_queues(parked@);
            lemma_queues(held@);
            assert(queues(in_channels@) =~= Map::empty());
            assert(queues(parked@) =~= Map::empty());
            assert(queues(held@) =~= Map::empty());
            assert(items(out_channel) =~= Seq::empty());
        }
        IdChannel {
            out_channel,
            context: Context { next: 1, known: HashSet::new() },
            in_channels,
            parked,
            held,
            ended: false,
            fault: None,
            format,
        }
    }

    /// The registry's book of identifiers.
    pub fn context(&self) -> (r: &Context)
        ensures
            r.next() == self@.next,
            r.known() == self@.known,
    {
        &self.context
    }

    /// Whether `id` is registered, live or resting.
    pub fn is_registered(&self, id: u32) -> (r: bool)
        ensures
            r == self@.registry().contains_key(id),
    {
        proof {
            lemma_queues(self.in_channels@);
            lemma_queues(self.parked@);
        }
        self.in_channels.contains_key(&id) || self.parked.contains_key(&id)
    }

    /// Whether `id` is live: registered, with its own side at work.
    pub fn is_live(&self, id: u32) -> (r: bool)
        ensures
            r == self@.sinks.contains_key(id),
    {
        proof {
            lemma_queues(self.in_channels@);
        }
        self.in_channels.contains_key(&id)
    }

    /// The number of live sub-channels.
    pub fn live(&self) -> (r: usize)
        ensures
            r == self@.sinks.len(),
    {
        proof {
            lemma_queues(self.in_channels@);
        }
        self.in_channels.len()
    }

    /// The number of sub-channels that rest.
    pub fn resting(&self) -> (r: usize)
        ensures
            r == self@.parked.len(),
    {
        proof {
            lemma_queues(self.parked@);
        }
        self.parked.len()
    }

    /// The first sub-channel on which a payload could not be decoded.
    pub fn fault(&self) -> (r: Option<u32>)
        ensures
            r == self@.fault,
    {
        self.fault
    }

    /// Registers `id`. What was held for it becomes its inbound queue.
    fn register(&mut self, id: u32)
        ensures
            final(self)@ == old(self)@.register(id),
    {
        proof {
            lemma_queues(self.in_channels@);
            lemma_queues(self.held@);
        }
        let queue = match self.held.remove(&id) {
            Some(queue) => queue,
            None => Vec::new(),
        };
        assert(payloads(queue) =~= old(self)@.early(id));
        self.context.known.insert(id);
        if self.context.next <= id as u64 {
            self.context.next = id as u64 + 1;
        }
        self.in_channels.insert(id, queue);
        proof {
            lemma_queues(self.in_channels@);
            lemma_queues(self.held@);
            assert(final(self)@.sinks =~= old(self)@.register(id).sinks);
            assert(final(self)@.held =~= old(self)@.register(id).held);
        }
    }

    /// Removes the live sub-channel `id` from the registry, with what had
    /// arrived for it. The identifier stays known: it is not given out
    /// again, and it cannot be joined again.
    pub fn deregister(&mut self, id: u32)
        ensures
            final(self)@ == old(self)@.retire(id),
    {
        proof {
            lemma_queues(self.in_channels@);
        }
        self.in_channels.remove(&id);
        proof {
            lemma_queues(self.in_channels@);
            assert(final(self)@.sinks =~= old(self)@.retire(id).sinks);
        }
    }

    /// Puts the live sub-channel `id` to rest: it stays registered, with
    /// what has arrived for it, until the transport has ended. A
    /// sub-channel that is not live is left as it is.
    pub fn park(&mut self, id: u32)
        ensures
            final(self)@ == old(self)@.park(id),
    {
        proof {
            lemma_queues(self.in_channels@);
            lemma_queues(self.parked@);
        }
        match self.in_channels.remove(&id) {
            Some(queue) => {
                self.parked.insert(id, queue);
                proof {
                    lemma_queues(self.in_channels@);
                    lemma_queues(self.parked@);
                    assert(final(self)@.sinks =~= old(self)@.park(id).sinks);
                    assert(final(self)@.parked =~= old(self)@.park(id).parked);
                }
            },
            None => {
                proof {
                    lemma_queues(self.in_channels@);
                    assert(final(self)@.sinks =~= old(self)@.sinks);
                }
            },
        }
    }

    /// Routes an item from the transport to the sink of its sub-channel,
    /// live or resting. An item whose sub-channel is not registered is
    /// refused with `UnknownSubId`, and nothing changes.
    pub fn start_send(&mut self, item: Item) -> (r: Result<(), Error>)
        ensures
            (final(self)@, r) == old(self)@.route(item.0, item.1@),
    {
        proof {
            lemma_queues(self.in_channels@);
            lemma_queues(self.parked@);
        }
        let Item(id, payload) = item;
        match self.in_channels.remove(&id) {
            Some(queue) => {
                let mut queue = queue;
                queue.push(payload);
                self.in_channels.insert(id, queue);
                proof {
                    lemma_queues(self.in_channels@);
                    assert(payloads(queue) =~= old(self)@.sinks[id].push(payload@));
                    assert(final(self)@.sinks =~= old(self)@.route(id, payload@).0.sinks);
                }
                Ok(())
            },
            None => match self.parked.remove(&id) {
                Some(queue) => {
                    let mut queue = queue;
                    queue.push(payload);
                    self.parked.insert(id, queue);
                    proof {
                        lemma_queues(self.in_channels@);
                        lemma_queues(self.parked@);
                        assert(payloads(queue) =~= old(self)@.parked[id].push(payload@));
                        assert(final(self)@.sinks =~= old(self)@.sinks);
                        assert(final(self)@.parked =~= old(self)@.route(id, payload@).0.parked);
                    }
                    Ok(())
                },
                None => {
                    proof {
                        lemma_queues(self.in_channels@);
                        lemma_queues(self.parked@);
                        assert(final(self)@.sinks =~= old(self)@.sinks);
                        assert(final(self)@.parked =~= old(self)@.parked);
                    }
                    Err(Error::UnknownSubId)
                },
            },
        }
    }

    /// Nothing that was routed waits to be flushed.
    pub fn poll_complete(&mut self) -> (r: Poll<()>)
        ensures
            final(self)@ == old(self)@,
            r == Poll::Ready(()),
    {
        Poll::Ready(())
    }

    /// Takes an item from the transport. It is routed if its sub-channel is
    /// registered, held back until the sub-channel is joined if it has
    /// never been registered, and refused if it was registered once and is
    /// not any more.
    pub fn deliver(&mut self, item: Item) -> (r: Result<(), Error>)
        ensures
            (final(self)@, r) == old(self)@.deliver(item.0, item.1@),
    {
        proof {
            lemma_queues(self.in_channels@);
            lemma_queues(self.held@);
        }
        if self.in_channels.contains_key(&item.0) || self.context.known.contains(&item.0) {
            self.start_send(item)
        } else {
            let Item(id, payload) = item;
            let mut queue = match self.held.remove(&id) {
                Some(queue) => queue,
                None => Vec::new(),
            };
            assert(payloads(queue) =~= old(self)@.early(id));
            queue.push(payload);
            assert(payloads(queue) =~= old(self)@.early(id).push(payload@));
            self.held.insert(id, queue);
            proof {
                lemma_queues(self.held@);
                assert(final(self)@.held =~= old(self)@.deliver(id, payload@).0.held);
            }
            Ok(())
        }
    }

    /// Ends the session: every sub-channel leaves the registry, what was
    /// held for sub-channels that were never joined is dropped, and the
    /// transport counts as ended.
    pub fn teardown(&mut self)
        ensures
            final(self)@ == old(self)@.torn_down(),
    {
        self.in_channels.clear();
        self.parked.clear();
        self.held.clear();
        self.ended = true;
        proof {
            lemma_queues(self.in_channels@);
            lemma_queues(self.parked@);
            lemma_queues(self.held@);
            assert(final(self)@.sinks =~= Map::empty());
            assert(final(self)@.parked =~= Map::empty());
            assert(final(self)@.held =~= Map::empty());
        }
    }

    /// Marks the end of what the transport delivers: the streams of the
    /// live sub-channels end once they are read empty, and the
    /// sub-channels that rest leave the registry.
    pub fn finish(&mut self)
        ensures
            final(self)@ == old(self)@.finish(),
    {
        self.parked.clear();
        self.ended = true;
        proof {
            lemma_queues(self.parked@);
            assert(final(self)@.parked =~= Map::empty());
        }
    }

    /// Hands the oldest waiting item to the transport: `None` when nothing
    /// waits and no sub-channel is live, `Pending` when nothing waits and
    /// one is.
    pub fn poll(&mut self) -> (r: Poll<Option<Item>>)
        ensures
            final(self)@ == old(self)@.take().0,
            match r {
                Poll::Ready(Some(item)) => old(self)@.take().1 == Poll::Ready(Some(item@)),
                Poll::Ready(None) => old(self)@.take().1 == Poll::Ready(None::<(u32, Seq<u8>)>),
                Poll::Pending => old(self)@.take().1 is Pending,
            },
    {
        proof {
            lemma_queues(self.in_channels@);
        }
        if self.out_channel.len() > 0 {
            let item = self.out_channel.remove(0);
            assert(final(self)@.outbound =~= old(self)@.outbound.remove(0));
            Poll::Ready(Some(item))
        } else if self.in_channels.is_empty() {
            Poll::Ready(None)
        } else {
            Poll::Pending
        }
    }

    /// Queues a payload of sub-channel `id` for the transport.
    pub fn emit(&mut self, id: u32, payload: Vec<u8>)
        ensures
            final(self)@ == old(self)@.emit(id, payload@),
    {
        self.out_channel.push(Item(id, payload));
        assert(final(self)@.outbound =~= old(self)@.outbound.push((id, payload@)));
    }

    /// Reads the oldest payload that has arrived for `id`: `None` at the
    /// end of the stream, `Pending` while more may come.
    pub fn recv(&mut self, id: u32) -> (r: Poll<Option<Vec<u8>>>)
        ensures
            final(self)@ == old(self)@.recv(id).0,
            match r {
                Poll::Ready(Some(payload)) => old(self)@.recv(id).1 == Poll::Ready(Some(payload@)),
                Poll::Ready(None) => old(self)@.recv(id).1 == Poll::Ready(None::<Seq<u8>>),
                Poll::Pending => old(self)@.recv(id).1 is Pending,
            },
    {
        proof {
            lemma_queues(self.in_channels@);
        }
        match self.in_channels.remove(&id) {
            Some(queue) => {
                let mut queue = queue;
                if queue.len() > 0 {
                    let payload = queue.remove(0);
                    self.in_channels.insert(id, queue);
                    proof {
                        lemma_queues(self.in_channels@);
                        assert(payloads(queue) =~= old(self)@.sinks[id].remove(0));
                        assert(final(self)@.sinks =~= old(self)@.recv(id).0.sinks);
                    }
                    Poll::Ready(Some(payload))
                } else {
                    self.in_channels.insert(id, queue);
                    proof {
                        lemma_queues(self.in_channels@);
                        assert(final(self)@.sinks =~= old(self)@.sinks);
                    }
                    if self.ended {
                        Poll::Ready(None)
                    } else {
                        Poll::Pending
                    }
                }
            },
            None => {
                proof {
                    lemma_queues(self.in_channels@);
                    assert(final(self)@.sinks =~= old(self)@.sinks);
                }
                Poll::Ready(None)
            },
        }
    }
}

/// One end of a sub-channel: it reads items of type `I` and sends items of
/// type `O`, both through the format of the endpoint.
pub struct IdChannelFork<I, O> {
    pub id: u32,
    /// True once a payload of the sub-channel could not be decoded: the
    /// stream of this end has ended in its place.
    pub broken: bool,
    pub marker: PhantomData<(I, O)>,
}

impl<I, O> IdChannelFork<I, O> {
    /// The end of sub-channel `id`.
    pub fn new(id: u32) -> (r: Self)
        ensures
            r == Self::of(id),
    {
        IdChannelFork { id, broken: false, marker: PhantomData }
    }

    pub open spec fn of(id: u32) -> Self {
        IdChannelFork { id, broken: false, marker: PhantomData }
    }

    /// The factory of forks that goes with this end.
    pub fn split_factory(&self) -> (r: IdFork)
        ensures
            r == IdFork,
    {
        IdFork
    }
}

impl<F> Model<F> {
    /// Notes that a payload of sub-channel `id` could not be decoded. Only
    /// the first such sub-channel is kept.
    pub open spec fn blame(self, id: u32) -> Self {
        Model {
            fault: if self.fault is None {
                Some(id)
            } else {
                self.fault
            },
            ..self
        }
    }

    /// The endpoint with its format replaced.
    pub open spec fn with_format(self, format: F) -> Self {
        Model { format, ..self }
    }
}

impl<
    I,
    O,
    F: Format<I, Representation = Vec<u8>> + Format<O, Representation = Vec<u8>>,
> Channel<I, O, IdChannel<F>> for IdChannelFork<I, O> {
    type Error = <F as Format<O>>::SerializeError;

    /// The oldest payload of the sub-channel, decoded. A payload that does
    /// not decode is dropped and noted as a fault: this end is broken from
    /// then on, and its stream has ended. Whoever reads the end of the
    /// stream finds it broken and fails.
    open spec fn next(self, ctx: Model<F>) -> (Self, Model<F>, Poll<Option<I>>) {
        if self.broken {
            (self, ctx, Poll::Ready(None))
        } else {
            let step = ctx.recv(self.id);
            match step.1 {
                Poll::Ready(Some(payload)) => {
                    let decoded = <F as Format<I>>::deserialized(step.0.format, payload);
                    match decoded.1 {
                        Ok(item) => (self, step.0.with_format(decoded.0), Poll::Ready(Some(item))),
                        Err(_) => (
                            IdChannelFork { broken: true, ..self },
                            step.0.with_format(decoded.0).blame(self.id),
                            Poll::Ready(None),
                        ),
                    }
                },
                Poll::Ready(None) => (self, step.0, Poll::Ready(None)),
                Poll::Pending => (self, step.0, Poll::Pending),
            }
        }
    }

    fn poll_next(&mut self, ctx: &mut IdChannel<F>) -> (r: Poll<Option<I>>) {
        if self.broken {
            return Poll::Ready(None);
        }
        match ctx.recv(self.id) {
            Poll::Ready(Some(payload)) => {
                match <F as Format<I>>::deserialize(&mut ctx.format, payload) {
                    Ok(item) => Poll::Ready(Some(item)),
                    Err(_) => {
                        if ctx.fault.is_none() {
                            ctx.fault = Some(self.id);
                        }
                        self.broken = true;
                        Poll::Ready(None)
                    },
                }
            },
            Poll::Ready(None) => Poll::Ready(None),
            Poll::Pending => Poll::Pending,
        }
    }

    open spec fn broken(self, ctx: Model<F>) -> bool {
        self.broken
    }

    fn is_broken(&self, ctx: &IdChannel<F>) -> (r: bool) {
        self.broken
    }

    /// The outbound side takes whatever it is given.
    open spec fn ready(self, ctx: Model<F>) -> (Self, Model<F>, Poll<Result<(), Self::Error>>) {
        (self, ctx, Poll::Ready(Ok(())))
    }

    fn poll_ready(&mut self, ctx: &mut IdChannel<F>) -> (r: Poll<Result<(), Self::Error>>) {
        Poll::Ready(Ok(()))
    }

    /// The item is serialized and queued for the transport under the
    /// identifier of the sub-channel. If it does not serialize, nothing is
    /// queued.
    open spec fn sent(self, ctx: Model<F>, item: O) -> (Self, Model<F>, Result<(), Self::Error>) {
        let encoded = <F as Format<O>>::serialized(ctx.format, item);
        match encoded.1 {
            Ok(payload) => (self, ctx.with_format(encoded.0).emit(self.id, payload), Ok(())),
            Err(e) => (self, ctx.with_format(encoded.0), Err(e)),
        }
    }

    fn start_send(&mut self, ctx: &mut IdChannel<F>, item: O) -> (r: Result<(), Self::Error>) {
        match <F as Format<O>>::serialize(&mut ctx.format, item) {
            Ok(payload) => {
                ctx.emit(self.id, payload);
                Ok(())
            },
            Err(e) => Err(e),
        }
    }

    open spec fn flushed(self, ctx: Model<F>) -> (Self, Model<F>, Poll<Result<(), Self::Error>>) {
        (self, ctx, Poll::Ready(Ok(())))
    }

    fn poll_flush(&mut self, ctx: &mut IdChannel<F>) -> (r: Poll<Result<(), Self::Error>>) {
        Poll::Ready(Ok(()))
    }

    open spec fn closed(self, ctx: Model<F>) -> (Self, Model<F>, Poll<Result<(), Self::Error>>) {
        (self, ctx, Poll::Ready(Ok(())))
    }

    fn poll_close(&mut self, ctx: &mut IdChannel<F>) -> (r: Poll<Result<(), Self::Error>>) {
        Poll::Ready(Ok(()))
    }
}

impl<A, B, F: Format<A, Representation = Vec<u8>> + Format<B, Representation = Vec<u8>>> Channels<
    A,
    B,
> for IdChannel<F> {
    type Unravel = IdChannelFork<B, A>;

    type Coalesce = IdChannelFork<A, B>;
}

impl<F> Dispatch for IdChannel<F> {
    type Handle = ForkHandle;
}

/// The factory of forks of an endpoint.
#[derive(Clone, Copy, Debug, PartialEq, Eq)]
pub struct IdFork;


/// The task of a fork: it drives the unraveling of the forked value on its
/// own sub-channel and resolves to the handle once the value is sent. When
/// it hands the handle out, the sub-channel is put to rest: it stays in
/// the registry and takes what the peer sends to it until the transport
/// has ended. If the value could not be sent, no handle names the
/// sub-channel, and it leaves the registry at once.
pub enum Forked<Fut, P> {
    /// No identifier was left. The error waits to be handed out.
    Refused(Option<Error>, PhantomData<P>),
    /// The value is being sent on the sub-channel with this identifier.
    Running(u32, Fut),
}

impl<F, P, Fut: Task<IdChannel<F>, Output = Result<(), P>>> Task<IdChannel<F>> for Forked<Fut, P> {
    type Output = Result<ForkHandle, ContextError<Error, P>>;

    open spec fn unresolved(self) -> bool {
        match self {
            Forked::Refused(e, _) => e is Some,
            Forked::Running(_, task) => task.unresolved(),
        }
    }

    open spec fn polled(self, ctx: Model<F>) -> (Self, Model<F>, Poll<Self::Output>) {
        match self {
            Forked::Refused(Some(e), marker) => (
                Forked::Refused(None, marker),
                ctx,
                Poll::Ready(Err(ContextError::Context(e))),
            ),
            Forked::Refused(None, _) => (self, ctx, Poll::Pending),
            Forked::Running(id, task) => {
                let step = task.polled(ctx);
                match step.2 {
                    Poll::Pending => (Forked::Running(id, step.0), step.1, Poll::Pending),
                    Poll::Ready(Ok(())) => (
                        Forked::Running(id, step.0),
                        step.1.park(id),
                        Poll::Ready(Ok(ForkHandle(id))),
                    ),
                    Poll::Ready(Err(e)) => (
                        Forked::Running(id, step.0),
                        step.1.retire(id),
                        Poll::Ready(Err(ContextError::Protocol(e))),
                    ),
                }
            },
        }
    }

    fn poll(&mut self, ctx: &mut IdChannel<F>) -> (r: Poll<Self::Output>) {
        match self {
            Forked::Refused(e, _) => match e.take() {
                Some(e) => Poll::Ready(Err(ContextError::Context(e))),
                None => Poll::Pending,
            },
            Forked::Running(id, task) => match task.poll(ctx) {
                Poll::Pending => Poll::Pending,
                Poll::Ready(Ok(())) => {
                    ctx.park(*id);
                    Poll::Ready(Ok(ForkHandle(*id)))
                },
                Poll::Ready(Err(e)) => {
                    ctx.deregister(*id);
                    Poll::Ready(Err(ContextError::Protocol(e)))
                },
            },
        }
    }

    /// The value in progress is given up, and its sub-channel leaves the
    /// registry.
    open spec fn cancelled(self, ctx: Model<F>) -> Model<F> {
        match self {
            Forked::Refused(_, _) => ctx,
            Forked::Running(id, task) => task.cancelled(ctx).retire(id),
        }
    }

    fn cancel(self, ctx: &mut IdChannel<F>) {
        match self {
            Forked::Refused(_, _) => {},
            Forked::Running(id, task) => {
                task.cancel(ctx);
                ctx.deregister(id);
            },
        }
    }
}

/// The task of a join: it drives the rebuilding of the value that a handle
/// names and resolves to the value. The sub-channel leaves the registry
/// when the task resolves.
pub enum Joined<Fut, T, P> {
    /// The handle was refused. The error waits to be handed out.
    Refused(Option<Error>, PhantomData<(T, P)>),
    /// The value is being rebuilt from the sub-channel with this
    /// identifier.
    Running(u32, Fut),
}

impl<F, T, P, Fut: Task<IdChannel<F>, Output = Result<T, P>>> Task<IdChannel<F>> for Joined<Fut, T, P> {
    type Output = Result<T, ContextError<Error, P>>;

    open spec fn unresolved(self) -> bool {
        match self {
            Joined::Refused(e, _) => e is Some,
            Joined::Running(_, task) => task.unresolved(),
        }
    }

    open spec fn polled(self, ctx: Model<F>) -> (Self, Model<F>, Poll<Self::Output>) {
        match self {
            Joined::Refused(Some(e), marker) => (
                Joined::Refused(None, marker),
                ctx,
                Poll::Ready(Err(ContextError::Context(e))),
            ),
            Joined::Refused(None, _) => (self, ctx, Poll::Pending),
            Joined::Running(id, task) => {
                let step = task.polled(ctx);
                match step.2 {
                    Poll::Pending => (Joined::Running(id, step.0), step.1, Poll::Pending),
                    Poll::Ready(Ok(value)) => (
                        Joined::Running(id, step.0),
                        step.1.retire(id),
                        Poll::Ready(Ok(value)),
                    ),
                    Poll::Ready(Err(e)) => (
                        Joined::Running(id, step.0),
                        step.1.retire(id),
                        Poll::Ready(Err(ContextError::Protocol(e))),
                    ),
                }
            },
        }
    }

    fn poll(&mut self, ctx: &mut IdChannel<F>) -> (r: Poll<Self::Output>) {
        match self {
            Joined::Refused(e, _) => match e.take() {
                Some(e) => Poll::Ready(Err(ContextError::Context(e))),
                None => Poll::Pending,
            },
            Joined::Running(id, task) => match task.poll(ctx) {
                Poll::Pending => Poll::Pending,
                Poll::Ready(Ok(value)) => {
                    ctx.deregister(*id);
                    Poll::Ready(Ok(value))
                },
                Poll::Ready(Err(e)) => {
                    ctx.deregister(*id);
                    Poll::Ready(Err(ContextError::Protocol(e)))
                },
            },
        }
    }

    /// The value in progress is given up, and its sub-channel leaves the
    /// registry.
    open spec fn cancelled(self, ctx: Model<F>) -> Model<F> {
        match self {
            Joined::Refused(_, _) => ctx,
            Joined::Running(id, task) => task.cancelled(ctx).retire(id),
        }
    }

    fn cancel(self, ctx: &mut IdChannel<F>) {
        match self {
            Joined::Refused(_, _) => {},
            Joined::Running(id, task) => {
                task.cancel(ctx);
                ctx.deregister(id);
            },
        }
    }
}

impl<F> IdChannel<F> {
    /// What `fork` does: a fresh identifier is registered before anything
    /// of `value` is sent, and `value` starts unraveling on the new
    /// sub-channel.
    pub open spec fn forking<V: Protocol<IdChannel<F>, F>>(ctx: Model<F>, value: V) -> (
        Forked<V::UnravelFuture, V::UnravelError>,
        Model<F>,
    ) where
        F: Format<V::Unravel, Representation = Vec<u8>> + Format<
            V::Coalesce,
            Representation = Vec<u8>,
        >,
     {
        match ctx.allocate() {
            Some(id) => {
                let start = value.unraveling(IdChannelFork::of(id), ctx.register(id));
                (Forked::Running(id, start.0), start.1)
            },
            None => (Forked::Refused(Some(Error::Exhausted), PhantomData), ctx),
        }
    }

    /// Forks `value`: gives it a sub-channel of its own and starts sending
    /// it there. The task resolves to the handle that names the
    /// sub-channel to the peer.
    pub fn fork<V: Protocol<IdChannel<F>, F>>(&mut self, value: V) -> (r: Forked<
        V::UnravelFuture,
        V::UnravelError,
    >) where
        F: Format<V::Unravel, Representation = Vec<u8>> + Format<
            V::Coalesce,
            Representation = Vec<u8>,
        >,

        ensures
            (r, final(self)@) == Self::forking(old(self)@, value),
            r.unresolved(),
    {
        if self.context.next <= u32::MAX as u64 {
            let id = self.context.next as u32;
            self.register(id);
            let task = value.unravel(IdChannelFork::new(id), self);
            Forked::Running(id, task)
        } else {
            Forked::Refused(Some(Error::Exhausted), PhantomData)
        }
    }

    /// What `get_fork` does: the identifier of the handle is registered,
    /// with what was held for it, and the value starts coalescing from the
    /// sub-channel. A handle whose identifier was registered before is
    /// refused with `DoubleJoin`.
    pub open spec fn joining_fork<V: Protocol<IdChannel<F>, F>>(
        ctx: Model<F>,
        fork_ref: ForkHandle,
    ) -> (Joined<V::CoalesceFuture, V, V::CoalesceError>, Model<F>) where
        F: Format<V::Unravel, Representation = Vec<u8>> + Format<
            V::Coalesce,
            Representation = Vec<u8>,
        >,
     {
        if ctx.known.contains(fork_ref.0) {
            (Joined::Refused(Some(Error::DoubleJoin), PhantomData), ctx)
        } else {
            let start = V::coalescing(IdChannelFork::of(fork_ref.0), ctx.register(fork_ref.0));
            (Joined::Running(fork_ref.0, start.0), start.1)
        }
    }

    /// Joins the fork that `fork_ref` names: reserves its sub-channel and
    /// starts rebuilding the value from it.
    pub fn get_fork<V: Protocol<IdChannel<F>, F>>(&mut self, fork_ref: ForkHandle) -> (r: Joined<
        V::CoalesceFuture,
        V,
        V::CoalesceError,
    >) where
        F: Format<V::Unravel, Representation = Vec<u8>> + Format<
            V::Coalesce,
            Representation = Vec<u8>,
        >,

        ensures
            (r, final(self)@) == Self::joining_fork::<V>(old(self)@, fork_ref),
            r.unresolved(),
    {
        if self.context.known.contains(&fork_ref.0) {
            Joined::Refused(Some(Error::DoubleJoin), PhantomData)
        } else {
            self.register(fork_ref.0);
            let task = IdChannelFork::<V::Unravel, V::Coalesce>::construct::<F, V>(fork_ref.0, self);
            Joined::Running(fork_ref.0, task)
        }
    }
}

impl<
    F: Format<P::Unravel, Representation = Vec<u8>> + Format<P::Coalesce, Representation = Vec<u8>>,
    P: Protocol<IdChannel<F>, F>,
> Spawn<P, F> for IdChannel<F> {
    type Error = Error;

    type Target = IdChannel<F>;

    type Output = Forked<P::UnravelFuture, P::UnravelError>;

    open spec fn spawning(ctx: Model<F>, item: P) -> (Self::Output, Model<F>) {
        Self::forking(ctx, item)
    }

    fn spawn(&mut self, item: P) -> (r: Self::Output) {
        self.fork(item)
    }
}

impl<
    F: Format<P::Unravel, Representation = Vec<u8>> + Format<P::Coalesce, Representation = Vec<u8>>,
    P: Protocol<IdChannel<F>, F>,
> Join<P, F> for IdChannel<F> {
    type Error = Error;

    type Target = IdChannel<F>;

    type Output = Joined<P::CoalesceFuture, P, P::CoalesceError>;

    open spec fn joining(ctx: Model<F>, handle: ForkHandle) -> (Self::Output, Model<F>) {
        Self::joining_fork::<P>(ctx, handle)
    }

    fn join(&mut self, handle: ForkHandle) -> (r: Self::Output) {
        self.get_fork::<P>(handle)
    }
}


impl<F> IdChannel<F> {
    /// What `new_with` does: on a fresh endpoint the root sub-channel is
    /// registered, and `value` starts unraveling on it.
    pub open spec fn rooting<V: Protocol<IdChannel<F>, F>>(value: V, format: F) -> (
        Forked<V::UnravelFuture, V::UnravelError>,
        Model<F>,
    ) where
        F: Format<V::Unravel, Representation = Vec<u8>> + Format<
            V::Coalesce,
            Representation = Vec<u8>,
        >,
     {
        let start = value.unraveling(IdChannelFork::of(ROOT), Model::fresh(format).register(ROOT));
        (Forked::Running(ROOT, start.0), start.1)
    }

    /// The endpoint of the side that unravels `value`, and the task that
    /// sends `value` on the root sub-channel.
    pub fn new_with<V: Protocol<IdChannel<F>, F>>(value: V, format: F) -> (r: (
        Self,
        Forked<V::UnravelFuture, V::UnravelError>,
    )) where
        F: Format<V::Unravel, Representation = Vec<u8>> + Format<
            V::Coalesce,
            Representation = Vec<u8>,
        >,

        ensures
            (r.1, r.0@) == Self::rooting(value, format),
            r.1.unresolved(),
    {
        IdChannelFork::<V::Coalesce, V::Unravel>::new_root(value, format)
    }

    /// The start of the side that coalesces a value of type `V`.
    pub fn new_shim<V>() -> (r: Shim<V>)
        ensures
            r == Shim::<V>::of(),
    {
        Shim { marker: PhantomData }
    }
}

/// The start of the side that coalesces a value of type `V`: it becomes an
/// endpoint once it is given a format.
pub struct Shim<V> {
    pub marker: PhantomData<V>,
}

impl<V> Shim<V> {
    pub open spec fn of() -> Self {
        Shim { marker: PhantomData }
    }

    /// What `complete` does: on a fresh endpoint the root handle is joined.
    pub open spec fn completing<F>(format: F) -> (
        Joined<V::CoalesceFuture, V, V::CoalesceError>,
        Model<F>,
    ) where
        V: Protocol<IdChannel<F>, F>,
        F: Format<V::Unravel, Representation = Vec<u8>> + Format<
            V::Coalesce,
            Representation = Vec<u8>,
        >,
     {
        IdChannel::<F>::joining_fork::<V>(Model::fresh(format), ForkHandle(ROOT))
    }

    /// The endpoint of the side that coalesces, and the task that rebuilds
    /// the value from the root sub-channel. The transport is not touched:
    /// what it delivers is handed to the endpoint, and what the endpoint
    /// queues is handed to it, by whoever owns it.
    pub fn complete<F>(self, format: F) -> (r: (
        IdChannel<F>,
        Joined<V::CoalesceFuture, V, V::CoalesceError>,
    )) where
        V: Protocol<IdChannel<F>, F>,
        F: Format<V::Unravel, Representation = Vec<u8>> + Format<
            V::Coalesce,
            Representation = Vec<u8>,
        >,

        ensures
            (r.1, r.0@) == Self::completing(format),
            r.1.unresolved(),
    {
        let mut channel = IdChannel::new(format);
        let task = channel.get_fork::<V>(ForkHandle(ROOT));
        (channel, task)
    }
}

impl<I, O> IdChannelFork<I, O> {
    /// A fresh endpoint whose root sub-channel is registered, and the task
    /// that sends `value` on the end of it that reads `I` and sends `O`.
    pub fn new_root<F, V>(value: V, format: F) -> (r: (
        IdChannel<F>,
        Forked<V::UnravelFuture, V::UnravelError>,
    )) where
        V: Protocol<IdChannel<F>, F, Unravel = O, Coalesce = I>,
        F: Format<O, Representation = Vec<u8>> + Format<I, Representation = Vec<u8>>,

        ensures
            (r.1, r.0@) == IdChannel::<F>::rooting(value, format),
            r.1.unresolved(),
    {
        let mut channel = IdChannel::new(format);
        channel.register(ROOT);
        let task = value.unravel(IdChannelFork::new(ROOT), &mut channel);
        (channel, Forked::Running(ROOT, task))
    }

    /// Starts rebuilding a value from the end of sub-channel `id` that reads
    /// `I` and sends `O`.
    pub fn construct<F, V>(id: u32, ctx: &mut IdChannel<F>) -> (r: V::CoalesceFuture) where
        V: Protocol<IdChannel<F>, F, Unravel = I, Coalesce = O>,
        F: Format<O, Representation = Vec<u8>> + Format<I, Representation = Vec<u8>>,

        ensures
            (r, final(ctx)@) == V::coalescing(IdChannelFork::of(id), old(ctx)@),
            r.unresolved(),
    {
        V::coalesce(IdChannelFork::new(id), ctx)
    }
}

impl IdFork {
    /// Forks `value` on the endpoint `ctx`.
    pub fn fork<F, V: Protocol<IdChannel<F>, F>>(&self, ctx: &mut IdChannel<F>, value: V) -> (r: Forked<
        V::UnravelFuture,
        V::UnravelError,
    >) where
        F: Format<V::Unravel, Representation = Vec<u8>> + Format<
            V::Coalesce,
            Representation = Vec<u8>,
        >,

        ensures
            (r, final(ctx)@) == IdChannel::<F>::forking(old(ctx)@, value),
            r.unresolved(),
    {
        ctx.fork(value)
    }

    /// Joins the fork that `fork_ref` names on the endpoint `ctx`.
    pub fn get_fork<F, V: Protocol<IdChannel<F>, F>>(
        &self,
        ctx: &mut IdChannel<F>,
        fork_ref: ForkHandle,
    ) -> (r: Joined<V::CoalesceFuture, V, V::CoalesceError>) where
        F: Format<V::Unravel, Representation = Vec<u8>> + Format<
            V::Coalesce,
            Representation = Vec<u8>,
        >,

        ensures
            (r, final(ctx)@) == IdChannel::<F>::joining_fork::<V>(old(ctx)@, fork_ref),
            r.unresolved(),
    {
        ctx.get_fork::<V>(fork_ref)
    }
}


} // verus!
