use std::collections::VecDeque;

use vessels::director::null::{Context, Empty};
use vessels::director::{Director, DirectorError, Null, Trivial};
use vessels::flat::{Insufficient, Kind, Scalar, Unread};
use vessels::format::serde::{Serde, Serializer};
use vessels::option;
use vessels::{Bottom, Channel, ContextError, Join, Poll, Spawn, Task};

/// A serializer for formats that are never asked for anything.
struct Mute;

impl Serializer for Mute {
    type SerializeError = ();
    type DeserializeError = ();
    type Representation = Vec<u8>;

    fn serialize(&mut self, _: Scalar) -> Result<Vec<u8>, ()> {
        Err(())
    }

    fn deserialize(&mut self, _: Kind, _: Vec<u8>) -> Result<Scalar, ()> {
        Err(())
    }
}

/// One end of a typed pipe in memory.
struct Pipe<I, O> {
    inbound: VecDeque<I>,
    ended: bool,
    outbound: Vec<O>,
    closed: bool,
    broken: bool,
}

impl<I, O> Pipe<I, O> {
    fn new(inbound: Vec<I>, ended: bool) -> Self {
        Pipe { inbound: inbound.into(), ended, outbound: Vec::new(), closed: false, broken: false }
    }
}

impl<I, O> Channel<I, O, ()> for Pipe<I, O> {
    type Error = &'static str;

    fn poll_next(&mut self, _: &mut ()) -> Poll<Option<I>> {
        match self.inbound.pop_front() {
            Some(item) => Poll::Ready(Some(item)),
            None if self.ended => Poll::Ready(None),
            None => Poll::Pending,
        }
    }

    fn is_broken(&self, _: &()) -> bool {
        false
    }

    fn poll_ready(&mut self, _: &mut ()) -> Poll<Result<(), Self::Error>> {
        Poll::Ready(if self.broken { Err("broken") } else { Ok(()) })
    }

    fn start_send(&mut self, _: &mut (), item: O) -> Result<(), Self::Error> {
        self.outbound.push(item);
        Ok(())
    }

    fn poll_flush(&mut self, _: &mut ()) -> Poll<Result<(), Self::Error>> {
        Poll::Ready(Ok(()))
    }

    fn poll_close(&mut self, _: &mut ()) -> Poll<Result<(), Self::Error>> {
        self.closed = true;
        Poll::Ready(Ok(()))
    }
}

type Up<T> = Pipe<Bottom, T>;
type Down<T> = Pipe<T, Bottom>;

#[test]
fn null_director_exchanges_nothing() {
    let (mut unravel, mut ctx) =
        <Null as Director<(), Serde<Mute>, (), ()>>::unravel(Null, (), ());
    assert!(matches!(unravel.poll(&mut ctx), Poll::Ready(Ok(()))));
    let (mut coalesce, mut ctx) =
        <Null as Director<(), Serde<Mute>, (), ()>>::coalesce(Null, ());
    assert!(matches!(coalesce.poll(&mut ctx), Poll::Ready(Ok(()))));
}

#[test]
fn empty_channel_has_ended_and_takes_nothing_back() {
    let mut channel = Empty::new();
    let mut ctx = Context;
    assert!(matches!(Channel::<Bottom, Bottom, Context>::poll_next(&mut channel, &mut ctx), Poll::Ready(None)));
    assert!(matches!(
        Channel::<Bottom, Bottom, Context>::poll_ready(&mut channel, &mut ctx),
        Poll::Ready(Ok(()))
    ));
    assert!(matches!(
        Channel::<Bottom, Bottom, Context>::poll_flush(&mut channel, &mut ctx),
        Poll::Ready(Ok(()))
    ));
    assert!(matches!(
        Channel::<Bottom, Bottom, Context>::poll_close(&mut channel, &mut ctx),
        Poll::Ready(Ok(()))
    ));
    let _: &Context = channel.deref();
    let _: &mut Context = channel.deref_mut();
}

#[test]
fn empty_context_spawns_and_joins_what_exchanges_nothing() {
    let mut ctx = Context;
    let mut spawn = <Context as Spawn<(), Serde<Mute>>>::spawn(&mut ctx, ());
    assert!(matches!(spawn.poll(&mut ctx), Poll::Ready(Ok(()))));
    let mut join = <Context as Join<(), Serde<Mute>>>::join(&mut ctx, ());
    assert!(matches!(join.poll(&mut ctx), Poll::Ready(Ok(()))));
}

#[test]
fn trivial_director_sends_a_scalar_on_the_transport_itself() {
    let transport: Up<u32> = Pipe::new(Vec::new(), true);
    let (mut unravel, mut ctx) =
        <Trivial as Director<u32, Serde<Mute>, Down<u32>, Up<u32>>>::unravel(Trivial, 42, transport);
    assert!(matches!(unravel.poll(&mut ctx), Poll::Ready(Ok(()))));
    let pipe = &unravel.0.channel.0;
    assert_eq!(pipe.outbound, vec![42]);
    assert!(pipe.closed);
}

#[test]
fn trivial_director_reads_a_scalar_from_the_transport_itself() {
    let transport: Down<u32> = Pipe::new(vec![42], false);
    let (mut coalesce, mut ctx) =
        <Trivial as Director<u32, Serde<Mute>, Down<u32>, Up<u32>>>::coalesce(Trivial, transport);
    assert!(matches!(coalesce.poll(&mut ctx), Poll::Ready(Ok(42))));
}

#[test]
fn trivial_director_waits_for_the_transport() {
    let transport: Down<u32> = Pipe::new(Vec::new(), false);
    let (mut coalesce, mut ctx) =
        <Trivial as Director<u32, Serde<Mute>, Down<u32>, Up<u32>>>::coalesce(Trivial, transport);
    assert!(matches!(coalesce.poll(&mut ctx), Poll::Pending));
    assert!(matches!(coalesce.poll(&mut ctx), Poll::Pending));
}

#[test]
fn trivial_director_passes_the_errors_of_the_protocol_on() {
    let transport: Down<u32> = Pipe::new(Vec::new(), true);
    let (mut coalesce, mut ctx) =
        <Trivial as Director<u32, Serde<Mute>, Down<u32>, Up<u32>>>::coalesce(Trivial, transport);
    assert!(matches!(
        coalesce.poll(&mut ctx),
        Poll::Ready(Err(DirectorError::Protocol(Unread::Insufficient(Insufficient))))
    ));

    let mut transport: Up<u32> = Pipe::new(Vec::new(), true);
    transport.broken = true;
    let (mut unravel, mut ctx) =
        <Trivial as Director<u32, Serde<Mute>, Down<u32>, Up<u32>>>::unravel(Trivial, 42, transport);
    assert!(matches!(
        unravel.poll(&mut ctx),
        Poll::Ready(Err(DirectorError::Protocol("broken")))
    ));
}

#[test]
fn trivial_director_carries_an_option_of_nothing_as_a_bare_handle() {
    let transport: Up<()> = Pipe::new(Vec::new(), true);
    let (mut unravel, mut ctx) = <Trivial as Director<Option<()>, Serde<Mute>, Down<()>, Up<()>>>::unravel(
        Trivial,
        Some(()),
        transport,
    );
    assert!(matches!(unravel.poll(&mut ctx), Poll::Ready(Ok(()))));

    let transport: Down<()> = Pipe::new(vec![()], true);
    let (mut coalesce, mut ctx) =
        <Trivial as Director<Option<()>, Serde<Mute>, Down<()>, Up<()>>>::coalesce(Trivial, transport);
    assert!(matches!(coalesce.poll(&mut ctx), Poll::Ready(Ok(Some(())))));

    let transport: Down<()> = Pipe::new(Vec::new(), true);
    let (mut coalesce, mut ctx) =
        <Trivial as Director<Option<()>, Serde<Mute>, Down<()>, Up<()>>>::coalesce(Trivial, transport);
    assert!(matches!(coalesce.poll(&mut ctx), Poll::Ready(Ok(None))));
}

#[test]
fn option_tells_a_failed_send_from_a_failed_spawn() {
    let mut transport: Up<()> = Pipe::new(Vec::new(), true);
    transport.broken = true;
    let (mut unravel, mut ctx) = <Trivial as Director<Option<()>, Serde<Mute>, Down<()>, Up<()>>>::unravel(
        Trivial,
        Some(()),
        transport,
    );
    assert!(matches!(
        unravel.poll(&mut ctx),
        Poll::Ready(Err(DirectorError::Protocol(option::Error::Send("broken"))))
    ));
    let _unused: Option<ContextError<(), ()>> = None;
}

#[test]
fn pipe_delivers_what_was_sent_in_order() {
    let mut end = vessels::director::pipe::Pipe::<u8, u32>::new();
    assert!(matches!(end.poll_next(&mut ()), Poll::Pending));
    assert!(matches!(end.poll_ready(&mut ()), Poll::Ready(Ok(()))));
    assert!(end.start_send(&mut (), 1).is_ok());
    assert!(end.start_send(&mut (), 2).is_ok());
    assert!(end.start_send(&mut (), 3).is_ok());
    assert!(matches!(end.poll_flush(&mut ()), Poll::Ready(Ok(()))));
    assert!(!end.is_broken(&()));

    // Not closed: the other end waits for more when it has read all.
    let mut other = end.across();
    assert!(matches!(other.poll_next(&mut ()), Poll::Ready(Some(1))));
    assert!(matches!(other.poll_next(&mut ()), Poll::Ready(Some(2))));
    assert!(matches!(other.poll_next(&mut ()), Poll::Ready(Some(3))));
    assert!(matches!(other.poll_next(&mut ()), Poll::Pending));

    // Closed: the stream of the other end ends.
    let mut end = vessels::director::pipe::Pipe::<u8, u32>::new();
    assert!(end.start_send(&mut (), 9).is_ok());
    assert!(matches!(end.poll_close(&mut ()), Poll::Ready(Ok(()))));
    let mut other = end.across();
    assert!(matches!(other.poll_next(&mut ()), Poll::Ready(Some(9))));
    assert!(matches!(other.poll_next(&mut ()), Poll::Ready(None)));
}

#[test]
fn trivial_director_carries_a_scalar_through_a_pipe() {
    let (mut unravel, mut ctx) = <Trivial as Director<
        u32,
        Serde<Mute>,
        vessels::director::pipe::Pipe<u32, Bottom>,
        vessels::director::pipe::Pipe<Bottom, u32>,
    >>::unravel(Trivial, 42, vessels::director::pipe::Pipe::new());
    assert!(matches!(unravel.poll(&mut ctx), Poll::Ready(Ok(()))));
    let sent = unravel.0.channel.0;
    assert!(sent.closed);

    let (mut coalesce, mut ctx) = <Trivial as Director<
        u32,
        Serde<Mute>,
        vessels::director::pipe::Pipe<u32, Bottom>,
        vessels::director::pipe::Pipe<Bottom, u32>,
    >>::coalesce(Trivial, sent.across());
    assert!(matches!(coalesce.poll(&mut ctx), Poll::Ready(Ok(42))));
}

#[test]
fn trivial_director_finds_a_closed_pipe_insufficient() {
    let mut empty = vessels::director::pipe::Pipe::<Bottom, u32>::new();
    assert!(matches!(empty.poll_close(&mut ()), Poll::Ready(Ok(()))));
    let (mut coalesce, mut ctx) = <Trivial as Director<
        u32,
        Serde<Mute>,
        vessels::director::pipe::Pipe<u32, Bottom>,
        vessels::director::pipe::Pipe<Bottom, u32>,
    >>::coalesce(Trivial, empty.across());
    assert!(matches!(
        coalesce.poll(&mut ctx),
        Poll::Ready(Err(DirectorError::Protocol(Unread::Insufficient(Insufficient))))
    ));
}
