use vessels::channel::id::{ForkHandle, IdChannel, IdChannelFork, Item};
use vessels::flat::{self, Kind, Scalar, Unread};
use vessels::format::serde::{Serde, Serializer};
use vessels::future::Forward;
use vessels::input::mouse::{Action, Button, Event, Mouse, Vector};
use vessels::orchestrator::native::NativeContainers;
use vessels::replicate::{Missing, React, Reactive, Share, Shared};
use vessels::{Bottom, ContextError, Poll, Protocol, Task};

#[derive(Debug, PartialEq)]
struct Counter(u32);

impl Reactive for Counter {
    type Mutation = u32;
    type Feed = Vec<u32>;

    fn react(self) -> (Self, Vec<u32>) {
        let steps = (1..=self.0).collect();
        (self, steps)
    }
}

#[test]
fn shared_value_is_the_same_for_every_holder() {
    let first = Shared::new(Box::new(String::from("held")));
    let second = first.share();
    assert_eq!(first.get(), "held");
    assert_eq!(second.get(), "held");
    assert!(std::ptr::eq(first.get(), second.get()));
}

#[test]
fn clone_types_share_by_cloning() {
    let text = String::from("copy");
    assert_eq!(text.share(), "copy");
    assert_eq!(7u8.share(), 7);
}

#[test]
fn react_holds_the_value_and_its_feed() {
    let watched = React::new(Counter(3));
    let (item, feed) = watched.split();
    assert_eq!(item, Counter(3));
    assert_eq!(feed, vec![1, 2, 3]);
}

struct Still;

impl Mouse for Still {
    fn position(&self) -> Vector {
        Vector { x: 3, y: -4 }
    }
}

#[test]
fn mouse_events_carry_their_action_and_position() {
    let event = Event { action: Action::Down(Button::Auxiliary(1)), position: Still.position() };
    assert_eq!(event.position, Vector { x: 3, y: -4 });
    assert!(matches!(event.action, Action::Down(Button::Auxiliary(1))));
    let moved = Action::Move(Vector { x: 1, y: 0 });
    assert!(matches!(moved, Action::Move(Vector { x: 1, y: 0 })));
    assert!(matches!(Action::Up(Button::Left), Action::Up(Button::Left)));
    assert!(matches!(Button::Right, Button::Right));
    assert!(matches!(Button::Middle, Button::Middle));
}

#[test]
fn native_containers_are_made_without_state() {
    let containers = NativeContainers::new();
    let _copy = containers;
    let _again = containers;
}

/// A codec for unsigned numbers in decimal.
struct Decimal;

impl Serializer for Decimal {
    type SerializeError = ();
    type DeserializeError = ();
    type Representation = Vec<u8>;

    fn serialize(&mut self, item: Scalar) -> Result<Vec<u8>, ()> {
        match item {
            Scalar::Unsigned(value) => Ok(format!("{}", value).into_bytes()),
            _ => Err(()),
        }
    }

    fn deserialize(&mut self, kind: Kind, item: Vec<u8>) -> Result<Scalar, ()> {
        if kind != Kind::Unsigned {
            return Err(());
        }
        let text = String::from_utf8(item).map_err(|_| ())?;
        Ok(Scalar::Unsigned(text.parse().map_err(|_| ())?))
    }
}

type Endpoint = IdChannel<Serde<Decimal>>;

/// A gauge travels as its level. Watching it gives its next level.
#[derive(Debug, PartialEq)]
struct Gauge(u32);

impl Reactive for Gauge {
    type Mutation = u32;
    type Feed = Option<u32>;

    fn react(self) -> (Self, Option<u32>) {
        let next = Some(self.0 + 1);
        (self, next)
    }
}

struct Gauged(flat::Coalesce<IdChannelFork<u32, Bottom>, u32>);

impl Task<Endpoint> for Gauged {
    type Output = Result<Gauge, Unread>;

    fn poll(&mut self, ctx: &mut Endpoint) -> Poll<Self::Output> {
        match self.0.poll(ctx) {
            Poll::Ready(level) => Poll::Ready(level.map(Gauge)),
            Poll::Pending => Poll::Pending,
        }
    }

    fn cancel(self, ctx: &mut Endpoint) {
        self.0.cancel(ctx)
    }
}

impl Protocol<Endpoint, Serde<Decimal>> for Gauge {
    type Unravel = u32;
    type UnravelError = ();
    type UnravelFuture = Forward<IdChannelFork<Bottom, u32>, Bottom, u32>;
    type Coalesce = Bottom;
    type CoalesceError = Unread;
    type CoalesceFuture = Gauged;

    fn unravel(self, channel: IdChannelFork<Bottom, u32>, _: &mut Endpoint) -> Self::UnravelFuture {
        Forward::new(self.0, channel)
    }

    fn coalesce(channel: IdChannelFork<u32, Bottom>, _: &mut Endpoint) -> Gauged {
        Gauged(flat::Coalesce::new(channel))
    }
}

#[test]
fn watched_value_travels_as_the_handle_of_its_parts() {
    let (mut sender, mut unravel) = IdChannel::new_with(React::new(Gauge(3)), Serde(Decimal));
    assert!(matches!(unravel.poll(&mut sender), Poll::Ready(Ok(ForkHandle(0)))));
    let mut wire = Vec::new();
    while let Poll::Ready(Some(Item(id, payload))) = sender.poll() {
        wire.push((id, String::from_utf8(payload).unwrap()));
    }
    let expected: Vec<(u32, String)> =
        [(2, "3"), (1, "2"), (4, "4"), (3, "4"), (1, "3"), (0, "1")]
            .iter()
            .map(|(id, text)| (*id, text.to_string()))
            .collect();
    assert_eq!(wire, expected);

    let (mut receiver, mut coalesce) = Endpoint::new_shim::<React<Gauge>>().complete(Serde(Decimal));
    for (id, payload) in wire {
        assert_eq!(receiver.deliver(Item(id, payload.into_bytes())), Ok(()));
    }
    receiver.finish();
    match coalesce.poll(&mut receiver) {
        Poll::Ready(Ok(watched)) => assert_eq!(watched.split(), (Gauge(3), Some(4))),
        _ => panic!("the watched value did not come back"),
    }
    assert_eq!(sender.live(), 0);
    assert_eq!(receiver.live(), 0);
}

#[test]
fn watched_value_without_its_handle_is_missing() {
    let (mut receiver, mut coalesce) = Endpoint::new_shim::<React<Gauge>>().complete(Serde(Decimal));
    receiver.finish();
    assert!(matches!(
        coalesce.poll(&mut receiver),
        Poll::Ready(Err(ContextError::Protocol(Missing::Insufficient { got: 0, expected: 1 })))
    ));
}

#[test]
fn watched_value_is_put_together_from_its_parts() {
    let watched = React::from_parts(Gauge(1), None);
    assert_eq!(watched.split(), (Gauge(1), None));
}

#[test]
fn watched_value_whose_parts_do_not_arrive_cannot_be_joined() {
    // The handle arrives, and nothing of the pair that it names.
    let (mut receiver, mut coalesce) = Endpoint::new_shim::<React<Gauge>>().complete(Serde(Decimal));
    assert_eq!(receiver.deliver(Item(0, b"1".to_vec())), Ok(()));
    receiver.finish();
    assert!(matches!(
        coalesce.poll(&mut receiver),
        Poll::Ready(Err(ContextError::Protocol(Missing::Join(ContextError::Protocol(_)))))
    ));
    assert_eq!(receiver.live(), 0);
}

#[test]
fn watched_value_whose_handle_does_not_decode_is_corrupt() {
    let (mut receiver, mut coalesce) = Endpoint::new_shim::<React<Gauge>>().complete(Serde(Decimal));
    assert_eq!(receiver.deliver(Item(0, b"first".to_vec())), Ok(()));
    receiver.finish();
    assert!(matches!(
        coalesce.poll(&mut receiver),
        Poll::Ready(Err(ContextError::Protocol(Missing::Corrupt)))
    ));
}
