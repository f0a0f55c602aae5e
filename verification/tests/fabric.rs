use vessels::channel::id::{Error, ForkHandle, IdChannel, Item};
use vessels::flat::{Kind, Scalar};
use vessels::format::serde::{Serde, Serializer};
use vessels::Poll;

/// A serializer that serializes nothing: these tests move payloads as they
/// are.
struct Mute;

impl Serializer for Mute {
    type SerializeError = ();
    type DeserializeError = ();
    type Representation = Vec<u8>;

    fn serialize(&mut self, _: Scalar) -> Result<Vec<u8>, ()> {
        Err(())
    }

    fn deserialize(&mut self, _: Kind, _: Vec<u8>) -> Result<Scalar, ()> {
        Err(())
    }
}

fn endpoint() -> IdChannel<Serde<Mute>> {
    IdChannel::new(Serde(Mute))
}

fn payload(text: &str) -> Vec<u8> {
    text.as_bytes().to_vec()
}

#[test]
fn item_for_an_unregistered_sub_channel_is_refused() {
    let mut endpoint = endpoint();
    assert_eq!(endpoint.start_send(Item(4, payload("x"))), Err(Error::UnknownSubId));
    assert_eq!(endpoint.live(), 0);
    assert!(matches!(endpoint.recv(4), Poll::Ready(None)));
}

#[test]
fn item_for_a_registered_sub_channel_is_routed() {
    let mut endpoint = endpoint();
    let _join = endpoint.get_fork::<()>(ForkHandle(4));
    assert_eq!(endpoint.start_send(Item(4, payload("x"))), Ok(()));
    assert!(matches!(endpoint.poll_complete(), Poll::Ready(())));
    match endpoint.recv(4) {
        Poll::Ready(Some(got)) => assert_eq!(got, payload("x")),
        _ => panic!("the payload was not routed"),
    }
    assert!(matches!(endpoint.recv(4), Poll::Pending));
    endpoint.finish();
    assert!(matches!(endpoint.recv(4), Poll::Ready(None)));
}

#[test]
fn what_arrives_before_the_join_is_kept_in_order() {
    let mut endpoint = endpoint();
    assert_eq!(endpoint.deliver(Item(7, payload("a"))), Ok(()));
    assert_eq!(endpoint.deliver(Item(7, payload("b"))), Ok(()));
    assert!(!endpoint.is_registered(7));
    let _join = endpoint.get_fork::<()>(ForkHandle(7));
    assert!(endpoint.is_registered(7));
    assert_eq!(endpoint.start_send(Item(7, payload("c"))), Ok(()));
    let mut seen = Vec::new();
    while let Poll::Ready(Some(got)) = endpoint.recv(7) {
        seen.push(got);
    }
    assert_eq!(seen, vec![payload("a"), payload("b"), payload("c")]);
}

#[test]
fn each_sub_channel_keeps_the_order_of_the_wire() {
    let mut endpoint = endpoint();
    let _one = endpoint.get_fork::<()>(ForkHandle(1));
    let _two = endpoint.get_fork::<()>(ForkHandle(2));
    let wire = [(1, "a"), (2, "x"), (2, "y"), (1, "b"), (2, "z"), (1, "c")];
    for (id, text) in wire {
        assert_eq!(endpoint.deliver(Item(id, payload(text))), Ok(()));
    }
    let mut one = Vec::new();
    while let Poll::Ready(Some(got)) = endpoint.recv(1) {
        one.push(got);
    }
    let mut two = Vec::new();
    while let Poll::Ready(Some(got)) = endpoint.recv(2) {
        two.push(got);
    }
    assert_eq!(one, vec![payload("a"), payload("b"), payload("c")]);
    assert_eq!(two, vec![payload("x"), payload("y"), payload("z")]);
}

#[test]
fn unread_sub_channel_does_not_hold_up_another() {
    let mut endpoint = endpoint();
    let _one = endpoint.get_fork::<()>(ForkHandle(1));
    let _two = endpoint.get_fork::<()>(ForkHandle(2));
    for _ in 0..1000 {
        assert_eq!(endpoint.deliver(Item(1, payload("stalled"))), Ok(()));
    }
    assert!(matches!(endpoint.recv(2), Poll::Pending));
    assert_eq!(endpoint.deliver(Item(2, payload("through"))), Ok(()));
    match endpoint.recv(2) {
        Poll::Ready(Some(got)) => assert_eq!(got, payload("through")),
        _ => panic!("the second sub-channel was held up"),
    }
}

#[test]
fn item_for_a_retired_sub_channel_is_refused() {
    let mut endpoint = endpoint();
    let _join = endpoint.get_fork::<()>(ForkHandle(5));
    endpoint.deregister(5);
    assert!(!endpoint.is_registered(5));
    assert!(endpoint.context().contains(5));
    assert_eq!(endpoint.deliver(Item(5, payload("late"))), Err(Error::UnknownSubId));
}

#[test]
fn transport_gets_the_items_in_the_order_of_queueing() {
    let mut endpoint = endpoint();
    assert!(matches!(endpoint.poll(), Poll::Ready(None)));
    let _join = endpoint.get_fork::<()>(ForkHandle(0));
    assert!(matches!(endpoint.poll(), Poll::Pending));
    endpoint.emit(0, payload("first"));
    endpoint.emit(3, payload("second"));
    match endpoint.poll() {
        Poll::Ready(Some(Item(id, got))) => assert_eq!((id, got), (0, payload("first"))),
        _ => panic!("nothing was handed out"),
    }
    match endpoint.poll() {
        Poll::Ready(Some(Item(id, got))) => assert_eq!((id, got), (3, payload("second"))),
        _ => panic!("nothing was handed out"),
    }
    assert!(matches!(endpoint.poll(), Poll::Pending));
    endpoint.deregister(0);
    assert!(matches!(endpoint.poll(), Poll::Ready(None)));
}

#[test]
fn item_is_built_from_its_parts() {
    let item = Item::new(9, payload("p"));
    assert_eq!(item.0, 9);
    assert_eq!(item.1, payload("p"));
}
