use vessels::channel::id::{Error, ForkHandle, IdChannel, IdChannelFork, Item};
use vessels::flat::{Insufficient, Kind, Scalar, Unread};
use vessels::format::binary::Binary;
use vessels::format::serde::{Serde, Serializer};
use vessels::{Bottom, Channel, ContextError, Poll, Task};

/// A codec in the manner of JSON: numbers in decimal, `true` and `false`,
/// a character between double quotes.
struct Json;

impl Serializer for Json {
    type SerializeError = ();
    type DeserializeError = ();
    type Representation = Vec<u8>;

    fn serialize(&mut self, item: Scalar) -> Result<Vec<u8>, ()> {
        let text = match item {
            Scalar::Unit => "null".to_string(),
            Scalar::Bool(value) => format!("{}", value),
            Scalar::Char(value) => format!("\"{}\"", value),
            Scalar::Unsigned(value) => format!("{}", value),
            Scalar::Signed(value) => format!("{}", value),
        };
        Ok(text.into_bytes())
    }

    fn deserialize(&mut self, kind: Kind, item: Vec<u8>) -> Result<Scalar, ()> {
        let text = String::from_utf8(item).map_err(|_| ())?;
        Ok(match kind {
            Kind::Unit if text == "null" => Scalar::Unit,
            Kind::Unit => return Err(()),
            Kind::Bool => Scalar::Bool(text.parse().map_err(|_| ())?),
            Kind::Char => {
                let inner: Vec<char> = text.chars().collect();
                if inner.len() != 3 || inner[0] != '"' || inner[2] != '"' {
                    return Err(());
                }
                Scalar::Char(inner[1])
            }
            Kind::Unsigned => Scalar::Unsigned(text.parse().map_err(|_| ())?),
            Kind::Signed => Scalar::Signed(text.parse().map_err(|_| ())?),
        })
    }
}

type Endpoint = IdChannel<Serde<Json>>;

/// Takes everything that waits for the transport.
fn drain(channel: &mut Endpoint) -> Vec<(u32, String)> {
    let mut out = Vec::new();
    while let Poll::Ready(Some(Item(id, payload))) = channel.poll() {
        out.push((id, String::from_utf8(payload).unwrap()));
    }
    out
}

/// Delivers a wire, in order, and ends the transport.
fn feed(channel: &mut Endpoint, wire: &[(u32, String)]) {
    for (id, payload) in wire {
        assert_eq!(channel.deliver(Item(*id, payload.clone().into_bytes())), Ok(()));
    }
    channel.finish();
}

fn wire_of(items: &[(u32, &str)]) -> Vec<(u32, String)> {
    items.iter().map(|(id, text)| (*id, text.to_string())).collect()
}

#[test]
fn scalar_travels_as_one_item_on_the_root() {
    let (mut sender, mut unravel) = IdChannel::new_with(42u32, Serde(Json));
    assert!(matches!(unravel.poll(&mut sender), Poll::Ready(Ok(ForkHandle(0)))));
    let sent = drain(&mut sender);
    assert_eq!(sent, wire_of(&[(0, "42")]));

    let (mut receiver, mut coalesce) = Endpoint::new_shim::<u32>().complete(Serde(Json));
    feed(&mut receiver, &sent);
    assert!(matches!(coalesce.poll(&mut receiver), Poll::Ready(Ok(42u32))));
}

#[test]
fn none_sends_nothing_and_comes_back_as_none() {
    let (mut sender, mut unravel) = IdChannel::new_with(None::<u32>, Serde(Json));
    assert!(matches!(unravel.poll(&mut sender), Poll::Ready(Ok(ForkHandle(0)))));
    let sent = drain(&mut sender);
    assert!(sent.is_empty());

    let (mut receiver, mut coalesce) = Endpoint::new_shim::<Option<u32>>().complete(Serde(Json));
    feed(&mut receiver, &sent);
    assert!(matches!(coalesce.poll(&mut receiver), Poll::Ready(Ok(None))));
}

#[test]
fn some_sends_the_content_and_then_the_handle() {
    let (mut sender, mut unravel) = IdChannel::new_with(Some(7u32), Serde(Json));
    assert!(matches!(unravel.poll(&mut sender), Poll::Ready(Ok(ForkHandle(0)))));
    let sent = drain(&mut sender);
    assert_eq!(sent, wire_of(&[(1, "7"), (0, "1")]));

    let (mut receiver, mut coalesce) = Endpoint::new_shim::<Option<u32>>().complete(Serde(Json));
    feed(&mut receiver, &sent);
    assert!(matches!(coalesce.poll(&mut receiver), Poll::Ready(Ok(Some(7u32)))));
}

#[test]
fn pair_forks_both_components_and_sends_two_handles() {
    let (mut sender, mut unravel) = IdChannel::new_with((true, 9u8), Serde(Json));
    assert!(matches!(unravel.poll(&mut sender), Poll::Ready(Ok(ForkHandle(0)))));
    let sent = drain(&mut sender);
    assert_eq!(sent, wire_of(&[(1, "true"), (0, "1"), (2, "9"), (0, "2")]));

    let (mut receiver, mut coalesce) = Endpoint::new_shim::<(bool, u8)>().complete(Serde(Json));
    feed(&mut receiver, &sent);
    assert!(matches!(coalesce.poll(&mut receiver), Poll::Ready(Ok((true, 9u8)))));
}

#[test]
fn integers_sent_into_a_sub_channel_arrive_in_order() {
    // The side that holds the sink reads what the other side sends into
    // its end of the root sub-channel.
    let mut holder = Endpoint::new(Serde(Json));
    let _root = holder.get_fork::<()>(ForkHandle(0));
    let mut source = Endpoint::new(Serde(Json));
    let mut outlet: IdChannelFork<Bottom, u32> = IdChannelFork::new(0);
    for value in 1..10u32 {
        assert!(matches!(outlet.poll_ready(&mut source), Poll::Ready(Ok(()))));
        assert!(outlet.start_send(&mut source, value).is_ok());
    }
    let sent = drain(&mut source);
    assert_eq!(sent.len(), 9);
    feed(&mut holder, &sent);

    let mut inlet: IdChannelFork<u32, Bottom> = IdChannelFork::new(0);
    let mut seen = Vec::new();
    loop {
        match inlet.poll_next(&mut holder) {
            Poll::Ready(Some(value)) => seen.push(value),
            Poll::Ready(None) => break,
            Poll::Pending => panic!("the transport has ended"),
        }
    }
    assert_eq!(seen, vec![1, 2, 3, 4, 5, 6, 7, 8, 9]);
    assert_eq!(holder.fault(), None);
}

#[test]
fn nested_option_forks_twice() {
    let (mut sender, mut unravel) = IdChannel::new_with(Some(Some(5u32)), Serde(Json));
    assert!(matches!(unravel.poll(&mut sender), Poll::Ready(Ok(ForkHandle(0)))));
    let sent = drain(&mut sender);
    assert_eq!(sent, wire_of(&[(2, "5"), (1, "2"), (0, "1")]));

    let (mut receiver, mut coalesce) =
        Endpoint::new_shim::<Option<Option<u32>>>().complete(Serde(Json));
    feed(&mut receiver, &sent);
    assert!(matches!(coalesce.poll(&mut receiver), Poll::Ready(Ok(Some(Some(5u32))))));
}

#[test]
fn round_trip_gives_back_what_was_sent() {
    let value = (Some((-12i64, 'x')), (None::<bool>, (u128::MAX, Some(Some(false)))));
    let (mut sender, mut unravel) = IdChannel::new_with(value, Serde(Json));
    assert!(matches!(unravel.poll(&mut sender), Poll::Ready(Ok(ForkHandle(0)))));
    let sent = drain(&mut sender);

    let (mut receiver, mut coalesce) = Endpoint::new_shim::<(
        Option<(i64, char)>,
        (Option<bool>, (u128, Option<Option<bool>>)),
    )>()
    .complete(Serde(Json));
    feed(&mut receiver, &sent);
    match coalesce.poll(&mut receiver) {
        Poll::Ready(Ok(got)) => assert_eq!(got, value),
        _ => panic!("the value did not come back"),
    }
    assert_eq!(sender.live(), 0);
    assert_eq!(receiver.live(), 0);
}

#[test]
fn coalescing_waits_for_what_has_not_arrived() {
    let (mut receiver, mut coalesce) = Endpoint::new_shim::<Option<u32>>().complete(Serde(Json));
    assert!(matches!(coalesce.poll(&mut receiver), Poll::Pending));
    // The handle comes before the content: the join waits for the content.
    assert_eq!(receiver.deliver(Item(0, b"1".to_vec())), Ok(()));
    assert!(matches!(coalesce.poll(&mut receiver), Poll::Pending));
    assert!(receiver.is_registered(1));
    assert_eq!(receiver.deliver(Item(1, b"7".to_vec())), Ok(()));
    assert!(matches!(coalesce.poll(&mut receiver), Poll::Ready(Ok(Some(7u32)))));
    assert_eq!(receiver.live(), 0);
}

#[test]
fn scalar_without_its_item_is_insufficient() {
    let (mut receiver, mut coalesce) = Endpoint::new_shim::<u32>().complete(Serde(Json));
    receiver.finish();
    assert!(matches!(
        coalesce.poll(&mut receiver),
        Poll::Ready(Err(ContextError::Protocol(Unread::Insufficient(Insufficient))))
    ));
}

#[test]
fn pair_without_its_second_handle_is_incomplete() {
    let (mut receiver, mut coalesce) = Endpoint::new_shim::<(bool, u8)>().complete(Serde(Json));
    feed(&mut receiver, &wire_of(&[(1, "true"), (0, "1")]));
    assert!(matches!(
        coalesce.poll(&mut receiver),
        Poll::Ready(Err(ContextError::Protocol(vessels::tuple::Incomplete::Tail(
            vessels::tuple::Incomplete::Insufficient
        ))))
    ));
    let (mut receiver, mut coalesce) = Endpoint::new_shim::<(bool, u8)>().complete(Serde(Json));
    receiver.finish();
    assert!(matches!(
        coalesce.poll(&mut receiver),
        Poll::Ready(Err(ContextError::Protocol(vessels::tuple::Incomplete::Insufficient)))
    ));
    let (mut receiver, mut coalesce) = Endpoint::new_shim::<(bool, u8)>().complete(Serde(Json));
    feed(&mut receiver, &wire_of(&[(0, "1")]));
    assert!(matches!(
        coalesce.poll(&mut receiver),
        Poll::Ready(Err(ContextError::Protocol(vessels::tuple::Incomplete::Head(
            ContextError::Protocol(Unread::Insufficient(Insufficient))
        ))))
    ));
}

#[test]
fn payload_that_does_not_decode_is_a_fault() {
    let (mut receiver, mut coalesce) = Endpoint::new_shim::<u32>().complete(Serde(Json));
    feed(&mut receiver, &wire_of(&[(0, "forty-two")]));
    assert!(matches!(
        coalesce.poll(&mut receiver),
        Poll::Ready(Err(ContextError::Protocol(Unread::Corrupt)))
    ));
    assert_eq!(receiver.fault(), Some(0));
}

#[test]
fn handle_that_does_not_decode_fails_the_option() {
    let (mut receiver, mut coalesce) = Endpoint::new_shim::<Option<u32>>().complete(Serde(Json));
    feed(&mut receiver, &wire_of(&[(0, "one")]));
    assert!(matches!(
        coalesce.poll(&mut receiver),
        Poll::Ready(Err(ContextError::Protocol(vessels::option::Incomplete::Corrupt)))
    ));
    assert_eq!(receiver.fault(), Some(0));
    assert_eq!(receiver.live(), 0);
}

#[test]
fn handle_that_does_not_decode_fails_the_sequence() {
    let first = vessels::sequence::Sequence::new().prepend(2u8).prepend(1u8);
    let (mut sender, mut unravel) = IdChannel::new_with(first, Serde(Json));
    assert!(matches!(unravel.poll(&mut sender), Poll::Ready(Ok(ForkHandle(0)))));
    let mut wire = drain(&mut sender);
    assert_eq!(wire, wire_of(&[(1, "1"), (0, "1"), (2, "2"), (0, "2")]));
    wire[3].1 = "two".to_string();

    let (mut receiver, mut coalesce) = Endpoint::new_shim::<vessels::sequence::Sequence<u8>>().complete(Serde(Json));
    feed(&mut receiver, &wire);
    assert!(matches!(
        coalesce.poll(&mut receiver),
        Poll::Ready(Err(ContextError::Protocol(vessels::sequence::Incomplete::Corrupt)))
    ));
    assert_eq!(receiver.fault(), Some(0));
}

#[test]
fn broken_end_of_a_sub_channel_stays_ended() {
    let mut endpoint = Endpoint::new(Serde(Json));
    let _join = endpoint.get_fork::<()>(ForkHandle(4));
    assert_eq!(endpoint.deliver(Item(4, b"x".to_vec())), Ok(()));
    assert_eq!(endpoint.deliver(Item(4, b"5".to_vec())), Ok(()));
    let mut end = IdChannelFork::<u32, Bottom>::new(4);
    assert!(!end.is_broken(&endpoint));
    assert!(matches!(end.poll_next(&mut endpoint), Poll::Ready(None)));
    assert!(end.is_broken(&endpoint));
    assert!(matches!(end.poll_next(&mut endpoint), Poll::Ready(None)));
    assert_eq!(endpoint.fault(), Some(4));

    // Another end of the same sub-channel reads on.
    let mut other = IdChannelFork::<u32, Bottom>::new(4);
    assert!(matches!(other.poll_next(&mut endpoint), Poll::Ready(Some(5))));
    assert!(!other.is_broken(&endpoint));
}

#[test]
fn giving_up_an_unraveling_empties_the_registry() {
    let (mut sender, unravel) = IdChannel::new_with(Some(Some(5u32)), Serde(Json));
    assert_eq!(sender.live(), 3);
    unravel.cancel(&mut sender);
    assert_eq!(sender.live(), 0);
    assert!(matches!(sender.poll(), Poll::Ready(None)));
}

#[test]
fn giving_up_a_join_releases_its_sub_channel() {
    let (mut receiver, mut coalesce) = Endpoint::new_shim::<Option<u32>>().complete(Serde(Json));
    assert_eq!(receiver.deliver(Item(0, b"1".to_vec())), Ok(()));
    assert!(matches!(coalesce.poll(&mut receiver), Poll::Pending));
    assert_eq!(receiver.live(), 2);
    coalesce.cancel(&mut receiver);
    assert_eq!(receiver.live(), 0);
}

#[test]
fn handle_joined_twice_is_refused() {
    let mut receiver = Endpoint::new(Serde(Json));
    let mut first = receiver.get_fork::<u32>(ForkHandle(3));
    let mut second = receiver.get_fork::<u32>(ForkHandle(3));
    assert!(matches!(first.poll(&mut receiver), Poll::Pending));
    assert!(matches!(
        second.poll(&mut receiver),
        Poll::Ready(Err(ContextError::Context(Error::DoubleJoin)))
    ));
}

#[test]
fn fork_is_refused_when_the_identifiers_are_spent() {
    let mut endpoint = Endpoint::new(Serde(Json));
    let _last = endpoint.get_fork::<u32>(ForkHandle(u32::MAX));
    let mut fork = endpoint.fork(1u32);
    assert!(matches!(
        fork.poll(&mut endpoint),
        Poll::Ready(Err(ContextError::Context(Error::Exhausted)))
    ));
}

#[test]
fn forks_get_the_identifiers_in_order() {
    let mut endpoint = Endpoint::new(Serde(Json));
    let mut one = endpoint.fork(10u8);
    let mut two = endpoint.fork(20u8);
    assert!(endpoint.is_registered(1));
    assert!(endpoint.is_registered(2));
    assert!(endpoint.context().contains(2));
    assert!(!endpoint.context().contains(3));
    assert!(matches!(two.poll(&mut endpoint), Poll::Ready(Ok(ForkHandle(2)))));
    assert!(matches!(one.poll(&mut endpoint), Poll::Ready(Ok(ForkHandle(1)))));
    assert_eq!(drain(&mut endpoint), wire_of(&[(2, "20"), (1, "10")]));
    assert_eq!(endpoint.live(), 0);
    assert!(endpoint.is_registered(1));
    assert!(endpoint.is_registered(2));
    assert_eq!(endpoint.resting(), 2);
}

#[test]
fn forked_sub_channel_is_registered_when_its_handle_goes_out() {
    let mut endpoint = Endpoint::new(Serde(Json));
    let _other = endpoint.get_fork::<u32>(ForkHandle(7));
    assert_eq!(endpoint.deliver(Item(7, b"1".to_vec())), Ok(()));
    let mut fork = endpoint.fork(10u8);
    assert!(endpoint.is_live(8));
    assert!(matches!(fork.poll(&mut endpoint), Poll::Ready(Ok(ForkHandle(8)))));

    // The registry is what it was, and the new sub-channel.
    assert!(endpoint.is_registered(8));
    assert!(!endpoint.is_live(8));
    assert!(endpoint.is_live(7));
    assert_eq!(endpoint.live(), 1);
    assert_eq!(endpoint.resting(), 1);

    // What the peer sends to it is taken, and nothing else is touched.
    assert_eq!(endpoint.start_send(Item(8, b"back".to_vec())), Ok(()));
    assert_eq!(endpoint.deliver(Item(8, b"again".to_vec())), Ok(()));
    match endpoint.recv(7) {
        Poll::Ready(Some(payload)) => assert_eq!(payload, b"1".to_vec()),
        _ => panic!("the queue of the other sub-channel was lost"),
    }

    // It leaves when the transport has ended.
    endpoint.finish();
    assert!(!endpoint.is_registered(8));
    assert_eq!(endpoint.resting(), 0);
    assert!(endpoint.is_live(7));
    assert_eq!(
        endpoint.start_send(Item(8, b"late".to_vec())),
        Err(Error::UnknownSubId)
    );
}

#[test]
fn fork_that_fails_leaves_its_sub_channel_at_once() {
    let mut endpoint = IdChannel::new(Serde(NoNumbers));
    let mut fork = endpoint.fork(10u8);
    assert!(endpoint.is_registered(1));
    assert!(matches!(fork.poll(&mut endpoint), Poll::Ready(Err(ContextError::Protocol(_)))));
    assert!(!endpoint.is_registered(1));
    assert_eq!(endpoint.resting(), 0);
}

/// A codec that refuses handles and other unsigned numbers.
struct NoNumbers;

impl Serializer for NoNumbers {
    type SerializeError = &'static str;
    type DeserializeError = ();
    type Representation = Vec<u8>;

    fn serialize(&mut self, item: Scalar) -> Result<Vec<u8>, &'static str> {
        match item {
            Scalar::Bool(value) => Ok(format!("{}", value).into_bytes()),
            _ => Err("no numbers"),
        }
    }

    fn deserialize(&mut self, _: Kind, _: Vec<u8>) -> Result<Scalar, ()> {
        Err(())
    }
}

#[test]
fn option_reports_what_could_not_be_sent() {
    // The content is sent, the handle is refused.
    let (mut sender, mut unravel) = IdChannel::new_with(Some(true), Serde(NoNumbers));
    assert!(matches!(
        unravel.poll(&mut sender),
        Poll::Ready(Err(ContextError::Protocol(vessels::option::Error::Send("no numbers"))))
    ));
    assert_eq!(sender.live(), 0);

    // The content itself is refused.
    let (mut sender, mut unravel) = IdChannel::new_with(Some(5u32), Serde(NoNumbers));
    assert!(matches!(
        unravel.poll(&mut sender),
        Poll::Ready(Err(ContextError::Protocol(vessels::option::Error::Unravel(
            ContextError::Protocol("no numbers")
        ))))
    ));
    assert_eq!(sender.live(), 0);
}

/// A codec in decimal that refuses booleans.
struct NoBools;

impl Serializer for NoBools {
    type SerializeError = &'static str;
    type DeserializeError = ();
    type Representation = Vec<u8>;

    fn serialize(&mut self, item: Scalar) -> Result<Vec<u8>, &'static str> {
        match item {
            Scalar::Unsigned(value) => Ok(format!("{}", value).into_bytes()),
            _ => Err("no booleans"),
        }
    }

    fn deserialize(&mut self, _: Kind, _: Vec<u8>) -> Result<Scalar, ()> {
        Err(())
    }
}

#[test]
fn pair_reports_which_part_could_not_be_sent() {
    let (mut sender, mut unravel) = IdChannel::new_with((true, 1u8), Serde(NoBools));
    assert!(matches!(
        unravel.poll(&mut sender),
        Poll::Ready(Err(ContextError::Protocol(vessels::tuple::Error::Head(ContextError::Protocol(
            "no booleans"
        )))))
    ));
    let (mut sender, mut unravel) = IdChannel::new_with((1u8, true), Serde(NoBools));
    assert!(matches!(
        unravel.poll(&mut sender),
        Poll::Ready(Err(ContextError::Protocol(vessels::tuple::Error::Tail(vessels::tuple::Error::Head(
            ContextError::Protocol("no booleans")
        )))))
    ));
    let (mut sender, mut unravel) = IdChannel::new_with((true, false), Serde(NoNumbers));
    assert!(matches!(
        unravel.poll(&mut sender),
        Poll::Ready(Err(ContextError::Protocol(vessels::tuple::Error::Send("no numbers"))))
    ));
}

#[test]
fn session_end_reclaims_what_was_never_joined() {
    let mut endpoint = Endpoint::new(Serde(Json));
    let _join = endpoint.get_fork::<u32>(ForkHandle(1));
    assert_eq!(endpoint.deliver(Item(9, b"1".to_vec())), Ok(()));
    assert_eq!(endpoint.live(), 1);
    endpoint.teardown();
    assert_eq!(endpoint.live(), 0);
    assert!(matches!(endpoint.poll(), Poll::Ready(None)));
    assert!(matches!(endpoint.recv(1), Poll::Ready(None)));
}

#[test]
fn triple_sends_a_handle_after_each_component() {
    let (mut sender, mut unravel) = IdChannel::new_with((1u8, Some(2u16), 'c'), Serde(Json));
    assert!(matches!(unravel.poll(&mut sender), Poll::Ready(Ok(ForkHandle(0)))));
    let sent = drain(&mut sender);
    assert_eq!(
        sent,
        wire_of(&[(1, "1"), (0, "1"), (3, "2"), (2, "3"), (0, "2"), (4, "\"c\""), (0, "4")])
    );

    let (mut receiver, mut coalesce) =
        Endpoint::new_shim::<(u8, Option<u16>, char)>().complete(Serde(Json));
    feed(&mut receiver, &sent);
    assert!(matches!(coalesce.poll(&mut receiver), Poll::Ready(Ok((1u8, Some(2u16), 'c')))));
}

#[test]
fn tuple_of_twelve_comes_back_whole() {
    let value = (1u8, 2u16, 3u32, 4u64, 5u128, 6usize, -7i8, -8i16, -9i32, -10i64, true, 'l');
    let (mut sender, mut unravel) = IdChannel::new_with(value, Serde(Json));
    assert!(matches!(unravel.poll(&mut sender), Poll::Ready(Ok(ForkHandle(0)))));
    let sent = drain(&mut sender);
    assert_eq!(sent.len(), 24);
    let handles: Vec<&str> =
        sent.iter().filter(|(id, _)| *id == 0).map(|(_, text)| text.as_str()).collect();
    assert_eq!(handles, vec!["1", "2", "3", "4", "5", "6", "7", "8", "9", "10", "11", "12"]);

    let (mut receiver, mut coalesce) = Endpoint::new_shim::<(
        u8,
        u16,
        u32,
        u64,
        u128,
        usize,
        i8,
        i16,
        i32,
        i64,
        bool,
        char,
    )>()
    .complete(Serde(Json));
    feed(&mut receiver, &sent);
    match coalesce.poll(&mut receiver) {
        Poll::Ready(Ok(got)) => assert_eq!(got, value),
        _ => panic!("the tuple did not come back"),
    }
    assert_eq!(sender.live(), 0);
    assert_eq!(receiver.live(), 0);
}

#[test]
fn tuple_waits_between_its_components() {
    let (mut receiver, mut coalesce) = Endpoint::new_shim::<(bool, u8)>().complete(Serde(Json));
    assert!(matches!(coalesce.poll(&mut receiver), Poll::Pending));
    assert_eq!(receiver.deliver(Item(0, b"1".to_vec())), Ok(()));
    assert!(matches!(coalesce.poll(&mut receiver), Poll::Pending));
    assert_eq!(receiver.deliver(Item(1, b"true".to_vec())), Ok(()));
    assert!(matches!(coalesce.poll(&mut receiver), Poll::Pending));
    assert_eq!(receiver.deliver(Item(2, b"9".to_vec())), Ok(()));
    assert!(matches!(coalesce.poll(&mut receiver), Poll::Pending));
    assert_eq!(receiver.deliver(Item(0, b"2".to_vec())), Ok(()));
    assert!(matches!(coalesce.poll(&mut receiver), Poll::Ready(Ok((true, 9u8)))));
}

#[test]
fn sequence_sends_a_handle_for_each_element() {
    let value = vessels::sequence::Sequence::from_vec(vec![10u8, 20, 30]);
    let (mut sender, mut unravel) = IdChannel::new_with(value, Serde(Json));
    assert!(matches!(unravel.poll(&mut sender), Poll::Ready(Ok(ForkHandle(0)))));
    let sent = drain(&mut sender);
    assert_eq!(
        sent,
        wire_of(&[(1, "10"), (0, "1"), (2, "20"), (0, "2"), (3, "30"), (0, "3")])
    );

    let (mut receiver, mut coalesce) =
        Endpoint::new_shim::<vessels::sequence::Sequence<u8>>().complete(Serde(Json));
    feed(&mut receiver, &sent);
    match coalesce.poll(&mut receiver) {
        Poll::Ready(Ok(got)) => assert_eq!(got.into_vec(), vec![10u8, 20, 30]),
        _ => panic!("the sequence did not come back"),
    }
    assert_eq!(sender.live(), 0);
    assert_eq!(receiver.live(), 0);
}

#[test]
fn empty_sequence_sends_nothing() {
    let value = vessels::sequence::Sequence::<u32>::new();
    let (mut sender, mut unravel) = IdChannel::new_with(value, Serde(Json));
    assert!(matches!(unravel.poll(&mut sender), Poll::Ready(Ok(ForkHandle(0)))));
    assert!(drain(&mut sender).is_empty());

    let (mut receiver, mut coalesce) =
        Endpoint::new_shim::<vessels::sequence::Sequence<u32>>().complete(Serde(Json));
    receiver.finish();
    match coalesce.poll(&mut receiver) {
        Poll::Ready(Ok(got)) => assert_eq!(got, vessels::sequence::Sequence::End),
        _ => panic!("the sequence did not come back"),
    }
}

#[test]
fn sequence_of_the_greatest_length_comes_back_whole() {
    let items: Vec<Option<u32>> =
        (0..1024u32).map(|i| if i % 3 == 0 { None } else { Some(i) }).collect();
    let value = vessels::sequence::Sequence::from_vec(items.clone());
    let (mut sender, mut unravel) = IdChannel::new_with(value, Serde(Json));
    assert!(matches!(unravel.poll(&mut sender), Poll::Ready(Ok(ForkHandle(0)))));
    let sent = drain(&mut sender);

    let (mut receiver, mut coalesce) =
        Endpoint::new_shim::<vessels::sequence::Sequence<Option<u32>>>().complete(Serde(Json));
    feed(&mut receiver, &sent);
    match coalesce.poll(&mut receiver) {
        Poll::Ready(Ok(got)) => assert_eq!(got.into_vec(), items),
        _ => panic!("the sequence did not come back"),
    }
    assert_eq!(receiver.live(), 0);
}

#[test]
fn sequence_that_is_too_long_is_not_rebuilt() {
    let value = vessels::sequence::Sequence::from_vec(vec![true; 1025]);
    let (mut sender, mut unravel) = IdChannel::new_with(value, Serde(Json));
    assert!(matches!(unravel.poll(&mut sender), Poll::Ready(Ok(ForkHandle(0)))));
    let sent = drain(&mut sender);
    assert_eq!(sent.len(), 2050);

    let (mut receiver, mut coalesce) =
        Endpoint::new_shim::<vessels::sequence::Sequence<bool>>().complete(Serde(Json));
    feed(&mut receiver, &sent);
    assert!(matches!(
        coalesce.poll(&mut receiver),
        Poll::Ready(Err(ContextError::Protocol(vessels::sequence::Incomplete::TooLong)))
    ));
}

#[test]
fn sequence_reports_what_could_not_be_sent() {
    let value = vessels::sequence::Sequence::from_vec(vec![1u8]);
    let (mut sender, mut unravel) = IdChannel::new_with(value, Serde(NoNumbers));
    assert!(matches!(
        unravel.poll(&mut sender),
        Poll::Ready(Err(ContextError::Protocol(vessels::sequence::Error::Head(
            ContextError::Protocol("no numbers")
        ))))
    ));
    let value = vessels::sequence::Sequence::from_vec(vec![true]);
    let (mut sender, mut unravel) = IdChannel::new_with(value, Serde(NoNumbers));
    assert!(matches!(
        unravel.poll(&mut sender),
        Poll::Ready(Err(ContextError::Protocol(vessels::sequence::Error::Send("no numbers"))))
    ));
    let (mut receiver, mut coalesce) =
        Endpoint::new_shim::<vessels::sequence::Sequence<u8>>().complete(Serde(Json));
    feed(&mut receiver, &wire_of(&[(0, "1")]));
    assert!(matches!(
        coalesce.poll(&mut receiver),
        Poll::Ready(Err(ContextError::Protocol(vessels::sequence::Incomplete::Head(
            ContextError::Protocol(Unread::Insufficient(Insufficient))
        ))))
    ));
}

#[test]
fn sequence_converts_to_and_from_a_vector() {
    let value = vessels::sequence::Sequence::from_vec(vec![1, 2, 3]);
    assert_eq!(
        value,
        vessels::sequence::Sequence::new().prepend(3).prepend(2).prepend(1)
    );
    assert_eq!(value.reverse().into_vec(), vec![3, 2, 1]);
    assert_eq!(vessels::sequence::Sequence::<u8>::from_vec(Vec::new()).into_vec(), Vec::<u8>::new());
}

#[test]
fn binary_serializer_carries_a_value_there_and_back() {
    let value = (Some((-12i64, 'x')), (None::<bool>, (u128::MAX, ())));
    let (mut sender, mut unravel) = IdChannel::new_with(value, Serde(Binary));
    assert!(matches!(unravel.poll(&mut sender), Poll::Ready(Ok(ForkHandle(0)))));
    let mut sent = Vec::new();
    while let Poll::Ready(Some(item)) = sender.poll() {
        sent.push(item.encode());
    }

    let (mut receiver, mut coalesce) = IdChannel::<Serde<Binary>>::new_shim::<(
        Option<(i64, char)>,
        (Option<bool>, (u128, ())),
    )>()
    .complete(Serde(Binary));
    for bytes in sent {
        assert_eq!(receiver.deliver(Item::decode(bytes).unwrap()), Ok(()));
    }
    receiver.finish();
    match coalesce.poll(&mut receiver) {
        Poll::Ready(Ok(got)) => assert_eq!(got, value),
        _ => panic!("the value did not come back"),
    }
    assert_eq!(receiver.fault(), None);
}

#[test]
fn root_end_starts_the_unraveling_of_the_whole_value() {
    let (mut sender, mut unravel) =
        IdChannelFork::<Bottom, u32>::new_root(42u32, Serde(Json));
    assert!(sender.is_registered(0));
    assert_eq!(sender.live(), 1);
    assert!(matches!(unravel.poll(&mut sender), Poll::Ready(Ok(ForkHandle(0)))));
    assert_eq!(drain(&mut sender), wire_of(&[(0, "42")]));
    assert_eq!(sender.live(), 0);
    assert!(sender.is_registered(0));
    assert!(matches!(sender.poll(), Poll::Ready(None)));
    sender.finish();
    assert!(!sender.is_registered(0));
}

#[test]
fn end_of_a_sub_channel_rebuilds_what_arrived_for_it() {
    let (mut receiver, mut outer) = Endpoint::new_shim::<u32>().complete(Serde(Json));
    feed(&mut receiver, &wire_of(&[(0, "7")]));
    let mut inner = IdChannelFork::<u32, Bottom>::construct::<Serde<Json>, u32>(0, &mut receiver);
    assert!(matches!(inner.poll(&mut receiver), Poll::Ready(Ok(7u32))));
    assert!(matches!(
        outer.poll(&mut receiver),
        Poll::Ready(Err(ContextError::Protocol(Unread::Insufficient(Insufficient))))
    ));

    // A sub-channel that was never registered has nothing to read.
    let mut absent = IdChannelFork::<u32, Bottom>::construct::<Serde<Json>, u32>(9, &mut receiver);
    assert!(matches!(absent.poll(&mut receiver), Poll::Ready(Err(Unread::Insufficient(Insufficient)))));
}

#[test]
fn unraveling_that_fails_half_way_leaves_no_sub_channel_live() {
    // The first component is sent, the second is refused.
    let (mut sender, mut unravel) = IdChannel::new_with((7u8, true), Serde(NoBools));
    assert!(matches!(unravel.poll(&mut sender), Poll::Ready(Err(_))));
    assert_eq!(sender.live(), 0);
    assert!(!sender.is_registered(0));
    assert!(!sender.is_registered(2));
    // The handle of the first went out: its sub-channel rests until the
    // transport has ended.
    assert!(sender.is_registered(1));
    sender.finish();
    assert!(!sender.is_registered(1));
    assert_eq!(sender.resting(), 0);
}

/// A format for text and for spans of time: text as its bytes, a span as
/// its milliseconds in decimal.
struct Plainly;

impl vessels::Format<String> for Plainly {
    type Representation = Vec<u8>;
    type SerializeError = ();
    type DeserializeError = ();

    fn serialize(&mut self, data: String) -> Result<Vec<u8>, ()> {
        Ok(data.into_bytes())
    }

    fn deserialize(&mut self, data: Vec<u8>) -> Result<String, ()> {
        String::from_utf8(data).map_err(|_| ())
    }
}

impl vessels::Format<std::time::Duration> for Plainly {
    type Representation = Vec<u8>;
    type SerializeError = ();
    type DeserializeError = ();

    fn serialize(&mut self, data: std::time::Duration) -> Result<Vec<u8>, ()> {
        Ok(format!("{}", data.as_millis()).into_bytes())
    }

    fn deserialize(&mut self, data: Vec<u8>) -> Result<std::time::Duration, ()> {
        let text = String::from_utf8(data).map_err(|_| ())?;
        Ok(std::time::Duration::from_millis(text.parse().map_err(|_| ())?))
    }
}

impl vessels::Format<Bottom> for Plainly {
    type Representation = Vec<u8>;
    type SerializeError = ();
    type DeserializeError = ();

    fn serialize(&mut self, _: Bottom) -> Result<Vec<u8>, ()> {
        unreachable!()
    }

    fn deserialize(&mut self, _: Vec<u8>) -> Result<Bottom, ()> {
        Err(())
    }
}

#[test]
fn text_travels_as_one_item_on_the_root() {
    let (mut sender, mut unravel) = IdChannel::new_with(String::from("héllo"), Plainly);
    assert!(matches!(unravel.poll(&mut sender), Poll::Ready(Ok(ForkHandle(0)))));
    let mut wire = Vec::new();
    while let Poll::Ready(Some(item)) = sender.poll() {
        wire.push(item);
    }
    assert_eq!(wire.len(), 1);
    assert_eq!(wire[0].0, 0);
    assert_eq!(wire[0].1, "héllo".as_bytes().to_vec());

    let (mut receiver, mut coalesce) = IdChannel::<Plainly>::new_shim::<String>().complete(Plainly);
    for item in wire {
        assert_eq!(receiver.deliver(item), Ok(()));
    }
    receiver.finish();
    match coalesce.poll(&mut receiver) {
        Poll::Ready(Ok(text)) => assert_eq!(text, "héllo"),
        _ => panic!("the text did not come back"),
    }
}

#[test]
fn span_of_time_travels_as_one_item_on_the_root() {
    let span = std::time::Duration::from_millis(1500);
    let (mut sender, mut unravel) = IdChannel::new_with(span, Plainly);
    assert!(matches!(unravel.poll(&mut sender), Poll::Ready(Ok(ForkHandle(0)))));
    let mut wire = Vec::new();
    while let Poll::Ready(Some(item)) = sender.poll() {
        wire.push(item);
    }
    assert_eq!(wire.len(), 1);
    assert_eq!(wire[0].1, b"1500".to_vec());

    let (mut receiver, mut coalesce) =
        IdChannel::<Plainly>::new_shim::<std::time::Duration>().complete(Plainly);
    for item in wire {
        assert_eq!(receiver.deliver(item), Ok(()));
    }
    receiver.finish();
    assert!(matches!(coalesce.poll(&mut receiver), Poll::Ready(Ok(back)) if back == span));

    // Text that is no number is no span of time.
    let (mut receiver, mut coalesce) =
        IdChannel::<Plainly>::new_shim::<std::time::Duration>().complete(Plainly);
    assert_eq!(receiver.deliver(Item(0, b"soon".to_vec())), Ok(()));
    receiver.finish();
    assert!(matches!(
        coalesce.poll(&mut receiver),
        Poll::Ready(Err(ContextError::Protocol(Unread::Corrupt)))
    ));
    assert_eq!(receiver.fault(), Some(0));
}

#[test]
fn handle_that_does_not_decode_fails_the_pair() {
    let (mut receiver, mut coalesce) = Endpoint::new_shim::<(bool, u8)>().complete(Serde(Json));
    feed(&mut receiver, &wire_of(&[(1, "true"), (0, "first")]));
    assert!(matches!(
        coalesce.poll(&mut receiver),
        Poll::Ready(Err(ContextError::Protocol(vessels::tuple::Incomplete::Corrupt)))
    ));
    assert_eq!(receiver.fault(), Some(0));
}
