//! The steps that every protocol with forks is made of: a handle is sent
//! on a sub-channel, a handle is read from it, the sub-channel is closed.
use vstd::prelude::*;

use crate::channel::id::{ForkHandle, IdChannel, IdChannelFork, Model};
use crate::format::Format;
use crate::future::{Forward, Send, StreamFuture};
use crate::{Bottom, Channel, Poll, Task};

verus! {

/// The end of a sub-channel that sends handles.
pub open spec fn outlet(id: u32) -> IdChannelFork<Bottom, ForkHandle> {
    IdChannelFork::of(id)
}

/// The end of a sub-channel that reads handles.
pub open spec fn inlet(id: u32) -> IdChannelFork<ForkHandle, Bottom> {
    IdChannelFork::of(id)
}

/// The endpoint after `handle` has been sent on sub-channel `id`, if the
/// handle serializes.
pub open spec fn handed<F: Format<ForkHandle, Representation = Vec<u8>>>(
    ctx: Model<F>,
    id: u32,
    handle: ForkHandle,
) -> Model<F> {
    let encoded = <F as Format<ForkHandle>>::serialized(ctx.format, handle);
    match encoded.1 {
        Ok(payload) => ctx.with_format(encoded.0).emit(id, payload),
        Err(_) => ctx.with_format(encoded.0),
    }
}

/// Sending a handle that serializes, and closing: the handle is queued, and
/// the task resolves at once.
pub proof fn lemma_forward<
    F: Format<ForkHandle, Representation = Vec<u8>> + Format<Bottom, Representation = Vec<u8>>,
>(ctx: Model<F>, id: u32, handle: ForkHandle)
    requires
        <F as Format<ForkHandle>>::serialized(ctx.format, handle).1 is Ok,
    ensures
        ({
            let step = <Forward<IdChannelFork<Bottom, ForkHandle>, Bottom, ForkHandle> as Task<
                IdChannel<F>,
            >>::polled(Forward::once(handle, outlet(id)), ctx);
            &&& Forward::<IdChannelFork<Bottom, ForkHandle>, Bottom, ForkHandle>::once(
                handle,
                outlet(id),
            ).item is Some
            &&& step.1 == handed(ctx, id, handle)
            &&& step.2 == Poll::Ready(Ok::<(), <F as Format<ForkHandle>>::SerializeError>(()))
        }),
{
    let channel = outlet(id);
    let ready = <IdChannelFork<Bottom, ForkHandle> as Channel<
        Bottom,
        ForkHandle,
        IdChannel<F>,
    >>::ready(channel, ctx);
    assert(ready == (channel, ctx, Poll::Ready(Ok::<(), <F as Format<ForkHandle>>::SerializeError>(()))));
    let sent = <IdChannelFork<Bottom, ForkHandle> as Channel<
        Bottom,
        ForkHandle,
        IdChannel<F>,
    >>::sent(channel, ctx, handle);
    assert(sent.0 == channel);
    assert(sent.1 == handed(ctx, id, handle));
    assert(sent.2 == Ok::<(), <F as Format<ForkHandle>>::SerializeError>(()));
    let closed = <IdChannelFork<Bottom, ForkHandle> as Channel<
        Bottom,
        ForkHandle,
        IdChannel<F>,
    >>::closed(channel, sent.1);
    assert(closed == (
        channel,
        sent.1,
        Poll::Ready(Ok::<(), <F as Format<ForkHandle>>::SerializeError>(())),
    ));
}

/// Sending a handle that serializes, and keeping the channel: the handle
/// is queued, and the task resolves at once to the channel.
pub proof fn lemma_send<
    F: Format<ForkHandle, Representation = Vec<u8>> + Format<Bottom, Representation = Vec<u8>>,
>(ctx: Model<F>, id: u32, handle: ForkHandle)
    requires
        <F as Format<ForkHandle>>::serialized(ctx.format, handle).1 is Ok,
    ensures
        ({
            let step = <Send<IdChannelFork<Bottom, ForkHandle>, Bottom, ForkHandle> as Task<
                IdChannel<F>,
            >>::polled(Send::of(handle, outlet(id)), ctx);
            &&& step.1 == handed(ctx, id, handle)
            &&& step.2 == Poll::Ready(
                Ok::<IdChannelFork<Bottom, ForkHandle>, <F as Format<ForkHandle>>::SerializeError>(
                    outlet(id),
                ),
            )
        }),
{
    let channel = outlet(id);
    let ready = <IdChannelFork<Bottom, ForkHandle> as Channel<
        Bottom,
        ForkHandle,
        IdChannel<F>,
    >>::ready(channel, ctx);
    assert(ready == (channel, ctx, Poll::Ready(Ok::<(), <F as Format<ForkHandle>>::SerializeError>(()))));
    let sent = <IdChannelFork<Bottom, ForkHandle> as Channel<
        Bottom,
        ForkHandle,
        IdChannel<F>,
    >>::sent(channel, ctx, handle);
    assert(sent.0 == channel);
    assert(sent.1 == handed(ctx, id, handle));
    assert(sent.2 == Ok::<(), <F as Format<ForkHandle>>::SerializeError>(()));
}

/// Sending a handle changes nothing but the format and what waits for the
/// transport.
pub proof fn lemma_handed<F: Format<ForkHandle, Representation = Vec<u8>>>(
    ctx: Model<F>,
    id: u32,
    handle: ForkHandle,
)
    ensures
        handed(ctx, id, handle).sinks == ctx.sinks,
        handed(ctx, id, handle).next == ctx.next,
        ctx.wf() ==> handed(ctx, id, handle).wf(),
{
}

/// Sending a handle, and closing, whether the handle serializes or not:
/// the task resolves at once.
pub proof fn lemma_forward_resolves<
    F: Format<ForkHandle, Representation = Vec<u8>> + Format<Bottom, Representation = Vec<u8>>,
>(ctx: Model<F>, id: u32, handle: ForkHandle)
    ensures
        ({
            let step = <Forward<IdChannelFork<Bottom, ForkHandle>, Bottom, ForkHandle> as Task<
                IdChannel<F>,
            >>::polled(Forward::once(handle, outlet(id)), ctx);
            &&& step.1 == handed(ctx, id, handle)
            &&& step.2 is Ready
        }),
{
    let channel = outlet(id);
    let ready = <IdChannelFork<Bottom, ForkHandle> as Channel<
        Bottom,
        ForkHandle,
        IdChannel<F>,
    >>::ready(channel, ctx);
    assert(ready == (channel, ctx, Poll::Ready(Ok::<(), <F as Format<ForkHandle>>::SerializeError>(()))));
    let sent = <IdChannelFork<Bottom, ForkHandle> as Channel<
        Bottom,
        ForkHandle,
        IdChannel<F>,
    >>::sent(channel, ctx, handle);
    assert(sent.0 == channel);
    assert(sent.1 == handed(ctx, id, handle));
    let closed = <IdChannelFork<Bottom, ForkHandle> as Channel<
        Bottom,
        ForkHandle,
        IdChannel<F>,
    >>::closed(channel, sent.1);
    assert(closed == (
        channel,
        sent.1,
        Poll::Ready(Ok::<(), <F as Format<ForkHandle>>::SerializeError>(())),
    ));
}

/// Sending a handle, and keeping the channel, whether the handle
/// serializes or not: the task resolves at once, and to the channel if the
/// handle was sent.
pub proof fn lemma_send_resolves<
    F: Format<ForkHandle, Representation = Vec<u8>> + Format<Bottom, Representation = Vec<u8>>,
>(ctx: Model<F>, id: u32, handle: ForkHandle)
    ensures
        ({
            let step = <Send<IdChannelFork<Bottom, ForkHandle>, Bottom, ForkHandle> as Task<
                IdChannel<F>,
            >>::polled(Send::of(handle, outlet(id)), ctx);
            &&& step.1 == handed(ctx, id, handle)
            &&& step.2 is Ready
            &&& step.2 matches Poll::Ready(Ok(channel)) ==> channel == outlet(id)
        }),
{
    let channel = outlet(id);
    let ready = <IdChannelFork<Bottom, ForkHandle> as Channel<
        Bottom,
        ForkHandle,
        IdChannel<F>,
    >>::ready(channel, ctx);
    assert(ready == (channel, ctx, Poll::Ready(Ok::<(), <F as Format<ForkHandle>>::SerializeError>(()))));
    let sent = <IdChannelFork<Bottom, ForkHandle> as Channel<
        Bottom,
        ForkHandle,
        IdChannel<F>,
    >>::sent(channel, ctx, handle);
    assert(sent.0 == channel);
    assert(sent.1 == handed(ctx, id, handle));
}

/// Closing a sub-channel on which nothing is left to send: nothing
/// changes, and the task resolves at once.
pub proof fn lemma_close<
    F: Format<ForkHandle, Representation = Vec<u8>> + Format<Bottom, Representation = Vec<u8>>,
>(ctx: Model<F>, id: u32)
    ensures
        ({
            let step = <Forward<IdChannelFork<Bottom, ForkHandle>, Bottom, ForkHandle> as Task<
                IdChannel<F>,
            >>::polled(Forward::ending(outlet(id)), ctx);
            &&& !Forward::<IdChannelFork<Bottom, ForkHandle>, Bottom, ForkHandle>::ending(
                outlet(id),
            ).done
            &&& step.1 == ctx
            &&& step.2 == Poll::Ready(Ok::<(), <F as Format<ForkHandle>>::SerializeError>(()))
        }),
{
    let channel = outlet(id);
    let closed = <IdChannelFork<Bottom, ForkHandle> as Channel<
        Bottom,
        ForkHandle,
        IdChannel<F>,
    >>::closed(channel, ctx);
    assert(closed == (
        channel,
        ctx,
        Poll::Ready(Ok::<(), <F as Format<ForkHandle>>::SerializeError>(())),
    ));
}

/// The endpoint after the oldest payload of sub-channel `id` has been read
/// and decoded as a handle.
pub open spec fn taken<F: Format<ForkHandle, Representation = Vec<u8>>>(
    ctx: Model<F>,
    id: u32,
) -> Model<F> {
    let decoded = <F as Format<ForkHandle>>::deserialized(ctx.format, ctx.sinks[id][0]);
    Model { sinks: ctx.sinks.insert(id, ctx.sinks[id].remove(0)), ..ctx }.with_format(decoded.0)
}

/// Reading a handle that has arrived and decodes: the payload leaves the
/// queue, and the task resolves at once to the handle and the channel.
pub proof fn lemma_next<
    F: Format<ForkHandle, Representation = Vec<u8>> + Format<Bottom, Representation = Vec<u8>>,
>(ctx: Model<F>, id: u32, handle: ForkHandle)
    requires
        ctx.sinks.contains_key(id),
        ctx.sinks[id].len() > 0,
        <F as Format<ForkHandle>>::deserialized(ctx.format, ctx.sinks[id][0]).1 == Ok::<
            ForkHandle,
            <F as Format<ForkHandle>>::DeserializeError,
        >(handle),
    ensures
        ({
            let next = StreamFuture::<IdChannelFork<ForkHandle, Bottom>, ForkHandle, Bottom>::of(
                inlet(id),
            );
            let step = <StreamFuture<IdChannelFork<ForkHandle, Bottom>, ForkHandle, Bottom> as Task<
                IdChannel<F>,
            >>::polled(next, ctx);
            &&& next.channel is Some
            &&& step.1 == taken(ctx, id)
            &&& step.2 == Poll::Ready((Some(handle), inlet(id)))
        }),
{
    let channel = inlet(id);
    let got = <IdChannelFork<ForkHandle, Bottom> as Channel<
        ForkHandle,
        Bottom,
        IdChannel<F>,
    >>::next(channel, ctx);
    let read = ctx.recv(id);
    assert(read.1 == Poll::Ready(Some(ctx.sinks[id][0])));
    assert(got.0 == channel);
    assert(got.1 == taken(ctx, id));
    assert(got.2 == Poll::Ready(Some(handle)));
}

/// Reading from a sub-channel that is registered, empty and ended: nothing
/// changes, and the task resolves at once to the end of the stream.
pub proof fn lemma_end<
    F: Format<ForkHandle, Representation = Vec<u8>> + Format<Bottom, Representation = Vec<u8>>,
>(ctx: Model<F>, id: u32)
    requires
        ctx.sinks.contains_key(id),
        ctx.sinks[id].len() == 0,
        ctx.ended,
    ensures
        ({
            let next = StreamFuture::<IdChannelFork<ForkHandle, Bottom>, ForkHandle, Bottom>::of(
                inlet(id),
            );
            let step = <StreamFuture<IdChannelFork<ForkHandle, Bottom>, ForkHandle, Bottom> as Task<
                IdChannel<F>,
            >>::polled(next, ctx);
            &&& next.channel is Some
            &&& step.1 == ctx
            &&& step.2 == Poll::Ready((None::<ForkHandle>, inlet(id)))
        }),
{
    let channel = inlet(id);
    let got = <IdChannelFork<ForkHandle, Bottom> as Channel<
        ForkHandle,
        Bottom,
        IdChannel<F>,
    >>::next(channel, ctx);
    let read = ctx.recv(id);
    assert(read.1 == Poll::Ready(None::<Seq<u8>>));
    assert(got == (channel, ctx, Poll::Ready(None::<ForkHandle>)));
}

} // verus!
