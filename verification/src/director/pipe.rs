//! A transport in memory: the two ends of one pipe that loses nothing and
//! keeps the order. What the trivial director sends into one end, it
//! rebuilds from the other.
use vstd::prelude::*;

use core::convert::Infallible;
use core::marker::PhantomData;

use crate::director::trivial::{self, Context};
use crate::director::{Director, DirectorError, Trivial};
use crate::flat;
use crate::format::serde::{Serde, Serializer};
use crate::future::{Either, Forward, StreamFuture};
use crate::option;
use crate::sequence::Sequence;
use crate::format::Format;
use crate::{Bottom, Channel, Poll, Protocol, Task};

verus! {

/// One end of a transport in memory: it reads items of type `I` and sends
/// items of type `O`.
pub struct Pipe<I, O> {
    /// What has arrived and has not been read, oldest first.
    pub inbound: Sequence<I>,
    /// What has been sent, newest first.
    pub outbound: Sequence<O>,
    /// True once nothing more will arrive.
    pub ended: bool,
    /// True once this end has closed its outbound side.
    pub closed: bool,
}

impl<I, O> Pipe<I, O> {
    /// An end at which nothing has arrived and nothing has been sent.
    pub open spec fn fresh() -> Self {
        Pipe { inbound: Sequence::End, outbound: Sequence::End, ended: false, closed: false }
    }

    pub fn new() -> (r: Self)
        ensures
            r == Self::fresh(),
    {
        Pipe { inbound: Sequence::End, outbound: Sequence::End, ended: false, closed: false }
    }

    /// The other end, once the transport has delivered what this end
    /// sent: everything has arrived there, in the order of sending, and
    /// nothing more will arrive if this end has closed.
    pub open spec fn crossed(self) -> Pipe<O, I> {
        Pipe {
            inbound: self.outbound.reversed(Sequence::End),
            outbound: Sequence::End,
            ended: self.closed,
            closed: false,
        }
    }

    /// Delivers what this end sent: gives the other end as it is then.
    pub fn across(self) -> (r: Pipe<O, I>)
        ensures
            r == self.crossed(),
            r.inbound.items() == self.outbound.items().reverse(),
    {
        proof {
            self.outbound.lemma_reversed(Sequence::End);
            assert(self.outbound.items().reverse() + Sequence::<O>::End.items()
                =~= self.outbound.items().reverse());
        }
        Pipe {
            inbound: self.outbound.reverse(),
            outbound: Sequence::End,
            ended: self.closed,
            closed: false,
        }
    }
}

impl<I, O> Channel<I, O, ()> for Pipe<I, O> {
    type Error = Infallible;

    /// The oldest item that has arrived; the end of the stream when none
    /// waits and none will come.
    open spec fn next(self, ctx: ()) -> (Self, (), Poll<Option<I>>) {
        match self.inbound {
            Sequence::More(first, rest) => (
                Pipe { inbound: *rest, ..self },
                ctx,
                Poll::Ready(Some(first)),
            ),
            Sequence::End => (
                self,
                ctx,
                if self.ended {
                    Poll::Ready(None)
                } else {
                    Poll::Pending
                },
            ),
        }
    }

    fn poll_next(&mut self, ctx: &mut ()) -> (r: Poll<Option<I>>) {
        let mut queue = Sequence::End;
        core::mem::swap(&mut self.inbound, &mut queue);
        match queue {
            Sequence::More(first, rest) => {
                self.inbound = *rest;
                Poll::Ready(Some(first))
            },
            Sequence::End => if self.ended {
                Poll::Ready(None)
            } else {
                Poll::Pending
            },
        }
    }

    /// Every item that arrives can be read.
    open spec fn broken(self, ctx: ()) -> bool {
        false
    }

    fn is_broken(&self, ctx: &()) -> (r: bool) {
        false
    }

    /// The pipe takes whatever it is given.
    open spec fn ready(self, ctx: ()) -> (Self, (), Poll<Result<(), Infallible>>) {
        (self, ctx, Poll::Ready(Ok(())))
    }

    fn poll_ready(&mut self, ctx: &mut ()) -> (r: Poll<Result<(), Infallible>>) {
        Poll::Ready(Ok(()))
    }

    open spec fn sent(self, ctx: (), item: O) -> (Self, (), Result<(), Infallible>) {
        (Pipe { outbound: Sequence::More(item, Box::new(self.outbound)), ..self }, ctx, Ok(()))
    }

    fn start_send(&mut self, ctx: &mut (), item: O) -> (r: Result<(), Infallible>) {
        let mut queue = Sequence::End;
        core::mem::swap(&mut self.outbound, &mut queue);
        self.outbound = Sequence::More(item, Box::new(queue));
        Ok(())
    }

    open spec fn flushed(self, ctx: ()) -> (Self, (), Poll<Result<(), Infallible>>) {
        (self, ctx, Poll::Ready(Ok(())))
    }

    fn poll_flush(&mut self, ctx: &mut ()) -> (r: Poll<Result<(), Infallible>>) {
        Poll::Ready(Ok(()))
    }

    open spec fn closed(self, ctx: ()) -> (Self, (), Poll<Result<(), Infallible>>) {
        (Pipe { closed: true, ..self }, ctx, Poll::Ready(Ok(())))
    }

    fn poll_close(&mut self, ctx: &mut ()) -> (r: Poll<Result<(), Infallible>>) {
        self.closed = true;
        Poll::Ready(Ok(()))
    }
}

/// The end of the side that unravels a scalar of type `T`.
pub open spec fn up<T>(pipe: Pipe<Bottom, T>) -> trivial::Unravel<Pipe<T, Bottom>, Pipe<Bottom, T>> {
    trivial::Unravel(pipe, Context(PhantomData))
}

/// The end of the side that coalesces a scalar of type `T`.
pub open spec fn down<T>(pipe: Pipe<T, Bottom>) -> trivial::Coalesce<
    Pipe<T, Bottom>,
    Pipe<Bottom, T>,
> {
    trivial::Coalesce(pipe, Context(PhantomData))
}

/// One item there and back: the task that sends `item` into a fresh pipe
/// resolves at its first poll and closes the pipe; once the transport has
/// delivered what was sent, the task that reads one item from the other
/// end resolves at its first poll to `item`.
pub proof fn lemma_pipe_item<T>(item: T)
    ensures
        ({
            let ctx: Context<Pipe<T, Bottom>, Pipe<Bottom, T>> = Context(PhantomData);
            let send = Forward::<_, Bottom, T>::once(item, up(Pipe::fresh()));
            let sent = send.polled(ctx);
            let read = flat::Coalesce(
                StreamFuture::<_, T, Bottom>::of(down(sent.0.channel.0.crossed())),
            );
            let got = read.polled(ctx);
            &&& send.unresolved()
            &&& sent.2 == Poll::Ready(Ok::<(), Infallible>(()))
            &&& sent.0.channel.0.outbound.items() == seq![item]
            &&& sent.0.channel.0.closed
            &&& read.unresolved()
            &&& got.2 == Poll::Ready(Ok::<T, flat::Unread>(item))
        }),
{
    let ctx: Context<Pipe<T, Bottom>, Pipe<Bottom, T>> = Context(PhantomData);
    let pipe = Pipe::<Bottom, T>::fresh();
    let channel = up(pipe);
    let ready = channel.ready(ctx);
    assert(ready == (channel, ctx, Poll::Ready(Ok::<(), Infallible>(()))));
    let handed = channel.sent(ctx, item);
    let full = Pipe::<Bottom, T> {
        outbound: Sequence::More(item, Box::new(Sequence::End)),
        ..pipe
    };
    assert(handed == (up(full), ctx, Ok::<(), Infallible>(())));
    let closed = up(full).closed(ctx);
    let done = Pipe::<Bottom, T> { closed: true, ..full };
    assert(closed == (up(done), ctx, Poll::Ready(Ok::<(), Infallible>(()))));
    let send = Forward::<_, Bottom, T>::once(item, channel);
    let sent = send.polled(ctx);
    assert(sent.0.channel == up(done));
    assert(done.outbound.items() =~= seq![item]) by {
        reveal_with_fuel(Sequence::items, 3);
    }
    let peer = done.crossed();
    assert(peer.inbound == Sequence::More(item, Box::new(Sequence::<T>::End))) by {
        reveal_with_fuel(Sequence::reversed, 3);
    }
    let first = down(peer).next(ctx);
    assert(first.2 == Poll::Ready(Some(item)));
}

/// What the trivial director unravels into one end of a pipe, it
/// coalesces from the other: an unsigned number comes back as it was
/// sent, whatever the format.
pub proof fn theorem_pipe_u32<S: Serializer>(value: u32)
    ensures
        ({
            let start = <Trivial as Director<
                u32,
                Serde<S>,
                Pipe<u32, Bottom>,
                Pipe<Bottom, u32>,
            >>::unraveling(Trivial, value, Pipe::fresh());
            let sent = start.0.polled(start.1);
            let peer = sent.0.0.channel.0.crossed();
            let shim = <Trivial as Director<
                u32,
                Serde<S>,
                Pipe<u32, Bottom>,
                Pipe<Bottom, u32>,
            >>::coalescing(Trivial, peer);
            let got = shim.0.polled(shim.1);
            &&& start.0.unresolved()
            &&& sent.2 == Poll::Ready(Ok::<(), DirectorError<Infallible, Infallible>>(()))
            &&& shim.0.unresolved()
            &&& got.2 == Poll::Ready(
                Ok::<u32, DirectorError<Infallible, flat::Unread>>(value),
            )
        }),
{
    theorem_pipe_scalar::<u32, Serde<S>>(value);
}

/// What the trivial director unravels into one end of a pipe, it
/// coalesces from the other. This holds of every protocol that travels as
/// one item of its own type, as every scalar does, and of every format.
pub proof fn theorem_pipe_scalar<P, F>(value: P) where
    P: Protocol<
        Context<Pipe<P, Bottom>, Pipe<Bottom, P>>,
        F,
        Unravel = P,
        Coalesce = Bottom,
        UnravelError = Infallible,
        UnravelFuture = Forward<trivial::Unravel<Pipe<P, Bottom>, Pipe<Bottom, P>>, Bottom, P>,
        CoalesceError = flat::Unread,
        CoalesceFuture = flat::Coalesce<trivial::Coalesce<Pipe<P, Bottom>, Pipe<Bottom, P>>, P>,
    >,
    F: Format<P> + Format<Bottom>,

    requires
        forall|pipe: Pipe<Bottom, P>| #[trigger]
            value.unraveling(up(pipe), Context(PhantomData)) == (
                Forward::<_, Bottom, P>::once(value, up(pipe)),
                Context::<Pipe<P, Bottom>, Pipe<Bottom, P>>(PhantomData),
            ),
        forall|pipe: Pipe<P, Bottom>| #[trigger]
            P::coalescing(down(pipe), Context(PhantomData)) == (
                flat::Coalesce(StreamFuture::<_, P, Bottom>::of(down(pipe))),
                Context::<Pipe<P, Bottom>, Pipe<Bottom, P>>(PhantomData),
            ),
    ensures
        ({
            let start = <Trivial as Director<P, F, Pipe<P, Bottom>, Pipe<Bottom, P>>>::unraveling(
                Trivial,
                value,
                Pipe::fresh(),
            );
            let sent = start.0.polled(start.1);
            let peer = sent.0.0.channel.0.crossed();
            let shim = <Trivial as Director<P, F, Pipe<P, Bottom>, Pipe<Bottom, P>>>::coalescing(
                Trivial,
                peer,
            );
            let got = shim.0.polled(shim.1);
            &&& start.0.unresolved()
            &&& sent.2 == Poll::Ready(Ok::<(), DirectorError<Infallible, Infallible>>(()))
            &&& shim.0.unresolved()
            &&& got.2 == Poll::Ready(Ok::<P, DirectorError<Infallible, flat::Unread>>(value))
        }),
{
    lemma_pipe_item(value);
    let fresh = Pipe::<Bottom, P>::fresh();
    assert(value.unraveling(up(fresh), Context(PhantomData)) == (
        Forward::<_, Bottom, P>::once(value, up(fresh)),
        Context::<Pipe<P, Bottom>, Pipe<Bottom, P>>(PhantomData),
    ));
    let start = <Trivial as Director<P, F, Pipe<P, Bottom>, Pipe<Bottom, P>>>::unraveling(
        Trivial,
        value,
        fresh,
    );
    let sent = start.0.polled(start.1);
    let peer = sent.0.0.channel.0.crossed();
    assert(P::coalescing(down(peer), Context(PhantomData)) == (
        flat::Coalesce(StreamFuture::<_, P, Bottom>::of(down(peer))),
        Context::<Pipe<P, Bottom>, Pipe<Bottom, P>>(PhantomData),
    ));
}

/// A text comes back through the pipe as it was sent, whatever the format.
pub proof fn theorem_pipe_text<F: Format<String> + Format<Bottom>>(value: String)
    ensures
        ({
            let start = <Trivial as Director<
                String,
                F,
                Pipe<String, Bottom>,
                Pipe<Bottom, String>,
            >>::unraveling(Trivial, value, Pipe::fresh());
            let sent = start.0.polled(start.1);
            let peer = sent.0.0.channel.0.crossed();
            let shim = <Trivial as Director<
                String,
                F,
                Pipe<String, Bottom>,
                Pipe<Bottom, String>,
            >>::coalescing(Trivial, peer);
            let got = shim.0.polled(shim.1);
            &&& sent.2 == Poll::Ready(Ok::<(), DirectorError<Infallible, Infallible>>(()))
            &&& got.2 == Poll::Ready(
                Ok::<String, DirectorError<Infallible, flat::Unread>>(value),
            )
        }),
{
    theorem_pipe_scalar::<String, F>(value);
}

/// An option of the unit comes back through the pipe as it was sent:
/// `None` sends nothing, `Some` sends the one handle of its content.
pub proof fn theorem_pipe_option<F: Format<()> + Format<Bottom>>(value: Option<()>)
    ensures
        ({
            let start = <Trivial as Director<
                Option<()>,
                F,
                Pipe<(), Bottom>,
                Pipe<Bottom, ()>,
            >>::unraveling(Trivial, value, Pipe::fresh());
            let sent = start.0.polled(start.1);
            let pipe = match sent.0.0 {
                Either::Left(option::Unravel::Send(send)) => send.channel.0,
                _ => Pipe { closed: true, ..Pipe::<Bottom, ()>::fresh() },
            };
            let shim = <Trivial as Director<
                Option<()>,
                F,
                Pipe<(), Bottom>,
                Pipe<Bottom, ()>,
            >>::coalescing(Trivial, pipe.crossed());
            let got = shim.0.polled(shim.1);
            &&& start.0.unresolved()
            &&& sent.2 is Ready
            &&& sent.2->Ready_0 is Ok
            &&& shim.0.unresolved()
            &&& got.2 is Ready
            &&& got.2 matches Poll::Ready(Ok(back)) && back == value
        }),
{
    reveal_with_fuel(Sequence::reversed, 3);
    reveal_with_fuel(Sequence::items, 3);
}

} // verus!
