//! Protocols of the scalars: a scalar travels as exactly one item of its
//! own type.
use vstd::prelude::*;

use core::time::Duration;

use crate::format::serde::{Serde, Serializer};
use crate::format::Format;
use crate::future::{Forward, StreamFuture};
use crate::{Bottom, Channel, Channels, Poll, Protocol, Task};

verus! {

/// The stream of a scalar ended before its one item.
#[derive(Debug)]
pub struct Insufficient;

/// An error of reading a scalar: the stream ended before its one item, or
/// the item that came could not be read.
#[derive(Debug)]
pub enum Unread {
    Insufficient(Insufficient),
    Corrupt,
}

/// What a serializer sees of a scalar.
#[derive(Clone, Copy, Debug, PartialEq, Eq)]
pub enum Scalar {
    Unit,
    Bool(bool),
    Char(char),
    Unsigned(u128),
    Signed(i128),
}

/// The sort of scalar that a deserializer is asked for.
#[derive(Clone, Copy, Debug, PartialEq, Eq)]
pub enum Kind {
    Unit,
    Bool,
    Char,
    Unsigned,
    Signed,
}

impl Scalar {
    /// The sort that the scalar belongs to.
    pub open spec fn kind_of(self) -> Kind {
        match self {
            Scalar::Unit => Kind::Unit,
            Scalar::Bool(_) => Kind::Bool,
            Scalar::Char(_) => Kind::Char,
            Scalar::Unsigned(_) => Kind::Unsigned,
            Scalar::Signed(_) => Kind::Signed,
        }
    }

    pub fn kind(&self) -> (r: Kind)
        ensures
            r == self.kind_of(),
    {
        match self {
            Scalar::Unit => Kind::Unit,
            Scalar::Bool(_) => Kind::Bool,
            Scalar::Char(_) => Kind::Char,
            Scalar::Unsigned(_) => Kind::Unsigned,
            Scalar::Signed(_) => Kind::Signed,
        }
    }
}

/// A type whose values a format takes as one item: a value of it is its
/// own model, and a serializer handles it as a scalar.
pub trait Flat: View<V = Self> + Sized {
    /// A flat value is its own view.
    proof fn plain(self)
        ensures
            self@ == self,
    ;

    /// The sort of scalar that stands for this type.
    spec fn kind_of() -> Kind;

    fn kind() -> (r: Kind)
        ensures
            r == Self::kind_of(),
    ;

    /// The scalar that stands for the value.
    spec fn scalar_of(self) -> Scalar;

    fn scalar(&self) -> (r: Scalar)
        ensures
            r == self.scalar_of(),
    ;

    /// The value that a scalar stands for, if it stands for one of this
    /// type.
    spec fn of_scalar(scalar: Scalar) -> Option<Self>;

    fn from_scalar(scalar: Scalar) -> (r: Option<Self>)
        ensures
            r == Self::of_scalar(scalar),
    ;

    /// The scalar of a value is of the type's sort and stands for the
    /// value.
    proof fn scalar_round_trip(self)
        ensures
            self.scalar_of().kind_of() == Self::kind_of(),
            Self::of_scalar(self.scalar_of()) == Some(self),
    ;
}

impl Flat for () {
    proof fn plain(self) {
    }

    open spec fn kind_of() -> Kind {
        Kind::Unit
    }

    fn kind() -> (r: Kind) {
        Kind::Unit
    }

    open spec fn scalar_of(self) -> Scalar {
        Scalar::Unit
    }

    fn scalar(&self) -> (r: Scalar) {
        Scalar::Unit
    }

    open spec fn of_scalar(scalar: Scalar) -> Option<Self> {
        match scalar {
            Scalar::Unit => Some(()),
            _ => None,
        }
    }

    fn from_scalar(scalar: Scalar) -> (r: Option<Self>) {
        match scalar {
            Scalar::Unit => Some(()),
            _ => None,
        }
    }

    proof fn scalar_round_trip(self) {
    }
}

impl Flat for bool {
    proof fn plain(self) {
    }

    open spec fn kind_of() -> Kind {
        Kind::Bool
    }

    fn kind() -> (r: Kind) {
        Kind::Bool
    }

    open spec fn scalar_of(self) -> Scalar {
        Scalar::Bool(self)
    }

    fn scalar(&self) -> (r: Scalar) {
        Scalar::Bool(*self)
    }

    open spec fn of_scalar(scalar: Scalar) -> Option<Self> {
        match scalar {
            Scalar::Bool(value) => Some(value),
            _ => None,
        }
    }

    fn from_scalar(scalar: Scalar) -> (r: Option<Self>) {
        match scalar {
            Scalar::Bool(value) => Some(value),
            _ => None,
        }
    }

    proof fn scalar_round_trip(self) {
    }
}

impl Flat for char {
    proof fn plain(self) {
    }

    open spec fn kind_of() -> Kind {
        Kind::Char
    }

    fn kind() -> (r: Kind) {
        Kind::Char
    }

    open spec fn scalar_of(self) -> Scalar {
        Scalar::Char(self)
    }

    fn scalar(&self) -> (r: Scalar) {
        Scalar::Char(*self)
    }

    open spec fn of_scalar(scalar: Scalar) -> Option<Self> {
        match scalar {
            Scalar::Char(value) => Some(value),
            _ => None,
        }
    }

    fn from_scalar(scalar: Scalar) -> (r: Option<Self>) {
        match scalar {
            Scalar::Char(value) => Some(value),
            _ => None,
        }
    }

    proof fn scalar_round_trip(self) {
    }
}

impl Flat for u8 {
    proof fn plain(self) {
    }

    open spec fn kind_of() -> Kind {
        Kind::Unsigned
    }

    fn kind() -> (r: Kind) {
        Kind::Unsigned
    }

    open spec fn scalar_of(self) -> Scalar {
        Scalar::Unsigned(self as u128)
    }

    fn scalar(&self) -> (r: Scalar) {
        Scalar::Unsigned(*self as u128)
    }

    open spec fn of_scalar(scalar: Scalar) -> Option<Self> {
        match scalar {
            Scalar::Unsigned(value) => if value <= u8::MAX as u128 {
                Some(value as u8)
            } else {
                None
            },
            _ => None,
        }
    }

    fn from_scalar(scalar: Scalar) -> (r: Option<Self>) {
        match scalar {
            Scalar::Unsigned(value) => if value <= u8::MAX as u128 {
                Some(value as u8)
            } else {
                None
            },
            _ => None,
        }
    }

    proof fn scalar_round_trip(self) {
    }
}

impl Flat for u16 {
    proof fn plain(self) {
    }

    open spec fn kind_of() -> Kind {
        Kind::Unsigned
    }

    fn kind() -> (r: Kind) {
        Kind::Unsigned
    }

    open spec fn scalar_of(self) -> Scalar {
        Scalar::Unsigned(self as u128)
    }

    fn scalar(&self) -> (r: Scalar) {
        Scalar::Unsigned(*self as u128)
    }

    open spec fn of_scalar(scalar: Scalar) -> Option<Self> {
        match scalar {
            Scalar::Unsigned(value) => if value <= u16::MAX as u128 {
                Some(value as u16)
            } else {
                None
            },
            _ => None,
        }
    }

    fn from_scalar(scalar: Scalar) -> (r: Option<Self>) {
        match scalar {
            Scalar::Unsigned(value) => if value <= u16::MAX as u128 {
                Some(value as u16)
            } else {
                None
            },
            _ => None,
        }
    }

    proof fn scalar_round_trip(self) {
    }
}

impl Flat for u32 {
    proof fn plain(self) {
    }

    open spec fn kind_of() -> Kind {
        Kind::Unsigned
    }

    fn kind() -> (r: Kind) {
        Kind::Unsigned
    }

    open spec fn scalar_of(self) -> Scalar {
        Scalar::Unsigned(self as u128)
    }

    fn scalar(&self) -> (r: Scalar) {
        Scalar::Unsigned(*self as u128)
    }

    open spec fn of_scalar(scalar: Scalar) -> Option<Self> {
        match scalar {
            Scalar::Unsigned(value) => if value <= u32::MAX as u128 {
                Some(value as u32)
            } else {
                None
            },
            _ => None,
        }
    }

    fn from_scalar(scalar: Scalar) -> (r: Option<Self>) {
        match scalar {
            Scalar::Unsigned(value) => if value <= u32::MAX as u128 {
                Some(value as u32)
            } else {
                None
            },
            _ => None,
        }
    }

    proof fn scalar_round_trip(self) {
    }
}

impl Flat for u64 {
    proof fn plain(self) {
    }

    open spec fn kind_of() -> Kind {
        Kind::Unsigned
    }

    fn kind() -> (r: Kind) {
        Kind::Unsigned
    }

    open spec fn scalar_of(self) -> Scalar {
        Scalar::Unsigned(self as u128)
    }

    fn scalar(&self) -> (r: Scalar) {
        Scalar::Unsigned(*self as u128)
    }

    open spec fn of_scalar(scalar: Scalar) -> Option<Self> {
        match scalar {
            Scalar::Unsigned(value) => if value <= u64::MAX as u128 {
                Some(value as u64)
            } else {
                None
            },
            _ => None,
        }
    }

    fn from_scalar(scalar: Scalar) -> (r: Option<Self>) {
        match scalar {
            Scalar::Unsigned(value) => if value <= u64::MAX as u128 {
                Some(value as u64)
            } else {
                None
            },
            _ => None,
        }
    }

    proof fn scalar_round_trip(self) {
    }
}

impl Flat for u128 {
    proof fn plain(self) {
    }

    open spec fn kind_of() -> Kind {
        Kind::Unsigned
    }

    fn kind() -> (r: Kind) {
        Kind::Unsigned
    }

    open spec fn scalar_of(self) -> Scalar {
        Scalar::Unsigned(self as u128)
    }

    fn scalar(&self) -> (r: Scalar) {
        Scalar::Unsigned(*self as u128)
    }

    open spec fn of_scalar(scalar: Scalar) -> Option<Self> {
        match scalar {
            Scalar::Unsigned(value) => if true {
                Some(value as u128)
            } else {
                None
            },
            _ => None,
        }
    }

    fn from_scalar(scalar: Scalar) -> (r: Option<Self>) {
        match scalar {
            Scalar::Unsigned(value) => if true {
                Some(value as u128)
            } else {
                None
            },
            _ => None,
        }
    }

    proof fn scalar_round_trip(self) {
    }
}

impl Flat for usize {
    proof fn plain(self) {
    }

    open spec fn kind_of() -> Kind {
        Kind::Unsigned
    }

    fn kind() -> (r: Kind) {
        Kind::Unsigned
    }

    open spec fn scalar_of(self) -> Scalar {
        Scalar::Unsigned(self as u128)
    }

    fn scalar(&self) -> (r: Scalar) {
        Scalar::Unsigned(*self as u128)
    }

    open spec fn of_scalar(scalar: Scalar) -> Option<Self> {
        match scalar {
            Scalar::Unsigned(value) => if value <= usize::MAX as u128 {
                Some(value as usize)
            } else {
                None
            },
            _ => None,
        }
    }

    fn from_scalar(scalar: Scalar) -> (r: Option<Self>) {
        match scalar {
            Scalar::Unsigned(value) => if value <= usize::MAX as u128 {
                Some(value as usize)
            } else {
                None
            },
            _ => None,
        }
    }

    proof fn scalar_round_trip(self) {
    }
}

impl Flat for i8 {
    proof fn plain(self) {
    }

    open spec fn kind_of() -> Kind {
        Kind::Signed
    }

    fn kind() -> (r: Kind) {
        Kind::Signed
    }

    open spec fn scalar_of(self) -> Scalar {
        Scalar::Signed(self as i128)
    }

    fn scalar(&self) -> (r: Scalar) {
        Scalar::Signed(*self as i128)
    }

    open spec fn of_scalar(scalar: Scalar) -> Option<Self> {
        match scalar {
            Scalar::Signed(value) => if i8::MIN as i128 <= value && value <= i8::MAX as i128 {
                Some(value as i8)
            } else {
                None
            },
            _ => None,
        }
    }

    fn from_scalar(scalar: Scalar) -> (r: Option<Self>) {
        match scalar {
            Scalar::Signed(value) => if i8::MIN as i128 <= value && value <= i8::MAX as i128 {
                Some(value as i8)
            } else {
                None
            },
            _ => None,
        }
    }

    proof fn scalar_round_trip(self) {
    }
}

impl Flat for i16 {
    proof fn plain(self) {
    }

    open spec fn kind_of() -> Kind {
        Kind::Signed
    }

    fn kind() -> (r: Kind) {
        Kind::Signed
    }

    open spec fn scalar_of(self) -> Scalar {
        Scalar::Signed(self as i128)
    }

    fn scalar(&self) -> (r: Scalar) {
        Scalar::Signed(*self as i128)
    }

    open spec fn of_scalar(scalar: Scalar) -> Option<Self> {
        match scalar {
            Scalar::Signed(value) => if i16::MIN as i128 <= value && value <= i16::MAX as i128 {
                Some(value as i16)
            } else {
                None
            },
            _ => None,
        }
    }

    fn from_scalar(scalar: Scalar) -> (r: Option<Self>) {
        match scalar {
            Scalar::Signed(value) => if i16::MIN as i128 <= value && value <= i16::MAX as i128 {
                Some(value as i16)
            } else {
                None
            },
            _ => None,
        }
    }

    proof fn scalar_round_trip(self) {
    }
}

impl Flat for i32 {
    proof fn plain(self) {
    }

    open spec fn kind_of() -> Kind {
        Kind::Signed
    }

    fn kind() -> (r: Kind) {
        Kind::Signed
    }

    open spec fn scalar_of(self) -> Scalar {
        Scalar::Signed(self as i128)
    }

    fn scalar(&self) -> (r: Scalar) {
        Scalar::Signed(*self as i128)
    }

    open spec fn of_scalar(scalar: Scalar) -> Option<Self> {
        match scalar {
            Scalar::Signed(value) => if i32::MIN as i128 <= value && value <= i32::MAX as i128 {
                Some(value as i32)
            } else {
                None
            },
            _ => None,
        }
    }

    fn from_scalar(scalar: Scalar) -> (r: Option<Self>) {
        match scalar {
            Scalar::Signed(value) => if i32::MIN as i128 <= value && value <= i32::MAX as i128 {
                Some(value as i32)
            } else {
                None
            },
            _ => None,
        }
    }

    proof fn scalar_round_trip(self) {
    }
}

impl Flat for i64 {
    proof fn plain(self) {
    }

    open spec fn kind_of() -> Kind {
        Kind::Signed
    }

    fn kind() -> (r: Kind) {
        Kind::Signed
    }

    open spec fn scalar_of(self) -> Scalar {
        Scalar::Signed(self as i128)
    }

    fn scalar(&self) -> (r: Scalar) {
        Scalar::Signed(*self as i128)
    }

    open spec fn of_scalar(scalar: Scalar) -> Option<Self> {
        match scalar {
            Scalar::Signed(value) => if i64::MIN as i128 <= value && value <= i64::MAX as i128 {
                Some(value as i64)
            } else {
                None
            },
            _ => None,
        }
    }

    fn from_scalar(scalar: Scalar) -> (r: Option<Self>) {
        match scalar {
            Scalar::Signed(value) => if i64::MIN as i128 <= value && value <= i64::MAX as i128 {
                Some(value as i64)
            } else {
                None
            },
            _ => None,
        }
    }

    proof fn scalar_round_trip(self) {
    }
}

impl Flat for i128 {
    proof fn plain(self) {
    }

    open spec fn kind_of() -> Kind {
        Kind::Signed
    }

    fn kind() -> (r: Kind) {
        Kind::Signed
    }

    open spec fn scalar_of(self) -> Scalar {
        Scalar::Signed(self as i128)
    }

    fn scalar(&self) -> (r: Scalar) {
        Scalar::Signed(*self as i128)
    }

    open spec fn of_scalar(scalar: Scalar) -> Option<Self> {
        match scalar {
            Scalar::Signed(value) => if true {
                Some(value as i128)
            } else {
                None
            },
            _ => None,
        }
    }

    fn from_scalar(scalar: Scalar) -> (r: Option<Self>) {
        match scalar {
            Scalar::Signed(value) => if true {
                Some(value as i128)
            } else {
                None
            },
            _ => None,
        }
    }

    proof fn scalar_round_trip(self) {
    }
}

impl Flat for isize {
    proof fn plain(self) {
    }

    open spec fn kind_of() -> Kind {
        Kind::Signed
    }

    fn kind() -> (r: Kind) {
        Kind::Signed
    }

    open spec fn scalar_of(self) -> Scalar {
        Scalar::Signed(self as i128)
    }

    fn scalar(&self) -> (r: Scalar) {
        Scalar::Signed(*self as i128)
    }

    open spec fn of_scalar(scalar: Scalar) -> Option<Self> {
        match scalar {
            Scalar::Signed(value) => if isize::MIN as i128 <= value && value <= isize::MAX as i128 {
                Some(value as isize)
            } else {
                None
            },
            _ => None,
        }
    }

    fn from_scalar(scalar: Scalar) -> (r: Option<Self>) {
        match scalar {
            Scalar::Signed(value) => if isize::MIN as i128 <= value && value <= isize::MAX as i128 {
                Some(value as isize)
            } else {
                None
            },
            _ => None,
        }
    }

    proof fn scalar_round_trip(self) {
    }
}

/// Waits for the one item of a scalar: the item when it comes,
/// `Insufficient` when the stream ends without it, `Corrupt` when the item
/// came and could not be read.
pub struct Coalesce<Ch, T>(pub StreamFuture<Ch, T, Bottom>);

impl<Ch, T> Coalesce<Ch, T> {
    /// The task that reads one item from `channel`.
    pub fn new(channel: Ch) -> (r: Self)
        ensures
            r == Coalesce(StreamFuture::<Ch, T, Bottom>::of(channel)),
    {
        Coalesce(StreamFuture::new(channel))
    }
}

impl<S: View, T, Ch: Channel<T, Bottom, S>> Task<S> for Coalesce<Ch, T> {
    type Output = Result<T, Unread>;

    open spec fn unresolved(self) -> bool {
        self.0.unresolved()
    }

    open spec fn polled(self, ctx: S::V) -> (Self, S::V, Poll<Self::Output>) {
        let step = self.0.polled(ctx);
        let r: Poll<Result<T, Unread>> = match step.2 {
            Poll::Ready((Some(item), _)) => Poll::Ready(Ok(item)),
            Poll::Ready((None, channel)) => if channel.broken(step.1) {
                Poll::Ready(Err(Unread::Corrupt))
            } else {
                Poll::Ready(Err(Unread::Insufficient(Insufficient)))
            },
            Poll::Pending => Poll::Pending,
        };
        (Coalesce(step.0), step.1, r)
    }

    fn poll(&mut self, ctx: &mut S) -> (r: Poll<Self::Output>) {
        match self.0.poll(ctx) {
            Poll::Ready((Some(item), _)) => Poll::Ready(Ok(item)),
            Poll::Ready((None, channel)) => if channel.is_broken(ctx) {
                Poll::Ready(Err(Unread::Corrupt))
            } else {
                Poll::Ready(Err(Unread::Insufficient(Insufficient)))
            },
            Poll::Pending => Poll::Pending,
        }
    }

    /// Nothing is held in the context.
    open spec fn cancelled(self, ctx: S::V) -> S::V {
        ctx
    }

    fn cancel(self, ctx: &mut S) {
    }
}

impl<S: Serializer, C: Channels<bool, Bottom>> Protocol<C, Serde<S>> for bool {
    type Unravel = bool;

    type UnravelError = <C::Unravel as Channel<Bottom, bool, C>>::Error;

    type UnravelFuture = Forward<C::Unravel, Bottom, bool>;

    type Coalesce = Bottom;

    type CoalesceError = Unread;

    type CoalesceFuture = Coalesce<C::Coalesce, bool>;

    open spec fn unraveling(self, channel: C::Unravel, ctx: C::V) -> (Self::UnravelFuture, C::V) {
        (Forward::once(self, channel), ctx)
    }

    fn unravel(self, channel: C::Unravel, ctx: &mut C) -> (r: Self::UnravelFuture) {
        Forward::new(self, channel)
    }

    open spec fn coalescing(channel: C::Coalesce, ctx: C::V) -> (Self::CoalesceFuture, C::V) {
        (Coalesce(StreamFuture::of(channel)), ctx)
    }

    fn coalesce(channel: C::Coalesce, ctx: &mut C) -> (r: Self::CoalesceFuture) {
        Coalesce::new(channel)
    }
}

impl<S: Serializer, C: Channels<char, Bottom>> Protocol<C, Serde<S>> for char {
    type Unravel = char;

    type UnravelError = <C::Unravel as Channel<Bottom, char, C>>::Error;

    type UnravelFuture = Forward<C::Unravel, Bottom, char>;

    type Coalesce = Bottom;

    type CoalesceError = Unread;

    type CoalesceFuture = Coalesce<C::Coalesce, char>;

    open spec fn unraveling(self, channel: C::Unravel, ctx: C::V) -> (Self::UnravelFuture, C::V) {
        (Forward::once(self, channel), ctx)
    }

    fn unravel(self, channel: C::Unravel, ctx: &mut C) -> (r: Self::UnravelFuture) {
        Forward::new(self, channel)
    }

    open spec fn coalescing(channel: C::Coalesce, ctx: C::V) -> (Self::CoalesceFuture, C::V) {
        (Coalesce(StreamFuture::of(channel)), ctx)
    }

    fn coalesce(channel: C::Coalesce, ctx: &mut C) -> (r: Self::CoalesceFuture) {
        Coalesce::new(channel)
    }
}

impl<S: Serializer, C: Channels<u8, Bottom>> Protocol<C, Serde<S>> for u8 {
    type Unravel = u8;

    type UnravelError = <C::Unravel as Channel<Bottom, u8, C>>::Error;

    type UnravelFuture = Forward<C::Unravel, Bottom, u8>;

    type Coalesce = Bottom;

    type CoalesceError = Unread;

    type CoalesceFuture = Coalesce<C::Coalesce, u8>;

    open spec fn unraveling(self, channel: C::Unravel, ctx: C::V) -> (Self::UnravelFuture, C::V) {
        (Forward::once(self, channel), ctx)
    }

    fn unravel(self, channel: C::Unravel, ctx: &mut C) -> (r: Self::UnravelFuture) {
        Forward::new(self, channel)
    }

    open spec fn coalescing(channel: C::Coalesce, ctx: C::V) -> (Self::CoalesceFuture, C::V) {
        (Coalesce(StreamFuture::of(channel)), ctx)
    }

    fn coalesce(channel: C::Coalesce, ctx: &mut C) -> (r: Self::CoalesceFuture) {
        Coalesce::new(channel)
    }
}

impl<S: Serializer, C: Channels<u16, Bottom>> Protocol<C, Serde<S>> for u16 {
    type Unravel = u16;

    type UnravelError = <C::Unravel as Channel<Bottom, u16, C>>::Error;

    type UnravelFuture = Forward<C::Unravel, Bottom, u16>;

    type Coalesce = Bottom;

    type CoalesceError = Unread;

    type CoalesceFuture = Coalesce<C::Coalesce, u16>;

    open spec fn unraveling(self, channel: C::Unravel, ctx: C::V) -> (Self::UnravelFuture, C::V) {
        (Forward::once(self, channel), ctx)
    }

    fn unravel(self, channel: C::Unravel, ctx: &mut C) -> (r: Self::UnravelFuture) {
        Forward::new(self, channel)
    }

    open spec fn coalescing(channel: C::Coalesce, ctx: C::V) -> (Self::CoalesceFuture, C::V) {
        (Coalesce(StreamFuture::of(channel)), ctx)
    }

    fn coalesce(channel: C::Coalesce, ctx: &mut C) -> (r: Self::CoalesceFuture) {
        Coalesce::new(channel)
    }
}

impl<S: Serializer, C: Channels<u32, Bottom>> Protocol<C, Serde<S>> for u32 {
    type Unravel = u32;

    type UnravelError = <C::Unravel as Channel<Bottom, u32, C>>::Error;

    type UnravelFuture = Forward<C::Unravel, Bottom, u32>;

    type Coalesce = Bottom;

    type CoalesceError = Unread;

    type CoalesceFuture = Coalesce<C::Coalesce, u32>;

    open spec fn unraveling(self, channel: C::Unravel, ctx: C::V) -> (Self::UnravelFuture, C::V) {
        (Forward::once(self, channel), ctx)
    }

    fn unravel(self, channel: C::Unravel, ctx: &mut C) -> (r: Self::UnravelFuture) {
        Forward::new(self, channel)
    }

    open spec fn coalescing(channel: C::Coalesce, ctx: C::V) -> (Self::CoalesceFuture, C::V) {
        (Coalesce(StreamFuture::of(channel)), ctx)
    }

    fn coalesce(channel: C::Coalesce, ctx: &mut C) -> (r: Self::CoalesceFuture) {
        Coalesce::new(channel)
    }
}

impl<S: Serializer, C: Channels<u64, Bottom>> Protocol<C, Serde<S>> for u64 {
    type Unravel = u64;

    type UnravelError = <C::Unravel as Channel<Bottom, u64, C>>::Error;

    type UnravelFuture = Forward<C::Unravel, Bottom, u64>;

    type Coalesce = Bottom;

    type CoalesceError = Unread;

    type CoalesceFuture = Coalesce<C::Coalesce, u64>;

    open spec fn unraveling(self, channel: C::Unravel, ctx: C::V) -> (Self::UnravelFuture, C::V) {
        (Forward::once(self, channel), ctx)
    }

    fn unravel(self, channel: C::Unravel, ctx: &mut C) -> (r: Self::UnravelFuture) {
        Forward::new(self, channel)
    }

    open spec fn coalescing(channel: C::Coalesce, ctx: C::V) -> (Self::CoalesceFuture, C::V) {
        (Coalesce(StreamFuture::of(channel)), ctx)
    }

    fn coalesce(channel: C::Coalesce, ctx: &mut C) -> (r: Self::CoalesceFuture) {
        Coalesce::new(channel)
    }
}

impl<S: Serializer, C: Channels<u128, Bottom>> Protocol<C, Serde<S>> for u128 {
    type Unravel = u128;

    type UnravelError = <C::Unravel as Channel<Bottom, u128, C>>::Error;

    type UnravelFuture = Forward<C::Unravel, Bottom, u128>;

    type Coalesce = Bottom;

    type CoalesceError = Unread;

    type CoalesceFuture = Coalesce<C::Coalesce, u128>;

    open spec fn unraveling(self, channel: C::Unravel, ctx: C::V) -> (Self::UnravelFuture, C::V) {
        (Forward::once(self, channel), ctx)
    }

    fn unravel(self, channel: C::Unravel, ctx: &mut C) -> (r: Self::UnravelFuture) {
        Forward::new(self, channel)
    }

    open spec fn coalescing(channel: C::Coalesce, ctx: C::V) -> (Self::CoalesceFuture, C::V) {
        (Coalesce(StreamFuture::of(channel)), ctx)
    }

    fn coalesce(channel: C::Coalesce, ctx: &mut C) -> (r: Self::CoalesceFuture) {
        Coalesce::new(channel)
    }
}

impl<S: Serializer, C: Channels<usize, Bottom>> Protocol<C, Serde<S>> for usize {
    type Unravel = usize;

    type UnravelError = <C::Unravel as Channel<Bottom, usize, C>>::Error;

    type UnravelFuture = Forward<C::Unravel, Bottom, usize>;

    type Coalesce = Bottom;

    type CoalesceError = Unread;

    type CoalesceFuture = Coalesce<C::Coalesce, usize>;

    open spec fn unraveling(self, channel: C::Unravel, ctx: C::V) -> (Self::UnravelFuture, C::V) {
        (Forward::once(self, channel), ctx)
    }

    fn unravel(self, channel: C::Unravel, ctx: &mut C) -> (r: Self::UnravelFuture) {
        Forward::new(self, channel)
    }

    open spec fn coalescing(channel: C::Coalesce, ctx: C::V) -> (Self::CoalesceFuture, C::V) {
        (Coalesce(StreamFuture::of(channel)), ctx)
    }

    fn coalesce(channel: C::Coalesce, ctx: &mut C) -> (r: Self::CoalesceFuture) {
        Coalesce::new(channel)
    }
}

impl<S: Serializer, C: Channels<i8, Bottom>> Protocol<C, Serde<S>> for i8 {
    type Unravel = i8;

    type UnravelError = <C::Unravel as Channel<Bottom, i8, C>>::Error;

    type UnravelFuture = Forward<C::Unravel, Bottom, i8>;

    type Coalesce = Bottom;

    type CoalesceError = Unread;

    type CoalesceFuture = Coalesce<C::Coalesce, i8>;

    open spec fn unraveling(self, channel: C::Unravel, ctx: C::V) -> (Self::UnravelFuture, C::V) {
        (Forward::once(self, channel), ctx)
    }

    fn unravel(self, channel: C::Unravel, ctx: &mut C) -> (r: Self::UnravelFuture) {
        Forward::new(self, channel)
    }

    open spec fn coalescing(channel: C::Coalesce, ctx: C::V) -> (Self::CoalesceFuture, C::V) {
        (Coalesce(StreamFuture::of(channel)), ctx)
    }

    fn coalesce(channel: C::Coalesce, ctx: &mut C) -> (r: Self::CoalesceFuture) {
        Coalesce::new(channel)
    }
}

impl<S: Serializer, C: Channels<i16, Bottom>> Protocol<C, Serde<S>> for i16 {
    type Unravel = i16;

    type UnravelError = <C::Unravel as Channel<Bottom, i16, C>>::Error;

    type UnravelFuture = Forward<C::Unravel, Bottom, i16>;

    type Coalesce = Bottom;

    type CoalesceError = Unread;

    type CoalesceFuture = Coalesce<C::Coalesce, i16>;

    open spec fn unraveling(self, channel: C::Unravel, ctx: C::V) -> (Self::UnravelFuture, C::V) {
        (Forward::once(self, channel), ctx)
    }

    fn unravel(self, channel: C::Unravel, ctx: &mut C) -> (r: Self::UnravelFuture) {
        Forward::new(self, channel)
    }

    open spec fn coalescing(channel: C::Coalesce, ctx: C::V) -> (Self::CoalesceFuture, C::V) {
        (Coalesce(StreamFuture::of(channel)), ctx)
    }

    fn coalesce(channel: C::Coalesce, ctx: &mut C) -> (r: Self::CoalesceFuture) {
        Coalesce::new(channel)
    }
}

impl<S: Serializer, C: Channels<i32, Bottom>> Protocol<C, Serde<S>> for i32 {
    type Unravel = i32;

    type UnravelError = <C::Unravel as Channel<Bottom, i32, C>>::Error;

    type UnravelFuture = Forward<C::Unravel, Bottom, i32>;

    type Coalesce = Bottom;

    type CoalesceError = Unread;

    type CoalesceFuture = Coalesce<C::Coalesce, i32>;

    open spec fn unraveling(self, channel: C::Unravel, ctx: C::V) -> (Self::UnravelFuture, C::V) {
        (Forward::once(self, channel), ctx)
    }

    fn unravel(self, channel: C::Unravel, ctx: &mut C) -> (r: Self::UnravelFuture) {
        Forward::new(self, channel)
    }

    open spec fn coalescing(channel: C::Coalesce, ctx: C::V) -> (Self::CoalesceFuture, C::V) {
        (Coalesce(StreamFuture::of(channel)), ctx)
    }

    fn coalesce(channel: C::Coalesce, ctx: &mut C) -> (r: Self::CoalesceFuture) {
        Coalesce::new(channel)
    }
}

impl<S: Serializer, C: Channels<i64, Bottom>> Protocol<C, Serde<S>> for i64 {
    type Unravel = i64;

    type UnravelError = <C::Unravel as Channel<Bottom, i64, C>>::Error;

    type UnravelFuture = Forward<C::Unravel, Bottom, i64>;

    type Coalesce = Bottom;

    type CoalesceError = Unread;

    type CoalesceFuture = Coalesce<C::Coalesce, i64>;

    open spec fn unraveling(self, channel: C::Unravel, ctx: C::V) -> (Self::UnravelFuture, C::V) {
        (Forward::once(self, channel), ctx)
    }

    fn unravel(self, channel: C::Unravel, ctx: &mut C) -> (r: Self::UnravelFuture) {
        Forward::new(self, channel)
    }

    open spec fn coalescing(channel: C::Coalesce, ctx: C::V) -> (Self::CoalesceFuture, C::V) {
        (Coalesce(StreamFuture::of(channel)), ctx)
    }

    fn coalesce(channel: C::Coalesce, ctx: &mut C) -> (r: Self::CoalesceFuture) {
        Coalesce::new(channel)
    }
}

impl<S: Serializer, C: Channels<i128, Bottom>> Protocol<C, Serde<S>> for i128 {
    type Unravel = i128;

    type UnravelError = <C::Unravel as Channel<Bottom, i128, C>>::Error;

    type UnravelFuture = Forward<C::Unravel, Bottom, i128>;

    type Coalesce = Bottom;

    type CoalesceError = Unread;

    type CoalesceFuture = Coalesce<C::Coalesce, i128>;

    open spec fn unraveling(self, channel: C::Unravel, ctx: C::V) -> (Self::UnravelFuture, C::V) {
        (Forward::once(self, channel), ctx)
    }

    fn unravel(self, channel: C::Unravel, ctx: &mut C) -> (r: Self::UnravelFuture) {
        Forward::new(self, channel)
    }

    open spec fn coalescing(channel: C::Coalesce, ctx: C::V) -> (Self::CoalesceFuture, C::V) {
        (Coalesce(StreamFuture::of(channel)), ctx)
    }

    fn coalesce(channel: C::Coalesce, ctx: &mut C) -> (r: Self::CoalesceFuture) {
        Coalesce::new(channel)
    }
}

impl<S: Serializer, C: Channels<isize, Bottom>> Protocol<C, Serde<S>> for isize {
    type Unravel = isize;

    type UnravelError = <C::Unravel as Channel<Bottom, isize, C>>::Error;

    type UnravelFuture = Forward<C::Unravel, Bottom, isize>;

    type Coalesce = Bottom;

    type CoalesceError = Unread;

    type CoalesceFuture = Coalesce<C::Coalesce, isize>;

    open spec fn unraveling(self, channel: C::Unravel, ctx: C::V) -> (Self::UnravelFuture, C::V) {
        (Forward::once(self, channel), ctx)
    }

    fn unravel(self, channel: C::Unravel, ctx: &mut C) -> (r: Self::UnravelFuture) {
        Forward::new(self, channel)
    }

    open spec fn coalescing(channel: C::Coalesce, ctx: C::V) -> (Self::CoalesceFuture, C::V) {
        (Coalesce(StreamFuture::of(channel)), ctx)
    }

    fn coalesce(channel: C::Coalesce, ctx: &mut C) -> (r: Self::CoalesceFuture) {
        Coalesce::new(channel)
    }
}

/// A text travels as one item of its own type, through whatever format
/// takes it.
impl<F: Format<String>, C: Channels<String, Bottom>> Protocol<C, F> for String {
    type Unravel = String;

    type UnravelError = <C::Unravel as Channel<Bottom, String, C>>::Error;

    type UnravelFuture = Forward<C::Unravel, Bottom, String>;

    type Coalesce = Bottom;

    type CoalesceError = Unread;

    type CoalesceFuture = Coalesce<C::Coalesce, String>;

    open spec fn unraveling(self, channel: C::Unravel, ctx: C::V) -> (Self::UnravelFuture, C::V) {
        (Forward::once(self, channel), ctx)
    }

    fn unravel(self, channel: C::Unravel, ctx: &mut C) -> (r: Self::UnravelFuture) {
        Forward::new(self, channel)
    }

    open spec fn coalescing(channel: C::Coalesce, ctx: C::V) -> (Self::CoalesceFuture, C::V) {
        (Coalesce(StreamFuture::of(channel)), ctx)
    }

    fn coalesce(channel: C::Coalesce, ctx: &mut C) -> (r: Self::CoalesceFuture) {
        Coalesce::new(channel)
    }
}

/// A span of time travels as one item of its own type, through whatever format
/// takes it.
impl<F: Format<Duration>, C: Channels<Duration, Bottom>> Protocol<C, F> for Duration {
    type Unravel = Duration;

    type UnravelError = <C::Unravel as Channel<Bottom, Duration, C>>::Error;

    type UnravelFuture = Forward<C::Unravel, Bottom, Duration>;

    type Coalesce = Bottom;

    type CoalesceError = Unread;

    type CoalesceFuture = Coalesce<C::Coalesce, Duration>;

    open spec fn unraveling(self, channel: C::Unravel, ctx: C::V) -> (Self::UnravelFuture, C::V) {
        (Forward::once(self, channel), ctx)
    }

    fn unravel(self, channel: C::Unravel, ctx: &mut C) -> (r: Self::UnravelFuture) {
        Forward::new(self, channel)
    }

    open spec fn coalescing(channel: C::Coalesce, ctx: C::V) -> (Self::CoalesceFuture, C::V) {
        (Coalesce(StreamFuture::of(channel)), ctx)
    }

    fn coalesce(channel: C::Coalesce, ctx: &mut C) -> (r: Self::CoalesceFuture) {
        Coalesce::new(channel)
    }
}

} // verus!
