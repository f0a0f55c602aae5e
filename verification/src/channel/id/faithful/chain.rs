//! What a tuple leaves on the wire, component by component.
use vstd::prelude::*;

use crate::channel::id::faithful::{Faithful, Trace};
use crate::channel::id::{ForkHandle, IdChannel};
use crate::format::{Format, Lossless};
use crate::tuple::{Cons, Nil};
use crate::{Bottom, Protocol};

verus! {

/// The trace of a tuple before any of its components is sent.
pub open spec fn nothing<F>(next: nat, format: F) -> Option<Trace<F>> {
    Some(Trace { items: Seq::empty(), next, format })
}

/// A trace extended by one component of a tuple: the trace of the
/// component on a sub-channel of its own, and then its handle on the
/// sub-channel `id` of the tuple.
pub open spec fn then<F: Format<ForkHandle, Representation = Vec<u8>>, A: Faithful<F>>(
    before: Option<Trace<F>>,
    component: A,
    id: u32,
) -> Option<Trace<F>> {
    match before {
        Some(before) => if before.next <= u32::MAX {
            match component.trace(before.next as u32, before.next + 1, before.format) {
                Some(own) => {
                    let encoded = <F as Format<ForkHandle>>::serialized(
                        own.format,
                        ForkHandle(before.next as u32),
                    );
                    match encoded.1 {
                        Ok(payload) => Some(
                            Trace {
                                items: before.items + own.items.push((id, payload)),
                                next: own.next,
                                format: encoded.0,
                            },
                        ),
                        Err(_) => None,
                    }
                },
                None => None,
            }
        } else {
            None
        },
        None => None,
    }
}

/// A trace extended by what a list leaves on the sub-channel `id`.
pub open spec fn followed<F, R: Faithful<F>>(before: Option<Trace<F>>, rest: R, id: u32) -> Option<
    Trace<F>,
> {
    match before {
        Some(before) => match rest.trace(id, before.next, before.format) {
            Some(own) => Some(
                Trace { items: before.items + own.items, next: own.next, format: own.format },
            ),
            None => None,
        },
        None => None,
    }
}

/// What a list leaves is what it leaves after nothing.
pub proof fn lemma_followed_start<F, R: Faithful<F>>(list: R, id: u32, next: nat, format: F)
    ensures
        followed(nothing(next, format), list, id) == list.trace(id, next, format),
{
    match list.trace(id, next, format) {
        Some(own) => {
            assert(Seq::<(u32, Seq<u8>)>::empty() + own.items =~= own.items);
        },
        None => {},
    }
}

/// A list leaves what its first component leaves, and then what the rest
/// leaves.
pub proof fn lemma_followed_cons<
    F: Lossless<ForkHandle> + Format<ForkHandle, Representation = Vec<u8>> + Format<
        Bottom,
        Representation = Vec<u8>,
    > + Format<<A as Protocol<IdChannel<F>, F>>::Unravel, Representation = Vec<u8>> + Format<
        <A as Protocol<IdChannel<F>, F>>::Coalesce,
        Representation = Vec<u8>,
    >,
    A: Faithful<F> + Protocol<IdChannel<F>, F>,
    R: Faithful<F> + Protocol<IdChannel<F>, F, Unravel = ForkHandle, Coalesce = Bottom>,
>(before: Option<Trace<F>>, list: Cons<A, R>, id: u32)
    ensures
        followed(before, list, id) == followed(then(before, list.0, id), list.1, id),
{
    match followed(then(before, list.0, id), list.1, id) {
        Some(whole) => {
            let start = before->0;
            let own = list.0.trace(start.next as u32, start.next + 1, start.format)->0;
            let encoded = <F as Format<ForkHandle>>::serialized(
                own.format,
                ForkHandle(start.next as u32),
            );
            let rest = list.1.trace(id, own.next, encoded.0)->0;
            let head = own.items.push((id, encoded.1->Ok_0));
            assert(start.items + (head + rest.items) =~= (start.items + head) + rest.items);
        },
        None => {},
    }
}

/// The empty list leaves nothing.
pub proof fn lemma_followed_nil<
    F: Format<ForkHandle, Representation = Vec<u8>> + Format<Bottom, Representation = Vec<u8>>,
>(before: Option<Trace<F>>, id: u32)
    requires
        before matches Some(trace) ==> trace.next <= 0x1_0000_0000,
    ensures
        followed(before, Nil, id) == before,
{
    match before {
        Some(trace) => {
            assert(trace.items + Seq::<(u32, Seq<u8>)>::empty() =~= trace.items);
        },
        None => {},
    }
}

/// A component leaves the identifiers within their range.
pub proof fn lemma_then_bound<F: Format<ForkHandle, Representation = Vec<u8>>, A: Faithful<F>>(
    before: Option<Trace<F>>,
    component: A,
    id: u32,
)
    ensures
        then(before, component, id) matches Some(trace) ==> trace.next <= 0x1_0000_0000,
{
    if then(before, component, id) is Some {
        let start = before->0;
        component.law_trace(start.next as u32, start.next + 1, start.format);
    }
}

} // verus!
