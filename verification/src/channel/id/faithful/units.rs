//! The types that carry no information are carried faithfully: nothing is
//! sent, and nothing is read.
use vstd::prelude::*;

use core::marker::PhantomData;

use crate::channel::id::faithful::{Faithful, Trace};
use crate::channel::id::Model;
use crate::format::Format;
use crate::Bottom;

verus! {

impl<F: Format<Bottom, Representation = Vec<u8>>> Faithful<F> for () {
    /// Nothing is sent.
    open spec fn trace(self, id: u32, next: nat, format: F) -> Option<Trace<F>> {
        if next <= 0x1_0000_0000 {
            Some(Trace { items: Seq::empty(), next, format })
        } else {
            None
        }
    }

    proof fn law_trace(self, id: u32, next: nat, format: F) {
    }

    proof fn law_unravel(self, ctx: Model<F>, id: u32) {
        let trace = self.trace(id, ctx.next, ctx.format)->0;
        assert(ctx.sent(trace).known =~= ctx.known);
        assert(ctx.sent(trace).held =~= ctx.held);
        assert(ctx.sent(trace).parked =~= ctx.parked);
        assert(ctx.sent(trace).outbound =~= ctx.outbound);
    }

    proof fn law_resolve(self, ctx: Model<F>, id: u32) {
    }

    proof fn law_cancel(self, ctx: Model<F>, id: u32) {
    }

    proof fn law_idle(id: u32, ctx: Model<F>, other: Model<F>) {
    }

    proof fn law_coalesce(self, id: u32, next: nat, format: F, ctx: Model<F>) {
        let done = ctx.rebuilt(id, next, next);
        assert(done.known =~= ctx.known);
        assert(done.held =~= ctx.held);
        assert(done.parked =~= ctx.parked);
        assert(done.sinks =~= ctx.sinks);
    }
}

impl<T, F: Format<Bottom, Representation = Vec<u8>>> Faithful<F> for PhantomData<T> {
    /// Nothing is sent.
    open spec fn trace(self, id: u32, next: nat, format: F) -> Option<Trace<F>> {
        if next <= 0x1_0000_0000 {
            Some(Trace { items: Seq::empty(), next, format })
        } else {
            None
        }
    }

    proof fn law_trace(self, id: u32, next: nat, format: F) {
    }

    proof fn law_unravel(self, ctx: Model<F>, id: u32) {
        let trace = self.trace(id, ctx.next, ctx.format)->0;
        assert(ctx.sent(trace).known =~= ctx.known);
        assert(ctx.sent(trace).held =~= ctx.held);
        assert(ctx.sent(trace).parked =~= ctx.parked);
        assert(ctx.sent(trace).outbound =~= ctx.outbound);
    }

    proof fn law_resolve(self, ctx: Model<F>, id: u32) {
    }

    proof fn law_cancel(self, ctx: Model<F>, id: u32) {
    }

    proof fn law_idle(id: u32, ctx: Model<F>, other: Model<F>) {
    }

    proof fn law_coalesce(self, id: u32, next: nat, format: F, ctx: Model<F>) {
        let done = ctx.rebuilt(id, next, next);
        assert(done.known =~= ctx.known);
        assert(done.held =~= ctx.held);
        assert(done.parked =~= ctx.parked);
        assert(done.sinks =~= ctx.sinks);
    }
}

impl<T, F: Format<Bottom, Representation = Vec<u8>>> Faithful<F> for [T; 0] {
    /// Nothing is sent.
    open spec fn trace(self, id: u32, next: nat, format: F) -> Option<Trace<F>> {
        if next <= 0x1_0000_0000 {
            Some(Trace { items: Seq::empty(), next, format })
        } else {
            None
        }
    }

    proof fn law_trace(self, id: u32, next: nat, format: F) {
    }

    proof fn law_unravel(self, ctx: Model<F>, id: u32) {
        let trace = self.trace(id, ctx.next, ctx.format)->0;
        assert(ctx.sent(trace).known =~= ctx.known);
        assert(ctx.sent(trace).held =~= ctx.held);
        assert(ctx.sent(trace).parked =~= ctx.parked);
        assert(ctx.sent(trace).outbound =~= ctx.outbound);
    }

    proof fn law_resolve(self, ctx: Model<F>, id: u32) {
    }

    proof fn law_cancel(self, ctx: Model<F>, id: u32) {
    }

    proof fn law_idle(id: u32, ctx: Model<F>, other: Model<F>) {
    }

    proof fn law_coalesce(self, id: u32, next: nat, format: F, ctx: Model<F>) {
        let empty: [T; 0] = [];
        assert(self =~= empty);
        let done = ctx.rebuilt(id, next, next);
        assert(done.known =~= ctx.known);
        assert(done.held =~= ctx.held);
        assert(done.parked =~= ctx.parked);
        assert(done.sinks =~= ctx.sinks);
    }
}

} // verus!
