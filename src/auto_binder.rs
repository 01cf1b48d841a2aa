use vstd::prelude::*;

use crate::context::{Call, Context};
use crate::prelude::Bindable;

verus! {

/// The calls of binding each entry of `list`, first to last.
pub open spec fn bind_sequence<'a, B: Bindable>(list: Seq<&'a B>) -> Seq<Call> {
    list.map_values(|b: &'a B| b.bind_calls()).flatten()
}

/// The calls of releasing each entry of `list`, last to first.
pub open spec fn unbind_sequence<'a, B: Bindable>(list: Seq<&'a B>) -> Seq<Call> {
    list.reverse().map_values(|b: &'a B| b.unbind_calls()).flatten()
}

/// Binds a list of resources for as long as it lives, and releases them in
/// the reverse order when it is released.
#[derive(Clone, Default)]
pub struct AutoBinder<'a, B: Bindable> {
    list: Vec<&'a B>,
}

impl<'a, B: Bindable> AutoBinder<'a, B> {
    /// The resources held, in the order they were bound.
    pub closed spec fn list(&self) -> Seq<&'a B> {
        self.list@
    }

    /// Binds every resource of `list`, first to last.
    pub fn new(ctx: &mut Context, list: Vec<&'a B>) -> (r: Self)
        ensures
            final(ctx)@ == old(ctx)@ + bind_sequence(list@),
            r.list() == list@,
    {
        let ghost start = ctx@;
        let n = list.len();
        let mut i: usize = 0;
        while i < n
            invariant
                n == list@.len(),
                i <= n,
                ctx@ == start + bind_sequence(list@.subrange(0, i as int)),
            decreases n - i,
        {
            list[i].bind(ctx);
            proof {
                let f = |b: &'a B| b.bind_calls();
                let done = list@.subrange(0, i as int);
                assert(list@.subrange(0, i + 1) =~= done.push(list@[i as int]));
                assert(done.push(list@[i as int]).map_values(f) =~= done.map_values(f).push(
                    f(list@[i as int]),
                ));
                done.map_values(f).lemma_flatten_push(f(list@[i as int]));
                assert(ctx@ =~= start + bind_sequence(list@.subrange(0, i + 1)));
            }
            i = i + 1;
        }
        assert(list@.subrange(0, n as int) =~= list@);
        AutoBinder { list }
    }

    /// Releases every resource held, last to first.
    pub fn release(self, ctx: &mut Context)
        ensures
            final(ctx)@ == old(ctx)@ + unbind_sequence(self.list()),
    {
        let ghost start = ctx@;
        let n = self.list.len();
        let mut i: usize = n;
        while i > 0
            invariant
                n == self.list@.len(),
                i <= n,
                ctx@ == start + unbind_sequence(self.list@.subrange(i as int, n as int)),
            decreases i,
        {
            self.list[i - 1].unbind(ctx);
            proof {
                let g = |b: &'a B| b.unbind_calls();
                let done = self.list@.subrange(i as int, n as int);
                let next = self.list@[i - 1];
                assert(self.list@.subrange(i - 1, n as int).reverse() =~= done.reverse().push(
                    next,
                ));
                assert(done.reverse().push(next).map_values(g) =~= done.reverse().map_values(
                    g,
                ).push(g(next)));
                done.reverse().map_values(g).lemma_flatten_push(g(next));
                assert(ctx@ =~= start + unbind_sequence(self.list@.subrange(i - 1, n as int)));
            }
            i = i - 1;
        }
        assert(self.list@.subrange(0, n as int) =~= self.list@);
    }
}


/// Binds one resource at a fixed numbered slot, so that it can stand in a
/// list beside resources without slots.
pub struct SlotBinder<'a, B: Bindable> {
    bindable: &'a B,
    slot: u32,
}

impl<'a, B: Bindable> SlotBinder<'a, B> {
    /// The wrapped resource.
    pub closed spec fn inner(&self) -> &'a B {
        self.bindable
    }

    /// The slot that `bind` targets.
    pub closed spec fn slot(&self) -> u32 {
        self.slot
    }

    /// Wraps `bindable`, to be bound at `slot`.
    pub fn new(bindable: &'a B, slot: u32) -> (r: Self)
        ensures
            r.inner() == bindable,
            r.slot() == slot,
    {
        Self { bindable, slot }
    }
}

impl<'a, B: Bindable> Bindable for SlotBinder<'a, B> {
    /// Binds the wrapped resource at the stored slot.
    open spec fn bind_calls(&self) -> Seq<Call> {
        self.inner().bind_at_calls(self.slot())
    }

    /// An explicit slot takes precedence over the stored one.
    open spec fn bind_at_calls(&self, slot: u32) -> Seq<Call> {
        self.inner().bind_at_calls(slot)
    }

    /// Releasing does not depend on the slot.
    open spec fn unbind_calls(&self) -> Seq<Call> {
        self.inner().unbind_calls()
    }

    open spec fn unbind_at_calls(&self, slot: u32) -> Seq<Call> {
        self.unbind_calls()
    }

    fn bind(&self, ctx: &mut Context) {
        self.bind_at(ctx, self.slot);
    }

    fn bind_at(&self, ctx: &mut Context, slot: u32) {
        self.bindable.bind_at(ctx, slot);
    }

    fn unbind(&self, ctx: &mut Context) {
        self.bindable.unbind(ctx);
    }

    fn unbind_at(&self, ctx: &mut Context, slot: u32) {
        self.unbind(ctx);
    }
}

/// Binding a slot binder without a slot binds the wrapped resource at the
/// slot the binder was made with; releasing it releases the resource.
pub proof fn slot_binder_binds_at_its_slot<'a, B: Bindable>(binder: SlotBinder<'a, B>)
    ensures
        binder.bind_calls() == binder.inner().bind_at_calls(binder.slot()),
        binder.unbind_calls() == binder.inner().unbind_calls(),
{
}

/// A guard binds the first resource of its list first, and releases the
/// last resource of its list first: binding is the first entry's calls
/// followed by binding the rest, releasing is the last entry's calls
/// followed by releasing the rest.
pub proof fn guard_nests<'a, B: Bindable>(list: Seq<&'a B>)
    ensures
        list.len() == 0 ==> bind_sequence(list) == Seq::<Call>::empty() && unbind_sequence(list)
            == Seq::<Call>::empty(),
        list.len() > 0 ==> bind_sequence(list) == list.first().bind_calls() + bind_sequence(
            list.drop_first(),
        ),
        list.len() > 0 ==> unbind_sequence(list) == list.last().unbind_calls() + unbind_sequence(
            list.drop_last(),
        ),
{
    let f = |b: &'a B| b.bind_calls();
    let g = |b: &'a B| b.unbind_calls();
    if list.len() > 0 {
        assert(list.map_values(f).drop_first() =~= list.drop_first().map_values(f));
        assert(list.reverse().map_values(g).drop_first() =~= list.drop_last().reverse().map_values(
            g,
        ));
    }
}

} // verus!
