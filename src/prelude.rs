use vstd::prelude::*;

use crate::context::{Call, Context};

verus! {

/// Something that can be made current in a graphics context and later
/// released from it.
///
/// Each operation is described by the calls it issues: `bind_calls` for
/// `bind`, and so on. The resources of this library follow one convention:
/// one that has nothing to do for an operation issues no call, one without
/// slots binds at a slot as `bind` does and releases from a slot as
/// `unbind` does.
pub trait Bindable {
    /// The calls that `bind` issues.
    spec fn bind_calls(&self) -> Seq<Call>;

    /// The calls that `bind_at(slot)` issues.
    spec fn bind_at_calls(&self, slot: u32) -> Seq<Call>;

    /// The calls that `unbind` issues.
    spec fn unbind_calls(&self) -> Seq<Call>;

    /// The calls that `unbind_at(slot)` issues.
    spec fn unbind_at_calls(&self, slot: u32) -> Seq<Call>;

    /// Binds to the context.
    fn bind(&self, ctx: &mut Context)
        ensures
            final(ctx)@ == old(ctx)@ + self.bind_calls(),
    ;

    /// Binds to the context at a numbered slot.
    fn bind_at(&self, ctx: &mut Context, slot: u32)
        ensures
            final(ctx)@ == old(ctx)@ + self.bind_at_calls(slot),
    ;

    /// Releases from the context.
    fn unbind(&self, ctx: &mut Context)
        ensures
            final(ctx)@ == old(ctx)@ + self.unbind_calls(),
    ;

    /// Releases from the context at a numbered slot.
    fn unbind_at(&self, ctx: &mut Context, slot: u32)
        ensures
            final(ctx)@ == old(ctx)@ + self.unbind_at_calls(slot),
    ;
}

} // verus!
