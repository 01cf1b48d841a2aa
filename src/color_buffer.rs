use vstd::prelude::*;

use crate::context::{Call, Command, Context};
use crate::gl;
use crate::prelude::Bindable;

verus! {

/// The colour buffer: its clear colour and its blending.
///
/// Colour components are IEEE-754 bit patterns.
#[derive(Clone, Copy, Debug, Default, PartialEq, Eq)]
pub struct ColorBuffer {
    pub clear_color: Option<[u32; 4]>,
}

impl ColorBuffer {
    /// A colour buffer without a clear colour; binding it does nothing.
    pub fn new() -> (r: Self)
        ensures
            r.clear_color is None,
    {
        ColorBuffer { clear_color: None }
    }

    /// Sets the colour that binding clears to.
    pub fn set_clear_color(&mut self, color: [u32; 4])
        ensures
            final(self).clear_color == Some(color),
    {
        self.clear_color = Some(color);
    }

    /// Blends by source alpha: `src * a + dst * (1 - a)`.
    pub fn set_default_blend_func(&self, ctx: &mut Context)
        ensures
            final(ctx)@ == old(ctx)@.push(
                Call::BlendFunc { sfactor: gl::SRC_ALPHA, dfactor: gl::ONE_MINUS_SRC_ALPHA },
            ),
    {
        ctx.issue(Command::BlendFunc { sfactor: gl::SRC_ALPHA, dfactor: gl::ONE_MINUS_SRC_ALPHA });
    }

    /// Clears the colour buffer to the current clear colour.
    pub fn clear(&self, ctx: &mut Context)
        ensures
            final(ctx)@ == old(ctx)@.push(Call::Clear { mask: gl::COLOR_BUFFER_BIT }),
    {
        ctx.issue(Command::Clear { mask: gl::COLOR_BUFFER_BIT });
    }

    /// Turns blending on.
    pub fn enable_blend(&self, ctx: &mut Context)
        ensures
            final(ctx)@ == old(ctx)@.push(Call::Enable { cap: gl::BLEND }),
    {
        ctx.issue(Command::Enable { cap: gl::BLEND });
    }

    /// Turns blending off.
    pub fn disable_blend(&self, ctx: &mut Context)
        ensures
            final(ctx)@ == old(ctx)@.push(Call::Disable { cap: gl::BLEND }),
    {
        ctx.issue(Command::Disable { cap: gl::BLEND });
    }
}

impl Bindable for ColorBuffer {
    /// With a clear colour set, sets it and clears the colour buffer;
    /// otherwise nothing.
    open spec fn bind_calls(&self) -> Seq<Call> {
        match self.clear_color {
            Some(c) => seq![
                Call::ClearColor { red: c@[0], green: c@[1], blue: c@[2], alpha: c@[3] },
                Call::Clear { mask: gl::COLOR_BUFFER_BIT },
            ],
            None => seq![],
        }
    }

    open spec fn bind_at_calls(&self, slot: u32) -> Seq<Call> {
        self.bind_calls()
    }

    open spec fn unbind_calls(&self) -> Seq<Call> {
        seq![]
    }

    open spec fn unbind_at_calls(&self, slot: u32) -> Seq<Call> {
        seq![]
    }

    fn bind(&self, ctx: &mut Context) {
        match self.clear_color {
            Some(c) => {
                ctx.issue(Command::ClearColor { red: c[0], green: c[1], blue: c[2], alpha: c[3] });
                ctx.issue(Command::Clear { mask: gl::COLOR_BUFFER_BIT });
                assert(ctx@ =~= old(ctx)@ + self.bind_calls());
            },
            None => {},
        }
    }

    fn bind_at(&self, ctx: &mut Context, slot: u32) {
        self.bind(ctx);
    }

    fn unbind(&self, ctx: &mut Context) {
    }

    fn unbind_at(&self, ctx: &mut Context, slot: u32) {
    }
}

} // verus!
