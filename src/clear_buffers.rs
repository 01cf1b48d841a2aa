use vstd::prelude::*;

use crate::context::{Call, Command, Context};
use crate::gl;
use crate::prelude::Bindable;

verus! {

/// Which buffers binding clears, and to what.
///
/// Colour components and the depth are IEEE-754 bit patterns.
#[derive(Clone, Copy, Debug, Default, PartialEq, Eq)]
pub struct ClearBuffers {
    pub color: Option<[u32; 4]>,
    pub depth: Option<u32>,
    pub stencil: Option<i32>,
}

impl ClearBuffers {
    /// Clears nothing.
    pub fn new() -> (r: Self)
        ensures
            r == (ClearBuffers { color: None, depth: None, stencil: None }),
    {
        Self { color: None, depth: None, stencil: None }
    }

    /// Clears colour to `color`, or not at all.
    pub fn with_color(self, color: Option<[u32; 4]>) -> (r: Self)
        ensures
            r == (ClearBuffers { color, ..self }),
    {
        Self { color, ..self }
    }

    /// Clears depth to `depth`, or not at all.
    pub fn with_depth(self, depth: Option<u32>) -> (r: Self)
        ensures
            r == (ClearBuffers { depth, ..self }),
    {
        Self { depth, ..self }
    }

    /// Clears stencil to `stencil`, or not at all.
    pub fn with_stencil(self, stencil: Option<i32>) -> (r: Self)
        ensures
            r == (ClearBuffers { stencil, ..self }),
    {
        Self { stencil, ..self }
    }

    /// Clears colour to `color`.
    pub fn set_color(&mut self, color: [u32; 4])
        ensures
            *final(self) == (ClearBuffers { color: Some(color), ..*old(self) }),
    {
        self.color = Some(color);
    }

    /// Clears depth to `depth`.
    pub fn set_depth(&mut self, depth: u32)
        ensures
            *final(self) == (ClearBuffers { depth: Some(depth), ..*old(self) }),
    {
        self.depth = Some(depth);
    }

    /// Clears stencil to `stencil`.
    pub fn set_stencil(&mut self, stencil: i32)
        ensures
            *final(self) == (ClearBuffers { stencil: Some(stencil), ..*old(self) }),
    {
        self.stencil = Some(stencil);
    }

    /// The buffers to clear: one bit for each value that is set.
    pub open spec fn mask(&self) -> u32 {
        (if self.color is Some {
            gl::COLOR_BUFFER_BIT
        } else {
            0
        }) | (if self.depth is Some {
            gl::DEPTH_BUFFER_BIT
        } else {
            0
        }) | (if self.stencil is Some {
            gl::STENCIL_BUFFER_BIT
        } else {
            0
        })
    }
}

impl Bindable for ClearBuffers {
    /// Sets each clear value that is given, then clears those buffers at
    /// once; with no value given, nothing.
    open spec fn bind_calls(&self) -> Seq<Call> {
        let color = match self.color {
            Some(c) => seq![
                Call::ClearColor { red: c@[0], green: c@[1], blue: c@[2], alpha: c@[3] },
            ],
            None => seq![],
        };
        let depth = match self.depth {
            Some(d) => seq![Call::ClearDepthf { depth: d }],
            None => seq![],
        };
        let stencil = match self.stencil {
            Some(s) => seq![Call::ClearStencil { stencil: s }],
            None => seq![],
        };
        let clear = if self.mask() != 0 {
            seq![Call::Clear { mask: self.mask() }]
        } else {
            seq![]
        };
        color + depth + stencil + clear
    }

    open spec fn bind_at_calls(&self, slot: u32) -> Seq<Call> {
        self.bind_calls()
    }

    open spec fn unbind_calls(&self) -> Seq<Call> {
        seq![]
    }

    open spec fn unbind_at_calls(&self, slot: u32) -> Seq<Call> {
        seq![]
    }

    fn bind(&self, ctx: &mut Context) {
        let ghost start = ctx@;
        let mask: u32 = (if self.color.is_some() {
            gl::COLOR_BUFFER_BIT
        } else {
            0
        }) | (if self.depth.is_some() {
            gl::DEPTH_BUFFER_BIT
        } else {
            0
        }) | (if self.stencil.is_some() {
            gl::STENCIL_BUFFER_BIT
        } else {
            0
        });
        match self.color {
            Some(c) => ctx.issue(
                Command::ClearColor { red: c[0], green: c[1], blue: c[2], alpha: c[3] },
            ),
            None => {},
        }
        match self.depth {
            Some(d) => ctx.issue(Command::ClearDepthf { depth: d }),
            None => {},
        }
        match self.stencil {
            Some(s) => ctx.issue(Command::ClearStencil { stencil: s }),
            None => {},
        }
        if mask != 0 {
            ctx.issue(Command::Clear { mask });
        }
        assert(ctx@ =~= start + self.bind_calls());
    }

    fn bind_at(&self, ctx: &mut Context, slot: u32) {
        self.bind(ctx);
    }

    fn unbind(&self, ctx: &mut Context) {
    }

    fn unbind_at(&self, ctx: &mut Context, slot: u32) {
    }
}

} // verus!
