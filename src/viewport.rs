use vstd::prelude::*;

use crate::context::{Call, Command, Context};
use crate::prelude::Bindable;

verus! {

/// A rectangle of the render target: offset `(x, y)`, size `(w, h)`.
#[derive(Clone, Copy, Debug, Default, PartialEq, Eq, Structural)]
pub struct Viewport {
    pub x: i32,
    pub y: i32,
    pub w: i32,
    pub h: i32,
}

impl Viewport {
    /// The rectangle at `(x, y)` of `w` by `h`.
    pub fn with_offset(x: i32, y: i32, w: i32, h: i32) -> (r: Self)
        ensures
            r == (Viewport { x, y, w, h }),
    {
        Self { x, y, w, h }
    }

    /// The rectangle at the origin of `w` by `h`.
    pub fn with_size(w: i32, h: i32) -> (r: Self)
        ensures
            r == (Viewport { x: 0, y: 0, w, h }),
    {
        Self { x: 0, y: 0, w, h }
    }

    /// The offset `(x, y)`.
    pub fn get_offset(&self) -> (r: (i32, i32))
        ensures
            r == (self.x, self.y),
    {
        (self.x, self.y)
    }

    /// Moves the rectangle to `(x, y)`.
    pub fn set_offset(&mut self, x: i32, y: i32)
        ensures
            *final(self) == (Viewport { x, y, w: old(self).w, h: old(self).h }),
    {
        self.x = x;
        self.y = y;
    }

    /// The size `(w, h)`.
    pub fn get_size(&self) -> (r: (i32, i32))
        ensures
            r == (self.w, self.h),
    {
        (self.w, self.h)
    }

    /// Resizes the rectangle to `w` by `h`.
    pub fn set_size(&mut self, w: i32, h: i32)
        ensures
            *final(self) == (Viewport { x: old(self).x, y: old(self).y, w, h }),
    {
        self.w = w;
        self.h = h;
    }

    /// Whether the rectangle covers any area: `w * h` is positive.
    pub open spec fn has_area(&self) -> bool {
        self.w * self.h > 0
    }
}

impl Bindable for Viewport {
    /// Sets the viewport when the rectangle has an area; otherwise nothing.
    open spec fn bind_calls(&self) -> Seq<Call> {
        if self.has_area() {
            seq![Call::Viewport { x: self.x, y: self.y, width: self.w, height: self.h }]
        } else {
            seq![]
        }
    }

    open spec fn bind_at_calls(&self, slot: u32) -> Seq<Call> {
        self.bind_calls()
    }

    open spec fn unbind_calls(&self) -> Seq<Call> {
        seq![]
    }

    open spec fn unbind_at_calls(&self, slot: u32) -> Seq<Call> {
        seq![]
    }

    fn bind(&self, ctx: &mut Context) {
        proof {
            let (w, h) = (self.w as int, self.h as int);
            assert(w * h > 0 <==> (w > 0 && h > 0) || (w < 0 && h < 0)) by (nonlinear_arith);
        }
        // The product itself may not fit in an `i32`; its sign is that of
        // the two factors.
        if (self.w > 0 && self.h > 0) || (self.w < 0 && self.h < 0) {
            ctx.issue(Command::Viewport { x: self.x, y: self.y, width: self.w, height: self.h });
        }
    }

    fn bind_at(&self, ctx: &mut Context, slot: u32) {
        self.bind(ctx);
    }

    fn unbind(&self, ctx: &mut Context) {
    }

    fn unbind_at(&self, ctx: &mut Context, slot: u32) {
    }
}

} // verus!
