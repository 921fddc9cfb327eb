//! Rectangular screen regions.

use vstd::prelude::*;

verus! {

/// A rectangular region of the screen: a position and a size, in character
/// cells. An area with a zero width or height is empty and renders nothing.
#[derive(Clone, Copy, Debug, PartialEq, Eq, Structural)]
pub struct Area {
    pub left: u16,
    pub top: u16,
    pub width: u16,
    pub height: u16,
}

/// The sum of two `u16` values, saturating at `u16::MAX`.
pub open spec fn sat_add16(a: u16, b: u16) -> u16 {
    if a + b > 0xffff {
        0xffff as u16
    } else {
        (a + b) as u16
    }
}

/// `a - b` on `u16` values, saturating at zero.
pub open spec fn sat_sub16(a: u16, b: u16) -> u16 {
    if a >= b {
        (a - b) as u16
    } else {
        0 as u16
    }
}

impl Area {
    /// True when the area covers no cell at all.
    pub open spec fn is_empty(self) -> bool {
        self.width == 0 || self.height == 0
    }

    pub fn new(left: u16, top: u16, width: u16, height: u16) -> (a: Area)
        ensures
            a == (Area { left, top, width, height }),
    {
        Area { left, top, width, height }
    }

    /// The screen-sized area for reported terminal dimensions: anchored at
    /// the origin, as wide and tall as reported, or the conventional 80 by
    /// 24 cells when the terminal could not be asked.
    pub fn from_dims(dims: Option<(u16, u16)>) -> (a: Area)
        ensures
            a == (match dims {
                Some((width, height)) => Area { left: 0, top: 0, width, height },
                None => Area { left: 0, top: 0, width: 80, height: 24 },
            }),
    {
        match dims {
            Some((width, height)) => Area { left: 0, top: 0, width, height },
            None => Area { left: 0, top: 0, width: 80, height: 24 },
        }
    }

    /// An area covering the whole screen, as the terminal reports its
    /// dimensions; a conventional 80 by 24 area when it cannot be asked.
    /// The dimensions depend on the environment; `from_dims` says exactly
    /// what is built from whatever answer came back.
    pub fn full_screen() -> (a: Area)
        ensures
            a.left == 0,
            a.top == 0,
    {
        Area::from_dims(crate::output::terminal_size())
    }

    /// Shrink the area symmetrically: move the origin right by `h` and down
    /// by `v`, and take `2 * h` off the width and `2 * v` off the height.
    /// Over-padding saturates at a zero-sized area instead of underflowing.
    pub fn pad(&mut self, h: u16, v: u16)
        ensures
            final(self).left == sat_add16(old(self).left, h),
            final(self).top == sat_add16(old(self).top, v),
            final(self).width == sat_sub16(sat_sub16(old(self).width, h), h),
            final(self).height == sat_sub16(sat_sub16(old(self).height, v), v),
    {
        self.left = sat_add_u16(self.left, h);
        self.top = sat_add_u16(self.top, v);
        self.width = sat_sub_u16(sat_sub_u16(self.width, h), h);
        self.height = sat_sub_u16(sat_sub_u16(self.height, v), v);
    }
}

fn sat_add_u16(a: u16, b: u16) -> (c: u16)
    ensures
        c == sat_add16(a, b),
{
    let s: u32 = a as u32 + b as u32;
    if s > 0xffff {
        0xffff
    } else {
        s as u16
    }
}

fn sat_sub_u16(a: u16, b: u16) -> (c: u16)
    ensures
        c == sat_sub16(a, b),
{
    if a >= b {
        a - b
    } else {
        0
    }
}

} // verus!
