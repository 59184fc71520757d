use vstd::prelude::*;

verus! {

/// A rectangle: position and size
#[derive(Clone, Copy, Debug, PartialEq, Eq, Structural)]
pub struct Rectangle {
    /// x-axis
    pub x: i32,
    /// y-axis
    pub y: i32,
    /// Width
    pub w: u32,
    /// Height
    pub h: u32,
}

impl From<(i32, i32, u32, u32)> for Rectangle {
    fn from(t: (i32, i32, u32, u32)) -> (r: Self) {
        Self { x: t.0, y: t.1, w: t.2, h: t.3 }
    }
}

impl vstd::std_specs::convert::FromSpecImpl<(i32, i32, u32, u32)> for Rectangle {
    open spec fn obeys_from_spec() -> bool {
        true
    }

    open spec fn from_spec(t: (i32, i32, u32, u32)) -> Rectangle {
        Rectangle { x: t.0, y: t.1, w: t.2, h: t.3 }
    }
}

impl Default for Rectangle {
    fn default() -> (r: Self)
        ensures
            r == (Rectangle { x: 0, y: 0, w: 0, h: 0 }),
    {
        Rectangle::from((0, 0, 0, 0))
    }
}

} // verus!
