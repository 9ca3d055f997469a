use vstd::prelude::*;

verus! {

/// A position in pixels, which may lie left of or above the origin.
#[derive(Clone, Copy, Debug)]
pub struct Offset {
    pub x: i32,
    pub y: i32,
}

} // verus!
