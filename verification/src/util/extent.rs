use vstd::prelude::*;

verus! {

/// A width and a height in pixels.
#[derive(Debug, Clone, Copy)]
pub struct Extent {
    pub width: u32,
    pub height: u32,
}

} // verus!
