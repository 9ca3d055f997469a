pub mod path_mesh;
pub mod scene;

use crate::util::Extent;
use vstd::prelude::*;

verus! {


/// The number of samples per pixel used for anti-aliasing.
#[derive(Copy, Clone)]
pub enum MSAA {
    X1,
    X4,
}

impl From<MSAA> for u32 {
    fn from(msaa: MSAA) -> (r: u32)
        ensures
            r == (match msaa {
                MSAA::X1 => 1u32,
                MSAA::X4 => 4u32,
            }),
    {
        match msaa {
            MSAA::X1 => 1,
            MSAA::X4 => 4,
        }
    }
}

impl vstd::std_specs::convert::FromSpecImpl<MSAA> for u32 {
    open spec fn obeys_from_spec() -> bool {
        true
    }

    open spec fn from_spec(msaa: MSAA) -> u32 {
        match msaa {
            MSAA::X1 => 1u32,
            MSAA::X4 => 4u32,
        }
    }
}

/// The size a render target is configured with when its surface is resized
/// to `size`: each side at least one pixel, since an empty target cannot be
/// configured.
pub fn target_size(size: Extent) -> (r: Extent)
    ensures
        r.width == (if size.width < 1 { 1 } else { size.width }),
        r.height == (if size.height < 1 { 1 } else { size.height }),
{
    let width = if size.width < 1 { 1 } else { size.width };
    let height = if size.height < 1 { 1 } else { size.height };
    Extent { width, height }
}

/// The width that a path texture is made with again when its surface is
/// resized to `needed` along that axis: the textures only grow, so when the
/// surface has outgrown the texture's `current` width it is twice the
/// surface's size, and otherwise the texture is kept (`None`).
pub fn grown_texture_width(current: u32, needed: u32) -> (r: Option<u32>)
    requires
        needed > current ==> 2 * needed <= u32::MAX,
    ensures
        r == (if needed > current { Some((2 * needed) as u32) } else { None }),
{
    if needed > current {
        Some(needed * 2)
    } else {
        None
    }
}

/// The graphics backend that renders through wgpu.
#[derive(Debug)]
pub struct WGpu;

} // verus!
