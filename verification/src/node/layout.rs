use crate::util::{Extent, Offset};
use vstd::prelude::*;

verus! {

/// An axis-aligned rectangle in pixels: its top-left corner and its size.
#[derive(Debug, Clone, Copy)]
pub struct Rect {
    pub offset: Offset,
    pub extent: Extent,
}

/// The value of `w as i32`: `w` itself up to `i32::MAX`, else `w - 2³²`.
pub open spec fn u32_as_i32(w: u32) -> int {
    if w <= i32::MAX {
        w as int
    } else {
        w - 0x1_0000_0000
    }
}

/// The value of `x as u32`: `x` itself when it is not negative, else
/// `x + 2³²`.
pub open spec fn i32_as_u32(x: i32) -> int {
    if x >= 0 {
        x as int
    } else {
        x + 0x1_0000_0000
    }
}

/// The room left right of (or below) `start` inside a parent of size
/// `size`, computed as `size as i32 - start`.
pub open spec fn room(size: u32, start: i32) -> int {
    u32_as_i32(size) - start
}

/// The size a node takes along one axis: `max(room, 0)` when it fills the
/// parent, else its own size cut to the room (taken as `u32`).
pub open spec fn fitted(own: u32, size: u32, start: i32, fill: bool) -> int {
    let room = room(size, start);
    if fill {
        if room < 0 {
            0
        } else {
            room
        }
    } else {
        let limit = i32_as_u32(room as i32);
        if own > limit {
            limit
        } else {
            own as int
        }
    }
}

fn u32_to_i32(w: u32) -> (r: i32)
    ensures
        r == u32_as_i32(w),
{
    assert((w as i32) as int == (if w <= 0x7fff_ffffu32 { w as int } else { w as int - 0x1_0000_0000 })) by (bit_vector);
    w as i32
}

fn i32_to_u32(x: i32) -> (r: u32)
    ensures
        r == i32_as_u32(x),
{
    assert((x as u32) as int == (if x >= 0i32 { x as int } else { x as int + 0x1_0000_0000 })) by (bit_vector);
    x as u32
}

/// `x.clamp(min, max)` on `u32`, as std documents it (`min <= max`).
fn clamp_u32(x: u32, min: u32, max: u32) -> (r: u32)
    requires
        min <= max,
    ensures
        r == (if x < min { min } else if x > max { max } else { x }),
{
    if x < min {
        min
    } else if x > max {
        max
    } else {
        x
    }
}

/// `x.clamp(min, max)` on `i32`, as std documents it (`min <= max`).
fn clamp_i32(x: i32, min: i32, max: i32) -> (r: i32)
    requires
        min <= max,
    ensures
        r == (if x < min { min } else if x > max { max } else { x }),
{
    if x < min {
        min
    } else if x > max {
        max
    } else {
        x
    }
}

/// The rectangle a node with the bounding rectangle `bounds` takes inside
/// `parent`: it keeps its offset, and along each axis it either fills the
/// room left in the parent (`fill_width`, `fill_height`) or keeps its own
/// size, cut to that room.
pub fn node_rect(parent: &Rect, bounds: &Rect, fill_width: bool, fill_height: bool) -> (r: Rect)
    requires
        i32::MIN <= room(parent.extent.width, bounds.offset.x) <= i32::MAX,
        i32::MIN <= room(parent.extent.height, bounds.offset.y) <= i32::MAX,
    ensures
        r.offset == bounds.offset,
        r.extent.width == fitted(bounds.extent.width, parent.extent.width, bounds.offset.x, fill_width),
        r.extent.height == fitted(bounds.extent.height, parent.extent.height, bounds.offset.y, fill_height),
{
    let room_x: i32 = u32_to_i32(parent.extent.width) - bounds.offset.x;
    let room_y: i32 = u32_to_i32(parent.extent.height) - bounds.offset.y;
    let mut width = clamp_u32(bounds.extent.width, 0, i32_to_u32(room_x));
    let mut height = clamp_u32(bounds.extent.height, 0, i32_to_u32(room_y));
    if fill_width {
        width = i32_to_u32(clamp_i32(room_x, 0, i32::MAX));
    }
    if fill_height {
        height = i32_to_u32(clamp_i32(room_y, 0, i32::MAX));
    }
    Rect { offset: bounds.offset, extent: Extent { width, height } }
}

/// Along an axis where the node starts inside a parent no larger than
/// `i32::MAX`, the node ends inside the parent too, and when it fills the
/// room it ends exactly at the parent's edge.
pub proof fn lemma_fitted_stays_inside(own: u32, size: u32, start: i32, fill: bool)
    requires
        size <= i32::MAX,
        0 <= room(size, start) <= i32::MAX,
    ensures
        start + fitted(own, size, start, fill) <= size,
        0 <= fitted(own, size, start, fill),
        fill ==> start + fitted(own, size, start, fill) == size,
{
}

/// Along one axis of a parent no larger than `i32::MAX`: a node that fills
/// the parent takes the room left, `size - start`, or nothing when it starts
/// past the parent's end; where that room is not negative, a node that does
/// not fill the parent keeps its own size when that fits in the room, and is
/// cut to exactly the room when it does not.
pub proof fn lemma_fitted_keeps_or_cuts(own: u32, size: u32, start: i32)
    requires
        size <= i32::MAX,
        size - start <= i32::MAX,
    ensures
        size - start < 0 ==> fitted(own, size, start, true) == 0,
        0 <= size - start ==> fitted(own, size, start, true) == size - start,
        0 <= size - start && own <= size - start ==> fitted(own, size, start, false) == own,
        0 <= size - start && own > size - start ==> fitted(own, size, start, false) == size - start,
{
}

} // verus!
