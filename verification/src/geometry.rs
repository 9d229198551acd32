//! Integer 2-D geometry: positions, sizes and pointer deltas, and the
//! clamped minimum-size arithmetic used when a window is resized.

use vstd::prelude::*;

verus! {

/// Pixels of decoration added by a frame on every side of its client window.
pub const DECORATION_PADDING: u16 = 10;

/// Fixed floor for either dimension of a resized client window: a resize may
/// never produce a degenerate (invisible) window.
pub const MIN_CLIENT_DIM: u32 = 10;

/// A position in root-window coordinates. The wire protocol carries 16-bit
/// coordinates, so the fields are 16-bit.
#[derive(Clone, Copy, PartialEq, Eq, Structural, Debug)]
pub struct Pos {
    pub x: i16,
    pub y: i16,
}

/// A width/height pair. The wire protocol carries 16-bit dimensions.
#[derive(Clone, Copy, PartialEq, Eq, Structural, Debug)]
pub struct Size {
    pub w: u16,
    pub h: u16,
}

/// A signed offset, normally the difference of two pointer positions.
#[derive(Clone, Copy, PartialEq, Eq, Structural, Debug)]
pub struct Delta {
    pub x: i32,
    pub y: i32,
}

impl Delta {
    /// Holds of every delta that arises as the difference of two 16-bit
    /// positions.
    pub open spec fn bounded(self) -> bool {
        &&& -0xffff <= self.x <= 0xffff
        &&& -0xffff <= self.y <= 0xffff
    }
}

/// The offset that moves `anchor` to `p`.
pub open spec fn spec_delta(p: Pos, anchor: Pos) -> Delta {
    Delta { x: (p.x - anchor.x) as i32, y: (p.y - anchor.y) as i32 }
}

/// Computes the pointer delta between the current pointer position and the
/// anchor recorded at gesture start.
pub fn pointer_delta(p: Pos, anchor: Pos) -> (d: Delta)
    ensures
        d == spec_delta(p, anchor),
        d.bounded(),
{
    Delta { x: p.x as i32 - anchor.x as i32, y: p.y as i32 - anchor.y as i32 }
}

/// One dimension after a resize: the drag-origin dimension plus the requested
/// delta, floored at `MIN_CLIENT_DIM`.
pub open spec fn clamped_dim(origin: u16, delta: i32) -> int {
    if origin + delta < MIN_CLIENT_DIM {
        MIN_CLIENT_DIM as int
    } else {
        origin + delta
    }
}

/// Computes `clamped_dim` for any delta; the result always fits in `u32`.
pub fn resized_dim(origin: u16, delta: i32) -> (r: u32)
    ensures
        r == clamped_dim(origin, delta),
{
    let wide: i64 = origin as i64 + delta as i64;
    if wide < MIN_CLIENT_DIM as i64 {
        MIN_CLIENT_DIM
    } else {
        wide as u32
    }
}

/// However negative the requested delta, a resize never shrinks either
/// dimension below the fixed floor.
pub proof fn lemma_resize_floor(origin: Size, delta: Delta)
    ensures
        clamped_dim(origin.w, delta.x) >= MIN_CLIENT_DIM,
        clamped_dim(origin.h, delta.y) >= MIN_CLIENT_DIM,
{
}

} // verus!
