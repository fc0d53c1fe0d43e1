use vstd::prelude::*;

verus! {

/// A point of the ground plane, in thousandths of a world unit.
#[derive(Copy, Clone, Debug, PartialEq, Eq, Structural)]
pub struct WorldCoords {
    pub x: i32,
    pub y: i32,
}

impl WorldCoords {
    pub fn new(x: i32, y: i32) -> (r: WorldCoords)
        ensures
            r.x == x,
            r.y == y,
    {
        WorldCoords { x, y }
    }

    /// Squared distance between two points.
    pub open spec fn distance_sq_spec(self, other: WorldCoords) -> int {
        (self.x - other.x) * (self.x - other.x) + (self.y - other.y) * (self.y - other.y)
    }

    /// Squared distance between two points, exact in 128 bits.
    pub fn distance_sq(&self, other: &WorldCoords) -> (r: u128)
        ensures
            r == self.distance_sq_spec(*other),
    {
        let dx = self.x as i64 - other.x as i64;
        let dy = self.y as i64 - other.y as i64;
        assert(0 <= dx * dx <= 4_294_967_295 * 4_294_967_295) by (nonlinear_arith)
            requires
                -4_294_967_295 <= dx <= 4_294_967_295,
        ;
        assert(0 <= dy * dy <= 4_294_967_295 * 4_294_967_295) by (nonlinear_arith)
            requires
                -4_294_967_295 <= dy <= 4_294_967_295,
        ;
        let ax = dx as i128;
        let ay = dy as i128;
        (ax * ax + ay * ay) as u128
    }
}

/// Screen-space bounds of a sprite, in pixels: the bottom left corner has
/// the larger `y`, the top right the smaller.
#[derive(Copy, Clone, Debug, Default)]
pub struct SpriteBoundingRect {
    pub bottom_left: [i32; 2],
    pub top_right: [i32; 2],
}

impl SpriteBoundingRect {
    /// Grows this rectangle to also cover `other`.
    pub fn merge(&mut self, other: &SpriteBoundingRect)
        ensures
            final(self).bottom_left[0] == min_i32(old(self).bottom_left[0], other.bottom_left[0]),
            final(self).bottom_left[1] == max_i32(old(self).bottom_left[1], other.bottom_left[1]),
            final(self).top_right[0] == max_i32(old(self).top_right[0], other.top_right[0]),
            final(self).top_right[1] == min_i32(old(self).top_right[1], other.top_right[1]),
    {
        let bl0 = if other.bottom_left[0] < self.bottom_left[0] { other.bottom_left[0] } else { self.bottom_left[0] };
        let bl1 = if other.bottom_left[1] > self.bottom_left[1] { other.bottom_left[1] } else { self.bottom_left[1] };
        let tr0 = if other.top_right[0] > self.top_right[0] { other.top_right[0] } else { self.top_right[0] };
        let tr1 = if other.top_right[1] < self.top_right[1] { other.top_right[1] } else { self.top_right[1] };
        self.bottom_left = [bl0, bl1];
        self.top_right = [tr0, tr1];
    }
}

pub open spec fn min_i32(a: i32, b: i32) -> i32 {
    if a <= b { a } else { b }
}

pub open spec fn max_i32(a: i32, b: i32) -> i32 {
    if a >= b { a } else { b }
}

} // verus!
