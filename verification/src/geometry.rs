//! Rectangles, their corners, and the vertices made from them.

use vstd::prelude::*;
use crate::scalar::{negated, signed, with_sign, ZERO};

verus! {

/// An opaque colour: three channels, each the encoding of a number between
/// zero and one. Channels are never computed with, only handed on.
#[derive(Clone, Copy, Debug, PartialEq, Eq)]
pub struct Color {
    pub r: u32,
    pub g: u32,
    pub b: u32,
}

/// Two encoded coordinates.
#[derive(Clone, Copy, Debug, PartialEq, Eq)]
pub struct Vec2 {
    pub x: u32,
    pub y: u32,
}

/// Three encoded coordinates.
#[derive(Clone, Copy, Debug, PartialEq, Eq)]
pub struct Vec3 {
    pub x: u32,
    pub y: u32,
    pub z: u32,
}

/// An axis-aligned rectangle: its centre, its half-extent along x and y, and
/// its colour.
#[derive(Clone, Copy, Debug, PartialEq, Eq)]
pub struct Rect {
    pub position: Vec3,
    pub size: Vec2,
    pub color: Color,
}

/// One record of the vertex buffer.
#[derive(Clone, Copy, Debug, PartialEq, Eq)]
pub struct Vertex {
    pub position: Vec3,
    pub color: Color,
}

/// Whether corner `k` lies on the side of growing x. Corners are numbered
/// from the upper right one, clockwise as seen on screen: upper right, lower
/// right, lower left, upper left.
pub open spec fn corner_is_right(k: int) -> bool {
    k == 0 || k == 1
}

/// Whether corner `k` lies on the side of growing y.
pub open spec fn corner_is_up(k: int) -> bool {
    k == 0 || k == 3
}

impl Rect {
    /// What is added to the centre to reach corner `k`: the half-extent with
    /// the corner's signs, and positive zero along z.
    pub open spec fn corner_offset(self, k: int) -> Vec3 {
        Vec3 {
            x: signed(self.size.x, corner_is_right(k)),
            y: signed(self.size.y, corner_is_up(k)),
            z: ZERO,
        }
    }

    /// Whether `v` is this rectangle's vertex at corner `k`, where `displace`
    /// adds an offset to a position: `v` sits where `displace` puts the
    /// centre moved by the corner's offset, and has the rectangle's colour.
    pub open spec fn has_vertex<F: Fn(Vec3, Vec3) -> Vec3>(
        self,
        k: int,
        displace: F,
        v: Vertex,
    ) -> bool {
        &&& call_ensures(displace, (self.position, self.corner_offset(k)), v.position)
        &&& v.color == self.color
    }

    /// Whether `displace` may be asked for each of this rectangle's corners.
    pub open spec fn is_displaceable<F: Fn(Vec3, Vec3) -> Vec3>(self, displace: F) -> bool {
        forall|k: int|
            0 <= k < 4 ==> call_requires(displace, (self.position, #[trigger] self.corner_offset(k)))
    }

    /// The offsets of the four corners, in corner order.
    pub fn corner_offsets(&self) -> (r: [Vec3; 4])
        ensures
            forall|k: int| 0 <= k < 4 ==> r[k] == self.corner_offset(k),
            r[0] == (Vec3 { x: self.size.x, y: self.size.y, z: ZERO }),
            r[1] == (Vec3 { x: self.size.x, y: negated(self.size.y), z: ZERO }),
            r[2] == (Vec3 { x: negated(self.size.x), y: negated(self.size.y), z: ZERO }),
            r[3] == (Vec3 { x: negated(self.size.x), y: self.size.y, z: ZERO }),
    {
        let right: u32 = self.size.x;
        let left: u32 = with_sign(self.size.x, false);
        let up: u32 = self.size.y;
        let down: u32 = with_sign(self.size.y, false);
        [
            Vec3 { x: right, y: up, z: ZERO },
            Vec3 { x: right, y: down, z: ZERO },
            Vec3 { x: left, y: down, z: ZERO },
            Vec3 { x: left, y: up, z: ZERO },
        ]
    }

    /// The four vertices of the rectangle, in corner order. Each position is
    /// what `displace` returns for the centre and the corner's offset.
    pub fn quad<F: Fn(Vec3, Vec3) -> Vec3>(&self, displace: &F) -> (r: [Vertex; 4])
        requires
            self.is_displaceable(*displace),
        ensures
            forall|k: int| 0 <= k < 4 ==> self.has_vertex(k, *displace, #[trigger] r[k]),
    {
        let offsets: [Vec3; 4] = self.corner_offsets();
        assert(offsets[0] == self.corner_offset(0));
        assert(offsets[1] == self.corner_offset(1));
        assert(offsets[2] == self.corner_offset(2));
        assert(offsets[3] == self.corner_offset(3));
        [
            Vertex { position: displace(self.position, offsets[0]), color: self.color },
            Vertex { position: displace(self.position, offsets[1]), color: self.color },
            Vertex { position: displace(self.position, offsets[2]), color: self.color },
            Vertex { position: displace(self.position, offsets[3]), color: self.color },
        ]
    }
}

} // verus!
