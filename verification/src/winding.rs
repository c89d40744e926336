//! Which side of a rectangle's triangles faces the viewer.
//!
//! Winding is a matter of the signs of the corners' offsets alone, so it is
//! judged here in exact arithmetic, on points with integer coordinates.

use vstd::prelude::*;
use crate::batch::index_corner;
use crate::geometry::{corner_is_right, corner_is_up};
use crate::pipeline::{Face, FrontFace, PipelineSettings, TextureFormat};

verus! {

/// A point of the plane that the viewer looks at, x growing to the right and
/// y growing upwards.
pub struct Point {
    pub x: int,
    pub y: int,
}

/// Corner `k` of the rectangle around `centre` with half-extent `half`.
pub open spec fn corner_point(centre: Point, half: Point, k: int) -> Point {
    Point {
        x: if corner_is_right(k) {
            centre.x + half.x
        } else {
            centre.x - half.x
        },
        y: if corner_is_up(k) {
            centre.y + half.y
        } else {
            centre.y - half.y
        },
    }
}

/// Twice the signed area of the triangle `a`, `b`, `c`: positive where the
/// three run counter-clockwise on screen, negative where they run clockwise,
/// zero where they lie on a line.
pub open spec fn doubled_area(a: Point, b: Point, c: Point) -> int {
    (b.x - a.x) * (c.y - a.y) - (c.x - a.x) * (b.y - a.y)
}

/// Whether a triangle of the given doubled area shows its front, where
/// `front_face` is the winding of a front.
pub open spec fn shows_front(front_face: FrontFace, doubled_area: int) -> bool {
    match front_face {
        FrontFace::Ccw => doubled_area > 0,
        FrontFace::Cw => doubled_area < 0,
    }
}

/// Whether a triangle of the given doubled area is drawn: it covers some
/// area, and the side it shows is not the culled one.
pub open spec fn is_drawn(front_face: FrontFace, cull_mode: Option<Face>, doubled_area: int) -> bool {
    &&& doubled_area != 0
    &&& match cull_mode {
        None => true,
        Some(Face::Back) => shows_front(front_face, doubled_area),
        Some(Face::Front) => !shows_front(front_face, doubled_area),
    }
}

/// The corners of triangle `t` of a rectangle, in index order.
pub open spec fn triangle(centre: Point, half: Point, t: int) -> (Point, Point, Point) {
    (
        corner_point(centre, half, index_corner(3 * t)),
        corner_point(centre, half, index_corner(3 * t + 1)),
        corner_point(centre, half, index_corner(3 * t + 2)),
    )
}

/// Both triangles of a rectangle with a positive half-extent run clockwise,
/// each over half of the rectangle's area, and so the pipeline draws them:
/// its front is the clockwise side and it culls the back.
pub proof fn lemma_triangles_face_viewer(centre: Point, half: Point, t: int, format: TextureFormat)
    requires
        half.x > 0,
        half.y > 0,
        0 <= t < 2,
    ensures
        ({
            let (a, b, c) = triangle(centre, half, t);
            let pipeline = PipelineSettings::standard(format);
            &&& doubled_area(a, b, c) == -4 * (half.x * half.y)
            &&& shows_front(pipeline.front_face, doubled_area(a, b, c))
            &&& is_drawn(pipeline.front_face, pipeline.cull_mode, doubled_area(a, b, c))
        }),
{
    let (a, b, c) = triangle(centre, half, t);
    assert(half.x * half.y > 0) by (nonlinear_arith)
        requires
            half.x > 0,
            half.y > 0,
    ;
    if t == 0 {
        assert(doubled_area(a, b, c) == -4 * (half.x * half.y)) by (nonlinear_arith)
            requires
                a.x == centre.x + half.x,
                a.y == centre.y + half.y,
                b.x == centre.x + half.x,
                b.y == centre.y - half.y,
                c.x == centre.x - half.x,
                c.y == centre.y - half.y,
                doubled_area(a, b, c) == (b.x - a.x) * (c.y - a.y) - (c.x - a.x) * (b.y - a.y),
        ;
    } else {
        assert(doubled_area(a, b, c) == -4 * (half.x * half.y)) by (nonlinear_arith)
            requires
                a.x == centre.x - half.x,
                a.y == centre.y - half.y,
                b.x == centre.x - half.x,
                b.y == centre.y + half.y,
                c.x == centre.x + half.x,
                c.y == centre.y + half.y,
                doubled_area(a, b, c) == (b.x - a.x) * (c.y - a.y) - (c.x - a.x) * (b.y - a.y),
        ;
    }
}

/// A triangle taken in the opposite order shows its other side: where the
/// pipeline draws the one, it culls the other.
pub proof fn lemma_reversed_triangle_is_culled(a: Point, b: Point, c: Point, format: TextureFormat)
    ensures
        doubled_area(a, c, b) == -doubled_area(a, b, c),
        ({
            let pipeline = PipelineSettings::standard(format);
            is_drawn(pipeline.front_face, pipeline.cull_mode, doubled_area(a, b, c)) ==> !is_drawn(
                pipeline.front_face,
                pipeline.cull_mode,
                doubled_area(a, c, b),
            )
        }),
{
    assert(doubled_area(a, c, b) == -doubled_area(a, b, c)) by (nonlinear_arith)
        requires
            doubled_area(a, b, c) == (b.x - a.x) * (c.y - a.y) - (c.x - a.x) * (b.y - a.y),
            doubled_area(a, c, b) == (c.x - a.x) * (b.y - a.y) - (b.x - a.x) * (c.y - a.y),
    ;
}

} // verus!
