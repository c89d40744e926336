//! Turning a list of rectangles into the vertices and indices of one draw.

use vstd::prelude::*;
use crate::error::RenderError;
use crate::geometry::{Rect, Vec3, Vertex};

verus! {

/// The number of vertices that a rectangle is drawn with.
pub const VERTICES_PER_RECT: usize = 4;

/// The number of indices that a rectangle is drawn with: two triangles.
pub const INDICES_PER_RECT: usize = 6;

/// The most rectangles whose vertices 16-bit indices can tell apart.
pub const MAX_RECTS: usize = 16384;

/// The vertices and indices of one frame.
#[derive(Debug, PartialEq, Eq)]
pub struct Batch {
    pub vertices: Vec<Vertex>,
    pub indices: Vec<u16>,
}

/// The corner that the `j`-th of a rectangle's six indices names. The first
/// triangle runs over corners 0, 1, 2 and the second over corners 2, 3, 0:
/// they share the diagonal from corner 0 to corner 2.
pub open spec fn index_corner(j: int) -> int {
    if j == 0 || j == 5 {
        0
    } else if j == 1 {
        1
    } else if j == 2 || j == 3 {
        2
    } else {
        3
    }
}

/// The value of the `j`-th index of a batch: rectangle `j / 6` owns the
/// vertices from `4 * (j / 6)` on.
pub open spec fn quad_index(j: int) -> int {
    4 * (j / 6) + index_corner(j % 6)
}

/// The indices of a batch of `n` rectangles.
pub open spec fn quad_indices(n: nat) -> Seq<u16> {
    Seq::new(6 * n, |j: int| quad_index(j) as u16)
}

/// Whether `vertices` and `indices` are the geometry of `rects`, where
/// `displace` adds an offset to a position: four vertices for each rectangle,
/// in the rectangles' order and in corner order, and the indices of that many
/// rectangles.
pub open spec fn is_batch_of<F: Fn(Vec3, Vec3) -> Vec3>(
    rects: Seq<Rect>,
    displace: F,
    vertices: Seq<Vertex>,
    indices: Seq<u16>,
) -> bool {
    &&& vertices.len() == 4 * rects.len()
    &&& indices == quad_indices(rects.len())
    &&& forall|v: int|
        0 <= v < vertices.len() ==> rects[v / 4].has_vertex(v % 4, displace, #[trigger] vertices[v])
}

/// Why a batch of `rects` rectangles is turned away by buffers made for
/// `capacity` of them, if it is.
pub open spec fn rejection(rects: usize, capacity: usize) -> Option<RenderError> {
    if rects > capacity {
        Some(RenderError::CapacityExceeded { rects, capacity })
    } else if rects > MAX_RECTS {
        Some(RenderError::IndexRangeExceeded { rects })
    } else {
        None
    }
}

/// What an upload of `data` to the start of `buffer` leaves in the buffer:
/// the data, then what the buffer held behind it.
pub open spec fn overwritten<T>(buffer: Seq<T>, data: Seq<T>) -> Seq<T>
    recommends
        data.len() <= buffer.len(),
{
    data + buffer.subrange(data.len() as int, buffer.len() as int)
}

/// The vertices that an indexed draw of the first `count` indices fetches, in
/// the order in which it fetches them.
pub open spec fn drawn(vertex_buffer: Seq<Vertex>, index_buffer: Seq<u16>, count: nat) -> Seq<
    Vertex,
> {
    Seq::new(count, |j: int| vertex_buffer[index_buffer[j] as int])
}

/// A batch of `n` rectangles has `6 * n` indices, and each of them names one
/// of the batch's `4 * n` vertices: the one at corner `index_corner(j % 6)` of
/// rectangle `j / 6`.
pub proof fn lemma_indices_in_range(n: nat)
    requires
        n <= MAX_RECTS,
    ensures
        quad_indices(n).len() == 6 * n,
        forall|j: int|
            0 <= j < 6 * n ==> {
                &&& 0 <= #[trigger] quad_indices(n)[j] < 4 * n
                &&& quad_indices(n)[j] == quad_index(j)
            },
{
    assert forall|j: int| 0 <= j < 6 * n implies {
        &&& 0 <= #[trigger] quad_indices(n)[j] < 4 * n
        &&& quad_indices(n)[j] == quad_index(j)
    } by {
        assert(0 <= j / 6 < n);
        assert(0 <= index_corner(j % 6) <= 3);
        assert(0 <= quad_index(j) < 4 * n);
    }
}

/// The indices of one more rectangle are the indices so far, followed by the
/// six of the new rectangle.
pub proof fn lemma_indices_step(n: nat)
    requires
        n < MAX_RECTS,
    ensures
        quad_indices(n + 1) == quad_indices(n) + seq![
            (4 * n) as u16,
            (4 * n + 1) as u16,
            (4 * n + 2) as u16,
            (4 * n + 2) as u16,
            (4 * n + 3) as u16,
            (4 * n) as u16,
        ],
{
    let tail = seq![
        (4 * n) as u16,
        (4 * n + 1) as u16,
        (4 * n + 2) as u16,
        (4 * n + 2) as u16,
        (4 * n + 3) as u16,
        (4 * n) as u16,
    ];
    let joined = quad_indices(n) + tail;
    assert(joined.len() == 6 * (n + 1));
    assert forall|j: int| 0 <= j < 6 * (n + 1) implies quad_indices(n + 1)[j] == joined[j] by {
        if j < 6 * n {
            assert(joined[j] == quad_indices(n)[j]);
        } else {
            assert(j / 6 == n);
            assert(j % 6 == j - 6 * n);
            assert(joined[j] == tail[j - 6 * n]);
        }
    }
    assert(quad_indices(n + 1) =~= joined);
}

/// Uploading a batch to the start of the buffers replaces what is drawn:
/// whatever the buffers held, a draw of the batch's indices fetches the
/// batch's own vertices and none of an earlier frame.
pub proof fn lemma_upload_replaces_drawn(
    vertex_buffer: Seq<Vertex>,
    index_buffer: Seq<u16>,
    vertices: Seq<Vertex>,
    rects: nat,
)
    requires
        rects <= MAX_RECTS,
        vertices.len() == 4 * rects,
        vertices.len() <= vertex_buffer.len(),
        6 * rects <= index_buffer.len(),
    ensures
        drawn(
            overwritten(vertex_buffer, vertices),
            overwritten(index_buffer, quad_indices(rects)),
            6 * rects,
        ) == drawn(vertices, quad_indices(rects), 6 * rects),
{
    let indices = quad_indices(rects);
    let after = drawn(
        overwritten(vertex_buffer, vertices),
        overwritten(index_buffer, indices),
        6 * rects,
    );
    let fresh = drawn(vertices, indices, 6 * rects);
    lemma_indices_in_range(rects);
    assert forall|j: int| 0 <= j < 6 * rects implies after[j] == fresh[j] by {
        assert(overwritten(index_buffer, indices)[j] == indices[j]);
        assert(0 <= indices[j] < vertices.len());
    }
    assert(after =~= fresh);
}

/// Tells why a batch of `rects` rectangles does not fit buffers made for
/// `capacity` of them, or that it does.
pub fn check_capacity(rects: usize, capacity: usize) -> (r: Result<(), RenderError>)
    ensures
        match rejection(rects, capacity) {
            Some(e) => r == Err::<(), RenderError>(e),
            None => r is Ok,
        },
{
    if rects > capacity {
        Err(RenderError::CapacityExceeded { rects, capacity })
    } else if rects > MAX_RECTS {
        Err(RenderError::IndexRangeExceeded { rects })
    } else {
        Ok(())
    }
}

/// Builds the geometry of `rects` for buffers made for `capacity`
/// rectangles. `displace` adds an offset to a position; each vertex sits
/// where it puts the rectangle's centre moved by the corner's offset.
///
/// The batch is refused, and nothing is built, where there are more
/// rectangles than the buffers hold or than 16-bit indices can address.
pub fn batch<F: Fn(Vec3, Vec3) -> Vec3>(rects: &[Rect], capacity: usize, displace: F) -> (r:
    Result<Batch, RenderError>)
    requires
        forall|m: int| 0 <= m < rects.len() ==> (#[trigger] rects[m]).is_displaceable(displace),
    ensures
        match rejection(rects.len(), capacity) {
            Some(e) => r == Err::<Batch, RenderError>(e),
            None => r matches Ok(b) && {
                &&& is_batch_of(rects@, displace, b.vertices@, b.indices@)
                &&& b.vertices.len() == 4 * rects.len()
                &&& b.indices.len() == 6 * rects.len()
                &&& forall|j: int| 0 <= j < b.indices.len() ==> 0 <= #[trigger] b.indices[j] < 4 * rects.len()
            },
        },
{
    let n: usize = rects.len();
    match check_capacity(n, capacity) {
        Err(e) => {
            return Err(e);
        },
        Ok(_) => {},
    }
    let mut vertices: Vec<Vertex> = Vec::with_capacity(n * VERTICES_PER_RECT);
    let mut indices: Vec<u16> = Vec::with_capacity(n * INDICES_PER_RECT);
    let mut i: usize = 0;
    while i < n
        invariant
            n == rects.len(),
            n <= MAX_RECTS,
            i <= n,
            forall|m: int| 0 <= m < rects.len() ==> (#[trigger] rects[m]).is_displaceable(displace),
            vertices.len() == 4 * i,
            indices@ == quad_indices(i as nat),
            forall|v: int|
                0 <= v < 4 * i ==> rects@[v / 4].has_vertex(v % 4, displace, #[trigger] vertices@[v]),
        decreases n - i,
    {
        let base: u16 = (i * VERTICES_PER_RECT) as u16;
        let quad: [Vertex; 4] = rects[i].quad(&displace);
        let ghost before = vertices@;

        vertices.push(quad[0]);
        vertices.push(quad[1]);
        vertices.push(quad[2]);
        vertices.push(quad[3]);

        // First triangle
        indices.push(base);
        indices.push(base + 1);
        indices.push(base + 2);

        // Second triangle
        indices.push(base + 2);
        indices.push(base + 3);
        indices.push(base);

        proof {
            lemma_indices_step(i as nat);
            assert forall|v: int| 0 <= v < 4 * (i + 1) implies rects@[v / 4].has_vertex(
                v % 4,
                displace,
                #[trigger] vertices@[v],
            ) by {
                if v < 4 * i {
                    assert(vertices@[v] == before[v]);
                } else {
                    assert(v / 4 == i);
                    assert(vertices@[v] == quad[v - 4 * i]);
                }
            }
        }
        i += 1;
    }
    proof {
        lemma_indices_in_range(n as nat);
    }
    Ok(Batch { vertices, indices })
}

} // verus!
