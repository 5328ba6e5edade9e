//! The fixed full-screen quad: two triangles, six vertices, covering the
//! whole [-1, 1] x [-1, 1] clip-space square at z = 0.
//!
//! Every coordinate of the quad is -1, 0 or 1, so integer components
//! represent the geometry exactly; the host converts each component to
//! the device's float vertex layout when it uploads the buffer.

use vstd::prelude::*;

verus! {

/// How many vertices the quad rasterization submits (two triangles).
pub const QUAD_VERTEX_COUNT: u32 = 6;

/// Components per vertex in the upload layout ("position" is 3 floats).
pub const QUAD_COMPONENTS_PER_VERTEX: u32 = 3;

/// One vertex of the quad, in clip-space units.
#[derive(Clone, Copy, PartialEq, Eq, Structural, Debug)]
pub struct Vertex {
    pub x: i32,
    pub y: i32,
    pub z: i32,
}

/// The quad's vertex list, in upload order: two triangles that together
/// cover the full clip-space square.
pub open spec fn quad_seq() -> Seq<Vertex> {
    seq![
        Vertex { x: -1i32, y: -1i32, z: 0 },
        Vertex { x: -1i32, y: 1, z: 0 },
        Vertex { x: 1, y: 1, z: 0 },
        Vertex { x: 1, y: 1, z: 0 },
        Vertex { x: 1, y: -1i32, z: 0 },
        Vertex { x: -1i32, y: -1i32, z: 0 },
    ]
}

/// True of a vertex that sits on an extreme corner of the clip-space
/// square, on the z = 0 plane.
pub open spec fn on_corner(v: Vertex) -> bool {
    &&& (v.x == -1 || v.x == 1)
    &&& (v.y == -1 || v.y == 1)
    &&& v.z == 0
}

/// The quad's vertex data, built in upload order.
pub fn quad_vertices() -> (v: Vec<Vertex>)
    ensures
        v@ == quad_seq(),
{
    let mut v: Vec<Vertex> = Vec::new();
    v.push(Vertex { x: -1, y: -1, z: 0 });
    v.push(Vertex { x: -1, y: 1, z: 0 });
    v.push(Vertex { x: 1, y: 1, z: 0 });
    v.push(Vertex { x: 1, y: 1, z: 0 });
    v.push(Vertex { x: 1, y: -1, z: 0 });
    v.push(Vertex { x: -1, y: -1, z: 0 });
    proof {
        assert(v@ =~= quad_seq());
    }
    v
}

/// The rasterized quad always covers exactly the full target, whatever
/// the surface dimensions (which the geometry does not depend on): the
/// vertex list has two triangles' worth of vertices, every vertex lies
/// on a corner of [-1, 1] x [-1, 1], and all four extreme corners are
/// among the vertices.
pub proof fn lemma_quad_covers_target()
    ensures
        quad_seq().len() == QUAD_VERTEX_COUNT,
        forall|i: int| 0 <= i < quad_seq().len() ==> on_corner(#[trigger] quad_seq()[i]),
        quad_seq().contains(Vertex { x: -1i32, y: -1i32, z: 0 }),
        quad_seq().contains(Vertex { x: -1i32, y: 1, z: 0 }),
        quad_seq().contains(Vertex { x: 1, y: 1, z: 0 }),
        quad_seq().contains(Vertex { x: 1, y: -1i32, z: 0 }),
{
    assert(quad_seq()[0] == Vertex { x: -1i32, y: -1i32, z: 0 });
    assert(quad_seq()[1] == Vertex { x: -1i32, y: 1, z: 0 });
    assert(quad_seq()[2] == Vertex { x: 1, y: 1, z: 0 });
    assert(quad_seq()[4] == Vertex { x: 1, y: -1i32, z: 0 });
}

} // verus!
