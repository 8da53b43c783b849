use vstd::prelude::*;
use crate::vec3::Vec3;

verus! {

/// The number of vertices in the fixed cube mesh.
pub const CUBE_VERTEX_COUNT: u32 = 36;

/// Scalars per vertex: three position components and two texture
/// coordinates, interleaved.
pub const CUBE_VERTEX_STRIDE: u32 = 5;

/// The fixed cube mesh: 36 vertices (12 triangles), positions
/// normalized to `[-0.5, 0.5]` on each axis, interleaved with texture
/// coordinates, all in fixed point.
pub open spec fn cube_vertex_data() -> Seq<i64> {
    seq![
        -500_000i64, -500_000i64, -500_000i64, 0i64, 0i64,
        500_000i64, -500_000i64, -500_000i64, 1_000_000i64, 0i64,
        500_000i64, 500_000i64, -500_000i64, 1_000_000i64, 1_000_000i64,
        500_000i64, 500_000i64, -500_000i64, 1_000_000i64, 1_000_000i64,
        -500_000i64, 500_000i64, -500_000i64, 0i64, 1_000_000i64,
        -500_000i64, -500_000i64, -500_000i64, 0i64, 0i64,
        -500_000i64, -500_000i64, 500_000i64, 0i64, 0i64,
        500_000i64, -500_000i64, 500_000i64, 1_000_000i64, 0i64,
        500_000i64, 500_000i64, 500_000i64, 1_000_000i64, 1_000_000i64,
        500_000i64, 500_000i64, 500_000i64, 1_000_000i64, 1_000_000i64,
        -500_000i64, 500_000i64, 500_000i64, 0i64, 1_000_000i64,
        -500_000i64, -500_000i64, 500_000i64, 0i64, 0i64,
        -500_000i64, 500_000i64, 500_000i64, 1_000_000i64, 0i64,
        -500_000i64, 500_000i64, -500_000i64, 1_000_000i64, 1_000_000i64,
        -500_000i64, -500_000i64, -500_000i64, 0i64, 1_000_000i64,
        -500_000i64, -500_000i64, -500_000i64, 0i64, 1_000_000i64,
        -500_000i64, -500_000i64, 500_000i64, 0i64, 0i64,
        -500_000i64, 500_000i64, 500_000i64, 1_000_000i64, 0i64,
        500_000i64, 500_000i64, 500_000i64, 1_000_000i64, 0i64,
        500_000i64, 500_000i64, -500_000i64, 1_000_000i64, 1_000_000i64,
        500_000i64, -500_000i64, -500_000i64, 0i64, 1_000_000i64,
        500_000i64, -500_000i64, -500_000i64, 0i64, 1_000_000i64,
        500_000i64, -500_000i64, 500_000i64, 0i64, 0i64,
        500_000i64, 500_000i64, 500_000i64, 1_000_000i64, 0i64,
        -500_000i64, -500_000i64, -500_000i64, 0i64, 1_000_000i64,
        500_000i64, -500_000i64, -500_000i64, 1_000_000i64, 1_000_000i64,
        500_000i64, -500_000i64, 500_000i64, 1_000_000i64, 0i64,
        500_000i64, -500_000i64, 500_000i64, 1_000_000i64, 0i64,
        -500_000i64, -500_000i64, 500_000i64, 0i64, 0i64,
        -500_000i64, -500_000i64, -500_000i64, 0i64, 1_000_000i64,
        -500_000i64, 500_000i64, -500_000i64, 0i64, 1_000_000i64,
        500_000i64, 500_000i64, -500_000i64, 1_000_000i64, 1_000_000i64,
        500_000i64, 500_000i64, 500_000i64, 1_000_000i64, 0i64,
        500_000i64, 500_000i64, 500_000i64, 1_000_000i64, 0i64,
        -500_000i64, 500_000i64, 500_000i64, 0i64, 0i64,
        -500_000i64, 500_000i64, -500_000i64, 0i64, 1_000_000i64,
    ]
}

/// One renderable mesh instance: its interleaved vertex data and the
/// world-space anchor it is drawn at.
#[derive(Debug)]
pub struct Cube {
    pub vertices: Vec<i64>,
    pub anchor_position: Vec3,
}

impl Cube {
    /// A unit cube anchored at `anchor_position`. The vertex data is
    /// the fixed mesh pattern; only the anchor varies.
    pub fn new(anchor_position: Vec3) -> (c: Cube)
        ensures
            c.vertices@ == cube_vertex_data(),
            c.anchor_position == anchor_position,
    {
        let vertices: Vec<i64> = vec![
        -500_000, -500_000, -500_000, 0, 0,
        500_000, -500_000, -500_000, 1_000_000, 0,
        500_000, 500_000, -500_000, 1_000_000, 1_000_000,
        500_000, 500_000, -500_000, 1_000_000, 1_000_000,
        -500_000, 500_000, -500_000, 0, 1_000_000,
        -500_000, -500_000, -500_000, 0, 0,
        -500_000, -500_000, 500_000, 0, 0,
        500_000, -500_000, 500_000, 1_000_000, 0,
        500_000, 500_000, 500_000, 1_000_000, 1_000_000,
        500_000, 500_000, 500_000, 1_000_000, 1_000_000,
        -500_000, 500_000, 500_000, 0, 1_000_000,
        -500_000, -500_000, 500_000, 0, 0,
        -500_000, 500_000, 500_000, 1_000_000, 0,
        -500_000, 500_000, -500_000, 1_000_000, 1_000_000,
        -500_000, -500_000, -500_000, 0, 1_000_000,
        -500_000, -500_000, -500_000, 0, 1_000_000,
        -500_000, -500_000, 500_000, 0, 0,
        -500_000, 500_000, 500_000, 1_000_000, 0,
        500_000, 500_000, 500_000, 1_000_000, 0,
        500_000, 500_000, -500_000, 1_000_000, 1_000_000,
        500_000, -500_000, -500_000, 0, 1_000_000,
        500_000, -500_000, -500_000, 0, 1_000_000,
        500_000, -500_000, 500_000, 0, 0,
        500_000, 500_000, 500_000, 1_000_000, 0,
        -500_000, -500_000, -500_000, 0, 1_000_000,
        500_000, -500_000, -500_000, 1_000_000, 1_000_000,
        500_000, -500_000, 500_000, 1_000_000, 0,
        500_000, -500_000, 500_000, 1_000_000, 0,
        -500_000, -500_000, 500_000, 0, 0,
        -500_000, -500_000, -500_000, 0, 1_000_000,
        -500_000, 500_000, -500_000, 0, 1_000_000,
        500_000, 500_000, -500_000, 1_000_000, 1_000_000,
        500_000, 500_000, 500_000, 1_000_000, 0,
        500_000, 500_000, 500_000, 1_000_000, 0,
        -500_000, 500_000, 500_000, 0, 0,
        -500_000, 500_000, -500_000, 0, 1_000_000,
        ];
        proof {
            assert(vertices@ =~= cube_vertex_data());
        }
        Cube { vertices, anchor_position }
    }

    /// How many vertices the mesh holds: the interleaved data length
    /// divided by the per-vertex stride.
    pub fn vertex_count(&self) -> (n: usize)
        ensures
            n == self.vertices@.len() as int / CUBE_VERTEX_STRIDE as int,
    {
        self.vertices.len() / 5
    }
}

} // verus!
