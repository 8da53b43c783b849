use vstd::prelude::*;
use crate::cube::{Cube, cube_vertex_data};
use crate::vec3::Vec3;

verus! {

/// The scene: the ordered collection of drawables it exclusively owns.
/// The order is the draw order.
#[derive(Debug)]
pub struct World {
    pub objects: Vec<Cube>,
}

impl World {
    /// A world holding exactly one default drawable: a unit cube
    /// anchored at the origin.
    pub fn new() -> (w: World)
        ensures
            w.objects@.len() == 1,
            w.objects@[0].vertices@ == cube_vertex_data(),
            w.objects@[0].anchor_position.x == 0,
            w.objects@[0].anchor_position.y == 0,
            w.objects@[0].anchor_position.z == 0,
    {
        let cube = Cube::new(Vec3::new(0, 0, 0));
        let mut objects: Vec<Cube> = Vec::new();
        objects.push(cube);
        World { objects }
    }
}

} // verus!
