//! The built-in meshes: the five-vertex pentagon fan and the colored cube.
//!
//! Coordinates are fixed-point millionths (see `fixed`).  Each builder
//! returns a vertex/index pair that satisfies the geometry-set invariant:
//! every index refers into the vertex list.

use vstd::prelude::*;

use crate::geometry::Vertex;

verus! {

/// The pentagon: five vertices fanned into three triangles (nine
/// indices), all in one plane, all the same purple.
pub fn pentagon() -> (r: (Vec<Vertex>, Vec<u16>))
    ensures
        r.0@.len() == 5,
        r.1@.len() == 9,
        forall|i: int| 0 <= i < r.1@.len() ==> #[trigger] r.1@[i] < r.0@.len(),
{
    let vertices: Vec<Vertex> = vec![
        Vertex { position: [-86824, 492404, 0], color: [500000, 0, 500000] },
        Vertex { position: [-495134, 69586, 0], color: [500000, 0, 500000] },
        Vertex { position: [-219185, -449397, 0], color: [500000, 0, 500000] },
        Vertex { position: [359670, -347329, 0], color: [500000, 0, 500000] },
        Vertex { position: [441474, 234736, 0], color: [500000, 0, 500000] },
    ];
    let indices: Vec<u16> = vec![0, 1, 4, 1, 2, 4, 2, 3, 4];
    proof {
        assert forall|i: int| 0 <= i < indices@.len() implies #[trigger] indices@[i]
            < vertices@.len() by {
            assert(indices@.len() == 9);
            assert(vertices@.len() == 5);
        }
    }
    (vertices, indices)
}

/// The cube: four vertices per face, six faces, each face two triangles
/// (thirty-six indices), with red/green/blue corner colors.
pub fn cube() -> (r: (Vec<Vertex>, Vec<u16>))
    ensures
        r.0@.len() == 24,
        r.1@.len() == 36,
        forall|i: int| 0 <= i < r.1@.len() ==> #[trigger] r.1@[i] < r.0@.len(),
{
    let s: i64 = 1_000_000;
    let n: i64 = -1_000_000;
    let red: [i64; 3] = [1_000_000, 0, 0];
    let green: [i64; 3] = [0, 1_000_000, 0];
    let blue: [i64; 3] = [0, 0, 1_000_000];
    let vertices: Vec<Vertex> = vec![
        // front face
        Vertex { position: [n, n, s], color: red },
        Vertex { position: [s, n, s], color: green },
        Vertex { position: [s, s, s], color: blue },
        Vertex { position: [n, s, s], color: red },
        // back face
        Vertex { position: [n, n, n], color: red },
        Vertex { position: [n, s, n], color: green },
        Vertex { position: [s, s, n], color: blue },
        Vertex { position: [s, n, n], color: red },
        // top face
        Vertex { position: [n, s, n], color: red },
        Vertex { position: [n, s, s], color: green },
        Vertex { position: [s, s, s], color: blue },
        Vertex { position: [s, s, n], color: red },
        // bottom face
        Vertex { position: [n, n, n], color: red },
        Vertex { position: [s, n, n], color: green },
        Vertex { position: [s, n, s], color: blue },
        Vertex { position: [n, n, s], color: red },
        // right face
        Vertex { position: [s, n, n], color: red },
        Vertex { position: [s, s, n], color: green },
        Vertex { position: [s, s, s], color: blue },
        Vertex { position: [s, n, s], color: red },
        // left face
        Vertex { position: [n, n, n], color: red },
        Vertex { position: [n, n, s], color: green },
        Vertex { position: [n, s, s], color: blue },
        Vertex { position: [n, s, n], color: red },
    ];
    let indices: Vec<u16> = vec![
        0, 1, 2, 0, 2, 3,  // front
        4, 5, 6, 4, 6, 7,  // back
        8, 9, 10, 8, 10, 11,  // top
        12, 13, 14, 12, 14, 15,  // bottom
        16, 17, 18, 16, 18, 19,  // right
        20, 21, 22, 20, 22, 23,  // left
    ];
    proof {
        assert forall|i: int| 0 <= i < indices@.len() implies #[trigger] indices@[i]
            < vertices@.len() by {
            assert(indices@.len() == 36);
            assert(vertices@.len() == 24);
        }
    }
    (vertices, indices)
}

} // verus!
