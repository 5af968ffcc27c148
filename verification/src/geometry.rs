//! Cube geometry: 24 vertices (four per face, so each face has its own
//! normal) and 36 indices (two triangles per face).
//!
//! Coordinates are the integers -1 and 1; the surrounding program converts
//! them to the floating-point vertex format of the GPU.

use vstd::prelude::*;
use vstd::arithmetic::div_mod::{lemma_div_is_ordered, lemma_div_pos_is_pos, lemma_fundamental_div_mod, lemma_fundamental_div_mod_converse};

verus! {

/// Number of indices of the cube mesh: 6 faces x 2 triangles x 3 indices.
pub const CUBE_INDEX_COUNT: u32 = 36;

/// Number of vertices of the cube mesh: 6 faces x 4 corners.
pub const CUBE_VERTEX_COUNT: u32 = 24;

/// An integer vector; cube positions and normals only need -1, 0 and 1.
#[derive(Clone, Copy, Debug, PartialEq, Eq, Structural)]
pub struct Vec3i {
    pub x: i32,
    pub y: i32,
    pub z: i32,
}

/// One mesh vertex: a corner position and the outward normal of its face.
#[derive(Clone, Copy, Debug, PartialEq, Eq, Structural)]
pub struct Vertex {
    pub position: Vec3i,
    pub normal: Vec3i,
}

/// Shorthand for a vertex literal.
pub open spec fn vtx(px: i32, py: i32, pz: i32, nx: i32, ny: i32, nz: i32) -> Vertex {
    Vertex { position: Vec3i { x: px, y: py, z: pz }, normal: Vec3i { x: nx, y: ny, z: nz } }
}

/// The outward normal of face `f`, in the face order +X, -X, +Y, -Y, +Z, -Z.
pub open spec fn face_normal(f: int) -> Vec3i {
    if f == 0 {
        Vec3i { x: 1, y: 0, z: 0 }
    } else if f == 1 {
        Vec3i { x: -1i32, y: 0, z: 0 }
    } else if f == 2 {
        Vec3i { x: 0, y: 1, z: 0 }
    } else if f == 3 {
        Vec3i { x: 0, y: -1i32, z: 0 }
    } else if f == 4 {
        Vec3i { x: 0, y: 0, z: 1 }
    } else {
        Vec3i { x: 0, y: 0, z: -1i32 }
    }
}

/// The 24 cube vertices, face by face.
pub open spec fn cube_vertices_spec() -> Seq<Vertex> {
    seq![
        vtx(1, -1i32, -1i32, 1, 0, 0),
        vtx(1, 1, -1i32, 1, 0, 0),
        vtx(1, 1, 1, 1, 0, 0),
        vtx(1, -1i32, 1, 1, 0, 0),
        vtx(-1i32, -1i32, 1, -1i32, 0, 0),
        vtx(-1i32, 1, 1, -1i32, 0, 0),
        vtx(-1i32, 1, -1i32, -1i32, 0, 0),
        vtx(-1i32, -1i32, -1i32, -1i32, 0, 0),
        vtx(-1i32, 1, -1i32, 0, 1, 0),
        vtx(-1i32, 1, 1, 0, 1, 0),
        vtx(1, 1, 1, 0, 1, 0),
        vtx(1, 1, -1i32, 0, 1, 0),
        vtx(-1i32, -1i32, 1, 0, -1i32, 0),
        vtx(-1i32, -1i32, -1i32, 0, -1i32, 0),
        vtx(1, -1i32, -1i32, 0, -1i32, 0),
        vtx(1, -1i32, 1, 0, -1i32, 0),
        vtx(-1i32, -1i32, 1, 0, 0, 1),
        vtx(1, -1i32, 1, 0, 0, 1),
        vtx(1, 1, 1, 0, 0, 1),
        vtx(-1i32, 1, 1, 0, 0, 1),
        vtx(1, -1i32, -1i32, 0, 0, -1i32),
        vtx(-1i32, -1i32, -1i32, 0, 0, -1i32),
        vtx(-1i32, 1, -1i32, 0, 0, -1i32),
        vtx(1, 1, -1i32, 0, 0, -1i32),
    ]
}

/// Build the cube vertex list.
pub fn cube_vertices() -> (v: Vec<Vertex>)
    ensures
        v@ == cube_vertices_spec(),
        v@.len() == CUBE_VERTEX_COUNT,
{
    let mut v: Vec<Vertex> = Vec::new();
    v.push(Vertex { position: Vec3i { x: 1, y: -1, z: -1 }, normal: Vec3i { x: 1, y: 0, z: 0 } });
    v.push(Vertex { position: Vec3i { x: 1, y: 1, z: -1 }, normal: Vec3i { x: 1, y: 0, z: 0 } });
    v.push(Vertex { position: Vec3i { x: 1, y: 1, z: 1 }, normal: Vec3i { x: 1, y: 0, z: 0 } });
    v.push(Vertex { position: Vec3i { x: 1, y: -1, z: 1 }, normal: Vec3i { x: 1, y: 0, z: 0 } });
    v.push(Vertex { position: Vec3i { x: -1, y: -1, z: 1 }, normal: Vec3i { x: -1, y: 0, z: 0 } });
    v.push(Vertex { position: Vec3i { x: -1, y: 1, z: 1 }, normal: Vec3i { x: -1, y: 0, z: 0 } });
    v.push(Vertex { position: Vec3i { x: -1, y: 1, z: -1 }, normal: Vec3i { x: -1, y: 0, z: 0 } });
    v.push(Vertex { position: Vec3i { x: -1, y: -1, z: -1 }, normal: Vec3i { x: -1, y: 0, z: 0 } });
    v.push(Vertex { position: Vec3i { x: -1, y: 1, z: -1 }, normal: Vec3i { x: 0, y: 1, z: 0 } });
    v.push(Vertex { position: Vec3i { x: -1, y: 1, z: 1 }, normal: Vec3i { x: 0, y: 1, z: 0 } });
    v.push(Vertex { position: Vec3i { x: 1, y: 1, z: 1 }, normal: Vec3i { x: 0, y: 1, z: 0 } });
    v.push(Vertex { position: Vec3i { x: 1, y: 1, z: -1 }, normal: Vec3i { x: 0, y: 1, z: 0 } });
    v.push(Vertex { position: Vec3i { x: -1, y: -1, z: 1 }, normal: Vec3i { x: 0, y: -1, z: 0 } });
    v.push(Vertex { position: Vec3i { x: -1, y: -1, z: -1 }, normal: Vec3i { x: 0, y: -1, z: 0 } });
    v.push(Vertex { position: Vec3i { x: 1, y: -1, z: -1 }, normal: Vec3i { x: 0, y: -1, z: 0 } });
    v.push(Vertex { position: Vec3i { x: 1, y: -1, z: 1 }, normal: Vec3i { x: 0, y: -1, z: 0 } });
    v.push(Vertex { position: Vec3i { x: -1, y: -1, z: 1 }, normal: Vec3i { x: 0, y: 0, z: 1 } });
    v.push(Vertex { position: Vec3i { x: 1, y: -1, z: 1 }, normal: Vec3i { x: 0, y: 0, z: 1 } });
    v.push(Vertex { position: Vec3i { x: 1, y: 1, z: 1 }, normal: Vec3i { x: 0, y: 0, z: 1 } });
    v.push(Vertex { position: Vec3i { x: -1, y: 1, z: 1 }, normal: Vec3i { x: 0, y: 0, z: 1 } });
    v.push(Vertex { position: Vec3i { x: 1, y: -1, z: -1 }, normal: Vec3i { x: 0, y: 0, z: -1 } });
    v.push(Vertex { position: Vec3i { x: -1, y: -1, z: -1 }, normal: Vec3i { x: 0, y: 0, z: -1 } });
    v.push(Vertex { position: Vec3i { x: -1, y: 1, z: -1 }, normal: Vec3i { x: 0, y: 0, z: -1 } });
    v.push(Vertex { position: Vec3i { x: 1, y: 1, z: -1 }, normal: Vec3i { x: 0, y: 0, z: -1 } });
    proof {
        assert(v@ =~= cube_vertices_spec());
    }
    v
}

/// The index offsets of a face's two triangles within its four corners.
pub open spec fn tri_offset(k: int) -> int {
    if k == 0 {
        0
    } else if k == 1 {
        1
    } else if k == 2 {
        2
    } else if k == 3 {
        0
    } else if k == 4 {
        2
    } else {
        3
    }
}

/// The `j`-th cube index: corner `tri_offset(j % 6)` of face `j / 6`.
pub open spec fn cube_index_spec(j: int) -> int {
    4 * (j / 6) + tri_offset(j % 6)
}

/// Build the cube index list: for each face, two triangles over its four
/// corners. Every index is in range of the vertex list.
pub fn cube_indices() -> (v: Vec<u16>)
    ensures
        v@.len() == CUBE_INDEX_COUNT,
        forall|j: int| 0 <= j < v@.len() ==> v@[j] == cube_index_spec(j),
        forall|j: int| 0 <= j < v@.len() ==> 0 <= #[trigger] v@[j] < CUBE_VERTEX_COUNT,
{
    let mut v: Vec<u16> = Vec::new();
    let mut f: u16 = 0;
    while f < 6
        invariant
            f <= 6,
            v@.len() == 6 * f,
            forall|j: int| 0 <= j < v@.len() ==> v@[j] == cube_index_spec(j),
            forall|j: int| 0 <= j < v@.len() ==> 0 <= #[trigger] v@[j] < 24,
        decreases 6 - f,
    {
        let base: u16 = 4 * f;
        v.push(base);
        v.push(base + 1);
        v.push(base + 2);
        v.push(base);
        v.push(base + 2);
        v.push(base + 3);
        proof {
            let fi = f as int;
            lemma_fundamental_div_mod_converse(6 * fi + 0, 6, fi, 0);
            lemma_fundamental_div_mod_converse(6 * fi + 1, 6, fi, 1);
            lemma_fundamental_div_mod_converse(6 * fi + 2, 6, fi, 2);
            lemma_fundamental_div_mod_converse(6 * fi + 3, 6, fi, 3);
            lemma_fundamental_div_mod_converse(6 * fi + 4, 6, fi, 4);
            lemma_fundamental_div_mod_converse(6 * fi + 5, 6, fi, 5);
        }
        f = f + 1;
    }
    v
}

/// Law: the mesh is face-consistent. Each of the six faces has four corners
/// carrying that face's outward axis normal, and every corner coordinate is
/// -1 or 1.
pub proof fn lemma_cube_vertices_shape()
    ensures
        cube_vertices_spec().len() == CUBE_VERTEX_COUNT,
        forall|i: int|
            0 <= i < 24 ==> #[trigger] cube_vertices_spec()[i].normal == face_normal(i / 4),
        forall|i: int|
            0 <= i < 24 ==> {
                let p = #[trigger] cube_vertices_spec()[i].position;
                (p.x == -1 || p.x == 1) && (p.y == -1 || p.y == 1) && (p.z == -1 || p.z == 1)
            },
{
    assert forall|i: int| 0 <= i < 24 implies #[trigger] cube_vertices_spec()[i].normal
        == face_normal(i / 4) by {
        lemma_fundamental_div_mod_converse(i, 4, i / 4, i % 4);
    }
}

/// Law: index `j` selects a corner of face `j / 6`, and stays in range of
/// the vertex list: the two triangles of a face never reach into another
/// face's corners.
pub proof fn lemma_indices_stay_on_their_face(j: int)
    requires
        0 <= j < 36,
    ensures
        0 <= cube_index_spec(j) < 24,
        cube_index_spec(j) / 4 == j / 6,
{
    lemma_fundamental_div_mod(j, 6);
    lemma_div_pos_is_pos(j, 6);
    lemma_div_is_ordered(j, 35, 6);
    let q = j / 6;
    let t = tri_offset(j % 6);
    lemma_fundamental_div_mod_converse(4 * q + t, 4, q, t);
}

} // verus!
