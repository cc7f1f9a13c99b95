//! Procedural hex meshes: a closed triangulated hexagonal prism (top face,
//! bottom face, six side quads) and a thin line-loop outline, both generated
//! deterministically from the circumradius and prism height.

use crate::coords::MAX_HEX_SIZE;
use crate::fixed::{abs_s, fp_mul, fp_mul_s, lemma_tdiv_bound, Vec3Fp, SCALE};
use vstd::prelude::*;

verus! {

/// `sin(60 degrees) = sqrt(3)/2` in `SCALE` sub-units.
pub const SIN60: i64 = 866_025;

/// `cos(60 degrees) = 1/2` in `SCALE` sub-units.
pub const COS60: i64 = 500_000;

/// Height of the outline above the ground plane (0.01 world units).
pub const OUTLINE_LIFT: i64 = 10_000;

/// A fixed-point texture coordinate, in `SCALE` sub-units of [0, 1].
#[derive(Debug, Clone, Copy, PartialEq, Eq, Structural)]
pub struct Uv {
    pub u: i64,
    pub v: i64,
}

/// A triangle-list mesh: parallel vertex attributes plus triangle indices.
#[derive(Debug, Clone)]
pub struct MeshData {
    pub positions: Vec<Vec3Fp>,
    pub normals: Vec<Vec3Fp>,
    pub uvs: Vec<Uv>,
    pub indices: Vec<u32>,
}

/// A line-list mesh: vertices plus segment-endpoint indices.
#[derive(Debug, Clone)]
pub struct OutlineData {
    pub positions: Vec<Vec3Fp>,
    pub normals: Vec<Vec3Fp>,
    pub indices: Vec<u32>,
}

/// Unit x offset of corner `i`: `cos(i * 60 degrees)`, flat-top orientation.
pub open spec fn corner_cos(i: int) -> int {
    if i == 0 {
        SCALE as int
    } else if i == 1 {
        COS60 as int
    } else if i == 2 {
        -COS60 as int
    } else if i == 3 {
        -SCALE as int
    } else if i == 4 {
        -COS60 as int
    } else {
        COS60 as int
    }
}

/// Unit z offset of corner `i`: `sin(i * 60 degrees)`.
pub open spec fn corner_sin(i: int) -> int {
    if i == 0 {
        0
    } else if i == 1 {
        SIN60 as int
    } else if i == 2 {
        SIN60 as int
    } else if i == 3 {
        0
    } else if i == 4 {
        -SIN60 as int
    } else {
        -SIN60 as int
    }
}

/// World x of corner `i` for a hexagon of the given circumradius.
pub open spec fn corner_x(size: int, i: int) -> int {
    fp_mul_s(size, corner_cos(i))
}

/// World z of corner `i`.
pub open spec fn corner_z(size: int, i: int) -> int {
    fp_mul_s(size, corner_sin(i))
}

/// Texture u of corner `i`: the corner offset mapped linearly into [0, 1],
/// `(cos + 1) / 2`, truncated to sub-units.
pub open spec fn corner_u(i: int) -> int {
    if i == 0 {
        SCALE as int
    } else if i == 1 || i == 5 {
        750_000
    } else if i == 2 || i == 4 {
        250_000
    } else {
        0
    }
}

/// Texture v of corner `i`: `(sin + 1) / 2`, truncated to sub-units.
pub open spec fn corner_v(i: int) -> int {
    if i == 0 || i == 3 {
        COS60 as int
    } else if i == 1 || i == 2 {
        933_012
    } else {
        66_987
    }
}

/// Outward unit normal of side `i`, the normalized sum of its two adjacent
/// corner offsets: the unit vector at angle `i * 60 + 30` degrees (x part).
pub open spec fn side_nx(i: int) -> int {
    if i == 0 || i == 5 {
        SIN60 as int
    } else if i == 1 || i == 4 {
        0
    } else {
        -SIN60 as int
    }
}

/// Outward unit normal of side `i` (z part).
pub open spec fn side_nz(i: int) -> int {
    if i == 0 || i == 2 {
        COS60 as int
    } else if i == 1 {
        SCALE as int
    } else if i == 3 || i == 5 {
        -COS60 as int
    } else {
        -SCALE as int
    }
}

/// The fan face at vertex offset `base` (center plus six rim vertices) lies
/// at height `y` with the given vertical normal and the linear corner UVs.
pub open spec fn fan_face_ok(
    ps: Seq<Vec3Fp>,
    ns: Seq<Vec3Fp>,
    uvs: Seq<Uv>,
    size: int,
    y: int,
    ny: int,
    base: int,
) -> bool {
    &&& ps[base] == (Vec3Fp { x: 0, y: y as i64, z: 0 })
    &&& ns[base] == (Vec3Fp { x: 0, y: ny as i64, z: 0 })
    &&& uvs[base] == (Uv { u: COS60, v: COS60 })
    &&& forall|j: int|
        #![trigger ps[base + 1 + j]]
        #![trigger ns[base + 1 + j]]
        #![trigger uvs[base + 1 + j]]
        0 <= j < 6 ==> {
            &&& ps[base + 1 + j] == (Vec3Fp {
                x: corner_x(size, j) as i64,
                y: y as i64,
                z: corner_z(size, j) as i64,
            })
            &&& ns[base + 1 + j] == (Vec3Fp { x: 0, y: ny as i64, z: 0 })
            &&& uvs[base + 1 + j] == (Uv { u: corner_u(j) as i64, v: corner_v(j) as i64 })
        }
}

/// Side quad `i` (vertex offsets `14 + 4*i ..`): top edge then bottom edge of
/// the wall between corners `i` and `i + 1`, with the averaged outward
/// normal and a fixed unit-quad UV.
pub open spec fn side_quad_ok(
    ps: Seq<Vec3Fp>,
    ns: Seq<Vec3Fp>,
    uvs: Seq<Uv>,
    size: int,
    height: int,
    i: int,
) -> bool {
    let b = 14 + 4 * i;
    let n = (i + 1) % 6;
    &&& ps[b] == (Vec3Fp {
        x: corner_x(size, i) as i64,
        y: height as i64,
        z: corner_z(size, i) as i64,
    })
    &&& ps[b + 1] == (Vec3Fp {
        x: corner_x(size, n) as i64,
        y: height as i64,
        z: corner_z(size, n) as i64,
    })
    &&& ps[b + 2] == (Vec3Fp {
        x: corner_x(size, n) as i64,
        y: 0,
        z: corner_z(size, n) as i64,
    })
    &&& ps[b + 3] == (Vec3Fp {
        x: corner_x(size, i) as i64,
        y: 0,
        z: corner_z(size, i) as i64,
    })
    &&& ns[b] == (Vec3Fp { x: side_nx(i) as i64, y: 0, z: side_nz(i) as i64 })
    &&& ns[b + 1] == (Vec3Fp { x: side_nx(i) as i64, y: 0, z: side_nz(i) as i64 })
    &&& ns[b + 2] == (Vec3Fp { x: side_nx(i) as i64, y: 0, z: side_nz(i) as i64 })
    &&& ns[b + 3] == (Vec3Fp { x: side_nx(i) as i64, y: 0, z: side_nz(i) as i64 })
    &&& uvs[b] == (Uv { u: 0, v: SCALE })
    &&& uvs[b + 1] == (Uv { u: SCALE, v: SCALE })
    &&& uvs[b + 2] == (Uv { u: SCALE, v: 0 })
    &&& uvs[b + 3] == (Uv { u: 0, v: 0 })
}

/// The triangle indices of the solid mesh: a fan over the top face, a
/// reverse-wound fan over the bottom face, and two triangles per side quad.
pub open spec fn solid_indices_ok(ix: Seq<u32>, i: int) -> bool {
    &&& ix[3 * i] == 0u32
    &&& ix[3 * i + 1] as int == 1 + i
    &&& ix[3 * i + 2] as int == 1 + ((i + 1) % 6)
    &&& ix[18 + 3 * i] == 7u32
    &&& ix[18 + 3 * i + 1] as int == 8 + ((i + 1) % 6)
    &&& ix[18 + 3 * i + 2] as int == 8 + i
    &&& ix[36 + 6 * i] as int == 14 + 4 * i
    &&& ix[36 + 6 * i + 1] as int == 15 + 4 * i
    &&& ix[36 + 6 * i + 2] as int == 16 + 4 * i
    &&& ix[36 + 6 * i + 3] as int == 14 + 4 * i
    &&& ix[36 + 6 * i + 4] as int == 16 + 4 * i
    &&& ix[36 + 6 * i + 5] as int == 17 + 4 * i
}

/// The full solid-mesh contract: 38 vertices (2 fan faces of 7, 6 quads of
/// 4), 72 indices (12 face triangles, 12 side triangles), every index in
/// range, top face at `y == height`, bottom face at `y == 0`.
pub open spec fn solid_mesh_ok(m: MeshData, size: int, height: int) -> bool {
    &&& m.positions@.len() == 38
    &&& m.normals@.len() == 38
    &&& m.uvs@.len() == 38
    &&& m.indices@.len() == 72
    &&& forall|k: int| 0 <= k < 72 ==> (#[trigger] m.indices@[k]) < 38
    &&& fan_face_ok(m.positions@, m.normals@, m.uvs@, size, height, SCALE as int, 0)
    &&& fan_face_ok(m.positions@, m.normals@, m.uvs@, size, 0, -SCALE as int, 7)
    &&& forall|i: int| 0 <= i < 6 ==> side_quad_ok(m.positions@, m.normals@, m.uvs@, size, height, i)
    &&& forall|i: int| 0 <= i < 6 ==> solid_indices_ok(m.indices@, i)
}

/// The outline contract: the six corners plus the repeated first corner,
/// lifted slightly above the ground plane and joined as six line segments.
pub open spec fn outline_ok(m: OutlineData, size: int) -> bool {
    &&& m.positions@.len() == 7
    &&& m.normals@.len() == 7
    &&& m.indices@.len() == 12
    &&& forall|i: int|
        0 <= i < 7 ==> #[trigger] m.positions@[i] == (Vec3Fp {
            x: corner_x(size, i % 6) as i64,
            y: OUTLINE_LIFT,
            z: corner_z(size, i % 6) as i64,
        })
    &&& forall|i: int| 0 <= i < 7 ==> #[trigger] m.normals@[i] == (Vec3Fp { x: 0, y: SCALE, z: 0 })
    &&& forall|i: int|
        0 <= i < 6 ==> (#[trigger] m.indices@[2 * i]) as int == i && m.indices@[2 * i + 1] as int
            == i + 1
}

/// Corner offsets of a flat-top hexagon with the given circumradius.
fn corner_vec(size: i64, i: usize) -> (c: (i64, i64))
    requires
        0 < size <= MAX_HEX_SIZE,
        i < 6,
    ensures
        c.0 as int == corner_x(size as int, i as int),
        c.1 as int == corner_z(size as int, i as int),
{
    let cosv: i64 = if i == 0 {
        SCALE
    } else if i == 1 {
        COS60
    } else if i == 2 {
        -COS60
    } else if i == 3 {
        -SCALE
    } else if i == 4 {
        -COS60
    } else {
        COS60
    };
    let sinv: i64 = if i == 0 {
        0
    } else if i == 1 {
        SIN60
    } else if i == 2 {
        SIN60
    } else if i == 3 {
        0
    } else if i == 4 {
        -SIN60
    } else {
        -SIN60
    };
    proof {
        assert(abs_s(size as int * cosv as int) <= (SCALE as int) * (MAX_HEX_SIZE as int)
            && abs_s(size as int * sinv as int) <= (SCALE as int) * (MAX_HEX_SIZE as int))
            by (nonlinear_arith)
            requires
                0 < size as int <= MAX_HEX_SIZE as int,
                -(SCALE as int) <= cosv as int <= SCALE as int,
                -(SCALE as int) <= sinv as int <= SCALE as int,
        ;
        lemma_tdiv_bound(size as int * cosv as int, SCALE as int, MAX_HEX_SIZE as int);
        lemma_tdiv_bound(size as int * sinv as int, SCALE as int, MAX_HEX_SIZE as int);
    }
    (fp_mul(size, cosv), fp_mul(size, sinv))
}

/// Texture coordinates of corner `i` on the top and bottom faces.
fn corner_uv(i: usize) -> (t: (i64, i64))
    requires
        i < 6,
    ensures
        t.0 as int == corner_u(i as int),
        t.1 as int == corner_v(i as int),
{
    let u: i64 = if i == 0 {
        SCALE
    } else if i == 1 || i == 5 {
        750_000
    } else if i == 2 || i == 4 {
        250_000
    } else {
        0
    };
    let v: i64 = if i == 0 || i == 3 {
        COS60
    } else if i == 1 || i == 2 {
        933_012
    } else {
        66_987
    };
    (u, v)
}

/// Averaged outward normal of side `i`.
fn side_normal(i: usize) -> (n: (i64, i64))
    requires
        i < 6,
    ensures
        n.0 as int == side_nx(i as int),
        n.1 as int == side_nz(i as int),
{
    let nx: i64 = if i == 0 || i == 5 {
        SIN60
    } else if i == 1 || i == 4 {
        0
    } else {
        -SIN60
    };
    let nz: i64 = if i == 0 || i == 2 {
        COS60
    } else if i == 1 {
        SCALE
    } else if i == 3 || i == 5 {
        -COS60
    } else {
        -SCALE
    };
    (nx, nz)
}

/// Builds the closed hexagonal-prism mesh for a flat-top hexagon of the
/// given circumradius and height. A pure function: equal inputs give
/// identical geometry, as `solid_mesh_ok` pins down element by element.
#[verifier::rlimit(80)]
pub fn create_hex_mesh(size: i64, height: i64) -> (m: MeshData)
    requires
        0 < size <= MAX_HEX_SIZE,
        0 <= height <= MAX_HEX_SIZE,
    ensures
        solid_mesh_ok(m, size as int, height as int),
{
    let mut positions: Vec<Vec3Fp> = Vec::new();
    let mut normals: Vec<Vec3Fp> = Vec::new();
    let mut uvs: Vec<Uv> = Vec::new();
    let mut indices: Vec<u32> = Vec::new();

    // Top face: center vertex, then the six rim vertices.
    positions.push(Vec3Fp { x: 0, y: height, z: 0 });
    normals.push(Vec3Fp { x: 0, y: SCALE, z: 0 });
    uvs.push(Uv { u: COS60, v: COS60 });
    let mut i: usize = 0;
    while i < 6
        invariant
            0 < size <= MAX_HEX_SIZE,
            0 <= height <= MAX_HEX_SIZE,
            i <= 6,
            positions@.len() == 1 + i,
            normals@.len() == 1 + i,
            uvs@.len() == 1 + i,
            positions@[0] == (Vec3Fp { x: 0, y: height, z: 0 }),
            normals@[0] == (Vec3Fp { x: 0, y: SCALE, z: 0 }),
            uvs@[0] == (Uv { u: COS60, v: COS60 }),
            forall|j: int|
                #![trigger positions@[1 + j]]
                #![trigger normals@[1 + j]]
                #![trigger uvs@[1 + j]]
                0 <= j < i ==> {
                    &&& positions@[1 + j] == (Vec3Fp {
                        x: corner_x(size as int, j) as i64,
                        y: height,
                        z: corner_z(size as int, j) as i64,
                    })
                    &&& normals@[1 + j] == (Vec3Fp { x: 0, y: SCALE, z: 0 })
                    &&& uvs@[1 + j] == (Uv { u: corner_u(j) as i64, v: corner_v(j) as i64 })
                },
        decreases 6 - i,
    {
        let c: (i64, i64) = corner_vec(size, i);
        let t: (i64, i64) = corner_uv(i);
        positions.push(Vec3Fp { x: c.0, y: height, z: c.1 });
        normals.push(Vec3Fp { x: 0, y: SCALE, z: 0 });
        uvs.push(Uv { u: t.0, v: t.1 });
        i = i + 1;
    }

    // Top face triangles: fan around the center.
    let mut k: usize = 0;
    while k < 6
        invariant
            k <= 6,
            indices@.len() == 3 * k,
            forall|j: int|
                #![trigger indices@[3 * j]]
                #![trigger indices@[3 * j + 1]]
                #![trigger indices@[3 * j + 2]]
                0 <= j < k ==> {
                    &&& indices@[3 * j] == 0u32
                    &&& indices@[3 * j + 1] as int == 1 + j
                    &&& indices@[3 * j + 2] as int == 1 + ((j + 1) % 6)
                },
        decreases 6 - k,
    {
        indices.push(0u32);
        indices.push((1 + k) as u32);
        indices.push((1 + (k + 1) % 6) as u32);
        k = k + 1;
    }

    // Bottom face: center, rim, then triangles with reversed winding.
    positions.push(Vec3Fp { x: 0, y: 0, z: 0 });
    normals.push(Vec3Fp { x: 0, y: (-SCALE) as i64, z: 0 });
    uvs.push(Uv { u: COS60, v: COS60 });
    let mut i2: usize = 0;
    while i2 < 6
        invariant
            0 < size <= MAX_HEX_SIZE,
            0 <= height <= MAX_HEX_SIZE,
            i2 <= 6,
            positions@.len() == 8 + i2,
            normals@.len() == 8 + i2,
            uvs@.len() == 8 + i2,
            fan_face_ok(positions@, normals@, uvs@, size as int, height as int, SCALE as int, 0),
            positions@[7] == (Vec3Fp { x: 0, y: 0, z: 0 }),
            normals@[7] == (Vec3Fp { x: 0, y: (-SCALE) as i64, z: 0 }),
            uvs@[7] == (Uv { u: COS60, v: COS60 }),
            forall|j: int|
                #![trigger positions@[8 + j]]
                #![trigger normals@[8 + j]]
                #![trigger uvs@[8 + j]]
                0 <= j < i2 ==> {
                    &&& positions@[8 + j] == (Vec3Fp {
                        x: corner_x(size as int, j) as i64,
                        y: 0,
                        z: corner_z(size as int, j) as i64,
                    })
                    &&& normals@[8 + j] == (Vec3Fp { x: 0, y: (-SCALE) as i64, z: 0 })
                    &&& uvs@[8 + j] == (Uv { u: corner_u(j) as i64, v: corner_v(j) as i64 })
                },
        decreases 6 - i2,
    {
        let c: (i64, i64) = corner_vec(size, i2);
        let t: (i64, i64) = corner_uv(i2);
        positions.push(Vec3Fp { x: c.0, y: 0, z: c.1 });
        normals.push(Vec3Fp { x: 0, y: (-SCALE) as i64, z: 0 });
        uvs.push(Uv { u: t.0, v: t.1 });
        i2 = i2 + 1;
    }
    let mut k2: usize = 0;
    while k2 < 6
        invariant
            k2 <= 6,
            indices@.len() == 18 + 3 * k2,
            forall|j: int|
                #![trigger indices@[3 * j]]
                #![trigger indices@[3 * j + 1]]
                #![trigger indices@[3 * j + 2]]
                0 <= j < 6 ==> {
                    &&& indices@[3 * j] == 0u32
                    &&& indices@[3 * j + 1] as int == 1 + j
                    &&& indices@[3 * j + 2] as int == 1 + ((j + 1) % 6)
                },
            forall|j: int|
                #![trigger indices@[18 + 3 * j]]
                #![trigger indices@[18 + 3 * j + 1]]
                #![trigger indices@[18 + 3 * j + 2]]
                0 <= j < k2 ==> {
                    &&& indices@[18 + 3 * j] == 7u32
                    &&& indices@[18 + 3 * j + 1] as int == 8 + ((j + 1) % 6)
                    &&& indices@[18 + 3 * j + 2] as int == 8 + j
                },
        decreases 6 - k2,
    {
        indices.push(7u32);
        indices.push((8 + (k2 + 1) % 6) as u32);
        indices.push((8 + k2) as u32);
        k2 = k2 + 1;
    }

    // Side walls: one quad (two triangles) per edge.
    let mut s: usize = 0;
    while s < 6
        invariant
            0 < size <= MAX_HEX_SIZE,
            0 <= height <= MAX_HEX_SIZE,
            s <= 6,
            positions@.len() == 14 + 4 * s,
            normals@.len() == 14 + 4 * s,
            uvs@.len() == 14 + 4 * s,
            indices@.len() == 36 + 6 * s,
            fan_face_ok(positions@, normals@, uvs@, size as int, height as int, SCALE as int, 0),
            fan_face_ok(positions@, normals@, uvs@, size as int, 0, -SCALE as int, 7),
            forall|j: int|
                0 <= j < s ==> side_quad_ok(
                    positions@,
                    normals@,
                    uvs@,
                    size as int,
                    height as int,
                    j,
                ),
            forall|j: int|
                #![trigger indices@[3 * j]]
                #![trigger indices@[3 * j + 1]]
                #![trigger indices@[3 * j + 2]]
                #![trigger indices@[18 + 3 * j]]
                #![trigger indices@[18 + 3 * j + 1]]
                #![trigger indices@[18 + 3 * j + 2]]
                0 <= j < 6 ==> {
                    &&& indices@[3 * j] == 0u32
                    &&& indices@[3 * j + 1] as int == 1 + j
                    &&& indices@[3 * j + 2] as int == 1 + ((j + 1) % 6)
                    &&& indices@[18 + 3 * j] == 7u32
                    &&& indices@[18 + 3 * j + 1] as int == 8 + ((j + 1) % 6)
                    &&& indices@[18 + 3 * j + 2] as int == 8 + j
                },
            forall|j: int|
                #![trigger indices@[36 + 6 * j]]
                #![trigger indices@[36 + 6 * j + 1]]
                #![trigger indices@[36 + 6 * j + 2]]
                #![trigger indices@[36 + 6 * j + 3]]
                #![trigger indices@[36 + 6 * j + 4]]
                #![trigger indices@[36 + 6 * j + 5]]
                0 <= j < s ==> {
                    &&& indices@[36 + 6 * j] as int == 14 + 4 * j
                    &&& indices@[36 + 6 * j + 1] as int == 15 + 4 * j
                    &&& indices@[36 + 6 * j + 2] as int == 16 + 4 * j
                    &&& indices@[36 + 6 * j + 3] as int == 14 + 4 * j
                    &&& indices@[36 + 6 * j + 4] as int == 16 + 4 * j
                    &&& indices@[36 + 6 * j + 5] as int == 17 + 4 * j
                },
        decreases 6 - s,
    {
        let ghost ops = positions@;
        let ghost ons = normals@;
        let ghost ouvs = uvs@;
        let ghost olds = s as int;
        let next: usize = (s + 1) % 6;
        let c1: (i64, i64) = corner_vec(size, s);
        let c2: (i64, i64) = corner_vec(size, next);
        let nrm: (i64, i64) = side_normal(s);

        positions.push(Vec3Fp { x: c1.0, y: height, z: c1.1 });
        positions.push(Vec3Fp { x: c2.0, y: height, z: c2.1 });
        positions.push(Vec3Fp { x: c2.0, y: 0, z: c2.1 });
        positions.push(Vec3Fp { x: c1.0, y: 0, z: c1.1 });

        normals.push(Vec3Fp { x: nrm.0, y: 0, z: nrm.1 });
        normals.push(Vec3Fp { x: nrm.0, y: 0, z: nrm.1 });
        normals.push(Vec3Fp { x: nrm.0, y: 0, z: nrm.1 });
        normals.push(Vec3Fp { x: nrm.0, y: 0, z: nrm.1 });

        uvs.push(Uv { u: 0, v: SCALE });
        uvs.push(Uv { u: SCALE, v: SCALE });
        uvs.push(Uv { u: SCALE, v: 0 });
        uvs.push(Uv { u: 0, v: 0 });

        let base: u32 = (14 + 4 * s) as u32;
        indices.push(base);
        indices.push(base + 1);
        indices.push(base + 2);
        indices.push(base);
        indices.push(base + 2);
        indices.push(base + 3);
        proof {
            assert forall|j: int| 0 <= j < olds + 1 implies side_quad_ok(
                positions@,
                normals@,
                uvs@,
                size as int,
                height as int,
                j,
            ) by {
                if j < olds {
                    assert(side_quad_ok(ops, ons, ouvs, size as int, height as int, j));
                }
            }
        }
        s = s + 1;
    }

    let m = MeshData { positions, normals, uvs, indices };
    proof {
        assert forall|k3: int| 0 <= k3 < 72 implies (#[trigger] m.indices@[k3]) < 38 by {
            if k3 < 18 {
                let j = k3 / 3;
                assert(0 <= j < 6);
                assert(k3 == 3 * j || k3 == 3 * j + 1 || k3 == 3 * j + 2);
            } else if k3 < 36 {
                let j = (k3 - 18) / 3;
                assert(0 <= j < 6);
                assert(k3 == 18 + 3 * j || k3 == 18 + 3 * j + 1 || k3 == 18 + 3 * j + 2);
            } else {
                let j = (k3 - 36) / 6;
                assert(0 <= j < 6);
                assert(k3 == 36 + 6 * j || k3 == 36 + 6 * j + 1 || k3 == 36 + 6 * j + 2 || k3 == 36
                    + 6 * j + 3 || k3 == 36 + 6 * j + 4 || k3 == 36 + 6 * j + 5);
            }
        }
    }
    m
}

/// Builds the flat hexagon outline: seven slightly-lifted vertices (the six
/// corners, the first repeated) joined as six independent line segments.
pub fn create_hex_outline(size: i64) -> (m: OutlineData)
    requires
        0 < size <= MAX_HEX_SIZE,
    ensures
        outline_ok(m, size as int),
{
    let mut positions: Vec<Vec3Fp> = Vec::new();
    let mut normals: Vec<Vec3Fp> = Vec::new();
    let mut indices: Vec<u32> = Vec::new();

    let mut i: usize = 0;
    while i < 7
        invariant
            0 < size <= MAX_HEX_SIZE,
            i <= 7,
            positions@.len() == i,
            normals@.len() == i,
            forall|j: int|
                0 <= j < i ==> #[trigger] positions@[j] == (Vec3Fp {
                    x: corner_x(size as int, j % 6) as i64,
                    y: OUTLINE_LIFT,
                    z: corner_z(size as int, j % 6) as i64,
                }),
            forall|j: int|
                0 <= j < i ==> #[trigger] normals@[j] == (Vec3Fp { x: 0, y: SCALE, z: 0 }),
        decreases 7 - i,
    {
        let c: (i64, i64) = corner_vec(size, i % 6);
        positions.push(Vec3Fp { x: c.0, y: OUTLINE_LIFT, z: c.1 });
        normals.push(Vec3Fp { x: 0, y: SCALE, z: 0 });
        i = i + 1;
    }

    let mut k: usize = 0;
    while k < 6
        invariant
            k <= 6,
            indices@.len() == 2 * k,
            forall|j: int|
                #![trigger indices@[2 * j]]
                #![trigger indices@[2 * j + 1]]
                0 <= j < k ==> indices@[2 * j] as int == j && indices@[2 * j + 1] as int == j + 1,
        decreases 6 - k,
    {
        indices.push(k as u32);
        indices.push((k + 1) as u32);
        k = k + 1;
    }

    OutlineData { positions, normals, indices }
}

} // verus!

