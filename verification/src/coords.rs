//! Axial hex coordinates on a flat-top hexagon grid, their conversion to and
//! from fixed-point world space, neighbor enumeration, and hex distance.

use crate::fixed::{
    abs64, abs_s, lemma_rnd_near, lemma_tdiv_bound, lemma_tdiv_decomp, rnd, round_unit, tdiv,
    tdiv_i128, Vec3Fp,
    HALF_SCALE, SCALE,
};
use vstd::arithmetic::div_mod::{
    lemma_div_is_ordered, lemma_div_multiples_vanish_fancy, lemma_div_pos_is_pos,
};
use vstd::prelude::*;

verus! {

/// `sqrt(3)` in `SCALE` sub-units.
pub const SQRT3: i64 = 1_732_051;

/// Largest coordinate magnitude the fixed-point conversions support.
pub const COORD_LIMIT: i32 = 1_000_000;

/// Largest supported hex circumradius, in sub-units (1000 world units).
pub const MAX_HEX_SIZE: i64 = 1_000_000_000;

/// World-space extent (in units of `hex_size`) inside which `from_world`
/// operates: positions up to `hex_size * WORLD_EXTENT` from the origin,
/// covering the center of every coordinate in `in_coord_range`.
pub const WORLD_EXTENT: i64 = 2_600_000;

/// Axial hex coordinates `(q, r)` of a flat-top hexagon grid. The cube
/// coordinate `s = -q - r` is always computed, never stored, so
/// `q + r + s == 0` holds by construction.
#[derive(Debug, Clone, Copy, PartialEq, Eq, Hash, Structural)]
pub struct HexCoord {
    pub q: i32,
    pub r: i32,
}

/// Both components within the supported magnitude.
pub open spec fn in_coord_range(c: HexCoord) -> bool {
    &&& -COORD_LIMIT <= c.q <= COORD_LIMIT
    &&& -COORD_LIMIT <= c.r <= COORD_LIMIT
}

/// Hex (cube) distance between two coordinates.
pub open spec fn hex_dist(a: HexCoord, b: HexCoord) -> int {
    (abs_s(a.q - b.q) + abs_s(a.q + a.r - b.q - b.r) + abs_s(a.r - b.r)) / 2
}

/// The `i`-th neighbor, clockwise from the east neighbor.
pub open spec fn neighbor_s(c: HexCoord, i: int) -> HexCoord {
    if i == 0 {
        HexCoord { q: (c.q + 1) as i32, r: c.r }
    } else if i == 1 {
        HexCoord { q: (c.q + 1) as i32, r: (c.r - 1) as i32 }
    } else if i == 2 {
        HexCoord { q: c.q, r: (c.r - 1) as i32 }
    } else if i == 3 {
        HexCoord { q: (c.q - 1) as i32, r: c.r }
    } else if i == 4 {
        HexCoord { q: (c.q - 1) as i32, r: (c.r + 1) as i32 }
    } else {
        HexCoord { q: c.q, r: (c.r + 1) as i32 }
    }
}

/// World x of a hex center: `size * (sqrt(3)*q + sqrt(3)/2*r)`, which is
/// `size * sqrt(3) * (2q + r) / 2`, truncated once at the end.
pub open spec fn world_x(c: HexCoord, size: int) -> int {
    tdiv(size * (SQRT3 as int) * (2 * c.q + c.r), 2 * (SCALE as int))
}

/// World z of a hex center: `size * (3/2 * r)`, truncated.
pub open spec fn world_z(c: HexCoord, size: int) -> int {
    tdiv(size * 3 * c.r, 2)
}

/// Fractional axial q of a world point, in sub-units:
/// `(sqrt(3)/3 * x - z/3) / size == (sqrt(3)*x - z) / (3*size)` rescaled.
pub open spec fn frac_q(x: int, z: int, size: int) -> int {
    tdiv((SQRT3 as int) * x - (SCALE as int) * z, 3 * size)
}

/// Fractional axial r of a world point, in sub-units: `(2/3 * z) / size`.
pub open spec fn frac_r(z: int, size: int) -> int {
    tdiv(2 * (SCALE as int) * z, 3 * size)
}

/// Axial rounding of fractional (sub-unit) coordinates: round each of q, r
/// and s = -q-r to the nearest integer, then recompute whichever rounded
/// component has the strictly largest rounding error from the other two, so
/// that q + r + s == 0 is restored (the comparisons are strict: when q's
/// error is not strictly the largest, r is corrected only if its error
/// strictly exceeds s's; otherwise q and r stand and any residue lands in
/// the derived s).
pub open spec fn axial_round_s(fq: int, fr: int) -> HexCoord {
    let fs = -fq - fr;
    let rq = rnd(fq);
    let rr = rnd(fr);
    let rs = rnd(fs);
    let dq = abs_s(rq * (SCALE as int) - fq);
    let dr = abs_s(rr * (SCALE as int) - fr);
    let ds = abs_s(rs * (SCALE as int) - fs);
    if dq > dr && dq > ds {
        HexCoord { q: (-rr - rs) as i32, r: rr as i32 }
    } else if dr > ds {
        HexCoord { q: rq as i32, r: (-rq - rs) as i32 }
    } else {
        HexCoord { q: rq as i32, r: rr as i32 }
    }
}

impl HexCoord {
    pub fn new(q: i32, r: i32) -> (c: Self)
        ensures
            c == (HexCoord { q, r }),
    {
        Self { q, r }
    }

    /// The cube coordinate s, so that `q + r + s == 0`.
    pub fn s(&self) -> (s: i32)
        requires
            i32::MIN as int <= -self.q - self.r <= i32::MAX as int,
        ensures
            s as int == -self.q - self.r,
            self.q + self.r + s == 0,
    {
        let v: i64 = -(self.q as i64) - (self.r as i64);
        v as i32
    }

    /// Center of this hex in fixed-point world space; y is always 0 for the
    /// base position (elevation is applied by the caller).
    pub fn to_world(&self, hex_size: i64) -> (p: Vec3Fp)
        requires
            in_coord_range(*self),
            0 < hex_size <= MAX_HEX_SIZE,
        ensures
            p.x as int == world_x(*self, hex_size as int),
            p.y == 0,
            p.z as int == world_z(*self, hex_size as int),
            abs_s(p.x as int) <= hex_size as int * (WORLD_EXTENT as int),
            abs_s(p.z as int) <= hex_size as int * (WORLD_EXTENT as int),
    {
        let lat: i64 = 2 * (self.q as i64) + (self.r as i64);
        proof {
            assert(abs_s(hex_size as int * (SQRT3 as int) * lat as int)
                <= 2 * (SCALE as int) * 0x4000_0000_0000_0000) by (nonlinear_arith)
                requires
                    0 < hex_size as int <= MAX_HEX_SIZE as int,
                    abs_s(lat as int) <= 3 * (COORD_LIMIT as int),
            ;
            lemma_tdiv_bound(
                hex_size as int * (SQRT3 as int) * lat as int,
                2 * (SCALE as int),
                0x4000_0000_0000_0000int,
            );
            assert(abs_s(hex_size as int * (SQRT3 as int) * lat as int)
                <= 2 * (SCALE as int) * (hex_size as int * (WORLD_EXTENT as int)))
                by (nonlinear_arith)
                requires
                    0 < hex_size as int,
                    abs_s(lat as int) <= 3 * (COORD_LIMIT as int),
            ;
            lemma_tdiv_bound(
                hex_size as int * (SQRT3 as int) * lat as int,
                2 * (SCALE as int),
                hex_size as int * (WORLD_EXTENT as int),
            );
        }
        let num: i128 = (hex_size as i128) * (SQRT3 as i128) * (lat as i128);
        let x: i128 = tdiv_i128(num, 2 * (SCALE as i128));
        proof {
            assert(abs_s(hex_size as int * 3 * self.r as int)
                <= 2 * 0x4000_0000_0000_0000) by (nonlinear_arith)
                requires
                    0 < hex_size as int <= MAX_HEX_SIZE as int,
                    abs_s(self.r as int) <= COORD_LIMIT as int,
            ;
            lemma_tdiv_bound(hex_size as int * 3 * self.r as int, 2, 0x4000_0000_0000_0000int);
            assert(abs_s(hex_size as int * 3 * self.r as int)
                <= 2 * (hex_size as int * (WORLD_EXTENT as int))) by (nonlinear_arith)
                requires
                    0 < hex_size as int,
                    abs_s(self.r as int) <= COORD_LIMIT as int,
            ;
            lemma_tdiv_bound(
                hex_size as int * 3 * self.r as int,
                2,
                hex_size as int * (WORLD_EXTENT as int),
            );
        }
        let znum: i128 = (hex_size as i128) * 3 * (self.r as i128);
        let z: i128 = tdiv_i128(znum, 2);
        Vec3Fp { x: x as i64, y: 0, z: z as i64 }
    }

    /// Nearest hex to a fixed-point world position: the inverse linear
    /// transform followed by axial rounding.
    pub fn from_world(pos: Vec3Fp, hex_size: i64) -> (c: Self)
        requires
            0 < hex_size <= MAX_HEX_SIZE,
            abs_s(pos.x as int) <= hex_size as int * (WORLD_EXTENT as int),
            abs_s(pos.z as int) <= hex_size as int * (WORLD_EXTENT as int),
        ensures
            c == axial_round_s(
                frac_q(pos.x as int, pos.z as int, hex_size as int),
                frac_r(pos.z as int, hex_size as int),
            ),
    {
        proof {
            assert(abs_s((SQRT3 as int) * pos.x as int - (SCALE as int) * pos.z as int)
                <= 3 * hex_size as int * (3 * (COORD_LIMIT as int) * (SCALE as int))
                && abs_s(2 * (SCALE as int) * pos.z as int)
                <= 3 * hex_size as int * (3 * (COORD_LIMIT as int) * (SCALE as int)))
                by (nonlinear_arith)
                requires
                    0 < hex_size as int,
                    abs_s(pos.x as int) <= hex_size as int * (WORLD_EXTENT as int),
                    abs_s(pos.z as int) <= hex_size as int * (WORLD_EXTENT as int),
            ;
            lemma_tdiv_bound(
                (SQRT3 as int) * pos.x as int - (SCALE as int) * pos.z as int,
                3 * hex_size as int,
                3 * (COORD_LIMIT as int) * (SCALE as int),
            );
            lemma_tdiv_bound(
                2 * (SCALE as int) * pos.z as int,
                3 * hex_size as int,
                3 * (COORD_LIMIT as int) * (SCALE as int),
            );
        }
        let qnum: i128 = (SQRT3 as i128) * (pos.x as i128) - (SCALE as i128) * (pos.z as i128);
        let fq: i128 = tdiv_i128(qnum, 3 * (hex_size as i128));
        proof {
            assert(-(i128::MAX as int) <= 2 * (SCALE as int) * (pos.z as int) <= i128::MAX as int)
                by (nonlinear_arith)
                requires
                    i64::MIN as int <= pos.z as int <= i64::MAX as int,
            ;
        }
        let rnum: i128 = 2 * (SCALE as i128) * (pos.z as i128);
        let fr: i128 = tdiv_i128(rnum, 3 * (hex_size as i128));
        Self::axial_round(fq as i64, fr as i64)
    }

    /// Round fractional (sub-unit) axial coordinates to the nearest hex, as
    /// `axial_round_s` states.
    pub fn axial_round(fq: i64, fr: i64) -> (c: Self)
        requires
            abs_s(fq as int) <= 3 * (COORD_LIMIT as int) * (SCALE as int),
            abs_s(fr as int) <= 3 * (COORD_LIMIT as int) * (SCALE as int),
        ensures
            c == axial_round_s(fq as int, fr as int),
    {
        let fs: i64 = -fq - fr;
        let rq: i64 = round_unit(fq);
        let rr: i64 = round_unit(fr);
        let rs: i64 = round_unit(fs);
        proof {
            lemma_rnd_bound(fq as int, 3 * COORD_LIMIT as int);
            lemma_rnd_bound(fr as int, 3 * COORD_LIMIT as int);
            lemma_rnd_bound(fs as int, 6 * COORD_LIMIT as int);
        }
        let dq: i64 = abs64(rq * SCALE - fq);
        let dr: i64 = abs64(rr * SCALE - fr);
        let ds: i64 = abs64(rs * SCALE - fs);
        if dq > dr && dq > ds {
            Self { q: (-rr - rs) as i32, r: rr as i32 }
        } else if dr > ds {
            Self { q: rq as i32, r: (-rq - rs) as i32 }
        } else {
            Self { q: rq as i32, r: rr as i32 }
        }
    }

    /// The six neighboring coordinates, clockwise from the east neighbor.
    pub fn neighbors(&self) -> (n: [HexCoord; 6])
        requires
            i32::MIN < self.q < i32::MAX,
            i32::MIN < self.r < i32::MAX,
        ensures
            forall|i: int| 0 <= i < 6 ==> n[i] == neighbor_s(*self, i),
    {
        [
            HexCoord { q: self.q + 1, r: self.r },
            HexCoord { q: self.q + 1, r: self.r - 1 },
            HexCoord { q: self.q, r: self.r - 1 },
            HexCoord { q: self.q - 1, r: self.r },
            HexCoord { q: self.q - 1, r: self.r + 1 },
            HexCoord { q: self.q, r: self.r + 1 },
        ]
    }

    /// Hex distance: `(|dq| + |dq + dr| + |dr|) / 2`, always an exact,
    /// non-negative integer.
    pub fn distance(&self, other: &HexCoord) -> (d: i32)
        requires
            hex_dist(*self, *other) <= i32::MAX as int,
        ensures
            d as int == hex_dist(*self, *other),
            d >= 0,
    {
        let dq: i64 = self.q as i64 - other.q as i64;
        let dr: i64 = self.r as i64 - other.r as i64;
        let sum: i64 = abs64(dq) + abs64(dq + dr) + abs64(dr);
        let d: u64 = (sum as u64) / 2;
        proof {
            assert(d as int == hex_dist(*self, *other));
        }
        d as i32
    }
}

/// Bound on `rnd` from a bound on its argument.
proof fn lemma_rnd_bound(a: int, m: int)
    requires
        0 <= m,
        abs_s(a) <= m * (SCALE as int),
    ensures
        abs_s(rnd(a)) <= m,
{
    let s = SCALE as int;
    let h = HALF_SCALE as int;
    if a >= 0 {
        lemma_div_is_ordered(a + h, m * s + h, s);
        lemma_div_multiples_vanish_fancy(m, h, s);
        assert(m * s + h == s * m + h);
        lemma_div_pos_is_pos(a + h, s);
    } else {
        lemma_div_is_ordered(-a + h, m * s + h, s);
        lemma_div_multiples_vanish_fancy(m, h, s);
        assert(m * s + h == s * m + h);
        lemma_div_pos_is_pos(-a + h, s);
    }
}

/// Hex distance is symmetric.
pub proof fn lemma_distance_symmetric(a: HexCoord, b: HexCoord)
    ensures
        hex_dist(a, b) == hex_dist(b, a),
{
}

/// Hex distance is non-negative, and zero exactly on equal coordinates.
pub proof fn lemma_distance_zero_iff_eq(a: HexCoord, b: HexCoord)
    ensures
        hex_dist(a, b) >= 0,
        hex_dist(a, b) == 0 <==> a == b,
{
    if a.q == b.q && a.r == b.r {
        assert(a == b);
    }
}

/// Every neighbor is at hex distance exactly 1, and the six neighbors are
/// pairwise distinct.
pub proof fn lemma_neighbors(c: HexCoord, i: int, j: int)
    requires
        i32::MIN < c.q < i32::MAX,
        i32::MIN < c.r < i32::MAX,
        0 <= i < 6,
        0 <= j < 6,
    ensures
        hex_dist(c, neighbor_s(c, i)) == 1,
        i != j ==> neighbor_s(c, i) != neighbor_s(c, j),
{
}

/// Axial rounding recovers a lattice point from any fractional coordinates
/// strictly within half a unit of it (in q, r, and s = -q-r at once): the
/// exact core of the world-space round trip.
pub proof fn lemma_axial_round_lattice(c: HexCoord, dq: int, dr: int)
    requires
        in_coord_range(c),
        -(HALF_SCALE as int) < dq < HALF_SCALE as int,
        -(HALF_SCALE as int) < dr < HALF_SCALE as int,
        -(HALF_SCALE as int) < dq + dr < HALF_SCALE as int,
    ensures
        axial_round_s(c.q * SCALE + dq, c.r * SCALE + dr) == c,
{
    let s = SCALE as int;
    let fq = c.q * s + dq;
    let fr = c.r * s + dr;
    let fs = -fq - fr;
    assert(fs == (-c.q - c.r) * s + (-dq - dr)) by (nonlinear_arith)
        requires
            fs == -(c.q * s + dq) - (c.r * s + dr),
    ;
    lemma_rnd_near(c.q as int, dq);
    lemma_rnd_near(c.r as int, dr);
    lemma_rnd_near(-c.q - c.r, -dq - dr);
    assert(rnd(fq) == c.q as int);
    assert(rnd(fr) == c.r as int);
    assert(rnd(fs) == -c.q - c.r);
}

/// The world-space round trip: converting a coordinate to world space and
/// back recovers it exactly, for the whole supported coordinate range and
/// any hex size of at least a hundredth of a world unit (below that, the
/// truncation of `to_world` can drift past half a cell).
pub proof fn lemma_world_round_trip(c: HexCoord, size: int)
    requires
        in_coord_range(c),
        10_000 <= size <= MAX_HEX_SIZE as int,
    ensures
        axial_round_s(
            frac_q(world_x(c, size), world_z(c, size), size),
            frac_r(world_z(c, size), size),
        ) == c,
{
    let s = SCALE as int;
    let r3 = SQRT3 as int;
    let q = c.q as int;
    let r = c.r as int;
    let lat = 2 * q + r;
    let a = size * r3 * lat;
    let x = world_x(c, size);
    let e1 = a - 2 * s * x;
    let b = size * 3 * r;
    let z = world_z(c, size);
    let e2 = b - 2 * z;
    lemma_tdiv_decomp(a, 2 * s);
    lemma_tdiv_decomp(b, 2);
    let nq = r3 * x - s * z;
    let fq = frac_q(x, z, size);
    let e3 = nq - 3 * size * fq;
    lemma_tdiv_decomp(nq, 3 * size);
    let nr = 2 * s * z;
    let fr = frac_r(z, size);
    let e4 = nr - 3 * size * fr;
    lemma_tdiv_decomp(nr, 3 * size);

    assert(r3 * r3 == 3 * s * s + 666_601);

    // The q error, cleared of all divisions, one small ring identity at a
    // time.
    assert(2 * s * nq == r3 * (a - e1) - s * s * (b - e2)) by (nonlinear_arith)
        requires
            nq == r3 * x - s * z,
            a - e1 == 2 * s * x,
            b - e2 == 2 * z,
    ;
    assert(r3 * (a - e1) == 3 * s * s * size * lat + 666_601 * size * lat - r3 * e1)
        by (nonlinear_arith)
        requires
            a == size * r3 * lat,
            r3 * r3 == 3 * s * s + 666_601,
    ;
    assert(s * s * (b - e2) == 3 * s * s * size * r - s * s * e2) by (nonlinear_arith)
        requires
            b == size * 3 * r,
    ;
    assert(3 * s * s * size * lat - 3 * s * s * size * r == 6 * s * s * size * q)
        by (nonlinear_arith)
        requires
            lat == 2 * q + r,
    ;
    assert(2 * s * nq == 6 * s * s * size * q + 666_601 * size * lat - r3 * e1 + s * s * e2);
    assert(2 * s * nq - 2 * s * e3 == 6 * s * size * fq && 6 * s * size * (fq - q * s) == 6 * s
        * size * fq - 6 * s * s * size * q) by (nonlinear_arith)
        requires
            e3 == nq - 3 * size * fq,
    ;
    assert(6 * s * size * (fq - q * s) == 666_601 * size * lat - r3 * e1 + s * s * e2 - 2 * s
        * e3);
    assert(abs_s(666_601 * size * lat - r3 * e1 + s * s * e2 - 2 * s * e3) <= 6 * s * size
        * 340_000) by (nonlinear_arith)
        requires
            s == SCALE as int,
            r3 == SQRT3 as int,
            abs_s(lat) <= 3_000_000,
            abs_s(e1) < 2 * s,
            abs_s(e2) < 2,
            abs_s(e3) < 3 * size,
            10_000 <= size,
    ;
    assert(abs_s(fq - q * s) <= 340_000) by (nonlinear_arith)
        requires
            6 * s * size * (fq - q * s) == 666_601 * size * lat - r3 * e1 + s * s * e2 - 2 * s
                * e3,
            abs_s(666_601 * size * lat - r3 * e1 + s * s * e2 - 2 * s * e3) <= 6 * s * size
                * 340_000,
            0 < 6 * s * size,
    ;

    // The r error.
    assert(3 * size * (fr - r * s) == -(s * e2) - e4) by (nonlinear_arith)
        requires
            b == size * 3 * r,
            e2 == b - 2 * z,
            nr == 2 * s * z,
            e4 == nr - 3 * size * fr,
    ;
    assert(abs_s(-(s * e2) - e4) <= 3 * size * 68) by (nonlinear_arith)
        requires
            s == SCALE as int,
            abs_s(e2) < 2,
            abs_s(e4) < 3 * size,
            10_000 <= size,
    ;
    assert(abs_s(fr - r * s) <= 68) by (nonlinear_arith)
        requires
            3 * size * (fr - r * s) == -(s * e2) - e4,
            abs_s(-(s * e2) - e4) <= 3 * size * 68,
            0 < 3 * size,
    ;

    let dq = fq - q * s;
    let dr = fr - r * s;
    lemma_axial_round_lattice(c, dq, dr);
}

} // verus!
