//! The tile registry: an arena of tile records keyed by hex coordinate, plus
//! the grid-wide configuration (hex circumradius and per-elevation-step
//! height). At most one tile per coordinate; spawning at an occupied
//! coordinate replaces the mapping (last write wins).

use crate::coords::{hex_dist, in_coord_range, world_x, world_z, HexCoord, MAX_HEX_SIZE};
use crate::fixed::Vec3Fp;
use std::collections::HashMap;
use vstd::prelude::*;

verus! {

broadcast use vstd::std_specs::hash::group_hash_axioms;

/// Largest elevation magnitude a tile can be spawned at.
pub const ELEVATION_LIMIT: i32 = 1_000_000;

/// Largest supported initial-population radius.
pub const MAX_GRID_RADIUS: i32 = 1_000;

/// A placed tile: its coordinate, elevation level, derived world position,
/// and the handle under which the host rendering system knows it.
#[derive(Debug, Clone, Copy, PartialEq, Eq, Structural)]
pub struct HexTile {
    pub coord: HexCoord,
    pub elevation: i32,
    pub position: Vec3Fp,
    pub handle: u64,
}

/// The registry: tile records keyed by the packed coordinate, the grid
/// configuration, and the next fresh tile handle.
pub struct HexGrid {
    pub tiles: HashMap<u64, HexTile>,
    pub hex_size: i64,
    pub hex_height: i64,
    pub next_handle: u64,
}

/// The key a coordinate is stored under: both components shifted to be
/// non-negative, packed side by side. Injective over all of `HexCoord`.
pub open spec fn key_of(c: HexCoord) -> u64 {
    ((c.q - i32::MIN) * 0x1_0000_0000 + (c.r - i32::MIN)) as u64
}

/// The record `spawn_hex_tile` stores: world position from `to_world` with y
/// overridden to `elevation * hex_height`.
pub open spec fn tile_record(
    c: HexCoord,
    elevation: i32,
    hex_size: int,
    hex_height: int,
    handle: u64,
) -> HexTile {
    HexTile {
        coord: c,
        elevation,
        position: Vec3Fp {
            x: world_x(c, hex_size) as i64,
            y: (elevation * hex_height) as i64,
            z: world_z(c, hex_size) as i64,
        },
        handle,
    }
}

/// Within hex distance `n` of the origin: the region the initial population
/// fills (equivalently, `|q| <= n`, `|r| <= n` and `|q + r| <= n`).
pub open spec fn in_disk(c: HexCoord, n: int) -> bool {
    &&& -n <= c.q <= n
    &&& -n <= c.r <= n
    &&& -n <= c.q + c.r <= n
}

/// The filled region is exactly the set of coordinates within hex distance
/// `n` of the origin.
pub proof fn lemma_in_disk_is_distance(c: HexCoord, n: int)
    ensures
        in_disk(c, n) <==> hex_dist(HexCoord { q: 0, r: 0 }, c) <= n,
{
}

/// Distinct coordinates get distinct keys.
pub proof fn lemma_key_of_injective(a: HexCoord, b: HexCoord)
    requires
        key_of(a) == key_of(b),
    ensures
        a == b,
{
    let ka = (a.q - i32::MIN) * 0x1_0000_0000 + (a.r - i32::MIN);
    let kb = (b.q - i32::MIN) * 0x1_0000_0000 + (b.r - i32::MIN);
    assert(ka == kb);
    assert((a.q - b.q) * 0x1_0000_0000 == (b.r as int) - (a.r as int)) by (nonlinear_arith)
        requires
            ka == kb,
            ka == (a.q - i32::MIN) * 0x1_0000_0000 + (a.r - i32::MIN),
            kb == (b.q - i32::MIN) * 0x1_0000_0000 + (b.r - i32::MIN),
    ;
    assert(a.q == b.q) by (nonlinear_arith)
        requires
            (a.q - b.q) * 0x1_0000_0000 == (b.r as int) - (a.r as int),
            -0x1_0000_0000 < (b.r as int) - (a.r as int) < 0x1_0000_0000,
    ;
    assert(a.r == b.r);
    assert(a == b);
}

/// The exec packing of `key_of`.
fn coord_key(c: HexCoord) -> (k: u64)
    ensures
        k == key_of(c),
{
    let hi: u64 = ((c.q as i64) - (i32::MIN as i64)) as u64;
    let lo: u64 = ((c.r as i64) - (i32::MIN as i64)) as u64;
    hi * 0x1_0000_0000u64 + lo
}

impl HexGrid {
    /// Configuration is in range and every stored record sits under the key
    /// of its own coordinate.
    pub open spec fn wf(self) -> bool {
        &&& 0 < self.hex_size <= MAX_HEX_SIZE
        &&& 0 <= self.hex_height <= MAX_HEX_SIZE
        &&& forall|k: u64|
            self.tiles@.contains_key(k) ==> key_of((#[trigger] self.tiles@[k]).coord) == k
                && self.tiles@[k].handle < self.next_handle
    }

    /// The handle registered at a coordinate, if any.
    pub open spec fn spec_lookup(self, c: HexCoord) -> Option<u64> {
        if self.tiles@.contains_key(key_of(c)) {
            Some(self.tiles@[key_of(c)].handle)
        } else {
            None
        }
    }

    /// Whether a tile is registered at the coordinate.
    pub open spec fn has_tile(self, c: HexCoord) -> bool {
        self.tiles@.contains_key(key_of(c))
    }

    /// An empty grid with the given configuration.
    pub fn new(hex_size: i64, hex_height: i64) -> (g: Self)
        requires
            0 < hex_size <= MAX_HEX_SIZE,
            0 <= hex_height <= MAX_HEX_SIZE,
        ensures
            g.wf(),
            g.tiles@ == Map::<u64, HexTile>::empty(),
            g.hex_size == hex_size,
            g.hex_height == hex_height,
            g.next_handle == 0,
    {
        HexGrid { tiles: HashMap::new(), hex_size, hex_height, next_handle: 0 }
    }

    /// The full record at a coordinate: `Some` exactly when a tile is
    /// registered there.
    pub fn get_tile(&self, c: HexCoord) -> (t: Option<HexTile>)
        ensures
            t == (if self.has_tile(c) {
                Some(self.tiles@[key_of(c)])
            } else {
                None::<HexTile>
            }),
    {
        let k: u64 = coord_key(c);
        match self.tiles.get(&k) {
            Some(t) => Some(*t),
            None => None,
        }
    }

    /// The handle at a coordinate: `Some` exactly when a tile is registered
    /// there.
    pub fn lookup(&self, c: HexCoord) -> (h: Option<u64>)
        ensures
            h == self.spec_lookup(c),
            h is Some <==> self.has_tile(c),
    {
        let k: u64 = coord_key(c);
        match self.tiles.get(&k) {
            Some(t) => Some(t.handle),
            None => None,
        }
    }
}

/// Places a tile: computes its world position, registers the record under
/// the coordinate (replacing any prior occupant: last write wins), and
/// returns the fresh handle. Lookups at every other coordinate are
/// unchanged.
pub fn spawn_hex_tile(grid: &mut HexGrid, coord: HexCoord, elevation: i32) -> (handle: u64)
    requires
        old(grid).wf(),
        in_coord_range(coord),
        -ELEVATION_LIMIT <= elevation <= ELEVATION_LIMIT,
        old(grid).next_handle < u64::MAX,
    ensures
        final(grid).wf(),
        handle == old(grid).next_handle,
        final(grid).next_handle == old(grid).next_handle + 1,
        final(grid).hex_size == old(grid).hex_size,
        final(grid).hex_height == old(grid).hex_height,
        final(grid).tiles@ == old(grid).tiles@.insert(
            key_of(coord),
            tile_record(
                coord,
                elevation,
                old(grid).hex_size as int,
                old(grid).hex_height as int,
                handle,
            ),
        ),
        final(grid).spec_lookup(coord) == Some(handle),
        forall|c2: HexCoord| c2 != coord ==> final(grid).spec_lookup(c2) == old(grid).spec_lookup(c2),
        forall|k: u64|
            old(grid).tiles@.contains_key(k) ==> (#[trigger] old(grid).tiles@[k]).handle != handle,
{
    let pos: Vec3Fp = coord.to_world(grid.hex_size);
    proof {
        assert(-0x4000_0000_0000_0000 <= elevation as int * grid.hex_height as int
            <= 0x4000_0000_0000_0000) by (nonlinear_arith)
            requires
                -(ELEVATION_LIMIT as int) <= elevation as int <= ELEVATION_LIMIT as int,
                0 <= grid.hex_height as int <= MAX_HEX_SIZE as int,
        ;
    }
    let y: i64 = (elevation as i64) * grid.hex_height;
    let handle: u64 = grid.next_handle;
    let tile = HexTile { coord, elevation, position: Vec3Fp { x: pos.x, y, z: pos.z }, handle };
    let k: u64 = coord_key(coord);
    grid.tiles.insert(k, tile);
    grid.next_handle = handle + 1;
    proof {
        assert forall|c2: HexCoord| c2 != coord implies grid.spec_lookup(c2) == old(
            grid,
        ).spec_lookup(c2) by {
            if key_of(c2) == key_of(coord) {
                lemma_key_of_injective(c2, coord);
            }
        }
    }
    handle
}

/// Every coordinate of the disk of radius `n` holds a tile at elevation 0.
pub open spec fn disk_filled(g: HexGrid, n: int) -> bool {
    forall|c: HexCoord|
        in_disk(c, n) ==> {
            &&& #[trigger] g.has_tile(c)
            &&& g.tiles@[key_of(c)].coord == c
            &&& g.tiles@[key_of(c)].elevation == 0
            &&& g.tiles@[key_of(c)].position == (Vec3Fp {
                x: world_x(c, g.hex_size as int) as i64,
                y: 0,
                z: world_z(c, g.hex_size as int) as i64,
            })
        }
}

/// The filling loop's progress: every disk coordinate before column `q`, or
/// in column `q` before row `r`, holds a tile at elevation 0.
pub open spec fn filled_upto(g: HexGrid, n: int, q: int, r: int) -> bool {
    forall|c: HexCoord|
        in_disk(c, n) && (c.q < q || (c.q == q && c.r < r)) ==> {
            &&& #[trigger] g.has_tile(c)
            &&& g.tiles@[key_of(c)].coord == c
            &&& g.tiles@[key_of(c)].elevation == 0
            &&& g.tiles@[key_of(c)].position == (Vec3Fp {
                x: world_x(c, g.hex_size as int) as i64,
                y: 0,
                z: world_z(c, g.hex_size as int) as i64,
            })
        }
}

/// One instance of `filled_upto`.
pub proof fn lemma_filled_upto_at(g: HexGrid, n: int, q: int, r: int, c: HexCoord)
    requires
        filled_upto(g, n, q, r),
        in_disk(c, n),
        c.q < q || (c.q == q && c.r < r),
    ensures
        g.has_tile(c),
        g.tiles@[key_of(c)].coord == c,
        g.tiles@[key_of(c)].elevation == 0,
        g.tiles@[key_of(c)].position == (Vec3Fp {
            x: world_x(c, g.hex_size as int) as i64,
            y: 0,
            z: world_z(c, g.hex_size as int) as i64,
        }),
{
}

/// Lookups outside the disk of radius `n` agree between two grids.
pub open spec fn outside_unchanged(a: HexGrid, b: HexGrid, n: int) -> bool {
    forall|c: HexCoord| !in_disk(c, n) ==> #[trigger] b.spec_lookup(c) == a.spec_lookup(c)
}

/// Fills the hex-distance-`grid_radius` disk around the origin, spawning
/// every coordinate in it at elevation 0; tiles outside the disk are
/// untouched.
pub fn spawn_initial_grid(grid: &mut HexGrid, grid_radius: i32)
    requires
        old(grid).wf(),
        0 <= grid_radius <= MAX_GRID_RADIUS,
        old(grid).next_handle as int + 0x1_000_000 < u64::MAX as int,
    ensures
        final(grid).wf(),
        final(grid).hex_size == old(grid).hex_size,
        final(grid).hex_height == old(grid).hex_height,
        disk_filled(*final(grid), grid_radius as int),
        outside_unchanged(*old(grid), *final(grid), grid_radius as int),
{
    let n: i32 = grid_radius;
    let mut q: i32 = -n;
    while q <= n
        invariant
            grid.wf(),
            0 <= n <= MAX_GRID_RADIUS,
            -n <= q <= n + 1,
            grid.hex_size == old(grid).hex_size,
            grid.hex_height == old(grid).hex_height,
            grid.next_handle as int <= old(grid).next_handle as int + (q as int + n as int) * (2
                * n as int + 1),
            old(grid).next_handle as int + 0x1_000_000 < u64::MAX as int,
            filled_upto(*grid, n as int, q as int, -(n as int)),
            outside_unchanged(*old(grid), *grid, n as int),
        decreases n + 1 - q,
    {
        let rmin: i32 = if -n > -q - n {
            -n
        } else {
            -q - n
        };
        let rmax: i32 = if n < -q + n {
            n
        } else {
            -q + n
        };
        let mut r: i32 = rmin;
        proof {
            assert forall|c: HexCoord|
                in_disk(c, n as int) && (c.q < q || (c.q == q && c.r < r)) implies {
                &&& grid.has_tile(c)
                &&& grid.tiles@[key_of(c)].coord == c
                &&& grid.tiles@[key_of(c)].elevation == 0
                &&& grid.tiles@[key_of(c)].position == (Vec3Fp {
                    x: world_x(c, grid.hex_size as int) as i64,
                    y: 0,
                    z: world_z(c, grid.hex_size as int) as i64,
                })
            } by {
                if c.q < q {
                    assert(grid.has_tile(c));
                } else {
                    assert(-(n as int) <= c.r as int && -(n as int) <= c.q as int + c.r as int);
                    assert(false);
                }
            }
            assert(filled_upto(*grid, n as int, q as int, r as int));
        }
        while r <= rmax
            invariant
                grid.wf(),
                0 <= n <= MAX_GRID_RADIUS,
                -n <= q <= n,
                rmin as int == (if -(n as int) > -(q as int) - (n as int) {
                    -(n as int)
                } else {
                    -(q as int) - (n as int)
                }),
                rmax as int == (if (n as int) < -(q as int) + (n as int) {
                    n as int
                } else {
                    -(q as int) + (n as int)
                }),
                rmin <= r <= rmax + 1,
                grid.hex_size == old(grid).hex_size,
                grid.hex_height == old(grid).hex_height,
                grid.next_handle as int <= old(grid).next_handle as int + (q as int + n as int) * (
                2 * n as int + 1) + (r as int - rmin as int),
                old(grid).next_handle as int + 0x1_000_000 < u64::MAX as int,
                filled_upto(*grid, n as int, q as int, r as int),
                outside_unchanged(*old(grid), *grid, n as int),
            decreases rmax + 1 - r,
        {
            let coord = HexCoord::new(q, r);
            proof {
                assert((q as int + n as int) * (2 * n as int + 1) + (r as int - rmin as int)
                    <= 0x1_000_000 - 1) by (nonlinear_arith)
                    requires
                        0 <= n as int <= MAX_GRID_RADIUS as int,
                        -(n as int) <= q as int <= n as int,
                        rmin as int >= -(n as int),
                        rmin as int <= r as int <= n as int,
                ;
            }
            let ghost g0 = *grid;
            spawn_hex_tile(grid, coord, 0);
            proof {
                assert forall|c: HexCoord|
                    in_disk(c, n as int) && (c.q < q || (c.q == q && c.r < r + 1)) implies {
                    &&& grid.has_tile(c)
                    &&& grid.tiles@[key_of(c)].coord == c
                    &&& grid.tiles@[key_of(c)].elevation == 0
                    &&& grid.tiles@[key_of(c)].position == (Vec3Fp {
                        x: world_x(c, grid.hex_size as int) as i64,
                        y: 0,
                        z: world_z(c, grid.hex_size as int) as i64,
                    })
                } by {
                    if c == coord {
                        assert(grid.tiles@ == g0.tiles@.insert(
                            key_of(coord),
                            tile_record(
                                coord,
                                0,
                                g0.hex_size as int,
                                g0.hex_height as int,
                                g0.next_handle,
                            ),
                        ));
                        assert(grid.tiles@[key_of(coord)].coord == coord);
                        assert(grid.tiles@[key_of(coord)].elevation == 0);
                        assert(grid.tiles@[key_of(coord)].position == (Vec3Fp {
                            x: world_x(coord, grid.hex_size as int) as i64,
                            y: 0,
                            z: world_z(coord, grid.hex_size as int) as i64,
                        }));
                    } else {
                        if key_of(c) == key_of(coord) {
                            lemma_key_of_injective(c, coord);
                        }
                        assert(filled_upto(g0, n as int, q as int, r as int));
                        if c.q == q && c.r == r {
                            assert(c == coord);
                        }
                        assert(c.q < q || (c.q == q && c.r < r));
                        lemma_filled_upto_at(g0, n as int, q as int, r as int, c);
                        assert(grid.tiles@[key_of(c)] == g0.tiles@[key_of(c)]);
                    }
                }
                assert(filled_upto(*grid, n as int, q as int, r as int + 1));
                assert forall|c: HexCoord| !in_disk(c, n as int) implies grid.spec_lookup(c) == old(
                    grid,
                ).spec_lookup(c) by {
                    assert(outside_unchanged(*old(grid), g0, n as int));
                    assert(g0.spec_lookup(c) == old(grid).spec_lookup(c));
                    assert(c != coord);
                    assert(grid.spec_lookup(c) == g0.spec_lookup(c));
                }
                assert(outside_unchanged(*old(grid), *grid, n as int));
            }
            r = r + 1;
        }
        proof {
            assert((q as int + n as int) * (2 * n as int + 1) + (rmax as int + 1 - rmin as int) <= (
            q as int + 1 + n as int) * (2 * n as int + 1)) by (nonlinear_arith)
                requires
                    0 <= n as int,
                    -(n as int) <= q as int <= n as int,
                    rmin as int == (if -(n as int) > -(q as int) - (n as int) {
                        -(n as int)
                    } else {
                        -(q as int) - (n as int)
                    }),
                    rmax as int == (if (n as int) < -(q as int) + (n as int) {
                        n as int
                    } else {
                        -(q as int) + (n as int)
                    }),
            ;
            assert forall|c: HexCoord|
                in_disk(c, n as int) && (c.q < q + 1 || (c.q == q + 1 && c.r < -(n as int)))
                implies {
                &&& grid.has_tile(c)
                &&& grid.tiles@[key_of(c)].coord == c
                &&& grid.tiles@[key_of(c)].elevation == 0
                &&& grid.tiles@[key_of(c)].position == (Vec3Fp {
                    x: world_x(c, grid.hex_size as int) as i64,
                    y: 0,
                    z: world_z(c, grid.hex_size as int) as i64,
                })
            } by {
                assert(filled_upto(*grid, n as int, q as int, rmax as int + 1));
                if c.q == q {
                    assert(c.r as int <= n as int && c.q as int + c.r as int <= n as int);
                    assert(c.r <= rmax);
                    assert(grid.has_tile(c));
                } else if c.q < q {
                    assert(grid.has_tile(c));
                } else {
                    assert(false);
                }
            }
            assert(filled_upto(*grid, n as int, q as int + 1, -(n as int)));
        }
        q = q + 1;
    }
    proof {
        assert forall|c: HexCoord| in_disk(c, grid_radius as int) implies {
            &&& grid.has_tile(c)
            &&& grid.tiles@[key_of(c)].coord == c
            &&& grid.tiles@[key_of(c)].elevation == 0
            &&& grid.tiles@[key_of(c)].position == (Vec3Fp {
                x: world_x(c, grid.hex_size as int) as i64,
                y: 0,
                z: world_z(c, grid.hex_size as int) as i64,
            })
        } by {
            assert(filled_upto(*grid, n as int, q as int, -(n as int)));
            assert(c.q < q);
            assert(grid.has_tile(c));
        }
        assert(disk_filled(*grid, grid_radius as int));
    }
}

} // verus!
