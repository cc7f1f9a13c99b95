//! Hover and selection: casting a host-supplied pointer ray against the
//! ground plane, resolving the hit to a hex coordinate, and maintaining the
//! hover and click-selection state.

use crate::coords::{axial_round_s, frac_q, frac_r, HexCoord, WORLD_EXTENT};
use crate::fixed::{abs_s, lemma_tdiv_bound, tdiv, tdiv_i128, Vec3Fp};
use crate::grid::HexGrid;
use vstd::prelude::*;

verus! {

/// Largest supported magnitude of a ray origin or direction component.
pub const MAX_RAY: i64 = 1_000_000_000_000_000;

/// The coordinate currently under the cursor, if any.
#[derive(Debug, Clone, Copy)]
pub struct HoveredHex {
    pub coord: Option<HexCoord>,
}

/// Editor-wide interaction state: the selected coordinate, if any, and the
/// brush size.
#[derive(Debug, Clone, Copy)]
pub struct EditorState {
    pub selected_hex: Option<HexCoord>,
    pub brush_size: u32,
}

/// The display state a tile should take this tick.
#[derive(Debug, Clone, Copy, PartialEq, Eq, Structural)]
pub enum Highlight {
    Selected,
    Hovered,
    Normal,
}

/// Where the ray `origin + t * dir` meets the plane y = 0, x component:
/// `origin.x - origin.y * dir.x / dir.y`, exact apart from one truncation.
pub open spec fn ray_hit_x(origin: Vec3Fp, dir: Vec3Fp) -> int {
    if dir.y > 0 {
        origin.x + tdiv(-origin.y * dir.x, dir.y as int)
    } else {
        origin.x + tdiv(origin.y * dir.x, -(dir.y as int))
    }
}

/// The z component of the ground hit.
pub open spec fn ray_hit_z(origin: Vec3Fp, dir: Vec3Fp) -> int {
    if dir.y > 0 {
        origin.z + tdiv(-origin.y * dir.z, dir.y as int)
    } else {
        origin.z + tdiv(origin.y * dir.z, -(dir.y as int))
    }
}

/// What the raycast resolves: nothing for a ray parallel to the ground
/// (`dir.y == 0`), pointing away from it (the solved parameter t < 0, that
/// is, `origin.y` and `dir.y` share a sign), or striking the ground outside
/// the supported world extent; otherwise the hex under the hit point, and
/// only if that hex is registered in the grid.
pub open spec fn spec_hover(origin: Vec3Fp, dir: Vec3Fp, g: HexGrid) -> Option<HexCoord> {
    if dir.y == 0 {
        None
    } else if origin.y * dir.y > 0 {
        None
    } else {
        let hx = ray_hit_x(origin, dir);
        let hz = ray_hit_z(origin, dir);
        if abs_s(hx) <= g.hex_size * (WORLD_EXTENT as int) && abs_s(hz) <= g.hex_size * (
        WORLD_EXTENT as int) {
            let c = axial_round_s(frac_q(hx, hz, g.hex_size as int), frac_r(hz, g.hex_size as int));
            if g.has_tile(c) {
                Some(c)
            } else {
                None
            }
        } else {
            None
        }
    }
}

/// Resolves the hovered hex for this tick: intersects the pointer ray with
/// the ground plane and looks the hit hex up in the grid. A horizontal ray
/// (`dir.y == 0`) never resolves a hover, whatever its origin.
pub fn raycast_hex_grid(origin: Vec3Fp, dir: Vec3Fp, grid: &HexGrid, hovered: &mut HoveredHex)
    requires
        grid.wf(),
        abs_s(origin.x as int) <= MAX_RAY as int,
        abs_s(origin.y as int) <= MAX_RAY as int,
        abs_s(origin.z as int) <= MAX_RAY as int,
        abs_s(dir.x as int) <= MAX_RAY as int,
        abs_s(dir.y as int) <= MAX_RAY as int,
        abs_s(dir.z as int) <= MAX_RAY as int,
    ensures
        final(hovered).coord == spec_hover(origin, dir, *grid),
        dir.y == 0 ==> final(hovered).coord is None,
{
    if dir.y == 0 {
        hovered.coord = None;
        return ;
    }
    proof {
        assert(abs_s(origin.y as int * dir.y as int) <= 1_000_000_000_000_000_000_000_000_000_000
            && abs_s(origin.y as int * dir.x as int) <= 1_000_000_000_000_000_000_000_000_000_000
            && abs_s(origin.y as int * dir.z as int) <= 1_000_000_000_000_000_000_000_000_000_000)
            by (nonlinear_arith)
            requires
                abs_s(origin.y as int) <= MAX_RAY as int,
                abs_s(dir.x as int) <= MAX_RAY as int,
                abs_s(dir.y as int) <= MAX_RAY as int,
                abs_s(dir.z as int) <= MAX_RAY as int,
        ;
    }
    let oy_dy: i128 = (origin.y as i128) * (dir.y as i128);
    if oy_dy > 0 {
        hovered.coord = None;
        return ;
    }
    let den: i128 = if dir.y > 0 {
        dir.y as i128
    } else {
        -(dir.y as i128)
    };
    let px: i128 = (origin.y as i128) * (dir.x as i128);
    let pz: i128 = (origin.y as i128) * (dir.z as i128);
    let numx: i128 = if dir.y > 0 {
        -px
    } else {
        px
    };
    let numz: i128 = if dir.y > 0 {
        -pz
    } else {
        pz
    };
    proof {
        assert((-(origin.y as int)) * (dir.x as int) == -(origin.y as int * dir.x as int)
            && (-(origin.y as int)) * (dir.z as int) == -(origin.y as int * dir.z as int))
            by (nonlinear_arith);
    }
    proof {
        assert(abs_s(numx as int) <= den as int * 1_000_000_000_000_000_000_000_000_000_000
            && abs_s(numz as int) <= den as int * 1_000_000_000_000_000_000_000_000_000_000)
            by (nonlinear_arith)
            requires
                1 <= den as int,
                abs_s(numx as int) <= 1_000_000_000_000_000_000_000_000_000_000,
                abs_s(numz as int) <= 1_000_000_000_000_000_000_000_000_000_000,
        ;
        lemma_tdiv_bound(numx as int, den as int, 1_000_000_000_000_000_000_000_000_000_000);
        lemma_tdiv_bound(numz as int, den as int, 1_000_000_000_000_000_000_000_000_000_000);
    }
    let hx: i128 = (origin.x as i128) + tdiv_i128(numx, den);
    let hz: i128 = (origin.z as i128) + tdiv_i128(numz, den);
    proof {
        assert(hx as int == ray_hit_x(origin, dir));
        assert(hz as int == ray_hit_z(origin, dir));
    }
    proof {
        assert(0 <= grid.hex_size as int * (WORLD_EXTENT as int)
            <= 1_000_000_000_000_000_000_000_000_000_000) by (nonlinear_arith)
            requires
                0 < grid.hex_size as int <= crate::coords::MAX_HEX_SIZE as int,
        ;
    }
    let ext: i128 = (grid.hex_size as i128) * (WORLD_EXTENT as i128);
    if hx < -ext || hx > ext || hz < -ext || hz > ext {
        hovered.coord = None;
        return ;
    }
    let hit = Vec3Fp { x: hx as i64, y: 0, z: hz as i64 };
    let c: HexCoord = HexCoord::from_world(hit, grid.hex_size);
    if grid.lookup(c).is_some() {
        hovered.coord = Some(c);
    } else {
        hovered.coord = None;
    }
}

/// Which display state a tile takes: selection wins over hover, hover over
/// the normal state.
pub open spec fn spec_highlight(
    c: HexCoord,
    hov: Option<HexCoord>,
    sel: Option<HexCoord>,
) -> Highlight {
    if sel == Some(c) {
        Highlight::Selected
    } else if hov == Some(c) {
        Highlight::Hovered
    } else {
        Highlight::Normal
    }
}

/// The per-tile decision of the highlight refresh: selected tiles show the
/// selection state, hovered tiles the hover state, all others the normal
/// state.
pub fn update_hex_highlights(
    tile_coord: HexCoord,
    hovered: &HoveredHex,
    state: &EditorState,
) -> (h: Highlight)
    ensures
        h == spec_highlight(tile_coord, hovered.coord, state.selected_hex),
{
    let is_selected: bool = match state.selected_hex {
        Some(s) => s == tile_coord,
        None => false,
    };
    let is_hovered: bool = match hovered.coord {
        Some(s) => s == tile_coord,
        None => false,
    };
    if is_selected {
        Highlight::Selected
    } else if is_hovered {
        Highlight::Hovered
    } else {
        Highlight::Normal
    }
}

/// On a primary-press edge the current hover value, present or absent,
/// becomes the selection; otherwise the selection is untouched.
pub fn handle_hex_click(state: &mut EditorState, just_pressed: bool, hovered: &HoveredHex)
    ensures
        just_pressed ==> final(state).selected_hex == hovered.coord,
        !just_pressed ==> final(state).selected_hex == old(state).selected_hex,
        final(state).brush_size == old(state).brush_size,
{
    if just_pressed {
        state.selected_hex = hovered.coord;
    }
}

impl Default for HoveredHex {
    /// No hex under the cursor.
    fn default() -> (h: Self)
        ensures
            h.coord is None,
    {
        HoveredHex { coord: None }
    }
}

impl Default for EditorState {
    /// Nothing selected, brush size zero.
    fn default() -> (s: Self)
        ensures
            s.selected_hex is None,
            s.brush_size == 0,
    {
        EditorState { selected_hex: None, brush_size: 0 }
    }
}

} // verus!
