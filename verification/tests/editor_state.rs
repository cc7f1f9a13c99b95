use hex_game::camera::{EditorCamera, MAX_PITCH, MIN_RADIUS};
use hex_game::coords::HexCoord;
use hex_game::fixed::{Vec3Fp, SCALE};
use hex_game::grid::{spawn_initial_grid, HexGrid};
use hex_game::interact::{
    handle_hex_click, raycast_hex_grid, update_hex_highlights, EditorState, Highlight, HoveredHex,
};

#[test]
fn test_camera_default() {
    let cam = EditorCamera::default();
    assert_eq!(cam.focus, Vec3Fp { x: 0, y: 0, z: 0 });
    assert_eq!(cam.radius, 20_000_000);
    assert_eq!(cam.pitch, 785_398);
    assert_eq!(cam.yaw, 785_398);
}

#[test]
fn test_zoom_step_and_floor() {
    // Scroll 1 at radius 20 gives 20 - 20*0.1 = 18.
    let mut cam = EditorCamera::default();
    cam.zoom(SCALE);
    assert_eq!(cam.radius, 18_000_000);
    // Repeated positive scroll reaches the floor of 5 and never goes below.
    for _ in 0..100 {
        cam.zoom(SCALE);
        assert!(cam.radius >= MIN_RADIUS);
    }
    assert_eq!(cam.radius, MIN_RADIUS);
    cam.zoom(7 * SCALE);
    assert_eq!(cam.radius, MIN_RADIUS);
}

#[test]
fn test_zoom_inactive_is_no_op() {
    let mut cam = EditorCamera::default();
    cam.zoom(0);
    assert_eq!(cam.radius, 20_000_000);
}

#[test]
fn test_pitch_clamps_at_max() {
    // Pitch starts at 45 degrees; a large upward motion clamps exactly at
    // pi/2 - 0.1 rad, not beyond.
    let mut cam = EditorCamera::default();
    cam.orbit(true, 0, 200_000_000);
    assert_eq!(cam.pitch, MAX_PITCH);
    assert_eq!(cam.pitch, 1_470_796);
    cam.orbit(true, 0, 200_000_000);
    assert_eq!(cam.pitch, MAX_PITCH);
}

#[test]
fn test_orbit_updates_yaw_and_gates() {
    let mut cam = EditorCamera::default();
    let yaw0 = cam.yaw;
    // Inactive input: no-op.
    cam.orbit(false, 10_000_000, 10_000_000);
    assert_eq!(cam.yaw, yaw0);
    // Zero motion: no-op.
    cam.orbit(true, 0, 0);
    assert_eq!(cam.yaw, yaw0);
    // 10 pixels of horizontal motion turn yaw by -10 * 0.005 rad.
    cam.orbit(true, 10_000_000, 0);
    assert_eq!(cam.yaw, yaw0 - 50_000);
    assert_eq!(cam.radius, 20_000_000);
}

#[test]
fn test_pan_moves_focus_scaled_by_radius() {
    let mut cam = EditorCamera::default();
    let right = Vec3Fp { x: SCALE, y: 0, z: 0 };
    let forward = Vec3Fp { x: 0, y: 0, z: SCALE };
    // Pan speed at radius 20 is 20*0.002 = 0.04 world units per pixel.
    cam.pan(true, SCALE, 2 * SCALE, right, forward);
    assert_eq!(cam.focus, Vec3Fp { x: -40_000, y: 0, z: 80_000 });
    assert_eq!(cam.radius, 20_000_000);
    assert_eq!(cam.pitch, 785_398);
    // Inactive: no-op.
    cam.pan(false, SCALE, SCALE, right, forward);
    assert_eq!(cam.focus, Vec3Fp { x: -40_000, y: 0, z: 80_000 });
}

fn small_grid() -> HexGrid {
    let mut grid = HexGrid::new(SCALE, 200_000);
    spawn_initial_grid(&mut grid, 2);
    grid
}

#[test]
fn test_horizontal_ray_never_hovers() {
    let grid = small_grid();
    let mut hovered = HoveredHex::default();
    for &origin in &[
        Vec3Fp { x: 0, y: 10_000_000, z: 0 },
        Vec3Fp { x: -5_000_000, y: 0, z: 3_000_000 },
        Vec3Fp { x: 123_456, y: -9_000_000, z: -7 },
    ] {
        hovered.coord = Some(HexCoord::new(0, 0));
        raycast_hex_grid(origin, Vec3Fp { x: SCALE, y: 0, z: SCALE }, &grid, &mut hovered);
        assert_eq!(hovered.coord, None);
    }
}

#[test]
fn test_ray_pointing_away_never_hovers() {
    let grid = small_grid();
    let mut hovered = HoveredHex::default();
    // Origin above the plane, direction upward: t < 0.
    raycast_hex_grid(
        Vec3Fp { x: 0, y: 10_000_000, z: 0 },
        Vec3Fp { x: 0, y: SCALE, z: 0 },
        &grid,
        &mut hovered,
    );
    assert_eq!(hovered.coord, None);
}

#[test]
fn test_raycast_resolves_hex_in_grid() {
    let grid = small_grid();
    let mut hovered = HoveredHex::default();
    // Straight down over the origin.
    raycast_hex_grid(
        Vec3Fp { x: 0, y: 10_000_000, z: 0 },
        Vec3Fp { x: 0, y: -SCALE, z: 0 },
        &grid,
        &mut hovered,
    );
    assert_eq!(hovered.coord, Some(HexCoord::new(0, 0)));
    // Straight down over the center of hex (1, 0).
    raycast_hex_grid(
        Vec3Fp { x: 1_732_051, y: 5_000_000, z: 0 },
        Vec3Fp { x: 0, y: -SCALE, z: 0 },
        &grid,
        &mut hovered,
    );
    assert_eq!(hovered.coord, Some(HexCoord::new(1, 0)));
}

#[test]
fn test_raycast_misses_beyond_grid() {
    let grid = small_grid();
    let mut hovered = HoveredHex { coord: Some(HexCoord::new(0, 0)) };
    // Hits the plane at hex (5, 0), outside the radius-2 grid.
    raycast_hex_grid(
        Vec3Fp { x: 8_660_255, y: 10_000_000, z: 0 },
        Vec3Fp { x: 0, y: -SCALE, z: 0 },
        &grid,
        &mut hovered,
    );
    assert_eq!(hovered.coord, None);
}

#[test]
fn test_click_selects_hover() {
    let mut state = EditorState::default();
    assert_eq!(state.selected_hex, None);
    let hovered = HoveredHex { coord: Some(HexCoord::new(1, -1)) };
    // No press edge: selection unchanged.
    handle_hex_click(&mut state, false, &hovered);
    assert_eq!(state.selected_hex, None);
    // Press edge: selection takes the hover value.
    handle_hex_click(&mut state, true, &hovered);
    assert_eq!(state.selected_hex, Some(HexCoord::new(1, -1)));
    // Press with empty hover clears the selection.
    handle_hex_click(&mut state, true, &HoveredHex { coord: None });
    assert_eq!(state.selected_hex, None);
}

#[test]
fn test_highlight_priority() {
    let c = HexCoord::new(0, 1);
    let other = HexCoord::new(2, 0);
    let hover_c = HoveredHex { coord: Some(c) };
    let sel_c = EditorState { selected_hex: Some(c), brush_size: 0 };
    let sel_none = EditorState { selected_hex: None, brush_size: 0 };
    // Selection wins over hover.
    assert_eq!(update_hex_highlights(c, &hover_c, &sel_c), Highlight::Selected);
    // Hover alone.
    assert_eq!(update_hex_highlights(c, &hover_c, &sel_none), Highlight::Hovered);
    // Neither.
    assert_eq!(update_hex_highlights(other, &hover_c, &sel_none), Highlight::Normal);
}
