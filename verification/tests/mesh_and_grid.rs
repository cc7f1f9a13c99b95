use hex_game::coords::HexCoord;
use hex_game::fixed::{Vec3Fp, SCALE};
use hex_game::grid::{spawn_hex_tile, spawn_initial_grid, HexGrid};
use hex_game::mesh::{create_hex_mesh, create_hex_outline};

#[test]
fn test_mesh_counts_and_index_range() {
    let m = create_hex_mesh(2_000_000, 400_000);
    assert_eq!(m.positions.len(), 38);
    assert_eq!(m.normals.len(), 38);
    assert_eq!(m.uvs.len(), 38);
    assert_eq!(m.indices.len(), 72);
    for &ix in &m.indices {
        assert!(ix < 38);
    }
}

#[test]
fn test_mesh_top_and_bottom_heights() {
    let height = 400_000i64;
    let m = create_hex_mesh(2_000_000, height);
    // Top fan: center plus six corners at y == height.
    for i in 0..7 {
        assert_eq!(m.positions[i].y, height);
    }
    // Bottom fan at y == 0.
    for i in 7..14 {
        assert_eq!(m.positions[i].y, 0);
    }
    // Each side quad: two top vertices then two bottom vertices.
    for s in 0..6 {
        let b = 14 + 4 * s;
        assert_eq!(m.positions[b].y, height);
        assert_eq!(m.positions[b + 1].y, height);
        assert_eq!(m.positions[b + 2].y, 0);
        assert_eq!(m.positions[b + 3].y, 0);
    }
}

#[test]
fn test_mesh_geometry_values() {
    let m = create_hex_mesh(2_000_000, 400_000);
    // Corner 0 sits at (size, 0), corner 1 at (size/2, size*sqrt(3)/2).
    assert_eq!(m.positions[1], Vec3Fp { x: 2_000_000, y: 400_000, z: 0 });
    assert_eq!(m.positions[2], Vec3Fp { x: 1_000_000, y: 400_000, z: 1_732_050 });
    // Top face normals point up, bottom face normals point down.
    assert_eq!(m.normals[0], Vec3Fp { x: 0, y: SCALE, z: 0 });
    assert_eq!(m.normals[7], Vec3Fp { x: 0, y: -SCALE, z: 0 });
    // Side 1 faces +z; its normal is the unit vector at 90 degrees.
    assert_eq!(m.normals[14 + 4], Vec3Fp { x: 0, y: 0, z: SCALE });
    // Center UV is (0.5, 0.5); corner 1 UV maps the offset into [0,1]^2.
    assert_eq!((m.uvs[0].u, m.uvs[0].v), (500_000, 500_000));
    assert_eq!((m.uvs[2].u, m.uvs[2].v), (750_000, 933_012));
    // First top triangle fans center -> corner 0 -> corner 1.
    assert_eq!(&m.indices[0..3], &[0, 1, 2]);
    // Bottom face winds the opposite way.
    assert_eq!(&m.indices[18..21], &[7, 9, 8]);
    // First side quad: two triangles over vertices 14..18.
    assert_eq!(&m.indices[36..42], &[14, 15, 16, 14, 16, 17]);
}

#[test]
fn test_outline() {
    let m = create_hex_outline(2_000_000);
    assert_eq!(m.positions.len(), 7);
    assert_eq!(m.normals.len(), 7);
    assert_eq!(m.indices.len(), 12);
    // The seventh vertex repeats the first corner, closing the loop.
    assert_eq!(m.positions[6], m.positions[0]);
    assert_eq!(m.positions[0], Vec3Fp { x: 2_000_000, y: 10_000, z: 0 });
    for i in 0..6 {
        assert_eq!(m.indices[2 * i] as usize, i);
        assert_eq!(m.indices[2 * i + 1] as usize, i + 1);
    }
}

#[test]
fn test_spawn_and_lookup() {
    let mut grid = HexGrid::new(SCALE, 200_000);
    let c = HexCoord::new(2, -1);
    assert_eq!(grid.lookup(c), None);
    let h = spawn_hex_tile(&mut grid, c, 3);
    assert_eq!(h, 0);
    assert_eq!(grid.lookup(c), Some(0));
    let t = grid.get_tile(c).unwrap();
    assert_eq!(t.coord, c);
    assert_eq!(t.elevation, 3);
    // World position with y overridden to elevation * hex_height.
    assert_eq!(t.position.y, 600_000);
    assert_eq!(t.position.x, c.to_world(SCALE).x);
    assert_eq!(t.position.z, c.to_world(SCALE).z);
}

#[test]
fn test_spawn_overwrite_replaces_handle() {
    let mut grid = HexGrid::new(SCALE, 200_000);
    let c = HexCoord::new(1, 1);
    let first = spawn_hex_tile(&mut grid, c, 0);
    let second = spawn_hex_tile(&mut grid, c, 5);
    assert_ne!(first, second);
    // Last write wins: the newest handle, the old one unreachable.
    assert_eq!(grid.lookup(c), Some(second));
    assert_eq!(grid.get_tile(c).unwrap().elevation, 5);
    // A different coordinate is untouched.
    assert_eq!(grid.lookup(HexCoord::new(0, 0)), None);
}

#[test]
fn test_spawn_initial_grid_fills_disk() {
    let mut grid = HexGrid::new(SCALE, 200_000);
    spawn_initial_grid(&mut grid, 2);
    let origin = HexCoord::new(0, 0);
    let mut count = 0;
    for q in -4..5i32 {
        for r in -4..5i32 {
            let c = HexCoord::new(q, r);
            let within = origin.distance(&c) <= 2;
            assert_eq!(grid.lookup(c).is_some(), within, "at {:?}", c);
            if within {
                count += 1;
                let t = grid.get_tile(c).unwrap();
                assert_eq!(t.elevation, 0);
                // Each tile's stored translation is its world position.
                assert_eq!(t.position, c.to_world(SCALE));
            }
        }
    }
    // A hex disk of radius 2 holds 1 + 6 + 12 = 19 cells.
    assert_eq!(count, 19);
}
