use hex_game::coords::HexCoord;
use hex_game::fixed::{Vec3Fp, SCALE};

#[test]
fn test_distance() {
    let a = HexCoord::new(0, 0);
    let b = HexCoord::new(2, -1);
    assert_eq!(a.distance(&b), 2);
}

#[test]
fn test_neighbors() {
    let center = HexCoord::new(0, 0);
    let neighbors = center.neighbors();
    assert_eq!(neighbors.len(), 6);
    for neighbor in &neighbors {
        assert_eq!(center.distance(neighbor), 1);
    }
}

#[test]
fn test_neighbor_order_and_distinct() {
    let c = HexCoord::new(3, -1);
    let n = c.neighbors();
    assert_eq!(n[0], HexCoord::new(4, -1));
    assert_eq!(n[1], HexCoord::new(4, -2));
    assert_eq!(n[2], HexCoord::new(3, -2));
    assert_eq!(n[3], HexCoord::new(2, -1));
    assert_eq!(n[4], HexCoord::new(2, 0));
    assert_eq!(n[5], HexCoord::new(3, 0));
    for i in 0..6 {
        for j in 0..6 {
            if i != j {
                assert_ne!(n[i], n[j]);
            }
        }
    }
}

#[test]
fn test_distance_symmetric_and_zero() {
    let a = HexCoord::new(-4, 7);
    let b = HexCoord::new(5, -2);
    assert_eq!(a.distance(&b), b.distance(&a));
    assert_eq!(a.distance(&a), 0);
    assert!(a.distance(&b) > 0);
}

#[test]
fn test_s_coordinate() {
    let c = HexCoord::new(2, -5);
    assert_eq!(c.s(), 3);
    assert_eq!(c.q + c.r + c.s(), 0);
}

#[test]
fn test_to_world_values() {
    // size 1.0: x = sqrt(3)*q + sqrt(3)/2*r, z = 3/2*r, in sub-units.
    let p = HexCoord::new(1, 0).to_world(SCALE);
    assert_eq!(p, Vec3Fp { x: 1_732_051, y: 0, z: 0 });
    let p = HexCoord::new(3, -2).to_world(SCALE);
    assert_eq!(p, Vec3Fp { x: 3_464_102, y: 0, z: -3_000_000 });
    let p = HexCoord::new(0, 0).to_world(250_000);
    assert_eq!(p, Vec3Fp { x: 0, y: 0, z: 0 });
}

#[test]
fn test_from_world_inside_cell() {
    // Points well inside a cell resolve to that cell.
    assert_eq!(
        HexCoord::from_world(Vec3Fp { x: 0, y: 0, z: 0 }, SCALE),
        HexCoord::new(0, 0)
    );
    assert_eq!(
        HexCoord::from_world(Vec3Fp { x: 200_000, y: 0, z: 100_000 }, SCALE),
        HexCoord::new(0, 0)
    );
    assert_eq!(
        HexCoord::from_world(Vec3Fp { x: 1_700_000, y: 0, z: 100_000 }, SCALE),
        HexCoord::new(1, 0)
    );
}

#[test]
fn test_world_round_trip() {
    // from_world(to_world(c)) == c over a spread of coordinates and sizes.
    for &size in &[10_000i64, 500_000, 1_000_000, 2_500_000, 1_000_000_000] {
        for q in -30..31i32 {
            for r in -30..31i32 {
                let c = HexCoord::new(q, r);
                let p = c.to_world(size);
                assert_eq!(HexCoord::from_world(p, size), c, "size {} q {} r {}", size, q, r);
            }
        }
    }
}

#[test]
fn test_axial_round_ties() {
    // Exactly between two cells in q: rounding half away from zero, then the
    // correction path, lands on (1, 0).
    assert_eq!(HexCoord::axial_round(500_000, 0), HexCoord::new(1, 0));
    // q and r errors tied: the tie-break corrects r, not q.
    assert_eq!(HexCoord::axial_round(400_000, 400_000), HexCoord::new(0, 1));
    // A lattice point rounds to itself.
    assert_eq!(
        HexCoord::axial_round(-3 * SCALE, 2 * SCALE),
        HexCoord::new(-3, 2)
    );
}

#[test]
fn test_distance_large_coordinates() {
    // The domain reaches far beyond the conversion range: only a result that
    // would not fit the return type is excluded.
    let a = HexCoord::new(536_870_912, 0);
    let b = HexCoord::new(-536_870_912, 0);
    assert_eq!(a.distance(&b), 1_073_741_824);
    assert_eq!(b.distance(&a), 1_073_741_824);
    let c = HexCoord::new(536_870_912, 536_870_912);
    assert_eq!(c.s(), -1_073_741_824);
}

#[test]
fn test_world_round_trip_extremes() {
    // The corners of the supported coordinate range survive the round trip.
    for &(q, r) in &[
        (1_000_000, -1_000_000),
        (-999_999, 500_000),
        (1_000_000, 1_000_000),
        (-1_000_000, -1_000_000),
    ] {
        let c = HexCoord::new(q, r);
        for &size in &[10_000i64, SCALE, 1_000_000_000] {
            let p = c.to_world(size);
            assert_eq!(HexCoord::from_world(p, size), c);
        }
    }
}
