use cuv::{
    norm_squared, pack_projected, table_norms, table_point_at, unpack_code, CompUnitVec,
    LatticePoint, Signs, TABLE_LEN,
};

const NONE: Signs = Signs { x: false, y: false, z: false };

fn point(x: i32, y: i32, z: i32) -> LatticePoint {
    LatticePoint { x, y, z }
}

#[test]
fn axis_vector_packs_to_255() {
    // (1, 0, 0) projects to the lattice point (126, 0).
    assert_eq!(pack_projected(NONE, 126, 0), 255);
}

#[test]
fn axis_code_unpacks_to_axis_point() {
    let u = unpack_code(255);
    assert_eq!(u.signs, NONE);
    assert_eq!(u.point, point(126, 0, 0));
    assert_eq!(u.table_index, 255);
}

#[test]
fn from_u16_keeps_the_code() {
    let cv = CompUnitVec::from_u16(255);
    assert_eq!(cv.get_u16(), 255);
    assert_eq!(unpack_code(cv.get_u16()).point, point(126, 0, 0));
}

#[test]
fn zero_projection_packs_to_zero() {
    // Zero, infinite, NaN and the largest finite inputs all project to (0, 0).
    assert_eq!(pack_projected(NONE, 0, 0), 0);
    let u = unpack_code(0);
    assert_eq!(u.point, point(0, 0, 126));
    assert_eq!(u.table_index, 0);
}

#[test]
fn negative_x_with_zero_projection() {
    let signs = Signs { x: true, y: false, z: false };
    assert_eq!(pack_projected(signs, 0, 0), 32768);
    let u = unpack_code(32768);
    assert_eq!(u.signs, signs);
    assert_eq!(u.point, point(0, 0, 126));
    assert_eq!(u.table_index, 0);
}

#[test]
fn all_negative_with_zero_projection() {
    let signs = Signs { x: true, y: true, z: true };
    assert_eq!(pack_projected(signs, 0, 0), 57344);
    let u = unpack_code(57344);
    assert_eq!(u.signs, signs);
    assert_eq!(u.point, point(0, 0, 126));
}

#[test]
fn saturated_x_projection() {
    // The smallest positive normal x alone saturates the projection of x.
    assert_eq!(pack_projected(NONE, i32::MAX, 0), 16511);
    let u = unpack_code(16511);
    assert_eq!(u.signs, Signs { x: false, y: true, z: false });
    assert_eq!(u.point, point(127, 0, -1));
    assert_eq!(u.table_index, 127);
}

#[test]
fn saturated_x_and_y_projections() {
    assert_eq!(pack_projected(NONE, i32::MAX, i32::MAX), 16512);
    let u = unpack_code(16512);
    assert_eq!(u.signs, Signs { x: false, y: true, z: false });
    assert_eq!(u.point, point(1, 0, 125));
    assert_eq!(u.table_index, 128);
}

#[test]
fn encoder_folds_from_64() {
    assert_eq!(pack_projected(NONE, 63, 0), 63 * 128);
    assert_eq!(pack_projected(NONE, 64, 0), 63 * 128 + 127);
    assert_eq!(unpack_code(63 * 128 + 127).point, point(64, 0, 62));
    assert_eq!(pack_projected(NONE, 64, 62), 63 * 128 + 65);
    assert_eq!(unpack_code(63 * 128 + 65).point, point(64, 62, 0));
}

#[test]
fn decoder_folds_when_raw_sum_reaches_127() {
    assert_eq!(unpack_code(126).point, point(0, 126, 0));
    assert_eq!(unpack_code(127).point, point(127, 0, -1));
    assert_eq!(unpack_code(128 + 126).point, point(126, 1, -1));
    assert_eq!(unpack_code(63 * 128 + 127).point, point(64, 0, 62));
}

#[test]
fn round_trip_on_every_lattice_point() {
    for bits in 0..8u8 {
        let signs = Signs { x: bits & 4 != 0, y: bits & 2 != 0, z: bits & 1 != 0 };
        for xb in 0..=126i32 {
            for yb in 0..=(126 - xb) {
                let u = unpack_code(pack_projected(signs, xb, yb));
                assert_eq!(u.signs, signs);
                assert_eq!(u.point, point(xb, yb, 126 - xb - yb));
            }
        }
    }
}

#[test]
fn every_code_unpacks_onto_the_octant() {
    for c in 0..=u16::MAX {
        let u = unpack_code(c);
        let p = u.point;
        assert_eq!(p.x + p.y + p.z, 126);
        assert!((0..=127).contains(&p.x));
        assert!((0..=127).contains(&p.y));
        assert!((-1..=126).contains(&p.z));
        assert_eq!(u.table_index, (c & 0x1fff) as usize);
        assert_eq!(table_point_at(u.table_index as u16), p);
        assert!(norm_squared(p) >= 5292);
        assert_eq!(u.signs.x, c & 0x8000 != 0);
        assert_eq!(u.signs.y, c & 0x4000 != 0);
        assert_eq!(u.signs.z, c & 0x2000 != 0);
    }
}

#[test]
fn table_has_one_positive_finite_factor_per_index() {
    let norms = table_norms();
    assert_eq!(norms.len(), TABLE_LEN);
    assert_eq!(TABLE_LEN, 8192);
    for n in &norms {
        let factor = 1.0_f32 / (*n as f32).sqrt();
        assert!(factor.is_finite());
        assert!(factor > 0.0);
    }
    assert_eq!(norms[0], 126 * 126);
    assert_eq!(norms[127], 127 * 127 + 1);
    assert_eq!(norms[128], 1 + 125 * 125);
    assert_eq!(norms[255], 126 * 126);
}

#[test]
fn table_points_fold_raw_coordinates() {
    assert_eq!(table_point_at(0), point(0, 0, 126));
    assert_eq!(table_point_at(1), point(0, 1, 125));
    assert_eq!(table_point_at(127), point(127, 0, -1));
    assert_eq!(table_point_at(0x1fff), point(64, 0, 62));
}

#[test]
fn norm_squared_is_exact() {
    assert_eq!(norm_squared(point(0, 0, 126)), 15876);
    assert_eq!(norm_squared(point(42, 42, 42)), 5292);
    assert_eq!(norm_squared(point(127, 0, -1)), 16130);
}

#[test]
fn repeated_calls_agree() {
    assert_eq!(table_norms(), table_norms());
    for c in [0u16, 255, 16511, 57344, 65535] {
        assert_eq!(unpack_code(c), unpack_code(c));
    }
    let signs = Signs { x: true, y: false, z: true };
    assert_eq!(pack_projected(signs, 17, 99), pack_projected(signs, 17, 99));
}
