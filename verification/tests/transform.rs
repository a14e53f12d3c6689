use fractals::common::{linear_map, to_0rgb_u8, into_rows_mut, PlaneTransform};
use fractals::fixed::{Fixed, FIXED_SCALE};

#[test]
fn transform_identity_is_unchanged() {
    let t = PlaneTransform::new();
    let p = t.transform((Fixed::from_int(3), Fixed::from_int(-7)));
    assert_eq!(p.0, Fixed::from_int(3));
    assert_eq!(p.1, Fixed::from_int(-7));
}

#[test]
fn transform_applies_offsets_and_scale() {
    // transform(p) = (p - base_offset) * scale - transformed_offset
    let t = PlaneTransform::new()
        .scale((Fixed::from_int(2), Fixed::from_int(3)))
        .base_offset((Fixed::from_int(1), Fixed::from_int(2)))
        .transformed_offset((Fixed::from_int(10), Fixed::from_int(20)));
    let p = t.transform((Fixed::from_int(5), Fixed::from_int(4)));
    // x: (5 - 1) * 2 - 10 = -2;  y: (4 - 2) * 3 - 20 = -14
    assert_eq!(p.0, Fixed::from_int(-2));
    assert_eq!(p.1, Fixed::from_int(-14));
}

#[test]
fn scale_composes_multiplicatively() {
    let t = PlaneTransform::new()
        .scale((Fixed::from_int(2), Fixed::from_int(2)))
        .scale((Fixed::from_int(3), Fixed::from_int(5)));
    assert_eq!(t.scale_x, Fixed::from_int(6));
    assert_eq!(t.scale_y, Fixed::from_int(10));
}

#[test]
fn offsets_compose_additively() {
    let t = PlaneTransform::new()
        .base_offset((Fixed::from_int(1), Fixed::from_int(2)))
        .base_offset((Fixed::from_int(10), Fixed::from_int(20)))
        .transformed_offset((Fixed::from_int(-1), Fixed::from_int(-2)))
        .transformed_offset((Fixed::from_int(3), Fixed::from_int(4)));
    assert_eq!(t.base_offset_x, Fixed::from_int(11));
    assert_eq!(t.base_offset_y, Fixed::from_int(22));
    assert_eq!(t.transformed_offset_x, Fixed::from_int(2));
    assert_eq!(t.transformed_offset_y, Fixed::from_int(2));
}

#[test]
fn centre_with_large_scale_targets_negated_transformed_offset() {
    // scale >= 1: the base offset takes the half dimension, and the image
    // centre maps exactly onto the negated transformed offset.
    let t = PlaneTransform::new()
        .transformed_offset((Fixed::from_int(5), Fixed::from_int(7)))
        .centre((Fixed::from_int(100), Fixed::from_int(80)));
    assert_eq!(t.base_offset_x, Fixed::from_int(50));
    assert_eq!(t.base_offset_y, Fixed::from_int(40));
    let p = t.transform((Fixed::from_int(50), Fixed::from_int(40)));
    assert_eq!(p.0, Fixed::from_int(-5));
    assert_eq!(p.1, Fixed::from_int(-7));
}

#[test]
fn centre_with_small_scale_targets_origin() {
    // scale < 1 and a fresh (zero) base offset: the image centre maps
    // exactly onto the transformed-plane origin.
    let half = Fixed::from_raw(FIXED_SCALE / 2);
    let t = PlaneTransform::new().scale((half, half)).centre((
        Fixed::from_int(100),
        Fixed::from_int(80),
    ));
    assert_eq!(t.transformed_offset_x, Fixed::from_int(25));
    assert_eq!(t.transformed_offset_y, Fixed::from_int(20));
    let p = t.transform((Fixed::from_int(50), Fixed::from_int(40)));
    assert_eq!(p.0, Fixed::from_raw(0));
    assert_eq!(p.1, Fixed::from_raw(0));
}

#[test]
fn fixed_multiplication_truncates_toward_zero() {
    let third = Fixed::from_raw(FIXED_SCALE / 4);
    let v = Fixed::from_int(3).mul_sat(third);
    assert_eq!(v, Fixed::from_raw(3 * (FIXED_SCALE / 4)));
    let neg = Fixed::from_int(-3).mul_sat(third);
    assert_eq!(neg, Fixed::from_raw(-3 * (FIXED_SCALE / 4)));
}

#[test]
fn fixed_saturates_at_range_ends() {
    let big = Fixed::from_raw(i64::MAX);
    assert_eq!(big.add_sat(Fixed::from_int(1)).raw, i64::MAX);
    assert_eq!(big.mul_sat(Fixed::from_int(3)).raw, i64::MAX);
    let small = Fixed::from_raw(i64::MIN);
    assert_eq!(small.sub_sat(Fixed::from_int(1)).raw, i64::MIN);
}

#[test]
fn linear_map_exact_values() {
    assert_eq!(linear_map(5, 0, 10, 0, 100), 50);
    assert_eq!(linear_map(2, 0, 10, 100, 0), 80);
    assert_eq!(linear_map(1, 0, 3, 0, 10), 3);
    assert_eq!(linear_map(0, 0, 10, -5, 5), -5);
    assert_eq!(linear_map(10, 0, 10, -5, 5), 5);
}

#[test]
fn to_0rgb_u8_packs_channels() {
    assert_eq!(to_0rgb_u8(0xff, 0x80, 0x40), 0x00ff_8040);
    assert_eq!(to_0rgb_u8(0, 0, 0), 0);
    assert_eq!(to_0rgb_u8(1, 2, 3), 0x0001_0203);
}

#[test]
fn into_rows_splits_a_buffer() {
    let buf: Vec<u32> = vec![0, 1, 2, 3, 4, 5];
    let rows = into_rows_mut(buf, 3, 2);
    assert_eq!(rows.len(), 2);
    assert_eq!(rows[0], vec![0, 1, 2]);
    assert_eq!(rows[1], vec![3, 4, 5]);
}

#[test]
fn rows_tile_the_buffer_exactly() {
    // 100 rows of 4 elements tile the buffer with no gaps or overlaps: the
    // concatenation of the row slices is the buffer itself.
    let width: u32 = 4;
    let height: u32 = 100;
    let buf: Vec<u32> = (0..width * height).collect();
    let rows = into_rows_mut(buf.clone(), width, height);
    assert_eq!(rows.len(), height as usize);
    let mut rebuilt: Vec<u32> = Vec::new();
    for row in &rows {
        assert_eq!(row.len(), width as usize);
        rebuilt.extend_from_slice(row);
    }
    assert_eq!(rebuilt, buf);
}
