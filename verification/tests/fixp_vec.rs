use void_core::fixp::{isqrt, sat_add, scale_i64, scale_i64_signed, SIM_LIMIT};
use void_core::vec3::Vec3;

#[test]
fn isqrt_exact_values() {
    assert_eq!(isqrt(0), 0);
    assert_eq!(isqrt(1), 1);
    assert_eq!(isqrt(3), 1);
    assert_eq!(isqrt(4), 2);
    assert_eq!(isqrt(99), 9);
    assert_eq!(isqrt(100), 10);
    assert_eq!(isqrt(1_000_000), 1000);
    assert_eq!(isqrt(25_000_000), 5000);
}

#[test]
fn isqrt_large_input() {
    let n: u128 = (1u128 << 94) - 1;
    let r = isqrt(n);
    assert_eq!(r, (1u64 << 47) - 1);
    assert!((r as u128) * (r as u128) <= n);
}

#[test]
fn scale_truncates_toward_zero() {
    assert_eq!(scale_i64(1500, 500), 750);
    assert_eq!(scale_i64(-1500, 500), -750);
    assert_eq!(scale_i64(999, 500), 499);
    assert_eq!(scale_i64(-999, 500), -499);
    assert_eq!(scale_i64(7, 1000), 7);
    assert_eq!(scale_i64(0, 999), 0);
}

#[test]
fn scale_signed_factor() {
    assert_eq!(scale_i64_signed(2000, -500), -1000);
    assert_eq!(scale_i64_signed(-2000, -500), 1000);
    assert_eq!(scale_i64_signed(2000, 500), 1000);
}

#[test]
fn sat_add_saturates_at_limit() {
    assert_eq!(sat_add(5, 7), 12);
    assert_eq!(sat_add(SIM_LIMIT, 1), SIM_LIMIT);
    assert_eq!(sat_add(-SIM_LIMIT, -1), -SIM_LIMIT);
    assert_eq!(sat_add(SIM_LIMIT - 3, 2), SIM_LIMIT - 1);
}

#[test]
fn vector_arithmetic() {
    let a = Vec3 { x: 1000, y: 2000, z: -500 };
    let b = Vec3 { x: -400, y: 100, z: 500 };
    assert_eq!(a.add(b), Vec3 { x: 600, y: 2100, z: 0 });
    assert_eq!(a.sub(b), Vec3 { x: 1400, y: 1900, z: -1000 });
    assert_eq!(a.scale(500), Vec3 { x: 500, y: 1000, z: -250 });
    assert_eq!(a.mag_sq(), 1000u128 * 1000 + 2000 * 2000 + 500 * 500);
}

#[test]
fn norm_and_direction_of_pythagorean_triple() {
    let v = Vec3 { x: 3000, y: 4000, z: 0 };
    assert_eq!(v.norm(), 5000);
    assert_eq!(v.normalized_milli(), Vec3 { x: 600, y: 800, z: 0 });
}

#[test]
fn direction_components_stay_within_one() {
    let v = Vec3 { x: 1, y: 1, z: 0 };
    let n = v.normalized_milli();
    assert!(n.x.abs() <= 1000 && n.y.abs() <= 1000 && n.z.abs() <= 1000);
}

#[test]
fn dot_with_direction() {
    let v = Vec3 { x: 2000, y: 0, z: 0 };
    let n = Vec3 { x: 1000, y: 0, z: 0 };
    assert_eq!(v.dot_milli(n), 2000);
    let diag = Vec3 { x: 600, y: 800, z: 0 };
    assert_eq!(v.dot_milli(diag), 1200);
}
