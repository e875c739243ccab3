use glamcore::{ivec4, uvec4, BVec4, IVec2, IVec3, IVec4, UVec3, UVec4};

#[test]
fn from_vec3() {
    let v: IVec4 = (IVec3::new(1, 2, 3), 4).into();
    assert_eq!(ivec4(1, 2, 3, 4), v);
}

#[test]
fn unsigned_from_vec3() {
    let v: UVec4 = (UVec3::new(1, 2, 3), 4).into();
    assert_eq!(uvec4(1, 2, 3, 4), v);
    assert_eq!(UVec3::new(1, 2, 3).extend(4), v);
}

#[test]
fn unit_axes() {
    assert_eq!(IVec4::unit_x(), IVec4::new(1, 0, 0, 0));
    assert_eq!(IVec4::unit_y(), IVec4::new(0, 1, 0, 0));
    assert_eq!(IVec4::unit_z(), IVec4::new(0, 0, 1, 0));
    assert_eq!(IVec4::unit_w(), IVec4::new(0, 0, 0, 1));
    assert_eq!(UVec4::unit_x(), UVec4::new(1, 0, 0, 0));
    assert_eq!(UVec4::unit_y(), UVec4::new(0, 1, 0, 0));
    assert_eq!(UVec4::unit_z(), UVec4::new(0, 0, 1, 0));
    assert_eq!(UVec4::unit_w(), UVec4::new(0, 0, 0, 1));
    assert_eq!(IVec4::zero(), ivec4(0, 0, 0, 0));
    assert_eq!(IVec4::one(), ivec4(1, 1, 1, 1));
    assert_eq!(UVec4::zero(), uvec4(0, 0, 0, 0));
    assert_eq!(UVec4::one(), uvec4(1, 1, 1, 1));
}

#[test]
fn display_form() {
    assert_eq!(IVec4::new(1, 2, 3, 4).to_display_string(), "[1, 2, 3, 4]");
    assert_eq!(UVec4::new(1, 2, 3, 4).to_display_string(), "[1, 2, 3, 4]");
    assert_eq!(
        IVec4::new(-5, 0, i32::MIN, i32::MAX).to_display_string(),
        "[-5, 0, -2147483648, 2147483647]"
    );
    assert_eq!(
        UVec4::new(0, 10, 409, u32::MAX).to_display_string(),
        "[0, 10, 409, 4294967295]"
    );
}

#[test]
fn debug_form() {
    assert_eq!(IVec4::new(1, -2, 30, 4).to_debug_string(), "IVec4(1, -2, 30, 4)");
    assert_eq!(UVec4::new(1, 2, 30, 4).to_debug_string(), "UVec4(1, 2, 30, 4)");
}

#[test]
fn tuple_round_trip() {
    let v = ivec4(7, -8, 9, i32::MIN);
    let t: (i32, i32, i32, i32) = v.into();
    assert_eq!(t, (7, -8, 9, i32::MIN));
    assert_eq!(IVec4::from(t), v);
    let u = uvec4(7, 8, 9, u32::MAX);
    let t: (u32, u32, u32, u32) = u.into();
    assert_eq!(t, (7, 8, 9, u32::MAX));
    assert_eq!(UVec4::from(t), u);
}

#[test]
fn truncate_and_extend() {
    let v3 = IVec3::new(3, -4, 5);
    assert_eq!(v3.extend(6).truncate(), v3);
    assert_eq!(ivec4(1, 2, 3, 4).truncate(), IVec3::new(1, 2, 3));
    assert_eq!(IVec3::from(ivec4(1, 2, 3, 4)), IVec3::new(1, 2, 3));
    assert_eq!(IVec2::from(ivec4(1, 2, 3, 4)), IVec2::new(1, 2));
    assert_eq!(uvec4(1, 2, 3, 4).truncate(), UVec3::new(1, 2, 3));
}

#[test]
fn dot_product() {
    assert_eq!(ivec4(1, 2, 3, 4).dot(ivec4(5, -6, 7, 8)), 5 - 12 + 21 + 32);
    assert_eq!(uvec4(1, 2, 3, 4).dot(uvec4(5, 6, 7, 8)), 70);
    assert_eq!(ivec4(i32::MAX, 0, 0, 0).dot(ivec4(2, 0, 0, 0)), i32::MAX.wrapping_mul(2));
    assert_eq!(uvec4(u32::MAX, 1, 0, 0).dot(uvec4(u32::MAX, 3, 0, 0)), 4);
}

#[test]
fn min_max_clamp() {
    let a = ivec4(1, -5, 3, 0);
    let b = ivec4(2, -6, 3, -1);
    assert_eq!(a.min(b), ivec4(1, -6, 3, -1));
    assert_eq!(a.max(b), ivec4(2, -5, 3, 0));
    assert_eq!(
        ivec4(-10, 0, 10, 5).clamp(ivec4(-3, -3, -3, -3), ivec4(3, 3, 3, 3)),
        ivec4(-3, 0, 3, 3)
    );
    assert_eq!(uvec4(1, 9, 3, 0).min(uvec4(2, 8, 3, 1)), uvec4(1, 8, 3, 0));
    assert_eq!(uvec4(1, 9, 3, 0).max(uvec4(2, 8, 3, 1)), uvec4(2, 9, 3, 1));
}

#[test]
fn signed_operations() {
    assert_eq!(-ivec4(1, -2, 0, i32::MIN), ivec4(-1, 2, 0, i32::MIN));
    assert_eq!(ivec4(1, -2, 0, i32::MIN).abs(), ivec4(1, 2, 0, i32::MIN));
    assert_eq!(ivec4(7, -2, 0, i32::MIN).signum(), ivec4(1, -1, 0, -1));
}

#[test]
fn comparison_masks() {
    let a = ivec4(1, 2, 3, 4);
    let b = ivec4(1, 3, 2, 4);
    assert_eq!(a.cmpeq(b), BVec4::new(true, false, false, true));
    assert_eq!(a.cmpne(b), BVec4::new(false, true, true, false));
    assert_eq!(a.cmplt(b), BVec4::new(false, true, false, false));
    assert_eq!(a.cmple(b), BVec4::new(true, true, false, true));
    assert_eq!(a.cmpgt(b), BVec4::new(false, false, true, false));
    assert_eq!(a.cmpge(b), BVec4::new(true, false, true, true));
    assert!(a.cmpeq(b).any());
    assert!(!a.cmpeq(b).all());
    assert!(a.cmpeq(a).all());
    assert!(!a.cmpne(a).any());
    assert_eq!(uvec4(1, 2, 3, 4).cmplt(uvec4(2, 2, 2, 2)), BVec4::new(true, false, false, false));
}

#[test]
fn domain_casts() {
    assert_eq!(ivec4(-1, 0, 5, i32::MIN).as_u32(), uvec4(u32::MAX, 0, 5, 0x8000_0000));
    assert_eq!(uvec4(u32::MAX, 0, 5, 0x8000_0000).as_i32(), ivec4(-1, 0, 5, i32::MIN));
    let v = ivec4(-7, 8, i32::MAX, i32::MIN);
    assert_eq!(v.as_u32().as_i32(), v);
    let u = uvec4(0, 1, u32::MAX, 0x7fff_ffff);
    assert_eq!(u.as_i32().as_u32(), u);
}

#[test]
fn signed_arithmetic_wraps() {
    let a = ivec4(1, -2, i32::MAX, i32::MIN);
    let b = ivec4(10, 20, 1, -1);
    assert_eq!(a + b, ivec4(11, 18, i32::MIN, i32::MAX));
    assert_eq!(a - b, ivec4(-9, -22, i32::MAX - 1, i32::MIN + 1));
    assert_eq!(a * b, ivec4(10, -40, i32::MAX, i32::MIN));
    assert_eq!(ivec4(0x10000, 3, -4, 5) * ivec4(0x10000, 3, 4, 5), ivec4(0, 9, -16, 25));
}

#[test]
fn unsigned_arithmetic_wraps() {
    let a = uvec4(1, 2, u32::MAX, 0);
    let b = uvec4(10, 20, 1, 1);
    assert_eq!(a + b, uvec4(11, 22, 0, 1));
    assert_eq!(a - b, uvec4(u32::MAX - 8, u32::MAX - 17, u32::MAX - 1, u32::MAX));
    assert_eq!(a * b, uvec4(10, 40, u32::MAX, 0));
    assert_eq!(uvec4(0x10000, 3, 4, 5) * uvec4(0x10000, 3, 4, 5), uvec4(0, 9, 16, 25));
}
