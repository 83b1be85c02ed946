use rtr::ivec2;
use rtr::IVec2;

#[test]
fn ivec2_components() {
    let v = ivec2(3, -4);
    assert_eq!(v.x, 3);
    assert_eq!(v.y, -4);
}

#[test]
fn add_components() {
    let v = ivec2(1, 2) + ivec2(30, -40);
    assert_eq!(v, ivec2(31, -38));
}

#[test]
fn sub_components() {
    let v = ivec2(1, 2) - ivec2(30, -40);
    assert_eq!(v, ivec2(-29, 42));
}

#[test]
fn mul_components() {
    let v = ivec2(3, -2) * ivec2(4, 5);
    assert_eq!(v, ivec2(12, -10));
}

#[test]
fn div_truncates_toward_zero() {
    assert_eq!(ivec2(7, -7) / ivec2(2, 2), ivec2(3, -3));
    assert_eq!(ivec2(7, -7) / ivec2(-2, -2), ivec2(-3, 3));
    assert_eq!(ivec2(1, 2) / ivec2(3, 4), ivec2(0, 0));
}

#[test]
fn rem_carries_dividend_sign() {
    assert_eq!(ivec2(7, -7) % ivec2(2, 2), ivec2(1, -1));
    assert_eq!(ivec2(7, -7) % ivec2(-2, -2), ivec2(1, -1));
}

#[test]
fn neg_flips_both_components() {
    assert_eq!(-ivec2(5, -6), ivec2(-5, 6));
}

#[test]
fn abs_is_component_wise() {
    assert_eq!(ivec2(-3, 4).abs(), ivec2(3, 4));
    assert_eq!(ivec2(0, -1).abs(), ivec2(0, 1));
}

#[test]
fn dot_product() {
    assert_eq!(ivec2(1, 2).dot(&ivec2(3, 4)), 11);
    assert_eq!(ivec2(-1, 2).dot(&ivec2(2, 1)), 0);
}

#[test]
fn dot_is_symmetric() {
    let a = ivec2(-7, 11);
    let b = ivec2(13, -5);
    assert_eq!(a.dot(&b), b.dot(&a));
}

#[test]
fn scalar_mul_both_sides() {
    assert_eq!(ivec2(2, -3) * 4, ivec2(8, -12));
    assert_eq!(4 * ivec2(2, -3), ivec2(8, -12));
}

#[test]
fn scalar_div() {
    assert_eq!(ivec2(9, -9) / 2, ivec2(4, -4));
}

#[test]
fn equality_is_component_wise() {
    assert_eq!(ivec2(1, 2), ivec2(1, 2));
    assert_ne!(ivec2(1, 2), ivec2(1, 3));
    assert_ne!(ivec2(1, 2), ivec2(0, 2));
}

#[test]
fn partial_order_equal() {
    assert_eq!(
        ivec2(1, 2).partial_cmp(&ivec2(1, 2)),
        Some(std::cmp::Ordering::Equal)
    );
}

#[test]
fn partial_order_greater() {
    assert_eq!(
        ivec2(2, 2).partial_cmp(&ivec2(1, 2)),
        Some(std::cmp::Ordering::Greater)
    );
    assert!(ivec2(2, 3) > ivec2(1, 2));
}

#[test]
fn partial_order_less() {
    assert_eq!(
        ivec2(0, 2).partial_cmp(&ivec2(1, 2)),
        Some(std::cmp::Ordering::Less)
    );
    assert!(ivec2(0, 1) < ivec2(1, 2));
}

#[test]
fn partial_order_incomparable() {
    assert_eq!(ivec2(0, 3).partial_cmp(&ivec2(1, 2)), None);
    assert_eq!(ivec2(1, 2).partial_cmp(&ivec2(0, 3)), None);
    assert!(!(ivec2(0, 3) < ivec2(1, 2)));
    assert!(!(ivec2(0, 3) > ivec2(1, 2)));
}

#[test]
fn partial_order_flips_with_operands() {
    let a = ivec2(1, 1);
    let b = ivec2(2, 1);
    assert_eq!(a.partial_cmp(&b), Some(std::cmp::Ordering::Less));
    assert_eq!(b.partial_cmp(&a), Some(std::cmp::Ordering::Greater));
}

#[test]
fn default_is_zero() {
    let v = IVec2::default();
    assert_eq!(v, ivec2(0, 0));
}

#[test]
fn assign_ops_match_binary_ops() {
    let mut v = ivec2(10, -10);
    v.add_assign(ivec2(1, 2));
    assert_eq!(v, ivec2(11, -8));
    v.sub_assign(ivec2(2, 1));
    assert_eq!(v, ivec2(9, -9));
    v.mul_assign(ivec2(2, 3));
    assert_eq!(v, ivec2(18, -27));
    v.div_assign(ivec2(4, 4));
    assert_eq!(v, ivec2(4, -6));
    v.rem_assign(ivec2(3, 5));
    assert_eq!(v, ivec2(1, -1));
}

#[test]
fn add_commutes() {
    let a = ivec2(17, -9);
    let b = ivec2(-3, 25);
    assert_eq!(a + b, b + a);
}

#[test]
fn add_then_sub_cancels() {
    let a = ivec2(17, -9);
    let b = ivec2(-3, 25);
    assert_eq!(a + b - b, a);
}
