use rust_embedded::unit_interval::{SymmetricUnitInterval, UnitInterval};

#[test]
fn unit_interval_raw_round_trips_through_new() {
    assert_eq!(UnitInterval::new(0x1234_5678).raw(), 0x1234_5678);
    assert_eq!(SymmetricUnitInterval::new(-1).raw(), -1);
}

#[test]
fn unit_interval_addition_wraps_at_the_top() {
    let a = UnitInterval::new(u32::MAX);
    let b = UnitInterval::new(2);
    assert_eq!(a + b, UnitInterval::new(1));
}

#[test]
fn unit_interval_subtraction_wraps_at_the_bottom() {
    let a = UnitInterval::new(0);
    let b = UnitInterval::new(1);
    assert_eq!(a - b, UnitInterval::new(u32::MAX));
}

#[test]
fn unit_interval_saturating_add_clamps_at_max() {
    let a = UnitInterval::new(u32::MAX - 1);
    let b = UnitInterval::new(10);
    assert_eq!(a.saturating_add(b), UnitInterval::new(u32::MAX));
}

#[test]
fn unit_interval_saturating_sub_clamps_at_zero() {
    let a = UnitInterval::new(1);
    let b = UnitInterval::new(10);
    assert_eq!(a.saturating_sub(b), UnitInterval::new(0));
}

#[test]
fn unit_interval_mul_scales_and_wraps() {
    let a = UnitInterval::new(0x6000_0000);
    assert_eq!(a * 3, UnitInterval::new(0x6000_0000u32.wrapping_mul(3)));
}

#[test]
fn unit_interval_expand_maps_0_to_negative_1_and_1_to_1() {
    for (raw, expected) in [(0u32, i32::MIN), (0x8000_0000, 0), (u32::MAX, i32::MAX)] {
        assert_eq!(UnitInterval::new(raw).expand(), SymmetricUnitInterval::new(expected));
    }
}

#[test]
fn expand_and_shrink_are_exact_inverses() {
    for raw in [0u32, 1, 0x8000_0000, 0x1234_5678, u32::MAX] {
        let u = UnitInterval::new(raw);
        assert_eq!(u.expand().shrink(), u);
    }
    for raw in [i32::MIN, -1, 0, 1, i32::MAX] {
        let s = SymmetricUnitInterval::new(raw);
        assert_eq!(s.shrink().expand(), s);
    }
}

#[test]
fn into_symmetric_preserves_value_for_a_representable_unit_value() {
    let u = UnitInterval::new(0x4000_0000);
    let s: SymmetricUnitInterval = u.into();
    assert_eq!(s, SymmetricUnitInterval::new(0x2000_0000));
}

#[test]
fn into_unit_preserves_value_for_a_nonnegative_symmetric_value() {
    let s = SymmetricUnitInterval::new(0x2000_0000);
    let u: UnitInterval = s.into();
    assert_eq!(u, UnitInterval::new(0x4000_0000));
}

#[test]
fn into_unit_wraps_a_negative_symmetric_value_by_its_cyclic_span() {
    let s = SymmetricUnitInterval::new(-1);
    let u: UnitInterval = s.into();
    assert_eq!(u, UnitInterval::new(u32::MAX - 1));
}

#[test]
fn symmetric_addition_wraps_at_the_top() {
    let a = SymmetricUnitInterval::new(i32::MAX);
    let b = SymmetricUnitInterval::new(2);
    assert_eq!(a + b, SymmetricUnitInterval::new(i32::MIN + 1));
}

#[test]
fn symmetric_subtraction_wraps_at_the_bottom() {
    let a = SymmetricUnitInterval::new(i32::MIN);
    let b = SymmetricUnitInterval::new(1);
    assert_eq!(a - b, SymmetricUnitInterval::new(i32::MAX));
}

#[test]
fn symmetric_saturating_add_clamps_at_max() {
    let a = SymmetricUnitInterval::new(i32::MAX - 1);
    let b = SymmetricUnitInterval::new(10);
    assert_eq!(a.saturating_add(b), SymmetricUnitInterval::new(i32::MAX));
}

#[test]
fn symmetric_saturating_sub_clamps_at_min() {
    let a = SymmetricUnitInterval::new(i32::MIN + 1);
    let b = SymmetricUnitInterval::new(10);
    assert_eq!(a.saturating_sub(b), SymmetricUnitInterval::new(i32::MIN));
}

#[test]
fn symmetric_mul_scales_and_wraps() {
    let a = SymmetricUnitInterval::new(0x3000_0000);
    assert_eq!(a * 3, SymmetricUnitInterval::new(0x3000_0000i32.wrapping_mul(3)));
}

#[test]
fn saturating_operations_within_range_are_exact() {
    assert_eq!(UnitInterval::new(5).saturating_add(UnitInterval::new(7)), UnitInterval::new(12));
    assert_eq!(UnitInterval::new(7).saturating_sub(UnitInterval::new(5)), UnitInterval::new(2));
    assert_eq!(
        SymmetricUnitInterval::new(-5).saturating_add(SymmetricUnitInterval::new(7)),
        SymmetricUnitInterval::new(2)
    );
    assert_eq!(
        SymmetricUnitInterval::new(-5).saturating_sub(SymmetricUnitInterval::new(7)),
        SymmetricUnitInterval::new(-12)
    );
}
