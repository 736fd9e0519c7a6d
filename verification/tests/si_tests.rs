use rust_ib2c::control_system::brake_velocity;
use rust_ib2c::si_units::{format_unit, to_superscript, SiUnit, SiValue, SI_SCALE};
use rust_ib2c::text::decimal_string;
use rust_ib2c::vector::{Vector, Vector2, Vector3};

#[test]
fn si_value_arithmetic() {
    let metres = SiUnit::metres();
    let two_m = SiValue::new(2 * SI_SCALE, metres);
    let three_m = SiValue::new(3 * SI_SCALE, metres);
    assert_eq!(two_m.add(three_m).as_value_in_base_units(), 5 * SI_SCALE);
    assert_eq!(three_m.sub(two_m).as_value_in_base_units(), SI_SCALE);
    assert!(two_m.lt(three_m));
    assert!(two_m.le(two_m));

    let area = two_m.mul(three_m);
    assert_eq!(area.as_value_in_base_units(), 6 * SI_SCALE);
    assert_eq!(area.unit(), SiUnit::new(2, 0, 0, 0, 0));

    let ratio = three_m.div(two_m);
    assert_eq!(ratio.as_value_in_base_units(), 1_500_000);
    assert_eq!(ratio.unit(), SiUnit::scalar());

    let half = two_m.inverse();
    assert_eq!(half.as_value_in_base_units(), 500_000);
    assert_eq!(half.unit(), SiUnit::new(-1, 0, 0, 0, 0));

    // Signs follow the usual rules, truncating toward zero.
    let minus = SiValue::new(-3 * SI_SCALE, metres);
    assert_eq!(minus.mul(two_m).as_value_in_base_units(), -6 * SI_SCALE);
    assert_eq!(minus.div(two_m).as_value_in_base_units(), -1_500_000);
}

#[test]
fn unit_labels_use_symbols_when_known() {
    let metres = SiValue::new(SI_SCALE, SiUnit::metres());
    assert_eq!(metres.unit_str(), " [m]");
    let hertz = SiValue::new(SI_SCALE, SiUnit::new(0, 0, -1, 0, 0));
    assert_eq!(hertz.unit_str(), " [Hz]");
    let newtons = SiValue::new(SI_SCALE, SiUnit::new(1, 1, -2, 0, 0));
    assert_eq!(newtons.unit_str(), " [N]");
    let ohms = SiValue::new(SI_SCALE, SiUnit::new(2, 1, -3, -2, 0));
    assert_eq!(ohms.unit_str(), " [Ω]");
    // An angular velocity shares its dimension with a frequency, so it
    // shares the symbol too.
    let turn = SiValue::new(SI_SCALE, SiUnit::radians_per_second());
    assert_eq!(turn.unit_str(), " [Hz]");
}

#[test]
fn unit_labels_are_built_from_exponents() {
    let scalar = SiValue::new(SI_SCALE, SiUnit::scalar());
    assert_eq!(scalar.unit_str(), "");
    let velocity = SiValue::new(SI_SCALE, SiUnit::metres_per_second());
    assert_eq!(velocity.unit_str(), " [m/s]");
    let acceleration = SiValue::new(SI_SCALE, SiUnit::new(1, 0, -2, 0, 0));
    assert_eq!(acceleration.unit_str(), " [m/s²]");
    let per_area = SiValue::new(SI_SCALE, SiUnit::new(-2, 0, 0, 0, 0));
    assert_eq!(per_area.unit_str(), " [1/m²]");
    let per_metre_second = SiValue::new(SI_SCALE, SiUnit::new(-1, 0, -1, 0, 0));
    assert_eq!(per_metre_second.unit_str(), " [1/(m·s)]");
    let volume = SiValue::new(SI_SCALE, SiUnit::new(3, 0, 0, 0, 0));
    assert_eq!(volume.unit_str(), " [m³]");
    let strange = SiValue::new(SI_SCALE, SiUnit::new(2, 1, 0, 0, -1));
    assert_eq!(strange.unit_str(), " [(kg·m²)/K]");
}

#[test]
fn superscripts_and_digits() {
    assert_eq!(to_superscript(0), "⁰");
    assert_eq!(to_superscript(12), "¹²");
    assert_eq!(to_superscript(-3), "⁻³");
    assert_eq!(format_unit("m", 1), "m");
    assert_eq!(format_unit("m", 2), "m²");
    assert_eq!(format_unit("s", -10), "s⁻¹⁰");
    assert_eq!(decimal_string(0), "0");
    assert_eq!(decimal_string(907), "907");
}

#[test]
fn brake_velocity_commands_a_full_stop() {
    let metres = SiUnit::metres();
    let min = SiValue::new(SI_SCALE, metres);
    // Far away: nothing commanded.
    assert!(brake_velocity(SiValue::new(5 * SI_SCALE, metres), min).is_none());
    // At the minimum distance exactly: still nothing commanded.
    assert!(brake_velocity(SiValue::new(SI_SCALE, metres), min).is_none());
    // Anywhere inside the minimum distance: a full stop.
    let v = brake_velocity(SiValue::new(SI_SCALE / 2, metres), min).unwrap();
    assert_eq!(v.as_value_in_base_units(), 0);
    assert_eq!(v.unit(), SiUnit::metres_per_second());
    let v = brake_velocity(SiValue::new(SI_SCALE / 10, metres), min).unwrap();
    assert_eq!(v.as_value_in_base_units(), 0);
}

#[test]
fn vectors_compute_dot_and_cross() {
    let a: Vector2<i64> = Vector::<i64, 2>::new(1, 2);
    let b: Vector2<i64> = Vector::<i64, 2>::new(3, 4);
    assert_eq!(a.dot(&b), 11);
    assert_eq!(a.cross(b), -2);
    assert_eq!(a.as_array(), &[1, 2]);
    assert_eq!(a.to_array(), [1, 2]);

    let c: Vector3<i64> = a.extend(5);
    assert_eq!(c.to_array(), [1, 2, 5]);
    let d: Vector3<i64> = Vector::<i64, 3>::new(1, 0, 0);
    let e: Vector3<i64> = Vector::<i64, 3>::new(0, 1, 0);
    assert_eq!(d.cross(e).to_array(), [0, 0, 1]);
    assert_eq!(d.extend(7).to_array(), [1, 0, 0, 7]);

    let mut f: Vector2<i64> = Vector::<i64, 2>::new(9, 9);
    f.as_mut_array()[0] = 1;
    assert_eq!(f.to_array(), [1, 9]);
}
