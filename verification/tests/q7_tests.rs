use bytecode_vm::q7::Q7;

#[test]
fn out_of_bounds() {
    assert_eq!(
        Q7::from_scaled((10. * 128.0) as i32),
        Q7::from_scaled((1. * 128.0) as i32)
    );
    assert_eq!(
        Q7::from_scaled((-10. * 128.0) as i32),
        Q7::from_scaled((-1. * 128.0) as i32)
    );
}

#[test]
fn f32_to_q7() {
    let n1: f32 = 0.7;
    let q1 = Q7::from_scaled((n1 as f64 * 128.0) as i32);
    let n2 = -0.4;
    let q2 = Q7::from_scaled((n2 * 128.0) as i32);
    let n3 = 123.0;
    let q3 = Q7::from_scaled((n3 * 128.0) as i32);
    assert_eq!(q1, Q7(89));
    assert_eq!(q2, Q7(-51));
    assert_eq!(q3, Q7(127));
}

#[test]
fn q7_to_f32() {
    let q1 = Q7::from_scaled((0.7 * 128.0) as i32);
    let n1 = (q1.0 as f32) * 2_f32.powf(-7.0);
    assert_eq!(n1, 0.6953125);
    let q2 = Q7::from_scaled((n1 as f64 * 128.0) as i32);
    let n2 = (q2.0 as f32) * 2_f32.powf(-7.0);
    assert_eq!(n1, n2);
}

#[test]
fn q7_equality_compares_stored_byte() {
    assert_eq!(Q7(89), Q7(89));
    assert_ne!(Q7(89), Q7(-51));
    assert_ne!(Q7(127), Q7(-128));
}

#[test]
fn q7_is_copied_by_value() {
    let a = Q7(-51);
    let b = a;
    assert_eq!(a, b);
    assert_eq!(b.0, -51);
}

#[test]
fn from_scaled_clamps_both_ends() {
    assert_eq!(Q7::from_scaled(1280), Q7(127));
    assert_eq!(Q7::from_scaled(128), Q7(127));
    assert_eq!(Q7::from_scaled(127), Q7(127));
    assert_eq!(Q7::from_scaled(-129), Q7(-128));
    assert_eq!(Q7::from_scaled(-1280), Q7(-128));
    assert_eq!(Q7::from_scaled(89), Q7(89));
    assert_eq!(Q7::from_scaled(0), Q7(0));
}
