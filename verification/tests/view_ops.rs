use signed::Signed;

#[test]
fn concrete_example_subtract_positive() {
    let mut n: i32 = 42;
    let mut abs_n = n.get_absolute();
    abs_n.sub_assign(&2);
    drop(abs_n);
    assert_eq!(n, 40);
}

#[test]
fn concrete_example_add_positive() {
    let mut n: i32 = 40;
    let mut abs_n = n.get_absolute();
    abs_n.add_assign(&6);
    drop(abs_n);
    assert_eq!(n, 46);
}

#[test]
fn concrete_example_subtract_negative() {
    let mut n: i32 = -42;
    let mut abs_n = n.get_absolute();
    abs_n.sub_assign(&4);
    drop(abs_n);
    assert_eq!(n, -38);
}

#[test]
fn concrete_example_add_negative() {
    let mut n: i32 = -38;
    let mut abs_n = n.get_absolute();
    abs_n.add_assign(&6);
    drop(abs_n);
    assert_eq!(n, -44);
}

#[test]
fn crossing_zero_single_call() {
    // The sign is checked once per call: one subtraction from the magnitude
    // of -5 by 8 lands on -5 + 8 = 3, crossing zero within the call.
    let mut n: i32 = -5;
    let mut abs_n = n.get_absolute();
    abs_n.sub_assign(&8);
    drop(abs_n);
    assert_eq!(n, 3);
}

#[test]
fn sign_re_read_between_calls() {
    // After crossing zero the next call takes the other branch.
    let mut n: i32 = -5;
    let mut abs_n = n.get_absolute();
    abs_n.sub_assign(&8);
    assert_eq!(abs_n.get_value(), 3);
    abs_n.sub_assign(&2);
    assert_eq!(abs_n.get_value(), 1);
    abs_n.add_assign(&4);
    drop(abs_n);
    assert_eq!(n, 5);
}

#[test]
fn add_grows_magnitude_each_width() {
    let mut a: i8 = 100;
    a.get_absolute().add_assign(&27);
    assert_eq!(a, 127);
    let mut a: i8 = -100;
    a.get_absolute().add_assign(&28);
    assert_eq!(a, -128);

    let mut b: i16 = 1000;
    b.get_absolute().add_assign(&24);
    assert_eq!(b, 1024);
    let mut b: i16 = -1000;
    b.get_absolute().add_assign(&24);
    assert_eq!(b, -1024);

    let mut c: i32 = 70_000;
    c.get_absolute().add_assign(&1);
    assert_eq!(c, 70_001);
    let mut c: i32 = -70_000;
    c.get_absolute().add_assign(&1);
    assert_eq!(c, -70_001);

    let mut d: i64 = 5_000_000_000;
    d.get_absolute().add_assign(&7);
    assert_eq!(d, 5_000_000_007);
    let mut d: i64 = -5_000_000_000;
    d.get_absolute().add_assign(&7);
    assert_eq!(d, -5_000_000_007);

    let mut e: i128 = 1 << 100;
    e.get_absolute().add_assign(&9);
    assert_eq!(e, (1 << 100) + 9);
    let mut e: i128 = -(1 << 100);
    e.get_absolute().add_assign(&9);
    assert_eq!(e, -(1 << 100) - 9);
}

#[test]
fn sub_shrinks_magnitude_each_width() {
    let mut a: i8 = 100;
    a.get_absolute().sub_assign(&27);
    assert_eq!(a, 73);
    let mut a: i8 = -100;
    a.get_absolute().sub_assign(&28);
    assert_eq!(a, -72);

    let mut b: i16 = 1024;
    b.get_absolute().sub_assign(&24);
    assert_eq!(b, 1000);
    let mut b: i16 = -1024;
    b.get_absolute().sub_assign(&24);
    assert_eq!(b, -1000);

    let mut c: i32 = 70_001;
    c.get_absolute().sub_assign(&1);
    assert_eq!(c, 70_000);
    let mut c: i32 = -70_001;
    c.get_absolute().sub_assign(&1);
    assert_eq!(c, -70_000);

    let mut d: i64 = 5_000_000_007;
    d.get_absolute().sub_assign(&7);
    assert_eq!(d, 5_000_000_000);
    let mut d: i64 = -5_000_000_007;
    d.get_absolute().sub_assign(&7);
    assert_eq!(d, -5_000_000_000);

    let mut e: i128 = (1 << 100) + 9;
    e.get_absolute().sub_assign(&9);
    assert_eq!(e, 1 << 100);
    let mut e: i128 = -(1 << 100) - 9;
    e.get_absolute().sub_assign(&9);
    assert_eq!(e, -(1 << 100));
}

#[test]
fn get_value_is_magnitude_each_width() {
    let mut a: i8 = -128;
    assert_eq!(a.get_absolute().get_value(), 128u8);
    let mut a: i8 = 127;
    assert_eq!(a.get_absolute().get_value(), 127u8);

    let mut b: i16 = -32768;
    assert_eq!(b.get_absolute().get_value(), 32768u16);

    let mut c: i32 = 0;
    assert_eq!(c.get_absolute().get_value(), 0u32);
    let mut c: i32 = -1;
    assert_eq!(c.get_absolute().get_value(), 1u32);

    let mut d: i64 = i64::MIN;
    assert_eq!(d.get_absolute().get_value(), 1u64 << 63);

    let mut e: i128 = i128::MIN;
    assert_eq!(e.get_absolute().get_value(), 1u128 << 127);
    let mut e: i128 = i128::MAX;
    assert_eq!(e.get_absolute().get_value(), u128::MAX >> 1);
}

#[test]
fn negative_delta_inverts_direction() {
    // The delta is not validated: a negative delta runs the chosen branch
    // backwards.
    let mut n: i32 = 10;
    let mut abs_n = n.get_absolute();
    abs_n.add_assign(&-3);
    drop(abs_n);
    assert_eq!(n, 7);

    let mut n: i32 = -10;
    let mut abs_n = n.get_absolute();
    abs_n.sub_assign(&-3);
    drop(abs_n);
    assert_eq!(n, -13);
}

#[test]
fn view_tracks_reassigned_number() {
    // A fresh view of a changed number sees the changed value.
    let mut n: i64 = 6;
    n.get_absolute().add_assign(&4);
    assert_eq!(n, 10);
    n = -10;
    n.get_absolute().add_assign(&4);
    assert_eq!(n, -14);
}
