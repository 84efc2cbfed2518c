use plinth::time::{
    mul_div_i64, next_present_time, qpc_to_nanoseconds, Nanoseconds, PresentPeriod, PresentTime,
};

#[test]
fn mul_div_rounds_toward_zero() {
    assert_eq!(mul_div_i64(10, 3, 4), 7);
    assert_eq!(mul_div_i64(-10, 3, 4), -7);
    assert_eq!(mul_div_i64(12, 3, 4), 9);
    assert_eq!(mul_div_i64(0, 1_000_000_000, 7), 0);
}

#[test]
fn mul_div_does_not_form_the_full_product() {
    // value * numerator overflows i64, the result does not.
    let value = 9_000_000_000_000_000_000i64;
    assert_eq!(mul_div_i64(value, 3, 4), 6_750_000_000_000_000_000);
}

#[test]
fn qpc_converts_ticks_to_nanoseconds() {
    assert_eq!(qpc_to_nanoseconds(10_000_000, 10_000_000), 1_000_000_000);
    assert_eq!(qpc_to_nanoseconds(1, 3), 333_333_333);
    assert_eq!(qpc_to_nanoseconds(-1, 3), -333_333_333);
    // ticks * 1e9 is far beyond i64; the result is not.
    assert_eq!(qpc_to_nanoseconds(90_000_000_000_000_000, 10_000_000), 9_000_000_000_000_000_000);
}

#[test]
fn nanoseconds_arithmetic() {
    let a = Nanoseconds(1_500);
    let b = Nanoseconds(500);
    assert_eq!(a.add(b), Nanoseconds(2_000));
    assert_eq!(a.sub(b), Nanoseconds(1_000));
    let mut c = a;
    c.add_assign(b);
    assert_eq!(c, Nanoseconds(2_000));
    c.sub_assign(Nanoseconds(3_000));
    assert_eq!(c, Nanoseconds(-1_000));
    assert_eq!(Nanoseconds::from_qpc_time(3, 1_000), Nanoseconds(3_000_000));
}

#[test]
fn present_time_arithmetic() {
    let t = PresentTime::from_qpc_time(2, 1_000);
    assert_eq!(t, PresentTime(Nanoseconds(2_000_000)));
    let p = PresentPeriod(Nanoseconds(16_666_667));
    let next = t.add(p);
    assert_eq!(next, PresentTime(Nanoseconds(18_666_667)));
    assert_eq!(next.sub(t), p);
    let mut u = t;
    u.add_assign(p);
    assert_eq!(u, next);
}

#[test]
fn next_present_time_is_the_first_frame_not_before_now() {
    let period = PresentPeriod(Nanoseconds(10));
    let at = |t: i64| PresentTime(Nanoseconds(t));
    assert_eq!(next_present_time(at(100), at(100), period), at(100));
    assert_eq!(next_present_time(at(100), at(101), period), at(110));
    assert_eq!(next_present_time(at(100), at(110), period), at(110));
    assert_eq!(next_present_time(at(100), at(155), period), at(160));
    // A previous time still ahead of now is kept.
    assert_eq!(next_present_time(at(200), at(155), period), at(200));
    assert_eq!(next_present_time(at(200), at(155), PresentPeriod(Nanoseconds(0))), at(200));
}
