use svg_resolve::geometry::{skew_x, skew_y, Rect2, Transform2, Vector2};
use svg_resolve::number::{Number, RAW_MAX, RAW_MIN, SCALE};

fn n(x: f64) -> Number {
    Number::from_raw((x * 1e6).round() as i64)
}

fn close(a: Number, b: f64) -> bool {
    (a.raw as f64 / 1e6 - b).abs() < 3e-6
}

#[test]
fn whole_numbers_and_fractions() {
    assert_eq!(Number::from_int(5).raw, 5 * SCALE);
    assert_eq!(Number::from_int(-3).raw, -3 * SCALE);
    assert_eq!(Number::from_ratio(1, 2).raw, 500_000);
    assert_eq!(Number::from_ratio(1, 3).raw, 333_333);
    assert_eq!(Number::from_ratio(-1, 3).raw, -333_333);
    assert_eq!(Number::from_ratio(1, 0).raw, 0);
    assert_eq!(Number::zero().raw, 0);
    assert_eq!(Number::one().raw, SCALE);
}

#[test]
fn arithmetic_is_exact_where_it_can_be() {
    assert_eq!(n(1.5).add(n(2.25)), n(3.75));
    assert_eq!(n(1.5).sub(n(2.25)), n(-0.75));
    assert_eq!(n(1.5).mul(n(2.0)), n(3.0));
    assert_eq!(n(-1.5).mul(n(2.0)), n(-3.0));
    assert_eq!(n(3.0).div(n(2.0)), n(1.5));
    assert_eq!(n(1.0).div(n(3.0)).raw, 333_333);
    assert_eq!(n(-1.0).div(n(3.0)).raw, -333_333);
    assert_eq!(n(12.0).mul_ratio(75, 75), n(12.0));
    assert_eq!(n(7.0).neg(), n(-7.0));
    assert_eq!(n(-7.0).abs(), n(7.0));
    assert_eq!(n(2.0).min(n(3.0)), n(2.0));
    assert_eq!(n(2.0).max(n(3.0)), n(3.0));
    assert!(n(2.0).lt(n(3.0)));
    assert!(n(3.0).le(n(3.0)));
    assert!(!n(3.0).lt(n(3.0)));
}

#[test]
fn arithmetic_saturates() {
    let max = Number::from_raw(RAW_MAX);
    let min = Number::from_raw(RAW_MIN);
    assert_eq!(max.add(Number::one()), max);
    assert_eq!(min.sub(Number::one()), min);
    assert_eq!(max.mul(n(2.0)), max);
    assert_eq!(max.mul(n(-2.0)), min);
    assert_eq!(min.neg(), max);
    assert_eq!(Number::from_int(i64::MAX), max);
    assert_eq!(Number::from_int(i64::MIN), min);
}

#[test]
fn division_by_zero_goes_to_the_end_of_the_range() {
    assert_eq!(n(1.0).div(Number::zero()).raw, RAW_MAX);
    assert_eq!(n(-1.0).div(Number::zero()).raw, RAW_MIN);
    assert_eq!(Number::zero().div(Number::zero()).raw, 0);
    assert_eq!(n(1.0).div_floor(Number::zero()).raw, RAW_MAX);
}

#[test]
fn floor_division_rounds_down() {
    assert_eq!(n(1.0).div_floor(n(3.0)).raw, 333_333);
    assert_eq!(n(-1.0).div_floor(n(3.0)).raw, -333_334);
    assert_eq!(n(-0.000001).div_floor(n(2.0)).raw, -1);
    assert_eq!(n(-6.0).div_floor(n(3.0)), n(-2.0));
    assert_eq!(n(6.0).div_floor(n(-3.0)), n(-2.0));
    assert_eq!(n(1.0).div_floor(n(-3.0)).raw, -333_334);
}

#[test]
fn floor_and_ceil() {
    assert_eq!(n(2.5).floor(), 2);
    assert_eq!(n(2.5).ceil(), 3);
    assert_eq!(n(-2.5).floor(), -3);
    assert_eq!(n(-2.5).ceil(), -2);
    assert_eq!(n(4.0).floor(), 4);
    assert_eq!(n(4.0).ceil(), 4);
    assert_eq!(n(-4.0).floor(), -4);
    assert_eq!(n(-4.0).ceil(), -4);
    assert_eq!(n(0.0).ceil(), 0);
}

#[test]
fn square_roots() {
    assert_eq!(n(4.0).sqrt(), n(2.0));
    assert_eq!(n(0.0).sqrt(), n(0.0));
    assert_eq!(n(-4.0).sqrt(), n(0.0));
    assert_eq!(n(2.0).sqrt().raw, 1_414_213);
    assert_eq!(n(0.25).sqrt(), n(0.5));
    let big = Number::from_raw(RAW_MAX).sqrt();
    assert!(big.raw > 3_037_000_000_000 && big.raw < 3_037_001_000_000);
}

#[test]
fn colour_levels() {
    assert_eq!(n(0.0).round_to_u8(), 0);
    assert_eq!(n(1.0).round_to_u8(), 255);
    assert_eq!(n(2.0).round_to_u8(), 255);
    assert_eq!(n(-1.0).round_to_u8(), 0);
    assert_eq!(n(0.5).round_to_u8(), 128);
    assert_eq!(n(0.5).trunc_to_u8(), 127);
    for level in 0u16..=255 {
        let c = Number::from_ratio(level as i64, 255);
        assert_eq!(c.round_to_u8() as u16, level);
    }
}

#[test]
fn sine_and_cosine_at_quarter_turns_are_exact() {
    assert_eq!(n(0.0).sin_cos(), (n(0.0), n(1.0)));
    assert_eq!(n(90.0).sin_cos(), (n(1.0), n(0.0)));
    assert_eq!(n(180.0).sin_cos(), (n(0.0), n(-1.0)));
    assert_eq!(n(270.0).sin_cos(), (n(-1.0), n(0.0)));
    assert_eq!(n(360.0).sin_cos(), (n(0.0), n(1.0)));
    assert_eq!(n(-90.0).sin_cos(), (n(-1.0), n(0.0)));
    assert_eq!(n(720.0 + 90.0).sin_cos(), (n(1.0), n(0.0)));
}

#[test]
fn sine_and_cosine_between() {
    let (s, c) = n(30.0).sin_cos();
    assert!(close(s, 0.5), "{:?}", s);
    assert!(close(c, 0.866025), "{:?}", c);
    let (s, c) = n(45.0).sin_cos();
    assert!(close(s, 0.707107), "{:?}", s);
    assert!(close(c, 0.707107), "{:?}", c);
    let (s, c) = n(60.0).sin_cos();
    assert!(close(s, 0.866025), "{:?}", s);
    assert!(close(c, 0.5), "{:?}", c);
    let (s, c) = n(200.0).sin_cos();
    assert!(close(s, -0.342020), "{:?}", s);
    assert!(close(c, -0.939693), "{:?}", c);
    let (s, c) = n(-33.5).sin_cos();
    assert!(close(s, -0.551937), "{:?}", s);
    assert!(close(c, 0.833886), "{:?}", c);
    assert!(close(n(45.0).tan(), 1.0));
    assert_eq!(n(90.0).tan().raw, RAW_MAX);
}

#[test]
fn vectors_and_rectangles() {
    let a = Vector2::new(n(1.0), n(2.0));
    let b = Vector2::new(n(3.0), n(-1.0));
    assert_eq!(a.add(b), Vector2::new(n(4.0), n(1.0)));
    assert_eq!(a.sub(b), Vector2::new(n(-2.0), n(3.0)));
    assert_eq!(a.scale(n(2.0)), Vector2::new(n(2.0), n(4.0)));
    assert_eq!(a.min(b), Vector2::new(n(1.0), n(-1.0)));
    assert_eq!(a.max(b), Vector2::new(n(3.0), n(2.0)));

    let r = Rect2::new(Vector2::new(n(0.0), n(0.0)), Vector2::new(n(10.0), n(5.0)));
    assert_eq!(r.width(), n(10.0));
    assert_eq!(r.height(), n(5.0));
    let s = Rect2::new(Vector2::new(n(5.0), n(2.0)), Vector2::new(n(10.0), n(10.0)));
    assert_eq!(
        r.intersection(s),
        Some(Rect2::from_points(Vector2::new(n(5.0), n(2.0)), Vector2::new(n(10.0), n(5.0))))
    );
    assert_eq!(
        r.union_rect(s),
        Rect2::from_points(Vector2::new(n(0.0), n(0.0)), Vector2::new(n(15.0), n(12.0)))
    );
    // rectangles that only touch share no region
    let t = Rect2::new(Vector2::new(n(10.0), n(0.0)), Vector2::new(n(1.0), n(1.0)));
    assert_eq!(r.intersection(t), None);
    assert!(!r.intersects(t));
    assert_eq!(
        r.dilate(Vector2::splat(n(1.0))),
        Rect2::from_points(Vector2::new(n(-1.0), n(-1.0)), Vector2::new(n(11.0), n(6.0)))
    );
}

#[test]
fn transforms_compose_right_to_left() {
    let t = Transform2::from_translation(Vector2::new(n(10.0), n(0.0)));
    let s = Transform2::from_scale(Vector2::new(n(2.0), n(3.0)));
    let p = Vector2::new(n(1.0), n(1.0));
    // scale first, then move
    assert_eq!(t.compose(s).apply(p), Vector2::new(n(12.0), n(3.0)));
    // move first, then scale
    assert_eq!(s.compose(t).apply(p), Vector2::new(n(22.0), n(3.0)));
    assert_eq!(Transform2::identity().apply(p), p);
    assert_eq!(Transform2::identity().compose(t), t);

    let quarter = Transform2::from_rotation(n(90.0));
    assert_eq!(quarter.apply(Vector2::new(n(1.0), n(0.0))), Vector2::new(n(0.0), n(1.0)));
    let r = Rect2::new(Vector2::zero(), Vector2::new(n(2.0), n(1.0)));
    assert_eq!(
        quarter.apply_rect(r),
        Rect2::from_points(Vector2::new(n(-1.0), n(0.0)), Vector2::new(n(0.0), n(2.0)))
    );
    let m = Transform2::from_matrix(n(1.0), n(2.0), n(3.0), n(4.0), n(5.0), n(6.0));
    assert_eq!(m.apply(Vector2::new(n(1.0), n(1.0))), Vector2::new(n(9.0), n(12.0)));
    let skew = skew_x(n(45.0));
    let q = skew.apply(Vector2::new(n(0.0), n(1.0)));
    assert!(close(q.x, 1.0) && q.y == n(1.0));
    let q = skew_y(n(45.0)).apply(Vector2::new(n(1.0), n(0.0)));
    assert!(q.x == n(1.0) && close(q.y, 1.0));
}
