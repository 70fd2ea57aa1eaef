use svg_resolve::dom::animate::{
    Additive, Animate, AnimationFill, AnimationMode, CalcMode, Rotation, Scale, Time, Timing,
    Transform, TransformAnimate, Translation, UnitSpline,
};
use svg_resolve::dom::paint::{Color, Paint};
use svg_resolve::dom::svg::Svg;
use svg_resolve::dom::util::{Axis, Length, LengthUnit, LengthX, LengthY, Parse, Rect, Vector};
use svg_resolve::dom::value::{Value, ValueVector};
use svg_resolve::dom::Item;
use svg_resolve::draw::draw::{DrawContext, Options};
use svg_resolve::draw::{Compose, Interpolate, Resolve};
use svg_resolve::geometry::{Rect2, Transform2, Vector2};
use svg_resolve::number::Number;

fn n(x: f64) -> Number {
    Number::from_raw((x * 1e6).round() as i64)
}

fn empty() -> Svg {
    Svg::from_str("<svg/>").unwrap()
}

fn at<'a>(ctx: &'a DrawContext<'a>, seconds: f64) -> Options<'a> {
    let mut options = Options::new(ctx);
    options.time = Time::from_seconds(n(seconds));
    options
}

fn window(begin: f64, duration: f64) -> Timing {
    Timing { begin: Time::from_seconds(n(begin)), duration: Time::from_seconds(n(duration)) }
}

fn directive(mode: AnimationMode<Number>, fill: AnimationFill, calc_mode: CalcMode) -> Animate<Number> {
    Animate { timing: window(1.0, 2.0), mode, fill, calc_mode, additive: Additive::Replace }
}

fn from_to(fill: AnimationFill) -> Animate<Number> {
    directive(AnimationMode::Absolute { from: n(0.0), to: n(10.0) }, fill, CalcMode::Linear)
}

fn keyframes(calc_mode: CalcMode, fill: AnimationFill) -> Animate<Number> {
    let pairs = vec![(n(0.0), n(100.0)), (n(0.5), n(200.0)), (n(1.0), n(400.0))];
    Animate {
        timing: window(0.0, 10.0),
        mode: AnimationMode::Values { pairs, splines: vec![] },
        fill,
        calc_mode,
        additive: Additive::Replace,
    }
}

#[test]
fn a_value_without_directives_is_its_base() {
    let svg = empty();
    let ctx = DrawContext::new_without_fonts(&svg);
    for t in [0.0, 1.0, 17.5] {
        let options = at(&ctx, t);
        assert_eq!(Value::new(n(4.25)).try_resolve(&options), Some(n(4.25)));
        assert_eq!(Value::new(n(4.25)).resolve(&options), n(4.25).resolve(&options));
        let l = Length::new(n(2.0), LengthUnit::In);
        assert_eq!(Value::new(l).try_resolve(&options), l.try_resolve(&options));
        assert_eq!(Value::new(l).try_resolve(&options), Some(n(150.0)));
        let em = Length::new(n(2.0), LengthUnit::Em);
        assert_eq!(Value::new(em).try_resolve(&options), None);
        assert_eq!(em.try_resolve(&options), None);
        let v = Vector2::new(n(1.0), n(2.0));
        assert_eq!(v.try_resolve(&options), Some(v));
        let some: Option<Number> = Some(n(3.0));
        assert_eq!(Value::new(some).try_resolve(&options), Some(Some(n(3.0))));
        let nothing: Option<Number> = None;
        assert_eq!(Value::new(nothing).try_resolve(&options), Some(None));
    }
}

#[test]
fn a_directive_is_silent_before_its_window() {
    let svg = empty();
    let ctx = DrawContext::new_without_fonts(&svg);
    let a = from_to(AnimationFill::Freeze);
    assert_eq!(a.try_resolve(&at(&ctx, 0.0)), Some(None));
    assert_eq!(a.try_resolve(&at(&ctx, 0.999999)), Some(None));
    assert_eq!(a.try_resolve(&at(&ctx, -5.0)), Some(None));
    // at the very start it gives the value it starts from
    assert_eq!(a.try_resolve(&at(&ctx, 1.0)), Some(Some(n(0.0))));
    let relative = directive(
        AnimationMode::Relative { by: n(8.0) },
        AnimationFill::Remove,
        CalcMode::Linear,
    );
    assert_eq!(relative.try_resolve(&at(&ctx, 0.999999)), Some(None));
    assert_eq!(relative.try_resolve(&at(&ctx, 1.0)), Some(Some(n(0.0))));
    assert_eq!(relative.try_resolve(&at(&ctx, 2.0)), Some(Some(n(4.0))));
    let keys = keyframes(CalcMode::Linear, AnimationFill::Remove);
    assert_eq!(keys.try_resolve(&at(&ctx, -0.000001)), Some(None));
    assert_eq!(keys.try_resolve(&at(&ctx, 0.0)), Some(Some(n(100.0))));
}

#[test]
fn the_end_of_the_window_belongs_to_the_fill_policy() {
    let svg = empty();
    let ctx = DrawContext::new_without_fonts(&svg);
    let frozen = from_to(AnimationFill::Freeze);
    let removed = from_to(AnimationFill::Remove);
    assert_eq!(frozen.try_resolve(&at(&ctx, 3.0)), Some(Some(n(10.0))));
    assert_eq!(frozen.try_resolve(&at(&ctx, 300.0)), Some(Some(n(10.0))));
    assert_eq!(removed.try_resolve(&at(&ctx, 3.0)), Some(None));
    assert_eq!(removed.try_resolve(&at(&ctx, 300.0)), Some(None));
    // one step before the end both are still under way
    assert_eq!(frozen.try_resolve(&at(&ctx, 2.999999)), removed.try_resolve(&at(&ctx, 2.999999)));
    let keys = keyframes(CalcMode::Discrete, AnimationFill::Freeze);
    assert_eq!(keys.try_resolve(&at(&ctx, 10.0)), Some(Some(n(400.0))));
    let keys = keyframes(CalcMode::Discrete, AnimationFill::Remove);
    assert_eq!(keys.try_resolve(&at(&ctx, 10.0)), Some(None));
}

#[test]
fn discrete_keyframes_hold_until_the_next() {
    let svg = empty();
    let ctx = DrawContext::new_without_fonts(&svg);
    let keys = keyframes(CalcMode::Discrete, AnimationFill::Freeze);
    assert_eq!(keys.try_resolve(&at(&ctx, 3.0)), Some(Some(n(100.0))));
    assert_eq!(keys.try_resolve(&at(&ctx, 4.999999)), Some(Some(n(100.0))));
    assert_eq!(keys.try_resolve(&at(&ctx, 5.0)), Some(Some(n(200.0))));
    assert_eq!(keys.try_resolve(&at(&ctx, 7.0)), Some(Some(n(200.0))));
    assert_eq!(keys.try_resolve(&at(&ctx, 9.999999)), Some(Some(n(200.0))));
    assert_eq!(keys.try_resolve(&at(&ctx, 10.0)), Some(Some(n(400.0))));
}

#[test]
fn discrete_keyframes_that_start_late_give_nothing_before() {
    let svg = empty();
    let ctx = DrawContext::new_without_fonts(&svg);
    let mut keys = keyframes(CalcMode::Discrete, AnimationFill::Freeze);
    keys.mode = AnimationMode::Values {
        pairs: vec![(n(0.5), n(200.0)), (n(1.0), n(400.0))],
        splines: vec![],
    };
    assert_eq!(keys.try_resolve(&at(&ctx, 3.0)), Some(None));
    assert_eq!(keys.try_resolve(&at(&ctx, 5.0)), Some(Some(n(200.0))));
    keys.calc_mode = CalcMode::Linear;
    assert_eq!(keys.try_resolve(&at(&ctx, 3.0)), Some(None));
    assert_eq!(keys.try_resolve(&at(&ctx, 7.5)), Some(Some(n(300.0))));
    keys.mode = AnimationMode::Values { pairs: vec![], splines: vec![] };
    assert_eq!(keys.try_resolve(&at(&ctx, 3.0)), Some(None));
    assert_eq!(keys.try_resolve(&at(&ctx, 30.0)), Some(None));
}

#[test]
fn linear_keyframes_move_between_neighbours() {
    let svg = empty();
    let ctx = DrawContext::new_without_fonts(&svg);
    let keys = keyframes(CalcMode::Linear, AnimationFill::Freeze);
    assert_eq!(keys.try_resolve(&at(&ctx, 2.5)), Some(Some(n(150.0))));
    assert_eq!(keys.try_resolve(&at(&ctx, 5.0)), Some(Some(n(200.0))));
    assert_eq!(keys.try_resolve(&at(&ctx, 7.5)), Some(Some(n(300.0))));
    let paced = keyframes(CalcMode::Paced, AnimationFill::Freeze);
    assert_eq!(paced.try_resolve(&at(&ctx, 7.5)), Some(Some(n(300.0))));
}

#[test]
fn timing_curves_remap_the_gap() {
    let svg = empty();
    let ctx = DrawContext::new_without_fonts(&svg);
    let straight = UnitSpline(Vector2::new(n(0.25), n(0.25)), Vector2::new(n(0.75), n(0.75)));
    let eased = UnitSpline(Vector2::new(n(0.42), n(0.0)), Vector2::new(n(0.58), n(1.0)));
    let mut keys = keyframes(CalcMode::Spline, AnimationFill::Freeze);
    keys.mode = AnimationMode::Values {
        pairs: vec![(n(0.0), n(100.0)), (n(0.5), n(200.0)), (n(1.0), n(400.0))],
        splines: vec![straight, eased],
    };
    let Some(Some(v)) = keys.try_resolve(&at(&ctx, 2.5)) else { panic!() };
    assert!((v.raw - 150_000_000).abs() < 4_000_000, "{:?}", v);
    // a symmetric curve passes through its centre
    let Some(Some(v)) = keys.try_resolve(&at(&ctx, 7.5)) else { panic!() };
    assert!((v.raw - 300_000_000).abs() < 8_000_000, "{:?}", v);
    // early in the gap an ease-in curve lags behind
    let Some(Some(v)) = keys.try_resolve(&at(&ctx, 6.0)) else { panic!() };
    assert!(v.raw > 200_000_000 && v.raw < 240_000_000, "{:?}", v);
    assert_eq!(keys.try_resolve(&at(&ctx, 5.0)), Some(Some(n(200.0))));
    assert_eq!(eased.at(n(0.0)), Vector2::new(n(0.0), n(0.0)));
    assert_eq!(eased.at(n(1.0)), Vector2::new(n(1.0), n(1.0)));
    assert_eq!(eased.at(n(0.5)), Vector2::new(n(0.5), n(0.5)));
}

#[test]
fn linear_interpolation_is_exact() {
    let svg = empty();
    let ctx = DrawContext::new_without_fonts(&svg);
    let a = from_to(AnimationFill::Remove);
    assert_eq!(a.try_resolve(&at(&ctx, 1.0)), Some(Some(n(0.0))));
    assert_eq!(a.try_resolve(&at(&ctx, 2.0)), Some(Some(n(5.0))));
    assert_eq!(a.try_resolve(&at(&ctx, 1.5)), Some(Some(n(2.5))));
    assert_eq!(a.try_resolve(&at(&ctx, 2.999998)), Some(Some(n(9.99999))));
    assert_eq!(n(0.0).lerp(n(10.0), n(0.5)), n(5.0));
    assert_eq!(n(0.0).lerp(n(10.0), n(0.0)), n(0.0));
    assert_eq!(n(0.0).lerp(n(10.0), n(1.0)), n(10.0));
    assert_eq!(n(-3.0).lerp(n(7.0), n(0.0)), n(-3.0));
    assert_eq!(n(-3.0).lerp(n(7.0), n(1.0)), n(7.0));
    assert_eq!(n(10.0).lerp(n(0.0), n(0.25)), n(7.5));
    assert_eq!(n(8.0).scale(n(0.25)), n(2.0));
    assert_eq!(
        Vector2::new(n(0.0), n(10.0)).lerp(Vector2::new(n(10.0), n(0.0)), n(0.5)),
        Vector2::new(n(5.0), n(5.0))
    );
    assert_eq!(
        vec![n(0.0), n(2.0)].lerp(vec![n(10.0), n(4.0), n(9.0)], n(0.5)),
        vec![n(5.0), n(3.0)]
    );
    let some: Option<Number> = Some(n(0.0));
    assert_eq!(some.lerp(Some(n(10.0)), n(0.5)), Some(n(5.0)));
    assert_eq!(some.lerp(None, n(0.5)), None);
}

#[test]
fn a_frozen_sum_is_composed_onto_the_base() {
    let svg = empty();
    let ctx = DrawContext::new_without_fonts(&svg);
    let mut by = directive(
        AnimationMode::Relative { by: n(8.0) },
        AnimationFill::Freeze,
        CalcMode::Linear,
    );
    by.additive = Additive::Sum;
    let value = Value { value: n(100.0), animations: vec![by.clone()] };
    assert_eq!(value.try_resolve(&at(&ctx, 3.0)), Some(n(108.0)));
    assert_eq!(value.try_resolve(&at(&ctx, 3.0)), Some(n(100.0).compose(n(8.0))));
    assert_eq!(value.try_resolve(&at(&ctx, 99.0)), Some(n(108.0)));
    assert_eq!(value.try_resolve(&at(&ctx, 2.0)), Some(n(104.0)));
    assert_eq!(value.try_resolve(&at(&ctx, 0.5)), Some(n(100.0)));
    by.additive = Additive::Replace;
    let value = Value { value: n(100.0), animations: vec![by.clone()] };
    assert_eq!(value.try_resolve(&at(&ctx, 3.0)), Some(n(8.0)));
    by.fill = AnimationFill::Remove;
    by.additive = Additive::Sum;
    let value = Value { value: n(100.0), animations: vec![by] };
    assert_eq!(value.try_resolve(&at(&ctx, 3.0)), Some(n(100.0)));
}

#[test]
fn directives_are_folded_in_order() {
    let svg = empty();
    let ctx = DrawContext::new_without_fonts(&svg);
    let mut plus = directive(
        AnimationMode::Relative { by: n(8.0) },
        AnimationFill::Freeze,
        CalcMode::Linear,
    );
    plus.additive = Additive::Sum;
    let set = from_to(AnimationFill::Freeze);
    let value = Value { value: n(100.0), animations: vec![plus.clone(), set.clone()] };
    assert_eq!(value.try_resolve(&at(&ctx, 3.0)), Some(n(10.0)));
    let value = Value { value: n(100.0), animations: vec![set, plus] };
    assert_eq!(value.try_resolve(&at(&ctx, 3.0)), Some(n(18.0)));
    assert_eq!(value.try_resolve(&at(&ctx, 2.0)), Some(n(9.0)));
}

#[test]
fn a_directive_that_cannot_be_resolved_stops_the_value() {
    let svg = empty();
    let ctx = DrawContext::new_without_fonts(&svg);
    let a = Animate {
        timing: window(1.0, 2.0),
        mode: AnimationMode::Absolute {
            from: Length::new(n(0.0), LengthUnit::Px),
            to: Length::new(n(1.0), LengthUnit::Em),
        },
        fill: AnimationFill::Remove,
        calc_mode: CalcMode::Linear,
        additive: Additive::Replace,
    };
    assert_eq!(a.try_resolve(&at(&ctx, 2.0)), None);
    let value = Value { value: Length::new(n(5.0), LengthUnit::Px), animations: vec![a] };
    assert!(!value.can_resolve(&at(&ctx, 2.0)));
    assert_eq!(value.try_resolve(&at(&ctx, 2.0)), None);
    assert_eq!(value.try_resolve(&at(&ctx, 0.0)), None);
}

#[test]
fn lengths_in_user_units() {
    let svg = empty();
    let mut ctx = DrawContext::new_without_fonts(&svg);
    let length = |s: &str| Length::parse(s).unwrap();
    {
        let options = Options::new(&ctx);
        assert_eq!(length("12pt").try_resolve(&options), Some(n(12.0)));
        assert_eq!(length("7").try_resolve(&options), Some(n(7.0)));
        assert_eq!(length("7px").try_resolve(&options), Some(n(7.0)));
        assert_eq!(length("2in").try_resolve(&options), Some(n(150.0)));
        assert_eq!(length("2.54cm").try_resolve(&options), Some(n(75.0)));
        assert_eq!(length("25.4mm").try_resolve(&options), Some(n(75.0)));
        assert_eq!(length("1em").try_resolve(&options), None);
        assert_eq!(length("1ex").try_resolve(&options), None);
        assert_eq!(length("1pc").try_resolve(&options), None);
        assert_eq!(length("50%").try_resolve(&options), None);
        assert_eq!(options.resolve_length(length("12pt")), Some(n(12.0)));
        assert_eq!(options.resolve_length_along(length("12pt"), Axis::X), Some(n(12.0)));
    }
    ctx.dpi = n(150.0);
    let options = Options::new(&ctx);
    assert_eq!(length("12pt").try_resolve(&options), Some(n(24.0)));
    assert_eq!(length("1in").try_resolve(&options), Some(n(150.0)));
    assert_eq!(length("7px").try_resolve(&options), Some(n(7.0)));
}

#[test]
fn percentages_are_taken_of_the_view_box() {
    let svg = empty();
    let ctx = DrawContext::new_without_fonts(&svg);
    let mut options = Options::new(&ctx);
    let half = Length::parse("50%").unwrap();
    assert_eq!(LengthX(half).try_resolve(&options), None);
    assert_eq!(LengthY(half).try_resolve(&options), None);
    assert_eq!(options.resolve_length_along(half, Axis::X), None);
    options.view_box = Some(Rect2::new(Vector2::new(n(10.0), n(10.0)), Vector2::new(n(200.0), n(80.0))));
    assert_eq!(LengthX(half).try_resolve(&options), Some(n(100.0)));
    assert_eq!(LengthY(half).try_resolve(&options), Some(n(40.0)));
    assert_eq!(options.resolve_length_along(half, Axis::X), Some(n(100.0)));
    assert_eq!(options.resolve_length_along(half, Axis::Y), Some(n(40.0)));
    // without an axis a percentage has no meaning
    assert_eq!(half.try_resolve(&options), None);
    assert_eq!(options.resolve_length(half), None);
    let v = Vector(LengthX(half), LengthY(Length::parse("3").unwrap()));
    assert_eq!(v.try_resolve(&options), Some(Vector2::new(n(100.0), n(3.0))));
    let r = Rect::parse("0 0 100 50").unwrap();
    assert_eq!(
        r.try_resolve(&options),
        Some(Rect2::new(Vector2::zero(), Vector2::new(n(100.0), n(50.0))))
    );
    let pair = ValueVector::new(
        Value::new(LengthX(half)),
        Value::new(LengthY(Length::parse("12pt").unwrap())),
    );
    assert_eq!(pair.try_resolve(&options), Some(Vector2::new(n(100.0), n(12.0))));
    options.view_box = None;
    assert_eq!(pair.try_resolve(&options), None);
}

#[test]
fn timing_position() {
    let w = window(1.0, 2.0);
    assert_eq!(w.pos(Time::from_seconds(n(1.0))), n(0.0));
    assert_eq!(w.pos(Time::from_seconds(n(2.0))), n(0.5));
    assert_eq!(w.pos(Time::from_seconds(n(3.0))), n(1.0));
    assert_eq!(w.pos(Time::from_seconds(n(0.0))), n(-0.5));
    assert_eq!(w.pos(Time::from_seconds(n(0.999999))).raw, -1);
    assert_eq!(w.pos(Time::from_seconds(n(2.999999))).raw, 999_999);
}

#[test]
fn the_animated_rectangle() {
    let svg = Svg::from_str(
        "<svg viewBox=\"0 0 100 100\"><rect x=\"0\" y=\"0\" width=\"50\" height=\"50\" \
         fill=\"red\"><animate attributeName=\"x\" from=\"0\" to=\"50\" dur=\"2s\"/></rect></svg>",
    )
    .unwrap();
    let Item::Svg(ref root) = *svg.root else { panic!("{:?}", svg.root) };
    assert_eq!(root.items.len(), 1);
    let Item::Rect(ref rect) = *root.items[0] else { panic!("{:?}", root.items[0]) };
    assert_eq!(rect.pos.x.animations.len(), 1);
    assert_eq!(rect.pos.y.animations.len(), 0);
    assert_eq!(
        rect.attrs.fill.value.0,
        Some(Paint::Color(Color::from_srgb_u8(255, 0, 0)))
    );
    let ctx = DrawContext::new_without_fonts(&svg);
    let mut options = Options::new(&ctx);
    options.view_box = ctx.view_box();
    let x_at = |options: &mut Options, t: f64| {
        options.time = Time::from_seconds(n(t));
        rect.pos.x.try_resolve(options)
    };
    assert_eq!(x_at(&mut options, 1.0), Some(n(25.0)));
    assert_eq!(x_at(&mut options, 3.0), Some(n(0.0)));
    assert_eq!(x_at(&mut options, 0.0), Some(n(0.0)));
    assert_eq!(x_at(&mut options, 0.5), Some(n(12.5)));
    assert_eq!(x_at(&mut options, 2.0), Some(n(0.0)));
    assert_eq!(x_at(&mut options, -1.0), Some(n(0.0)));
    options.time = Time::from_seconds(n(1.0));
    assert_eq!(rect.pos.try_resolve(&options), Some(Vector2::new(n(25.0), n(0.0))));
    assert_eq!(rect.size.try_resolve(&options), Some(Vector2::new(n(50.0), n(50.0))));
}

#[test]
fn animated_transforms() {
    let svg = empty();
    let ctx = DrawContext::new_without_fonts(&svg);
    let slide = TransformAnimate::Translate(Animate {
        timing: window(0.0, 4.0),
        mode: AnimationMode::Absolute {
            from: Translation(Vector2::new(n(0.0), n(0.0))),
            to: Translation(Vector2::new(n(40.0), n(8.0))),
        },
        fill: AnimationFill::Freeze,
        calc_mode: CalcMode::Linear,
        additive: Additive::Sum,
    });
    let base = Transform2::from_scale(Vector2::splat(n(2.0)));
    let plain = Transform::new(base);
    assert_eq!(plain.try_resolve(&at(&ctx, 1.0)), Some(base));
    let moving = Transform { value: base, animations: vec![slide] };
    let p = Vector2::new(n(1.0), n(1.0));
    let t = moving.try_resolve(&at(&ctx, 1.0)).unwrap();
    // the base is applied to what the directive has moved
    assert_eq!(t, base.compose(Transform2::from_translation(Vector2::new(n(10.0), n(2.0)))));
    assert_eq!(t.apply(p), Vector2::new(n(22.0), n(6.0)));
    let t = moving.try_resolve(&at(&ctx, 9.0)).unwrap();
    assert_eq!(t.apply(p), Vector2::new(n(82.0), n(18.0)));
    let grow = TransformAnimate::Scale(Animate {
        timing: window(0.0, 4.0),
        mode: AnimationMode::Absolute {
            from: Scale(Vector2::new(n(1.0), n(1.0))),
            to: Scale(Vector2::new(n(3.0), n(5.0))),
        },
        fill: AnimationFill::Remove,
        calc_mode: CalcMode::Linear,
        additive: Additive::Replace,
    });
    let growing = Transform { value: base, animations: vec![grow] };
    assert_eq!(
        growing.try_resolve(&at(&ctx, 2.0)),
        Some(Transform2::from_scale(Vector2::new(n(2.0), n(3.0))))
    );
    assert_eq!(growing.try_resolve(&at(&ctx, 4.0)), Some(base));
    let turn = TransformAnimate::Rotate(Animate {
        timing: window(0.0, 4.0),
        mode: AnimationMode::Absolute {
            from: Rotation(n(0.0), Vector2::new(n(10.0), n(10.0))),
            to: Rotation(n(360.0), Vector2::new(n(10.0), n(10.0))),
        },
        fill: AnimationFill::Remove,
        calc_mode: CalcMode::Linear,
        additive: Additive::Replace,
    });
    let turning = Transform { value: Transform2::identity(), animations: vec![turn] };
    let t = turning.try_resolve(&at(&ctx, 1.0)).unwrap();
    assert_eq!(t.apply(Vector2::new(n(11.0), n(10.0))), Vector2::new(n(10.0), n(11.0)));
    assert_eq!(t.apply(Vector2::new(n(10.0), n(10.0))), Vector2::new(n(10.0), n(10.0)));
}
