use svg_resolve::dom::paint::{parse_paint, Color, Paint};
use svg_resolve::dom::parser::color::color;
use svg_resolve::dom::parser::{func_iri, id, iri};
use svg_resolve::dom::util::Parse;

#[test]
fn test_id() {
    assert_eq!(id("foobar123"), Ok(("", "foobar123")));
}

#[test]
fn test_iri() {
    assert_eq!(iri("#foobar123"), Ok(("", "foobar123")));
}

#[test]
fn test_func_iri() {
    assert_eq!(func_iri("url(#foobar123)"), Ok(("", "foobar123")));
}

#[test]
fn color_test_color() {
    assert!(color("rgb(1,2,3)").is_ok());
    assert_eq!(color("#012345").unwrap().1, Color::from_srgb_u8(0x01, 0x23, 0x45));
}

#[test]
fn paint_test_color() {
    assert_eq!(Color::parse("#aabbcc").unwrap(), Color::from_srgb_u8(0xaa, 0xbb, 0xcc));
}

#[test]
fn paint_test_paint() {
    assert_eq!(
        Paint::parse("#aabbcc").unwrap(),
        Paint::Color(Color::from_srgb_u8(0xaa, 0xbb, 0xcc))
    );
}

#[test]
fn mod_test_paint() {
    assert_eq!(
        parse_paint("url(#radialGradient862)").unwrap(),
        Paint::Ref("radialGradient862".into())
    );
}

use svg_resolve::dom::animate::{
    transform_list, Additive, AnimationFill, CalcMode, Rotation, Scale, Time, Translation,
};
use svg_resolve::dom::attrs::{
    iri as attr_iri, parse_display, parse_paint as parse_inherited_paint, ClipPathAttr, DashArray,
    Fill, FillRule, Language, TextFlow,
};
use svg_resolve::dom::error::Error;
use svg_resolve::dom::gradient::opacity;
use svg_resolve::dom::parser::length::{parse_length_list, parse_points};
use svg_resolve::dom::parser::path::{parse_path_data, PathSegment};
use svg_resolve::dom::parser::{
    number_list_4, one_or_many_f32, one_or_three_numbers, one_or_two_numbers,
};
use svg_resolve::dom::util::{
    length, style_list, Iri, Length, LengthUnit, LengthX, OneOrMany, Rect,
};
use svg_resolve::geometry::{Transform2, Vector2};
use svg_resolve::number::{Number, RAW_MAX, RAW_MIN};

fn n(x: f64) -> Number {
    Number::from_raw((x * 1e6).round() as i64)
}

fn chars(s: &str) -> Vec<char> {
    s.chars().collect()
}

fn invalid(e: Error, text: &str) -> bool {
    matches!(e, Error::InvalidAttributeValue(ref t) if t == text)
}

#[test]
fn ids_stop_at_spaces_quotes_and_brackets() {
    assert_eq!(id("abc def"), Ok((" def", "abc")));
    assert_eq!(id("abc)"), Ok((")", "abc")));
    assert_eq!(id("a\"b"), Ok(("\"b", "a")));
    assert_eq!(id(""), Err(()));
    assert_eq!(id(" x"), Err(()));
    assert_eq!(iri("foo"), Err(()));
    assert_eq!(iri("#"), Err(()));
    assert_eq!(iri("#a b"), Ok((" b", "a")));
    assert_eq!(func_iri("url(#a)rest"), Ok(("rest", "a")));
    assert_eq!(func_iri("url(#a"), Err(()));
    assert_eq!(func_iri("url(a)"), Err(()));
    assert_eq!(func_iri("url(#)"), Err(()));
    assert_eq!(id("üñí"), Ok(("", "üñí")));
}

#[test]
fn numbers() {
    assert_eq!(Number::parse("12").unwrap(), n(12.0));
    assert_eq!(Number::parse("-0.5").unwrap(), n(-0.5));
    assert_eq!(Number::parse("+.25").unwrap(), n(0.25));
    assert_eq!(Number::parse("1e3").unwrap(), n(1000.0));
    assert_eq!(Number::parse("2.5E-1").unwrap(), n(0.25));
    assert_eq!(Number::parse("1.").unwrap(), n(1.0));
    assert_eq!(Number::parse("0.1234567").unwrap().raw, 123_456);
    assert_eq!(Number::parse("-0.1234567").unwrap().raw, -123_456);
    assert_eq!(Number::parse("0.0000001e3").unwrap().raw, 100);
    assert_eq!(Number::parse("123456789012345678901234567890").unwrap().raw, RAW_MAX);
    assert_eq!(Number::parse("-1e40").unwrap().raw, RAW_MIN);
    assert_eq!(Number::parse("1e-40").unwrap().raw, 0);
    assert_eq!(Number::parse("00012.5000").unwrap(), n(12.5));
    for bad in ["", "abc", ".", "-", "1e", "1 ", " 1", "1,2", "1em", "--1", "e5"] {
        assert!(invalid(Number::parse(bad).unwrap_err(), bad), "{:?}", bad);
    }
}

#[test]
fn lengths() {
    let l = |num: f64, unit| Length::new(n(num), unit);
    assert_eq!(Length::parse("12pt").unwrap(), l(12.0, LengthUnit::Pt));
    assert_eq!(Length::parse("50%").unwrap(), l(50.0, LengthUnit::Percent));
    assert_eq!(Length::parse("1.5cm").unwrap(), l(1.5, LengthUnit::Cm));
    assert_eq!(Length::parse("3").unwrap(), l(3.0, LengthUnit::Unitless));
    assert_eq!(Length::parse("3px").unwrap(), l(3.0, LengthUnit::Px));
    assert_eq!(Length::parse("2in").unwrap(), l(2.0, LengthUnit::In));
    assert_eq!(Length::parse("2mm").unwrap(), l(2.0, LengthUnit::Mm));
    assert_eq!(Length::parse("2pc").unwrap(), l(2.0, LengthUnit::Pc));
    assert_eq!(Length::parse("1em").unwrap(), l(1.0, LengthUnit::Em));
    assert_eq!(Length::parse("1ex").unwrap(), l(1.0, LengthUnit::Ex));
    assert_eq!(Length::parse("1e2em").unwrap(), l(100.0, LengthUnit::Em));
    assert_eq!(Length::parse("  7").unwrap(), l(7.0, LengthUnit::Unitless));
    assert_eq!(LengthX::parse("4mm").unwrap(), LengthX(l(4.0, LengthUnit::Mm)));
    assert_eq!(length("4mm").unwrap(), l(4.0, LengthUnit::Mm));
    assert!(invalid(length("4 mm").unwrap_err(), "4 mm"));
    for bad in ["", "px", "3 ", "3 px", "3pxx", "3furlongs"] {
        assert!(invalid(Length::parse(bad).unwrap_err(), bad), "{:?}", bad);
    }
}

#[test]
fn lists_of_lengths_and_points() {
    let l = |num: f64, unit| Length::new(n(num), unit);
    assert_eq!(
        parse_length_list(&chars("1, 2px\t3%  ,4")).unwrap(),
        vec![
            l(1.0, LengthUnit::Unitless),
            l(2.0, LengthUnit::Px),
            l(3.0, LengthUnit::Percent),
            l(4.0, LengthUnit::Unitless)
        ]
    );
    assert_eq!(parse_length_list(&chars("")).unwrap(), vec![]);
    assert_eq!(parse_length_list(&chars("1 x")), None);
    assert_eq!(parse_length_list(&chars("   ")), None);
    assert_eq!(
        parse_points(&chars("0,0 10,0 10,10")),
        vec![
            Vector2::new(n(0.0), n(0.0)),
            Vector2::new(n(10.0), n(0.0)),
            Vector2::new(n(10.0), n(10.0))
        ]
    );
    // what follows the last whole pair is left out
    assert_eq!(parse_points(&chars("1 2 3")), vec![Vector2::new(n(1.0), n(2.0))]);
    assert_eq!(parse_points(&chars("1 2 x 3 4")), vec![Vector2::new(n(1.0), n(2.0))]);
    assert_eq!(parse_points(&chars("")), vec![]);
    assert_eq!(parse_points(&chars("1-2-3-4")).len(), 2);
}

#[test]
fn view_boxes() {
    let r = Rect::parse("0 0 100 50").unwrap();
    assert_eq!(r.width, LengthX(Length::new(n(100.0), LengthUnit::Unitless)));
    assert_eq!(r.x, LengthX(Length::new(n(0.0), LengthUnit::Unitless)));
    assert!(matches!(Rect::parse("0 0 100"), Err(Error::TooShort)));
    assert!(matches!(Rect::parse(""), Err(Error::TooShort)));
    assert!(invalid(Rect::parse("0 0 x 1").unwrap_err(), "0 0 x 1"));
}

#[test]
fn number_lists() {
    assert_eq!(number_list_4("1 2,3 , 4").map_err(|_| ()), Err(()));
    assert_eq!(number_list_4("1 2,3, 4").unwrap(), [n(1.0), n(2.0), n(3.0), n(4.0)]);
    assert_eq!(number_list_4("0.25 0.1 0.25 1").unwrap(), [n(0.25), n(0.1), n(0.25), n(1.0)]);
    assert!(invalid(number_list_4("1 2 3").unwrap_err(), "1 2 3"));
    assert_eq!(one_or_two_numbers("5").unwrap(), (n(5.0), None));
    assert_eq!(one_or_two_numbers("5, 6").unwrap(), (n(5.0), Some(n(6.0))));
    assert!(one_or_two_numbers("x").is_err());
    assert_eq!(one_or_three_numbers("5").unwrap(), (n(5.0), None));
    assert_eq!(one_or_three_numbers("5 6").unwrap(), (n(5.0), None));
    assert_eq!(one_or_three_numbers("5 6 7").unwrap(), (n(5.0), Some((n(6.0), n(7.0)))));
    assert!(matches!(one_or_many_f32("5").unwrap(), OneOrMany::One(v) if v == n(5.0)));
    match one_or_many_f32("5 6,7").unwrap() {
        OneOrMany::Many(v) => assert_eq!(v, vec![n(5.0), n(6.0), n(7.0)]),
        other => panic!("{:?}", other),
    }
    match one_or_many_f32("5 ").unwrap() {
        OneOrMany::Many(v) => assert_eq!(v, vec![n(5.0)]),
        other => panic!("{:?}", other),
    }
    assert!(one_or_many_f32("").is_err());
    assert_eq!(OneOrMany::One(3u8).as_slice(), &[3u8]);
    assert_eq!(OneOrMany::Many(vec![1u8, 2]).as_slice(), &[1u8, 2]);
}

#[test]
fn colours() {
    assert_eq!(color("#ff0000").unwrap().1, Color::from_srgb_u8(255, 0, 0));
    assert_eq!(color("#ABCDEF").unwrap().1, Color::from_srgb_u8(0xAB, 0xCD, 0xEF));
    assert_eq!(color("#f00").unwrap(), ("", Color::from_srgb_u8(240, 0, 0)));
    assert_eq!(color("#abcdefgh").unwrap(), ("gh", Color::from_srgb_u8(0xAB, 0xCD, 0xEF)));
    assert_eq!(color("rgb( 1,2,3 )").unwrap().1, Color::from_srgb_u8(1, 2, 3));
    assert_eq!(color("rgb(255,255,255)").unwrap().1, Color::from_srgb_u8(255, 255, 255));
    assert_eq!(color("rgb(100%,50%,0%)").unwrap().1, Color::from_srgb_u8(255, 127, 0));
    assert_eq!(color("red").unwrap().1, Color::from_srgb_u8(255, 0, 0));
    assert_eq!(color("aliceblue").unwrap().1, Color::from_srgb_u8(240, 248, 255));
    assert_eq!(color("yellowgreen").unwrap().1, Color::from_srgb_u8(154, 205, 50));
    assert_eq!(color("rebeccapurple"), Err(()));
    assert_eq!(color("red;").unwrap(), (";", Color::from_srgb_u8(255, 0, 0)));
    for bad in ["", "#", "#12", "#gggggg", "rgb(256,0,0)", "rgb(1, 2, 3)", "rgb(101%,0%,0%)",
        "rgb(1,2)", "rgb(1,2,3", "Red", "redd", "notacolour"] {
        assert_eq!(color(bad), Err(()), "{:?}", bad);
    }
    assert_eq!((Color::black().red, Color::black().green, Color::black().blue), (n(0.0), n(0.0), n(0.0)));
    assert_eq!(Color::from_srgb_u8(255, 0, 51).red, n(1.0));
    assert_eq!(Color::from_srgb_u8(255, 0, 51).blue, n(0.2));
}

#[test]
fn paints() {
    assert_eq!(Paint::parse("none").unwrap(), Paint::Nothing);
    assert_eq!(Paint::parse("transparent").unwrap(), Paint::Nothing);
    assert_eq!(Paint::parse("url(#a)").unwrap(), Paint::Ref("a".into()));
    assert_eq!(Paint::parse("blue").unwrap(), Paint::Color(Color::from_srgb_u8(0, 0, 255)));
    assert!(invalid(Paint::parse("url(#a").unwrap_err(), "url(#a"));
    assert!(invalid(Paint::parse("").unwrap_err(), ""));
    assert_eq!(parse_inherited_paint("inherit").unwrap(), None);
    assert_eq!(parse_inherited_paint("currentColor").unwrap(), None);
    assert_eq!(parse_inherited_paint("currentcolor").unwrap(), None);
    assert_eq!(parse_inherited_paint("none").unwrap(), Some(Paint::Nothing));
    assert_eq!(Fill::parse("inherit").unwrap().0, None);
    assert_eq!(Fill::parse("red").unwrap().0, Some(Paint::Color(Color::from_srgb_u8(255, 0, 0))));
    assert!(Paint::Nothing.is_none());
    assert!(!Paint::Nothing.is_visible());
    assert!(Paint::black().is_visible());
    assert_eq!(Paint::black(), Paint::Color(Color::black()));
}

#[test]
fn keywords() {
    assert_eq!(CalcMode::parse("discrete").unwrap(), CalcMode::Discrete);
    assert_eq!(CalcMode::parse("linear").unwrap(), CalcMode::Linear);
    assert_eq!(CalcMode::parse("paced").unwrap(), CalcMode::Paced);
    assert_eq!(CalcMode::parse("spline").unwrap(), CalcMode::Spline);
    assert!(invalid(CalcMode::parse("Linear").unwrap_err(), "Linear"));
    assert_eq!(AnimationFill::parse("freeze").unwrap(), AnimationFill::Freeze);
    assert_eq!(AnimationFill::parse("remove").unwrap(), AnimationFill::Remove);
    assert!(AnimationFill::parse("").is_err());
    assert_eq!(Additive::parse("sum").unwrap(), Additive::Sum);
    assert_eq!(Additive::parse("replace").unwrap(), Additive::Replace);
    assert!(Additive::parse("add").is_err());
    assert_eq!(FillRule::parse("nonzero").unwrap(), FillRule::Winding);
    assert_eq!(FillRule::parse("evenodd").unwrap(), FillRule::EvenOdd);
    assert!(FillRule::parse("odd").is_err());
    assert_eq!(TextFlow::parse("ltr").unwrap(), TextFlow::LeftToRight);
    assert_eq!(TextFlow::parse("rtl").unwrap(), TextFlow::RightToLeft);
    assert!(TextFlow::parse("ttb").is_err());
    assert_eq!(parse_display("none").unwrap(), false);
    assert_eq!(parse_display("inline").unwrap(), true);
    assert!(invalid(parse_display("block").unwrap_err(), "block"));
    assert_eq!(Option::<Number>::parse("none").unwrap(), None);
    assert_eq!(Option::<Number>::parse("0.5").unwrap(), Some(n(0.5)));
    assert!(Option::<Number>::parse("half").is_err());
    assert_eq!(String::parse("anything at all").unwrap(), "anything at all");
}

#[test]
fn references() {
    assert_eq!(attr_iri("url(#clip)").unwrap(), "clip");
    assert_eq!(attr_iri("url(#a b)").unwrap(), "a b");
    assert_eq!(attr_iri("url(#)").unwrap(), "");
    assert!(invalid(attr_iri("url(#").unwrap_err(), "url(#"));
    assert!(invalid(attr_iri("#clip").unwrap_err(), "#clip"));
    assert!(matches!(ClipPathAttr::parse("none").unwrap(), Some(ClipPathAttr::Nothing)));
    assert!(ClipPathAttr::parse("inherit").unwrap().is_none());
    assert!(matches!(ClipPathAttr::parse("url(#c)").unwrap(), Some(ClipPathAttr::Ref(ref s)) if s == "c"));
    assert!(ClipPathAttr::parse("c").is_err());
    assert_eq!(Iri::parse("url(#blur)").unwrap(), Iri("blur".into()));
    assert!(Iri::parse("url(#blur) ").is_err());
    assert!(Iri::parse("blur").is_err());
}

#[test]
fn times_and_opacities() {
    assert_eq!(Time::parse("2s").unwrap(), Time::from_seconds(n(2.0)));
    assert_eq!(Time::parse("0.5s").unwrap(), Time::from_seconds(n(0.5)));
    assert_eq!(Time::parse("-1s").unwrap().seconds(), n(-1.0));
    for bad in ["2", "s", "", "2ms", "2 s", "1:30"] {
        assert!(invalid(Time::parse(bad).unwrap_err(), bad), "{:?}", bad);
    }
    assert_eq!(Time::start(), Time::from_seconds(n(0.0)));
    assert_eq!(Time::from_seconds(n(3.0)).sub(Time::from_seconds(n(1.0))).seconds(), n(2.0));
    assert_eq!(opacity("0.5").unwrap(), n(0.5));
    assert_eq!(opacity("1.5").unwrap(), n(1.0));
    assert_eq!(opacity("-3").unwrap(), n(0.0));
    assert!(invalid(opacity("50%").unwrap_err(), "50%"));
}

#[test]
fn dash_arrays_are_made_even() {
    let l = |num: f64| Length::new(n(num), LengthUnit::Unitless);
    assert_eq!(DashArray::parse("1 2").unwrap().0, vec![l(1.0), l(2.0)]);
    assert_eq!(
        DashArray::parse("1 2 3").unwrap().0,
        vec![l(1.0), l(2.0), l(3.0), l(1.0), l(2.0), l(3.0)]
    );
    assert_eq!(DashArray::parse("").unwrap().0, vec![]);
    assert!(DashArray::parse("1 x").is_err());
}

#[test]
fn style_declarations() {
    let list = style_list("fill: red; stroke:blue;;junk; a : b : c ");
    let pairs: Vec<(&str, &str)> =
        list.iter().map(|d| (d.key.as_str(), d.value.as_str())).collect();
    assert_eq!(pairs, vec![("fill", "red"), ("stroke", "blue"), ("a", "b : c")]);
    assert!(style_list("").is_empty());
    assert!(style_list(";;;").is_empty());
    let list = style_list("x:");
    assert_eq!((list[0].key.as_str(), list[0].value.as_str()), ("x", ""));
}

#[test]
fn transform_lists() {
    assert_eq!(transform_list("").unwrap(), Transform2::identity());
    assert_eq!(
        transform_list("translate(10,20)").unwrap(),
        Transform2::from_translation(Vector2::new(n(10.0), n(20.0)))
    );
    assert_eq!(
        transform_list("translate(10)").unwrap(),
        Transform2::from_translation(Vector2::new(n(10.0), n(0.0)))
    );
    assert_eq!(
        transform_list("scale(2)").unwrap(),
        Transform2::from_scale(Vector2::splat(n(2.0)))
    );
    assert_eq!(
        transform_list(" matrix( 1 2 3 4 5 6 ) ").unwrap(),
        Transform2::from_matrix(n(1.0), n(2.0), n(3.0), n(4.0), n(5.0), n(6.0))
    );
    // the last transform is the first to be applied
    let t = transform_list("translate(10,0) , scale(2 3)").unwrap();
    assert_eq!(t.apply(Vector2::new(n(1.0), n(1.0))), Vector2::new(n(12.0), n(3.0)));
    let r = transform_list("rotate(90)").unwrap();
    assert_eq!(r.apply(Vector2::new(n(1.0), n(0.0))), Vector2::new(n(0.0), n(1.0)));
    let r = transform_list("rotate(90, 10, 10)").unwrap();
    assert_eq!(r.apply(Vector2::new(n(10.0), n(10.0))), Vector2::new(n(10.0), n(10.0)));
    assert_eq!(r.apply(Vector2::new(n(11.0), n(10.0))), Vector2::new(n(10.0), n(11.0)));
    assert_eq!(transform_list("skewX(0)").unwrap(), Transform2::identity());
    assert_eq!(transform_list("skewY(0)").unwrap(), Transform2::identity());
    for bad in ["foo(1)", "translate", "translate(", "translate(1,2,3)", "scale()", "rotate(1,2)",
        "matrix(1 2 3)", "translate(1) x", "skewX(1 2)"] {
        assert!(invalid(transform_list(bad).unwrap_err(), bad), "{:?}", bad);
    }
    assert_eq!(Translation::parse("3").unwrap(), Translation(Vector2::new(n(3.0), n(0.0))));
    assert_eq!(Scale::parse("3").unwrap(), Scale(Vector2::new(n(3.0), n(3.0))));
    assert_eq!(Scale::parse("3 4").unwrap(), Scale(Vector2::new(n(3.0), n(4.0))));
    assert_eq!(Rotation::parse("30").unwrap(), Rotation(n(30.0), Vector2::zero()));
    assert_eq!(
        Rotation::parse("30 1 2").unwrap(),
        Rotation(n(30.0), Vector2::new(n(1.0), n(2.0)))
    );
}

#[test]
fn path_data() {
    let segs = parse_path_data(&chars("M0 0 L10 0 10 10 z")).unwrap();
    assert_eq!(
        segs,
        vec![
            PathSegment::MoveTo { abs: true, x: n(0.0), y: n(0.0) },
            PathSegment::LineTo { abs: true, x: n(10.0), y: n(0.0) },
            PathSegment::LineTo { abs: true, x: n(10.0), y: n(10.0) },
            PathSegment::ClosePath { abs: false },
        ]
    );
    // numbers after a move are lines
    let segs = parse_path_data(&chars("m1,2 3,4")).unwrap();
    assert_eq!(
        segs,
        vec![
            PathSegment::MoveTo { abs: false, x: n(1.0), y: n(2.0) },
            PathSegment::LineTo { abs: false, x: n(3.0), y: n(4.0) },
        ]
    );
    let segs = parse_path_data(&chars("M0,0H5V-5h1v1")).unwrap();
    assert_eq!(
        segs[1..],
        [
            PathSegment::HorizontalLineTo { abs: true, x: n(5.0) },
            PathSegment::VerticalLineTo { abs: true, y: n(-5.0) },
            PathSegment::HorizontalLineTo { abs: false, x: n(1.0) },
            PathSegment::VerticalLineTo { abs: false, y: n(1.0) },
        ]
    );
    let segs = parse_path_data(&chars("M0 0C1 2 3 4 5 6S7 8 9 10Q1 2 3 4T5 6")).unwrap();
    assert_eq!(
        segs[1..],
        [
            PathSegment::CurveTo {
                abs: true, x1: n(1.0), y1: n(2.0), x2: n(3.0), y2: n(4.0), x: n(5.0), y: n(6.0)
            },
            PathSegment::SmoothCurveTo { abs: true, x2: n(7.0), y2: n(8.0), x: n(9.0), y: n(10.0) },
            PathSegment::Quadratic { abs: true, x1: n(1.0), y1: n(2.0), x: n(3.0), y: n(4.0) },
            PathSegment::SmoothQuadratic { abs: true, x: n(5.0), y: n(6.0) },
        ]
    );
    // the flags of an arc need nothing between them
    let segs = parse_path_data(&chars("M0 0a1 2 30 0110 20")).unwrap();
    assert_eq!(
        segs[1],
        PathSegment::EllipticalArc {
            abs: false,
            rx: n(1.0),
            ry: n(2.0),
            x_axis_rotation: n(30.0),
            large_arc: false,
            sweep: true,
            x: n(10.0),
            y: n(20.0)
        }
    );
    assert_eq!(parse_path_data(&chars("")).unwrap(), vec![]);
    assert_eq!(parse_path_data(&chars("  \n ")).unwrap(), vec![]);
    for bad in ["L1 1", "1 2", "M1", "M1 2 3", "M0 0 X", "M0 0 z 1 2", "M0 0 A1 1 0 2 0 1 1",
        "M0 0 L", "M 0 0 C 1 2 3 4 5"] {
        assert_eq!(parse_path_data(&chars(bad)), None, "{:?}", bad);
    }
}

#[test]
fn languages() {
    assert_eq!(Language::parse("en").unwrap().code, "eng");
    assert_eq!(Language::parse("en-US").unwrap().code, "eng");
    assert_eq!(Language::parse("DE").unwrap().code, "deu");
    assert_eq!(Language::parse("deu").unwrap().code, "deu");
    assert_eq!(Language::parse("heb-IL").unwrap().code, "heb");
    assert!(invalid(Language::parse("xx-YY").unwrap_err(), "xx-YY"));
    assert!(invalid(Language::parse("").unwrap_err(), ""));
}
