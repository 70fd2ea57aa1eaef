use std::io::Write;
use svg_resolve::dom::animate::{Additive, AnimationFill, AnimationMode, CalcMode, TransformAnimate};
use svg_resolve::dom::attrs::{ClipPathAttr, FillRule, TextFlow};
use svg_resolve::dom::error::Error;
use svg_resolve::dom::filter::{FeColorMatrix, Filter};
use svg_resolve::dom::gradient::stop_color;
use svg_resolve::dom::outline::Segment;
use svg_resolve::dom::paint::{Color, Paint};
use svg_resolve::dom::svg::Svg;
use svg_resolve::dom::util::{Iri, Length, LengthUnit, LengthX, LengthY};
use svg_resolve::dom::xml::{href, XmlDocument, XmlKind};
use svg_resolve::dom::{Item, Tag};
use svg_resolve::geometry::{Transform2, Vector2};
use svg_resolve::number::Number;

fn n(x: f64) -> Number {
    Number::from_raw((x * 1e6).round() as i64)
}

fn px(x: f64) -> Length {
    Length::new(n(x), LengthUnit::Unitless)
}

fn read(text: &str) -> Svg {
    match Svg::from_str(text) {
        Ok(svg) => svg,
        Err(e) => panic!("{:?}", e),
    }
}

fn items(svg: &Svg) -> &[std::sync::Arc<Item>] {
    match *svg.root {
        Item::Svg(ref root) => root.items.as_slice(),
        ref other => panic!("{:?}", other),
    }
}

fn refused(text: &str) -> Error {
    match Svg::from_str(text) {
        Ok(svg) => panic!("{:?}", svg),
        Err(e) => e,
    }
}

fn invalid(e: Error, text: &str) -> bool {
    matches!(e, Error::InvalidAttributeValue(ref t) if t == text)
}

#[test]
fn markup_is_read_into_a_flat_list() {
    let doc = XmlDocument::parse("<a x='1'><b>hi<c/></b><!-- no --><d xmlns:k='urn:k' k:y='2'/></a>").unwrap();
    let shape: Vec<(usize, &str)> =
        doc.nodes.iter().map(|node| (node.depth, node.name.as_str())).collect();
    // the depth counts the node itself and the document above the root
    assert_eq!(shape, vec![(2, "a"), (3, "b"), (4, ""), (4, "c"), (3, ""), (3, "d")]);
    assert_eq!(doc.nodes[0].kind, XmlKind::Element);
    assert_eq!(doc.nodes[2].kind, XmlKind::Text);
    assert_eq!(doc.nodes[2].text.as_deref(), Some("hi"));
    assert_eq!(doc.nodes[4].kind, XmlKind::Other);
    assert_eq!(doc.nodes[0].attribute("x"), Some("1"));
    assert_eq!(doc.nodes[0].attribute("y"), None);
    assert_eq!(doc.nodes[5].attribute("y"), Some("2"));
    assert!(XmlDocument::parse("<a><b></a>").is_none());
    assert!(XmlDocument::parse("").is_none());
    assert!(XmlDocument::parse("plain text").is_none());
}

#[test]
fn linked_references() {
    let doc = XmlDocument::parse(
        "<svg xmlns:xlink='http://www.w3.org/1999/xlink'><use xlink:href='#a'/><use href='#b'/><use/></svg>",
    )
    .unwrap();
    assert_eq!(href(&doc.nodes[1]), Some("#a".to_string()));
    // a reference outside the namespace of links does not count
    assert_eq!(href(&doc.nodes[2]), None);
    assert_eq!(href(&doc.nodes[3]), None);
    let doc = XmlDocument::parse("<svg><use href='#b'/></svg>").unwrap();
    assert_eq!(href(&doc.nodes[1]), None);
}

#[test]
fn malformed_markup_is_refused() {
    assert!(matches!(refused("<svg><rect></svg>"), Error::Xml));
    assert!(matches!(refused(""), Error::Xml));
    assert!(matches!(refused("<svg"), Error::Xml));
    assert_eq!(Error::Xml.message(), "malformed XML");
}

#[test]
fn the_root_must_be_an_svg_element() {
    assert!(matches!(refused("<html/>"), Error::NotSvg));
    assert!(matches!(refused("<g><svg/></g>"), Error::NotSvg));
    assert!(matches!(refused("<rect width='1' height='1'/>"), Error::NotSvg));
    assert!(Svg::from_str("<svg/>").is_ok());
    assert!(Svg::from_str("<?xml version='1.0'?><!-- first --><svg/>").is_ok());
}

#[test]
fn data_that_is_not_text_is_refused() {
    assert!(matches!(Svg::from_data(&[0xff, 0xfe, 0x00]), Err(Error::Utf8)));
    assert!(matches!(Svg::from_data(b"<svg>\xc3</svg>"), Err(Error::Utf8)));
    assert!(matches!(Svg::from_data(b""), Err(Error::Xml)));
    assert!(Svg::from_data(b"<svg/>").is_ok());
    assert!(Svg::from_utf8(b"<svg/>").is_ok());
    assert!(matches!(Svg::from_utf8(&[0x1f, 0x8b, 0x08]), Err(Error::Utf8)));
    assert!(matches!(Svg::from_utf8(b"<svg"), Err(Error::Xml)));
    assert!(Svg::from_data("<svg id='\u{fc}'/>".as_bytes()).unwrap().get_item("\u{fc}").is_some());
}

#[test]
fn packed_documents_are_unpacked() {
    let mut encoder = libflate::gzip::Encoder::new(Vec::new()).unwrap();
    encoder.write_all(b"<svg><rect id='r' width='3' height='4'/></svg>").unwrap();
    let packed = encoder.finish().into_result().unwrap();
    assert_eq!(&packed[..2], &[0x1f, 0x8b]);
    let svg = Svg::from_data(&packed).unwrap();
    assert!(matches!(**svg.get_item("r").unwrap(), Item::Rect(_)));

    let mut cut = packed.clone();
    cut.truncate(packed.len() / 2);
    assert!(matches!(Svg::from_data(&cut), Err(Error::Gzip)));
    assert!(matches!(Svg::from_data(&[0x1f, 0x8b]), Err(Error::Gzip)));
    assert!(matches!(Svg::from_data(&[0x1f, 0x8b, 1, 2, 3, 4, 5, 6, 7, 8, 9, 10]), Err(Error::Gzip)));

    // what was packed twice is unpacked once
    let mut encoder = libflate::gzip::Encoder::new(Vec::new()).unwrap();
    encoder.write_all(&packed).unwrap();
    let twice = encoder.finish().into_result().unwrap();
    assert!(matches!(Svg::from_data(&twice), Err(Error::Utf8)));

    let mut encoder = libflate::gzip::Encoder::new(Vec::new()).unwrap();
    encoder.write_all(&[0xff, 0xff]).unwrap();
    let packed = encoder.finish().into_result().unwrap();
    assert!(matches!(Svg::from_data(&packed), Err(Error::Utf8)));

    let mut encoder = libflate::gzip::Encoder::new(Vec::new()).unwrap();
    encoder.write_all(b"<svg").unwrap();
    let packed = encoder.finish().into_result().unwrap();
    assert!(matches!(Svg::from_data(&packed), Err(Error::Xml)));
}

#[test]
fn elements_are_read_in_document_order() {
    let svg = read(
        "<svg><title>t</title><rect width='1' height='1'/><unknown><rect/></unknown>\
         <circle r='1'/><ellipse rx='1' ry='2'/><line x2='1'/><polygon points='0,0 1,0 1,1'/>\
         <polyline points='0,0 1,1'/><path d='M0 0L1 1'/><g/><defs/><use/><symbol/>\
         <linearGradient/><radialGradient/><clipPath/><filter/><svg/><text>a</text></svg>",
    );
    let names: Vec<&str> = items(&svg)
        .iter()
        .map(|item| match **item {
            Item::Path(_) => "path",
            Item::G(_) => "g",
            Item::Defs(_) => "defs",
            Item::Rect(_) => "rect",
            Item::Polygon(_) => "polygon",
            Item::Polyline(_) => "polyline",
            Item::Line(_) => "line",
            Item::Circle(_) => "circle",
            Item::Ellipse(_) => "ellipse",
            Item::LinearGradient(_) => "linearGradient",
            Item::RadialGradient(_) => "radialGradient",
            Item::ClipPath(_) => "clipPath",
            Item::Filter(_) => "filter",
            Item::Svg(_) => "svg",
            Item::Use(_) => "use",
            Item::Symbol(_) => "symbol",
            Item::Text(_) => "text",
            Item::TSpan(_) => "tspan",
            Item::TRef(_) => "tref",
            Item::String(_) => "string",
        })
        .collect();
    assert_eq!(
        names,
        vec![
            "rect", "circle", "ellipse", "line", "polygon", "polyline", "path", "g", "defs", "use",
            "symbol", "linearGradient", "radialGradient", "clipPath", "filter", "svg", "text"
        ]
    );
}

#[test]
fn ids_are_indexed() {
    let svg = read(
        "<svg id='root'><defs><linearGradient id='grad'><stop offset='0'/></linearGradient>\
         <clipPath id='clip'><rect id='inner' width='1' height='1'/></clipPath></defs>\
         <g id='group'><rect id='a' width='1' height='1'/><g><circle id='deep' r='2'/></g></g>\
         <rect id='a' width='2' height='2'/></svg>",
    );
    assert!(matches!(**svg.get_item("root").unwrap(), Item::Svg(_)));
    assert!(matches!(**svg.get_item("grad").unwrap(), Item::LinearGradient(_)));
    assert!(matches!(**svg.get_item("clip").unwrap(), Item::ClipPath(_)));
    assert!(matches!(**svg.get_item("group").unwrap(), Item::G(_)));
    assert!(matches!(**svg.get_item("deep").unwrap(), Item::Circle(_)));
    assert!(svg.get_item("missing").is_none());
    assert!(svg.get_item("").is_none());
    // of two elements with one id the later one is found
    let Item::Rect(ref a) = **svg.get_item("a").unwrap() else { panic!() };
    assert_eq!(a.size.x.value, LengthX(px(2.0)));
    assert_eq!(svg.root.id(), Some("root"));
    assert_eq!(svg.root.children().len(), 3);
    assert_eq!(svg.get_item("deep").unwrap().id(), Some("deep"));
    assert_eq!(svg.get_item("deep").unwrap().children().len(), 0);
}

#[test]
fn rect_fields() {
    let svg = read("<svg><rect x='1' y='2pt' width='50%' height='4' rx='5' id='r'/><rect/></svg>");
    let Item::Rect(ref r) = *items(&svg)[0] else { panic!() };
    assert_eq!(r.pos.x.value, LengthX(px(1.0)));
    assert_eq!(r.pos.y.value, LengthY(Length::new(n(2.0), LengthUnit::Pt)));
    assert_eq!(r.size.x.value, LengthX(Length::new(n(50.0), LengthUnit::Percent)));
    assert_eq!(r.size.y.value, LengthY(px(4.0)));
    assert_eq!(r.rx.value, Some(px(5.0)));
    assert_eq!(r.ry.value, None);
    assert_eq!(r.id.as_deref(), Some("r"));
    let Item::Rect(ref r) = *items(&svg)[1] else { panic!() };
    assert_eq!(r.pos.x.value, LengthX(px(0.0)));
    assert_eq!(r.size.x.value, LengthX(px(0.0)));
    assert_eq!(r.id, None);
    assert!(r.attrs.display);
    assert!(r.attrs.fill.value.0.is_none());
    assert!(r.attrs.clip_path.is_none());
    assert_eq!(r.attrs.transform.value, Transform2::identity());
}

#[test]
fn bad_attribute_values_refuse_the_document() {
    assert!(invalid(refused("<svg><rect x='wide'/></svg>"), "wide"));
    assert!(invalid(refused("<svg><g><g><circle r='1 2'/></g></g></svg>"), "1 2"));
    assert!(invalid(refused("<svg><rect fill='notacolour'/></svg>"), "notacolour"));
    assert!(invalid(refused("<svg><rect transform='flip(1)'/></svg>"), "flip(1)"));
    assert!(invalid(refused("<svg><rect display='block'/></svg>"), "block"));
    assert!(invalid(refused("<svg><rect clip-path='c'/></svg>"), "c"));
    assert!(invalid(refused("<svg><rect style='opacity: much'/></svg>"), "much"));
    assert!(invalid(refused("<svg opacity='x'/>"), "x"));
    assert!(invalid(refused("<svg><path d='M0 0 L'/></svg>"), "M0 0 L"));
    assert!(invalid(refused("<svg viewBox='0 0 1 x'/>"), "0 0 1 x"));
    assert!(matches!(refused("<svg viewBox='0 0 1'/>"), Error::TooShort));
    // the first error in document order is the one reported
    assert!(invalid(refused("<svg><rect x='first'/><rect x='second'/></svg>"), "first"));
    assert!(invalid(refused("<svg><g><rect x='first'/></g><rect x='second'/></svg>"), "first"));
    // what is inside an element that is not read does not count
    assert!(Svg::from_str("<svg><metadata><rect x='wide'/></metadata></svg>").is_ok());
    assert_eq!(Error::InvalidAttributeValue("wide".into()).message(), "wide");
}

#[test]
fn missing_attributes_refuse_the_document() {
    let e = refused("<svg><rect><animate attributeName='x' from='0' to='1'/></rect></svg>");
    assert!(matches!(e, Error::MissingAttribute(ref name) if name == "dur"), "{:?}", e);
    let e = refused("<svg><rect><animate attributeName='x' dur='1s'/></rect></svg>");
    assert!(matches!(e, Error::MissingAttribute(_)), "{:?}", e);
    let e = refused("<svg><rect><animate attributeName='x' values='1;2' dur='1s'/></rect></svg>");
    assert!(matches!(e, Error::MissingAttribute(ref name) if name == "keyTimes"), "{:?}", e);
    let e = refused(
        "<svg><rect><animate attributeName='x' values='1;2' keyTimes='0;1' calcMode='spline' dur='1s'/></rect></svg>",
    );
    assert!(matches!(e, Error::MissingAttribute(ref name) if name == "keySplines"), "{:?}", e);
    let e = refused("<svg><filter><feColorMatrix/></filter></svg>");
    assert!(matches!(e, Error::MissingAttribute(ref name) if name == "values"), "{:?}", e);
    let e = refused("<svg><filter><feColorMatrix type='saturate'/></filter></svg>");
    assert!(matches!(e, Error::MissingAttribute(ref name) if name == "values"), "{:?}", e);
    let e = refused("<svg><g><animateTransform attributeName='transform' dur='1s' to='1'/></g></svg>");
    assert!(matches!(e, Error::MissingAttribute(ref name) if name == "type"), "{:?}", e);
}

#[test]
fn attributes_win_over_style_declarations() {
    let svg = read(
        "<svg><rect fill='red' style='fill: blue; stroke: green; opacity:0.5'/>\
         <rect style='fill:blue;fill:lime'/></svg>",
    );
    let Item::Rect(ref r) = *items(&svg)[0] else { panic!() };
    assert_eq!(r.attrs.fill.value.0, Some(Paint::Color(Color::from_srgb_u8(255, 0, 0))));
    assert_eq!(r.attrs.stroke.value.0, Some(Paint::Color(Color::from_srgb_u8(0, 128, 0))));
    assert_eq!(r.attrs.opacity.value, Some(n(0.5)));
    // of two declarations for one property the later one counts
    let Item::Rect(ref r) = *items(&svg)[1] else { panic!() };
    assert_eq!(r.attrs.fill.value.0, Some(Paint::Color(Color::from_srgb_u8(0, 255, 0))));
}

#[test]
fn presentation_attributes() {
    let svg = read(
        "<svg xml:lang='de'><g clip-path='url(#c)' clip-rule='nonzero' transform='translate(1 2)' \
         opacity='0.25' fill='none' fill-rule='evenodd' fill-opacity='0.5' stroke='#010203' \
         stroke-width='3mm' stroke-opacity='0.75' stroke-dasharray='1 2 3' stroke-dashoffset='4' \
         display='none' filter='url(#f)' font-size='12pt' direction='rtl' lang='en'/>\
         <g clip-path='none' stroke='inherit' stroke-dasharray='none'/>\
         <g clip-rule='inherit' fill-rule='inherit'/></svg>",
    );
    let Item::G(ref g) = *items(&svg)[0] else { panic!() };
    let a = &g.attrs;
    assert!(matches!(a.clip_path, Some(ClipPathAttr::Ref(ref id)) if id == "c"));
    assert_eq!(a.clip_rule, Some(FillRule::Winding));
    assert_eq!(a.transform.value, Transform2::from_translation(Vector2::new(n(1.0), n(2.0))));
    assert_eq!(a.opacity.value, Some(n(0.25)));
    assert_eq!(a.fill.value.0, Some(Paint::Nothing));
    assert_eq!(a.fill_rule, Some(FillRule::EvenOdd));
    assert_eq!(a.fill_opacity.value, Some(n(0.5)));
    assert_eq!(a.stroke.value.0, Some(Paint::Color(Color::from_srgb_u8(1, 2, 3))));
    assert_eq!(a.stroke_width.value, Some(Length::new(n(3.0), LengthUnit::Mm)));
    assert_eq!(a.stroke_opacity.value, Some(n(0.75)));
    assert_eq!(a.stroke_dasharray.value.as_ref().unwrap().0.len(), 6);
    assert_eq!(a.stroke_dashoffset.value, Some(px(4.0)));
    assert!(!a.display);
    assert_eq!(a.filter, Some(Iri("f".into())));
    assert_eq!(a.font_size.value, Some(LengthY(Length::new(n(12.0), LengthUnit::Pt))));
    assert_eq!(a.direction, Some(TextFlow::RightToLeft));
    assert_eq!(a.lang.as_ref().unwrap().code, "eng");
    let Item::G(ref g) = *items(&svg)[1] else { panic!() };
    assert!(matches!(g.attrs.clip_path, Some(ClipPathAttr::Nothing)));
    assert_eq!(g.attrs.stroke.value.0, None);
    assert!(g.attrs.stroke_dasharray.value.is_none());
    assert!(g.attrs.lang.is_none());
    // a rule that is not set is the nonzero rule, one that is inherited is left open
    assert_eq!(g.attrs.clip_rule, Some(FillRule::Winding));
    assert_eq!(g.attrs.fill_rule, Some(FillRule::Winding));
    let Item::G(ref g) = *items(&svg)[2] else { panic!() };
    assert_eq!(g.attrs.clip_rule, None);
    assert_eq!(g.attrs.fill_rule, None);
    let Item::Svg(ref root) = *svg.root else { panic!() };
    assert_eq!(root.attrs.lang.as_ref().unwrap().code, "deu");
}

#[test]
fn directives_are_attached_to_what_they_name() {
    let svg = read(
        "<svg><rect width='10' height='10' fill='red'>\
         <animate attributeName='x' from='0' to='50' dur='2s'/>\
         <animate attributeName='width' by='5' begin='1s' dur='3s' fill='freeze'/>\
         <animate attributeName='x' values='0;10;30' keyTimes='0;0.5;1' dur='4s' calcMode='discrete' additive='sum'/>\
         <animate attributeName='opacity' to='0' dur='1s'/>\
         <animate attributeName='fill' from='red' to='blue' dur='1s'/>\
         <animate attributeName='nothing' from='a' to='b' dur='1s'/>\
         <set attributeName='x' to='1'/>\
         </rect></svg>",
    );
    let Item::Rect(ref r) = *items(&svg)[0] else { panic!() };
    assert_eq!(r.pos.x.animations.len(), 2);
    assert_eq!(r.pos.y.animations.len(), 0);
    assert_eq!(r.size.x.animations.len(), 1);
    assert_eq!(r.attrs.opacity.animations.len(), 1);
    assert_eq!(r.attrs.fill.animations.len(), 1);

    let first = &r.pos.x.animations[0];
    assert_eq!(first.timing.begin.seconds(), n(0.0));
    assert_eq!(first.timing.duration.seconds(), n(2.0));
    assert_eq!(first.fill, AnimationFill::Remove);
    assert_eq!(first.calc_mode, CalcMode::Linear);
    assert_eq!(first.additive, Additive::Replace);
    assert!(matches!(first.mode, AnimationMode::Absolute { from, to }
        if from == LengthX(px(0.0)) && to == LengthX(px(50.0))));

    let by = &r.size.x.animations[0];
    assert_eq!(by.timing.begin.seconds(), n(1.0));
    assert_eq!(by.fill, AnimationFill::Freeze);
    assert_eq!(by.additive, Additive::Sum);
    assert!(matches!(by.mode, AnimationMode::Relative { by } if by == LengthX(px(5.0))));

    let keys = &r.pos.x.animations[1];
    assert_eq!(keys.calc_mode, CalcMode::Discrete);
    assert_eq!(keys.additive, Additive::Sum);
    let AnimationMode::Values { ref pairs, ref splines } = keys.mode else { panic!() };
    assert_eq!(
        pairs,
        &vec![(n(0.0), LengthX(px(0.0))), (n(0.5), LengthX(px(10.0))), (n(1.0), LengthX(px(30.0)))]
    );
    assert!(splines.is_empty());

    // a directive that names only one end starts or ends at the base value
    let fade = &r.attrs.opacity.animations[0];
    assert!(matches!(fade.mode, AnimationMode::Absolute { from: None, to: Some(to) } if to == n(0.0)));
}

#[test]
fn keyframes_with_times_and_curves() {
    let svg = read(
        "<svg><circle r='1'><animate attributeName='r' values='1; 2 ;4' keyTimes='0;0.25;1' \
         keySplines='0 0 1 1; 0.42 0 0.58 1' calcMode='spline' dur='1s'/></circle></svg>",
    );
    let Item::Circle(ref c) = *items(&svg)[0] else { panic!() };
    let a = &c.radius.animations[0];
    assert_eq!(a.calc_mode, CalcMode::Spline);
    let AnimationMode::Values { ref pairs, ref splines } = a.mode else { panic!() };
    assert_eq!(pairs, &vec![(n(0.0), px(1.0)), (n(0.25), px(2.0)), (n(1.0), px(4.0))]);
    assert_eq!(splines.len(), 2);
    assert_eq!(splines[1].0, Vector2::new(n(0.42), n(0.0)));
    assert_eq!(splines[1].1, Vector2::new(n(0.58), n(1.0)));
    assert!(Svg::from_str(
        "<svg><circle r='1'><animate attributeName='r' values='1;2' keyTimes='0;x' dur='1s'/></circle></svg>"
    )
    .is_err());
    assert!(Svg::from_str(
        "<svg><circle r='1'><animate attributeName='r' values='1;oops' dur='1s'/></circle></svg>"
    )
    .is_err());
}

#[test]
fn animated_transforms_are_recognised() {
    let svg = read(
        "<svg><g transform='scale(2)'>\
         <animateTransform attributeName='transform' type='translate' from='0 0' to='10 20' dur='2s'/>\
         <animateTransform attributeName='transform' type='rotate' by='90' dur='2s'/>\
         <animateTransform attributeName='transform' type='scale' to='2' dur='2s'/>\
         <animateTransform attributeName='transform' type='skewX' to='2' dur='2s'/>\
         <animateTransform attributeName='transform' type='skewY' to='2' dur='2s'/>\
         </g></svg>",
    );
    let Item::G(ref g) = *items(&svg)[0] else { panic!() };
    let list = &g.attrs.transform.animations;
    assert_eq!(list.len(), 5);
    assert!(matches!(list[0], TransformAnimate::Translate(_)));
    assert!(matches!(list[1], TransformAnimate::Rotate(_)));
    assert!(matches!(list[2], TransformAnimate::Scale(_)));
    assert!(matches!(list[3], TransformAnimate::SkewX(_)));
    assert!(matches!(list[4], TransformAnimate::SkewY(_)));
    assert_eq!(g.attrs.transform.value, Transform2::from_scale(Vector2::splat(n(2.0))));
    let e = refused(
        "<svg><g><animateTransform attributeName='transform' type='shear' to='2' dur='2s'/></g></svg>",
    );
    assert!(invalid(e, "shear"));
}

#[test]
fn paths_become_outlines() {
    let svg = read("<svg><path d='M0 0 L10 0 l0 10 H0 z m1 1 q1 0 1 1 t2 2 C1 2 3 4 5 6 s1 1 2 2 a1 2 0 1 0 3 3'/><path/></svg>");
    let Item::Path(ref p) = *items(&svg)[0] else { panic!() };
    let v = |x: f64, y: f64| Vector2::new(n(x), n(y));
    assert_eq!(p.outline.contours.len(), 2);
    let first = &p.outline.contours[0];
    assert!(first.closed);
    assert_eq!(
        first.segments,
        vec![
            Segment::Endpoint(v(0.0, 0.0)),
            Segment::Endpoint(v(10.0, 0.0)),
            Segment::Endpoint(v(10.0, 10.0)),
            Segment::Endpoint(v(0.0, 10.0)),
            // closing goes back to the start
            Segment::Endpoint(v(0.0, 0.0)),
        ]
    );
    let second = &p.outline.contours[1];
    assert!(!second.closed);
    assert_eq!(
        second.segments,
        vec![
            // a relative move after closing starts from the start of the contour before
            Segment::Endpoint(v(1.0, 1.0)),
            Segment::Quadratic { control: v(2.0, 1.0), to: v(2.0, 2.0) },
            // the control point of a smooth curve mirrors the one before
            Segment::Quadratic { control: v(2.0, 3.0), to: v(4.0, 4.0) },
            Segment::Cubic { control1: v(1.0, 2.0), control2: v(3.0, 4.0), to: v(5.0, 6.0) },
            Segment::Cubic { control1: v(7.0, 8.0), control2: v(6.0, 7.0), to: v(7.0, 8.0) },
            Segment::Arc {
                radius: v(1.0, 2.0),
                rotation: n(0.0),
                large_arc: true,
                clockwise: false,
                to: v(10.0, 11.0)
            },
        ]
    );
    let Item::Path(ref p) = *items(&svg)[1] else { panic!() };
    assert_eq!(p.outline.contours.len(), 0);
}

#[test]
fn polygons_and_polylines() {
    let svg = read("<svg><polygon points='0,0 4,0 4,3'/><polyline points='0,0 4,0 4,3'/><polygon/></svg>");
    let v = |x: f64, y: f64| Vector2::new(n(x), n(y));
    let Item::Polygon(ref p) = *items(&svg)[0] else { panic!() };
    assert_eq!(p.outline.contours.len(), 1);
    assert_eq!(
        p.outline.contours[0].segments,
        vec![Segment::Endpoint(v(0.0, 0.0)), Segment::Endpoint(v(4.0, 0.0)), Segment::Endpoint(v(4.0, 3.0))]
    );
    let Item::Polyline(ref q) = *items(&svg)[1] else { panic!() };
    assert_eq!(q.outline.contours[0].segments, p.outline.contours[0].segments);
    assert_eq!(q.outline.contours[0].closed, p.outline.contours[0].closed);
    let Item::Polygon(ref p) = *items(&svg)[2] else { panic!() };
    assert_eq!(p.outline.contours.len(), 0);
}

#[test]
fn gradients_and_stops() {
    let svg = read(
        "<svg xmlns:xlink='http://www.w3.org/1999/xlink'>\
         <linearGradient id='a' x1='0' y1='10%' x2='1' gradientTransform='scale(2)'>\
         <stop offset='0' stop-color='red'/>\
         <stop offset='50%' stop-color='#00ff00' stop-opacity='0.5'/>\
         <stop offset='1' style='stop-color: blue; stop-opacity: 0.25'/>\
         <stop/>\
         </linearGradient>\
         <radialGradient id='b' cx='1' cy='2' fx='3' fy='4' r='5' xlink:href='#a'/></svg>",
    );
    let Item::LinearGradient(ref g) = **svg.get_item("a").unwrap() else { panic!() };
    assert_eq!(g.from, (Some(LengthX(px(0.0))), Some(LengthY(Length::new(n(10.0), LengthUnit::Percent)))));
    assert_eq!(g.to, (Some(LengthX(px(1.0))), None));
    assert_eq!(g.gradient_transform, Some(Transform2::from_scale(Vector2::splat(n(2.0)))));
    assert_eq!(g.href, None);
    assert_eq!(g.stops.len(), 4);
    assert_eq!((g.stops[0].offset, g.stops[0].color, g.stops[0].opacity),
        (n(0.0), Color::from_srgb_u8(255, 0, 0), n(1.0)));
    assert_eq!((g.stops[1].offset, g.stops[1].color, g.stops[1].opacity),
        (n(0.5), Color::from_srgb_u8(0, 255, 0), n(0.5)));
    assert_eq!((g.stops[2].offset, g.stops[2].color, g.stops[2].opacity),
        (n(1.0), Color::from_srgb_u8(0, 0, 255), n(0.25)));
    assert_eq!((g.stops[3].offset, g.stops[3].color, g.stops[3].opacity),
        (n(0.0), Color::black(), n(1.0)));
    let Item::RadialGradient(ref g) = **svg.get_item("b").unwrap() else { panic!() };
    assert_eq!(g.center, (Some(LengthX(px(1.0))), Some(LengthY(px(2.0)))));
    assert_eq!(g.focus, (Some(LengthX(px(3.0))), Some(LengthY(px(4.0)))));
    assert_eq!(g.radius, Some(px(5.0)));
    assert_eq!(g.href.as_deref(), Some("#a"));
    assert!(g.stops.is_empty());
}

#[test]
fn filters() {
    let svg = read(
        "<svg><filter id='f'><feGaussianBlur stdDeviation='2.5'/>\
         <feColorMatrix values='1 2 3 4 5 6 7 8 9 10 11 12 13 14 15 16 17 18 19 20'/>\
         <feColorMatrix type='saturate' values='0.5'/>\
         <feColorMatrix type='hueRotate' values='90'/>\
         <feColorMatrix type='luminanceToAlpha'/>\
         <feOther/></filter></svg>",
    );
    let Item::Filter(ref f) = **svg.get_item("f").unwrap() else { panic!() };
    assert_eq!(f.filters.len(), 5);
    assert!(matches!(f.filters[0], Filter::GaussianBlur(ref b) if b.std_deviation == n(2.5)));
    let Filter::ColorMatrix(FeColorMatrix::Matrix(ref m)) = f.filters[1] else { panic!() };
    // the rows of the text are the columns of the matrix
    assert_eq!(m[0], n(1.0));
    assert_eq!(m[1], n(6.0));
    assert_eq!(m[4], n(2.0));
    assert_eq!(m[19], n(20.0));
    assert!(matches!(f.filters[2], Filter::ColorMatrix(FeColorMatrix::Saturate(v)) if v == n(0.5)));
    assert!(matches!(f.filters[3], Filter::ColorMatrix(FeColorMatrix::HueRotate(v)) if v == n(90.0)));
    assert!(matches!(f.filters[4], Filter::ColorMatrix(FeColorMatrix::LuminanceToAlpha)));
    let e = refused("<svg><filter><feColorMatrix values='1 2 3'/></filter></svg>");
    assert!(matches!(e, Error::InvalidAttributeValue(_)));
    let e = refused("<svg><filter><feColorMatrix type='odd' values='1'/></filter></svg>");
    assert!(matches!(e, Error::InvalidAttributeValue(_)));
}

#[test]
fn text_runs_are_collapsed() {
    let svg = read(
        "<svg xmlns:xlink='http://www.w3.org/1999/xlink'><text x='1 2' y='3'>  Hello \n  \
         <tspan dx='1'>big</tspan>\t world  <tref xlink:href='#t'/>  </text></svg>",
    );
    let Item::Text(ref t) = *items(&svg)[0] else { panic!() };
    let runs: Vec<String> = t
        .items
        .iter()
        .map(|item| match **item {
            Item::String(ref s) => format!("{:?}", s),
            Item::TSpan(ref span) => match *span.items[0] {
                Item::String(ref s) => format!("tspan {:?}", s),
                _ => panic!(),
            },
            Item::TRef(ref r) => format!("tref {:?}", r.href),
            _ => panic!(),
        })
        .collect();
    assert_eq!(runs, vec!["\"Hello \"", "tspan \"big\"", "\" world \"", "tref Some(\"#t\")"]);
    assert_eq!(t.pos.x.as_ref().unwrap().as_slice().len(), 2);
    assert_eq!(t.pos.y.as_ref().unwrap().as_slice(), &[LengthY(px(3.0))]);
    assert!(t.pos.dx.is_none());
}

#[test]
fn use_and_symbol() {
    let svg = read(
        "<svg xmlns:xlink='http://www.w3.org/1999/xlink'><symbol id='s' viewBox='0 0 10 10'><rect width='10' height='10'/></symbol>\
         <use xlink:href='#s' x='5' y='6' width='20' height='30'/></svg>",
    );
    let Item::Symbol(ref s) = *items(&svg)[0] else { panic!() };
    assert_eq!(s.items.len(), 1);
    assert!(s.view_box.is_some());
    let Item::Use(ref u) = *items(&svg)[1] else { panic!() };
    assert_eq!(u.href.as_deref(), Some("#s"));
    assert_eq!(u.pos.x.value, LengthX(px(5.0)));
    assert_eq!(u.pos.y.value, LengthY(px(6.0)));
    assert_eq!(u.width, Some(LengthX(px(20.0))));
    assert_eq!(u.height, Some(LengthY(px(30.0))));
}

#[test]
fn stops_read_their_properties_in_order() {
    let svg = read(
        "<svg><linearGradient id='g'>\
         <stop offset='10%' stop-color='red' style='stop-color:blue'/>\
         <stop style='stop-color:blue' stop-color='red'/>\
         <stop offset='2' stop-opacity='7'/>\
         <stop offset='-1' stop-opacity='-1'/>\
         <stop offset='half' stop-color='nothing' stop-opacity='much' other='x'/>\
         <stop style='offset: 0.5; stop-opacity: much; stop-color: lime'/>\
         <stop style='stop-color: lime; offset: 1em; stop-opacity: 0.5' stop-opacity='0.25'/>\
         <notastop offset='1'/>\
         </linearGradient></svg>",
    );
    let Item::LinearGradient(ref g) = **svg.get_item("g").unwrap() else { panic!() };
    let stops: Vec<(Number, Color, Number)> =
        g.stops.iter().map(|s| (s.offset, s.color, s.opacity)).collect();
    let lime = Color::from_srgb_u8(0, 255, 0);
    assert_eq!(
        stops,
        vec![
            // what comes later in the element counts
            (n(0.1), Color::from_srgb_u8(0, 0, 255), n(1.0)),
            (n(0.0), Color::from_srgb_u8(255, 0, 0), n(1.0)),
            // an opacity is kept between nothing and all
            (n(2.0), Color::black(), n(1.0)),
            (n(-1.0), Color::black(), n(0.0)),
            // what cannot be read is left as it is
            (n(0.0), Color::black(), n(1.0)),
            // and ends the declarations of a style
            (n(0.5), Color::black(), n(1.0)),
            (n(0.0), lime, n(0.25)),
        ]
    );
}

#[test]
fn stop_colours() {
    let colour_of = |text: &str| {
        let svg = read(&format!(
            "<svg><linearGradient id='g'><stop stop-color='{}'/></linearGradient></svg>",
            text
        ));
        let Item::LinearGradient(ref g) = **svg.get_item("g").unwrap() else { panic!() };
        g.stops[0].color
    };
    assert_eq!(colour_of("#ff8000"), Color::from_srgb_u8(255, 128, 0));
    // a short form stands for each digit twice
    assert_eq!(colour_of("#f80"), Color::from_srgb_u8(255, 136, 0));
    assert_eq!(colour_of(" rgb( 1 , 2 , 3 ) "), Color::from_srgb_u8(1, 2, 3));
    assert_eq!(colour_of("rgb(100%, 0%, 40%)"), Color::from_srgb_u8(255, 0, 102));
    assert_eq!(colour_of("rgb(300, -5, 0)"), Color::from_srgb_u8(255, 0, 0));
    assert_eq!(colour_of("Teal"), Color::from_srgb_u8(0, 128, 128));
    assert_eq!(colour_of("white"), Color::from_srgb_u8(255, 255, 255));
    for bad in ["", "#", "#12", "#1234", "teal!", "red blue", "rgb(1,2)", "notacolour"] {
        assert_eq!(colour_of(bad), Color::black(), "{:?}", bad);
    }
    assert_eq!(stop_color(Some((255, 0, 51))), Some(Color::from_srgb_u8(255, 0, 51)));
    assert_eq!(stop_color(None), None);
}

#[test]
fn positions_of_text() {
    let svg = read("<svg><text x='1 2em,3%' dx=' 4 ' rotate='10 20'>a<tspan y='5'>b</tspan></text><text/></svg>");
    let Item::Text(ref t) = *items(&svg)[0] else { panic!() };
    assert_eq!(
        t.pos.x.as_ref().unwrap().as_slice(),
        &[
            LengthX(px(1.0)),
            LengthX(Length::new(n(2.0), LengthUnit::Em)),
            LengthX(Length::new(n(3.0), LengthUnit::Percent))
        ]
    );
    assert_eq!(t.pos.rotate.as_ref().unwrap().as_slice(), &[n(10.0), n(20.0)]);
    assert!(t.pos.y.is_none());
    assert!(t.pos.dx.is_some());
    let Item::TSpan(ref span) = *t.items[1] else { panic!() };
    assert_eq!(span.pos.y.as_ref().unwrap().as_slice(), &[LengthY(px(5.0))]);
    let Item::Text(ref t) = *items(&svg)[1] else { panic!() };
    assert!(t.items.is_empty());
    assert!(t.pos.x.is_none());
    assert!(Svg::from_str("<svg><text x='1 two'/></svg>").is_err());
}
