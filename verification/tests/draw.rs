use svg_resolve::dom::animate::Time;
use svg_resolve::dom::attrs::FillRule;
use svg_resolve::dom::gradient::ColorU;
use svg_resolve::dom::outline::{Contour, Outline, Segment};
use svg_resolve::dom::paint::{Color, Paint};
use svg_resolve::dom::svg::Svg;
use svg_resolve::dom::{Item, Tag};
use svg_resolve::draw::draw::{BoundsOptions, DrawContext, DrawOptions, Options};
use svg_resolve::draw::filter::round_out;
use svg_resolve::draw::g::max_bounds;
use svg_resolve::draw::{DrawItem, Shape};
use svg_resolve::draw::scene::{
    BlendMode, ClipPathId, DisplayItem, DrawPath, GradientGeometry, PaintId, RectI, RenderTargetId,
    Scene, ScenePaint,
};
use svg_resolve::geometry::{Rect2, Transform2, Vector2};
use svg_resolve::number::Number;

fn n(x: f64) -> Number {
    Number::from_raw((x * 1e6).round() as i64)
}

fn v(x: f64, y: f64) -> Vector2 {
    Vector2::new(n(x), n(y))
}

fn rect(x0: f64, y0: f64, x1: f64, y1: f64) -> Rect2 {
    Rect2::from_points(v(x0, y0), v(x1, y1))
}

fn read(text: &str) -> Svg {
    match Svg::from_str(text) {
        Ok(svg) => svg,
        Err(e) => panic!("{:?}", e),
    }
}

/// The scene of the document as it is at `seconds`, in its own coordinates.
fn scene_at(svg: &Svg, seconds: f64) -> Scene {
    let ctx = DrawContext::new_without_fonts(svg);
    let mut options = DrawOptions::new(&ctx);
    options.common.set_transform(Transform2::identity());
    options.common.time = Time::from_seconds(n(seconds));
    let mut scene = Scene::new();
    svg.root.draw_to(&mut scene, &options);
    scene
}

fn scene(text: &str) -> Scene {
    scene_at(&read(text), 0.0)
}

/// The bounds of the document as it is at `seconds`, in its own coordinates.
fn bounds_at(svg: &Svg, seconds: f64) -> Option<Rect2> {
    let ctx = DrawContext::new_without_fonts(svg);
    let mut options = BoundsOptions::new(&ctx);
    options.common.set_transform(Transform2::identity());
    options.common.time = Time::from_seconds(n(seconds));
    svg.root.bounds(&options)
}

fn bounds(text: &str) -> Option<Rect2> {
    bounds_at(&read(text), 0.0)
}

fn paths(scene: &Scene) -> Vec<&DrawPath> {
    scene
        .display_list
        .iter()
        .filter_map(|item| match item {
            DisplayItem::DrawPath(p) => Some(p),
            _ => None,
        })
        .collect()
}

fn colour(scene: &Scene, id: PaintId) -> ColorU {
    match scene.paints[id.0] {
        ScenePaint::Color(c) => c,
        ref other => panic!("{:?}", other),
    }
}

fn corners(outline: &Outline) -> Vec<Vector2> {
    outline.contours[0]
        .segments
        .iter()
        .map(|s| match *s {
            Segment::Endpoint(p) => p,
            ref other => panic!("{:?}", other),
        })
        .collect()
}

#[test]
fn a_rectangle_is_filled() {
    let scene = scene("<svg><rect x='1' y='2' width='3' height='4' fill='red'/></svg>");
    assert_eq!(scene.paints.len(), 1);
    assert_eq!(scene.clip_paths.len(), 0);
    assert_eq!(scene.render_targets.len(), 0);
    assert_eq!(scene.display_list.len(), 1);
    let p = paths(&scene)[0];
    assert_eq!(colour(&scene, p.paint), ColorU { r: 255, g: 0, b: 0, a: 255 });
    assert_eq!(p.transform, Transform2::identity());
    assert_eq!(p.fill_rule, FillRule::Winding);
    assert_eq!(p.clip_path, None);
    assert_eq!(p.blend_mode, BlendMode::SrcOver);
    assert!(p.stroke.is_none());
    assert_eq!(p.outline.contours.len(), 1);
    assert!(p.outline.contours[0].closed);
    assert_eq!(corners(&p.outline), vec![v(1.0, 2.0), v(4.0, 2.0), v(4.0, 6.0), v(1.0, 6.0)]);
}

#[test]
fn the_default_fill_is_black() {
    let scene = scene("<svg><rect width='3' height='4'/></svg>");
    let p = paths(&scene)[0];
    assert_eq!(colour(&scene, p.paint), ColorU { r: 0, g: 0, b: 0, a: 255 });
}

#[test]
fn fill_and_stroke_are_two_paths() {
    let scene = scene(
        "<svg><rect width='3' height='4' fill='red' stroke='blue' stroke-width='2' \
         stroke-dasharray='1 2' fill-rule='evenodd'/></svg>",
    );
    let list = paths(&scene);
    assert_eq!(list.len(), 2);
    assert_eq!(colour(&scene, list[0].paint), ColorU { r: 255, g: 0, b: 0, a: 255 });
    assert!(list[0].stroke.is_none());
    assert_eq!(list[0].fill_rule, FillRule::EvenOdd);
    assert_eq!(list[1].fill_rule, FillRule::Winding);
    assert_eq!(colour(&scene, list[1].paint), ColorU { r: 0, g: 0, b: 255, a: 255 });
    let stroke = list[1].stroke.as_ref().unwrap();
    assert_eq!(stroke.style.line_width, n(2.0));
    assert_eq!(stroke.dash, Some(vec![n(1.0), n(2.0)]));
    assert_eq!(stroke.dash_offset, n(0.0));
    assert_eq!(corners(&list[0].outline), corners(&list[1].outline));
}

#[test]
fn without_paint_nothing_is_drawn() {
    assert!(scene("<svg><rect width='3' height='4' fill='none'/></svg>").display_list.is_empty());
    assert!(scene("<svg fill='none'><rect width='3' height='4'/></svg>").display_list.is_empty());
    assert!(scene("<svg><rect width='3' height='4' opacity='0'/></svg>").display_list.is_empty());
    assert!(scene("<svg><rect width='3' height='4' fill-opacity='0'/></svg>").display_list.is_empty());
    assert!(scene("<svg><rect width='3' height='4' fill='url(#nowhere)'/></svg>").display_list.is_empty());
    assert_eq!(bounds("<svg><rect width='3' height='4' fill='none'/></svg>"), None);
    assert_eq!(bounds("<svg><rect width='3' height='4' opacity='0'/></svg>"), None);
    // a stroke alone shows
    let scene = scene("<svg><rect width='3' height='4' fill='none' stroke='red'/></svg>");
    assert_eq!(paths(&scene).len(), 1);
    assert!(paths(&scene)[0].stroke.is_some());
}

#[test]
fn opacity_goes_into_the_colour() {
    let scene = scene(
        "<svg><rect width='3' height='4' fill='red' opacity='0.5'/>\
         <rect width='3' height='4' fill='red' opacity='0.5' fill-opacity='0.5'/>\
         <g opacity='0.5'><rect width='3' height='4' fill='red'/></g></svg>",
    );
    let list = paths(&scene);
    assert_eq!(colour(&scene, list[0].paint).a, 128);
    assert_eq!(colour(&scene, list[1].paint).a, 64);
    // the opacity of a group is not handed down
    assert_eq!(colour(&scene, list[2].paint).a, 255);
}

#[test]
fn paint_is_inherited() {
    let scene = scene(
        "<svg><g fill='lime' stroke='navy' stroke-width='3' fill-rule='nonzero'>\
         <rect width='1' height='1'/><rect width='1' height='1' fill='red' stroke='none'/>\
         <g fill='inherit'><rect width='1' height='1' stroke-width='5'/></g></g></svg>",
    );
    let list = paths(&scene);
    assert_eq!(list.len(), 5);
    assert_eq!(colour(&scene, list[0].paint), ColorU { r: 0, g: 255, b: 0, a: 255 });
    assert_eq!(colour(&scene, list[1].paint), ColorU { r: 0, g: 0, b: 128, a: 255 });
    assert_eq!(list[1].stroke.as_ref().unwrap().style.line_width, n(3.0));
    assert_eq!(colour(&scene, list[2].paint), ColorU { r: 255, g: 0, b: 0, a: 255 });
    assert!(list[2].stroke.is_none());
    assert_eq!(colour(&scene, list[3].paint), ColorU { r: 0, g: 255, b: 0, a: 255 });
    assert_eq!(list[4].stroke.as_ref().unwrap().style.line_width, n(5.0));
    assert_eq!(list[0].fill_rule, FillRule::Winding);
}

#[test]
fn transforms_nest() {
    let scene = scene(
        "<svg><g transform='translate(10,0)'><g transform='scale(2)'>\
         <rect x='1' y='1' width='1' height='1' transform='translate(0,5)'/></g></g></svg>",
    );
    let p = paths(&scene)[0];
    assert_eq!(corners(&p.outline)[0], v(1.0, 1.0));
    assert_eq!(p.transform.apply(v(1.0, 1.0)), v(12.0, 12.0));
    assert_eq!(
        bounds(
            "<svg><g transform='translate(10,0)'><g transform='scale(2)'>\
             <rect x='1' y='1' width='1' height='1' transform='translate(0,5)'/></g></g></svg>"
        ),
        Some(rect(12.0, 12.0, 14.0, 14.0))
    );
}

#[test]
fn bounds_of_shapes() {
    assert_eq!(bounds("<svg><rect x='1' y='2' width='3' height='4'/></svg>"), Some(rect(1.0, 2.0, 4.0, 6.0)));
    assert_eq!(bounds("<svg><circle cx='5' cy='5' r='2'/></svg>"), Some(rect(3.0, 3.0, 7.0, 7.0)));
    assert_eq!(bounds("<svg><ellipse cx='5' cy='5' rx='2' ry='1'/></svg>"), Some(rect(3.0, 4.0, 7.0, 6.0)));
    assert_eq!(bounds("<svg><polygon points='0,0 4,1 2,5'/></svg>"), Some(rect(0.0, 0.0, 4.0, 5.0)));
    assert_eq!(bounds("<svg><polyline points='0,0 4,1 2,5'/></svg>"), Some(rect(0.0, 0.0, 4.0, 5.0)));
    assert_eq!(bounds("<svg><path d='M1 1 L5 2 L3 9 z'/></svg>"), Some(rect(1.0, 1.0, 5.0, 9.0)));
    assert_eq!(
        bounds("<svg><line x1='1' y1='2' x2='5' y2='4' stroke='red' stroke-width='2'/></svg>"),
        Some(rect(0.0, 1.0, 6.0, 5.0))
    );
    // the union of what is inside
    assert_eq!(
        bounds("<svg><rect width='1' height='1'/><g><rect x='5' y='6' width='1' height='1'/></g></svg>"),
        Some(rect(0.0, 0.0, 6.0, 7.0))
    );
    assert_eq!(bounds("<svg/>"), None);
    assert_eq!(bounds("<svg><g/><defs><rect width='1' height='1'/></defs></svg>"), None);
    assert_eq!(bounds("<svg><path/></svg>"), None);
}

#[test]
fn a_stroke_widens_the_bounds_by_half_its_width() {
    assert_eq!(
        bounds("<svg><rect x='10' y='10' width='10' height='10' stroke='red' stroke-width='4'/></svg>"),
        Some(rect(8.0, 8.0, 22.0, 22.0))
    );
    assert_eq!(
        bounds("<svg><rect x='10' y='10' width='10' height='10' stroke='red'/></svg>"),
        Some(rect(9.5, 9.5, 20.5, 20.5))
    );
    assert_eq!(
        bounds("<svg><rect x='10' y='10' width='10' height='10' stroke='none' stroke-width='4'/></svg>"),
        Some(rect(10.0, 10.0, 20.0, 20.0))
    );
}

#[test]
fn what_is_not_displayed_is_neither_drawn_nor_measured() {
    let text = "<svg><g display='none'><rect width='3' height='4'/></g>\
                <rect width='1' height='1' display='none'/>\
                <path d='M0 0L1 1L1 0z' display='none'/></svg>";
    assert!(scene(text).display_list.is_empty());
    assert!(scene(text).paints.is_empty());
    assert_eq!(bounds(text), None);
}

#[test]
fn a_shape_outside_the_clip_is_neither_drawn_nor_measured() {
    let text = "<svg><defs><clipPath id='c'><rect width='10' height='10'/></clipPath></defs>\
                <g clip-path='url(#c)'><rect x='20' y='20' width='5' height='5'/>\
                <g transform='translate(100 0)'><circle r='3' stroke='red' stroke-width='2'/></g>\
                <rect x='10' y='0' width='5' height='5'/></g></svg>";
    assert_eq!(bounds(text), None);
    let scene = scene(text);
    assert!(scene.display_list.is_empty());
    assert!(scene.paints.is_empty());
}

#[test]
fn a_shape_inside_the_clip_is_cut_to_it() {
    let text = "<svg><defs><clipPath id='c'><rect width='10' height='10'/></clipPath></defs>\
                <g clip-path='url(#c)'><rect x='5' y='5' width='20' height='2'/>\
                <rect x='20' y='20' width='5' height='5'/></g>\
                <rect x='30' y='30' width='1' height='1'/></svg>";
    assert_eq!(bounds(text), Some(rect(5.0, 5.0, 31.0, 31.0)));
    let scene = scene(text);
    assert_eq!(scene.clip_paths.len(), 1);
    assert_eq!(scene.clip_paths[0].parent, None);
    assert_eq!(scene.clip_paths[0].parts.len(), 1);
    let list = paths(&scene);
    assert_eq!(list.len(), 2);
    assert_eq!(list[0].clip_path, Some(ClipPathId(0)));
    assert_eq!(corners(&list[0].outline)[0], v(5.0, 5.0));
    assert_eq!(list[1].clip_path, None);
    assert_eq!(corners(&list[1].outline)[0], v(30.0, 30.0));
}

#[test]
fn clips_that_do_not_meet_leave_nothing() {
    let text = "<svg><defs><clipPath id='a'><rect width='10' height='10'/></clipPath>\
                <clipPath id='b'><rect x='20' width='10' height='10'/></clipPath>\
                <clipPath id='e'/></defs>\
                <g clip-path='url(#a)'><g clip-path='url(#b)'><rect width='100' height='100'/></g></g>\
                <g clip-path='url(#e)'><rect width='100' height='100'/></g></svg>";
    assert_eq!(bounds(text), None);
    assert!(paths(&scene(text)).is_empty());
}

#[test]
fn nested_clips_are_chained() {
    let text = "<svg><defs><clipPath id='a'><rect width='10' height='10'/></clipPath>\
                <clipPath id='b'><rect x='5' width='10' height='10'/></clipPath></defs>\
                <g clip-path='url(#a)'><g clip-path='url(#b)'><rect width='100' height='100'/></g></g></svg>";
    assert_eq!(bounds(text), Some(rect(5.0, 0.0, 10.0, 10.0)));
    let scene = scene(text);
    assert_eq!(scene.clip_paths.len(), 2);
    assert_eq!(scene.clip_paths[0].fill_rule, FillRule::Winding);
    assert_eq!(scene.clip_paths[1].parent, Some(ClipPathId(0)));
    assert_eq!(paths(&scene)[0].clip_path, Some(ClipPathId(1)));
}

#[test]
fn a_clip_path_that_is_not_one_counts_as_absent() {
    let text = "<svg><rect id='r' width='1' height='1'/>\
                <g clip-path='url(#r)'><rect x='5' width='1' height='1'/></g>\
                <g clip-path='url(#nowhere)'><rect x='9' width='1' height='1'/></g></svg>";
    assert_eq!(bounds(text), Some(rect(0.0, 0.0, 10.0, 1.0)));
    let scene = scene(text);
    assert_eq!(paths(&scene).len(), 3);
    assert!(scene.clip_paths.is_empty());
}

#[test]
fn a_gradient_without_stops_takes_those_of_the_one_it_names() {
    let svg = read(
        "<svg viewBox='0 0 100 100' xmlns:xlink='http://www.w3.org/1999/xlink'><defs>\
         <linearGradient id='a' x1='1' y1='2' x2='3' y2='4'>\
         <stop offset='0' stop-color='red'/><stop offset='0.5' stop-color='lime' stop-opacity='0.5'/>\
         <stop offset='1' stop-color='blue'/></linearGradient>\
         <linearGradient id='b' x1='10' x2='20' xlink:href='#a'/>\
         <linearGradient id='c' xlink:href='#b'><stop offset='1' stop-color='white'/></linearGradient>\
         </defs><rect width='10' height='10' fill='url(#b)'/><rect width='10' height='10' fill='url(#a)'/>\
         <rect width='10' height='10' fill='url(#c)'/></svg>",
    );
    let ctx = DrawContext::new_without_fonts(&svg);
    let mut options = Options::new(&ctx);
    options.set_transform(Transform2::identity());
    options.view_box = Some(rect(0.0, 0.0, 100.0, 100.0));
    let gradient = |id: &str| {
        match svg_resolve::draw::draw::resolve_paint(&options, &Paint::Ref(id.into()), n(1.0)) {
            Some(ScenePaint::Gradient(g)) => g,
            other => panic!("{:?}", other),
        }
    };
    let a = gradient("a");
    let b = gradient("b");
    let c = gradient("c");
    assert_eq!(a.stops.len(), 3);
    assert_eq!(b.stops, a.stops);
    assert_eq!(b.stops[0].color, ColorU { r: 255, g: 0, b: 0, a: 255 });
    // the opacity of a stop is cut off, not rounded
    assert_eq!(b.stops[1].color, ColorU { r: 0, g: 255, b: 0, a: 127 });
    assert_eq!(b.stops[1].offset, n(0.5));
    assert_eq!(b.stops[2].color, ColorU { r: 0, g: 0, b: 255, a: 255 });
    // its own coordinates stay, and those it leaves open come from the one it names
    assert_eq!(a.geometry, GradientGeometry::Linear { from: v(1.0, 2.0), to: v(3.0, 4.0) });
    assert_eq!(b.geometry, GradientGeometry::Linear { from: v(10.0, 2.0), to: v(20.0, 4.0) });
    // stops of its own are kept
    assert_eq!(c.stops.len(), 1);
    assert_eq!(c.stops[0].color, ColorU { r: 255, g: 255, b: 255, a: 255 });
    assert_eq!(c.geometry, b.geometry);
    assert!(svg_resolve::draw::draw::resolve_paint(&options, &Paint::Ref("zz".into()), n(1.0)).is_none());
    assert!(svg_resolve::draw::draw::resolve_paint(&options, &Paint::Nothing, n(1.0)).is_none());
    assert!(matches!(
        svg_resolve::draw::draw::resolve_paint(&options, &Paint::Color(Color::black()), n(0.5)),
        Some(ScenePaint::Color(ColorU { r: 0, g: 0, b: 0, a: 128 }))
    ));
}

#[test]
fn gradient_defaults_are_percentages_of_the_view_box() {
    let svg = read(
        "<svg><linearGradient id='l'><stop offset='0'/></linearGradient>\
         <radialGradient id='r' gradientTransform='translate(1 2)'><stop offset='0'/></radialGradient>\
         <radialGradient id='q' cx='10' cy='20' r='5' fx='11'><stop offset='0'/></radialGradient></svg>",
    );
    let ctx = DrawContext::new_without_fonts(&svg);
    let mut options = Options::new(&ctx);
    options.set_transform(Transform2::from_scale(Vector2::splat(n(2.0))));
    let paint = |options: &Options, id: &str| {
        svg_resolve::draw::draw::resolve_paint(options, &Paint::Ref(id.into()), n(1.0))
    };
    // percentages have no meaning without a view box
    assert!(paint(&options, "l").is_none());
    assert!(paint(&options, "r").is_none());
    assert!(paint(&options, "q").is_some());
    options.view_box = Some(rect(0.0, 0.0, 200.0, 100.0));
    let Some(ScenePaint::Gradient(l)) = paint(&options, "l") else { panic!() };
    assert_eq!(l.geometry, GradientGeometry::Linear { from: v(0.0, 0.0), to: v(200.0, 0.0) });
    assert_eq!(l.transform, Transform2::from_scale(Vector2::splat(n(2.0))));
    let Some(ScenePaint::Gradient(r)) = paint(&options, "r") else { panic!() };
    assert_eq!(
        r.geometry,
        GradientGeometry::Radial { focus: v(100.0, 50.0), center: v(100.0, 50.0), radius: n(100.0) }
    );
    assert_eq!(r.transform.apply(v(0.0, 0.0)), v(2.0, 4.0));
    let Some(ScenePaint::Gradient(q)) = paint(&options, "q") else { panic!() };
    assert_eq!(
        q.geometry,
        GradientGeometry::Radial { focus: v(11.0, 20.0), center: v(10.0, 20.0), radius: n(5.0) }
    );
}

#[test]
fn gradients_that_name_each_other_end() {
    let svg = read(
        "<svg viewBox='0 0 10 10' xmlns:xlink='http://www.w3.org/1999/xlink'>\
         <linearGradient id='a' xlink:href='#b'/><linearGradient id='b' xlink:href='#a'/>\
         <linearGradient id='s' xlink:href='#s'/>\
         <rect width='1' height='1' fill='url(#a)'/><rect width='1' height='1' fill='url(#s)'/></svg>",
    );
    let scene = scene_at(&svg, 0.0);
    assert_eq!(scene.paints.len(), 2);
    for paint in &scene.paints {
        match paint {
            ScenePaint::Gradient(g) => assert!(g.stops.is_empty()),
            other => panic!("{:?}", other),
        }
    }
}

#[test]
fn use_draws_what_it_names() {
    let text = "<svg xmlns:xlink='http://www.w3.org/1999/xlink'>\
                <defs><rect id='r' width='2' height='3' fill='red'/></defs>\
                <use xlink:href='#r' x='10' y='20'/><use xlink:href='#r' transform='scale(2)'/>\
                <use xlink:href='#nowhere'/><use/><use href='#r'/></svg>";
    let scene = scene(text);
    let list = paths(&scene);
    assert_eq!(list.len(), 2);
    assert_eq!(list[0].transform.apply(v(0.0, 0.0)), v(10.0, 20.0));
    assert_eq!(list[1].transform.apply(v(1.0, 1.0)), v(2.0, 2.0));
    assert_eq!(bounds(text), Some(rect(0.0, 0.0, 12.0, 23.0)));
}

#[test]
fn uses_that_name_each_other_end() {
    let text = "<svg xmlns:xlink='http://www.w3.org/1999/xlink'>\
                <g id='a'><rect width='1' height='1'/><use xlink:href='#b'/></g>\
                <g id='b'><use xlink:href='#a'/></g><use id='s' xlink:href='#s'/></svg>";
    let svg = read(text);
    let scene = scene_at(&svg, 0.0);
    assert!(paths(&scene).len() > 2);
    assert!(paths(&scene).len() < 100);
    assert_eq!(bounds_at(&svg, 0.0), Some(rect(0.0, 0.0, 1.0, 1.0)));
}

#[test]
fn what_is_defined_is_not_drawn() {
    let text = "<svg><defs><rect width='2' height='3'/></defs><symbol><rect width='2' height='3'/></symbol>\
                <clipPath><rect width='2' height='3'/></clipPath><linearGradient/></svg>";
    assert!(scene(text).display_list.is_empty());
    assert_eq!(bounds(text), None);
}

#[test]
fn a_view_box_is_fitted_into_the_size() {
    let text = "<svg width='200' height='100' viewBox='10 10 100 50'>\
                <rect x='10' y='10' width='100' height='50'/><rect x='60' y='35' width='1' height='1'/></svg>";
    let svg = read(text);
    let ctx = DrawContext::new_without_fonts(&svg);
    assert_eq!(ctx.view_box(), Some(rect(0.0, 0.0, 200.0, 100.0)));
    let scene = ctx.compose();
    assert_eq!(scene.view_box, Some(rect(0.0, 0.0, 200.0, 100.0)));
    let list = paths(&scene);
    assert_eq!(list[0].transform.apply(v(10.0, 10.0)), v(0.0, 0.0));
    assert_eq!(list[0].transform.apply(v(110.0, 60.0)), v(200.0, 100.0));
    assert_eq!(list[1].transform.apply(v(60.0, 35.0)), v(100.0, 50.0));
    // the bounds of an element with a view box are the view box as it is written
    assert_eq!(bounds_at(&svg, 0.0), Some(rect(10.0, 10.0, 110.0, 60.0)));
    // percentages inside are taken of the view box
    let svg = read("<svg viewBox='0 0 200 100'><rect width='50%' height='50%'/></svg>");
    let scene = scene_at(&svg, 0.0);
    assert_eq!(corners(&paths(&scene)[0].outline)[2], v(100.0, 50.0));
    // and have no meaning without one
    let svg = read("<svg><rect width='50%' height='50%'/><rect width='1em' height='1'/></svg>");
    assert_eq!(bounds_at(&svg, 0.0), None);
    assert!(scene_at(&svg, 0.0).display_list.is_empty());
}

#[test]
fn the_view_box_of_a_document_without_one_is_what_it_draws() {
    let svg = read("<svg><rect x='1' y='2' width='3' height='4'/></svg>");
    let ctx = DrawContext::new_without_fonts(&svg);
    // the walk from the root is ten times as large
    assert_eq!(ctx.view_box(), Some(rect(10.0, 20.0, 40.0, 60.0)));
    let scene = ctx.compose();
    assert_eq!(scene.view_box, Some(rect(10.0, 20.0, 40.0, 60.0)));
    assert_eq!(paths(&scene)[0].transform, Transform2::identity());
    let scene = ctx.compose_with_transform(Transform2::from_translation(v(1.0, 1.0)));
    assert_eq!(scene.view_box, Some(rect(11.0, 21.0, 41.0, 61.0)));
    assert_eq!(paths(&scene)[0].transform, Transform2::from_translation(v(1.0, 1.0)));
    let scene = ctx.compose_with_viewbox(rect(0.0, 0.0, 5.0, 5.0));
    assert_eq!(scene.view_box, Some(rect(0.0, 0.0, 50.0, 50.0)));
    assert_eq!(paths(&scene)[0].transform, Transform2::from_scale(Vector2::splat(n(10.0))));
    let mut scene = Scene::new();
    ctx.compose_to_with_transform(&mut scene, Transform2::identity());
    ctx.compose_to_with_transform(&mut scene, Transform2::identity());
    assert_eq!(scene.view_box, None);
    assert_eq!(paths(&scene).len(), 2);
    assert_eq!(paths(&scene)[1].paint, PaintId(1));
    let svg = read("<svg/>");
    let ctx = DrawContext::new_without_fonts(&svg);
    assert_eq!(ctx.view_box(), None);
    assert_eq!(ctx.compose().view_box, None);
}

#[test]
fn the_animated_rectangle_moves() {
    let svg = read(
        "<svg viewBox=\"0 0 100 100\"><rect x=\"0\" y=\"0\" width=\"50\" height=\"50\" \
         fill=\"red\"><animate attributeName=\"x\" from=\"0\" to=\"50\" dur=\"2s\"/></rect></svg>",
    );
    let ctx = DrawContext::new_without_fonts(&svg);
    let mut options = BoundsOptions::new(&ctx);
    options.common.set_transform(Transform2::identity());
    let mut measured = Vec::new();
    for t in [0.0, 1.0, 3.0] {
        options.common.time = Time::from_seconds(n(t));
        measured.push(svg.root.children()[0].bounds(&options));
    }
    assert_eq!(measured[0], Some(rect(0.0, 0.0, 50.0, 50.0)));
    assert_eq!(measured[1], Some(rect(25.0, 0.0, 75.0, 50.0)));
    assert_eq!(measured[2], Some(rect(0.0, 0.0, 50.0, 50.0)));
    assert_eq!(bounds_at(&svg, 1.0), Some(rect(0.0, 0.0, 100.0, 100.0)));
    let scene = scene_at(&svg, 1.0);
    assert_eq!(corners(&paths(&scene)[0].outline)[0], v(25.0, 0.0));
    let scene = scene_at(&svg, 3.0);
    assert_eq!(corners(&paths(&scene)[0].outline)[0], v(0.0, 0.0));
}

#[test]
fn animated_paint_and_transform() {
    let svg = read(
        "<svg><rect width='1' height='1' fill='black'>\
         <animate attributeName='fill' from='#000000' to='#ff0000' dur='2s' fill='freeze'/>\
         <animateTransform attributeName='transform' type='translate' from='0 0' to='10 20' dur='2s'/>\
         </rect></svg>",
    );
    let scene = scene_at(&svg, 1.0);
    let p = paths(&scene)[0];
    assert_eq!(colour(&scene, p.paint), ColorU { r: 128, g: 0, b: 0, a: 255 });
    assert_eq!(p.transform, Transform2::from_translation(v(5.0, 10.0)));
    let scene = scene_at(&svg, 2.0);
    let p = paths(&scene)[0];
    assert_eq!(colour(&scene, p.paint), ColorU { r: 255, g: 0, b: 0, a: 255 });
    assert_eq!(p.transform, Transform2::identity());
}

#[test]
fn rounded_rectangles() {
    let scene = scene("<svg><rect width='10' height='10' rx='2'/><rect width='10' height='10' rx='2' ry='3'/></svg>");
    let list = paths(&scene);
    let arcs = |p: &DrawPath| {
        p.outline.contours[0]
            .segments
            .iter()
            .filter(|s| !matches!(s, Segment::Endpoint(_)))
            .count()
    };
    assert_eq!(arcs(list[0]), 4);
    assert_eq!(arcs(list[1]), 4);
    assert!(list[0].outline.contours[0].closed);
    assert_eq!(list[0].outline.bounds(Transform2::identity()), Some(rect(0.0, 0.0, 10.0, 10.0)));
}

#[test]
fn outlines_and_their_bounds() {
    let mut contour = Contour::new();
    assert!(contour.is_empty());
    contour.push(Segment::Endpoint(v(1.0, 1.0)));
    contour.push(Segment::Cubic { control1: v(5.0, -3.0), control2: v(0.0, 9.0), to: v(2.0, 2.0) });
    contour.close();
    let outline = Outline::from_contour(contour);
    assert_eq!(outline.len(), 1);
    // the control points count
    assert_eq!(outline.bounds(Transform2::identity()), Some(rect(0.0, -3.0, 5.0, 9.0)));
    assert_eq!(
        outline.bounds(Transform2::from_translation(v(1.0, 1.0))),
        Some(rect(1.0, -2.0, 6.0, 10.0))
    );
    assert_eq!(Outline::new().bounds(Transform2::identity()), None);
    let r = Contour::from_rect(rect(1.0, 2.0, 3.0, 4.0));
    assert_eq!(r.segments.len(), 4);
    assert!(r.closed);
    let e = Contour::ellipse(v(5.0, 5.0), v(2.0, 1.0));
    assert!(e.closed);
    assert_eq!(Outline::from_contour(e).bounds(Transform2::identity()), Some(rect(3.0, 4.0, 7.0, 6.0)));
    assert_eq!(max_bounds(&[]), None);
    assert_eq!(
        max_bounds(&[rect(0.0, 0.0, 1.0, 1.0), rect(5.0, -1.0, 6.0, 0.5)]),
        Some(rect(0.0, -1.0, 6.0, 1.0))
    );
}

#[test]
fn a_blur_draws_into_render_targets() {
    let text = "<svg><filter id='f'><feGaussianBlur stdDeviation='2'/></filter>\
                <g filter='url(#f)'><rect x='10' y='10' width='10' height='10' fill='red'/></g></svg>";
    let scene = scene(text);
    let pushes = scene
        .display_list
        .iter()
        .filter(|i| matches!(i, DisplayItem::PushRenderTarget(_)))
        .count();
    let pops =
        scene.display_list.iter().filter(|i| matches!(i, DisplayItem::PopRenderTarget)).count();
    assert_eq!(pushes, 2);
    assert_eq!(pops, 2);
    assert_eq!(scene.render_targets.len(), 2);
    // the targets reach three deviations beyond the shape
    assert_eq!(scene.render_targets[0], RectI { min_x: 4, min_y: 4, max_x: 26, max_y: 26 });
    assert!(matches!(scene.display_list[0], DisplayItem::PushRenderTarget(RenderTargetId(0))));
    assert!(matches!(scene.display_list.last(), Some(DisplayItem::DrawPath(_))));
    assert_eq!(paths(&scene).len(), 3);
    let patterns = scene.paints.iter().filter(|p| matches!(p, ScenePaint::Pattern { .. })).count();
    assert_eq!(patterns, 2);
}

#[test]
fn a_filter_that_is_not_one_counts_as_absent() {
    let text = "<svg><rect id='r' width='1' height='1'/>\
                <g filter='url(#r)'><rect width='1' height='1'/></g>\
                <g filter='url(#nowhere)'><rect width='1' height='1'/></g>\
                <filter id='e'/><g filter='url(#e)'><rect width='1' height='1'/></g></svg>";
    let scene = scene(text);
    assert!(scene.render_targets.is_empty());
    assert_eq!(scene.display_list.len(), 4);
}

#[test]
fn pixels_are_rounded_outwards() {
    assert_eq!(round_out(rect(0.5, -0.5, 2.1, 3.0)), RectI { min_x: 0, min_y: -1, max_x: 3, max_y: 3 });
    assert_eq!(round_out(rect(1.0, 1.0, 2.0, 2.0)), RectI { min_x: 1, min_y: 1, max_x: 2, max_y: 2 });
    let r = RectI { min_x: 1, min_y: 2, max_x: 4, max_y: 6 };
    assert_eq!(r.origin(), v(1.0, 2.0));
    assert_eq!(r.size(), v(3.0, 4.0));
    assert_eq!(r.to_rect(), rect(1.0, 2.0, 4.0, 6.0));
}

#[test]
fn the_scene_numbers_what_it_is_given() {
    let mut scene = Scene::new();
    assert_eq!(scene.push_paint(ScenePaint::Color(ColorU { r: 1, g: 2, b: 3, a: 4 })), PaintId(0));
    assert_eq!(scene.push_paint(ScenePaint::Color(ColorU { r: 1, g: 2, b: 3, a: 4 })), PaintId(1));
    let size = RectI { min_x: 0, min_y: 0, max_x: 4, max_y: 4 };
    assert_eq!(scene.push_render_target(size), RenderTargetId(0));
    scene.pop_render_target();
    assert_eq!(scene.push_render_target(size), RenderTargetId(1));
    scene.set_view_box(rect(0.0, 0.0, 1.0, 1.0));
    assert_eq!(scene.view_box, Some(rect(0.0, 0.0, 1.0, 1.0)));
    assert_eq!(scene.display_list.len(), 3);
    assert!(matches!(scene.display_list[1], DisplayItem::PopRenderTarget));
}

#[test]
fn elements_are_measured_and_drawn_as_their_items() {
    let svg = read(
        "<svg xmlns:xlink='http://www.w3.org/1999/xlink'>\
         <g transform='translate(5 5)'><rect id='r' width='2' height='3' stroke='red' stroke-width='2'/></g>\
         <use xlink:href='#r' x='10'/><svg viewBox='0 0 4 4'><circle r='1'/></svg><text>a</text></svg>",
    );
    let ctx = DrawContext::new_without_fonts(&svg);
    let mut bounds_options = BoundsOptions::new(&ctx);
    bounds_options.common.set_transform(Transform2::identity());
    let mut draw_options = DrawOptions::new(&ctx);
    draw_options.common.set_transform(Transform2::identity());
    let mut counts = Vec::new();
    for item in svg.root.children() {
        let mut by_item = Scene::new();
        item.draw_to(&mut by_item, &draw_options);
        let mut by_tag = Scene::new();
        let (measured, expected) = match **item {
            Item::G(ref t) => {
                t.draw_to(&mut by_tag, &draw_options);
                (t.bounds(&bounds_options), Some(rect(4.0, 4.0, 8.0, 9.0)))
            },
            Item::Use(ref t) => {
                t.draw_to(&mut by_tag, &draw_options);
                (t.bounds(&bounds_options), Some(rect(9.0, -1.0, 13.0, 4.0)))
            },
            Item::Svg(ref t) => {
                t.draw_to(&mut by_tag, &draw_options);
                (t.bounds(&bounds_options), Some(rect(0.0, 0.0, 4.0, 4.0)))
            },
            Item::Text(ref t) => {
                t.draw_to(&mut by_tag, &draw_options);
                (t.bounds(&bounds_options), None)
            },
            ref other => panic!("{:?}", other),
        };
        assert_eq!(measured, expected);
        assert_eq!(item.bounds(&bounds_options), expected);
        assert_eq!(format!("{:?}", by_item), format!("{:?}", by_tag));
        counts.push(by_item.display_list.len());
    }
    assert_eq!(counts, vec![2, 2, 1, 0]);
}

#[test]
fn shapes_have_outlines_in_their_place() {
    let svg = read(
        "<svg><g transform='translate(5 5)'><rect width='2' height='3' transform='scale(2)'/>\
         <circle r='1'/><ellipse rx='1' ry='2'/><polygon points='0,0 1,1 0,1'/>\
         <path d='M0 0L1 1'/><rect width='0' height='3'/><rect width='1em' height='3'/></g></svg>",
    );
    let ctx = DrawContext::new_without_fonts(&svg);
    let mut options = Options::new(&ctx);
    options.set_transform(Transform2::from_translation(v(1.0, 0.0)));
    let group = &svg.root.children()[0];
    let outlines: Vec<Option<(usize, Vector2)>> = group
        .children()
        .iter()
        .map(|item| {
            let placed = match **item {
                Item::Rect(ref t) => t.outline(&options),
                Item::Circle(ref t) => t.outline(&options),
                Item::Ellipse(ref t) => t.outline(&options),
                Item::Polygon(ref t) => t.outline(&options),
                Item::Path(ref t) => t.outline(&options),
                ref other => panic!("{:?}", other),
            };
            placed.map(|p| (p.outline.contours[0].segments.len(), p.transform.apply(v(1.0, 1.0))))
        })
        .collect();
    assert_eq!(
        outlines,
        vec![
            Some((4, v(3.0, 2.0))),
            Some((5, v(2.0, 1.0))),
            Some((5, v(2.0, 1.0))),
            Some((3, v(2.0, 1.0))),
            Some((2, v(2.0, 1.0))),
            None,
            None,
        ]
    );
}

#[test]
fn rules_are_nonzero_unless_set() {
    let text = "<svg><defs><clipPath id='c'><rect width='10' height='10'/></clipPath></defs>\
                <g clip-path='url(#c)' clip-rule='evenodd'><rect width='1' height='1'/>\
                <g clip-path='url(#c)'><rect width='1' height='1' fill-rule='evenodd'/></g></g>\
                <rect width='1' height='1' fill-rule='inherit'/></svg>";
    let scene = scene(text);
    // a clip is cut by the rule of the environment around the element that names it
    assert_eq!(scene.clip_paths[0].fill_rule, FillRule::Winding);
    assert_eq!(scene.clip_paths[1].fill_rule, FillRule::EvenOdd);
    let list = paths(&scene);
    assert_eq!(list[0].fill_rule, FillRule::Winding);
    assert_eq!(list[1].fill_rule, FillRule::EvenOdd);
    assert_eq!(list[2].fill_rule, FillRule::Winding);
}

#[test]
fn a_use_fits_a_symbol_into_its_size() {
    let text = "<svg xmlns:xlink='http://www.w3.org/1999/xlink'>\
                <symbol id='s' viewBox='0 0 10 10'><rect width='10' height='10'/></symbol>\
                <use xlink:href='#s' x='5' y='6' width='20' height='30'/>\
                <use xlink:href='#s' x='100'/>\
                <g id='g' fill='red'><rect width='1' height='1'/></g>\
                <use xlink:href='#g' y='50' fill='blue'/></svg>";
    let scene = scene(text);
    let list = paths(&scene);
    assert_eq!(list.len(), 4);
    // moved to the place of the use, then fitted into its size
    assert_eq!(list[0].transform.apply(v(0.0, 0.0)), v(5.0, 6.0));
    assert_eq!(list[0].transform.apply(v(10.0, 10.0)), v(25.0, 36.0));
    // without a size the view box keeps its own
    assert_eq!(list[1].transform.apply(v(10.0, 10.0)), v(110.0, 10.0));
    // the group itself
    assert_eq!(list[2].transform, Transform2::identity());
    // the attributes of what is referred to come after those of the use
    assert_eq!(list[3].transform.apply(v(0.0, 0.0)), v(0.0, 50.0));
    assert_eq!(colour(&scene, list[3].paint), ColorU { r: 255, g: 0, b: 0, a: 255 });
}

#[test]
fn an_inner_view_box_is_fitted() {
    let text = "<svg><svg viewBox='0 0 10 10' width='100' height='50' transform='translate(1 1)'>\
                <rect width='10' height='10'/><rect width='50%' height='100%'/></svg></svg>";
    let scene = scene(text);
    let list = paths(&scene);
    assert_eq!(list[0].transform.apply(v(10.0, 10.0)), v(101.0, 51.0));
    assert_eq!(corners(&list[1].outline)[2], v(5.0, 10.0));
}

#[test]
fn a_colour_matrix_draws_into_one_render_target() {
    let text = "<svg><filter id='f'><feColorMatrix type='saturate' values='0.5'/>\
                <feGaussianBlur stdDeviation='1'/></filter>\
                <g filter='url(#f)'><rect x='1.5' y='1.5' width='2' height='2'/></g>\
                <g filter='url(#f)'/><g filter='url(#f)' display='none'><rect width='2' height='2'/></g></svg>";
    let scene = scene(text);
    assert_eq!(scene.render_targets, vec![RectI { min_x: 1, min_y: 1, max_x: 4, max_y: 4 }]);
    assert_eq!(scene.display_list.len(), 4);
    assert!(matches!(scene.display_list[0], DisplayItem::PushRenderTarget(RenderTargetId(0))));
    assert!(matches!(scene.display_list[2], DisplayItem::PopRenderTarget));
    let list = paths(&scene);
    // what is inside is drawn with the corner of the render target at the origin
    assert_eq!(list[0].transform.apply(v(1.5, 1.5)), v(0.5, 0.5));
    // and the render target is painted back in its place
    assert_eq!(corners(&list[1].outline), vec![v(1.0, 1.0), v(4.0, 1.0), v(4.0, 4.0), v(1.0, 4.0)]);
    assert_eq!(list[1].blend_mode, BlendMode::SrcOver);
    match scene.paints[list[1].paint.0] {
        ScenePaint::Pattern { target, transform, .. } => {
            assert_eq!(target, RenderTargetId(0));
            assert_eq!(transform, Transform2::from_translation(v(1.0, 1.0)));
        }
        ref other => panic!("{:?}", other),
    }
    let alpha = "<svg><filter id='f'><feColorMatrix type='luminanceToAlpha'/></filter>\
                 <g filter='url(#f)'><rect width='2' height='2'/></g></svg>";
    let scene = self::scene(alpha);
    assert_eq!(paths(&scene)[1].blend_mode, BlendMode::DestIn);
}

#[test]
fn animated_attributes_of_the_environment() {
    let svg = read(
        "<svg><rect width='10' height='10' fill='red' stroke='blue' stroke-width='2' opacity='1'>\
         <animate attributeName='opacity' from='1' to='0' begin='1s' dur='2s' fill='freeze'/>\
         <animate attributeName='stroke-width' by='4' dur='4s'/>\
         <animate attributeName='fill' values='red;blue;lime' keyTimes='0;0.5;1' dur='4s' \
         calcMode='discrete'/>\
         <animate attributeName='width' values='10;20;40' keyTimes='0;0.5;1' dur='4s'/>\
         </rect></svg>",
    );
    let at = |t: f64| {
        let scene = scene_at(&svg, t);
        let list = paths(&scene);
        if list.is_empty() {
            return None;
        }
        Some((
            colour(&scene, list[0].paint),
            list[1].stroke.as_ref().unwrap().style.line_width,
            corners(&list[0].outline)[1].x,
        ))
    };
    assert_eq!(at(0.0), Some((ColorU { r: 255, g: 0, b: 0, a: 255 }, n(2.0), n(10.0))));
    assert_eq!(at(1.0), Some((ColorU { r: 255, g: 0, b: 0, a: 255 }, n(3.0), n(15.0))));
    assert_eq!(at(2.0), Some((ColorU { r: 0, g: 0, b: 255, a: 128 }, n(4.0), n(20.0))));
    assert_eq!(at(2.5), Some((ColorU { r: 0, g: 0, b: 255, a: 64 }, n(4.5), n(25.0))));
    // once the opacity has arrived at nothing, nothing is drawn
    assert_eq!(at(3.0), None);
    assert_eq!(at(5.0), None);
}

#[test]
fn an_outline_is_drawn_where_it_is_moved_to() {
    let svg = read("<svg/>");
    let ctx = DrawContext::new_without_fonts(&svg);
    let mut options = DrawOptions::new(&ctx);
    options.common.set_transform(Transform2::from_scale(Vector2::splat(n(2.0))));
    let outline = Outline::from_contour(Contour::from_rect(rect(0.0, 0.0, 1.0, 1.0)));
    let mut scene = Scene::new();
    options.draw(&mut scene, &outline);
    options.draw_transformed(&mut scene, &outline, Transform2::from_translation(v(3.0, 4.0)));
    let list = paths(&scene);
    assert_eq!(list.len(), 2);
    assert_eq!(list[0].transform.apply(v(1.0, 1.0)), v(2.0, 2.0));
    // moved first, then placed by the environment
    assert_eq!(list[1].transform.apply(v(1.0, 1.0)), v(8.0, 10.0));
    assert_eq!(corners(&list[1].outline), corners(&list[0].outline));
}
