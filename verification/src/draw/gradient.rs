//! Gradients: what a gradient takes from the gradient it refers to, and the paint it makes.

use crate::dom::Item;
use crate::dom::gradient::{ColorU, TagLinearGradient, TagRadialGradient, TagStop};
use crate::dom::svg::Svg;
use crate::dom::util::{Axis, Length, LengthUnit, LengthX, LengthY, Vector};
use crate::draw::{option_view, soft, Resolve};
use crate::draw::draw::{href_target, DrawContext, Env, Options};
use crate::draw::scene::{ColorStop, Gradient, GradientGeometry, GradientModel};
use crate::geometry::Transform2;
use crate::number::Number;
use std::sync::Arc;
use vstd::prelude::*;

verus! {

/// How many references from gradient to gradient are followed. What a gradient further
/// along would give is left out, so that references in a circle do no harm.
pub const MAX_HREF_DEPTH: usize = 16;

/// A point of which each coordinate may be missing.
pub type PartialPoint = (Option<LengthX>, Option<LengthY>);

/// What is known of a linear gradient, its own fields filled up from where it refers to.
pub struct PartialLinearGradient<'a> {
    pub from: PartialPoint,
    pub to: PartialPoint,
    pub gradient_transform: Option<Transform2>,
    pub stops: &'a [TagStop],
}

/// What is known of a radial gradient, its own fields filled up from where it refers to.
pub struct PartialRadialGradient<'a> {
    pub center: PartialPoint,
    pub focus: PartialPoint,
    pub radius: Option<Length>,
    pub gradient_transform: Option<Transform2>,
    pub stops: &'a [TagStop],
}

/// A [`PartialLinearGradient`] as plain values.
pub struct LinearModel {
    pub from: PartialPoint,
    pub to: PartialPoint,
    pub gradient_transform: Option<Transform2>,
    pub stops: Seq<TagStop>,
}

/// A [`PartialRadialGradient`] as plain values.
pub struct RadialModel {
    pub center: PartialPoint,
    pub focus: PartialPoint,
    pub radius: Option<Length>,
    pub gradient_transform: Option<Transform2>,
    pub stops: Seq<TagStop>,
}

impl<'a> DeepView for PartialLinearGradient<'a> {
    type V = LinearModel;

    open spec fn deep_view(&self) -> LinearModel {
        LinearModel {
            from: self.from,
            to: self.to,
            gradient_transform: self.gradient_transform,
            stops: self.stops@,
        }
    }
}

impl<'a> DeepView for PartialRadialGradient<'a> {
    type V = RadialModel;

    open spec fn deep_view(&self) -> RadialModel {
        RadialModel {
            center: self.center,
            focus: self.focus,
            radius: self.radius,
            gradient_transform: self.gradient_transform,
            stops: self.stops@,
        }
    }
}

/// `a`, or `b` where `a` is missing.
pub open spec fn or_else<T>(a: Option<T>, b: Option<T>) -> Option<T> {
    match a {
        Some(_) => a,
        None => b,
    }
}

fn or<T: Copy>(a: Option<T>, b: Option<T>) -> (r: Option<T>)
    ensures
        r == or_else(a, b),
{
    match a {
        Some(_) => a,
        None => b,
    }
}

/// Each coordinate of `a`, or that of `b` where it is missing.
pub open spec fn merge_point_spec(a: PartialPoint, b: PartialPoint) -> PartialPoint {
    (or_else(a.0, b.0), or_else(a.1, b.1))
}

/// The stops `a`, or `b` where there are none in `a`: the list is taken as a whole.
pub open spec fn select_stops_spec(a: Seq<TagStop>, b: Seq<TagStop>) -> Seq<TagStop> {
    if a.len() > 0 {
        a
    } else {
        b
    }
}

/// Each coordinate of `a`, or that of `b` where it is missing.
pub fn merge_point(a: &PartialPoint, b: &PartialPoint) -> (r: PartialPoint)
    ensures
        r == merge_point_spec(*a, *b),
{
    (or(a.0, b.0), or(a.1, b.1))
}

/// The stops `a`, or `b` where there are none in `a`.
pub fn select_stops<'a>(a: &'a [TagStop], b: &'a [TagStop]) -> (r: &'a [TagStop])
    ensures
        r@ == select_stops_spec(a@, b@),
{
    if a.len() > 0 {
        a
    } else {
        b
    }
}

/// The gradient that `href` names in `svg`, where it names an element at all.
pub open spec fn gradient_target(svg: Svg, href: Option<String>) -> Option<Arc<Item>> {
    match href {
        Some(h) => href_target(svg, h@),
        None => None,
    }
}

fn find_gradient_target<'a>(ctx: &'a DrawContext<'a>, href: &Option<String>) -> (r: Option<
    &'a Arc<Item>,
>)
    ensures
        r == match gradient_target(*ctx.svg, *href) {
            Some(item) => Some(&item),
            None => None,
        },
{
    match href {
        Some(h) => ctx.resolve_href(h.as_str()),
        None => None,
    }
}

/// The fields of the linear gradient `g` itself.
pub open spec fn own_linear(g: TagLinearGradient) -> LinearModel {
    LinearModel {
        from: g.from,
        to: g.to,
        gradient_transform: g.gradient_transform,
        stops: g.stops@,
    }
}

/// The fields of the radial gradient `g` itself.
pub open spec fn own_radial(g: TagRadialGradient) -> RadialModel {
    RadialModel {
        center: g.center,
        focus: g.focus,
        radius: g.radius,
        gradient_transform: g.gradient_transform,
        stops: g.stops@,
    }
}

/// The linear gradient `g` with what it lacks taken from the gradient it refers to, and so
/// on for `budget` references: each field of the geometry by itself, the stops as a list.
/// From a radial gradient only the stops are taken.
pub open spec fn linear_chain(g: TagLinearGradient, svg: Svg, budget: nat) -> LinearModel
    decreases budget,
{
    let own = own_linear(g);
    if budget == 0 {
        own
    } else {
        match gradient_target(svg, g.href) {
            Some(item) => match *item {
                Item::LinearGradient(other) => {
                    let o = linear_chain(other, svg, (budget - 1) as nat);
                    LinearModel {
                        from: merge_point_spec(own.from, o.from),
                        to: merge_point_spec(own.to, o.to),
                        gradient_transform: or_else(own.gradient_transform, o.gradient_transform),
                        stops: select_stops_spec(own.stops, o.stops),
                    }
                },
                Item::RadialGradient(other) => LinearModel {
                    stops: select_stops_spec(
                        own.stops,
                        radial_chain(other, svg, (budget - 1) as nat).stops,
                    ),
                    ..own
                },
                _ => own,
            },
            None => own,
        }
    }
}

/// The radial gradient `g` with what it lacks taken from the gradient it refers to, and so
/// on for `budget` references. From a linear gradient only the stops are taken.
pub open spec fn radial_chain(g: TagRadialGradient, svg: Svg, budget: nat) -> RadialModel
    decreases budget,
{
    let own = own_radial(g);
    if budget == 0 {
        own
    } else {
        match gradient_target(svg, g.href) {
            Some(item) => match *item {
                Item::RadialGradient(other) => {
                    let o = radial_chain(other, svg, (budget - 1) as nat);
                    RadialModel {
                        center: merge_point_spec(own.center, o.center),
                        focus: merge_point_spec(own.focus, o.focus),
                        radius: or_else(own.radius, o.radius),
                        gradient_transform: or_else(own.gradient_transform, o.gradient_transform),
                        stops: select_stops_spec(own.stops, o.stops),
                    }
                },
                Item::LinearGradient(other) => RadialModel {
                    stops: select_stops_spec(
                        own.stops,
                        linear_chain(other, svg, (budget - 1) as nat).stops,
                    ),
                    ..own
                },
                _ => own,
            },
            None => own,
        }
    }
}

/// The linear gradient `g` filled up along its references.
pub fn resolve_linear<'a>(g: &'a TagLinearGradient, ctx: &'a DrawContext<'a>, budget: usize) -> (r:
    PartialLinearGradient<'a>)
    ensures
        r.deep_view() == linear_chain(*g, *ctx.svg, budget as nat),
    decreases budget, 1nat,
{
    let own = PartialLinearGradient {
        from: g.from,
        to: g.to,
        gradient_transform: g.gradient_transform,
        stops: g.stops.as_slice(),
    };
    if budget == 0 {
        return own;
    }
    match find_gradient_target(ctx, &g.href) {
        Some(item) => match &**item {
            Item::LinearGradient(other) => {
                let o = resolve_linear(other, ctx, budget - 1);
                PartialLinearGradient {
                    from: merge_point(&own.from, &o.from),
                    to: merge_point(&own.to, &o.to),
                    gradient_transform: or(own.gradient_transform, o.gradient_transform),
                    stops: select_stops(own.stops, o.stops),
                }
            },
            Item::RadialGradient(other) => {
                let o = resolve_radial(other, ctx, budget - 1);
                PartialLinearGradient {
                    from: own.from,
                    to: own.to,
                    gradient_transform: own.gradient_transform,
                    stops: select_stops(own.stops, o.stops),
                }
            },
            _ => own,
        },
        None => own,
    }
}

/// The radial gradient `g` filled up along its references.
pub fn resolve_radial<'a>(g: &'a TagRadialGradient, ctx: &'a DrawContext<'a>, budget: usize) -> (r:
    PartialRadialGradient<'a>)
    ensures
        r.deep_view() == radial_chain(*g, *ctx.svg, budget as nat),
    decreases budget, 1nat,
{
    let own = PartialRadialGradient {
        center: g.center,
        focus: g.focus,
        radius: g.radius,
        gradient_transform: g.gradient_transform,
        stops: g.stops.as_slice(),
    };
    if budget == 0 {
        return own;
    }
    match find_gradient_target(ctx, &g.href) {
        Some(item) => match &**item {
            Item::RadialGradient(other) => {
                let o = resolve_radial(other, ctx, budget - 1);
                PartialRadialGradient {
                    center: merge_point(&own.center, &o.center),
                    focus: merge_point(&own.focus, &o.focus),
                    radius: or(own.radius, o.radius),
                    gradient_transform: or(own.gradient_transform, o.gradient_transform),
                    stops: select_stops(own.stops, o.stops),
                }
            },
            Item::LinearGradient(other) => {
                let o = resolve_linear(other, ctx, budget - 1);
                PartialRadialGradient {
                    center: own.center,
                    focus: own.focus,
                    radius: own.radius,
                    gradient_transform: own.gradient_transform,
                    stops: select_stops(own.stops, o.stops),
                }
            },
            _ => own,
        },
        None => own,
    }
}

/// A linear gradient without stops of its own that refers to a linear gradient with stops
/// has exactly the stops of that gradient, and keeps every coordinate that it sets itself.
pub proof fn lemma_stops_fall_back_as_a_list(
    g: TagLinearGradient,
    other: TagLinearGradient,
    svg: Svg,
    budget: nat,
)
    requires
        budget > 0,
        g.stops@.len() == 0,
        match gradient_target(svg, g.href) {
            Some(item) => *item == Item::LinearGradient(other),
            None => false,
        },
        other.stops@.len() > 0 || other.href is None,
    ensures
        linear_chain(g, svg, budget).stops == other.stops@,
        g.from.0 is Some ==> linear_chain(g, svg, budget).from.0 == g.from.0,
        g.from.1 is Some ==> linear_chain(g, svg, budget).from.1 == g.from.1,
        g.to.0 is Some ==> linear_chain(g, svg, budget).to.0 == g.to.0,
        g.to.1 is Some ==> linear_chain(g, svg, budget).to.1 == g.to.1,
        g.gradient_transform is Some ==> linear_chain(g, svg, budget).gradient_transform
            == g.gradient_transform,
{
    let o = linear_chain(other, svg, (budget - 1) as nat);
    assert(o.stops == other.stops@) by {
        if budget - 1 > 0 && other.stops@.len() == 0 {
            assert(gradient_target(svg, other.href) is None);
        }
    }
}

/// A linear gradient without stops of its own that refers to a radial gradient with stops
/// has exactly the stops of that gradient, and keeps all of its own coordinates.
pub proof fn lemma_stops_fall_back_from_radial(
    g: TagLinearGradient,
    other: TagRadialGradient,
    svg: Svg,
    budget: nat,
)
    requires
        budget > 0,
        g.stops@.len() == 0,
        match gradient_target(svg, g.href) {
            Some(item) => *item == Item::RadialGradient(other),
            None => false,
        },
        other.stops@.len() > 0 || other.href is None,
    ensures
        linear_chain(g, svg, budget).stops == other.stops@,
        linear_chain(g, svg, budget).from == g.from,
        linear_chain(g, svg, budget).to == g.to,
        linear_chain(g, svg, budget).gradient_transform == g.gradient_transform,
{
    let o = radial_chain(other, svg, (budget - 1) as nat);
    assert(o.stops == other.stops@) by {
        if budget - 1 > 0 && other.stops@.len() == 0 {
            assert(gradient_target(svg, other.href) is None);
        }
    }
}

impl TagStop {
    /// The colour of the stop, with the given opacity times its own as the fourth channel,
    /// rounded down to one of 256 levels.
    pub open spec fn color_u_spec(&self, opacity: Number) -> ColorU {
        ColorU {
            r: self.color.red.round_to_u8_spec(),
            g: self.color.green.round_to_u8_spec(),
            b: self.color.blue.round_to_u8_spec(),
            a: opacity.mul_spec(self.opacity).trunc_to_u8_spec(),
        }
    }

    pub fn color_u(&self, opacity: Number) -> (r: ColorU)
        ensures
            r == self.color_u_spec(opacity),
    {
        ColorU {
            r: self.color.red.round_to_u8(),
            g: self.color.green.round_to_u8(),
            b: self.color.blue.round_to_u8(),
            a: opacity.mul(self.opacity).trunc_to_u8(),
        }
    }
}

/// The stops `stops` as the colours of a gradient that is seen with the opacity `opacity`.
pub open spec fn color_stops(stops: Seq<TagStop>, opacity: Number) -> Seq<ColorStop> {
    Seq::new(
        stops.len(),
        |i: int| ColorStop { color: stops[i].color_u_spec(opacity), offset: stops[i].offset },
    )
}

fn build_stops(stops: &[TagStop], opacity: Number) -> (r: Vec<ColorStop>)
    ensures
        r@ == color_stops(stops@, opacity),
{
    let mut out: Vec<ColorStop> = Vec::new();
    let mut i: usize = 0;
    while i < stops.len()
        invariant
            i <= stops@.len(),
            out@.len() == i,
            forall|j: int|
                0 <= j < i ==> #[trigger] out@[j] == (ColorStop {
                    color: stops@[j].color_u_spec(opacity),
                    offset: stops@[j].offset,
                }),
        decreases stops@.len() - i,
    {
        out.push(ColorStop { color: stops[i].color_u(opacity), offset: stops[i].offset });
        i = i + 1;
    }
    proof {
        assert(out@ =~= color_stops(stops@, opacity));
    }
    out
}

/// The length `a`, or the percentage `default` where it is missing.
pub open spec fn length_or_percent_spec(a: Option<Length>, default: Number) -> Length {
    match a {
        Some(l) => l,
        None => Length { num: default, unit: LengthUnit::Percent },
    }
}

/// The point `p`, with the percentages `default` for the coordinates that are missing.
pub open spec fn point_or_percent_spec(p: PartialPoint, default: (Number, Number)) -> Vector {
    Vector(
        match p.0 {
            Some(x) => x,
            None => LengthX(Length { num: default.0, unit: LengthUnit::Percent }),
        },
        match p.1 {
            Some(y) => y,
            None => LengthY(Length { num: default.1, unit: LengthUnit::Percent }),
        },
    )
}

/// The length `a`, or the percentage `default` where it is missing.
pub fn length_or_percent(a: Option<Length>, default: Number) -> (r: Length)
    ensures
        r == length_or_percent_spec(a, default),
{
    match a {
        Some(l) => l,
        None => Length { num: default, unit: LengthUnit::Percent },
    }
}

/// The point `p`, with the percentages `default` for the coordinates that are missing.
pub fn point_or_percent(p: PartialPoint, default: (Number, Number)) -> (r: Vector)
    ensures
        r == point_or_percent_spec(p, default),
{
    Vector(
        match p.0 {
            Some(x) => x,
            None => LengthX(Length { num: default.0, unit: LengthUnit::Percent }),
        },
        match p.1 {
            Some(y) => y,
            None => LengthY(Length { num: default.1, unit: LengthUnit::Percent }),
        },
    )
}

impl LinearModel {
    /// The gradient in the environment `env`, seen with the opacity `opacity`. It runs from
    /// `from` (by default the left edge of the view box) to `to` (by default the right
    /// edge); `None` where a coordinate cannot be resolved.
    pub open spec fn build(self, env: Env, opacity: Number) -> Option<GradientModel> {
        let zero = Number::zero_spec();
        let from = point_or_percent_spec(self.from, (zero, zero));
        let to = point_or_percent_spec(self.to, (Number::from_int_spec(100), zero));
        match (soft(from, env), soft(to, env)) {
            (Some(from), Some(to)) => Some(
                GradientModel {
                    geometry: GradientGeometry::Linear { from, to },
                    stops: color_stops(self.stops, opacity),
                    transform: env.transform.compose_spec(
                        match self.gradient_transform {
                            Some(t) => t,
                            None => Transform2::identity_spec(),
                        },
                    ),
                },
            ),
            _ => None,
        }
    }
}

impl RadialModel {
    /// The gradient in the environment `env`, seen with the opacity `opacity`. Its centre is
    /// by default the middle of the view box, its focus by default its centre, its radius by
    /// default half the width of the view box; `None` where one of them cannot be resolved.
    pub open spec fn build(self, env: Env, opacity: Number) -> Option<GradientModel> {
        let fifty = Number::from_int_spec(50);
        let center = point_or_percent_spec(self.center, (fifty, fifty));
        let focus = Vector(
            match self.focus.0 {
                Some(x) => x,
                None => center.0,
            },
            match self.focus.1 {
                Some(y) => y,
                None => center.1,
            },
        );
        let radius = length_or_percent_spec(self.radius, fifty);
        match (soft(focus, env), soft(center, env), env.resolve_length_along(radius, Axis::X)) {
            (Some(focus), Some(center), Some(radius)) => Some(
                GradientModel {
                    geometry: GradientGeometry::Radial { focus, center, radius },
                    stops: color_stops(self.stops, opacity),
                    transform: env.transform.compose_spec(
                        match self.gradient_transform {
                            Some(t) => t,
                            None => Transform2::identity_spec(),
                        },
                    ),
                },
            ),
            _ => None,
        }
    }
}

impl<'a> PartialLinearGradient<'a> {
    pub fn build(&self, options: &Options, opacity: Number) -> (r: Option<Gradient>)
        ensures
            option_view(r) == self.deep_view().build(options.deep_view(), opacity),
    {
        let from = point_or_percent(self.from, (Number::zero(), Number::zero()));
        let to = point_or_percent(self.to, (Number::from_int(100), Number::zero()));
        let from = from.try_resolve(options);
        let to = to.try_resolve(options);
        proof {
            if from is Some {
                assert(from->0.deep_view() == from->0);
            }
            if to is Some {
                assert(to->0.deep_view() == to->0);
            }
        }
        match (from, to) {
            (Some(from), Some(to)) => {
                let local = match self.gradient_transform {
                    Some(t) => t,
                    None => Transform2::identity(),
                };
                Some(
                    Gradient {
                        geometry: GradientGeometry::Linear { from, to },
                        stops: build_stops(self.stops, opacity),
                        transform: options.transform.compose(local),
                    },
                )
            },
            _ => None,
        }
    }
}

impl<'a> PartialRadialGradient<'a> {
    pub fn build(&self, options: &Options, opacity: Number) -> (r: Option<Gradient>)
        ensures
            option_view(r) == self.deep_view().build(options.deep_view(), opacity),
    {
        let fifty = Number::from_int(50);
        let center = point_or_percent(self.center, (fifty, fifty));
        let focus = Vector(
            match self.focus.0 {
                Some(x) => x,
                None => center.0,
            },
            match self.focus.1 {
                Some(y) => y,
                None => center.1,
            },
        );
        let radius = length_or_percent(self.radius, fifty);
        let focus = focus.try_resolve(options);
        let center = center.try_resolve(options);
        let radius = options.resolve_length_along(radius, Axis::X);
        proof {
            if focus is Some {
                assert(focus->0.deep_view() == focus->0);
            }
            if center is Some {
                assert(center->0.deep_view() == center->0);
            }
        }
        match (focus, center, radius) {
            (Some(focus), Some(center), Some(radius)) => {
                let local = match self.gradient_transform {
                    Some(t) => t,
                    None => Transform2::identity(),
                };
                Some(
                    Gradient {
                        geometry: GradientGeometry::Radial { focus, center, radius },
                        stops: build_stops(self.stops, opacity),
                        transform: options.transform.compose(local),
                    },
                )
            },
            _ => None,
        }
    }
}

/// What can make a gradient to paint with.
pub trait BuildGradient {
    /// The gradient in the environment `env`, seen with the opacity `opacity`.
    spec fn build_spec(&self, env: Env, opacity: Number) -> Option<GradientModel>;

    fn build(&self, options: &Options, opacity: Number) -> (r: Option<Gradient>)
        ensures
            option_view(r) == self.build_spec(options.deep_view(), opacity),
    ;
}

impl BuildGradient for TagLinearGradient {
    open spec fn build_spec(&self, env: Env, opacity: Number) -> Option<GradientModel> {
        linear_chain(*self, env.svg, MAX_HREF_DEPTH as nat).build(env, opacity)
    }

    fn build(&self, options: &Options, opacity: Number) -> (r: Option<Gradient>) {
        resolve_linear(self, options.ctx, MAX_HREF_DEPTH).build(options, opacity)
    }
}

impl BuildGradient for TagRadialGradient {
    open spec fn build_spec(&self, env: Env, opacity: Number) -> Option<GradientModel> {
        radial_chain(*self, env.svg, MAX_HREF_DEPTH as nat).build(env, opacity)
    }

    fn build(&self, options: &Options, opacity: Number) -> (r: Option<Gradient>) {
        resolve_radial(self, options.ctx, MAX_HREF_DEPTH).build(options, opacity)
    }
}

} // verus!
