//! The environment in which attributes are resolved.

use crate::dom::Item;
use crate::dom::animate::Time;
use crate::dom::attrs::{Attrs, ClipPathAttr, FillRule, Language, TextFlow};
use crate::dom::outline::{outline_grow, ContourModel, Outline};
use crate::dom::paint::{Paint, PaintModel};
use crate::dom::svg::Svg;
use crate::dom::util::{Axis, Length, LengthUnit, LengthY};
use crate::dom::value::Value;
use crate::draw::{flatten, lemma_numbers_view, option_view, soft, Resolve};
use crate::draw::gradient::BuildGradient;
use crate::draw::scene::{
    BlendMode, ClipPathId, ClipPathModel, DrawPath, DrawPathModel, PaintId, Scene, SceneClipPath,
    SceneModel, ScenePaint, ScenePaintModel, StrokeModel, StrokeSpec,
};
use crate::geometry::{Rect2, Transform2, Vector2};
use crate::number::Number;
use std::sync::Arc;
use vstd::prelude::*;

verus! {

/// How the ends of a stroke are drawn.
#[derive(Clone, Copy, PartialEq, Eq, Structural, Debug)]
pub enum LineCap {
    Butt,
    Square,
    Round,
}

/// How the corners of a stroke are drawn.
#[derive(Clone, Copy, PartialEq, Eq, Structural, Debug)]
pub enum LineJoin {
    Miter,
    Bevel,
    Round,
}

/// The shape of a stroke.
#[derive(Clone, Copy, PartialEq, Eq, Structural, Debug)]
pub struct StrokeStyle {
    pub line_width: Number,
    pub line_cap: LineCap,
    pub line_join: LineJoin,
}

/// The dots per inch that a fresh context assumes.
pub const DEFAULT_DPI: i64 = 75;

/// What stays the same during one walk over a document: the document and the resolution.
#[derive(Clone, Copy, Debug)]
pub struct DrawContext<'a> {
    pub svg: &'a Svg,
    pub dpi: Number,
}

impl<'a> DrawContext<'a> {
    pub fn new_without_fonts(svg: &'a Svg) -> (r: DrawContext<'a>)
        ensures
            r.svg == svg,
            r.dpi == Number::from_int_spec(DEFAULT_DPI),
    {
        DrawContext { svg, dpi: Number::from_int(DEFAULT_DPI) }
    }

    /// The element with the id `id`.
    pub fn resolve(&self, id: &str) -> (r: Option<&Arc<Item>>)
        ensures
            r == match self.svg.named_items.lookup(id@) {
                Some(item) => Some(&item),
                None => None,
            },
    {
        self.svg.named_items.get(id)
    }

    /// The element that the reference `href` names: `href` is `#` and an id.
    pub fn resolve_href(&self, href: &str) -> (r: Option<&Arc<Item>>)
        ensures
            r == match href_target(*self.svg, href@) {
                Some(item) => Some(&item),
                None => None,
            },
    {
        let n = href.unicode_len();
        if n > 0 && href.get_char(0) == '#' {
            self.resolve(href.substring_char(1, n))
        } else {
            None
        }
    }
}

/// The element of `svg` that the reference `href` names, where it is `#` and the id of one.
pub open spec fn href_target(svg: Svg, href: Seq<char>) -> Option<Arc<Item>> {
    if href.len() > 0 && href[0] == '#' {
        svg.named_items.lookup(href.subrange(1, href.len() as int))
    } else {
        None
    }
}

/// The environment: the state that is handed from an element to the elements beneath it.
#[derive(Clone, Debug)]
pub struct Options<'a> {
    pub ctx: &'a DrawContext<'a>,
    pub fill: Paint,
    pub fill_rule: FillRule,
    pub fill_opacity: Number,
    pub stroke: Paint,
    pub stroke_style: StrokeStyle,
    pub stroke_opacity: Number,
    pub stroke_dasharray: Option<Vec<Number>>,
    pub stroke_dashoffset: Number,
    pub opacity: Number,
    pub transform: Transform2,
    pub clip_rule: FillRule,
    pub view_box: Option<Rect2>,
    pub time: Time,
    pub font_size: Number,
    pub direction: TextFlow,
    pub lang: Option<Language>,
}

/// An [`Options`] as plain values.
pub struct Env {
    pub svg: Svg,
    pub dpi: Number,
    pub fill: PaintModel,
    pub fill_rule: FillRule,
    pub fill_opacity: Number,
    pub stroke: PaintModel,
    pub stroke_style: StrokeStyle,
    pub stroke_opacity: Number,
    pub stroke_dasharray: Option<Seq<Number>>,
    pub stroke_dashoffset: Number,
    pub opacity: Number,
    pub transform: Transform2,
    pub clip_rule: FillRule,
    pub view_box: Option<Rect2>,
    pub time: Time,
    pub font_size: Number,
    pub direction: TextFlow,
    pub lang: Option<Seq<char>>,
}

/// The view of an optional list of numbers.
pub open spec fn dash_view(d: Option<Vec<Number>>) -> Option<Seq<Number>> {
    match d {
        Some(v) => Some(v@),
        None => None,
    }
}

/// The view of an optional language.
pub open spec fn lang_view(l: Option<Language>) -> Option<Seq<char>> {
    match l {
        Some(l) => Some(l.code@),
        None => None,
    }
}

impl<'a> DeepView for Options<'a> {
    type V = Env;

    open spec fn deep_view(&self) -> Env {
        Env {
            svg: *self.ctx.svg,
            dpi: self.ctx.dpi,
            fill: self.fill.deep_view(),
            fill_rule: self.fill_rule,
            fill_opacity: self.fill_opacity,
            stroke: self.stroke.deep_view(),
            stroke_style: self.stroke_style,
            stroke_opacity: self.stroke_opacity,
            stroke_dasharray: dash_view(self.stroke_dasharray),
            stroke_dashoffset: self.stroke_dashoffset,
            opacity: self.opacity,
            transform: self.transform,
            clip_rule: self.clip_rule,
            view_box: self.view_box,
            time: self.time,
            font_size: self.font_size,
            direction: self.direction,
            lang: lang_view(self.lang),
        }
    }
}

/// The size of a font where nothing sets it.
pub const DEFAULT_FONT_SIZE: i64 = 20;

/// The scale of the transform at the root of a walk.
pub const ROOT_SCALE: i64 = 10;

impl Env {
    /// The environment at the root of a walk over `svg`: black fill, no stroke, everything
    /// opaque, the nonzero rule for fills and clips, ten units of the scene to a user unit.
    pub open spec fn root(svg: Svg, dpi: Number) -> Env {
        Env {
            svg,
            dpi,
            fill: PaintModel::Color(crate::dom::paint::Color::black_spec()),
            fill_rule: FillRule::Winding,
            fill_opacity: Number::one_spec(),
            stroke: PaintModel::Nothing,
            stroke_style: StrokeStyle {
                line_width: Number::one_spec(),
                line_cap: LineCap::Butt,
                line_join: LineJoin::Bevel,
            },
            stroke_opacity: Number::one_spec(),
            stroke_dasharray: None,
            stroke_dashoffset: Number::zero_spec(),
            opacity: Number::one_spec(),
            transform: Transform2::from_scale_spec(
                Vector2::splat_spec(Number::from_int_spec(ROOT_SCALE)),
            ),
            clip_rule: FillRule::Winding,
            view_box: None,
            time: Time(Number::zero_spec()),
            font_size: Number::from_int_spec(DEFAULT_FONT_SIZE),
            direction: TextFlow::LeftToRight,
            lang: None,
        }
    }

    /// The environment for what is beneath an element with the attributes `attrs`.
    ///
    /// Every attribute is resolved in the environment of the parent. A paint that is not
    /// set is the paint of the parent; a rule, an opacity of fill or stroke, the width of the
    /// stroke, the size of the font, the direction and the language that are not set (or
    /// cannot be resolved) stay as they are. The opacity of the element is `1` where it is
    /// not set, and the dashes are those of the element alone. The transform of the element
    /// is put under the transform of the parent: it is applied to a point first.
    #[verifier::opaque]
    pub open spec fn apply(self, attrs: Attrs) -> Env {
        Env {
            clip_rule: match attrs.clip_rule {
                Some(r) => r,
                None => self.clip_rule,
            },
            opacity: match flatten(soft(attrs.opacity, self)) {
                Some(o) => o,
                None => Number::one_spec(),
            },
            transform: self.transform.compose_spec(attrs.transform.resolve_spec(self)),
            fill: attrs.fill.resolve_spec(self),
            fill_rule: match attrs.fill_rule {
                Some(r) => r,
                None => self.fill_rule,
            },
            fill_opacity: match flatten(soft(attrs.fill_opacity, self)) {
                Some(o) => o,
                None => self.fill_opacity,
            },
            stroke: attrs.stroke.resolve_spec(self),
            stroke_style: match flatten(soft(attrs.stroke_width, self)) {
                Some(w) => StrokeStyle { line_width: w, ..self.stroke_style },
                None => self.stroke_style,
            },
            stroke_opacity: match flatten(soft(attrs.stroke_opacity, self)) {
                Some(o) => o,
                None => self.stroke_opacity,
            },
            stroke_dasharray: flatten(soft(attrs.stroke_dasharray, self)),
            direction: match attrs.direction {
                Some(d) => d,
                None => self.direction,
            },
            font_size: match flatten(soft(attrs.font_size, self)) {
                Some(s) => s,
                None => self.font_size,
            },
            lang: match attrs.lang {
                Some(l) => Some(l.code@),
                None => self.lang,
            },
            ..self
        }
    }

    /// The environment inside a viewport: the view box `view_box` is fitted into the given
    /// width and height (or, where one is not given or cannot be resolved, into its own),
    /// and its corner is moved to the origin. Where the view box itself cannot be resolved,
    /// nothing changes.
    #[verifier::opaque]
    pub open spec fn apply_viewbox(
        self,
        width: Option<crate::dom::util::LengthX>,
        height: Option<LengthY>,
        view_box: crate::dom::util::Rect,
    ) -> Env {
        match soft(view_box, self) {
            None => self,
            Some(view_box) => {
                let w = match flatten(soft(width, self)) {
                    Some(w) => w,
                    None => view_box.width_spec(),
                };
                let h = match flatten(soft(height, self)) {
                    Some(h) => h,
                    None => view_box.height_spec(),
                };
                let size = Vector2 { x: w, y: h };
                let fit = Transform2::from_scale_spec(
                    size.div_spec(view_box.size_spec()),
                ).compose_spec(Transform2::from_translation_spec(view_box.min.neg_spec()));
                Env {
                    transform: self.transform.compose_spec(fit),
                    view_box: Some(view_box),
                    ..self
                }
            },
        }
    }

    /// Whether a stroke would show.
    pub open spec fn has_stroke(self) -> bool {
        self.opacity.raw > 0 && self.stroke_opacity.raw > 0 && !(self.stroke is Nothing)
    }

    /// Whether a fill would show.
    pub open spec fn has_fill(self) -> bool {
        self.opacity.raw > 0 && self.fill_opacity.raw > 0 && !(self.fill is Nothing)
    }

    /// The factor by which a number in the unit `unit` is turned into user units; `None` for
    /// a percentage and for the units `em`, `ex` and `pc`.
    pub open spec fn unit_scale(self, num: Number, unit: LengthUnit) -> Option<Number> {
        match unit {
            LengthUnit::Unitless => Some(num),
            LengthUnit::Px => Some(num),
            LengthUnit::In => Some(num.mul_spec(self.dpi)),
            LengthUnit::Cm => Some(num.mul_spec(self.dpi).mul_ratio_spec(100, 254)),
            LengthUnit::Mm => Some(num.mul_spec(self.dpi).mul_ratio_spec(10, 254)),
            LengthUnit::Pt => Some(num.mul_spec(self.dpi).mul_ratio_spec(1, 75)),
            _ => None,
        }
    }

    /// The length in user units, where it does not depend on an axis: an inch is `dpi` user
    /// units, a point the 75th part of that, a centimetre the 2.54th part of an inch.
    pub open spec fn resolve_length(self, length: Length) -> Option<Number> {
        self.unit_scale(length.num, length.unit)
    }

    /// The length in user units along `axis`: a percentage is taken of the width or the
    /// height of the view box, and is `None` where there is no view box.
    pub open spec fn resolve_length_along(self, length: Length, axis: Axis) -> Option<Number> {
        match length.unit {
            LengthUnit::Percent => match self.view_box {
                Some(r) => Some(
                    match axis {
                        Axis::X => r.width_spec(),
                        Axis::Y => r.height_spec(),
                    }.mul_spec(length.num).mul_ratio_spec(1, 100),
                ),
                None => None,
            },
            _ => self.unit_scale(length.num, length.unit),
        }
    }
}

impl<'a> Options<'a> {
    /// The environment at the root of a walk.
    pub fn new(ctx: &'a DrawContext<'a>) -> (r: Options<'a>)
        ensures
            r.deep_view() == Env::root(*ctx.svg, ctx.dpi),
            r.ctx == ctx,
    {
        Options {
            ctx,
            opacity: Number::one(),
            fill: Paint::black(),
            fill_rule: FillRule::Winding,
            fill_opacity: Number::one(),
            stroke: Paint::Nothing,
            stroke_opacity: Number::one(),
            stroke_style: StrokeStyle {
                line_width: Number::one(),
                line_cap: LineCap::Butt,
                line_join: LineJoin::Bevel,
            },
            stroke_dasharray: None,
            stroke_dashoffset: Number::zero(),
            transform: Transform2::from_scale(Vector2::splat(Number::from_int(ROOT_SCALE))),
            clip_rule: FillRule::Winding,
            view_box: None,
            time: Time::start(),
            font_size: Number::from_int(DEFAULT_FONT_SIZE),
            direction: TextFlow::LeftToRight,
            lang: None,
        }
    }

    /// A copy of this environment.
    pub fn duplicate(&self) -> (r: Options<'a>)
        ensures
            r.deep_view() == self.deep_view(),
            r.ctx == self.ctx,
    {
        Options {
            ctx: self.ctx,
            fill: self.fill.duplicate(),
            fill_rule: self.fill_rule,
            fill_opacity: self.fill_opacity,
            stroke: self.stroke.duplicate(),
            stroke_style: self.stroke_style,
            stroke_opacity: self.stroke_opacity,
            stroke_dasharray: match &self.stroke_dasharray {
                Some(d) => Some(copy_numbers(d)),
                None => None,
            },
            stroke_dashoffset: self.stroke_dashoffset,
            opacity: self.opacity,
            transform: self.transform,
            clip_rule: self.clip_rule,
            view_box: self.view_box,
            time: self.time,
            font_size: self.font_size,
            direction: self.direction,
            lang: match &self.lang {
                Some(l) => Some(Language { code: l.code.clone() }),
                None => None,
            },
        }
    }

    pub fn has_stroke(&self) -> (r: bool)
        ensures
            r == self.deep_view().has_stroke(),
    {
        self.opacity.is_positive() && self.stroke_opacity.is_positive() && !self.stroke.is_none()
    }

    pub fn has_fill(&self) -> (r: bool)
        ensures
            r == self.deep_view().has_fill(),
    {
        self.opacity.is_positive() && self.fill_opacity.is_positive() && !self.fill.is_none()
    }

    pub fn get_transform(&self) -> (r: &Transform2)
        ensures
            *r == self.transform,
    {
        &self.transform
    }

    pub fn set_transform(&mut self, transform: Transform2)
        ensures
            final(self).deep_view() == (Env { transform, ..old(self).deep_view() }),
            final(self).ctx == old(self).ctx,
    {
        self.transform = transform;
    }

    /// Puts `transform` under the transform that is there: it is applied first.
    pub fn apply_transform(&mut self, transform: Transform2)
        ensures
            final(self).deep_view() == (Env {
                transform: old(self).transform.compose_spec(transform),
                ..old(self).deep_view()
            }),
            final(self).ctx == old(self).ctx,
    {
        self.transform = self.transform.compose(transform);
    }

    /// The environment for what is beneath an element with the attributes `attrs`.
    pub fn apply(&self, attrs: &Attrs) -> (r: Options<'a>)
        ensures
            r.deep_view() == self.deep_view().apply(*attrs),
            r.ctx == self.ctx,
    {
        reveal(Env::apply);
        let mut stroke_style = self.stroke_style;
        match soft_option(&attrs.stroke_width, self) {
            Some(length) => {
                proof {
                    assert(length.deep_view() == length);
                }
                stroke_style.line_width = length;
            },
            None => {},
        }
        let opacity = match soft_option(&attrs.opacity, self) {
            Some(o) => {
                proof {
                    assert(o.deep_view() == o);
                }
                o
            },
            None => Number::one(),
        };
        let fill_opacity = match soft_option(&attrs.fill_opacity, self) {
            Some(o) => {
                proof {
                    assert(o.deep_view() == o);
                }
                o
            },
            None => self.fill_opacity,
        };
        let stroke_opacity = match soft_option(&attrs.stroke_opacity, self) {
            Some(o) => {
                proof {
                    assert(o.deep_view() == o);
                }
                o
            },
            None => self.stroke_opacity,
        };
        let font_size = match soft_option(&attrs.font_size, self) {
            Some(s) => {
                proof {
                    assert(s.deep_view() == s);
                }
                s
            },
            None => self.font_size,
        };
        let stroke_dasharray = soft_option(&attrs.stroke_dasharray, self);
        proof {
            if stroke_dasharray is Some {
                lemma_numbers_view(stroke_dasharray->0);
            }
        }
        let local = attrs.transform.resolve(self);
        proof {
            assert(local.deep_view() == local);
        }
        let lang = match &attrs.lang {
            Some(l) => Some(Language { code: l.code.clone() }),
            None => match &self.lang {
                Some(l) => Some(Language { code: l.code.clone() }),
                None => None,
            },
        };
        Options {
            ctx: self.ctx,
            clip_rule: match attrs.clip_rule {
                Some(r) => r,
                None => self.clip_rule,
            },
            opacity,
            transform: self.transform.compose(local),
            fill: attrs.fill.resolve(self),
            fill_rule: match attrs.fill_rule {
                Some(r) => r,
                None => self.fill_rule,
            },
            fill_opacity,
            stroke: attrs.stroke.resolve(self),
            stroke_style,
            stroke_opacity,
            stroke_dasharray,
            stroke_dashoffset: self.stroke_dashoffset,
            direction: match attrs.direction {
                Some(d) => d,
                None => self.direction,
            },
            font_size,
            lang,
            view_box: self.view_box,
            time: self.time,
        }
    }

    /// Enters a viewport with the view box `view_box`.
    pub fn apply_viewbox(
        &mut self,
        width: Option<crate::dom::util::LengthX>,
        height: Option<LengthY>,
        view_box: &crate::dom::util::Rect,
    )
        ensures
            final(self).deep_view() == old(self).deep_view().apply_viewbox(width, height, *view_box),
            final(self).ctx == old(self).ctx,
    {
        reveal(Env::apply_viewbox);
        let view_box = match view_box.try_resolve(self) {
            Some(r) => r,
            None => {
                return ;
            },
        };
        proof {
            assert(view_box.deep_view() == view_box);
        }
        let w = match width.try_resolve(self) {
            Some(Some(w)) => {
                proof {
                    assert(w.deep_view() == w);
                }
                w
            },
            _ => view_box.width(),
        };
        let h = match height.try_resolve(self) {
            Some(Some(h)) => {
                proof {
                    assert(h.deep_view() == h);
                }
                h
            },
            _ => view_box.height(),
        };
        let size = Vector2 { x: w, y: h };
        let fit = Transform2::from_scale(size.div(view_box.size())).compose(
            Transform2::from_translation(view_box.min.neg()),
        );
        self.transform = self.transform.compose(fit);
        self.view_box = Some(view_box);
    }

    fn unit_scale(&self, num: Number, unit: LengthUnit) -> (r: Option<Number>)
        ensures
            r == self.deep_view().unit_scale(num, unit),
    {
        match unit {
            LengthUnit::Unitless => Some(num),
            LengthUnit::Px => Some(num),
            LengthUnit::In => Some(num.mul(self.ctx.dpi)),
            LengthUnit::Cm => Some(num.mul(self.ctx.dpi).mul_ratio(100, 254)),
            LengthUnit::Mm => Some(num.mul(self.ctx.dpi).mul_ratio(10, 254)),
            LengthUnit::Pt => Some(num.mul(self.ctx.dpi).mul_ratio(1, 75)),
            _ => None,
        }
    }

    pub fn resolve_length(&self, length: Length) -> (r: Option<Number>)
        ensures
            r == self.deep_view().resolve_length(length),
    {
        self.unit_scale(length.num, length.unit)
    }

    pub fn resolve_length_along(&self, length: Length, axis: Axis) -> (r: Option<Number>)
        ensures
            r == self.deep_view().resolve_length_along(length, axis),
    {
        match length.unit {
            LengthUnit::Percent => match self.view_box {
                Some(r) => {
                    let extent = match axis {
                        Axis::X => r.width(),
                        Axis::Y => r.height(),
                    };
                    Some(extent.mul(length.num).mul_ratio(1, 100))
                },
                None => None,
            },
            _ => self.unit_scale(length.num, length.unit),
        }
    }
}

/// An outline and the transform that puts it in its place.
#[derive(Debug)]
pub struct PlacedOutline {
    pub outline: Outline,
    pub transform: Transform2,
}

/// A [`PlacedOutline`] as plain values.
pub struct PlacedModel {
    pub contours: Seq<ContourModel>,
    pub transform: Transform2,
}

impl DeepView for PlacedOutline {
    type V = PlacedModel;

    open spec fn deep_view(&self) -> PlacedModel {
        PlacedModel { contours: self.outline.deep_view(), transform: self.transform }
    }
}

/// The rectangle `acc` grown to hold the first `n` of the `parts`, each in its place.
pub open spec fn placed_grow(parts: Seq<PlacedModel>, acc: Option<Rect2>, n: nat) -> Option<Rect2>
    decreases n,
{
    if n == 0 || n > parts.len() {
        acc
    } else {
        let p = parts[n - 1];
        outline_grow(
            p.contours,
            p.transform,
            placed_grow(parts, acc, (n - 1) as nat),
            p.contours.len(),
        )
    }
}

/// The smallest rectangle that holds all the `parts`, each in its place; `None` where they
/// hold no point.
pub open spec fn placed_bounds(parts: Seq<PlacedModel>) -> Option<Rect2> {
    placed_grow(parts, None, parts.len())
}

/// The bounds of the parts of a clip outline.
pub fn clip_bounds(parts: &Vec<PlacedOutline>) -> (r: Option<Rect2>)
    ensures
        r == placed_bounds(parts.deep_view()),
{
    let mut out: Option<Rect2> = None;
    let mut i: usize = 0;
    while i < parts.len()
        invariant
            i <= parts@.len(),
            parts.deep_view().len() == parts@.len(),
            out == placed_grow(parts.deep_view(), None, i as nat),
        decreases parts@.len() - i,
    {
        proof {
            assert(parts.deep_view()[i as int] == parts@[i as int].deep_view());
        }
        out = grow_outline(&parts[i].outline, parts[i].transform, out);
        i = i + 1;
    }
    out
}

fn grow_outline(outline: &Outline, transform: Transform2, acc: Option<Rect2>) -> (r: Option<Rect2>)
    ensures
        r == outline_grow(outline.deep_view(), transform, acc, outline.deep_view().len()),
{
    let mut out = acc;
    let mut i: usize = 0;
    while i < outline.contours.len()
        invariant
            i <= outline.contours@.len(),
            outline.deep_view().len() == outline.contours@.len(),
            out == outline_grow(outline.deep_view(), transform, acc, i as nat),
        decreases outline.contours@.len() - i,
    {
        out = outline.contours[i].grow(transform, out);
        i = i + 1;
    }
    out
}

/// The environment of the walk that finds bounds.
#[derive(Clone, Debug)]
pub struct BoundsOptions<'a> {
    pub common: Options<'a>,
    /// The rectangle outside of which nothing shows, where a clip path is active.
    pub clip_rect: Option<Rect2>,
    /// Whether the clip paths that are active leave no region at all.
    pub clipped_out: bool,
}

/// A [`BoundsOptions`] as plain values.
pub struct BoundsEnv {
    pub common: Env,
    pub clip_rect: Option<Rect2>,
    pub clipped_out: bool,
}

impl<'a> DeepView for BoundsOptions<'a> {
    type V = BoundsEnv;

    open spec fn deep_view(&self) -> BoundsEnv {
        BoundsEnv {
            common: self.common.deep_view(),
            clip_rect: self.clip_rect,
            clipped_out: self.clipped_out,
        }
    }
}

/// What clip paths leave to be seen.
pub struct ClipState {
    pub clip_rect: Option<Rect2>,
    pub clipped_out: bool,
}

/// The clip path that the attribute `attr` names in `svg`, if it names one.
pub open spec fn clip_path_target(svg: Svg, attr: Option<ClipPathAttr>) -> Option<
    crate::dom::path::TagClipPath,
> {
    match attr {
        Some(ClipPathAttr::Ref(id)) => match svg.named_items.lookup(id@) {
            Some(item) => match *item {
                Item::ClipPath(p) => Some(p),
                _ => None,
            },
            None => None,
        },
        _ => None,
    }
}

/// What is left to be seen under a new clip path with the bounds `inner`, given what was
/// left before. A clip path without any region, or one that shares no region with the
/// clip that is active, leaves nothing.
pub open spec fn narrow_clip(before: ClipState, inner: Option<Rect2>) -> ClipState {
    if before.clipped_out {
        before
    } else {
        match inner {
            None => ClipState { clip_rect: before.clip_rect, clipped_out: true },
            Some(inner) => match before.clip_rect {
                None => ClipState { clip_rect: Some(inner), clipped_out: false },
                Some(outer) => match outer.intersection_spec(inner) {
                    Some(r) => ClipState { clip_rect: Some(r), clipped_out: false },
                    None => ClipState { clip_rect: before.clip_rect, clipped_out: true },
                },
            },
        }
    }
}

fn narrow(before: ClipState, inner: Option<Rect2>) -> (r: ClipState)
    ensures
        r == narrow_clip(before, inner),
{
    if before.clipped_out {
        before
    } else {
        match inner {
            None => ClipState { clip_rect: before.clip_rect, clipped_out: true },
            Some(inner) => match before.clip_rect {
                None => ClipState { clip_rect: Some(inner), clipped_out: false },
                Some(outer) => match outer.intersection(inner) {
                    Some(r) => ClipState { clip_rect: Some(r), clipped_out: false },
                    None => ClipState { clip_rect: before.clip_rect, clipped_out: true },
                },
            },
        }
    }
}

impl BoundsEnv {
    /// The environment for what is beneath an element with the attributes `attrs`: the
    /// common part as [`Env::apply`] gives it; where `clip-path` names a clip path, what is
    /// seen is narrowed to its bounds, and where it names nothing of that kind, the
    /// attribute counts as absent.
    #[verifier::opaque]
    pub open spec fn apply(self, attrs: Attrs) -> BoundsEnv {
        let common = self.common.apply(attrs);
        let before = ClipState { clip_rect: self.clip_rect, clipped_out: self.clipped_out };
        let after = match clip_path_target(self.common.svg, attrs.clip_path) {
            Some(p) => narrow_clip(before, placed_bounds(p.resolve_spec(common))),
            None => before,
        };
        BoundsEnv { common, clip_rect: after.clip_rect, clipped_out: after.clipped_out }
    }

    /// The bounds of what is drawn of a shape with the bounds `rect` in its own
    /// coordinates: grown by half the width of the stroke where a stroke shows, mapped by
    /// the transform, and cut down to the clip. `None` where neither stroke nor fill shows,
    /// and where the clip leaves nothing of the shape.
    #[verifier::opaque]
    pub open spec fn bounds(self, rect: Rect2) -> Option<Rect2> {
        let env = self.common;
        let painted = if env.has_stroke() {
            Some(
                env.transform.apply_rect_spec(
                    rect.dilate_spec(
                        Vector2::splat_spec(env.stroke_style.line_width.mul_ratio_spec(1, 2)),
                    ),
                ),
            )
        } else if env.has_fill() {
            Some(env.transform.apply_rect_spec(rect))
        } else {
            None
        };
        if self.clipped_out {
            None
        } else {
            match (painted, self.clip_rect) {
                (Some(r), Some(clip)) => r.intersection_spec(clip),
                (p, _) => p,
            }
        }
    }
}

impl<'a> BoundsOptions<'a> {
    /// The environment at the root of a walk.
    pub fn new(ctx: &'a DrawContext<'a>) -> (r: BoundsOptions<'a>)
        ensures
            r.deep_view() == (BoundsEnv {
                common: Env::root(*ctx.svg, ctx.dpi),
                clip_rect: None,
                clipped_out: false,
            }),
            r.common.ctx == ctx,
    {
        BoundsOptions { common: Options::new(ctx), clip_rect: None, clipped_out: false }
    }

    /// The environment for what is beneath an element with the attributes `attrs`.
    pub fn apply(&self, attrs: &Attrs) -> (r: BoundsOptions<'a>)
        ensures
            r.deep_view() == self.deep_view().apply(*attrs),
            r.common.ctx == self.common.ctx,
    {
        reveal(BoundsEnv::apply);
        let common = self.common.apply(attrs);
        let before = ClipState { clip_rect: self.clip_rect, clipped_out: self.clipped_out };
        let after = match find_clip_path(self.common.ctx, &attrs.clip_path) {
            Some(p) => {
                let parts = p.resolve(&common);
                narrow(before, clip_bounds(&parts))
            },
            None => before,
        };
        BoundsOptions { common, clip_rect: after.clip_rect, clipped_out: after.clipped_out }
    }

    /// The bounds of what is drawn of a shape with the bounds `rect`.
    pub fn bounds(&self, rect: Rect2) -> (r: Option<Rect2>)
        ensures
            r == self.deep_view().bounds(rect),
    {
        reveal(BoundsEnv::bounds);
        let painted = if self.common.has_stroke() {
            Some(
                self.common.transform.apply_rect(
                    rect.dilate(Vector2::splat(self.common.stroke_style.line_width.mul_ratio(1, 2))),
                ),
            )
        } else if self.common.has_fill() {
            Some(self.common.transform.apply_rect(rect))
        } else {
            None
        };
        if self.clipped_out {
            None
        } else {
            match (painted, self.clip_rect) {
                (Some(r), Some(clip)) => r.intersection(clip),
                (p, _) => p,
            }
        }
    }
}

/// The clip path that the attribute names in the document, if it names one.
pub fn find_clip_path<'a>(ctx: &'a DrawContext<'a>, attr: &Option<ClipPathAttr>) -> (r: Option<
    &'a crate::dom::path::TagClipPath,
>)
    ensures
        r == match clip_path_target(*ctx.svg, *attr) {
            Some(p) => Some(&p),
            None => None,
        },
{
    match attr {
        Some(ClipPathAttr::Ref(id)) => match ctx.resolve(id.as_str()) {
            Some(item) => match &**item {
                Item::ClipPath(p) => Some(p),
                _ => None,
            },
            None => None,
        },
        _ => None,
    }
}

/// A shape that lies outside the clip that is active has no bounds.
pub proof fn lemma_outside_clip_no_bounds(env: BoundsEnv, rect: Rect2, clip: Rect2)
    requires
        env.clip_rect == Some(clip),
        !env.common.transform.apply_rect_spec(
            rect.dilate_spec(
                Vector2::splat_spec(env.common.stroke_style.line_width.mul_ratio_spec(1, 2)),
            ),
        ).intersects_spec(clip),
        !env.common.transform.apply_rect_spec(rect).intersects_spec(clip),
    ensures
        env.bounds(rect) is None,
{
    reveal(BoundsEnv::bounds);
}

/// The clip path that is active in a walk that draws: its bounds and its place in the scene.
#[derive(Clone, Copy, PartialEq, Eq, Structural, Debug)]
pub struct ActiveClip {
    pub rect: Rect2,
    pub id: ClipPathId,
}

/// The environment of the walk that draws.
#[derive(Clone, Debug)]
pub struct DrawOptions<'a> {
    pub common: Options<'a>,
    pub clip_path: Option<ActiveClip>,
    /// Whether the clip paths that are active leave no region at all.
    pub clipped_out: bool,
}

/// A [`DrawOptions`] as plain values.
pub struct DrawEnv {
    pub common: Env,
    pub clip_path: Option<ActiveClip>,
    pub clipped_out: bool,
}

impl<'a> DeepView for DrawOptions<'a> {
    type V = DrawEnv;

    open spec fn deep_view(&self) -> DrawEnv {
        DrawEnv {
            common: self.common.deep_view(),
            clip_path: self.clip_path,
            clipped_out: self.clipped_out,
        }
    }
}

/// The paint with which `paint` is drawn in `env` at the opacity `opacity`: a colour at the
/// opacity times that of the environment, or the gradient that a reference names. `None`
/// for no paint and for a reference that names no gradient that can be built.
#[verifier::opaque]
pub open spec fn resolve_paint_spec(env: Env, paint: PaintModel, opacity: Number) -> Option<
    ScenePaintModel,
> {
    let opacity = opacity.mul_spec(env.opacity);
    match paint {
        PaintModel::Color(c) => Some(ScenePaintModel::Color(c.color_u_spec(opacity))),
        PaintModel::Ref(id) => match env.svg.named_items.lookup(id) {
            Some(item) => match *item {
                Item::LinearGradient(g) => match g.build_spec(env, opacity) {
                    Some(m) => Some(ScenePaintModel::Gradient(m)),
                    None => None,
                },
                Item::RadialGradient(g) => match g.build_spec(env, opacity) {
                    Some(m) => Some(ScenePaintModel::Gradient(m)),
                    None => None,
                },
                _ => None,
            },
            None => None,
        },
        PaintModel::Nothing => None,
    }
}

/// The paint with which `paint` is drawn at the opacity `opacity`.
pub fn resolve_paint(options: &Options, paint: &Paint, opacity: Number) -> (r: Option<ScenePaint>)
    ensures
        option_view(r) == resolve_paint_spec(options.deep_view(), paint.deep_view(), opacity),
{
    reveal(resolve_paint_spec);
    let opacity = opacity.mul(options.opacity);
    match paint {
        Paint::Color(c) => Some(ScenePaint::Color(c.color_u(opacity))),
        Paint::Ref(id) => match options.ctx.resolve(id.as_str()) {
            Some(item) => match &**item {
                Item::LinearGradient(g) => match g.build(options, opacity) {
                    Some(m) => Some(ScenePaint::Gradient(m)),
                    None => None,
                },
                Item::RadialGradient(g) => match g.build(options, opacity) {
                    Some(m) => Some(ScenePaint::Gradient(m)),
                    None => None,
                },
                _ => None,
            },
            None => None,
        },
        Paint::Nothing => None,
    }
}

/// A copy of a list of numbers.
pub fn copy_numbers(v: &Vec<Number>) -> (r: Vec<Number>)
    ensures
        r@ == v@,
{
    let mut out: Vec<Number> = Vec::new();
    let mut i: usize = 0;
    while i < v.len()
        invariant
            i <= v@.len(),
            out@ == v@.take(i as int),
        decreases v@.len() - i,
    {
        out.push(v[i]);
        proof {
            assert(v@.take(i + 1) =~= v@.take(i as int).push(v@[i as int]));
        }
        i = i + 1;
    }
    proof {
        assert(v@.take(v@.len() as int) =~= v@);
    }
    out
}

/// The place of the clip path of `clip` in the scene.
pub open spec fn clip_id(clip: Option<ActiveClip>) -> Option<ClipPathId> {
    match clip {
        Some(c) => Some(c.id),
        None => None,
    }
}

impl DrawEnv {
    /// The same environment for a walk that finds bounds.
    pub open spec fn bounds_env(self) -> BoundsEnv {
        BoundsEnv {
            common: self.common,
            clip_rect: match self.clip_path {
                Some(c) => Some(c.rect),
                None => None,
            },
            clipped_out: self.clipped_out,
        }
    }

    /// The environment for what is beneath an element with the attributes `attrs`, and the
    /// scene once the clip path of the element, if it names one, was handed over.
    ///
    /// The clip path goes into the scene with the clip path that is active as its parent,
    /// and what is seen is narrowed to the bounds of both. A clip path without any region,
    /// or one that shares no region with the one that is active, leaves nothing to be seen:
    /// then nothing is handed over.
    #[verifier::opaque]
    pub open spec fn apply(self, scene: SceneModel, attrs: Attrs) -> (DrawEnv, SceneModel) {
        let common = self.common.apply(attrs);
        match clip_path_target(self.common.svg, attrs.clip_path) {
            None => (DrawEnv { common, ..self }, scene),
            Some(p) => {
                let parts = p.resolve_spec(common);
                let before = ClipState {
                    clip_rect: self.bounds_env().clip_rect,
                    clipped_out: self.clipped_out,
                };
                let after = narrow_clip(before, placed_bounds(parts));
                if self.clipped_out {
                    (DrawEnv { common, ..self }, scene)
                } else if after.clipped_out {
                    (DrawEnv { common, clip_path: self.clip_path, clipped_out: true }, scene)
                } else {
                    (
                        DrawEnv {
                            common,
                            clip_path: Some(
                                ActiveClip {
                                    rect: after.clip_rect->0,
                                    id: ClipPathId(scene.clip_paths.len() as usize),
                                },
                            ),
                            clipped_out: false,
                        },
                        scene.push_clip_path(
                            ClipPathModel {
                                parts,
                                fill_rule: self.common.clip_rule,
                                parent: clip_id(self.clip_path),
                            },
                        ),
                    )
                }
            },
        }
    }

    /// The path that fills `contours` with the paint at `paint`.
    pub open spec fn fill_path(self, contours: Seq<ContourModel>, paint: PaintId) -> DrawPathModel {
        DrawPathModel {
            contours,
            transform: self.common.transform,
            paint,
            fill_rule: self.common.fill_rule,
            clip_path: clip_id(self.clip_path),
            blend_mode: BlendMode::SrcOver,
            stroke: None,
        }
    }

    /// The path that strokes `contours` with the paint at `paint`.
    pub open spec fn stroke_path(self, contours: Seq<ContourModel>, paint: PaintId) -> DrawPathModel {
        DrawPathModel {
            contours,
            transform: self.common.transform,
            paint,
            fill_rule: FillRule::Winding,
            clip_path: clip_id(self.clip_path),
            blend_mode: BlendMode::SrcOver,
            stroke: Some(
                StrokeModel {
                    style: self.common.stroke_style,
                    dash: self.common.stroke_dasharray,
                    dash_offset: self.common.stroke_dashoffset,
                },
            ),
        }
    }

    /// The scene once the fill of `contours` was handed over, where there is a paint for it.
    #[verifier::opaque]
    pub open spec fn draw_fill(self, scene: SceneModel, contours: Seq<ContourModel>) -> SceneModel {
        match resolve_paint_spec(self.common, self.common.fill, self.common.fill_opacity) {
            Some(p) => scene.push_paint(p).push_draw_path(
                self.fill_path(contours, PaintId(scene.paints.len() as usize)),
            ),
            None => scene,
        }
    }

    /// The scene once the stroke of `contours` was handed over, where there is a paint for it
    /// and the stroke has a width.
    #[verifier::opaque]
    pub open spec fn draw_stroke(self, scene: SceneModel, contours: Seq<ContourModel>) -> SceneModel {
        match resolve_paint_spec(self.common, self.common.stroke, self.common.stroke_opacity) {
            Some(p) => if self.common.stroke_style.line_width.raw > 0 {
                scene.push_paint(p).push_draw_path(
                    self.stroke_path(contours, PaintId(scene.paints.len() as usize)),
                )
            } else {
                scene
            },
            None => scene,
        }
    }

    /// Whether anything of a shape with the outline `contours` would be seen: it has points,
    /// a fill or a stroke shows, and the clip leaves some of it.
    pub open spec fn shows(self, contours: Seq<ContourModel>) -> bool {
        match crate::dom::outline::outline_bounds(contours, Transform2::identity_spec()) {
            Some(rect) => self.bounds_env().bounds(rect) is Some,
            None => false,
        }
    }

    /// The scene once the shape with the outline `contours` was handed over: first its fill,
    /// then its stroke. Of a shape of which nothing would be seen, nothing is handed over.
    pub open spec fn draw(self, scene: SceneModel, contours: Seq<ContourModel>) -> SceneModel {
        if self.shows(contours) {
            self.draw_stroke(self.draw_fill(scene, contours), contours)
        } else {
            scene
        }
    }

    /// The scene once the shape with the outline `contours` was handed over as [`DrawEnv::draw`]
    /// does it, in the environment in which `transform` is applied before the transform
    /// that is there.
    pub open spec fn draw_transformed(
        self,
        scene: SceneModel,
        contours: Seq<ContourModel>,
        transform: Transform2,
    ) -> SceneModel {
        (DrawEnv {
            common: Env {
                transform: self.common.transform.compose_spec(transform),
                ..self.common
            },
            ..self
        }).draw(scene, contours)
    }
}

impl<'a> DrawOptions<'a> {
    /// The environment at the root of a walk.
    pub fn new(ctx: &'a DrawContext<'a>) -> (r: DrawOptions<'a>)
        ensures
            r.deep_view() == (DrawEnv {
                common: Env::root(*ctx.svg, ctx.dpi),
                clip_path: None,
                clipped_out: false,
            }),
            r.common.ctx == ctx,
    {
        DrawOptions { common: Options::new(ctx), clip_path: None, clipped_out: false }
    }

    /// The same environment for a walk that finds bounds.
    pub fn bounds_options(&self) -> (r: BoundsOptions<'a>)
        ensures
            r.deep_view() == self.deep_view().bounds_env(),
            r.common.ctx == self.common.ctx,
    {
        BoundsOptions {
            common: self.common.duplicate(),
            clip_rect: match self.clip_path {
                Some(c) => Some(c.rect),
                None => None,
            },
            clipped_out: self.clipped_out,
        }
    }

    /// The environment for what is beneath an element with the attributes `attrs`. The clip
    /// path of the element, if it names one, goes into the scene.
    pub fn apply(&self, scene: &mut Scene, attrs: &Attrs) -> (r: DrawOptions<'a>)
        ensures
            (r.deep_view(), final(scene).deep_view()) == self.deep_view().apply(
                old(scene).deep_view(),
                *attrs,
            ),
            r.common.ctx == self.common.ctx,
    {
        reveal(DrawEnv::apply);
        let common = self.common.apply(attrs);
        match find_clip_path(self.common.ctx, &attrs.clip_path) {
            None => DrawOptions { common, clip_path: self.clip_path, clipped_out: self.clipped_out },
            Some(p) => {
                let parts = p.resolve(&common);
                let before = ClipState {
                    clip_rect: match self.clip_path {
                        Some(c) => Some(c.rect),
                        None => None,
                    },
                    clipped_out: self.clipped_out,
                };
                let after = narrow(before, clip_bounds(&parts));
                if self.clipped_out {
                    DrawOptions { common, clip_path: self.clip_path, clipped_out: true }
                } else if after.clipped_out {
                    DrawOptions { common, clip_path: self.clip_path, clipped_out: true }
                } else {
                    let rect = match after.clip_rect {
                        Some(r) => r,
                        None => Rect2::from_points(Vector2::zero(), Vector2::zero()),
                    };
                    let id = scene.push_clip_path(
                        SceneClipPath {
                            parts,
                            fill_rule: self.common.clip_rule,
                            parent: match self.clip_path {
                                Some(c) => Some(c.id),
                                None => None,
                            },
                        },
                    );
                    DrawOptions {
                        common,
                        clip_path: Some(ActiveClip { rect, id }),
                        clipped_out: false,
                    }
                }
            },
        }
    }

    fn draw_fill(&self, scene: &mut Scene, outline: &Outline)
        ensures
            final(scene).deep_view() == self.deep_view().draw_fill(
                old(scene).deep_view(),
                outline.deep_view(),
            ),
    {
        reveal(DrawEnv::draw_fill);
        match resolve_paint(&self.common, &self.common.fill, self.common.fill_opacity) {
            Some(paint) => {
                let id = scene.push_paint(paint);
                proof {
                    assert(old(scene).deep_view().paints.len() == old(scene).paints@.len());
                }
                scene.push_draw_path(
                    DrawPath {
                        outline: outline.duplicate(),
                        transform: self.common.transform,
                        paint: id,
                        fill_rule: self.common.fill_rule,
                        clip_path: match self.clip_path {
                            Some(c) => Some(c.id),
                            None => None,
                        },
                        blend_mode: BlendMode::SrcOver,
                        stroke: None,
                    },
                );
            },
            None => {},
        }
    }

    fn draw_stroke(&self, scene: &mut Scene, outline: &Outline)
        ensures
            final(scene).deep_view() == self.deep_view().draw_stroke(
                old(scene).deep_view(),
                outline.deep_view(),
            ),
    {
        reveal(DrawEnv::draw_stroke);
        match resolve_paint(&self.common, &self.common.stroke, self.common.stroke_opacity) {
            Some(paint) => {
                if self.common.stroke_style.line_width.is_positive() {
                    let id = scene.push_paint(paint);
                    proof {
                        assert(old(scene).deep_view().paints.len() == old(scene).paints@.len());
                    }
                    scene.push_draw_path(
                        DrawPath {
                            outline: outline.duplicate(),
                            transform: self.common.transform,
                            paint: id,
                            fill_rule: FillRule::Winding,
                            clip_path: match self.clip_path {
                                Some(c) => Some(c.id),
                                None => None,
                            },
                            blend_mode: BlendMode::SrcOver,
                            stroke: Some(
                                StrokeSpec {
                                    style: self.common.stroke_style,
                                    dash: match &self.common.stroke_dasharray {
                                        Some(d) => Some(copy_numbers(d)),
                                        None => None,
                                    },
                                    dash_offset: self.common.stroke_dashoffset,
                                },
                            ),
                        },
                    );
                }
            },
            None => {},
        }
    }

    /// Whether anything of a shape with this outline would be seen.
    pub fn shows(&self, outline: &Outline) -> (r: bool)
        ensures
            r == self.deep_view().shows(outline.deep_view()),
    {
        match outline.bounds(Transform2::identity()) {
            Some(rect) => self.bounds_options().bounds(rect).is_some(),
            None => false,
        }
    }

    /// Hands the shape with the outline `outline` over to the scene: its fill, then its
    /// stroke.
    pub fn draw(&self, scene: &mut Scene, outline: &Outline)
        ensures
            final(scene).deep_view() == self.deep_view().draw(
                old(scene).deep_view(),
                outline.deep_view(),
            ),
    {
        if self.shows(outline) {
            self.draw_fill(scene, outline);
            self.draw_stroke(scene, outline);
        }
    }

    /// Hands the shape with the outline `outline` over to the scene, moved by `transform`
    /// first: the outline of a glyph in its place along a line of text is drawn so.
    pub fn draw_transformed(&self, scene: &mut Scene, outline: &Outline, transform: Transform2)
        ensures
            final(scene).deep_view() == self.deep_view().draw_transformed(
                old(scene).deep_view(),
                outline.deep_view(),
                transform,
            ),
    {
        let mut own = DrawOptions {
            common: self.common.duplicate(),
            clip_path: self.clip_path,
            clipped_out: self.clipped_out,
        };
        own.common.apply_transform(transform);
        own.draw(scene, outline);
    }
}

/// Of a shape that lies outside the clip that is active, nothing is handed to the scene.
pub proof fn lemma_outside_clip_draws_nothing(
    env: DrawEnv,
    scene: SceneModel,
    contours: Seq<ContourModel>,
    clip: ActiveClip,
)
    requires
        env.clip_path == Some(clip),
        match crate::dom::outline::outline_bounds(contours, Transform2::identity_spec()) {
            Some(rect) => {
                &&& !env.common.transform.apply_rect_spec(
                    rect.dilate_spec(
                        Vector2::splat_spec(
                            env.common.stroke_style.line_width.mul_ratio_spec(1, 2),
                        ),
                    ),
                ).intersects_spec(clip.rect)
                &&& !env.common.transform.apply_rect_spec(rect).intersects_spec(clip.rect)
            },
            None => true,
        },
    ensures
        env.draw(scene, contours) == scene,
{
    reveal(BoundsEnv::bounds);
}

/// The concrete value of an attribute that may be absent: `None` where it is not set or
/// cannot be resolved.
pub fn soft_option<T: Resolve>(v: &Value<Option<T>>, options: &Options) -> (r: Option<T::Output>) where
    T::Output: crate::draw::Interpolate + crate::draw::Compose,

    ensures
        option_view(r) == flatten(soft(*v, options.deep_view())),
{
    let resolved: Option<Option<T::Output>> = v.try_resolve(options);
    match resolved {
        Some(Some(x)) => {
            proof {
                assert(Some(x).deep_view() == Some(x.deep_view()));
            }
            Some(x)
        },
        Some(None) => {
            proof {
                assert(None::<T::Output>.deep_view() == None::<<T::Output as DeepView>::V>);
            }
            None
        },
        None => None,
    }
}

} // verus!
