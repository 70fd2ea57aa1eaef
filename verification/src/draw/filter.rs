//! Filters: what is drawn under a filter goes into a render target of its own, and the
//! render target is then painted back through the filter.

use crate::dom::attrs::FillRule;
use crate::dom::filter::{FeColorMatrix, Filter};
use crate::dom::outline::{outline_push, Contour, ContourModel, Outline};
use crate::draw::draw::{DrawEnv, DrawOptions, Env};
use crate::draw::scene::{
    BlendMode, BlurDirection, DrawPath, DrawPathModel, PaintId, PatternFilter, RectI,
    RenderTargetId, Scene, SceneModel, ScenePaint, ScenePaintModel,
};
use crate::geometry::{Rect2, Transform2, Vector2};
use crate::number::{Number, SCALE};
use vstd::prelude::*;

verus! {

/// How many standard deviations of a blur are drawn beyond the bounds of what is blurred.
pub const BLUR_REACH: i64 = 3;

/// What a filter needs to remember between the moment before and the moment after the
/// things under it are drawn.
#[derive(Clone, Copy, Debug)]
pub enum FilterState {
    GaussianBlur(GaussianBlurInfo),
    ColorMatrix(ColorMatrixInfo),
}

/// What is remembered of a blur while the things under it are drawn: the standard
/// deviations along both axes, the pixels that it covers, and its two render targets.
#[derive(Clone, Copy, Debug)]
pub struct GaussianBlurInfo {
    pub sigma: Vector2,
    pub bounds: RectI,
    pub render_target_id_y: RenderTargetId,
    pub render_target_id_x: RenderTargetId,
}

/// What is remembered of a colour matrix while the things under it are drawn: the pixels
/// that it covers, its render target and the matrix.
#[derive(Clone, Copy, Debug)]
pub struct ColorMatrixInfo {
    pub bounds: RectI,
    pub render_target_id: RenderTargetId,
    pub filter: FeColorMatrix,
}

impl Transform2 {
    /// By how much the map stretches along each axis: the lengths of the rows of its matrix.
    pub open spec fn extract_scale_spec(self) -> Vector2 {
        Vector2 {
            x: self.m11.mul_spec(self.m11).add_spec(self.m12.mul_spec(self.m12)).sqrt_spec(),
            y: self.m21.mul_spec(self.m21).add_spec(self.m22.mul_spec(self.m22)).sqrt_spec(),
        }
    }

    pub fn extract_scale(self) -> (r: Vector2)
        ensures
            r == self.extract_scale_spec(),
    {
        Vector2 {
            x: self.m11.mul(self.m11).add(self.m12.mul(self.m12)).sqrt(),
            y: self.m21.mul(self.m21).add(self.m22.mul(self.m22)).sqrt(),
        }
    }
}

/// The smallest rectangle of whole pixels that holds `rect`.
pub open spec fn round_out_spec(rect: Rect2) -> RectI {
    RectI {
        min_x: rect.min.x.floor_spec() as i64,
        min_y: rect.min.y.floor_spec() as i64,
        max_x: rect.max.x.ceil_spec() as i64,
        max_y: rect.max.y.ceil_spec() as i64,
    }
}

/// The smallest rectangle of whole pixels that holds `rect`.
pub fn round_out(rect: Rect2) -> (r: RectI)
    ensures
        r == round_out_spec(rect),
{
    RectI {
        min_x: rect.min.x.floor(),
        min_y: rect.min.y.floor(),
        max_x: rect.max.x.ceil(),
        max_y: rect.max.y.ceil(),
    }
}

impl RectI {
    /// The upper left corner.
    pub open spec fn origin_spec(self) -> Vector2 {
        Vector2 { x: Number::from_int_spec(self.min_x), y: Number::from_int_spec(self.min_y) }
    }

    /// The width and the height.
    pub open spec fn size_spec(self) -> Vector2 {
        Vector2 {
            x: Number::of((self.max_x - self.min_x) * (SCALE as int)),
            y: Number::of((self.max_y - self.min_y) * (SCALE as int)),
        }
    }

    /// The rectangle as it lies in the plane.
    pub open spec fn to_rect_spec(self) -> Rect2 {
        Rect2 {
            min: self.origin_spec(),
            max: Vector2 {
                x: Number::from_int_spec(self.max_x),
                y: Number::from_int_spec(self.max_y),
            },
        }
    }

    pub fn origin(self) -> (r: Vector2)
        ensures
            r == self.origin_spec(),
    {
        Vector2 { x: Number::from_int(self.min_x), y: Number::from_int(self.min_y) }
    }

    pub fn size(self) -> (r: Vector2)
        ensures
            r == self.size_spec(),
    {
        Vector2 { x: span(self.min_x, self.max_x), y: span(self.min_y, self.max_y) }
    }

    pub fn to_rect(self) -> (r: Rect2)
        ensures
            r == self.to_rect_spec(),
    {
        Rect2 {
            min: self.origin(),
            max: Vector2 { x: Number::from_int(self.max_x), y: Number::from_int(self.max_y) },
        }
    }
}

fn span(min: i64, max: i64) -> (r: Number)
    ensures
        r == Number::of((max - min) * (SCALE as int)),
{
    let delta: i128 = max as i128 - min as i128;
    assert(-0x1_0000_0000_0000_0000 * 1_000_000 <= delta * 1_000_000 <= 0x1_0000_0000_0000_0000
        * 1_000_000) by (nonlinear_arith)
        requires
            -0x1_0000_0000_0000_0000 <= delta <= 0x1_0000_0000_0000_0000,
    ;
    let d: i128 = delta * (SCALE as i128);
    if d > crate::number::RAW_MAX as i128 {
        Number { raw: crate::number::RAW_MAX }
    } else if d < crate::number::RAW_MIN as i128 {
        Number { raw: crate::number::RAW_MIN }
    } else {
        Number { raw: d as i64 }
    }
}

/// The environment in which the things under a filter are drawn: moved so that the corner
/// of the render target with the bounds `bounds` lies at the origin.
pub open spec fn shifted(env: DrawEnv, bounds: RectI) -> DrawEnv {
    DrawEnv {
        common: Env {
            transform: Transform2::from_translation_spec(
                bounds.origin_spec().neg_spec(),
            ).compose_spec(env.common.transform),
            ..env.common
        },
        ..env
    }
}

/// What [`FilterState::pre`] gives for the filter `filter` over things with the bounds
/// `outline_bounds`: what to remember, and the scene with the render targets made. A blur
/// takes two render targets, one for each axis, grown by [`BLUR_REACH`] standard deviations
/// on every side; a colour matrix takes one.
#[verifier::opaque]
pub open spec fn pre_spec(
    filter: Filter,
    scene: SceneModel,
    outline_bounds: Rect2,
    env: DrawEnv,
) -> (FilterState, SceneModel) {
    match filter {
        Filter::GaussianBlur(f) => {
            let sigma = env.common.transform.extract_scale_spec().scale_spec(f.std_deviation);
            let bounds = round_out_spec(
                outline_bounds.dilate_spec(sigma.scale_spec(Number::from_int_spec(BLUR_REACH))),
            );
            (
                FilterState::GaussianBlur(
                    GaussianBlurInfo {
                        sigma,
                        bounds,
                        render_target_id_y: RenderTargetId(scene.render_targets.len() as usize),
                        render_target_id_x: RenderTargetId(
                            (scene.render_targets.len() + 1) as usize,
                        ),
                    },
                ),
                scene.push_render_target(bounds).push_render_target(bounds),
            )
        },
        Filter::ColorMatrix(filter) => {
            let bounds = round_out_spec(outline_bounds);
            (
                FilterState::ColorMatrix(
                    ColorMatrixInfo {
                        bounds,
                        render_target_id: RenderTargetId(scene.render_targets.len() as usize),
                        filter,
                    },
                ),
                scene.push_render_target(bounds),
            )
        },
    }
}

/// The path that paints the rectangle `rect` with the paint at `paint`.
pub open spec fn rect_path(rect: Rect2, paint: PaintId, blend_mode: BlendMode) -> DrawPathModel {
    DrawPathModel {
        contours: outline_push(Seq::empty(), ContourModel::from_rect(rect)),
        transform: Transform2::identity_spec(),
        paint,
        fill_rule: FillRule::Winding,
        clip_path: None,
        blend_mode,
        stroke: None,
    }
}

fn make_rect_path(rect: Rect2, paint: PaintId, blend_mode: BlendMode) -> (r: DrawPath)
    ensures
        r.deep_view() == rect_path(rect, paint, blend_mode),
{
    DrawPath {
        outline: Outline::from_contour(Contour::from_rect(rect)),
        transform: Transform2::identity(),
        paint,
        fill_rule: FillRule::Winding,
        clip_path: None,
        blend_mode,
        stroke: None,
    }
}

/// How a colour matrix of this kind is put onto what is beneath it.
pub open spec fn blend_mode_of(filter: FeColorMatrix) -> BlendMode {
    match filter {
        FeColorMatrix::LuminanceToAlpha => BlendMode::DestIn,
        _ => BlendMode::SrcOver,
    }
}

/// The scene once the filter that `state` remembers was closed. A blur paints the render
/// target of the x axis, blurred along x, into that of the y axis, and that one, blurred
/// along y, back in its place. A colour matrix paints its render target back in its place
/// through the matrix. Every render target that was opened is closed, in order.
#[verifier::opaque]
pub open spec fn post_spec(state: FilterState, scene: SceneModel) -> SceneModel {
    match state {
        FilterState::GaussianBlur(info) => {
            let paint_x = ScenePaintModel::Pattern {
                target: info.render_target_id_x,
                transform: Transform2::identity_spec(),
                filter: PatternFilter::Blur { direction: BlurDirection::X, sigma: info.sigma.x },
            };
            let paint_y = ScenePaintModel::Pattern {
                target: info.render_target_id_y,
                transform: Transform2::from_translation_spec(info.bounds.origin_spec()),
                filter: PatternFilter::Blur { direction: BlurDirection::Y, sigma: info.sigma.y },
            };
            let id_x = PaintId(scene.paints.len() as usize);
            let id_y = PaintId((scene.paints.len() + 1) as usize);
            let path_x = rect_path(
                Rect2::new_spec(Vector2::zero_spec(), info.bounds.size_spec()),
                id_x,
                BlendMode::SrcOver,
            );
            let path_y = rect_path(info.bounds.to_rect_spec(), id_y, BlendMode::SrcOver);
            scene.push_paint(paint_x).push_paint(paint_y).pop_render_target().push_draw_path(
                path_x,
            ).pop_render_target().push_draw_path(path_y)
        },
        FilterState::ColorMatrix(info) => {
            let paint = ScenePaintModel::Pattern {
                target: info.render_target_id,
                transform: Transform2::from_translation_spec(info.bounds.origin_spec()),
                filter: PatternFilter::ColorMatrix(info.filter),
            };
            let id = PaintId(scene.paints.len() as usize);
            scene.push_paint(paint).pop_render_target().push_draw_path(
                rect_path(info.bounds.to_rect_spec(), id, blend_mode_of(info.filter)),
            )
        },
    }
}

impl FilterState {
    /// Opens the filter `filter` over things with the bounds `outline_bounds`: makes its
    /// render targets and moves `options` into them.
    pub fn pre(filter: &Filter, scene: &mut Scene, outline_bounds: Rect2, options: &mut DrawOptions) -> (r:
        FilterState)
        ensures
            (r, final(scene).deep_view()) == pre_spec(
                *filter,
                old(scene).deep_view(),
                outline_bounds,
                old(options).deep_view(),
            ),
            final(options).deep_view() == shifted(old(options).deep_view(), r.bounds_spec()),
            final(options).common.ctx == old(options).common.ctx,
    {
        reveal(pre_spec);
        match *filter {
            Filter::GaussianBlur(f) => {
                let sigma = options.common.transform.extract_scale().scale(f.std_deviation);
                let bounds = round_out(
                    outline_bounds.dilate(sigma.scale(Number::from_int(BLUR_REACH))),
                );
                let render_target_id_y = scene.push_render_target(bounds);
                let render_target_id_x = scene.push_render_target(bounds);
                options.common.transform = Transform2::from_translation(
                    bounds.origin().neg(),
                ).compose(options.common.transform);
                FilterState::GaussianBlur(
                    GaussianBlurInfo { sigma, bounds, render_target_id_y, render_target_id_x },
                )
            },
            Filter::ColorMatrix(filter) => {
                let bounds = round_out(outline_bounds);
                let render_target_id = scene.push_render_target(bounds);
                options.common.transform = Transform2::from_translation(
                    bounds.origin().neg(),
                ).compose(options.common.transform);
                FilterState::ColorMatrix(ColorMatrixInfo { bounds, render_target_id, filter })
            },
        }
    }

    /// The bounds of the render targets of the filter.
    pub open spec fn bounds_spec(self) -> RectI {
        match self {
            FilterState::GaussianBlur(info) => info.bounds,
            FilterState::ColorMatrix(info) => info.bounds,
        }
    }

    /// Closes the filter: paints its render targets back.
    pub fn post(self, scene: &mut Scene)
        ensures
            final(scene).deep_view() == post_spec(self, old(scene).deep_view()),
    {
        reveal(post_spec);
        proof {
            assert(old(scene).deep_view().paints.len() == old(scene).paints@.len());
        }
        match self {
            FilterState::GaussianBlur(info) => {
                let paint_x = ScenePaint::Pattern {
                    target: info.render_target_id_x,
                    transform: Transform2::identity(),
                    filter: PatternFilter::Blur { direction: BlurDirection::X, sigma: info.sigma.x },
                };
                let paint_y = ScenePaint::Pattern {
                    target: info.render_target_id_y,
                    transform: Transform2::from_translation(info.bounds.origin()),
                    filter: PatternFilter::Blur { direction: BlurDirection::Y, sigma: info.sigma.y },
                };
                let id_x = scene.push_paint(paint_x);
                proof {
                    assert(scene.deep_view().paints.len() == scene.paints@.len());
                }
                let id_y = scene.push_paint(paint_y);
                let path_x = make_rect_path(
                    Rect2::new(Vector2::zero(), info.bounds.size()),
                    id_x,
                    BlendMode::SrcOver,
                );
                let path_y = make_rect_path(info.bounds.to_rect(), id_y, BlendMode::SrcOver);
                scene.pop_render_target();
                scene.push_draw_path(path_x);
                scene.pop_render_target();
                scene.push_draw_path(path_y);
            },
            FilterState::ColorMatrix(info) => {
                let paint = ScenePaint::Pattern {
                    target: info.render_target_id,
                    transform: Transform2::from_translation(info.bounds.origin()),
                    filter: PatternFilter::ColorMatrix(info.filter),
                };
                let id = scene.push_paint(paint);
                let blend_mode = match info.filter {
                    FeColorMatrix::LuminanceToAlpha => BlendMode::DestIn,
                    _ => BlendMode::SrcOver,
                };
                scene.pop_render_target();
                scene.push_draw_path(make_rect_path(info.bounds.to_rect(), id, blend_mode));
            },
        }
    }
}

} // verus!
