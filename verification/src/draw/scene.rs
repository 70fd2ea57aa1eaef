//! What a walk over a document hands to the renderer: paints, clip paths, render targets
//! and an ordered list of things to draw. The walk only ever adds to a scene.

use crate::dom::attrs::FillRule;
use crate::dom::filter::FeColorMatrix;
use crate::dom::gradient::ColorU;
use crate::dom::outline::{ContourModel, Outline};
use crate::draw::draw::{dash_view, PlacedModel, PlacedOutline, StrokeStyle};
use crate::geometry::{Rect2, Transform2, Vector2};
use crate::number::Number;
use vstd::prelude::*;

verus! {

/// The place of a paint in the scene.
#[derive(Clone, Copy, PartialEq, Eq, Structural, Debug)]
pub struct PaintId(pub usize);

/// The place of a clip path in the scene.
#[derive(Clone, Copy, PartialEq, Eq, Structural, Debug)]
pub struct ClipPathId(pub usize);

/// The place of a render target in the scene.
#[derive(Clone, Copy, PartialEq, Eq, Structural, Debug)]
pub struct RenderTargetId(pub usize);

/// A rectangle of whole pixels, as its upper left and lower right corners.
#[derive(Clone, Copy, PartialEq, Eq, Structural, Debug)]
pub struct RectI {
    pub min_x: i64,
    pub min_y: i64,
    pub max_x: i64,
    pub max_y: i64,
}

/// Where the colours of a gradient run.
#[derive(Clone, Copy, PartialEq, Eq, Structural, Debug)]
pub enum GradientGeometry {
    Linear { from: Vector2, to: Vector2 },
    Radial { focus: Vector2, center: Vector2, radius: Number },
}

/// A colour at a place along a gradient.
#[derive(Clone, Copy, PartialEq, Eq, Structural, Debug)]
pub struct ColorStop {
    pub color: ColorU,
    pub offset: Number,
}

/// A gradient, ready to paint with.
#[derive(Clone, Debug)]
pub struct Gradient {
    pub geometry: GradientGeometry,
    pub stops: Vec<ColorStop>,
    pub transform: Transform2,
}

/// A [`Gradient`] as plain values.
pub struct GradientModel {
    pub geometry: GradientGeometry,
    pub stops: Seq<ColorStop>,
    pub transform: Transform2,
}

impl DeepView for Gradient {
    type V = GradientModel;

    open spec fn deep_view(&self) -> GradientModel {
        GradientModel { geometry: self.geometry, stops: self.stops@, transform: self.transform }
    }
}

/// The axis along which a blur runs.
#[derive(Clone, Copy, PartialEq, Eq, Structural, Debug)]
pub enum BlurDirection {
    X,
    Y,
}

/// What is done to the pixels of a render target when it is painted.
#[derive(Clone, Copy, Debug)]
pub enum PatternFilter {
    Blur { direction: BlurDirection, sigma: Number },
    ColorMatrix(FeColorMatrix),
}

/// How a path is put onto what is beneath it.
#[derive(Clone, Copy, PartialEq, Eq, Structural, Debug)]
pub enum BlendMode {
    SrcOver,
    DestIn,
}

/// Something to paint with.
#[derive(Clone, Debug)]
pub enum ScenePaint {
    Color(ColorU),
    Gradient(Gradient),
    /// The pixels of a render target, moved by `transform`.
    Pattern { target: RenderTargetId, transform: Transform2, filter: PatternFilter },
}

/// A [`ScenePaint`] as plain values.
pub enum ScenePaintModel {
    Color(ColorU),
    Gradient(GradientModel),
    Pattern { target: RenderTargetId, transform: Transform2, filter: PatternFilter },
}

impl DeepView for ScenePaint {
    type V = ScenePaintModel;

    open spec fn deep_view(&self) -> ScenePaintModel {
        match *self {
            ScenePaint::Color(c) => ScenePaintModel::Color(c),
            ScenePaint::Gradient(g) => ScenePaintModel::Gradient(g.deep_view()),
            ScenePaint::Pattern { target, transform, filter } => ScenePaintModel::Pattern {
                target,
                transform,
                filter,
            },
        }
    }
}

/// How an outline is turned into a stroke.
#[derive(Clone, Debug)]
pub struct StrokeSpec {
    pub style: StrokeStyle,
    pub dash: Option<Vec<Number>>,
    pub dash_offset: Number,
}

/// A [`StrokeSpec`] as plain values.
pub struct StrokeModel {
    pub style: StrokeStyle,
    pub dash: Option<Seq<Number>>,
    pub dash_offset: Number,
}

/// The view of an optional stroke.
pub open spec fn stroke_view(s: Option<StrokeSpec>) -> Option<StrokeModel> {
    match s {
        Some(s) => Some(
            StrokeModel { style: s.style, dash: dash_view(s.dash), dash_offset: s.dash_offset },
        ),
        None => None,
    }
}

/// One thing to draw: an outline in its place, filled with a paint, or, where `stroke` is
/// set, the stroke along it.
#[derive(Debug)]
pub struct DrawPath {
    pub outline: Outline,
    pub transform: Transform2,
    pub paint: PaintId,
    pub fill_rule: FillRule,
    pub clip_path: Option<ClipPathId>,
    pub blend_mode: BlendMode,
    pub stroke: Option<StrokeSpec>,
}

/// A [`DrawPath`] as plain values.
pub struct DrawPathModel {
    pub contours: Seq<ContourModel>,
    pub transform: Transform2,
    pub paint: PaintId,
    pub fill_rule: FillRule,
    pub clip_path: Option<ClipPathId>,
    pub blend_mode: BlendMode,
    pub stroke: Option<StrokeModel>,
}

impl DeepView for DrawPath {
    type V = DrawPathModel;

    open spec fn deep_view(&self) -> DrawPathModel {
        DrawPathModel {
            contours: self.outline.deep_view(),
            transform: self.transform,
            paint: self.paint,
            fill_rule: self.fill_rule,
            clip_path: self.clip_path,
            blend_mode: self.blend_mode,
            stroke: stroke_view(self.stroke),
        }
    }
}

/// A region outside of which nothing is drawn, inside the region of its parent.
#[derive(Debug)]
pub struct SceneClipPath {
    pub parts: Vec<PlacedOutline>,
    pub fill_rule: FillRule,
    pub parent: Option<ClipPathId>,
}

/// A [`SceneClipPath`] as plain values.
pub struct ClipPathModel {
    pub parts: Seq<PlacedModel>,
    pub fill_rule: FillRule,
    pub parent: Option<ClipPathId>,
}

impl DeepView for SceneClipPath {
    type V = ClipPathModel;

    open spec fn deep_view(&self) -> ClipPathModel {
        ClipPathModel {
            parts: self.parts.deep_view(),
            fill_rule: self.fill_rule,
            parent: self.parent,
        }
    }
}

/// One entry of the list of things to draw.
#[derive(Debug)]
pub enum DisplayItem {
    DrawPath(DrawPath),
    /// What follows is drawn into this render target.
    PushRenderTarget(RenderTargetId),
    /// What follows is drawn where it was drawn before the last push.
    PopRenderTarget,
}

/// A [`DisplayItem`] as plain values.
pub enum DisplayItemModel {
    DrawPath(DrawPathModel),
    PushRenderTarget(RenderTargetId),
    PopRenderTarget,
}

impl DeepView for DisplayItem {
    type V = DisplayItemModel;

    open spec fn deep_view(&self) -> DisplayItemModel {
        match *self {
            DisplayItem::DrawPath(p) => DisplayItemModel::DrawPath(p.deep_view()),
            DisplayItem::PushRenderTarget(id) => DisplayItemModel::PushRenderTarget(id),
            DisplayItem::PopRenderTarget => DisplayItemModel::PopRenderTarget,
        }
    }
}

/// All that a walk has handed over so far.
#[derive(Debug)]
pub struct Scene {
    pub paints: Vec<ScenePaint>,
    pub clip_paths: Vec<SceneClipPath>,
    /// The sizes of the render targets, as rectangles of pixels.
    pub render_targets: Vec<RectI>,
    pub display_list: Vec<DisplayItem>,
    pub view_box: Option<Rect2>,
}

/// A [`Scene`] as plain values.
pub struct SceneModel {
    pub paints: Seq<ScenePaintModel>,
    pub clip_paths: Seq<ClipPathModel>,
    pub render_targets: Seq<RectI>,
    pub display_list: Seq<DisplayItemModel>,
    pub view_box: Option<Rect2>,
}

impl DeepView for Scene {
    type V = SceneModel;

    open spec fn deep_view(&self) -> SceneModel {
        SceneModel {
            paints: self.paints.deep_view(),
            clip_paths: self.clip_paths.deep_view(),
            render_targets: self.render_targets@,
            display_list: self.display_list.deep_view(),
            view_box: self.view_box,
        }
    }
}

impl SceneModel {
    pub open spec fn empty() -> SceneModel {
        SceneModel {
            paints: Seq::empty(),
            clip_paths: Seq::empty(),
            render_targets: Seq::empty(),
            display_list: Seq::empty(),
            view_box: None,
        }
    }

    pub open spec fn push_paint(self, paint: ScenePaintModel) -> SceneModel {
        SceneModel { paints: self.paints.push(paint), ..self }
    }

    pub open spec fn push_clip_path(self, clip: ClipPathModel) -> SceneModel {
        SceneModel { clip_paths: self.clip_paths.push(clip), ..self }
    }

    pub open spec fn push_draw_path(self, path: DrawPathModel) -> SceneModel {
        SceneModel { display_list: self.display_list.push(DisplayItemModel::DrawPath(path)), ..self }
    }

    pub open spec fn push_render_target(self, size: RectI) -> SceneModel {
        SceneModel {
            render_targets: self.render_targets.push(size),
            display_list: self.display_list.push(
                DisplayItemModel::PushRenderTarget(RenderTargetId(self.render_targets.len() as usize)),
            ),
            ..self
        }
    }

    pub open spec fn pop_render_target(self) -> SceneModel {
        SceneModel { display_list: self.display_list.push(DisplayItemModel::PopRenderTarget), ..self }
    }
}

impl Scene {
    /// A scene with nothing in it.
    pub fn new() -> (r: Scene)
        ensures
            r.deep_view() == SceneModel::empty(),
    {
        let r = Scene {
            paints: Vec::new(),
            clip_paths: Vec::new(),
            render_targets: Vec::new(),
            display_list: Vec::new(),
            view_box: None,
        };
        proof {
            assert(r.paints.deep_view() =~= Seq::empty());
            assert(r.clip_paths.deep_view() =~= Seq::empty());
            assert(r.display_list.deep_view() =~= Seq::empty());
        }
        r
    }

    pub fn set_view_box(&mut self, view_box: Rect2)
        ensures
            final(self).deep_view() == (SceneModel {
                view_box: Some(view_box),
                ..old(self).deep_view()
            }),
    {
        self.view_box = Some(view_box);
    }

    /// Adds a paint and tells where it went.
    pub fn push_paint(&mut self, paint: ScenePaint) -> (id: PaintId)
        ensures
            final(self).deep_view() == old(self).deep_view().push_paint(paint.deep_view()),
            id.0 == old(self).paints@.len(),
    {
        let id = PaintId(self.paints.len());
        let ghost before = self.paints.deep_view();
        let ghost model = paint.deep_view();
        self.paints.push(paint);
        proof {
            assert(self.paints.deep_view() =~= before.push(model));
        }
        id
    }

    /// Adds a clip path and tells where it went.
    pub fn push_clip_path(&mut self, clip: SceneClipPath) -> (id: ClipPathId)
        ensures
            final(self).deep_view() == old(self).deep_view().push_clip_path(clip.deep_view()),
            id.0 == old(self).clip_paths@.len(),
    {
        let id = ClipPathId(self.clip_paths.len());
        let ghost before = self.clip_paths.deep_view();
        let ghost model = clip.deep_view();
        self.clip_paths.push(clip);
        proof {
            assert(self.clip_paths.deep_view() =~= before.push(model));
        }
        id
    }

    /// Adds a path to the end of what is drawn.
    pub fn push_draw_path(&mut self, path: DrawPath)
        ensures
            final(self).deep_view() == old(self).deep_view().push_draw_path(path.deep_view()),
    {
        let ghost before = self.display_list.deep_view();
        let ghost model = path.deep_view();
        self.display_list.push(DisplayItem::DrawPath(path));
        proof {
            assert(self.display_list.deep_view() =~= before.push(DisplayItemModel::DrawPath(model)));
        }
    }

    /// Makes a render target of the given size and sends what follows into it.
    pub fn push_render_target(&mut self, size: RectI) -> (id: RenderTargetId)
        ensures
            final(self).deep_view() == old(self).deep_view().push_render_target(size),
            id.0 == old(self).render_targets@.len(),
    {
        let id = RenderTargetId(self.render_targets.len());
        let ghost before = self.display_list.deep_view();
        self.render_targets.push(size);
        self.display_list.push(DisplayItem::PushRenderTarget(id));
        proof {
            assert(self.display_list.deep_view() =~= before.push(
                DisplayItemModel::PushRenderTarget(id),
            ));
        }
        id
    }

    /// Ends what the last push of a render target began.
    pub fn pop_render_target(&mut self)
        ensures
            final(self).deep_view() == old(self).deep_view().pop_render_target(),
    {
        let ghost before = self.display_list.deep_view();
        self.display_list.push(DisplayItem::PopRenderTarget);
        proof {
            assert(self.display_list.deep_view() =~= before.push(DisplayItemModel::PopRenderTarget));
        }
    }
}

} // verus!
