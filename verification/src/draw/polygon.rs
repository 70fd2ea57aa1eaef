//! The outlines and the bounds of `<polygon>`, `<polyline>` and `<line>`.

use crate::dom::outline::{outline_bounds, outline_push, Contour, ContourModel, Outline, Segment};
use crate::dom::polygon::{TagLine, TagPolygon, TagPolyline};
use crate::draw::{option_view, soft, DrawItem, Resolve, Shape};
use crate::draw::draw::{
    BoundsEnv, BoundsOptions, DrawEnv, DrawOptions, Env, Options, PlacedModel, PlacedOutline,
};
use crate::draw::scene::{Scene, SceneModel};
use crate::geometry::{Rect2, Transform2, Vector2};
use vstd::prelude::*;

verus! {

impl Shape for TagPolygon {
    /// The outline with the transform that places it, seen from the environment `env` of
    /// the parent.
    open spec fn outline_spec(&self, env: Env) -> Option<PlacedModel> {
        Some(
            PlacedModel {
                contours: self.outline.deep_view(),
                transform: env.apply(self.attrs).transform,
            },
        )
    }

    fn outline(&self, options: &Options) -> (r: Option<PlacedOutline>) {
        let own = options.apply(&self.attrs);
        Some(PlacedOutline { outline: self.outline.duplicate(), transform: own.transform })
    }
}

impl DrawItem for TagPolygon {
    /// The bounds seen from the environment `env` of the parent: `None` where the polygon
    /// is not displayed or has no point.
    open spec fn bounds_spec(&self, env: BoundsEnv) -> Option<Rect2> {
        if self.attrs.display && self.outline.deep_view().len() > 0 {
            match outline_bounds(self.outline.deep_view(), Transform2::identity_spec()) {
                Some(rect) => env.apply(self.attrs).bounds(rect),
                None => None,
            }
        } else {
            None
        }
    }

    /// The scene once the element was drawn, seen from the environment `env` of the parent.
    /// An element that is not displayed leaves the scene as it is.
    open spec fn draw_spec(&self, env: DrawEnv, scene: SceneModel) -> SceneModel {
        if !self.attrs.display {
            scene
        } else {
            let (own, s) = env.apply(scene, self.attrs);
            own.draw(s, self.outline.deep_view())
        }
    }

    /// Hands the element over to the scene.
    fn draw_to(&self, scene: &mut Scene, options: &DrawOptions) {
        if !self.attrs.display {
            return ;
        }
        let own = options.apply(scene, &self.attrs);
        own.draw(scene, &self.outline);
    }

    fn bounds(&self, options: &BoundsOptions) -> (r: Option<Rect2>) {
        if self.attrs.display && self.outline.len() > 0 {
            match self.outline.bounds(Transform2::identity()) {
                Some(rect) => options.apply(&self.attrs).bounds(rect),
                None => None,
            }
        } else {
            None
        }
    }
}

impl DrawItem for TagPolyline {
    /// The bounds seen from the environment `env` of the parent: `None` where the polyline
    /// is not displayed or has no point.
    open spec fn bounds_spec(&self, env: BoundsEnv) -> Option<Rect2> {
        if self.attrs.display && self.outline.deep_view().len() > 0 {
            match outline_bounds(self.outline.deep_view(), Transform2::identity_spec()) {
                Some(rect) => env.apply(self.attrs).bounds(rect),
                None => None,
            }
        } else {
            None
        }
    }

    /// The scene once the element was drawn, seen from the environment `env` of the parent.
    /// An element that is not displayed leaves the scene as it is.
    open spec fn draw_spec(&self, env: DrawEnv, scene: SceneModel) -> SceneModel {
        if !self.attrs.display {
            scene
        } else {
            let (own, s) = env.apply(scene, self.attrs);
            own.draw(s, self.outline.deep_view())
        }
    }

    /// Hands the element over to the scene.
    fn draw_to(&self, scene: &mut Scene, options: &DrawOptions) {
        if !self.attrs.display {
            return ;
        }
        let own = options.apply(scene, &self.attrs);
        own.draw(scene, &self.outline);
    }

    fn bounds(&self, options: &BoundsOptions) -> (r: Option<Rect2>) {
        if self.attrs.display && self.outline.len() > 0 {
            match self.outline.bounds(Transform2::identity()) {
                Some(rect) => options.apply(&self.attrs).bounds(rect),
                None => None,
            }
        } else {
            None
        }
    }
}

/// The open contour from `p1` to `p2`.
pub open spec fn line_contour(p1: Vector2, p2: Vector2) -> ContourModel {
    ContourModel { segments: seq![Segment::Endpoint(p1), Segment::Endpoint(p2)], closed: false }
}

impl TagLine {
    /// The two ends in the environment `env` of the element itself: `None` where they
    /// cannot be resolved.
    pub open spec fn ends_spec(&self, env: Env) -> Option<(Vector2, Vector2)> {
        match (soft(self.p1, env), soft(self.p2, env)) {
            (Some(p1), Some(p2)) => Some((p1, p2)),
            _ => None,
        }
    }

    /// The outline in the environment `env` of the element itself.
    pub open spec fn local_outline_spec(&self, env: Env) -> Option<Seq<ContourModel>> {
        match self.ends_spec(env) {
            Some((p1, p2)) => Some(outline_push(Seq::empty(), line_contour(p1, p2))),
            None => None,
        }
    }

    pub fn ends(&self, options: &Options) -> (r: Option<(Vector2, Vector2)>)
        ensures
            r == self.ends_spec(options.deep_view()),
    {
        let p1 = self.p1.try_resolve(options);
        let p2 = self.p2.try_resolve(options);
        proof {
            if p1 is Some {
                assert(p1->0.deep_view() == p1->0);
            }
            if p2 is Some {
                assert(p2->0.deep_view() == p2->0);
            }
        }
        match (p1, p2) {
            (Some(p1), Some(p2)) => Some((p1, p2)),
            _ => None,
        }
    }

    /// The outline in the environment of the element itself.
    pub fn local_outline(&self, options: &Options) -> (r: Option<Outline>)
        ensures
            option_view(r) == self.local_outline_spec(options.deep_view()),
    {
        match self.ends(options) {
            Some((p1, p2)) => {
                let mut contour = Contour::new();
                contour.push(Segment::Endpoint(p1));
                contour.push(Segment::Endpoint(p2));
                proof {
                    assert(contour.deep_view().segments =~= line_contour(p1, p2).segments);
                }
                Some(Outline::from_contour(contour))
            },
            None => None,
        }
    }
}

impl DrawItem for TagLine {
    /// The bounds seen from the environment `env` of the parent: what is seen of the
    /// rectangle between the two ends. `None` where the line is not displayed or its ends
    /// cannot be resolved.
    open spec fn bounds_spec(&self, env: BoundsEnv) -> Option<Rect2> {
        if !self.attrs.display {
            None
        } else {
            let own = env.apply(self.attrs);
            match self.ends_spec(own.common) {
                Some((p1, p2)) => own.bounds(Rect2 { min: p1.min_spec(p2), max: p1.max_spec(p2) }),
                None => None,
            }
        }
    }

    /// The scene once the line was drawn, seen from the environment `env` of the parent. A
    /// line that is not displayed, or whose ends cannot be resolved, leaves the scene as it
    /// is.
    open spec fn draw_spec(&self, env: DrawEnv, scene: SceneModel) -> SceneModel {
        if !self.attrs.display {
            scene
        } else {
            let (own, s) = env.apply(scene, self.attrs);
            match self.local_outline_spec(own.common) {
                Some(contours) => own.draw(s, contours),
                None => s,
            }
        }
    }

    /// Hands the line over to the scene.
    fn draw_to(&self, scene: &mut Scene, options: &DrawOptions) {
        if !self.attrs.display {
            return ;
        }
        let own = options.apply(scene, &self.attrs);
        match self.local_outline(&own.common) {
            Some(outline) => {
                own.draw(scene, &outline);
            },
            None => {},
        }
    }

    fn bounds(&self, options: &BoundsOptions) -> (r: Option<Rect2>) {
        if !self.attrs.display {
            return None;
        }
        let own = options.apply(&self.attrs);
        match self.ends(&own.common) {
            Some((p1, p2)) => own.bounds(Rect2::from_points(p1.min(p2), p1.max(p2))),
            None => None,
        }
    }
}

} // verus!
