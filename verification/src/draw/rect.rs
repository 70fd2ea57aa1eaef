//! The outline and the bounds of a `<rect>`.

use crate::dom::outline::{outline_push, Contour, ContourModel, Outline};
use crate::dom::rect::TagRect;
use crate::draw::{flatten, soft, DrawItem, Resolve, Shape};
use crate::draw::draw::{
    soft_option, BoundsEnv, BoundsOptions, DrawEnv, DrawOptions, Env, Options, PlacedModel,
    PlacedOutline,
};
use crate::draw::scene::{Scene, SceneModel};
use crate::geometry::{Rect2, Vector2};
use vstd::prelude::*;

verus! {

/// The contour of the rectangle `rect` with corners rounded by the radii that are set: where
/// only one is set, it holds along both axes.
pub open spec fn rect_contour(rect: Rect2, rx: Option<crate::number::Number>, ry: Option<
    crate::number::Number,
>) -> ContourModel {
    match (rx, ry) {
        (Some(x), Some(y)) => ContourModel::from_rect_rounded(rect, Vector2 { x, y }),
        (Some(r), None) => ContourModel::from_rect_rounded(rect, Vector2 { x: r, y: r }),
        (None, Some(r)) => ContourModel::from_rect_rounded(rect, Vector2 { x: r, y: r }),
        (None, None) => ContourModel::from_rect(rect),
    }
}

impl TagRect {
    /// The rectangle in the environment `env` of the element itself: `None` where it is
    /// not displayed, where its place or size cannot be resolved, and where it has no area.
    pub open spec fn rect_spec(&self, env: Env) -> Option<Rect2> {
        if !self.attrs.display {
            None
        } else {
            match soft(self.size, env) {
                None => None,
                Some(size) => if size.x.raw == 0 || size.y.raw == 0 {
                    None
                } else {
                    match soft(self.pos, env) {
                        None => None,
                        Some(origin) => Some(Rect2::new_spec(origin, size)),
                    }
                },
            }
        }
    }

    /// The outline in the environment `env` of the element itself.
    pub open spec fn local_outline_spec(&self, env: Env) -> Option<Seq<ContourModel>> {
        match self.rect_spec(env) {
            None => None,
            Some(rect) => Some(
                outline_push(
                    Seq::empty(),
                    rect_contour(rect, flatten(soft(self.rx, env)), flatten(soft(self.ry, env))),
                ),
            ),
        }
    }

    fn rect(&self, options: &Options) -> (r: Option<Rect2>)
        ensures
            r == self.rect_spec(options.deep_view()),
    {
        if !self.attrs.display {
            return None;
        }
        let size = match self.size.try_resolve(options) {
            Some(size) => size,
            None => {
                return None;
            },
        };
        proof {
            assert(size.deep_view() == size);
        }
        if size.x.is_zero() || size.y.is_zero() {
            return None;
        }
        let origin = match self.pos.try_resolve(options) {
            Some(origin) => origin,
            None => {
                return None;
            },
        };
        proof {
            assert(origin.deep_view() == origin);
        }
        Some(Rect2::new(origin, size))
    }

    /// The outline in the environment of the element itself.
    pub fn local_outline(&self, options: &Options) -> (r: Option<Outline>)
        ensures
            crate::draw::option_view(r) == self.local_outline_spec(options.deep_view()),
    {
        let rect = match self.rect(options) {
            Some(rect) => rect,
            None => {
                return None;
            },
        };
        let rx = soft_option(&self.rx, options);
        let ry = soft_option(&self.ry, options);
        proof {
            if rx is Some {
                assert(rx->0.deep_view() == rx->0);
            }
            if ry is Some {
                assert(ry->0.deep_view() == ry->0);
            }
        }
        let contour = match (rx, ry) {
            (Some(x), Some(y)) => Contour::from_rect_rounded(rect, Vector2 { x, y }),
            (Some(r), None) => Contour::from_rect_rounded(rect, Vector2 { x: r, y: r }),
            (None, Some(r)) => Contour::from_rect_rounded(rect, Vector2 { x: r, y: r }),
            (None, None) => Contour::from_rect(rect),
        };
        Some(Outline::from_contour(contour))
    }
}

impl Shape for TagRect {
    /// The outline with the transform that places it, seen from the environment `env` of
    /// the parent.
    open spec fn outline_spec(&self, env: Env) -> Option<PlacedModel> {
        let own = env.apply(self.attrs);
        match self.local_outline_spec(own) {
            Some(contours) => Some(PlacedModel { contours, transform: own.transform }),
            None => None,
        }
    }

    /// The outline with the transform that places it.
    fn outline(&self, options: &Options) -> (r: Option<PlacedOutline>) {
        let own = options.apply(&self.attrs);
        match self.local_outline(&own) {
            Some(outline) => Some(PlacedOutline { outline, transform: own.transform }),
            None => None,
        }
    }
}

impl DrawItem for TagRect {
    /// The bounds seen from the environment `env` of the parent.
    open spec fn bounds_spec(&self, env: BoundsEnv) -> Option<Rect2> {
        if !self.attrs.display {
            None
        } else {
            let own = env.apply(self.attrs);
            match self.rect_spec(own.common) {
                Some(rect) => own.bounds(rect),
                None => None,
            }
        }
    }

    /// The scene once the rectangle was drawn, seen from the environment `env` of the
    /// parent. A rectangle that is not displayed, has no area, or cannot be resolved leaves
    /// the scene as it is.
    open spec fn draw_spec(&self, env: DrawEnv, scene: SceneModel) -> SceneModel {
        if !self.attrs.display {
            scene
        } else {
            let (own, s) = env.apply(scene, self.attrs);
            match self.local_outline_spec(own.common) {
                Some(contours) => own.draw(s, contours),
                None => s,
            }
        }
    }

    /// Hands the rectangle over to the scene.
    fn draw_to(&self, scene: &mut Scene, options: &DrawOptions) {
        if !self.attrs.display {
            return ;
        }
        let own = options.apply(scene, &self.attrs);
        match self.local_outline(&own.common) {
            Some(outline) => {
                own.draw(scene, &outline);
            },
            None => {},
        }
    }

    /// The bounds of the rectangle as it is drawn.
    fn bounds(&self, options: &BoundsOptions) -> (r: Option<Rect2>) {
        if !self.attrs.display {
            return None;
        }
        let own = options.apply(&self.attrs);
        match self.rect(&own.common) {
            Some(rect) => own.bounds(rect),
            None => None,
        }
    }
}

} // verus!
