//! The outlines and the bounds of `<ellipse>` and `<circle>`.

use crate::dom::ellipse::{TagCircle, TagEllipse};
use crate::dom::outline::{outline_push, Contour, ContourModel, Outline};
use crate::draw::{soft, DrawItem, Resolve, Shape};
use crate::draw::draw::{
    BoundsEnv, BoundsOptions, DrawEnv, DrawOptions, Env, Options, PlacedModel, PlacedOutline,
};
use crate::draw::scene::{Scene, SceneModel};
use crate::geometry::{Rect2, Vector2};
use crate::number::Number;
use vstd::prelude::*;

verus! {

/// The rectangle around the ellipse with the given centre and radii.
pub open spec fn ellipse_box(center: Vector2, radius: Vector2) -> Rect2 {
    Rect2::new_spec(center.sub_spec(radius), radius.scale_spec(Number::from_int_spec(2)))
}

fn ellipse_box_exec(center: Vector2, radius: Vector2) -> (r: Rect2)
    ensures
        r == ellipse_box(center, radius),
{
    Rect2::new(center.sub(radius), radius.scale(Number::from_int(2)))
}

impl TagEllipse {
    /// The centre and the radii in the environment `env` of the element itself: `None` where
    /// they cannot be resolved and where a radius is zero.
    pub open spec fn shape_spec(&self, env: Env) -> Option<(Vector2, Vector2)> {
        match (soft(self.center, env), soft(self.radius, env)) {
            (Some(center), Some(radius)) => if radius.x.raw == 0 || radius.y.raw == 0 {
                None
            } else {
                Some((center, radius))
            },
            _ => None,
        }
    }

    fn shape(&self, options: &Options) -> (r: Option<(Vector2, Vector2)>)
        ensures
            r == self.shape_spec(options.deep_view()),
    {
        let center = self.center.try_resolve(options);
        let radius = self.radius.try_resolve(options);
        proof {
            if center is Some {
                assert(center->0.deep_view() == center->0);
            }
            if radius is Some {
                assert(radius->0.deep_view() == radius->0);
            }
        }
        match (center, radius) {
            (Some(center), Some(radius)) => {
                if radius.x.is_zero() || radius.y.is_zero() {
                    None
                } else {
                    Some((center, radius))
                }
            },
            _ => None,
        }
    }
}

impl Shape for TagEllipse {
    /// The outline with the transform that places it, seen from the environment `env` of
    /// the parent.
    open spec fn outline_spec(&self, env: Env) -> Option<PlacedModel> {
        if !self.attrs.display {
            None
        } else {
            let own = env.apply(self.attrs);
            match self.shape_spec(own) {
                Some((center, radius)) => Some(
                    PlacedModel {
                        contours: outline_push(Seq::empty(), ContourModel::ellipse(center, radius)),
                        transform: own.transform,
                    },
                ),
                None => None,
            }
        }
    }

    fn outline(&self, options: &Options) -> (r: Option<PlacedOutline>) {
        if !self.attrs.display {
            return None;
        }
        let own = options.apply(&self.attrs);
        match self.shape(&own) {
            Some((center, radius)) => Some(
                PlacedOutline {
                    outline: Outline::from_contour(Contour::ellipse(center, radius)),
                    transform: own.transform,
                },
            ),
            None => None,
        }
    }
}

impl DrawItem for TagEllipse {
    /// The bounds seen from the environment `env` of the parent.
    open spec fn bounds_spec(&self, env: BoundsEnv) -> Option<Rect2> {
        if !self.attrs.display {
            None
        } else {
            let own = env.apply(self.attrs);
            match self.shape_spec(own.common) {
                Some((center, radius)) => own.bounds(ellipse_box(center, radius)),
                None => None,
            }
        }
    }

    /// The scene once the element was drawn, seen from the environment `env` of the parent.
    /// An element that is not displayed, has a radius of zero, or cannot be resolved leaves
    /// the scene as it is.
    open spec fn draw_spec(&self, env: DrawEnv, scene: SceneModel) -> SceneModel {
        if !self.attrs.display {
            scene
        } else {
            let (own, s) = env.apply(scene, self.attrs);
            match self.shape_spec(own.common) {
                Some((center, radius)) => own.draw(
                    s,
                    outline_push(Seq::empty(), ContourModel::ellipse(center, radius)),
                ),
                None => s,
            }
        }
    }

    /// Hands the element over to the scene.
    fn draw_to(&self, scene: &mut Scene, options: &DrawOptions) {
        if !self.attrs.display {
            return ;
        }
        let own = options.apply(scene, &self.attrs);
        match self.shape(&own.common) {
            Some((center, radius)) => {
                let outline = Outline::from_contour(Contour::ellipse(center, radius));
                own.draw(scene, &outline);
            },
            None => {},
        }
    }

    fn bounds(&self, options: &BoundsOptions) -> (r: Option<Rect2>) {
        if !self.attrs.display {
            return None;
        }
        let own = options.apply(&self.attrs);
        match self.shape(&own.common) {
            Some((center, radius)) => own.bounds(ellipse_box_exec(center, radius)),
            None => None,
        }
    }
}

impl TagCircle {
    /// The centre and the radius, along both axes, in the environment `env` of the element
    /// itself: `None` where they cannot be resolved and where the radius is zero.
    pub open spec fn shape_spec(&self, env: Env) -> Option<(Vector2, Vector2)> {
        match (soft(self.center, env), soft(self.radius, env)) {
            (Some(center), Some(radius)) => if radius.raw == 0 {
                None
            } else {
                Some((center, Vector2::splat_spec(radius)))
            },
            _ => None,
        }
    }

    fn shape(&self, options: &Options) -> (r: Option<(Vector2, Vector2)>)
        ensures
            r == self.shape_spec(options.deep_view()),
    {
        let center = self.center.try_resolve(options);
        let radius = self.radius.try_resolve(options);
        proof {
            if center is Some {
                assert(center->0.deep_view() == center->0);
            }
            if radius is Some {
                assert(radius->0.deep_view() == radius->0);
            }
        }
        match (center, radius) {
            (Some(center), Some(radius)) => {
                if radius.is_zero() {
                    None
                } else {
                    Some((center, Vector2::splat(radius)))
                }
            },
            _ => None,
        }
    }
}

impl Shape for TagCircle {
    /// The outline with the transform that places it, seen from the environment `env` of
    /// the parent.
    open spec fn outline_spec(&self, env: Env) -> Option<PlacedModel> {
        if !self.attrs.display {
            None
        } else {
            let own = env.apply(self.attrs);
            match self.shape_spec(own) {
                Some((center, radius)) => Some(
                    PlacedModel {
                        contours: outline_push(Seq::empty(), ContourModel::ellipse(center, radius)),
                        transform: own.transform,
                    },
                ),
                None => None,
            }
        }
    }

    fn outline(&self, options: &Options) -> (r: Option<PlacedOutline>) {
        if !self.attrs.display {
            return None;
        }
        let own = options.apply(&self.attrs);
        match self.shape(&own) {
            Some((center, radius)) => Some(
                PlacedOutline {
                    outline: Outline::from_contour(Contour::ellipse(center, radius)),
                    transform: own.transform,
                },
            ),
            None => None,
        }
    }
}

impl DrawItem for TagCircle {
    /// The bounds seen from the environment `env` of the parent.
    open spec fn bounds_spec(&self, env: BoundsEnv) -> Option<Rect2> {
        if !self.attrs.display {
            None
        } else {
            let own = env.apply(self.attrs);
            match self.shape_spec(own.common) {
                Some((center, radius)) => own.bounds(ellipse_box(center, radius)),
                None => None,
            }
        }
    }

    /// The scene once the element was drawn, seen from the environment `env` of the parent.
    /// An element that is not displayed, has a radius of zero, or cannot be resolved leaves
    /// the scene as it is.
    open spec fn draw_spec(&self, env: DrawEnv, scene: SceneModel) -> SceneModel {
        if !self.attrs.display {
            scene
        } else {
            let (own, s) = env.apply(scene, self.attrs);
            match self.shape_spec(own.common) {
                Some((center, radius)) => own.draw(
                    s,
                    outline_push(Seq::empty(), ContourModel::ellipse(center, radius)),
                ),
                None => s,
            }
        }
    }

    /// Hands the element over to the scene.
    fn draw_to(&self, scene: &mut Scene, options: &DrawOptions) {
        if !self.attrs.display {
            return ;
        }
        let own = options.apply(scene, &self.attrs);
        match self.shape(&own.common) {
            Some((center, radius)) => {
                let outline = Outline::from_contour(Contour::ellipse(center, radius));
                own.draw(scene, &outline);
            },
            None => {},
        }
    }

    fn bounds(&self, options: &BoundsOptions) -> (r: Option<Rect2>) {
        if !self.attrs.display {
            return None;
        }
        let own = options.apply(&self.attrs);
        match self.shape(&own.common) {
            Some((center, radius)) => own.bounds(ellipse_box_exec(center, radius)),
            None => None,
        }
    }
}

} // verus!
