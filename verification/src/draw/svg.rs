//! Whole documents: their view box, and the scene that drawing them gives.

use crate::dom::Item;
use crate::dom::util::Vector;
use crate::draw::{soft, DrawItem, Resolve};
use crate::draw::draw::{BoundsEnv, BoundsOptions, DrawContext, DrawEnv, DrawOptions, Env};
use crate::draw::g::{draw_item_spec, item_bounds_spec, MAX_USE_DEPTH};
use crate::draw::scene::{Scene, SceneModel};
use crate::geometry::{Rect2, Transform2, Vector2};
use vstd::prelude::*;

verus! {

/// The environment at the root of a walk that finds bounds.
pub open spec fn root_bounds_env(ctx: DrawContext) -> BoundsEnv {
    BoundsEnv { common: Env::root(*ctx.svg, ctx.dpi), clip_rect: None, clipped_out: false }
}

/// The environment at the root of a walk that draws, with the transform `transform`.
pub open spec fn root_draw_env(ctx: DrawContext, transform: Transform2) -> DrawEnv {
    DrawEnv {
        common: Env { transform, ..Env::root(*ctx.svg, ctx.dpi) },
        clip_path: None,
        clipped_out: false,
    }
}

/// The size that the root `<svg>` of the document gives itself: its width and height, or
/// those of its view box where they are not set. `None` where the root has no view box
/// or the size cannot be resolved.
pub open spec fn root_size(ctx: DrawContext) -> Option<Vector2> {
    match *ctx.svg.root {
        Item::Svg(t) => match t.view_box {
            Some(r) => soft(
                Vector(
                    match t.width {
                        Some(w) => w,
                        None => r.width,
                    },
                    match t.height {
                        Some(h) => h,
                        None => r.height,
                    },
                ),
                Env::root(*ctx.svg, ctx.dpi),
            ),
            None => None,
        },
        _ => None,
    }
}

/// The view box of the document: the rectangle of the size of its root at the origin, or
/// else the bounds of what it draws.
pub open spec fn view_box_spec(ctx: DrawContext) -> Option<Rect2> {
    match root_size(ctx) {
        Some(size) => Some(Rect2::new_spec(Vector2::zero_spec(), size)),
        None => item_bounds_spec(*ctx.svg.root, root_bounds_env(ctx), MAX_USE_DEPTH as nat),
    }
}

/// The scene that drawing the document in the environment `env` gives: its view box is
/// `view_box`, mapped by the transform of the environment, where there is one.
pub open spec fn compose_spec(ctx: DrawContext, env: DrawEnv, view_box: Option<Rect2>) -> SceneModel {
    let start = match view_box {
        Some(vb) => SceneModel {
            view_box: Some(env.common.transform.apply_rect_spec(vb)),
            ..SceneModel::empty()
        },
        None => SceneModel::empty(),
    };
    draw_item_spec(*ctx.svg.root, env, start, MAX_USE_DEPTH as nat)
}

impl<'a> DrawContext<'a> {
    /// The view box of the document, found from what it draws where it sets none.
    pub fn view_box(&'a self) -> (r: Option<Rect2>)
        ensures
            r == view_box_spec(*self),
    {
        let options = BoundsOptions::new(self);
        let size = match &*self.svg.root {
            Item::Svg(t) => match &t.view_box {
                Some(r) => Vector(
                    match t.width {
                        Some(w) => w,
                        None => r.width,
                    },
                    match t.height {
                        Some(h) => h,
                        None => r.height,
                    },
                ).try_resolve(&options.common),
                None => None,
            },
            _ => None,
        };
        match size {
            Some(size) => {
                proof {
                    assert(size.deep_view() == size);
                }
                Some(Rect2::new(Vector2::zero(), size))
            },
            None => self.svg.root.bounds(&options),
        }
    }

    /// Draws the document in the environment `options`.
    pub fn compose_with_options(&'a self, options: &DrawOptions) -> (scene: Scene)
        ensures
            scene.deep_view() == compose_spec(*self, options.deep_view(), view_box_spec(*self)),
    {
        let mut scene = Scene::new();
        match self.view_box() {
            Some(vb) => {
                scene.set_view_box(options.common.transform.apply_rect(vb));
            },
            None => {},
        }
        self.svg.root.draw_to(&mut scene, options);
        scene
    }

    /// Draws the document under the transform `transform`.
    pub fn compose_with_transform(&'a self, transform: Transform2) -> (scene: Scene)
        ensures
            scene.deep_view() == compose_spec(
                *self,
                root_draw_env(*self, transform),
                view_box_spec(*self),
            ),
    {
        let mut options = DrawOptions::new(self);
        options.common.set_transform(transform);
        self.compose_with_options(&options)
    }

    /// Draws the document as it is.
    pub fn compose(&'a self) -> (scene: Scene)
        ensures
            scene.deep_view() == compose_spec(
                *self,
                root_draw_env(*self, Transform2::identity_spec()),
                view_box_spec(*self),
            ),
    {
        self.compose_with_transform(Transform2::identity())
    }

    /// Draws the document into a scene with the view box `view_box`.
    pub fn compose_with_viewbox(&'a self, view_box: Rect2) -> (scene: Scene)
        ensures
            scene.deep_view() == compose_spec(
                *self,
                (DrawEnv {
                    common: Env::root(*self.svg, self.dpi),
                    clip_path: None,
                    clipped_out: false,
                }),
                Some(view_box),
            ),
    {
        let options = DrawOptions::new(self);
        let mut scene = Scene::new();
        scene.set_view_box(options.common.transform.apply_rect(view_box));
        self.svg.root.draw_to(&mut scene, &options);
        scene
    }

    /// Draws the document under the transform `transform` into the scene `scene`, after
    /// what is there.
    pub fn compose_to_with_transform(&'a self, scene: &mut Scene, transform: Transform2)
        ensures
            final(scene).deep_view() == draw_item_spec(
                *self.svg.root,
                root_draw_env(*self, transform),
                old(scene).deep_view(),
                MAX_USE_DEPTH as nat,
            ),
    {
        let mut options = DrawOptions::new(self);
        options.common.set_transform(transform);
        self.svg.root.draw_to(scene, &options);
    }
}

} // verus!
