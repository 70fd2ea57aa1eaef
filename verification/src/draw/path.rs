//! The outline and the bounds of a `<path>`, and the outline of a `<clipPath>`.

use crate::dom::Item;
use crate::dom::path::{TagClipPath, TagPath};
use crate::draw::{DrawItem, Resolve, Shape};
use crate::draw::draw::{
    BoundsEnv, BoundsOptions, DrawEnv, DrawOptions, Env, Options, PlacedModel, PlacedOutline,
};
use crate::draw::scene::{Scene, SceneModel};
use crate::geometry::{Rect2, Transform2};
use vstd::prelude::*;

verus! {

impl Shape for TagPath {
    /// The outline with the transform that places it, seen from the environment `env` of the
    /// parent.
    open spec fn outline_spec(&self, env: Env) -> Option<PlacedModel> {
        Some(
            PlacedModel {
                contours: self.outline.deep_view(),
                transform: env.apply(self.attrs).transform,
            },
        )
    }

    fn outline(&self, options: &Options) -> (r: Option<PlacedOutline>) {
        let own = options.apply(&self.attrs);
        Some(PlacedOutline { outline: self.outline.duplicate(), transform: own.transform })
    }
}

impl DrawItem for TagPath {
    /// The bounds seen from the environment `env` of the parent: `None` where the path is
    /// not displayed or has no contour.
    open spec fn bounds_spec(&self, env: BoundsEnv) -> Option<Rect2> {
        if self.attrs.display && self.outline.deep_view().len() > 0 {
            match crate::dom::outline::outline_bounds(
                self.outline.deep_view(),
                Transform2::identity_spec(),
            ) {
                Some(rect) => env.apply(self.attrs).bounds(rect),
                None => None,
            }
        } else {
            None
        }
    }

    /// The scene once the path was drawn, seen from the environment `env` of the parent.
    /// A path that is not displayed leaves the scene as it is.
    open spec fn draw_spec(&self, env: DrawEnv, scene: SceneModel) -> SceneModel {
        if !self.attrs.display {
            scene
        } else {
            let (own, s) = env.apply(scene, self.attrs);
            own.draw(s, self.outline.deep_view())
        }
    }

    /// Hands the path over to the scene.
    fn draw_to(&self, scene: &mut Scene, options: &DrawOptions) {
        if !self.attrs.display {
            return ;
        }
        let own = options.apply(scene, &self.attrs);
        own.draw(scene, &self.outline);
    }

    fn bounds(&self, options: &BoundsOptions) -> (r: Option<Rect2>) {
        if self.attrs.display && self.outline.len() > 0 {
            match self.outline.bounds(Transform2::identity()) {
                Some(rect) => options.apply(&self.attrs).bounds(rect),
                None => None,
            }
        } else {
            None
        }
    }
}

/// The outline of one element of a clip path: paths, rectangles, circles and polygons
/// count, everything else adds nothing.
pub open spec fn clip_part(item: Item, env: Env) -> Option<PlacedModel> {
    match item {
        Item::Path(t) => t.outline_spec(env),
        Item::Rect(t) => t.outline_spec(env),
        Item::Circle(t) => t.outline_spec(env),
        Item::Polygon(t) => t.outline_spec(env),
        _ => None,
    }
}

/// The outlines of the first `n` of `items`, in order.
pub open spec fn clip_parts(items: Seq<Item>, env: Env, n: nat) -> Seq<PlacedModel>
    decreases n,
{
    if n == 0 || n > items.len() {
        Seq::empty()
    } else {
        let before = clip_parts(items, env, (n - 1) as nat);
        match clip_part(items[n - 1], env) {
            Some(p) => before.push(p),
            None => before,
        }
    }
}

impl Resolve for TagClipPath {
    type Output = Vec<PlacedOutline>;

    /// A clip path can always be resolved: an element of it that has no outline adds
    /// nothing.
    open spec fn resolvable(&self, env: Env) -> bool {
        true
    }

    /// The outlines of the elements of the clip path, each in its place.
    open spec fn resolve_spec(&self, env: Env) -> Seq<PlacedModel> {
        clip_parts(self.items@, env, self.items@.len())
    }

    fn can_resolve(&self, options: &Options) -> (b: bool) {
        true
    }

    fn resolve(&self, options: &Options) -> (r: Vec<PlacedOutline>) {
        let mut parts: Vec<PlacedOutline> = Vec::new();
        let mut i: usize = 0;
        proof {
            assert(parts.deep_view() =~= Seq::<PlacedModel>::empty());
        }
        while i < self.items.len()
            invariant
                i <= self.items@.len(),
                parts.deep_view() == clip_parts(self.items@, options.deep_view(), i as nat),
            decreases self.items@.len() - i,
        {
            let part = match &self.items[i] {
                Item::Path(t) => t.outline(options),
                Item::Rect(t) => t.outline(options),
                Item::Circle(t) => t.outline(options),
                Item::Polygon(t) => t.outline(options),
                _ => None,
            };
            match part {
                Some(p) => {
                    let ghost before = parts.deep_view();
                    let ghost model = p.deep_view();
                    parts.push(p);
                    proof {
                        assert(parts.deep_view() =~= before.push(model));
                    }
                },
                None => {},
            }
            i = i + 1;
        }
        parts
    }
}

} // verus!
