//! Resolving a document at a point in time: the environment that is handed down the tree,
//! the values of animated attributes in it, the bounds of what is drawn, and the drawing
//! itself as a list of commands.

pub mod animate;
pub mod attrs;
pub mod draw;
pub mod ellipse;
pub mod filter;
pub mod g;
pub mod gradient;
pub mod paint;
pub mod path;
pub mod polygon;
pub mod rect;
pub mod scene;
pub mod svg;
pub mod resolve;

use crate::draw::draw::{
    BoundsEnv, BoundsOptions, DrawEnv, DrawOptions, Env, Options, PlacedModel, PlacedOutline,
};
use crate::draw::scene::{Scene, SceneModel};
use crate::geometry::Rect2;
use crate::number::Number;
use vstd::prelude::*;

verus! {

/// The deep view of an optional value.
pub open spec fn option_view<T: DeepView>(o: Option<T>) -> Option<T::V> {
    match o {
        Some(v) => Some(v.deep_view()),
        None => None,
    }
}

/// What can be given a concrete value in an environment.
pub trait Resolve {
    type Output: DeepView;

    /// Whether the value can be resolved in `env`: a percentage needs a view box, and the
    /// units `em`, `ex` and `pc` have no meaning here.
    spec fn resolvable(&self, env: Env) -> bool;

    /// The concrete value in `env`.
    spec fn resolve_spec(&self, env: Env) -> <Self::Output as DeepView>::V;

    fn can_resolve(&self, options: &Options) -> (b: bool)
        ensures
            b == self.resolvable(options.deep_view()),
    ;

    fn resolve(&self, options: &Options) -> (r: Self::Output)
        requires
            self.resolvable(options.deep_view()),
        ensures
            r.deep_view() == self.resolve_spec(options.deep_view()),
    ;

    /// The concrete value, or `None` where there is none.
    fn try_resolve(&self, options: &Options) -> (r: Option<Self::Output>)
        ensures
            option_view(r) == (if self.resolvable(options.deep_view()) {
                Some(self.resolve_spec(options.deep_view()))
            } else {
                None
            }),
    {
        if self.can_resolve(options) {
            Some(self.resolve(options))
        } else {
            None
        }
    }
}

/// What has an outline of its own.
pub trait Shape {
    /// The outline with the transform that places it, seen from the environment `env` of
    /// the parent; `None` where the element has no outline there.
    spec fn outline_spec(&self, env: Env) -> Option<PlacedModel>;

    fn outline(&self, options: &Options) -> (r: Option<PlacedOutline>)
        ensures
            option_view(r) == self.outline_spec(options.deep_view()),
    ;
}

/// What can be measured and drawn.
pub trait DrawItem {
    /// The bounds of what the element draws, seen from the environment `env` of its parent;
    /// `None` where it draws nothing.
    spec fn bounds_spec(&self, env: BoundsEnv) -> Option<Rect2>;

    /// The scene once the element was drawn after what is in `scene`, seen from the
    /// environment `env` of its parent.
    spec fn draw_spec(&self, env: DrawEnv, scene: SceneModel) -> SceneModel;

    /// Hands the element over to the scene.
    fn draw_to(&self, scene: &mut Scene, options: &DrawOptions)
        ensures
            final(scene).deep_view() == self.draw_spec(options.deep_view(), old(scene).deep_view()),
    ;

    fn bounds(&self, options: &BoundsOptions) -> (r: Option<Rect2>)
        ensures
            r == self.bounds_spec(options.deep_view()),
    ;
}

/// The concrete value of `v` in `env`, or `None` where it has none.
pub open spec fn soft<T: Resolve>(v: T, env: Env) -> Option<<T::Output as DeepView>::V> {
    if v.resolvable(env) {
        Some(v.resolve_spec(env))
    } else {
        None
    }
}

/// `Some(x)` where `o` is `Some(Some(x))`.
pub open spec fn flatten<V>(o: Option<Option<V>>) -> Option<V> {
    match o {
        Some(Some(v)) => Some(v),
        _ => None,
    }
}

/// A list of numbers is its own deep view.
pub proof fn lemma_numbers_view(v: Vec<Number>)
    ensures
        v.deep_view() == v@,
{
    assert(v.deep_view() =~= v@) by {
        assert forall|j: int| 0 <= j < v@.len() implies v.deep_view()[j] == v@[j] by {
            assert(v@[j].deep_view() == v@[j]);
        }
    }
}

/// What can be moved part of the way toward another value of its kind.
pub trait Interpolate: Sized + DeepView {
    /// The value the fraction `x` of the way from `a` to `b`.
    spec fn lerp_spec(a: Self::V, b: Self::V, x: Number) -> Self::V;

    /// The fraction `x` of `a`.
    spec fn scale_spec(a: Self::V, x: Number) -> Self::V;

    fn lerp(self, to: Self, x: Number) -> (r: Self)
        ensures
            r.deep_view() == Self::lerp_spec(self.deep_view(), to.deep_view(), x),
    ;

    fn scale(self, x: Number) -> (r: Self)
        ensures
            r.deep_view() == Self::scale_spec(self.deep_view(), x),
    ;
}

/// What can be put on top of another value of its kind.
pub trait Compose: Sized + DeepView {
    /// `b` on top of `a`.
    spec fn compose_spec(a: Self::V, b: Self::V) -> Self::V;

    fn compose(self, rhs: Self) -> (r: Self)
        ensures
            r.deep_view() == Self::compose_spec(self.deep_view(), rhs.deep_view()),
    ;
}

impl<T: Interpolate> Interpolate for Option<T> {
    open spec fn lerp_spec(a: Option<T::V>, b: Option<T::V>, x: Number) -> Option<T::V> {
        match (a, b) {
            (Some(a), Some(b)) => Some(T::lerp_spec(a, b, x)),
            _ => None,
        }
    }

    open spec fn scale_spec(a: Option<T::V>, x: Number) -> Option<T::V> {
        match a {
            Some(a) => Some(T::scale_spec(a, x)),
            None => None,
        }
    }

    fn lerp(self, to: Self, x: Number) -> (r: Self) {
        match (self, to) {
            (Some(a), Some(b)) => Some(a.lerp(b, x)),
            _ => None,
        }
    }

    fn scale(self, x: Number) -> (r: Self) {
        match self {
            Some(a) => Some(a.scale(x)),
            None => None,
        }
    }
}

impl<T: Compose> Compose for Option<T> {
    open spec fn compose_spec(a: Option<T::V>, b: Option<T::V>) -> Option<T::V> {
        match (a, b) {
            (Some(a), Some(b)) => Some(T::compose_spec(a, b)),
            (Some(a), None) => Some(a),
            (None, b) => b,
        }
    }

    fn compose(self, rhs: Self) -> (r: Self) {
        match (self, rhs) {
            (Some(a), Some(b)) => Some(a.compose(b)),
            (Some(a), None) => Some(a),
            (None, b) => b,
        }
    }
}

} // verus!
