//! The paints that `fill` and `stroke` stand for.

use crate::dom::attrs::{Fill, Stroke};
use crate::dom::paint::{Paint, PaintModel};
use crate::draw::Resolve;
use crate::draw::draw::{Env, Options};
use vstd::prelude::*;

verus! {

impl Resolve for Fill {
    type Output = Paint;

    open spec fn resolvable(&self, env: Env) -> bool {
        true
    }

    /// The paint that is set, or else the fill of the environment.
    open spec fn resolve_spec(&self, env: Env) -> PaintModel {
        match self.0 {
            Some(p) => p.deep_view(),
            None => env.fill,
        }
    }

    fn can_resolve(&self, options: &Options) -> (b: bool) {
        true
    }

    fn resolve(&self, options: &Options) -> (r: Paint) {
        match &self.0 {
            Some(p) => p.duplicate(),
            None => options.fill.duplicate(),
        }
    }
}

impl Resolve for Stroke {
    type Output = Paint;

    open spec fn resolvable(&self, env: Env) -> bool {
        true
    }

    /// The paint that is set, or else the stroke of the environment.
    open spec fn resolve_spec(&self, env: Env) -> PaintModel {
        match self.0 {
            Some(p) => p.deep_view(),
            None => env.stroke,
        }
    }

    fn can_resolve(&self, options: &Options) -> (b: bool) {
        true
    }

    fn resolve(&self, options: &Options) -> (r: Paint) {
        match &self.0 {
            Some(p) => p.duplicate(),
            None => options.stroke.duplicate(),
        }
    }
}

} // verus!
