//! The walk that finds the bounds of what a document draws.

use crate::dom::{children_of, Item};
use crate::dom::attrs::Attrs;
use crate::dom::filter::Filter;
use crate::dom::g::{TagG, TagUse};
use crate::dom::svg::{Svg, TagSvg};
use crate::dom::text::TagText;
use crate::dom::util::Iri;
use crate::draw::{soft, DrawItem, Resolve};
use crate::draw::draw::{
    href_target, BoundsEnv, BoundsOptions, DrawContext, DrawEnv, DrawOptions, Env, Options,
};
use crate::draw::filter::{post_spec, pre_spec, shifted, FilterState};
use crate::draw::scene::{Scene, SceneModel};
use crate::geometry::{Rect2, Transform2};
use std::sync::Arc;
use vstd::prelude::*;

verus! {

/// How many references from `<use>` elements a walk follows one inside the other. What lies
/// deeper is left out, so that a document whose references go in a circle cannot hold a
/// walk forever.
pub const MAX_USE_DEPTH: usize = 16;

/// The smallest rectangle that holds both, where there are two.
pub open spec fn union_bounds(a: Option<Rect2>, b: Option<Rect2>) -> Option<Rect2> {
    match (a, b) {
        (Some(a), Some(b)) => Some(a.union_spec(b)),
        (Some(a), None) => Some(a),
        (None, b) => b,
    }
}

fn union(a: Option<Rect2>, b: Option<Rect2>) -> (r: Option<Rect2>)
    ensures
        r == union_bounds(a, b),
{
    match (a, b) {
        (Some(a), Some(b)) => Some(a.union_rect(b)),
        (Some(a), None) => Some(a),
        (None, b) => b,
    }
}

/// The smallest rectangle that holds all of the first `n` of `rects`; `None` where there is
/// none.
pub open spec fn max_bounds_spec(rects: Seq<Rect2>, n: nat) -> Option<Rect2>
    decreases n,
{
    if n == 0 || n > rects.len() {
        None
    } else {
        union_bounds(max_bounds_spec(rects, (n - 1) as nat), Some(rects[n - 1]))
    }
}

/// The smallest rectangle that holds all of `rects`; `None` where there is none.
pub fn max_bounds(rects: &[Rect2]) -> (r: Option<Rect2>)
    ensures
        r == max_bounds_spec(rects@, rects@.len()),
{
    let mut out: Option<Rect2> = None;
    let mut i: usize = 0;
    while i < rects.len()
        invariant
            i <= rects@.len(),
            out == max_bounds_spec(rects@, i as nat),
        decreases rects@.len() - i,
    {
        out = union(out, Some(rects[i]));
        i = i + 1;
    }
    out
}

/// The environment for what a `<use>` refers to: moved to the place of the `<use>`, and,
/// where the target is a `<symbol>` or an `<svg>` with a view box, fitted into the width and
/// height of the `<use>`. `None` where the place cannot be resolved.
#[verifier::opaque]
pub open spec fn content_env(tag: TagUse, env: Env, target: Item) -> Option<Env> {
    match soft(tag.pos, env) {
        None => None,
        Some(pos) => {
            let moved = Env {
                transform: env.transform.compose_spec(Transform2::from_translation_spec(pos)),
                ..env
            };
            Some(
                match target {
                    Item::Symbol(t) => match t.view_box {
                        Some(view_box) => moved.apply_viewbox(tag.width, tag.height, view_box),
                        None => moved,
                    },
                    Item::Svg(t) => match t.view_box {
                        Some(view_box) => moved.apply_viewbox(tag.width, tag.height, view_box),
                        None => moved,
                    },
                    _ => moved,
                },
            )
        },
    }
}

/// Moves `options` into the place of the `<use>` element `tag`, for its target `item`.
/// Gives `false`, and leaves `options` as they are, where the place cannot be resolved.
pub fn content_transform<'a>(tag: &TagUse, options: &mut Options<'a>, item: &Item) -> (ok: bool)
    ensures
        final(options).ctx == old(options).ctx,
        match content_env(*tag, old(options).deep_view(), *item) {
            Some(env) => ok && final(options).deep_view() == env,
            None => !ok && final(options).deep_view() == old(options).deep_view(),
        },
{
    reveal(content_env);
    let pos = match tag.pos.try_resolve(options) {
        Some(pos) => pos,
        None => {
            return false;
        },
    };
    proof {
        assert(pos.deep_view() == pos);
    }
    options.apply_transform(Transform2::from_translation(pos));
    match item {
        Item::Symbol(t) => match &t.view_box {
            Some(view_box) => {
                options.apply_viewbox(tag.width, tag.height, view_box);
            },
            None => {},
        },
        Item::Svg(t) => match &t.view_box {
            Some(view_box) => {
                options.apply_viewbox(tag.width, tag.height, view_box);
            },
            None => {},
        },
        _ => {},
    }
    true
}

/// The bounds of what `item` draws, seen from the environment `env` of its parent, with
/// `budget` references from `<use>` elements left to follow.
///
/// A shape has the bounds that its own `bounds_spec` gives. A group that is displayed has
/// the union of the bounds of its elements in its own environment. An `<svg>` has its view
/// box where it has one that can be resolved, and else the union of the bounds of its
/// elements. A `<use>` that is displayed has the bounds of its target in the environment
/// that [`content_env`] gives. Everything else has none.
pub open spec fn item_bounds_spec(item: Item, env: BoundsEnv, budget: nat) -> Option<Rect2>
    decreases budget, item, 1nat,
{
    match item {
        Item::Path(t) => t.bounds_spec(env),
        Item::Rect(t) => t.bounds_spec(env),
        Item::Polygon(t) => t.bounds_spec(env),
        Item::Polyline(t) => t.bounds_spec(env),
        Item::Line(t) => t.bounds_spec(env),
        Item::Ellipse(t) => t.bounds_spec(env),
        Item::Circle(t) => t.bounds_spec(env),
        Item::G(t) => if !t.attrs.display {
            None
        } else {
            list_bounds_spec(t.items@, env.apply(t.attrs), budget, t.items@.len())
        },
        Item::Svg(t) => {
            let view = match t.view_box {
                Some(view_box) => soft(view_box, env.common),
                None => None,
            };
            match view {
                Some(rect) => Some(rect),
                None => list_bounds_spec(t.items@, env, budget, t.items@.len()),
            }
        },
        Item::Use(t) => if !t.attrs.display {
            None
        } else {
            let own = env.apply(t.attrs);
            match use_target(t, own.common) {
                Some(target) => match content_env(t, own.common, *target) {
                    Some(inner) => if budget == 0 {
                        None
                    } else {
                        item_bounds_spec(
                            *target,
                            BoundsEnv { common: inner, ..own },
                            (budget - 1) as nat,
                        )
                    },
                    None => None,
                },
                None => None,
            }
        },
        _ => None,
    }
}

/// The union of the bounds of the first `n` of `items`, each seen from `env`.
pub open spec fn list_bounds_spec(items: Seq<Arc<Item>>, env: BoundsEnv, budget: nat, n: nat) -> Option<
    Rect2,
>
    decreases budget, items, n,
{
    if n == 0 || n > items.len() {
        None
    } else {
        union_bounds(
            list_bounds_spec(items, env, budget, (n - 1) as nat),
            item_bounds_spec(*items[n - 1], env, budget),
        )
    }
}

/// The element that a `<use>` refers to, if it refers to one of the document.
pub open spec fn use_target(tag: TagUse, env: Env) -> Option<Arc<Item>> {
    match tag.href {
        Some(href) => href_target(env.svg, href@),
        None => None,
    }
}

/// The element that a `<use>` refers to.
pub fn find_use_target<'a>(tag: &TagUse, options: &Options<'a>) -> (r: Option<&'a Arc<Item>>)
    ensures
        r == match use_target(*tag, options.deep_view()) {
            Some(item) => Some(&item),
            None => None,
        },
{
    match &tag.href {
        Some(href) => options.ctx.resolve_href(href.as_str()),
        None => None,
    }
}

proof fn lemma_child_below(parent: Item, i: int)
    requires
        0 <= i < children_of(parent).len(),
    ensures
        decreases_to!(parent => children_of(parent)[i]),
{
    match parent {
        Item::G(t) => {
            assert(decreases_to!(t.items => t.items@[i]));
        },
        Item::Defs(t) => {
            assert(decreases_to!(t.items => t.items@[i]));
        },
        Item::Svg(t) => {
            assert(decreases_to!(t.items => t.items@[i]));
        },
        Item::Symbol(t) => {
            assert(decreases_to!(t.items => t.items@[i]));
        },
        Item::Text(t) => {
            assert(decreases_to!(t.items => t.items@[i]));
        },
        Item::TSpan(t) => {
            assert(decreases_to!(t.items => t.items@[i]));
        },
        _ => {},
    }
}

fn children_bounds(
    Ghost(parent): Ghost<Item>,
    items: &Vec<Arc<Item>>,
    options: &BoundsOptions,
    budget: usize,
) -> (r: Option<Rect2>)
    requires
        items@ == children_of(parent),
    ensures
        r == list_bounds_spec(items@, options.deep_view(), budget as nat, items@.len()),
    decreases budget, parent, 0nat,
{
    let mut out: Option<Rect2> = None;
    let mut i: usize = 0;
    while i < items.len()
        invariant
            i <= items@.len(),
            items@ == children_of(parent),
            out == list_bounds_spec(items@, options.deep_view(), budget as nat, i as nat),
        decreases items@.len() - i,
    {
        proof {
            lemma_child_below(parent, i as int);
        }
        let b = item_bounds(&items[i], options, budget);
        out = union(out, b);
        i = i + 1;
    }
    out
}

fn use_bounds(t: &TagUse, options: &BoundsOptions, budget: usize) -> (r: Option<Rect2>)
    ensures
        r == item_bounds_spec(Item::Use(*t), options.deep_view(), budget as nat),
    decreases budget, Item::Use(*t), 0nat,
{
    if !t.attrs.display {
        return None;
    }
    let mut own = options.apply(&t.attrs);
    let target = match find_use_target(t, &own.common) {
        Some(target) => target,
        None => {
            return None;
        },
    };
    if !content_transform(t, &mut own.common, target) {
        return None;
    }
    if budget == 0 {
        None
    } else {
        item_bounds(target, &own, budget - 1)
    }
}

fn svg_bounds(t: &TagSvg, options: &BoundsOptions, budget: usize) -> (r: Option<Rect2>)
    ensures
        r == item_bounds_spec(Item::Svg(*t), options.deep_view(), budget as nat),
    decreases budget, Item::Svg(*t), 1nat,
{
    let view = match &t.view_box {
        Some(view_box) => view_box.try_resolve(&options.common),
        None => None,
    };
    match view {
        Some(rect) => {
            proof {
                assert(rect.deep_view() == rect);
            }
            Some(rect)
        },
        None => children_bounds(Ghost(Item::Svg(*t)), &t.items, options, budget),
    }
}

/// The bounds of what `item` draws, with `budget` references from `<use>` elements left to
/// follow.
pub fn item_bounds(item: &Item, options: &BoundsOptions, budget: usize) -> (r: Option<Rect2>)
    ensures
        r == item_bounds_spec(*item, options.deep_view(), budget as nat),
    decreases budget, *item, 2nat,
{
    match item {
        Item::Path(t) => t.bounds(options),
        Item::Rect(t) => t.bounds(options),
        Item::Polygon(t) => t.bounds(options),
        Item::Polyline(t) => t.bounds(options),
        Item::Line(t) => t.bounds(options),
        Item::Ellipse(t) => t.bounds(options),
        Item::Circle(t) => t.bounds(options),
        Item::G(t) => {
            if !t.attrs.display {
                None
            } else {
                let own = options.apply(&t.attrs);
                children_bounds(Ghost(*item), &t.items, &own, budget)
            }
        },
        Item::Svg(t) => svg_bounds(t, options, budget),
        Item::Use(t) => use_bounds(t, options, budget),
        _ => None,
    }
}

/// An element that is not displayed has no bounds, whatever is beneath it.
pub proof fn lemma_hidden_group_has_no_bounds(item: Item, env: BoundsEnv, budget: nat)
    requires
        match item {
            Item::G(t) => !t.attrs.display,
            Item::Use(t) => !t.attrs.display,
            Item::Path(t) => !t.attrs.display,
            Item::Rect(t) => !t.attrs.display,
            Item::Circle(t) => !t.attrs.display,
            Item::Ellipse(t) => !t.attrs.display,
            Item::Line(t) => !t.attrs.display,
            Item::Polygon(t) => !t.attrs.display,
            Item::Polyline(t) => !t.attrs.display,
            _ => false,
        },
    ensures
        item_bounds_spec(item, env, budget) is None,
{
}

/// The first primitive of the filter that `filter` names in `svg`, if it names a filter that
/// has one.
pub open spec fn filter_target(svg: Svg, filter: Option<Iri>) -> Option<Filter> {
    match filter {
        Some(iri) => match svg.named_items.lookup(iri.0@) {
            Some(item) => match *item {
                Item::Filter(f) => if f.filters@.len() > 0 {
                    Some(f.filters@[0])
                } else {
                    None
                },
                _ => None,
            },
            None => None,
        },
        None => None,
    }
}

/// The first primitive of the filter that the attribute names.
pub fn find_filter<'a>(ctx: &'a DrawContext<'a>, filter: &Option<Iri>) -> (r: Option<Filter>)
    ensures
        r == filter_target(*ctx.svg, *filter),
{
    match filter {
        Some(iri) => match ctx.resolve(iri.0.as_str()) {
            Some(item) => match &**item {
                Item::Filter(f) => {
                    if f.filters.len() > 0 {
                        Some(f.filters[0])
                    } else {
                        None
                    }
                },
                _ => None,
            },
            None => None,
        },
        None => None,
    }
}

/// The scene once `item` was drawn, seen from the environment `env` of its parent, with
/// `budget` references from `<use>` elements left to follow.
///
/// A shape is drawn as its own `draw_spec` says. A group is drawn as [`draw_items_spec`]
/// says. An `<svg>` draws its elements in its own environment, inside its view box where it
/// has one. A `<use>` that is displayed draws its target in the environment that
/// [`content_env`] gives: the elements of a `<symbol>`, an `<svg>` or a group under the
/// attributes of that target, any other element as itself. Everything else draws nothing.
pub open spec fn draw_item_spec(item: Item, env: DrawEnv, scene: SceneModel, budget: nat) -> SceneModel
    decreases budget, item, 2nat,
{
    match item {
        Item::Path(t) => t.draw_spec(env, scene),
        Item::Rect(t) => t.draw_spec(env, scene),
        Item::Polygon(t) => t.draw_spec(env, scene),
        Item::Polyline(t) => t.draw_spec(env, scene),
        Item::Line(t) => t.draw_spec(env, scene),
        Item::Ellipse(t) => t.draw_spec(env, scene),
        Item::Circle(t) => t.draw_spec(env, scene),
        Item::G(t) => draw_items_spec(t.items@, t.attrs, env, scene, budget),
        Item::Svg(t) => {
            let (own, s) = env.apply(scene, t.attrs);
            let inner = match t.view_box {
                Some(view_box) => DrawEnv {
                    common: own.common.apply_viewbox(t.width, t.height, view_box),
                    ..own
                },
                None => own,
            };
            draw_list_spec(t.items@, inner, s, budget, t.items@.len())
        },
        Item::Use(t) => if !t.attrs.display {
            scene
        } else {
            let (own, s) = env.apply(scene, t.attrs);
            match use_target(t, own.common) {
                None => s,
                Some(target) => match content_env(t, own.common, *target) {
                    None => s,
                    Some(inner) => if budget == 0 {
                        s
                    } else {
                        let e = DrawEnv { common: inner, ..own };
                        match *target {
                            Item::Symbol(x) => draw_items_spec(
                                x.items@,
                                x.attrs,
                                e,
                                s,
                                (budget - 1) as nat,
                            ),
                            Item::Svg(x) => draw_items_spec(
                                x.items@,
                                x.attrs,
                                e,
                                s,
                                (budget - 1) as nat,
                            ),
                            Item::G(x) => draw_items_spec(
                                x.items@,
                                x.attrs,
                                e,
                                s,
                                (budget - 1) as nat,
                            ),
                            _ => draw_item_spec(*target, e, s, (budget - 1) as nat),
                        }
                    },
                },
            }
        },
        _ => scene,
    }
}

/// The scene once the first `n` of `items` were drawn in order, each seen from `env`.
pub open spec fn draw_list_spec(
    items: Seq<Arc<Item>>,
    env: DrawEnv,
    scene: SceneModel,
    budget: nat,
    n: nat,
) -> SceneModel
    decreases budget, items, n,
{
    if n == 0 || n > items.len() {
        scene
    } else {
        draw_item_spec(
            *items[n - 1],
            env,
            draw_list_spec(items, env, scene, budget, (n - 1) as nat),
            budget,
        )
    }
}

/// The scene once the elements `items` of a group with the attributes `attrs` were drawn.
///
/// A group that is not displayed draws nothing. Where the group names a filter with a
/// primitive, its elements are drawn between the opening and the closing of that filter,
/// into the render targets of the filter; the filter is closed whatever was drawn. A group
/// under a filter whose elements have no bounds draws nothing.
pub open spec fn draw_items_spec(
    items: Seq<Arc<Item>>,
    attrs: Attrs,
    env: DrawEnv,
    scene: SceneModel,
    budget: nat,
) -> SceneModel
    decreases budget, items, items.len() + 1,
{
    if !attrs.display {
        scene
    } else {
        let (own, s) = env.apply(scene, attrs);
        match attrs.filter {
            Some(_) => match list_bounds_spec(items, own.bounds_env(), budget, items.len()) {
                None => s,
                Some(bounds) => match filter_target(env.common.svg, attrs.filter) {
                    Some(first) => {
                        let (state, opened) = pre_spec(first, s, bounds, own);
                        post_spec(
                            state,
                            draw_list_spec(
                                items,
                                shifted(own, state.bounds_spec()),
                                opened,
                                budget,
                                items.len(),
                            ),
                        )
                    },
                    None => draw_list_spec(items, own, s, budget, items.len()),
                },
            },
            None => draw_list_spec(items, own, s, budget, items.len()),
        }
    }
}

fn draw_children(
    Ghost(parent): Ghost<Item>,
    items: &Vec<Arc<Item>>,
    scene: &mut Scene,
    options: &DrawOptions,
    budget: usize,
)
    requires
        items@ == children_of(parent),
    ensures
        final(scene).deep_view() == draw_list_spec(
            items@,
            options.deep_view(),
            old(scene).deep_view(),
            budget as nat,
            items@.len(),
        ),
    decreases budget, parent, 0nat,
{
    let mut i: usize = 0;
    while i < items.len()
        invariant
            i <= items@.len(),
            items@ == children_of(parent),
            scene.deep_view() == draw_list_spec(
                items@,
                options.deep_view(),
                old(scene).deep_view(),
                budget as nat,
                i as nat,
            ),
        decreases items@.len() - i,
    {
        proof {
            lemma_child_below(parent, i as int);
        }
        draw_item(&items[i], scene, options, budget);
        i = i + 1;
    }
}

fn draw_items(
    Ghost(parent): Ghost<Item>,
    items: &Vec<Arc<Item>>,
    attrs: &Attrs,
    scene: &mut Scene,
    options: &DrawOptions,
    budget: usize,
)
    requires
        items@ == children_of(parent),
    ensures
        final(scene).deep_view() == draw_items_spec(
            items@,
            *attrs,
            options.deep_view(),
            old(scene).deep_view(),
            budget as nat,
        ),
    decreases budget, parent, 1nat,
{
    if !attrs.display {
        return ;
    }
    let own = options.apply(scene, attrs);
    if attrs.filter.is_some() {
        let bounds_options = own.bounds_options();
        let bounds = match children_bounds(Ghost(parent), items, &bounds_options, budget) {
            Some(bounds) => bounds,
            None => {
                return ;
            },
        };
        match find_filter(options.common.ctx, &attrs.filter) {
            Some(first) => {
                let mut inner = DrawOptions {
                    common: own.common.duplicate(),
                    clip_path: own.clip_path,
                    clipped_out: own.clipped_out,
                };
                let state = FilterState::pre(&first, scene, bounds, &mut inner);
                draw_children(Ghost(parent), items, scene, &inner, budget);
                state.post(scene);
                return ;
            },
            None => {},
        }
    }
    draw_children(Ghost(parent), items, scene, &own, budget);
}

fn draw_svg(t: &TagSvg, scene: &mut Scene, options: &DrawOptions, budget: usize)
    ensures
        final(scene).deep_view() == draw_item_spec(
            Item::Svg(*t),
            options.deep_view(),
            old(scene).deep_view(),
            budget as nat,
        ),
    decreases budget, Item::Svg(*t), 1nat,
{
    let mut own = options.apply(scene, &t.attrs);
    match &t.view_box {
        Some(view_box) => {
            own.common.apply_viewbox(t.width, t.height, view_box);
        },
        None => {},
    }
    draw_children(Ghost(Item::Svg(*t)), &t.items, scene, &own, budget);
}

fn draw_use(t: &TagUse, scene: &mut Scene, options: &DrawOptions, budget: usize)
    ensures
        final(scene).deep_view() == draw_item_spec(
            Item::Use(*t),
            options.deep_view(),
            old(scene).deep_view(),
            budget as nat,
        ),
    decreases budget, Item::Use(*t), 1nat,
{
    if !t.attrs.display {
        return ;
    }
    let mut own = options.apply(scene, &t.attrs);
    let target = match find_use_target(t, &own.common) {
        Some(target) => target,
        None => {
            return ;
        },
    };
    if !content_transform(t, &mut own.common, target) {
        return ;
    }
    if budget == 0 {
        return ;
    }
    match &**target {
        Item::Symbol(x) => draw_items(
            Ghost(Item::Symbol(*x)),
            &x.items,
            &x.attrs,
            scene,
            &own,
            budget - 1,
        ),
        Item::Svg(x) => draw_items(Ghost(Item::Svg(*x)), &x.items, &x.attrs, scene, &own, budget - 1),
        Item::G(x) => draw_items(Ghost(Item::G(*x)), &x.items, &x.attrs, scene, &own, budget - 1),
        _ => draw_item(target, scene, &own, budget - 1),
    }
}

/// Hands `item` over to the scene, with `budget` references from `<use>` elements left to
/// follow.
pub fn draw_item(item: &Item, scene: &mut Scene, options: &DrawOptions, budget: usize)
    ensures
        final(scene).deep_view() == draw_item_spec(
            *item,
            options.deep_view(),
            old(scene).deep_view(),
            budget as nat,
        ),
    decreases budget, *item, 2nat,
{
    match item {
        Item::Path(t) => t.draw_to(scene, options),
        Item::Rect(t) => t.draw_to(scene, options),
        Item::Polygon(t) => t.draw_to(scene, options),
        Item::Polyline(t) => t.draw_to(scene, options),
        Item::Line(t) => t.draw_to(scene, options),
        Item::Ellipse(t) => t.draw_to(scene, options),
        Item::Circle(t) => t.draw_to(scene, options),
        Item::G(t) => draw_items(Ghost(*item), &t.items, &t.attrs, scene, options, budget),
        Item::Svg(t) => draw_svg(t, scene, options, budget),
        Item::Use(t) => draw_use(t, scene, options, budget),
        _ => {},
    }
}

impl DrawItem for Item {
    /// The bounds that [`item_bounds_spec`] gives, with [`MAX_USE_DEPTH`] references left
    /// to follow.
    open spec fn bounds_spec(&self, env: BoundsEnv) -> Option<Rect2> {
        item_bounds_spec(*self, env, MAX_USE_DEPTH as nat)
    }

    /// The scene that [`draw_item_spec`] gives, with [`MAX_USE_DEPTH`] references left to
    /// follow.
    open spec fn draw_spec(&self, env: DrawEnv, scene: SceneModel) -> SceneModel {
        draw_item_spec(*self, env, scene, MAX_USE_DEPTH as nat)
    }

    fn draw_to(&self, scene: &mut Scene, options: &DrawOptions) {
        draw_item(self, scene, options, MAX_USE_DEPTH)
    }

    fn bounds(&self, options: &BoundsOptions) -> (r: Option<Rect2>) {
        item_bounds(self, options, MAX_USE_DEPTH)
    }
}

impl DrawItem for TagG {
    open spec fn bounds_spec(&self, env: BoundsEnv) -> Option<Rect2> {
        item_bounds_spec(Item::G(*self), env, MAX_USE_DEPTH as nat)
    }

    open spec fn draw_spec(&self, env: DrawEnv, scene: SceneModel) -> SceneModel {
        draw_item_spec(Item::G(*self), env, scene, MAX_USE_DEPTH as nat)
    }

    fn draw_to(&self, scene: &mut Scene, options: &DrawOptions) {
        draw_items(Ghost(Item::G(*self)), &self.items, &self.attrs, scene, options, MAX_USE_DEPTH)
    }

    fn bounds(&self, options: &BoundsOptions) -> (r: Option<Rect2>) {
        if !self.attrs.display {
            None
        } else {
            let own = options.apply(&self.attrs);
            children_bounds(Ghost(Item::G(*self)), &self.items, &own, MAX_USE_DEPTH)
        }
    }
}

impl DrawItem for TagSvg {
    open spec fn bounds_spec(&self, env: BoundsEnv) -> Option<Rect2> {
        item_bounds_spec(Item::Svg(*self), env, MAX_USE_DEPTH as nat)
    }

    open spec fn draw_spec(&self, env: DrawEnv, scene: SceneModel) -> SceneModel {
        draw_item_spec(Item::Svg(*self), env, scene, MAX_USE_DEPTH as nat)
    }

    fn draw_to(&self, scene: &mut Scene, options: &DrawOptions) {
        draw_svg(self, scene, options, MAX_USE_DEPTH)
    }

    fn bounds(&self, options: &BoundsOptions) -> (r: Option<Rect2>) {
        svg_bounds(self, options, MAX_USE_DEPTH)
    }
}

impl DrawItem for TagUse {
    open spec fn bounds_spec(&self, env: BoundsEnv) -> Option<Rect2> {
        item_bounds_spec(Item::Use(*self), env, MAX_USE_DEPTH as nat)
    }

    open spec fn draw_spec(&self, env: DrawEnv, scene: SceneModel) -> SceneModel {
        draw_item_spec(Item::Use(*self), env, scene, MAX_USE_DEPTH as nat)
    }

    fn draw_to(&self, scene: &mut Scene, options: &DrawOptions) {
        draw_use(self, scene, options, MAX_USE_DEPTH)
    }

    fn bounds(&self, options: &BoundsOptions) -> (r: Option<Rect2>) {
        use_bounds(self, options, MAX_USE_DEPTH)
    }
}

/// Text is laid out with fonts, which this library does not read: it has no bounds and
/// draws nothing.
impl DrawItem for TagText {
    open spec fn bounds_spec(&self, env: BoundsEnv) -> Option<Rect2> {
        None
    }

    open spec fn draw_spec(&self, env: DrawEnv, scene: SceneModel) -> SceneModel {
        scene
    }

    fn draw_to(&self, scene: &mut Scene, options: &DrawOptions) {
    }

    fn bounds(&self, options: &BoundsOptions) -> (r: Option<Rect2>) {
        None
    }
}

} // verus!
