//! The concrete values of lengths, vectors and animated attributes.

use crate::dom::animate::{
    Additive, Animate, Rotation, Scale, SkewX, SkewY, Transform, TransformAnimate, Translation,
};
use crate::dom::attrs::DashArray;
use crate::dom::util::{Axis, Length, LengthX, LengthY, Rect, Vector};
use crate::dom::value::{Value, ValueVector};
use crate::draw::{option_view, Compose, Interpolate, Resolve};
use crate::draw::draw::{Env, Options};
use crate::geometry::{skew_x, skew_x_spec, skew_y, skew_y_spec, Rect2, Transform2, Vector2};
use crate::number::Number;
use vstd::prelude::*;

verus! {

impl Resolve for Number {
    type Output = Number;

    open spec fn resolvable(&self, env: Env) -> bool {
        true
    }

    open spec fn resolve_spec(&self, env: Env) -> Number {
        *self
    }

    fn can_resolve(&self, options: &Options) -> (b: bool) {
        true
    }

    fn resolve(&self, options: &Options) -> (r: Number) {
        proof {
            assert(self.deep_view() == *self);
        }
        *self
    }
}

impl Resolve for Vector2 {
    type Output = Vector2;

    open spec fn resolvable(&self, env: Env) -> bool {
        true
    }

    open spec fn resolve_spec(&self, env: Env) -> Vector2 {
        *self
    }

    fn can_resolve(&self, options: &Options) -> (b: bool) {
        true
    }

    fn resolve(&self, options: &Options) -> (r: Vector2) {
        proof {
            assert(self.deep_view() == *self);
        }
        *self
    }
}

impl Resolve for Translation {
    type Output = Translation;

    open spec fn resolvable(&self, env: Env) -> bool {
        true
    }

    open spec fn resolve_spec(&self, env: Env) -> Translation {
        *self
    }

    fn can_resolve(&self, options: &Options) -> (b: bool) {
        true
    }

    fn resolve(&self, options: &Options) -> (r: Translation) {
        proof {
            assert(self.deep_view() == *self);
        }
        *self
    }
}

impl Resolve for Scale {
    type Output = Scale;

    open spec fn resolvable(&self, env: Env) -> bool {
        true
    }

    open spec fn resolve_spec(&self, env: Env) -> Scale {
        *self
    }

    fn can_resolve(&self, options: &Options) -> (b: bool) {
        true
    }

    fn resolve(&self, options: &Options) -> (r: Scale) {
        proof {
            assert(self.deep_view() == *self);
        }
        *self
    }
}

impl Resolve for Rotation {
    type Output = Rotation;

    open spec fn resolvable(&self, env: Env) -> bool {
        true
    }

    open spec fn resolve_spec(&self, env: Env) -> Rotation {
        *self
    }

    fn can_resolve(&self, options: &Options) -> (b: bool) {
        true
    }

    fn resolve(&self, options: &Options) -> (r: Rotation) {
        proof {
            assert(self.deep_view() == *self);
        }
        *self
    }
}

impl Resolve for SkewX {
    type Output = SkewX;

    open spec fn resolvable(&self, env: Env) -> bool {
        true
    }

    open spec fn resolve_spec(&self, env: Env) -> SkewX {
        *self
    }

    fn can_resolve(&self, options: &Options) -> (b: bool) {
        true
    }

    fn resolve(&self, options: &Options) -> (r: SkewX) {
        proof {
            assert(self.deep_view() == *self);
        }
        *self
    }
}

impl Resolve for SkewY {
    type Output = SkewY;

    open spec fn resolvable(&self, env: Env) -> bool {
        true
    }

    open spec fn resolve_spec(&self, env: Env) -> SkewY {
        *self
    }

    fn can_resolve(&self, options: &Options) -> (b: bool) {
        true
    }

    fn resolve(&self, options: &Options) -> (r: SkewY) {
        proof {
            assert(self.deep_view() == *self);
        }
        *self
    }
}

impl<T: Resolve> Resolve for Option<T> {
    type Output = Option<T::Output>;

    open spec fn resolvable(&self, env: Env) -> bool {
        match *self {
            Some(v) => v.resolvable(env),
            None => true,
        }
    }

    open spec fn resolve_spec(&self, env: Env) -> Option<<T::Output as DeepView>::V> {
        match *self {
            Some(v) => Some(v.resolve_spec(env)),
            None => None,
        }
    }

    fn can_resolve(&self, options: &Options) -> (b: bool) {
        match self {
            Some(v) => v.can_resolve(options),
            None => true,
        }
    }

    fn resolve(&self, options: &Options) -> (r: Option<T::Output>) {
        let r = match self {
            Some(v) => Some(v.resolve(options)),
            None => None,
        };
        proof {
            assert(r.deep_view() == option_view(r));
        }
        r
    }
}

impl Resolve for Length {
    type Output = Number;

    open spec fn resolvable(&self, env: Env) -> bool {
        env.resolve_length(*self) is Some
    }

    open spec fn resolve_spec(&self, env: Env) -> Number {
        env.resolve_length(*self).unwrap()
    }

    fn can_resolve(&self, options: &Options) -> (b: bool) {
        options.resolve_length(*self).is_some()
    }

    fn resolve(&self, options: &Options) -> (r: Number) {
        let r = options.resolve_length(*self).unwrap();
        proof {
            assert(r.deep_view() == r);
        }
        r
    }
}

impl Resolve for LengthX {
    type Output = Number;

    open spec fn resolvable(&self, env: Env) -> bool {
        env.resolve_length_along(self.0, Axis::X) is Some
    }

    open spec fn resolve_spec(&self, env: Env) -> Number {
        env.resolve_length_along(self.0, Axis::X).unwrap()
    }

    fn can_resolve(&self, options: &Options) -> (b: bool) {
        options.resolve_length_along(self.0, Axis::X).is_some()
    }

    fn resolve(&self, options: &Options) -> (r: Number) {
        let r = options.resolve_length_along(self.0, Axis::X).unwrap();
        proof {
            assert(r.deep_view() == r);
        }
        r
    }
}

impl Resolve for LengthY {
    type Output = Number;

    open spec fn resolvable(&self, env: Env) -> bool {
        env.resolve_length_along(self.0, Axis::Y) is Some
    }

    open spec fn resolve_spec(&self, env: Env) -> Number {
        env.resolve_length_along(self.0, Axis::Y).unwrap()
    }

    fn can_resolve(&self, options: &Options) -> (b: bool) {
        options.resolve_length_along(self.0, Axis::Y).is_some()
    }

    fn resolve(&self, options: &Options) -> (r: Number) {
        let r = options.resolve_length_along(self.0, Axis::Y).unwrap();
        proof {
            assert(r.deep_view() == r);
        }
        r
    }
}

impl Resolve for Vector {
    type Output = Vector2;

    open spec fn resolvable(&self, env: Env) -> bool {
        self.0.resolvable(env) && self.1.resolvable(env)
    }

    open spec fn resolve_spec(&self, env: Env) -> Vector2 {
        Vector2 { x: self.0.resolve_spec(env), y: self.1.resolve_spec(env) }
    }

    fn can_resolve(&self, options: &Options) -> (b: bool) {
        self.0.can_resolve(options) && self.1.can_resolve(options)
    }

    fn resolve(&self, options: &Options) -> (r: Vector2) {
        let x = self.0.resolve(options);
        let y = self.1.resolve(options);
        let r = Vector2 { x, y };
        proof {
            assert(x.deep_view() == x && y.deep_view() == y && r.deep_view() == r);
        }
        r
    }
}

impl Resolve for Rect {
    type Output = Rect2;

    open spec fn resolvable(&self, env: Env) -> bool {
        Vector(self.x, self.y).resolvable(env) && Vector(self.width, self.height).resolvable(env)
    }

    open spec fn resolve_spec(&self, env: Env) -> Rect2 {
        Rect2::new_spec(
            Vector(self.x, self.y).resolve_spec(env),
            Vector(self.width, self.height).resolve_spec(env),
        )
    }

    fn can_resolve(&self, options: &Options) -> (b: bool) {
        self.origin().can_resolve(options) && self.size().can_resolve(options)
    }

    fn resolve(&self, options: &Options) -> (r: Rect2) {
        let origin = self.origin().resolve(options);
        let size = self.size().resolve(options);
        let r = Rect2::new(origin, size);
        proof {
            assert(origin.deep_view() == origin && size.deep_view() == size && r.deep_view() == r);
        }
        r
    }
}

impl Resolve for DashArray {
    type Output = Vec<Number>;

    open spec fn resolvable(&self, env: Env) -> bool {
        forall|i: int| 0 <= i < self.0@.len() ==> (#[trigger] self.0@[i]).resolvable(env)
    }

    open spec fn resolve_spec(&self, env: Env) -> Seq<Number> {
        Seq::new(self.0@.len(), |i: int| self.0@[i].resolve_spec(env))
    }

    fn can_resolve(&self, options: &Options) -> (b: bool) {
        let mut i: usize = 0;
        while i < self.0.len()
            invariant
                i <= self.0@.len(),
                forall|j: int| 0 <= j < i ==> (#[trigger] self.0@[j]).resolvable(options.deep_view()),
            decreases self.0@.len() - i,
        {
            if !self.0[i].can_resolve(options) {
                return false;
            }
            i = i + 1;
        }
        true
    }

    fn resolve(&self, options: &Options) -> (r: Vec<Number>) {
        let mut out: Vec<Number> = Vec::new();
        let mut i: usize = 0;
        while i < self.0.len()
            invariant
                i <= self.0@.len(),
                self.resolvable(options.deep_view()),
                out@.len() == i,
                forall|j: int| 0 <= j < i ==> out@[j] == (#[trigger] self.0@[j]).resolve_spec(options.deep_view()),
            decreases self.0@.len() - i,
        {
            out.push(self.0[i].resolve(options));
            i = i + 1;
        }
        proof {
            assert(out.deep_view() =~= self.resolve_spec(options.deep_view()));
        }
        out
    }
}

/// The running value `base` after one directive had its say: its contribution is composed
/// onto the value or takes its place; a directive that contributes nothing leaves it.
pub open spec fn apply_anim_spec<T: Resolve>(
    animate: Animate<T>,
    base: <T::Output as DeepView>::V,
    env: Env,
) -> <T::Output as DeepView>::V where T::Output: Interpolate + Compose {
    match animate.resolve_spec(env) {
        Some(val) => match animate.additive {
            Additive::Sum => <T::Output as Compose>::compose_spec(base, val),
            Additive::Replace => val,
        },
        None => base,
    }
}

/// The base value `value` after the first `n` of the `animations` had their say, in order.
pub open spec fn fold_spec<T: Resolve>(value: T, animations: Seq<Animate<T>>, env: Env, n: nat) -> <
    T::Output as DeepView
>::V where T::Output: Interpolate + Compose
    decreases n,
{
    if n == 0 || n > animations.len() {
        value.resolve_spec(env)
    } else {
        apply_anim_spec(animations[n - 1], fold_spec(value, animations, env, (n - 1) as nat), env)
    }
}

/// Whether each of the `animations` can be resolved in `env`.
pub open spec fn all_resolvable<T: Resolve>(animations: Seq<Animate<T>>, env: Env) -> bool where
    T::Output: Interpolate,
 {
    forall|i: int| 0 <= i < animations.len() ==> (#[trigger] animations[i]).resolvable(env)
}

fn all_can_resolve<T: Resolve>(animations: &Vec<Animate<T>>, options: &Options) -> (b: bool) where
    T::Output: Interpolate,

    ensures
        b == all_resolvable(animations@, options.deep_view()),
{
    let mut i: usize = 0;
    while i < animations.len()
        invariant
            i <= animations@.len(),
            forall|j: int| 0 <= j < i ==> (#[trigger] animations@[j]).resolvable(options.deep_view()),
        decreases animations@.len() - i,
    {
        if !animations[i].can_resolve(options) {
            return false;
        }
        i = i + 1;
    }
    true
}

/// The running value `base` after the directive `animate` had its say.
pub fn apply_anim<T: Resolve>(animate: &Animate<T>, base: T::Output, options: &Options) -> (r:
    T::Output) where T::Output: Interpolate + Compose
    requires
        animate.resolvable(options.deep_view()),
    ensures
        r.deep_view() == apply_anim_spec(*animate, base.deep_view(), options.deep_view()),
{
    let contribution = animate.resolve(options);
    proof {
        assert(contribution.deep_view() == option_view(contribution));
    }
    match contribution {
        Some(val) => match animate.additive {
            Additive::Sum => base.compose(val),
            Additive::Replace => val,
        },
        None => base,
    }
}

impl<T: Resolve> Resolve for Value<T> where T::Output: Interpolate + Compose {
    type Output = T::Output;

    open spec fn resolvable(&self, env: Env) -> bool {
        self.value.resolvable(env) && all_resolvable(self.animations@, env)
    }

    /// The base value with every directive applied to it in document order.
    open spec fn resolve_spec(&self, env: Env) -> <T::Output as DeepView>::V {
        fold_spec(self.value, self.animations@, env, self.animations@.len())
    }

    fn can_resolve(&self, options: &Options) -> (b: bool) {
        self.value.can_resolve(options) && all_can_resolve(&self.animations, options)
    }

    fn resolve(&self, options: &Options) -> (r: T::Output) {
        let mut base = self.value.resolve(options);
        let mut i: usize = 0;
        while i < self.animations.len()
            invariant
                i <= self.animations@.len(),
                all_resolvable(self.animations@, options.deep_view()),
                base.deep_view() == fold_spec(
                    self.value,
                    self.animations@,
                    options.deep_view(),
                    i as nat,
                ),
            decreases self.animations@.len() - i,
        {
            base = apply_anim(&self.animations[i], base, options);
            i = i + 1;
        }
        base
    }
}

impl Resolve for ValueVector {
    type Output = Vector2;

    open spec fn resolvable(&self, env: Env) -> bool {
        self.x.resolvable(env) && self.y.resolvable(env)
    }

    open spec fn resolve_spec(&self, env: Env) -> Vector2 {
        Vector2 { x: self.x.resolve_spec(env), y: self.y.resolve_spec(env) }
    }

    fn can_resolve(&self, options: &Options) -> (b: bool) {
        self.x.can_resolve(options) && self.y.can_resolve(options)
    }

    fn resolve(&self, options: &Options) -> (r: Vector2) {
        let x = self.x.resolve(options);
        let y = self.y.resolve(options);
        let r = Vector2 { x, y };
        proof {
            assert(x.deep_view() == x && y.deep_view() == y && r.deep_view() == r);
        }
        r
    }
}

/// A value without directives resolves to what its base value resolves to, in every
/// environment.
pub proof fn lemma_plain_value_is_its_base<T: Resolve>(v: Value<T>, env: Env) where
    T::Output: Interpolate + Compose,

    requires
        v.animations@.len() == 0,
    ensures
        v.resolvable(env) == v.value.resolvable(env),
        v.resolve_spec(env) == v.value.resolve_spec(env),
{
}

/// A base value with one relative directive that sums, frozen after its window, resolves to
/// the amount composed onto the base value, not to the amount alone.
pub proof fn lemma_frozen_relative_sum_composes<T: Resolve>(v: Value<T>, by: T, env: Env) where
    T::Output: Interpolate + Compose,

    requires
        v.animations@.len() == 1,
        v.animations@[0].mode == (crate::dom::animate::AnimationMode::Relative { by }),
        v.animations@[0].additive == Additive::Sum,
        v.animations@[0].fill == crate::dom::animate::AnimationFill::Freeze,
        v.animations@[0].timing.pos_spec(env.time).raw >= crate::number::SCALE,
    ensures
        v.resolve_spec(env) == <T::Output as Compose>::compose_spec(
            v.value.resolve_spec(env),
            by.resolve_spec(env),
        ),
{
    assert(fold_spec(v.value, v.animations@, env, 0) == v.value.resolve_spec(env));
    assert(fold_spec(v.value, v.animations@, env, 1) == apply_anim_spec(
        v.animations@[0],
        fold_spec(v.value, v.animations@, env, 0),
        env,
    ));
}

/// What stands for a map of the plane.
pub trait ToTransform: Sized + DeepView {
    spec fn transform_spec(v: Self::V) -> Transform2;

    fn to_transform(self) -> (r: Transform2)
        ensures
            r == Self::transform_spec(self.deep_view()),
    ;
}

impl ToTransform for Translation {
    open spec fn transform_spec(v: Translation) -> Transform2 {
        Transform2::from_translation_spec(v.0)
    }

    fn to_transform(self) -> (r: Transform2) {
        proof {
            assert(self.deep_view() == self);
        }
        Transform2::from_translation(self.0)
    }
}

impl ToTransform for Scale {
    open spec fn transform_spec(v: Scale) -> Transform2 {
        Transform2::from_scale_spec(v.0)
    }

    fn to_transform(self) -> (r: Transform2) {
        proof {
            assert(self.deep_view() == self);
        }
        Transform2::from_scale(self.0)
    }
}

impl ToTransform for Rotation {
    /// The rotation around the centre: the centre is moved to the origin, the plane is
    /// turned, and the centre is moved back.
    open spec fn transform_spec(v: Rotation) -> Transform2 {
        Transform2::from_translation_spec(v.1).compose_spec(
            Transform2::from_rotation_spec(v.0),
        ).compose_spec(Transform2::from_translation_spec(v.1.neg_spec()))
    }

    fn to_transform(self) -> (r: Transform2) {
        proof {
            assert(self.deep_view() == self);
        }
        Transform2::from_translation(self.1).compose(Transform2::from_rotation(self.0)).compose(
            Transform2::from_translation(self.1.neg()),
        )
    }
}

impl ToTransform for SkewX {
    open spec fn transform_spec(v: SkewX) -> Transform2 {
        skew_x_spec(v.0)
    }

    fn to_transform(self) -> (r: Transform2) {
        proof {
            assert(self.deep_view() == self);
        }
        skew_x(self.0)
    }
}

impl ToTransform for SkewY {
    open spec fn transform_spec(v: SkewY) -> Transform2 {
        skew_y_spec(v.0)
    }

    fn to_transform(self) -> (r: Transform2) {
        proof {
            assert(self.deep_view() == self);
        }
        skew_y(self.0)
    }
}

/// The running transform `base` after one directive had its say.
pub open spec fn apply_transform_anim_spec<T: Resolve>(
    animate: Animate<T>,
    base: Transform2,
    env: Env,
) -> Transform2 where T::Output: Interpolate + ToTransform {
    match animate.resolve_spec(env) {
        Some(val) => match animate.additive {
            Additive::Sum => base.compose_spec(<T::Output as ToTransform>::transform_spec(val)),
            Additive::Replace => <T::Output as ToTransform>::transform_spec(val),
        },
        None => base,
    }
}

fn apply_transform_anim<T: Resolve>(animate: &Animate<T>, base: Transform2, options: &Options) -> (r:
    Transform2) where T::Output: Interpolate + ToTransform
    requires
        animate.resolvable(options.deep_view()),
    ensures
        r == apply_transform_anim_spec(*animate, base, options.deep_view()),
{
    let contribution = animate.resolve(options);
    proof {
        assert(contribution.deep_view() == option_view(contribution));
    }
    match contribution {
        Some(val) => match animate.additive {
            Additive::Sum => base.compose(val.to_transform()),
            Additive::Replace => val.to_transform(),
        },
        None => base,
    }
}

impl TransformAnimate {
    /// The running transform `base` after this directive had its say.
    pub open spec fn apply_spec(self, base: Transform2, env: Env) -> Transform2 {
        match self {
            TransformAnimate::Translate(a) => apply_transform_anim_spec(a, base, env),
            TransformAnimate::Scale(a) => apply_transform_anim_spec(a, base, env),
            TransformAnimate::Rotate(a) => apply_transform_anim_spec(a, base, env),
            TransformAnimate::SkewX(a) => apply_transform_anim_spec(a, base, env),
            TransformAnimate::SkewY(a) => apply_transform_anim_spec(a, base, env),
        }
    }

    fn apply(&self, base: Transform2, options: &Options) -> (r: Transform2)
        ensures
            r == self.apply_spec(base, options.deep_view()),
    {
        proof {
            lemma_transform_animate_resolvable(*self, options.deep_view());
        }
        match self {
            TransformAnimate::Translate(a) => apply_transform_anim(a, base, options),
            TransformAnimate::Scale(a) => apply_transform_anim(a, base, options),
            TransformAnimate::Rotate(a) => apply_transform_anim(a, base, options),
            TransformAnimate::SkewX(a) => apply_transform_anim(a, base, options),
            TransformAnimate::SkewY(a) => apply_transform_anim(a, base, options),
        }
    }
}

/// A directive on a transform holds plain numbers, so it can be resolved in every environment.
pub proof fn lemma_transform_animate_resolvable(a: TransformAnimate, env: Env)
    ensures
        match a {
            TransformAnimate::Translate(a) => a.resolvable(env),
            TransformAnimate::Scale(a) => a.resolvable(env),
            TransformAnimate::Rotate(a) => a.resolvable(env),
            TransformAnimate::SkewX(a) => a.resolvable(env),
            TransformAnimate::SkewY(a) => a.resolvable(env),
        },
{
}

/// The transform `value` after the first `n` of the `animations` had their say, in order.
pub open spec fn fold_transform(
    value: Transform2,
    animations: Seq<TransformAnimate>,
    env: Env,
    n: nat,
) -> Transform2
    decreases n,
{
    if n == 0 || n > animations.len() {
        value
    } else {
        animations[n - 1].apply_spec(fold_transform(value, animations, env, (n - 1) as nat), env)
    }
}

impl Resolve for Transform {
    type Output = Transform2;

    open spec fn resolvable(&self, env: Env) -> bool {
        true
    }

    open spec fn resolve_spec(&self, env: Env) -> Transform2 {
        fold_transform(self.value, self.animations@, env, self.animations@.len())
    }

    fn can_resolve(&self, options: &Options) -> (b: bool) {
        true
    }

    fn resolve(&self, options: &Options) -> (r: Transform2) {
        let mut base = self.value;
        let mut i: usize = 0;
        while i < self.animations.len()
            invariant
                i <= self.animations@.len(),
                base == fold_transform(self.value, self.animations@, options.deep_view(), i as nat),
            decreases self.animations@.len() - i,
        {
            base = self.animations[i].apply(base, options);
            i = i + 1;
        }
        proof {
            assert(base.deep_view() == base);
        }
        base
    }
}

} // verus!
