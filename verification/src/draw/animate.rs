//! The value that one animation directive gives at a point in time.

use crate::dom::animate::{
    Animate, AnimationFill, AnimationMode, CalcMode, Rotation, Scale, SkewX, SkewY, Translation,
    UnitSpline,
};
use crate::draw::{option_view, Compose, Interpolate, Resolve};
use crate::draw::draw::{Env, Options};
use crate::geometry::{Transform2, Vector2};
use crate::number::{Number, SCALE};
use vstd::prelude::*;

verus! {

/// `a * (1 - x) + b * x`.
pub open spec fn lerp_number(a: Number, b: Number, x: Number) -> Number {
    a.mul_spec(Number::one_spec().sub_spec(x)).add_spec(b.mul_spec(x))
}

/// The number the fraction `x` of the way from `a` to `b`.
pub fn lerp_numbers(a: Number, b: Number, x: Number) -> (r: Number)
    ensures
        r == lerp_number(a, b, x),
{
    a.mul(Number::one().sub(x)).add(b.mul(x))
}

/// The point the fraction `x` of the way from `a` to `b`.
pub fn lerp_vectors(a: Vector2, b: Vector2, x: Number) -> (r: Vector2)
    ensures
        r == lerp_vector(a, b, x),
{
    Vector2 { x: lerp_numbers(a.x, b.x, x), y: lerp_numbers(a.y, b.y, x) }
}

impl Interpolate for Number {
    open spec fn lerp_spec(a: Number, b: Number, x: Number) -> Number {
        lerp_number(a, b, x)
    }

    open spec fn scale_spec(a: Number, x: Number) -> Number {
        a.mul_spec(x)
    }

    fn lerp(self, to: Number, x: Number) -> (r: Number) {
        let r = lerp_numbers(self, to, x);
        proof {
            assert(self.deep_view() == self && to.deep_view() == to && r.deep_view() == r);
        }
        r
    }

    fn scale(self, x: Number) -> (r: Number) {
        let r = self.mul(x);
        proof {
            assert(self.deep_view() == self && r.deep_view() == r);
        }
        r
    }
}

impl Compose for Number {
    open spec fn compose_spec(a: Number, b: Number) -> Number {
        a.add_spec(b)
    }

    fn compose(self, rhs: Number) -> (r: Number) {
        let r = self.add(rhs);
        proof {
            assert(self.deep_view() == self && rhs.deep_view() == rhs && r.deep_view() == r);
        }
        r
    }
}

/// [`lerp_number`] on both coordinates.
pub open spec fn lerp_vector(a: Vector2, b: Vector2, x: Number) -> Vector2 {
    Vector2 { x: lerp_number(a.x, b.x, x), y: lerp_number(a.y, b.y, x) }
}

impl Interpolate for Vector2 {
    open spec fn lerp_spec(a: Vector2, b: Vector2, x: Number) -> Vector2 {
        lerp_vector(a, b, x)
    }

    open spec fn scale_spec(a: Vector2, x: Number) -> Vector2 {
        a.scale_spec(x)
    }

    fn lerp(self, to: Vector2, x: Number) -> (r: Vector2) {
        let r = lerp_vectors(self, to, x);
        proof {
            assert(self.deep_view() == self && to.deep_view() == to && r.deep_view() == r);
        }
        r
    }

    fn scale(self, x: Number) -> (r: Vector2) {
        let r = Vector2::scale(self, x);
        proof {
            assert(self.deep_view() == self && r.deep_view() == r);
        }
        r
    }
}

impl Interpolate for Translation {
    open spec fn lerp_spec(a: Translation, b: Translation, x: Number) -> Translation {
        Translation(lerp_vector(a.0, b.0, x))
    }

    open spec fn scale_spec(a: Translation, x: Number) -> Translation {
        Translation(a.0.scale_spec(x))
    }

    fn lerp(self, to: Translation, x: Number) -> (r: Translation) {
        let r = Translation(lerp_vectors(self.0, to.0, x));
        proof {
            assert(self.deep_view() == self && to.deep_view() == to && r.deep_view() == r);
        }
        r
    }

    fn scale(self, x: Number) -> (r: Translation) {
        let r = Translation(Vector2::scale(self.0, x));
        proof {
            assert(self.deep_view() == self && r.deep_view() == r);
        }
        r
    }
}

impl Interpolate for Scale {
    open spec fn lerp_spec(a: Scale, b: Scale, x: Number) -> Scale {
        Scale(lerp_vector(a.0, b.0, x))
    }

    open spec fn scale_spec(a: Scale, x: Number) -> Scale {
        Scale(a.0.scale_spec(x))
    }

    fn lerp(self, to: Scale, x: Number) -> (r: Scale) {
        let r = Scale(lerp_vectors(self.0, to.0, x));
        proof {
            assert(self.deep_view() == self && to.deep_view() == to && r.deep_view() == r);
        }
        r
    }

    fn scale(self, x: Number) -> (r: Scale) {
        let r = Scale(Vector2::scale(self.0, x));
        proof {
            assert(self.deep_view() == self && r.deep_view() == r);
        }
        r
    }
}

impl Interpolate for Rotation {
    open spec fn lerp_spec(a: Rotation, b: Rotation, x: Number) -> Rotation {
        Rotation(lerp_number(a.0, b.0, x), lerp_vector(a.1, b.1, x))
    }

    open spec fn scale_spec(a: Rotation, x: Number) -> Rotation {
        Rotation(a.0.mul_spec(x), a.1.scale_spec(x))
    }

    fn lerp(self, to: Rotation, x: Number) -> (r: Rotation) {
        let r = Rotation(lerp_numbers(self.0, to.0, x), lerp_vectors(self.1, to.1, x));
        proof {
            assert(self.deep_view() == self && to.deep_view() == to && r.deep_view() == r);
        }
        r
    }

    fn scale(self, x: Number) -> (r: Rotation) {
        let r = Rotation(self.0.mul(x), Vector2::scale(self.1, x));
        proof {
            assert(self.deep_view() == self && r.deep_view() == r);
        }
        r
    }
}

impl Interpolate for SkewX {
    open spec fn lerp_spec(a: SkewX, b: SkewX, x: Number) -> SkewX {
        SkewX(lerp_number(a.0, b.0, x))
    }

    open spec fn scale_spec(a: SkewX, x: Number) -> SkewX {
        SkewX(a.0.mul_spec(x))
    }

    fn lerp(self, to: SkewX, x: Number) -> (r: SkewX) {
        let r = SkewX(lerp_numbers(self.0, to.0, x));
        proof {
            assert(self.deep_view() == self && to.deep_view() == to && r.deep_view() == r);
        }
        r
    }

    fn scale(self, x: Number) -> (r: SkewX) {
        let r = SkewX(self.0.mul(x));
        proof {
            assert(self.deep_view() == self && r.deep_view() == r);
        }
        r
    }
}

impl Interpolate for SkewY {
    open spec fn lerp_spec(a: SkewY, b: SkewY, x: Number) -> SkewY {
        SkewY(lerp_number(a.0, b.0, x))
    }

    open spec fn scale_spec(a: SkewY, x: Number) -> SkewY {
        SkewY(a.0.mul_spec(x))
    }

    fn lerp(self, to: SkewY, x: Number) -> (r: SkewY) {
        let r = SkewY(lerp_numbers(self.0, to.0, x));
        proof {
            assert(self.deep_view() == self && to.deep_view() == to && r.deep_view() == r);
        }
        r
    }

    fn scale(self, x: Number) -> (r: SkewY) {
        let r = SkewY(self.0.mul(x));
        proof {
            assert(self.deep_view() == self && r.deep_view() == r);
        }
        r
    }
}

impl Compose for Transform2 {
    open spec fn compose_spec(a: Transform2, b: Transform2) -> Transform2 {
        a.compose_spec(b)
    }

    fn compose(self, rhs: Transform2) -> (r: Transform2) {
        let r = Transform2::compose(self, rhs);
        proof {
            assert(self.deep_view() == self && rhs.deep_view() == rhs && r.deep_view() == r);
        }
        r
    }
}

/// The shorter of two lengths.
pub open spec fn shorter(a: nat, b: nat) -> nat {
    if a <= b {
        a
    } else {
        b
    }
}

impl Interpolate for Vec<Number> {
    /// Entry by entry, as far as both lists go.
    open spec fn lerp_spec(a: Seq<Number>, b: Seq<Number>, x: Number) -> Seq<Number> {
        Seq::new(shorter(a.len(), b.len()), |i: int| lerp_number(a[i], b[i], x))
    }

    open spec fn scale_spec(a: Seq<Number>, x: Number) -> Seq<Number> {
        Seq::new(a.len(), |i: int| a[i].mul_spec(x))
    }

    fn lerp(self, to: Vec<Number>, x: Number) -> (r: Vec<Number>) {
        let n: usize = if self.len() <= to.len() {
            self.len()
        } else {
            to.len()
        };
        let mut out: Vec<Number> = Vec::new();
        let mut i: usize = 0;
        while i < n
            invariant
                i <= n,
                n == shorter(self@.len(), to@.len()),
                out@.len() == i,
                forall|j: int| 0 <= j < i ==> #[trigger] out@[j] == lerp_number(self@[j], to@[j], x),
            decreases n - i,
        {
            out.push(lerp_numbers(self[i], to[i], x));
            i = i + 1;
        }
        proof {
            assert(self.deep_view() =~= self@) by {
                assert forall|j: int| 0 <= j < self@.len() implies self.deep_view()[j] == self@[j] by {
                    assert(self@[j].deep_view() == self@[j]);
                }
            }
            assert(to.deep_view() =~= to@) by {
                assert forall|j: int| 0 <= j < to@.len() implies to.deep_view()[j] == to@[j] by {
                    assert(to@[j].deep_view() == to@[j]);
                }
            }
            assert(out.deep_view() =~= out@) by {
                assert forall|j: int| 0 <= j < out@.len() implies out.deep_view()[j] == out@[j] by {
                    assert(out@[j].deep_view() == out@[j]);
                }
            }
            assert(out@ =~= Self::lerp_spec(self@, to@, x));
        }
        out
    }

    fn scale(self, x: Number) -> (r: Vec<Number>) {
        let mut out: Vec<Number> = Vec::new();
        let mut i: usize = 0;
        while i < self.len()
            invariant
                i <= self@.len(),
                out@.len() == i,
                forall|j: int| 0 <= j < i ==> #[trigger] out@[j] == self@[j].mul_spec(x),
            decreases self@.len() - i,
        {
            out.push(self[i].mul(x));
            i = i + 1;
        }
        proof {
            assert(self.deep_view() =~= self@) by {
                assert forall|j: int| 0 <= j < self@.len() implies self.deep_view()[j] == self@[j] by {
                    assert(self@[j].deep_view() == self@[j]);
                }
            }
            assert(out.deep_view() =~= out@) by {
                assert forall|j: int| 0 <= j < out@.len() implies out.deep_view()[j] == out@[j] by {
                    assert(out@[j].deep_view() == out@[j]);
                }
            }
            assert(out@ =~= Self::scale_spec(self@, x));
        }
        out
    }
}

impl Compose for Vec<Number> {
    /// The list on top takes the place of the one beneath.
    open spec fn compose_spec(a: Seq<Number>, b: Seq<Number>) -> Seq<Number> {
        b
    }

    fn compose(self, rhs: Vec<Number>) -> (r: Vec<Number>) {
        rhs
    }
}

/// Where a fraction lies among the key times of a directive: `Ok(i)` where it is the time of
/// the keyframe `i`, `Err(i)` where it lies before the keyframe `i` (and after the one
/// before it). The key times between `lo` and `hi` are halved until one of the two is known.
pub open spec fn search_spec<T>(pairs: Seq<(Number, T)>, x: Number, lo: int, hi: int) -> Result<
    int,
    int,
>
    decreases hi - lo,
{
    if lo >= hi {
        Err(lo)
    } else {
        let mid = lo + (hi - lo) / 2;
        if pairs[mid].0.raw < x.raw {
            search_spec(pairs, x, mid + 1, hi)
        } else if pairs[mid].0.raw == x.raw {
            Ok(mid)
        } else {
            search_spec(pairs, x, lo, mid)
        }
    }
}

/// Whether the key times grow from each keyframe to the next.
pub open spec fn increasing<T>(pairs: Seq<(Number, T)>) -> bool {
    forall|i: int, j: int| 0 <= i < j < pairs.len() ==> pairs[i].0.raw < pairs[j].0.raw
}

/// Among key times that grow, the search finds the keyframe at `x` if there is one, and
/// otherwise the place where `x` lies between two neighbours.
pub proof fn lemma_search_brackets<T>(pairs: Seq<(Number, T)>, x: Number, lo: int, hi: int)
    requires
        increasing(pairs),
        0 <= lo <= hi <= pairs.len(),
        forall|j: int| 0 <= j < lo ==> pairs[j].0.raw < x.raw,
        forall|j: int| hi <= j < pairs.len() ==> pairs[j].0.raw > x.raw,
    ensures
        match search_spec(pairs, x, lo, hi) {
            Ok(i) => 0 <= i < pairs.len() && pairs[i].0 == x,
            Err(i) => {
                &&& 0 <= i <= pairs.len()
                &&& forall|j: int| 0 <= j < i ==> pairs[j].0.raw < x.raw
                &&& forall|j: int| i <= j < pairs.len() ==> pairs[j].0.raw > x.raw
            },
        },
    decreases hi - lo,
{
    if lo < hi {
        let mid = lo + (hi - lo) / 2;
        if pairs[mid].0.raw < x.raw {
            lemma_search_brackets(pairs, x, mid + 1, hi);
        } else if pairs[mid].0.raw == x.raw {
        } else {
            lemma_search_brackets(pairs, x, lo, mid);
        }
    }
}

fn search<T>(pairs: &Vec<(Number, T)>, x: Number) -> (r: Result<usize, usize>)
    ensures
        match r {
            Ok(i) => search_spec(pairs@, x, 0, pairs@.len() as int) == Ok::<int, int>(i as int) && i
                < pairs@.len(),
            Err(i) => search_spec(pairs@, x, 0, pairs@.len() as int) == Err::<int, int>(i as int)
                && i <= pairs@.len(),
        },
{
    let mut lo: usize = 0;
    let mut hi: usize = pairs.len();
    while lo < hi
        invariant
            lo <= hi <= pairs@.len(),
            search_spec(pairs@, x, 0, pairs@.len() as int) == search_spec(
                pairs@,
                x,
                lo as int,
                hi as int,
            ),
        decreases hi - lo,
    {
        let mid: usize = lo + (hi - lo) / 2;
        if pairs[mid].0.lt(x) {
            lo = mid + 1;
        } else if pairs[mid].0.raw == x.raw {
            return Ok(mid);
        } else {
            hi = mid;
        }
    }
    Err(lo)
}

/// The value of the keyframe `idx`, if there is such a keyframe.
pub open spec fn keyframe<T: Resolve>(pairs: Seq<(Number, T)>, idx: int, env: Env) -> Option<
    <T::Output as DeepView>::V,
> {
    if 0 <= idx < pairs.len() {
        Some(pairs[idx].1.resolve_spec(env))
    } else {
        None
    }
}

/// How far the way from one keyframe to the next has gone, once the calculation mode had its
/// say: under [`CalcMode::Spline`] the timing curve of the gap remaps the fraction, where
/// there is one; otherwise it stays.
pub open spec fn mapped_time(
    mode: CalcMode,
    splines: Seq<UnitSpline>,
    gap: int,
    fragment: Number,
) -> Number {
    if mode == CalcMode::Spline && 0 <= gap < splines.len() {
        splines[gap].y_for_x_spec(fragment)
    } else {
        fragment
    }
}

/// The value that keyframes give at the fraction `x` of the window, `0 <= x < 1`.
///
/// On a keyframe it is the value of that keyframe. Between two, [`CalcMode::Discrete`]
/// keeps the value of the one before (`None` before the first); every other mode moves
/// from the one before to the one after, and gives `None` before the first and after the
/// last.
pub open spec fn keyframe_value<T: Resolve>(
    pairs: Seq<(Number, T)>,
    splines: Seq<UnitSpline>,
    mode: CalcMode,
    x: Number,
    env: Env,
) -> Option<<T::Output as DeepView>::V> where T::Output: Interpolate {
    match search_spec(pairs, x, 0, pairs.len() as int) {
        Ok(idx) => keyframe(pairs, idx, env),
        Err(idx) => if mode == CalcMode::Discrete {
            keyframe(pairs, idx - 1, env)
        } else if 0 < idx < pairs.len() {
            let t0 = pairs[idx - 1].0;
            let t1 = pairs[idx].0;
            let fragment = x.sub_spec(t0).div_spec(t1.sub_spec(t0));
            Some(
                <T::Output as Interpolate>::lerp_spec(
                    pairs[idx - 1].1.resolve_spec(env),
                    pairs[idx].1.resolve_spec(env),
                    mapped_time(mode, splines, idx - 1, fragment),
                ),
            )
        } else {
            None
        },
    }
}

/// Whether every value that the mode mentions can be resolved in `env`.
pub open spec fn mode_resolvable<T: Resolve>(mode: AnimationMode<T>, env: Env) -> bool {
    match mode {
        AnimationMode::Absolute { from, to } => from.resolvable(env) && to.resolvable(env),
        AnimationMode::Relative { by } => by.resolvable(env),
        AnimationMode::Values { pairs, .. } => forall|i: int|
            0 <= i < pairs@.len() ==> (#[trigger] pairs@[i]).1.resolvable(env),
    }
}

/// What a directive leaves behind once its window has ended.
pub open spec fn end_value<T: Resolve>(fill: AnimationFill, mode: AnimationMode<T>, env: Env) -> Option<
    <T::Output as DeepView>::V,
> {
    match fill {
        AnimationFill::Remove => None,
        AnimationFill::Freeze => match mode {
            AnimationMode::Absolute { to, .. } => Some(to.resolve_spec(env)),
            AnimationMode::Relative { by } => Some(by.resolve_spec(env)),
            AnimationMode::Values { pairs, .. } => keyframe(pairs@, pairs@.len() - 1, env),
        },
    }
}

/// What a directive gives at the fraction `x` of its window, `0 <= x < 1`.
pub open spec fn value_at<T: Resolve>(
    mode: AnimationMode<T>,
    calc_mode: CalcMode,
    x: Number,
    env: Env,
) -> Option<<T::Output as DeepView>::V> where T::Output: Interpolate {
    match mode {
        AnimationMode::Absolute { from, to } => Some(
            <T::Output as Interpolate>::lerp_spec(from.resolve_spec(env), to.resolve_spec(env), x),
        ),
        AnimationMode::Relative { by } => Some(
            <T::Output as Interpolate>::scale_spec(by.resolve_spec(env), x),
        ),
        AnimationMode::Values { pairs, splines } => keyframe_value(
            pairs@,
            splines@,
            calc_mode,
            x,
            env,
        ),
    }
}

impl<T: Resolve> Resolve for Animate<T> where T::Output: Interpolate {
    type Output = Option<T::Output>;

    open spec fn resolvable(&self, env: Env) -> bool {
        mode_resolvable(self.mode, env)
    }

    /// What the directive contributes at the time of `env`: nothing before its window,
    /// [`end_value`] from the end of its window on, [`value_at`] within.
    open spec fn resolve_spec(&self, env: Env) -> Option<<T::Output as DeepView>::V> {
        let x = self.timing.pos_spec(env.time);
        if x.raw < 0 {
            None
        } else if x.raw >= SCALE {
            end_value(self.fill, self.mode, env)
        } else {
            value_at(self.mode, self.calc_mode, x, env)
        }
    }

    fn can_resolve(&self, options: &Options) -> (b: bool) {
        match &self.mode {
            AnimationMode::Absolute { from, to } => from.can_resolve(options) && to.can_resolve(
                options,
            ),
            AnimationMode::Relative { by } => by.can_resolve(options),
            AnimationMode::Values { pairs, .. } => {
                let mut i: usize = 0;
                while i < pairs.len()
                    invariant
                        i <= pairs@.len(),
                        self.mode is Values,
                        self.mode->pairs == *pairs,
                        forall|j: int|
                            0 <= j < i ==> (#[trigger] pairs@[j]).1.resolvable(options.deep_view()),
                    decreases pairs@.len() - i,
                {
                    if !pairs[i].1.can_resolve(options) {
                        proof {
                            assert(!pairs@[i as int].1.resolvable(options.deep_view()));
                        }
                        return false;
                    }
                    i = i + 1;
                }
                true
            },
        }
    }

    fn resolve(&self, options: &Options) -> (r: Option<T::Output>) {
        let ghost env = options.deep_view();
        let x = self.timing.pos(options.time);
        let r = if x.raw < 0 {
            None
        } else if x.raw >= SCALE {
            match self.fill {
                AnimationFill::Remove => None,
                AnimationFill::Freeze => match &self.mode {
                    AnimationMode::Absolute { to, .. } => Some(to.resolve(options)),
                    AnimationMode::Relative { by } => Some(by.resolve(options)),
                    AnimationMode::Values { pairs, .. } => {
                        if pairs.len() > 0 {
                            Some(pairs[pairs.len() - 1].1.resolve(options))
                        } else {
                            None
                        }
                    },
                },
            }
        } else {
            match &self.mode {
                AnimationMode::Absolute { from, to } => Some(
                    from.resolve(options).lerp(to.resolve(options), x),
                ),
                AnimationMode::Relative { by } => Some(by.resolve(options).scale(x)),
                AnimationMode::Values { pairs, splines } => {
                    match search(pairs, x) {
                        Ok(idx) => Some(pairs[idx].1.resolve(options)),
                        Err(idx) => {
                            if matches!(self.calc_mode, CalcMode::Discrete) {
                                if idx == 0 {
                                    None
                                } else {
                                    Some(pairs[idx - 1].1.resolve(options))
                                }
                            } else if idx > 0 && idx < pairs.len() {
                                let t0 = pairs[idx - 1].0;
                                let t1 = pairs[idx].0;
                                let fragment = x.sub(t0).div(t1.sub(t0));
                                let mapped = if matches!(self.calc_mode, CalcMode::Spline) && idx
                                    - 1 < splines.len() {
                                    splines[idx - 1].y_for_x(fragment)
                                } else {
                                    fragment
                                };
                                Some(
                                    pairs[idx - 1].1.resolve(options).lerp(
                                        pairs[idx].1.resolve(options),
                                        mapped,
                                    ),
                                )
                            } else {
                                None
                            }
                        },
                    }
                },
            }
        };
        proof {
            assert(r.deep_view() == option_view(r));
        }
        r
    }
}

/// At the fraction `0` a value has not moved toward another yet.
pub proof fn lemma_lerp_number_start(a: Number, b: Number)
    ensures
        lerp_number(a, b, Number::zero_spec()) == a,
{
    crate::number::lemma_mul_one(a);
    crate::number::lemma_mul_zero(b);
}

/// At the fraction `1` a value has arrived at the other.
pub proof fn lemma_lerp_number_end(a: Number, b: Number)
    ensures
        lerp_number(a, b, Number::one_spec()) == b,
{
    crate::number::lemma_mul_one(b);
    crate::number::lemma_mul_zero(a);
}

/// Before its window begins, a directive contributes nothing: whatever the time before
/// `begin`, however close. (A window of negative length runs backwards, and is left out.)
pub proof fn lemma_nothing_before_begin<T: Resolve>(a: Animate<T>, env: Env) where
    T::Output: Interpolate,

    requires
        a.timing.duration.0.raw >= 0,
        env.time.0.raw < a.timing.begin.0.raw,
    ensures
        a.resolve_spec(env) is None,
{
    let elapsed = env.time.sub_spec(a.timing.begin).0;
    assert(elapsed.raw < 0);
    let n = elapsed.raw as int * SCALE as int;
    let d = a.timing.duration.0.raw as int;
    if d > 0 {
        assert(n < 0) by (nonlinear_arith)
            requires
                n == elapsed.raw as int * 1_000_000,
                elapsed.raw < 0,
        ;
        vstd::arithmetic::div_mod::lemma_fundamental_div_mod(n, d);
        assert(n / d < 0) by (nonlinear_arith)
            requires
                n == d * (n / d) + n % d,
                0 <= n % d < d,
                n < 0,
                d > 0,
        ;
    }
}

/// At the moment its window begins, a directive gives what its mode gives at the fraction `0`.
pub proof fn lemma_start_value_at_begin<T: Resolve>(a: Animate<T>, env: Env) where
    T::Output: Interpolate,

    requires
        env.time == a.timing.begin,
    ensures
        a.timing.pos_spec(env.time) == Number::zero_spec(),
        a.resolve_spec(env) == value_at(a.mode, a.calc_mode, Number::zero_spec(), env),
{
    let d = a.timing.duration.0.raw as int;
    assert(0 * (SCALE as int) == 0);
    if d > 0 {
        assert(0int / d == 0) by (nonlinear_arith)
            requires
                d > 0,
        ;
    } else if d < 0 {
        assert(0int / (-d) == 0) by (nonlinear_arith)
            requires
                d < 0,
        ;
    }
}

/// From the end of its window on, a directive gives what its `fill` says: nothing under
/// `Remove`, its end value under `Freeze`. The end of a window of negative length lies before
/// its begin; a window without length has no end apart from its begin, and is left out.
pub proof fn lemma_fill_policy_from_end<T: Resolve>(a: Animate<T>, env: Env) where
    T::Output: Interpolate,

    requires
        a.timing.duration.0.raw > 0 ==> env.time.0.raw - a.timing.begin.0.raw
            >= a.timing.duration.0.raw,
        a.timing.duration.0.raw < 0 ==> env.time.0.raw - a.timing.begin.0.raw
            <= a.timing.duration.0.raw,
        a.timing.duration.0.raw != 0,
    ensures
        a.timing.pos_spec(env.time).raw >= SCALE,
        a.resolve_spec(env) == end_value(a.fill, a.mode, env),
        a.fill == AnimationFill::Remove ==> a.resolve_spec(env) is None,
{
    let elapsed = env.time.sub_spec(a.timing.begin).0;
    let d = a.timing.duration.0.raw as int;
    let e = elapsed.raw as int;
    let s = SCALE as int;
    if d > 0 {
        assert(e >= d);
        assert(e * s >= d * s) by (nonlinear_arith)
            requires
                e >= d,
                s > 0,
        ;
        vstd::arithmetic::div_mod::lemma_fundamental_div_mod(e * s, d);
        assert((e * s) / d >= s) by (nonlinear_arith)
            requires
                e * s == d * ((e * s) / d) + (e * s) % d,
                0 <= (e * s) % d < d,
                e * s >= d * s,
                d > 0,
        ;
    } else {
        assert(e <= d);
        let n = -(e * s);
        let m = -d;
        assert(n >= m * s) by (nonlinear_arith)
            requires
                n == -(e * s),
                m == -d,
                e <= d,
                s > 0,
        ;
        vstd::arithmetic::div_mod::lemma_fundamental_div_mod(n, m);
        assert(n / m >= s) by (nonlinear_arith)
            requires
                n == m * (n / m) + n % m,
                0 <= n % m < m,
                n >= m * s,
                m > 0,
        ;
    }
}

/// Among key times that grow, [`CalcMode::Discrete`] gives at every fraction the value of
/// the last keyframe that is not after it.
pub proof fn lemma_discrete_keeps_last_keyframe<T: Resolve>(
    pairs: Seq<(Number, T)>,
    splines: Seq<UnitSpline>,
    x: Number,
    k: int,
    env: Env,
) where T::Output: Interpolate
    requires
        increasing(pairs),
        0 <= k < pairs.len(),
        pairs[k].0.raw <= x.raw,
        k + 1 < pairs.len() ==> x.raw < pairs[k + 1].0.raw,
    ensures
        keyframe_value(pairs, splines, CalcMode::Discrete, x, env) == Some(
            pairs[k].1.resolve_spec(env),
        ),
{
    lemma_search_brackets(pairs, x, 0, pairs.len() as int);
    match search_spec(pairs, x, 0, pairs.len() as int) {
        Ok(i) => {
            if i < k {
                assert(pairs[i].0.raw < pairs[k].0.raw);
            }
            if i > k {
                assert(pairs[k + 1].0.raw <= pairs[i].0.raw);
            }
        },
        Err(i) => {
            if i <= k {
                assert(pairs[k].0.raw > x.raw);
            }
            if i > k + 1 {
                assert(pairs[k + 1].0.raw < x.raw);
            }
        },
    }
}

/// Among key times that grow, before the first keyframe [`CalcMode::Discrete`] gives nothing.
pub proof fn lemma_discrete_nothing_before_first<T: Resolve>(
    pairs: Seq<(Number, T)>,
    splines: Seq<UnitSpline>,
    x: Number,
    env: Env,
) where T::Output: Interpolate
    requires
        increasing(pairs),
        pairs.len() > 0 ==> x.raw < pairs[0].0.raw,
    ensures
        keyframe_value(pairs, splines, CalcMode::Discrete, x, env) is None,
{
    lemma_search_brackets(pairs, x, 0, pairs.len() as int);
    match search_spec(pairs, x, 0, pairs.len() as int) {
        Ok(i) => {
            if i > 0 {
                assert(pairs[0].0.raw < pairs[i].0.raw);
            }
        },
        Err(i) => {
            if i > 0 {
                assert(pairs[0].0.raw < x.raw);
            }
        },
    }
}

} // verus!
