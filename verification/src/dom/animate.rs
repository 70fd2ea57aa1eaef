//! Animation directives: when they run and how they move a value.

use crate::chars::{str_eq, to_chars};
use crate::dom::ParseNode;
use crate::dom::error::{Error, ErrorModel};
use crate::dom::node::{
    get_attr, get_attr_spec, missing, parse_attr, parse_attr_or, parse_attr_or_spec,
    parse_attr_spec, read, read_as, result_view,
};
use crate::dom::parser::{
    invalid_value, is_invalid_value, number_list_4, number_list_4_spec, one_or_three_numbers,
    one_or_three_numbers_spec, one_or_two_numbers, one_or_two_numbers_spec,
};
use crate::dom::parser::length::{number_spec, parse_number};
use crate::dom::parser::transform::{parse_transform_list, transform_list_spec};
use crate::dom::util::{parts_spec, split_list, strings_view, Duplicate, Parse};
use crate::dom::xml::XmlNode;
use crate::geometry::{Transform2, Vector2};
use crate::number::Number;
use vstd::prelude::*;

verus! {

/// A point in time, or a span of it, in seconds.
#[derive(Clone, Copy, PartialEq, Eq, Structural, Debug)]
pub struct Time(pub Number);

impl Time {
    pub open spec fn sub_spec(self, rhs: Time) -> Time {
        Time(self.0.sub_spec(rhs.0))
    }

    pub fn from_seconds(seconds: Number) -> (r: Time)
        ensures
            r == Time(seconds),
    {
        Time(seconds)
    }

    pub fn seconds(self) -> (r: Number)
        ensures
            r == self.0,
    {
        self.0
    }

    /// The time at which every document starts.
    pub fn start() -> (r: Time)
        ensures
            r == Time(Number::zero_spec()),
    {
        Time(Number::zero())
    }

    pub fn sub(self, rhs: Time) -> (r: Time)
        ensures
            r == self.sub_spec(rhs),
    {
        Time(self.0.sub(rhs.0))
    }
}

/// The window in which a directive is active: from `begin` for `duration`.
#[derive(Clone, Copy, PartialEq, Eq, Structural, Debug)]
pub struct Timing {
    pub begin: Time,
    pub duration: Time,
}

impl Timing {
    /// Where the time `t` lies in the window: `0` at its start, `1` at its end, rounded
    /// down, so that a time before the start is never taken for the start.
    pub open spec fn pos_spec(&self, t: Time) -> Number {
        t.sub_spec(self.begin).0.div_floor_spec(self.duration.0)
    }

    pub fn pos(&self, t: Time) -> (x: Number)
        ensures
            x == self.pos_spec(t),
    {
        t.sub(self.begin).seconds().div_floor(self.duration.seconds())
    }
}

/// How the values between two keyframes are found.
#[derive(Clone, Copy, PartialEq, Eq, Structural, Debug)]
pub enum CalcMode {
    Discrete,
    Linear,
    Paced,
    Spline,
}

/// `a * u + b * t`, coordinate by coordinate.
pub open spec fn blend(a: Vector2, b: Vector2, u: Number, t: Number) -> Vector2 {
    a.scale_spec(u).add_spec(b.scale_spec(t))
}

fn blend_exec(a: Vector2, b: Vector2, u: Number, t: Number) -> (r: Vector2)
    ensures
        r == blend(a, b, u, t),
{
    a.scale(u).add(b.scale(t))
}

/// The number of halvings that [`UnitSpline::y_for_x`] makes.
pub const BISECTION_ROUNDS: u32 = 5;

/// Below this width of the bracket, in millionths, its middle is taken.
pub const BRACKET_FLOOR: i64 = 10;

/// A timing curve: the cubic Bezier curve from `(0, 0)` to `(1, 1)` with these two control points.
#[derive(Clone, Copy, PartialEq, Eq, Structural, Debug)]
pub struct UnitSpline(pub Vector2, pub Vector2);

/// The state of the search in [`UnitSpline::y_for_x`].
pub struct Bracket {
    pub low: Number,
    pub high: Number,
    pub f_low: Vector2,
    pub f_high: Vector2,
}

impl UnitSpline {
    /// The point of the curve at the parameter `t`, by de Casteljau's construction.
    pub open spec fn at_spec(&self, t: Number) -> Vector2 {
        let u = Number::one_spec().sub_spec(t);
        let p0 = Vector2::zero_spec();
        let p1 = self.0;
        let p2 = self.1;
        let p3 = Vector2::splat_spec(Number::one_spec());
        let p01 = blend(p0, p1, u, t);
        let p12 = blend(p1, p2, u, t);
        let p23 = blend(p2, p3, u, t);
        let p012 = blend(p01, p12, u, t);
        let p123 = blend(p12, p23, u, t);
        blend(p012, p123, u, t)
    }

    /// The bracket before any halving.
    pub open spec fn initial_bracket(&self) -> Bracket {
        Bracket {
            low: Number::zero_spec(),
            high: Number::one_spec(),
            f_low: self.at_spec(Number::zero_spec()),
            f_high: self.at_spec(Number::one_spec()),
        }
    }

    /// The bracket `b` halved once, toward the side on which `x` lies.
    pub open spec fn halve(&self, b: Bracket, x: Number) -> Bracket {
        let mid = b.low.add_spec(b.high).mul_spec(Number::from_ratio_spec(1, 2));
        let p = self.at_spec(mid);
        if x.raw < p.x.raw {
            Bracket { low: b.low, high: mid, f_low: b.f_low, f_high: p }
        } else {
            Bracket { low: mid, high: b.high, f_low: p, f_high: b.f_high }
        }
    }

    /// The bracket after `n` halvings.
    pub open spec fn bracket_after(&self, x: Number, n: nat) -> Bracket
        decreases n,
    {
        if n == 0 {
            self.initial_bracket()
        } else {
            self.halve(self.bracket_after(x, (n - 1) as nat), x)
        }
    }

    /// The `y` of the curve where its `x` is the given one: the parameter is bracketed by
    /// [`BISECTION_ROUNDS`] halvings of `[0, 1]`, and the curve between the ends of the bracket
    /// is taken as a straight line.
    pub open spec fn y_for_x_spec(&self, x: Number) -> Number {
        let b = self.bracket_after(x, BISECTION_ROUNDS as nat);
        let delta = b.f_high.sub_spec(b.f_low);
        let p = if delta.x.raw < BRACKET_FLOOR {
            b.f_high.add_spec(b.f_low).scale_spec(Number::from_ratio_spec(1, 2))
        } else {
            b.f_low.add_spec(delta.scale_spec(x.sub_spec(b.f_low.x).div_spec(delta.x)))
        };
        p.y
    }

    pub fn at(&self, t: Number) -> (p: Vector2)
        ensures
            p == self.at_spec(t),
    {
        let u = Number::one().sub(t);
        let p0 = Vector2::zero();
        let p1 = self.0;
        let p2 = self.1;
        let p3 = Vector2::splat(Number::one());
        let p01 = blend_exec(p0, p1, u, t);
        let p12 = blend_exec(p1, p2, u, t);
        let p23 = blend_exec(p2, p3, u, t);
        let p012 = blend_exec(p01, p12, u, t);
        let p123 = blend_exec(p12, p23, u, t);
        blend_exec(p012, p123, u, t)
    }

    pub fn y_for_x(&self, x: Number) -> (y: Number)
        ensures
            y == self.y_for_x_spec(x),
    {
        let half = Number::from_ratio(1, 2);
        let mut low = Number::zero();
        let mut high = Number::one();
        let mut f_high = self.at(high);
        let mut f_low = self.at(low);
        let mut round: u32 = 0;
        while round < BISECTION_ROUNDS
            invariant
                round <= BISECTION_ROUNDS,
                half == Number::from_ratio_spec(1, 2),
                (Bracket { low, high, f_low, f_high }) == self.bracket_after(x, round as nat),
            decreases BISECTION_ROUNDS - round,
        {
            let mid = low.add(high).mul(half);
            let p = self.at(mid);
            if x.lt(p.x) {
                high = mid;
                f_high = p;
            } else {
                low = mid;
                f_low = p;
            }
            round = round + 1;
        }
        let delta = f_high.sub(f_low);
        let p = if delta.x.raw < BRACKET_FLOOR {
            f_high.add(f_low).scale(half)
        } else {
            f_low.add(delta.scale(x.sub(f_low.x).div(delta.x)))
        };
        p.y
    }
}

/// A shift, as `<animateTransform type="translate">` gives it.
#[derive(Clone, Copy, PartialEq, Eq, Structural, Debug)]
pub struct Translation(pub Vector2);

/// A scaling along the two axes.
#[derive(Clone, Copy, PartialEq, Eq, Structural, Debug)]
pub struct Scale(pub Vector2);

/// A rotation by an angle in degrees around a centre.
#[derive(Clone, Copy, PartialEq, Eq, Structural, Debug)]
pub struct Rotation(pub Number, pub Vector2);

/// A skew along the x axis by an angle in degrees.
#[derive(Clone, Copy, PartialEq, Eq, Structural, Debug)]
pub struct SkewX(pub Number);

/// A skew along the y axis by an angle in degrees.
#[derive(Clone, Copy, PartialEq, Eq, Structural, Debug)]
pub struct SkewY(pub Number);

impl DeepView for Translation {
    type V = Translation;

    open spec fn deep_view(&self) -> Translation {
        *self
    }
}

impl DeepView for Scale {
    type V = Scale;

    open spec fn deep_view(&self) -> Scale {
        *self
    }
}

impl DeepView for Rotation {
    type V = Rotation;

    open spec fn deep_view(&self) -> Rotation {
        *self
    }
}

impl DeepView for SkewX {
    type V = SkewX;

    open spec fn deep_view(&self) -> SkewX {
        *self
    }
}

impl DeepView for SkewY {
    type V = SkewY;

    open spec fn deep_view(&self) -> SkewY {
        *self
    }
}

impl Default for Translation {
    fn default() -> (r: Translation)
        ensures
            r == Translation(Vector2::zero_spec()),
    {
        Translation(Vector2::zero())
    }
}

impl Default for Scale {
    fn default() -> (r: Scale)
        ensures
            r == Scale(Vector2::splat_spec(Number::one_spec())),
    {
        Scale(Vector2::splat(Number::one()))
    }
}

impl Default for Rotation {
    fn default() -> (r: Rotation)
        ensures
            r == Rotation(Number::zero_spec(), Vector2::zero_spec()),
    {
        Rotation(Number::zero(), Vector2::zero())
    }
}

impl Default for SkewX {
    fn default() -> (r: SkewX)
        ensures
            r == SkewX(Number::zero_spec()),
    {
        SkewX(Number::zero())
    }
}

impl Default for SkewY {
    fn default() -> (r: SkewY)
        ensures
            r == SkewY(Number::zero_spec()),
    {
        SkewY(Number::zero())
    }
}

/// What a directive does to the value between the start and the end of its window.
#[derive(Debug, Clone)]
pub enum AnimationMode<T> {
    /// From one value to another.
    Absolute { from: T, to: T },
    /// By an amount, on top of what is there.
    Relative { by: T },
    /// Through keyframes: pairs of a fraction of the window and the value at it. Under
    /// [`CalcMode::Spline`] one timing curve belongs to each gap between two keyframes.
    Values { pairs: Vec<(Number, T)>, splines: Vec<UnitSpline> },
}

/// What holds of the value once the window has ended.
#[derive(Clone, Copy, PartialEq, Eq, Structural, Debug)]
pub enum AnimationFill {
    /// The directive no longer contributes.
    Remove,
    /// The value it ended on stays.
    Freeze,
}

/// How a directive's value meets the value that is there.
#[derive(Clone, Copy, PartialEq, Eq, Structural, Debug)]
pub enum Additive {
    /// It is composed onto it.
    Sum,
    /// It takes its place.
    Replace,
}

/// One animation directive on an attribute of type `T`.
#[derive(Debug, Clone)]
pub struct Animate<T> {
    pub timing: Timing,
    pub mode: AnimationMode<T>,
    pub fill: AnimationFill,
    pub calc_mode: CalcMode,
    pub additive: Additive,
}

impl<T> Animate<T> {
    /// Under [`CalcMode::Spline`] a keyframe directive has one timing curve for each gap
    /// between two keyframes.
    pub open spec fn well_formed(&self) -> bool {
        match self.mode {
            AnimationMode::Values { pairs, splines } => self.calc_mode == CalcMode::Spline
                ==> splines@.len() + 1 == pairs@.len(),
            _ => true,
        }
    }
}

/// A directive on the `transform` attribute.
#[derive(Clone, Debug)]
pub enum TransformAnimate {
    Translate(Animate<Translation>),
    Scale(Animate<Scale>),
    Rotate(Animate<Rotation>),
    SkewX(Animate<SkewX>),
    SkewY(Animate<SkewY>),
}

/// The `transform` attribute: a map of the plane and the directives that change it.
#[derive(Clone, Debug)]
pub struct Transform {
    pub value: Transform2,
    pub animations: Vec<TransformAnimate>,
}

impl Transform {
    pub fn new(value: Transform2) -> (r: Transform)
        ensures
            r.value == value,
            r.animations@.len() == 0,
    {
        Transform { value, animations: Vec::new() }
    }
}

impl Default for Transform {
    fn default() -> (r: Transform)
        ensures
            r.value == Transform2::identity_spec(),
            r.animations@.len() == 0,
    {
        Transform { value: Transform2::identity(), animations: Vec::new() }
    }
}

impl DeepView for CalcMode {
    type V = CalcMode;

    open spec fn deep_view(&self) -> CalcMode {
        *self
    }
}

impl Parse for CalcMode {
    open spec fn parse_spec(s: Seq<char>) -> Option<CalcMode> {
        if s == "discrete"@ {
            Some(CalcMode::Discrete)
        } else if s == "linear"@ {
            Some(CalcMode::Linear)
        } else if s == "paced"@ {
            Some(CalcMode::Paced)
        } else if s == "spline"@ {
            Some(CalcMode::Spline)
        } else {
            None
        }
    }

    fn parse(s: &str) -> (r: Result<CalcMode, Error>) {
        proof {
            assert(forall|m: CalcMode| m.deep_view() == m);
        }
        if str_eq(s, "discrete") {
            Ok(CalcMode::Discrete)
        } else if str_eq(s, "linear") {
            Ok(CalcMode::Linear)
        } else if str_eq(s, "paced") {
            Ok(CalcMode::Paced)
        } else if str_eq(s, "spline") {
            Ok(CalcMode::Spline)
        } else {
            Err(invalid_value(s))
        }
    }
}

impl DeepView for AnimationFill {
    type V = AnimationFill;

    open spec fn deep_view(&self) -> AnimationFill {
        *self
    }
}

impl Parse for AnimationFill {
    open spec fn parse_spec(s: Seq<char>) -> Option<AnimationFill> {
        if s == "freeze"@ {
            Some(AnimationFill::Freeze)
        } else if s == "remove"@ {
            Some(AnimationFill::Remove)
        } else {
            None
        }
    }

    fn parse(s: &str) -> (r: Result<AnimationFill, Error>) {
        proof {
            assert(forall|m: AnimationFill| m.deep_view() == m);
        }
        if str_eq(s, "freeze") {
            Ok(AnimationFill::Freeze)
        } else if str_eq(s, "remove") {
            Ok(AnimationFill::Remove)
        } else {
            Err(invalid_value(s))
        }
    }
}

impl DeepView for Additive {
    type V = Additive;

    open spec fn deep_view(&self) -> Additive {
        *self
    }
}

impl Parse for Additive {
    open spec fn parse_spec(s: Seq<char>) -> Option<Additive> {
        if s == "sum"@ {
            Some(Additive::Sum)
        } else if s == "replace"@ {
            Some(Additive::Replace)
        } else {
            None
        }
    }

    fn parse(s: &str) -> (r: Result<Additive, Error>) {
        proof {
            assert(forall|m: Additive| m.deep_view() == m);
        }
        if str_eq(s, "sum") {
            Ok(Additive::Sum)
        } else if str_eq(s, "replace") {
            Ok(Additive::Replace)
        } else {
            Err(invalid_value(s))
        }
    }
}

impl DeepView for Time {
    type V = Time;

    open spec fn deep_view(&self) -> Time {
        *self
    }
}

impl Parse for Time {
    /// A number of seconds: a number and, right after it, the letter `s`.
    open spec fn parse_spec(s: Seq<char>) -> Option<Time> {
        if s.len() > 0 && s[s.len() - 1] == 's' {
            match number_spec(s.subrange(0, s.len() - 1)) {
                Some(n) => Some(Time(n)),
                None => None,
            }
        } else {
            None
        }
    }

    fn parse(s: &str) -> (r: Result<Time, Error>) {
        let v = to_chars(s);
        let c = v.as_slice();
        let n = c.len();
        if n > 0 && c[n - 1] == 's' {
            match parse_number(vstd::slice::slice_subrange(c, 0, n - 1)) {
                Some(seconds) => {
                    proof {
                        assert(Time(seconds).deep_view() == Time(seconds));
                    }
                    Ok(Time(seconds))
                },
                None => Err(invalid_value(s)),
            }
        } else {
            Err(invalid_value(s))
        }
    }
}

impl Parse for Translation {
    /// One or two numbers; the shift along y is `0` where it is not given.
    open spec fn parse_spec(s: Seq<char>) -> Option<Translation> {
        match one_or_two_numbers_spec(s) {
            Some((x, y)) => Some(
                Translation(
                    Vector2 {
                        x,
                        y: match y {
                            Some(y) => y,
                            None => Number::zero_spec(),
                        },
                    },
                ),
            ),
            None => None,
        }
    }

    fn parse(s: &str) -> (r: Result<Translation, Error>) {
        match one_or_two_numbers(s) {
            Ok((x, y)) => {
                let r = Translation(
                    Vector2 {
                        x,
                        y: match y {
                            Some(y) => y,
                            None => Number::zero(),
                        },
                    },
                );
                proof {
                    assert(r.deep_view() == r);
                }
                Ok(r)
            },
            Err(e) => Err(e),
        }
    }
}

impl Parse for Scale {
    /// One or two numbers; the scale along y is that along x where it is not given.
    open spec fn parse_spec(s: Seq<char>) -> Option<Scale> {
        match one_or_two_numbers_spec(s) {
            Some((x, y)) => Some(
                Scale(
                    Vector2 {
                        x,
                        y: match y {
                            Some(y) => y,
                            None => x,
                        },
                    },
                ),
            ),
            None => None,
        }
    }

    fn parse(s: &str) -> (r: Result<Scale, Error>) {
        match one_or_two_numbers(s) {
            Ok((x, y)) => {
                let r = Scale(
                    Vector2 {
                        x,
                        y: match y {
                            Some(y) => y,
                            None => x,
                        },
                    },
                );
                proof {
                    assert(r.deep_view() == r);
                }
                Ok(r)
            },
            Err(e) => Err(e),
        }
    }
}

impl Parse for Rotation {
    /// An angle in degrees and, where two more numbers follow, the centre; else the centre
    /// is the origin.
    open spec fn parse_spec(s: Seq<char>) -> Option<Rotation> {
        match one_or_three_numbers_spec(s) {
            Some((angle, c)) => Some(
                Rotation(
                    angle,
                    match c {
                        Some((x, y)) => Vector2 { x, y },
                        None => Vector2::zero_spec(),
                    },
                ),
            ),
            None => None,
        }
    }

    fn parse(s: &str) -> (r: Result<Rotation, Error>) {
        match one_or_three_numbers(s) {
            Ok((angle, c)) => {
                let r = Rotation(
                    angle,
                    match c {
                        Some((x, y)) => Vector2 { x, y },
                        None => Vector2::zero(),
                    },
                );
                proof {
                    assert(r.deep_view() == r);
                }
                Ok(r)
            },
            Err(e) => Err(e),
        }
    }
}

impl Parse for SkewX {
    open spec fn parse_spec(s: Seq<char>) -> Option<SkewX> {
        match number_spec(s) {
            Some(n) => Some(SkewX(n)),
            None => None,
        }
    }

    fn parse(s: &str) -> (r: Result<SkewX, Error>) {
        match Number::parse(s) {
            Ok(n) => {
                proof {
                    assert(SkewX(n).deep_view() == SkewX(n) && n.deep_view() == n);
                }
                Ok(SkewX(n))
            },
            Err(e) => Err(e),
        }
    }
}

impl Parse for SkewY {
    open spec fn parse_spec(s: Seq<char>) -> Option<SkewY> {
        match number_spec(s) {
            Some(n) => Some(SkewY(n)),
            None => None,
        }
    }

    fn parse(s: &str) -> (r: Result<SkewY, Error>) {
        match Number::parse(s) {
            Ok(n) => {
                proof {
                    assert(SkewY(n).deep_view() == SkewY(n) && n.deep_view() == n);
                }
                Ok(SkewY(n))
            },
            Err(e) => Err(e),
        }
    }
}

impl Duplicate for Translation {
    fn duplicate(&self) -> (r: Translation) {
        *self
    }
}

impl Duplicate for Scale {
    fn duplicate(&self) -> (r: Scale) {
        *self
    }
}

impl Duplicate for Rotation {
    fn duplicate(&self) -> (r: Rotation) {
        *self
    }
}

impl Duplicate for SkewX {
    fn duplicate(&self) -> (r: SkewX) {
        *self
    }
}

impl Duplicate for SkewY {
    fn duplicate(&self) -> (r: SkewY) {
        *self
    }
}

/// An [`AnimationMode`] as plain values.
pub enum ModeModel<V> {
    Absolute { from: V, to: V },
    Relative { by: V },
    Values { pairs: Seq<(Number, V)>, splines: Seq<UnitSpline> },
}

/// An [`Animate`] as plain values.
pub struct AnimateModel<V> {
    pub timing: Timing,
    pub mode: ModeModel<V>,
    pub fill: AnimationFill,
    pub calc_mode: CalcMode,
    pub additive: Additive,
}

/// The keyframes as plain values.
pub open spec fn pairs_view<T: DeepView>(pairs: Seq<(Number, T)>) -> Seq<(Number, T::V)> {
    Seq::new(pairs.len(), |i: int| (pairs[i].0, pairs[i].1.deep_view()))
}

impl<T: DeepView> DeepView for AnimationMode<T> {
    type V = ModeModel<T::V>;

    open spec fn deep_view(&self) -> ModeModel<T::V> {
        match *self {
            AnimationMode::Absolute { from, to } => ModeModel::Absolute {
                from: from.deep_view(),
                to: to.deep_view(),
            },
            AnimationMode::Relative { by } => ModeModel::Relative { by: by.deep_view() },
            AnimationMode::Values { pairs, splines } => ModeModel::Values {
                pairs: pairs_view(pairs@),
                splines: splines@,
            },
        }
    }
}

impl<T: DeepView> DeepView for Animate<T> {
    type V = AnimateModel<T::V>;

    open spec fn deep_view(&self) -> AnimateModel<T::V> {
        AnimateModel {
            timing: self.timing,
            mode: self.mode.deep_view(),
            fill: self.fill,
            calc_mode: self.calc_mode,
            additive: self.additive,
        }
    }
}

/// The window of the directive `node`: it begins at `begin`, or at `0` where that is not
/// set, and lasts for `dur`, which must be set.
pub open spec fn timing_spec(node: XmlNode) -> Result<Timing, ErrorModel> {
    match parse_attr_or_spec::<Time>(node, "begin"@, Time(Number::zero_spec())) {
        Err(e) => Err(e),
        Ok(begin) => match parse_attr_spec::<Time>(node, "dur"@) {
            Err(e) => Err(e),
            Ok(duration) => Ok(Timing { begin, duration }),
        },
    }
}

impl ParseNode for Timing {
    /// Whether `self` is the window that the directive at `at` sets.
    open spec fn parsed_from(&self, nodes: Seq<XmlNode>, at: int) -> bool {
        0 <= at < nodes.len() && timing_spec(nodes[at]) == Ok::<Timing, ErrorModel>(*self)
    }

    /// Why the window of the directive at `at` cannot be read.
    open spec fn parse_error(nodes: Seq<XmlNode>, at: int) -> Option<ErrorModel> {
        if 0 <= at < nodes.len() {
            match timing_spec(nodes[at]) {
                Ok(_) => None,
                Err(e) => Some(e),
            }
        } else {
            None
        }
    }

    /// Reads the window of a directive.
    fn parse_node(nodes: &[XmlNode], at: usize) -> (r: Result<Timing, Error>) {
        let node = &nodes[at];
        let begin = match parse_attr_or::<Time>(node, "begin", Time(Number::zero())) {
            Ok(b) => b,
            Err(e) => {
                return Err(e);
            },
        };
        let duration = match parse_attr::<Time>(node, "dur") {
            Ok(d) => d,
            Err(e) => {
                return Err(e);
            },
        };
        proof {
            assert(begin.deep_view() == begin && duration.deep_view() == duration);
            assert(Time(Number::zero_spec()).deep_view() == Time(Number::zero_spec()));
        }
        Ok(Timing { begin, duration })
    }
}

/// The text `text` read as a `T`, or `value` where there is no text.
pub open spec fn read_or<T: Parse>(text: Option<Seq<char>>, value: T::V) -> Result<T::V, ErrorModel> {
    match text {
        Some(t) => read_as::<T>(t),
        None => Ok(value),
    }
}

/// The first `n` keyframes that the key times `times` and the values `values` give, pair by
/// pair: the error of the first text that cannot be read, the time before the value.
pub open spec fn pairs_spec<T: Parse>(times: Seq<Seq<char>>, values: Seq<Seq<char>>, n: nat) -> Result<
    Seq<(Number, T::V)>,
    ErrorModel,
>
    decreases n,
{
    if n == 0 || n > times.len() || n > values.len() {
        Ok(Seq::empty())
    } else {
        match pairs_spec::<T>(times, values, (n - 1) as nat) {
            Err(e) => Err(e),
            Ok(before) => match read_as::<Number>(times[n - 1]) {
                Err(e) => Err(e),
                Ok(t) => match read_as::<T>(values[n - 1]) {
                    Err(e) => Err(e),
                    Ok(v) => Ok(before.push((t, v))),
                },
            },
        }
    }
}

/// The first `n` timing curves that the texts `parts` give: each is four numbers, the two
/// control points of the curve.
pub open spec fn splines_spec(parts: Seq<Seq<char>>, n: nat) -> Result<Seq<UnitSpline>, ErrorModel>
    decreases n,
{
    if n == 0 || n > parts.len() {
        Ok(Seq::empty())
    } else {
        match splines_spec(parts, (n - 1) as nat) {
            Err(e) => Err(e),
            Ok(before) => match number_list_4_spec(parts[n - 1]) {
                None => Err(ErrorModel::InvalidAttributeValue(parts[n - 1])),
                Some((x1, y1, x2, y2)) => Ok(
                    before.push(UnitSpline(Vector2 { x: x1, y: y1 }, Vector2 { x: x2, y: y2 })),
                ),
            },
        }
    }
}

/// The shorter of two lengths.
pub open spec fn least(a: nat, b: nat) -> nat {
    if a <= b {
        a
    } else {
        b
    }
}

/// The keyframes of the directive `node` whose `values` attribute is `values`. The key
/// times come from `keyTimes`, which must be set; there are as many keyframes as both lists
/// have items. Under [`CalcMode::Spline`] the timing curves come from `keySplines`, which
/// must be set and must hold one curve less than there are keyframes.
pub open spec fn values_spec<T: Parse>(node: XmlNode, values: Seq<char>, calc_mode: CalcMode) -> Result<
    ModeModel<T::V>,
    ErrorModel,
> {
    match get_attr_spec(node, "keyTimes"@) {
        Err(e) => Err(e),
        Ok(key_times) => {
            let times = parts_spec(key_times);
            let vals = parts_spec(values);
            match pairs_spec::<T>(times, vals, least(times.len(), vals.len())) {
                Err(e) => Err(e),
                Ok(pairs) => if calc_mode == CalcMode::Spline {
                    match get_attr_spec(node, "keySplines"@) {
                        Err(e) => Err(e),
                        Ok(key_splines) => match splines_spec(
                            parts_spec(key_splines),
                            parts_spec(key_splines).len(),
                        ) {
                            Err(e) => Err(e),
                            Ok(splines) => if splines.len() + 1 != pairs.len() {
                                Err(ErrorModel::InvalidAttributeValue("keySplines"@))
                            } else {
                                Ok(ModeModel::Values { pairs, splines })
                            },
                        },
                    }
                } else {
                    Ok(ModeModel::Values { pairs, splines: Seq::empty() })
                },
            }
        },
    }
}

/// What the directive `node` does to an attribute whose base value is `value`.
///
/// Where `from` or `to` is set, it goes from one to the other; the one that is not set is
/// the base value. Else, where `by` is set, it goes by that amount. Else, where `values` is
/// set, it goes through keyframes. A directive with none of these is refused.
pub open spec fn mode_spec<T: Parse>(node: XmlNode, value: T::V, calc_mode: CalcMode) -> Result<
    ModeModel<T::V>,
    ErrorModel,
> {
    let from = node.attribute_spec("from"@);
    let to = node.attribute_spec("to"@);
    if from is Some || to is Some {
        match read_or::<T>(from, value) {
            Err(e) => Err(e),
            Ok(from) => match read_or::<T>(to, value) {
                Err(e) => Err(e),
                Ok(to) => Ok(ModeModel::Absolute { from, to }),
            },
        }
    } else {
        match node.attribute_spec("by"@) {
            Some(by) => match read_as::<T>(by) {
                Err(e) => Err(e),
                Ok(by) => Ok(ModeModel::Relative { by }),
            },
            None => match node.attribute_spec("values"@) {
                Some(values) => values_spec::<T>(node, values, calc_mode),
                None => Err(
                    ErrorModel::MissingAttribute("<animate> lacks from, to, by and values"@),
                ),
            },
        }
    }
}

/// How a directive with the mode `mode` meets the value that is there, where it does not
/// say: an amount is added, everything else takes the place of the value.
pub open spec fn default_additive<V>(mode: ModeModel<V>) -> Additive {
    match mode {
        ModeModel::Relative { .. } => Additive::Sum,
        _ => Additive::Replace,
    }
}

/// The directive that the element `node` stands for, on an attribute whose base value is
/// `value`: its window, its calculation mode (linear where not set), its mode, its fill
/// (remove where not set) and how it meets the value that is there.
pub open spec fn animate_spec<T: Parse>(node: XmlNode, value: T::V) -> Result<
    AnimateModel<T::V>,
    ErrorModel,
> {
    match timing_spec(node) {
        Err(e) => Err(e),
        Ok(timing) => match parse_attr_or_spec::<CalcMode>(node, "calcMode"@, CalcMode::Linear) {
            Err(e) => Err(e),
            Ok(calc_mode) => match mode_spec::<T>(node, value, calc_mode) {
                Err(e) => Err(e),
                Ok(mode) => match parse_attr_or_spec::<AnimationFill>(
                    node,
                    "fill"@,
                    AnimationFill::Remove,
                ) {
                    Err(e) => Err(e),
                    Ok(fill) => match parse_attr_or_spec::<Additive>(
                        node,
                        "additive"@,
                        default_additive(mode),
                    ) {
                        Err(e) => Err(e),
                        Ok(additive) => Ok(AnimateModel { timing, mode, fill, calc_mode, additive }),
                    },
                },
            },
        },
    }
}

fn read_or_value<T: Parse + Duplicate>(text: Option<&str>, value: &T) -> (r: Result<T, Error>)
    ensures
        result_view(r) == read_or::<T>(crate::dom::xml::text_view(text), value.deep_view()),
{
    match text {
        Some(t) => read::<T>(t),
        None => Ok(value.duplicate()),
    }
}

fn parse_pairs<T: Parse>(times: &Vec<String>, values: &Vec<String>) -> (r: Result<
    Vec<(Number, T)>,
    Error,
>)
    ensures
        match r {
            Ok(pairs) => pairs_spec::<T>(
                strings_view(times@),
                strings_view(values@),
                least(times@.len(), values@.len()),
            ) == Ok::<Seq<(Number, T::V)>, ErrorModel>(pairs_view(pairs@)),
            Err(e) => pairs_spec::<T>(
                strings_view(times@),
                strings_view(values@),
                least(times@.len(), values@.len()),
            ) == Err::<Seq<(Number, T::V)>, ErrorModel>(e.deep_view()),
        },
{
    let n: usize = if times.len() <= values.len() {
        times.len()
    } else {
        values.len()
    };
    let mut pairs: Vec<(Number, T)> = Vec::new();
    let mut i: usize = 0;
    proof {
        assert(pairs_view(pairs@) =~= Seq::empty());
    }
    while i < n
        invariant
            i <= n,
            n == least(times@.len(), values@.len()),
            pairs_spec::<T>(strings_view(times@), strings_view(values@), i as nat) == Ok::<
                Seq<(Number, T::V)>,
                ErrorModel,
            >(pairs_view(pairs@)),
        decreases n - i,
    {
        proof {
            assert(strings_view(times@)[i as int] == times@[i as int]@);
            assert(strings_view(values@)[i as int] == values@[i as int]@);
        }
        let t = match read::<Number>(times[i].as_str()) {
            Ok(t) => t,
            Err(e) => {
                proof {
                    lemma_pairs_error::<T>(
                        strings_view(times@),
                        strings_view(values@),
                        (i + 1) as nat,
                        n as nat,
                    );
                }
                return Err(e);
            },
        };
        let v = match read::<T>(values[i].as_str()) {
            Ok(v) => v,
            Err(e) => {
                proof {
                    lemma_pairs_error::<T>(
                        strings_view(times@),
                        strings_view(values@),
                        (i + 1) as nat,
                        n as nat,
                    );
                }
                return Err(e);
            },
        };
        proof {
            assert(t.deep_view() == t);
        }
        let ghost before = pairs_view(pairs@);
        let ghost model = (t, v.deep_view());
        pairs.push((t, v));
        proof {
            assert(pairs_view(pairs@) =~= before.push(model));
        }
        i = i + 1;
    }
    Ok(pairs)
}

/// Once a pair cannot be read, the pairs after it do not matter.
proof fn lemma_pairs_error<T: Parse>(times: Seq<Seq<char>>, values: Seq<Seq<char>>, i: nat, n: nat)
    requires
        i <= n <= times.len(),
        n <= values.len(),
        pairs_spec::<T>(times, values, i) is Err,
    ensures
        pairs_spec::<T>(times, values, n) == pairs_spec::<T>(times, values, i),
    decreases n,
{
    if i < n {
        lemma_pairs_error::<T>(times, values, i, (n - 1) as nat);
    }
}

proof fn lemma_splines_error(parts: Seq<Seq<char>>, i: nat, n: nat)
    requires
        i <= n <= parts.len(),
        splines_spec(parts, i) is Err,
    ensures
        splines_spec(parts, n) == splines_spec(parts, i),
    decreases n,
{
    if i < n {
        lemma_splines_error(parts, i, (n - 1) as nat);
    }
}

fn parse_splines(parts: &Vec<String>) -> (r: Result<Vec<UnitSpline>, Error>)
    ensures
        match r {
            Ok(splines) => splines_spec(strings_view(parts@), parts@.len()) == Ok::<
                Seq<UnitSpline>,
                ErrorModel,
            >(splines@),
            Err(e) => splines_spec(strings_view(parts@), parts@.len()) == Err::<
                Seq<UnitSpline>,
                ErrorModel,
            >(e.deep_view()),
        },
{
    let mut splines: Vec<UnitSpline> = Vec::new();
    let mut i: usize = 0;
    while i < parts.len()
        invariant
            i <= parts@.len(),
            splines_spec(strings_view(parts@), i as nat) == Ok::<Seq<UnitSpline>, ErrorModel>(
                splines@,
            ),
        decreases parts@.len() - i,
    {
        proof {
            assert(strings_view(parts@)[i as int] == parts@[i as int]@);
        }
        match number_list_4(parts[i].as_str()) {
            Ok(list) => {
                splines.push(
                    UnitSpline(
                        Vector2 { x: list[0], y: list[1] },
                        Vector2 { x: list[2], y: list[3] },
                    ),
                );
            },
            Err(e) => {
                proof {
                    lemma_splines_error(strings_view(parts@), (i + 1) as nat, parts@.len());
                }
                return Err(e);
            },
        }
        i = i + 1;
    }
    Ok(splines)
}

fn parse_values<T: Parse>(node: &XmlNode, values: &str, calc_mode: CalcMode) -> (r: Result<
    AnimationMode<T>,
    Error,
>)
    ensures
        result_view(r) == values_spec::<T>(*node, values@, calc_mode),
{
    let key_times = match get_attr(node, "keyTimes") {
        Ok(k) => k,
        Err(e) => {
            return Err(e);
        },
    };
    let times = split_list(key_times);
    let vals = split_list(values);
    proof {
        assert(strings_view(times@).len() == times@.len());
        assert(strings_view(vals@).len() == vals@.len());
    }
    let pairs = match parse_pairs::<T>(&times, &vals) {
        Ok(p) => p,
        Err(e) => {
            return Err(e);
        },
    };
    proof {
        assert(pairs_view(pairs@).len() == pairs@.len());
    }
    if matches!(calc_mode, CalcMode::Spline) {
        let key_splines = match get_attr(node, "keySplines") {
            Ok(k) => k,
            Err(e) => {
                return Err(e);
            },
        };
        let parts = split_list(key_splines);
        proof {
            assert(strings_view(parts@).len() == parts@.len());
        }
        let splines = match parse_splines(&parts) {
            Ok(s) => s,
            Err(e) => {
                return Err(e);
            },
        };
        if pairs.len() == 0 || splines.len() != pairs.len() - 1 {
            return Err(Error::InvalidAttributeValue("keySplines".to_owned()));
        }
        Ok(AnimationMode::Values { pairs, splines })
    } else {
        Ok(AnimationMode::Values { pairs, splines: Vec::new() })
    }
}

impl<T: Parse + Duplicate> AnimationMode<T> {
    /// Reads what the directive `node` does to an attribute whose base value is `value`.
    pub fn parse_node(node: &XmlNode, value: &T, calc_mode: CalcMode) -> (r: Result<
        AnimationMode<T>,
        Error,
    >)
        ensures
            result_view(r) == mode_spec::<T>(*node, value.deep_view(), calc_mode),
    {
        let from = node.attribute("from");
        let to = node.attribute("to");
        if from.is_some() || to.is_some() {
            let from = match read_or_value::<T>(from, value) {
                Ok(v) => v,
                Err(e) => {
                    return Err(e);
                },
            };
            let to = match read_or_value::<T>(to, value) {
                Ok(v) => v,
                Err(e) => {
                    return Err(e);
                },
            };
            Ok(AnimationMode::Absolute { from, to })
        } else {
            match node.attribute("by") {
                Some(by) => match read::<T>(by) {
                    Ok(by) => Ok(AnimationMode::Relative { by }),
                    Err(e) => Err(e),
                },
                None => match node.attribute("values") {
                    Some(values) => parse_values::<T>(node, values, calc_mode),
                    None => Err(missing("<animate> lacks from, to, by and values")),
                },
            }
        }
    }
}

impl<T: Parse + Duplicate> Animate<T> {
    /// Reads the directive `node` on an attribute whose base value is `value`.
    pub fn parse_animate(node: &XmlNode, value: &T) -> (r: Result<Animate<T>, Error>)
        ensures
            result_view(r) == animate_spec::<T>(*node, value.deep_view()),
            r matches Ok(a) ==> a.well_formed(),
    {
        let timing = match Timing::parse_node(core::slice::from_ref(node), 0) {
            Ok(t) => t,
            Err(e) => {
                return Err(e);
            },
        };
        let calc_mode = match parse_attr_or::<CalcMode>(node, "calcMode", CalcMode::Linear) {
            Ok(m) => m,
            Err(e) => {
                return Err(e);
            },
        };
        proof {
            assert(forall|m: CalcMode| m.deep_view() == m);
            assert(forall|m: AnimationFill| m.deep_view() == m);
            assert(forall|m: Additive| m.deep_view() == m);
        }
        let mode = match AnimationMode::parse_node(node, value, calc_mode) {
            Ok(m) => m,
            Err(e) => {
                return Err(e);
            },
        };
        let fill = match parse_attr_or::<AnimationFill>(node, "fill", AnimationFill::Remove) {
            Ok(f) => f,
            Err(e) => {
                return Err(e);
            },
        };
        let default_additive = match mode {
            AnimationMode::Relative { .. } => Additive::Sum,
            _ => Additive::Replace,
        };
        let additive = match parse_attr_or::<Additive>(node, "additive", default_additive) {
            Ok(a) => a,
            Err(e) => {
                return Err(e);
            },
        };
        proof {
            if calc_mode == CalcMode::Spline && mode is Values {
                assert(pairs_view(mode->pairs@).len() == mode->pairs@.len());
            }
        }
        Ok(Animate { timing, mode, fill, calc_mode, additive })
    }
}

/// A [`TransformAnimate`] as plain values.
pub enum TransformAnimateModel {
    Translate(AnimateModel<Translation>),
    Scale(AnimateModel<Scale>),
    Rotate(AnimateModel<Rotation>),
    SkewX(AnimateModel<SkewX>),
    SkewY(AnimateModel<SkewY>),
}

impl DeepView for TransformAnimate {
    type V = TransformAnimateModel;

    open spec fn deep_view(&self) -> TransformAnimateModel {
        match *self {
            TransformAnimate::Translate(a) => TransformAnimateModel::Translate(a.deep_view()),
            TransformAnimate::Scale(a) => TransformAnimateModel::Scale(a.deep_view()),
            TransformAnimate::Rotate(a) => TransformAnimateModel::Rotate(a.deep_view()),
            TransformAnimate::SkewX(a) => TransformAnimateModel::SkewX(a.deep_view()),
            TransformAnimate::SkewY(a) => TransformAnimateModel::SkewY(a.deep_view()),
        }
    }
}

/// A [`Transform`] as plain values.
pub struct TransformModel {
    pub value: Transform2,
    pub animations: Seq<TransformAnimateModel>,
}

impl DeepView for Transform {
    type V = TransformModel;

    open spec fn deep_view(&self) -> TransformModel {
        TransformModel { value: self.value, animations: self.animations.deep_view() }
    }
}

/// The directive on a transform that the element `node` stands for: `type` says which kind
/// of transform it moves, and must be set; each kind starts from the transform that
/// changes nothing.
pub open spec fn transform_animate_spec(node: XmlNode) -> Result<TransformAnimateModel, ErrorModel> {
    match get_attr_spec(node, "type"@) {
        Err(e) => Err(e),
        Ok(kind) => if kind == "translate"@ {
            match animate_spec::<Translation>(node, Translation(Vector2::zero_spec())) {
                Ok(a) => Ok(TransformAnimateModel::Translate(a)),
                Err(e) => Err(e),
            }
        } else if kind == "scale"@ {
            match animate_spec::<Scale>(node, Scale(Vector2::splat_spec(Number::one_spec()))) {
                Ok(a) => Ok(TransformAnimateModel::Scale(a)),
                Err(e) => Err(e),
            }
        } else if kind == "rotate"@ {
            match animate_spec::<Rotation>(
                node,
                Rotation(Number::zero_spec(), Vector2::zero_spec()),
            ) {
                Ok(a) => Ok(TransformAnimateModel::Rotate(a)),
                Err(e) => Err(e),
            }
        } else if kind == "skewX"@ {
            match animate_spec::<SkewX>(node, SkewX(Number::zero_spec())) {
                Ok(a) => Ok(TransformAnimateModel::SkewX(a)),
                Err(e) => Err(e),
            }
        } else if kind == "skewY"@ {
            match animate_spec::<SkewY>(node, SkewY(Number::zero_spec())) {
                Ok(a) => Ok(TransformAnimateModel::SkewY(a)),
                Err(e) => Err(e),
            }
        } else {
            Err(ErrorModel::InvalidAttributeValue(kind))
        },
    }
}

impl TransformAnimate {
    /// Reads a directive on a transform.
    pub fn parse_animate_transform(node: &XmlNode) -> (r: Result<TransformAnimate, Error>)
        ensures
            result_view(r) == transform_animate_spec(*node),
    {
        let kind = match get_attr(node, "type") {
            Ok(k) => k,
            Err(e) => {
                return Err(e);
            },
        };
        proof {
            assert(forall|t: Translation| t.deep_view() == t);
            assert(forall|t: Scale| t.deep_view() == t);
            assert(forall|t: Rotation| t.deep_view() == t);
            assert(forall|t: SkewX| t.deep_view() == t);
            assert(forall|t: SkewY| t.deep_view() == t);
        }
        if str_eq(kind, "translate") {
            match Animate::parse_animate(node, &Translation::default()) {
                Ok(a) => Ok(TransformAnimate::Translate(a)),
                Err(e) => Err(e),
            }
        } else if str_eq(kind, "scale") {
            match Animate::parse_animate(node, &Scale::default()) {
                Ok(a) => Ok(TransformAnimate::Scale(a)),
                Err(e) => Err(e),
            }
        } else if str_eq(kind, "rotate") {
            match Animate::parse_animate(node, &Rotation::default()) {
                Ok(a) => Ok(TransformAnimate::Rotate(a)),
                Err(e) => Err(e),
            }
        } else if str_eq(kind, "skewX") {
            match Animate::parse_animate(node, &SkewX::default()) {
                Ok(a) => Ok(TransformAnimate::SkewX(a)),
                Err(e) => Err(e),
            }
        } else if str_eq(kind, "skewY") {
            match Animate::parse_animate(node, &SkewY::default()) {
                Ok(a) => Ok(TransformAnimate::SkewY(a)),
                Err(e) => Err(e),
            }
        } else {
            Err(invalid_value(kind))
        }
    }
}

/// Reads a `transform` attribute into the map it stands for.
pub fn transform_list(value: &str) -> (r: Result<Transform2, Error>)
    ensures
        match r {
            Ok(t) => transform_list_spec(value@) == Some(t),
            Err(e) => transform_list_spec(value@) is None && is_invalid_value(e, value@),
        },
{
    let c = to_chars(value);
    match parse_transform_list(c.as_slice()) {
        Some(t) => Ok(t),
        None => Err(invalid_value(value)),
    }
}

impl Transform {
    /// Reads the directive `node` and puts it after the directives that are there. Where
    /// the directive cannot be read, the transform stays as it is.
    pub fn parse_animate_node(&mut self, node: &XmlNode) -> (r: Result<(), Error>)
        ensures
            match r {
                Ok(_) => transform_animate_spec(*node) matches Ok(a) && final(self).deep_view()
                    == (TransformModel {
                    value: old(self).value,
                    animations: old(self).animations.deep_view().push(a),
                }),
                Err(e) => transform_animate_spec(*node) == Err::<
                    TransformAnimateModel,
                    ErrorModel,
                >(e.deep_view()) && final(self).deep_view() == old(self).deep_view(),
            },
    {
        match TransformAnimate::parse_animate_transform(node) {
            Ok(a) => {
                let ghost before = self.animations.deep_view();
                let ghost model = a.deep_view();
                self.animations.push(a);
                proof {
                    assert(self.animations.deep_view() =~= before.push(model));
                }
                Ok(())
            },
            Err(e) => Err(e),
        }
    }

    /// Reads a `transform` attribute. The result has no directives.
    pub fn parse(s: &str) -> (r: Result<Transform, Error>)
        ensures
            match r {
                Ok(t) => transform_list_spec(s@) == Some(t.value) && t.animations@.len() == 0,
                Err(e) => transform_list_spec(s@) is None && is_invalid_value(e, s@),
            },
    {
        match transform_list(s) {
            Ok(t) => Ok(Transform::new(t)),
            Err(e) => Err(e),
        }
    }
}

} // verus!
