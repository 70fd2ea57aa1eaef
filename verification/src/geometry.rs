//! Plane geometry over [`Number`]: points, axis-aligned rectangles and affine maps.

use crate::number::Number;
use vstd::prelude::*;

verus! {

/// A point or a displacement in the plane.
#[derive(Clone, Copy, PartialEq, Eq, Structural, Debug)]
pub struct Vector2 {
    pub x: Number,
    pub y: Number,
}

impl Vector2 {
    pub open spec fn zero_spec() -> Vector2 {
        Vector2 { x: Number::zero_spec(), y: Number::zero_spec() }
    }

    pub open spec fn splat_spec(v: Number) -> Vector2 {
        Vector2 { x: v, y: v }
    }

    pub open spec fn add_spec(self, rhs: Vector2) -> Vector2 {
        Vector2 { x: self.x.add_spec(rhs.x), y: self.y.add_spec(rhs.y) }
    }

    pub open spec fn sub_spec(self, rhs: Vector2) -> Vector2 {
        Vector2 { x: self.x.sub_spec(rhs.x), y: self.y.sub_spec(rhs.y) }
    }

    pub open spec fn neg_spec(self) -> Vector2 {
        Vector2 { x: self.x.neg_spec(), y: self.y.neg_spec() }
    }

    /// Both coordinates multiplied by `k`.
    pub open spec fn scale_spec(self, k: Number) -> Vector2 {
        Vector2 { x: self.x.mul_spec(k), y: self.y.mul_spec(k) }
    }

    /// The coordinates multiplied one by one.
    pub open spec fn mul_spec(self, rhs: Vector2) -> Vector2 {
        Vector2 { x: self.x.mul_spec(rhs.x), y: self.y.mul_spec(rhs.y) }
    }

    /// The coordinates divided one by one.
    pub open spec fn div_spec(self, rhs: Vector2) -> Vector2 {
        Vector2 { x: self.x.div_spec(rhs.x), y: self.y.div_spec(rhs.y) }
    }

    pub open spec fn min_spec(self, rhs: Vector2) -> Vector2 {
        Vector2 { x: self.x.min_spec(rhs.x), y: self.y.min_spec(rhs.y) }
    }

    pub open spec fn max_spec(self, rhs: Vector2) -> Vector2 {
        Vector2 { x: self.x.max_spec(rhs.x), y: self.y.max_spec(rhs.y) }
    }

    pub fn new(x: Number, y: Number) -> (r: Vector2)
        ensures
            r == (Vector2 { x, y }),
    {
        Vector2 { x, y }
    }

    pub fn zero() -> (r: Vector2)
        ensures
            r == Vector2::zero_spec(),
    {
        Vector2 { x: Number::zero(), y: Number::zero() }
    }

    pub fn splat(v: Number) -> (r: Vector2)
        ensures
            r == Vector2::splat_spec(v),
    {
        Vector2 { x: v, y: v }
    }

    pub fn add(self, rhs: Vector2) -> (r: Vector2)
        ensures
            r == self.add_spec(rhs),
    {
        Vector2 { x: self.x.add(rhs.x), y: self.y.add(rhs.y) }
    }

    pub fn sub(self, rhs: Vector2) -> (r: Vector2)
        ensures
            r == self.sub_spec(rhs),
    {
        Vector2 { x: self.x.sub(rhs.x), y: self.y.sub(rhs.y) }
    }

    pub fn neg(self) -> (r: Vector2)
        ensures
            r == self.neg_spec(),
    {
        Vector2 { x: self.x.neg(), y: self.y.neg() }
    }

    pub fn scale(self, k: Number) -> (r: Vector2)
        ensures
            r == self.scale_spec(k),
    {
        Vector2 { x: self.x.mul(k), y: self.y.mul(k) }
    }

    pub fn mul(self, rhs: Vector2) -> (r: Vector2)
        ensures
            r == self.mul_spec(rhs),
    {
        Vector2 { x: self.x.mul(rhs.x), y: self.y.mul(rhs.y) }
    }

    pub fn div(self, rhs: Vector2) -> (r: Vector2)
        ensures
            r == self.div_spec(rhs),
    {
        Vector2 { x: self.x.div(rhs.x), y: self.y.div(rhs.y) }
    }

    pub fn min(self, rhs: Vector2) -> (r: Vector2)
        ensures
            r == self.min_spec(rhs),
    {
        Vector2 { x: self.x.min(rhs.x), y: self.y.min(rhs.y) }
    }

    pub fn max(self, rhs: Vector2) -> (r: Vector2)
        ensures
            r == self.max_spec(rhs),
    {
        Vector2 { x: self.x.max(rhs.x), y: self.y.max(rhs.y) }
    }
}

impl DeepView for Vector2 {
    type V = Vector2;

    open spec fn deep_view(&self) -> Vector2 {
        *self
    }
}

/// An axis-aligned rectangle, held as its upper left and lower right corners.
#[derive(Clone, Copy, PartialEq, Eq, Structural, Debug)]
pub struct Rect2 {
    pub min: Vector2,
    pub max: Vector2,
}

impl Rect2 {
    pub open spec fn new_spec(origin: Vector2, size: Vector2) -> Rect2 {
        Rect2 { min: origin, max: origin.add_spec(size) }
    }

    pub open spec fn size_spec(self) -> Vector2 {
        self.max.sub_spec(self.min)
    }

    pub open spec fn width_spec(self) -> Number {
        self.max.x.sub_spec(self.min.x)
    }

    pub open spec fn height_spec(self) -> Number {
        self.max.y.sub_spec(self.min.y)
    }

    /// The smallest rectangle that holds both.
    pub open spec fn union_spec(self, other: Rect2) -> Rect2 {
        Rect2 { min: self.min.min_spec(other.min), max: self.max.max_spec(other.max) }
    }

    /// Whether the two rectangles share a region of positive width and height.
    pub open spec fn intersects_spec(self, other: Rect2) -> bool {
        &&& self.min.x.raw < other.max.x.raw
        &&& self.min.y.raw < other.max.y.raw
        &&& other.min.x.raw < self.max.x.raw
        &&& other.min.y.raw < self.max.y.raw
    }

    /// The region the two share, if there is one.
    pub open spec fn intersection_spec(self, other: Rect2) -> Option<Rect2> {
        if self.intersects_spec(other) {
            Some(Rect2 { min: self.min.max_spec(other.min), max: self.max.min_spec(other.max) })
        } else {
            None
        }
    }

    /// The rectangle grown by `amount` on every side.
    pub open spec fn dilate_spec(self, amount: Vector2) -> Rect2 {
        Rect2 { min: self.min.sub_spec(amount), max: self.max.add_spec(amount) }
    }

    pub fn new(origin: Vector2, size: Vector2) -> (r: Rect2)
        ensures
            r == Rect2::new_spec(origin, size),
    {
        Rect2 { min: origin, max: origin.add(size) }
    }

    pub fn from_points(min: Vector2, max: Vector2) -> (r: Rect2)
        ensures
            r == (Rect2 { min, max }),
    {
        Rect2 { min, max }
    }

    pub fn origin(self) -> (r: Vector2)
        ensures
            r == self.min,
    {
        self.min
    }

    pub fn lower_right(self) -> (r: Vector2)
        ensures
            r == self.max,
    {
        self.max
    }

    pub fn size(self) -> (r: Vector2)
        ensures
            r == self.size_spec(),
    {
        self.max.sub(self.min)
    }

    pub fn width(self) -> (r: Number)
        ensures
            r == self.width_spec(),
    {
        self.max.x.sub(self.min.x)
    }

    pub fn height(self) -> (r: Number)
        ensures
            r == self.height_spec(),
    {
        self.max.y.sub(self.min.y)
    }

    pub fn union_rect(self, other: Rect2) -> (r: Rect2)
        ensures
            r == self.union_spec(other),
    {
        Rect2 { min: self.min.min(other.min), max: self.max.max(other.max) }
    }

    pub fn intersects(self, other: Rect2) -> (r: bool)
        ensures
            r == self.intersects_spec(other),
    {
        self.min.x.lt(other.max.x) && self.min.y.lt(other.max.y) && other.min.x.lt(self.max.x)
            && other.min.y.lt(self.max.y)
    }

    pub fn intersection(self, other: Rect2) -> (r: Option<Rect2>)
        ensures
            r == self.intersection_spec(other),
    {
        if self.intersects(other) {
            Some(Rect2 { min: self.min.max(other.min), max: self.max.min(other.max) })
        } else {
            None
        }
    }

    pub fn dilate(self, amount: Vector2) -> (r: Rect2)
        ensures
            r == self.dilate_spec(amount),
    {
        Rect2 { min: self.min.sub(amount), max: self.max.add(amount) }
    }
}

impl DeepView for Rect2 {
    type V = Rect2;

    open spec fn deep_view(&self) -> Rect2 {
        *self
    }
}

/// An affine map of the plane: `p` goes to `matrix * p + vector`.
#[derive(Clone, Copy, PartialEq, Eq, Structural, Debug)]
pub struct Transform2 {
    pub m11: Number,
    pub m12: Number,
    pub m21: Number,
    pub m22: Number,
    pub vector: Vector2,
}

impl Transform2 {
    pub open spec fn identity_spec() -> Transform2 {
        Transform2::from_scale_spec(Vector2::splat_spec(Number::one_spec()))
    }

    pub open spec fn from_scale_spec(scale: Vector2) -> Transform2 {
        Transform2 {
            m11: scale.x,
            m12: Number::zero_spec(),
            m21: Number::zero_spec(),
            m22: scale.y,
            vector: Vector2::zero_spec(),
        }
    }

    pub open spec fn from_translation_spec(vector: Vector2) -> Transform2 {
        Transform2 {
            m11: Number::one_spec(),
            m12: Number::zero_spec(),
            m21: Number::zero_spec(),
            m22: Number::one_spec(),
            vector,
        }
    }

    /// The rotation by `angle` degrees around the origin.
    pub open spec fn from_rotation_spec(angle: Number) -> Transform2 {
        let (s, c) = angle.sin_cos_spec();
        Transform2 { m11: c, m12: s.neg_spec(), m21: s, m22: c, vector: Vector2::zero_spec() }
    }

    /// The image of the point `p`.
    pub open spec fn apply_spec(self, p: Vector2) -> Vector2 {
        Vector2 {
            x: self.m11.mul_spec(p.x).add_spec(self.m12.mul_spec(p.y)).add_spec(self.vector.x),
            y: self.m21.mul_spec(p.x).add_spec(self.m22.mul_spec(p.y)).add_spec(self.vector.y),
        }
    }

    /// The map that applies `other` first and `self` second.
    pub open spec fn compose_spec(self, other: Transform2) -> Transform2 {
        Transform2 {
            m11: self.m11.mul_spec(other.m11).add_spec(self.m12.mul_spec(other.m21)),
            m12: self.m11.mul_spec(other.m12).add_spec(self.m12.mul_spec(other.m22)),
            m21: self.m21.mul_spec(other.m11).add_spec(self.m22.mul_spec(other.m21)),
            m22: self.m21.mul_spec(other.m12).add_spec(self.m22.mul_spec(other.m22)),
            vector: self.apply_spec(other.vector),
        }
    }

    /// The smallest axis-aligned rectangle that holds the images of the four corners of `rect`.
    pub open spec fn apply_rect_spec(self, rect: Rect2) -> Rect2 {
        let a = self.apply_spec(rect.min);
        let b = self.apply_spec(Vector2 { x: rect.max.x, y: rect.min.y });
        let c = self.apply_spec(Vector2 { x: rect.min.x, y: rect.max.y });
        let d = self.apply_spec(rect.max);
        Rect2 {
            min: a.min_spec(b).min_spec(c).min_spec(d),
            max: a.max_spec(b).max_spec(c).max_spec(d),
        }
    }

    pub fn identity() -> (r: Transform2)
        ensures
            r == Transform2::identity_spec(),
    {
        Transform2::from_scale(Vector2::splat(Number::one()))
    }

    pub fn from_scale(scale: Vector2) -> (r: Transform2)
        ensures
            r == Transform2::from_scale_spec(scale),
    {
        Transform2 {
            m11: scale.x,
            m12: Number::zero(),
            m21: Number::zero(),
            m22: scale.y,
            vector: Vector2::zero(),
        }
    }

    pub fn from_translation(vector: Vector2) -> (r: Transform2)
        ensures
            r == Transform2::from_translation_spec(vector),
    {
        Transform2 {
            m11: Number::one(),
            m12: Number::zero(),
            m21: Number::zero(),
            m22: Number::one(),
            vector,
        }
    }

    pub fn from_rotation(angle: Number) -> (r: Transform2)
        ensures
            r == Transform2::from_rotation_spec(angle),
    {
        let (s, c) = angle.sin_cos();
        Transform2 { m11: c, m12: s.neg(), m21: s, m22: c, vector: Vector2::zero() }
    }

    /// The map `(x, y) -> (a x + c y + e, b x + d y + f)`.
    pub fn from_matrix(a: Number, b: Number, c: Number, d: Number, e: Number, f: Number) -> (r:
        Transform2)
        ensures
            r == (Transform2 { m11: a, m12: c, m21: b, m22: d, vector: Vector2 { x: e, y: f } }),
    {
        Transform2 { m11: a, m12: c, m21: b, m22: d, vector: Vector2 { x: e, y: f } }
    }

    pub fn apply(self, p: Vector2) -> (r: Vector2)
        ensures
            r == self.apply_spec(p),
    {
        Vector2 {
            x: self.m11.mul(p.x).add(self.m12.mul(p.y)).add(self.vector.x),
            y: self.m21.mul(p.x).add(self.m22.mul(p.y)).add(self.vector.y),
        }
    }

    pub fn compose(self, other: Transform2) -> (r: Transform2)
        ensures
            r == self.compose_spec(other),
    {
        Transform2 {
            m11: self.m11.mul(other.m11).add(self.m12.mul(other.m21)),
            m12: self.m11.mul(other.m12).add(self.m12.mul(other.m22)),
            m21: self.m21.mul(other.m11).add(self.m22.mul(other.m21)),
            m22: self.m21.mul(other.m12).add(self.m22.mul(other.m22)),
            vector: self.apply(other.vector),
        }
    }

    pub fn apply_rect(self, rect: Rect2) -> (r: Rect2)
        ensures
            r == self.apply_rect_spec(rect),
    {
        let a = self.apply(rect.min);
        let b = self.apply(Vector2 { x: rect.max.x, y: rect.min.y });
        let c = self.apply(Vector2 { x: rect.min.x, y: rect.max.y });
        let d = self.apply(rect.max);
        Rect2 { min: a.min(b).min(c).min(d), max: a.max(b).max(c).max(d) }
    }
}

impl DeepView for Transform2 {
    type V = Transform2;

    open spec fn deep_view(&self) -> Transform2 {
        *self
    }
}

/// The skew along the x axis by `angle` degrees.
pub open spec fn skew_x_spec(angle: Number) -> Transform2 {
    Transform2 {
        m11: Number::one_spec(),
        m12: angle.tan_spec(),
        m21: Number::zero_spec(),
        m22: Number::one_spec(),
        vector: Vector2::zero_spec(),
    }
}

/// The skew along the y axis by `angle` degrees.
pub open spec fn skew_y_spec(angle: Number) -> Transform2 {
    Transform2 {
        m11: Number::one_spec(),
        m12: Number::zero_spec(),
        m21: angle.tan_spec(),
        m22: Number::one_spec(),
        vector: Vector2::zero_spec(),
    }
}

pub fn skew_x(angle: Number) -> (r: Transform2)
    ensures
        r == skew_x_spec(angle),
{
    Transform2 {
        m11: Number::one(),
        m12: angle.tan(),
        m21: Number::zero(),
        m22: Number::one(),
        vector: Vector2::zero(),
    }
}

pub fn skew_y(angle: Number) -> (r: Transform2)
    ensures
        r == skew_y_spec(angle),
{
    Transform2 {
        m11: Number::one(),
        m12: Number::zero(),
        m21: angle.tan(),
        m22: Number::one(),
        vector: Vector2::zero(),
    }
}

} // verus!
