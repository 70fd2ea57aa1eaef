//! How colours and paints are moved and put on top of each other.

use crate::dom::paint::{Color, Paint, PaintModel};
use crate::draw::{Compose, Interpolate};
use crate::draw::animate::{lerp_number, lerp_numbers};
use crate::number::Number;
use vstd::prelude::*;

verus! {

/// [`lerp_number`] on the three channels.
pub open spec fn lerp_color(a: Color, b: Color, x: Number) -> Color {
    Color {
        red: lerp_number(a.red, b.red, x),
        green: lerp_number(a.green, b.green, x),
        blue: lerp_number(a.blue, b.blue, x),
    }
}

/// The three channels multiplied by `x`.
pub open spec fn scale_color(a: Color, x: Number) -> Color {
    Color { red: a.red.mul_spec(x), green: a.green.mul_spec(x), blue: a.blue.mul_spec(x) }
}

/// The channels added one by one.
pub open spec fn add_color(a: Color, b: Color) -> Color {
    Color {
        red: a.red.add_spec(b.red),
        green: a.green.add_spec(b.green),
        blue: a.blue.add_spec(b.blue),
    }
}

fn lerp_colors(a: Color, b: Color, x: Number) -> (r: Color)
    ensures
        r == lerp_color(a, b, x),
{
    Color {
        red: lerp_numbers(a.red, b.red, x),
        green: lerp_numbers(a.green, b.green, x),
        blue: lerp_numbers(a.blue, b.blue, x),
    }
}

fn scale_colors(a: Color, x: Number) -> (r: Color)
    ensures
        r == scale_color(a, x),
{
    Color { red: a.red.mul(x), green: a.green.mul(x), blue: a.blue.mul(x) }
}

fn add_colors(a: Color, b: Color) -> (r: Color)
    ensures
        r == add_color(a, b),
{
    Color { red: a.red.add(b.red), green: a.green.add(b.green), blue: a.blue.add(b.blue) }
}

impl Interpolate for Color {
    open spec fn lerp_spec(a: Color, b: Color, x: Number) -> Color {
        lerp_color(a, b, x)
    }

    open spec fn scale_spec(a: Color, x: Number) -> Color {
        scale_color(a, x)
    }

    fn lerp(self, to: Color, x: Number) -> (r: Color) {
        let r = lerp_colors(self, to, x);
        proof {
            assert(self.deep_view() == self && to.deep_view() == to && r.deep_view() == r);
        }
        r
    }

    fn scale(self, x: Number) -> (r: Color) {
        let r = scale_colors(self, x);
        proof {
            assert(self.deep_view() == self && r.deep_view() == r);
        }
        r
    }
}

impl Compose for Color {
    open spec fn compose_spec(a: Color, b: Color) -> Color {
        add_color(a, b)
    }

    fn compose(self, rhs: Color) -> (r: Color) {
        let r = add_colors(self, rhs);
        proof {
            assert(self.deep_view() == self && rhs.deep_view() == rhs && r.deep_view() == r);
        }
        r
    }
}

impl Interpolate for Paint {
    /// Two colours are moved; of other paints the first stays, unless it is nothing.
    open spec fn lerp_spec(a: PaintModel, b: PaintModel, x: Number) -> PaintModel {
        match (a, b) {
            (PaintModel::Color(a), PaintModel::Color(b)) => PaintModel::Color(lerp_color(a, b, x)),
            (PaintModel::Nothing, b) => b,
            (a, _) => a,
        }
    }

    open spec fn scale_spec(a: PaintModel, x: Number) -> PaintModel {
        match a {
            PaintModel::Color(a) => PaintModel::Color(scale_color(a, x)),
            p => p,
        }
    }

    fn lerp(self, to: Paint, x: Number) -> (r: Paint) {
        proof {
            assert(self.deep_view() is Nothing <==> self is Nothing);
        }
        match (self, to) {
            (Paint::Color(a), Paint::Color(b)) => Paint::Color(lerp_colors(a, b, x)),
            (Paint::Nothing, b) => b,
            (a, _) => a,
        }
    }

    fn scale(self, x: Number) -> (r: Paint) {
        match self {
            Paint::Color(a) => Paint::Color(scale_colors(a, x)),
            p => p,
        }
    }
}

impl Compose for Paint {
    /// Two colours are added; of other paints the first stays, unless it is nothing.
    open spec fn compose_spec(a: PaintModel, b: PaintModel) -> PaintModel {
        match (a, b) {
            (PaintModel::Color(a), PaintModel::Color(b)) => PaintModel::Color(add_color(a, b)),
            (PaintModel::Nothing, b) => b,
            (a, _) => a,
        }
    }

    fn compose(self, rhs: Paint) -> (r: Paint) {
        proof {
            assert(self.deep_view() is Nothing <==> self is Nothing);
        }
        match (self, rhs) {
            (Paint::Color(a), Paint::Color(b)) => Paint::Color(add_colors(a, b)),
            (Paint::Nothing, b) => b,
            (a, _) => a,
        }
    }
}

} // verus!
