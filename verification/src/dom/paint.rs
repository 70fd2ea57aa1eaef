//! Colours and paints.

use crate::chars::{has_prefix_at, starts_with, to_chars, to_string};
use crate::dom::error::Error;
use crate::dom::gradient::ColorU;
use crate::dom::parser::{func_iri_spec, invalid_value, scan_id};
use crate::dom::parser::color::{color_at, color_spec};
use crate::dom::util::{parsed, Duplicate, Parse};
use crate::number::Number;
use vstd::prelude::*;

verus! {

/// A colour; each channel runs from `0` (none) to `1` (full).
#[derive(Clone, Copy, PartialEq, Eq, Structural, Debug)]
pub struct Color {
    pub red: Number,
    pub green: Number,
    pub blue: Number,
}

impl Color {
    pub open spec fn from_srgb_u8_spec(r: u8, g: u8, b: u8) -> Color {
        Color {
            red: Number::from_ratio_spec(r as i64, 255),
            green: Number::from_ratio_spec(g as i64, 255),
            blue: Number::from_ratio_spec(b as i64, 255),
        }
    }

    pub open spec fn black_spec() -> Color {
        Color { red: Number::zero_spec(), green: Number::zero_spec(), blue: Number::zero_spec() }
    }

    /// The colour whose channels are `r / 255`, `g / 255` and `b / 255`.
    pub fn from_srgb_u8(r: u8, g: u8, b: u8) -> (c: Color)
        ensures
            c == Color::from_srgb_u8_spec(r, g, b),
    {
        Color {
            red: Number::from_ratio(r as i64, 255),
            green: Number::from_ratio(g as i64, 255),
            blue: Number::from_ratio(b as i64, 255),
        }
    }

    /// The colour with the opacity `alpha`, each channel as one of 256 levels.
    pub open spec fn color_u_spec(&self, alpha: Number) -> ColorU {
        ColorU {
            r: self.red.round_to_u8_spec(),
            g: self.green.round_to_u8_spec(),
            b: self.blue.round_to_u8_spec(),
            a: alpha.round_to_u8_spec(),
        }
    }

    pub fn color_u(&self, alpha: Number) -> (c: ColorU)
        ensures
            c == self.color_u_spec(alpha),
    {
        ColorU {
            r: self.red.round_to_u8(),
            g: self.green.round_to_u8(),
            b: self.blue.round_to_u8(),
            a: alpha.round_to_u8(),
        }
    }

    pub fn black() -> (c: Color)
        ensures
            c == Color::black_spec(),
    {
        Color { red: Number::zero(), green: Number::zero(), blue: Number::zero() }
    }
}

impl DeepView for Color {
    type V = Color;

    open spec fn deep_view(&self) -> Color {
        *self
    }
}

/// What a shape is filled or stroked with.
#[derive(Debug, Clone, PartialEq, Eq)]
pub enum Paint {
    /// Nothing is painted.
    Nothing,
    /// One colour.
    Color(Color),
    /// The gradient with this id.
    Ref(String),
}

/// A [`Paint`] with the id as a sequence of characters.
pub enum PaintModel {
    Nothing,
    Color(Color),
    Ref(Seq<char>),
}

impl DeepView for Paint {
    type V = PaintModel;

    open spec fn deep_view(&self) -> PaintModel {
        match *self {
            Paint::Nothing => PaintModel::Nothing,
            Paint::Color(c) => PaintModel::Color(c),
            Paint::Ref(s) => PaintModel::Ref(s@),
        }
    }
}

impl Paint {
    pub open spec fn black_spec() -> PaintModel {
        PaintModel::Color(Color::black_spec())
    }

    pub fn is_none(&self) -> (r: bool)
        ensures
            r == (self.deep_view() is Nothing),
    {
        match self {
            Paint::Nothing => true,
            _ => false,
        }
    }

    pub fn black() -> (r: Paint)
        ensures
            r.deep_view() == Paint::black_spec(),
    {
        Paint::Color(Color::black())
    }

    pub fn is_visible(&self) -> (r: bool)
        ensures
            r == !(self.deep_view() is Nothing),
    {
        match self {
            Paint::Nothing => false,
            _ => true,
        }
    }

    /// A copy of this paint.
    pub fn duplicate(&self) -> (r: Paint)
        ensures
            r.deep_view() == self.deep_view(),
    {
        match self {
            Paint::Nothing => Paint::Nothing,
            Paint::Color(c) => Paint::Color(*c),
            Paint::Ref(s) => Paint::Ref(s.clone()),
        }
    }
}

impl Parse for Color {
    /// The colour at the start of the text; what follows it is not looked at.
    open spec fn parse_spec(s: Seq<char>) -> Option<Color> {
        match color_spec(s) {
            Some((c, _)) => Some(c),
            None => None,
        }
    }

    fn parse(s: &str) -> (r: Result<Color, Error>) {
        parse_color(s)
    }
}

/// Reads the colour at the start of `s`. What follows it is not looked at.
pub fn parse_color(s: &str) -> (r: Result<Color, Error>)
    ensures
        parsed(r, Color::parse_spec(s@), s@),
{
    let c = to_chars(s);
    match color_at(c.as_slice()) {
        Some((color, _)) => {
            proof {
                assert(color.deep_view() == color);
            }
            Ok(color)
        },
        None => Err(invalid_value(s)),
    }
}

/// The paint at the start of `s`: `none` and `transparent` for nothing, `url(#id)` for a
/// reference, or a colour. What follows it is not looked at.
pub open spec fn paint_spec(s: Seq<char>) -> Option<PaintModel> {
    if starts_with(s, "none"@) {
        Some(PaintModel::Nothing)
    } else if starts_with(s, "transparent"@) {
        Some(PaintModel::Nothing)
    } else {
        match func_iri_spec(s) {
            Some(end) => Some(PaintModel::Ref(s.subrange(5, end))),
            None => match color_spec(s) {
                Some((c, _)) => Some(PaintModel::Color(c)),
                None => None,
            },
        }
    }
}

/// Reads the paint at the start of `s`.
pub fn parse_paint(s: &str) -> (r: Result<Paint, Error>)
    ensures
        parsed(r, paint_spec(s@), s@),
{
    let v = to_chars(s);
    let c = v.as_slice();
    proof {
        assert(c@.subrange(0, c@.len() as int) =~= c@);
        reveal_strlit("url(#");
    }
    if has_prefix_at(c, 0, "none") {
        Ok(Paint::Nothing)
    } else if has_prefix_at(c, 0, "transparent") {
        Ok(Paint::Nothing)
    } else {
        if has_prefix_at(c, 0, "url(#") {
            let end = scan_id(c, 5);
            if end > 5 && end < c.len() && c[end] == ')' {
                return Ok(Paint::Ref(to_string(c, 5, end)));
            }
        }
        match color_at(c) {
            Some((color, _)) => Ok(Paint::Color(color)),
            None => Err(invalid_value(s)),
        }
    }
}

impl Parse for Paint {
    open spec fn parse_spec(s: Seq<char>) -> Option<PaintModel> {
        paint_spec(s)
    }

    fn parse(s: &str) -> (r: Result<Paint, Error>) {
        parse_paint(s)
    }
}

impl Duplicate for Paint {
    fn duplicate(&self) -> (r: Paint) {
        Paint::duplicate(self)
    }
}

} // verus!
