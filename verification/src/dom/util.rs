//! Lengths with units, and small types shared by the elements.

use crate::chars::{to_chars, to_string};
use crate::dom::error::Error;
use crate::dom::parser::{func_iri, func_iri_spec, invalid_value, is_invalid_value};
use crate::dom::parser::length::{
    length_list_spec, length_spec, number_spec, parse_length, parse_length_list, parse_number,
};
use crate::number::Number;
use vstd::prelude::*;

verus! {

/// The unit in which a length is written.
#[derive(Clone, Copy, PartialEq, Eq, Structural, Debug)]
pub enum LengthUnit {
    /// No unit: user units.
    Unitless,
    Em,
    Ex,
    Px,
    In,
    Cm,
    Mm,
    Pt,
    Pc,
    Percent,
}

/// A number with the unit it was written in.
#[derive(Clone, Copy, PartialEq, Eq, Structural, Debug)]
pub struct Length {
    pub num: Number,
    pub unit: LengthUnit,
}

impl Length {
    pub open spec fn zero_spec() -> Length {
        Length { num: Number::zero_spec(), unit: LengthUnit::Unitless }
    }

    pub fn new(num: Number, unit: LengthUnit) -> (r: Length)
        ensures
            r == (Length { num, unit }),
    {
        Length { num, unit }
    }

    pub fn zero() -> (r: Length)
        ensures
            r == Length::zero_spec(),
    {
        Length { num: Number::zero(), unit: LengthUnit::Unitless }
    }
}

impl DeepView for Length {
    type V = Length;

    open spec fn deep_view(&self) -> Length {
        *self
    }
}

/// A length along the horizontal axis: a percentage of it refers to the width of the view box.
#[derive(Clone, Copy, PartialEq, Eq, Structural, Debug)]
pub struct LengthX(pub Length);

/// A length along the vertical axis: a percentage of it refers to the height of the view box.
#[derive(Clone, Copy, PartialEq, Eq, Structural, Debug)]
pub struct LengthY(pub Length);

impl DeepView for LengthX {
    type V = LengthX;

    open spec fn deep_view(&self) -> LengthX {
        *self
    }
}

impl DeepView for LengthY {
    type V = LengthY;

    open spec fn deep_view(&self) -> LengthY {
        *self
    }
}

impl LengthX {
    pub fn zero() -> (r: LengthX)
        ensures
            r == LengthX(Length::zero_spec()),
    {
        LengthX(Length::zero())
    }
}

impl LengthY {
    pub fn zero() -> (r: LengthY)
        ensures
            r == LengthY(Length::zero_spec()),
    {
        LengthY(Length::zero())
    }
}

/// A pair of lengths, one along each axis.
#[derive(Clone, Copy, PartialEq, Eq, Structural, Debug)]
pub struct Vector(pub LengthX, pub LengthY);

impl Vector {
    /// Whether neither length is written as zero.
    pub fn has_area(&self) -> (r: bool)
        ensures
            r == (self.0.0.num.raw != 0 && self.1.0.num.raw != 0),
    {
        !self.0.0.num.is_zero() && !self.1.0.num.is_zero()
    }
}

/// A rectangle given by lengths, as a `viewBox` is.
#[derive(Clone, Copy, PartialEq, Eq, Structural, Debug)]
pub struct Rect {
    pub x: LengthX,
    pub y: LengthY,
    pub width: LengthX,
    pub height: LengthY,
}

impl Rect {
    /// The rectangle of this size at the origin.
    pub fn from_size(width: LengthX, height: LengthY) -> (r: Rect)
        ensures
            r == (Rect {
                x: LengthX(Length::zero_spec()),
                y: LengthY(Length::zero_spec()),
                width,
                height,
            }),
    {
        Rect { x: LengthX(Length::zero()), y: LengthY(Length::zero()), width, height }
    }

    pub fn origin(&self) -> (r: Vector)
        ensures
            r == Vector(self.x, self.y),
    {
        Vector(self.x, self.y)
    }

    pub fn size(&self) -> (r: Vector)
        ensures
            r == Vector(self.width, self.height),
    {
        Vector(self.width, self.height)
    }
}

impl DeepView for Rect {
    type V = Rect;

    open spec fn deep_view(&self) -> Rect {
        *self
    }
}

/// One of the two axes of the plane.
#[derive(Clone, Copy, PartialEq, Eq, Structural, Debug)]
pub enum Axis {
    X,
    Y,
}

/// The id in a reference of the form `url(#id)`.
#[derive(Debug, Clone, PartialEq, Eq, Hash)]
pub struct Iri(pub String);

/// Either a single value or a list of them.
#[derive(Clone, Debug)]
pub enum OneOrMany<T> {
    One(T),
    Many(Vec<T>),
}

/// `core::slice::from_ref` of the standard library: a reference to one value as a slice of
/// length one that holds that value.
pub assume_specification<T>[ core::slice::from_ref::<T> ](s: &T) -> (r: &[T])
    ensures
        r@ == seq![*s],
;

impl<T> OneOrMany<T> {
    /// The values in order.
    pub open spec fn values(&self) -> Seq<T> {
        match *self {
            OneOrMany::One(t) => seq![t],
            OneOrMany::Many(v) => v@,
        }
    }

    pub fn as_slice(&self) -> (r: &[T])
        ensures
            r@ == self.values(),
    {
        match self {
            OneOrMany::One(t) => core::slice::from_ref(t),
            OneOrMany::Many(v) => v.as_slice(),
        }
    }
}

/// Whether `r` is what reading the text `text` gives, where `expected` is the value that
/// the grammar finds in it: that value, or the error that says that `text` is no value.
pub open spec fn parsed<T: DeepView>(r: Result<T, Error>, expected: Option<T::V>, text: Seq<char>) -> bool {
    match r {
        Ok(v) => expected == Some(v.deep_view()),
        Err(e) => expected is None && is_invalid_value(e, text),
    }
}

/// What can be read from the text of an attribute.
pub trait Parse: Sized + DeepView {
    /// The value that the text `s` stands for; `None` where it stands for none.
    spec fn parse_spec(s: Seq<char>) -> Option<Self::V>;

    fn parse(s: &str) -> (r: Result<Self, Error>)
        ensures
            parsed(r, Self::parse_spec(s@), s@),
    ;
}

/// What can be copied.
pub trait Duplicate: Sized + DeepView {
    fn duplicate(&self) -> (r: Self)
        ensures
            r.deep_view() == self.deep_view(),
    ;
}

impl Parse for Number {
    open spec fn parse_spec(s: Seq<char>) -> Option<Number> {
        number_spec(s)
    }

    fn parse(s: &str) -> (r: Result<Number, Error>) {
        let c = to_chars(s);
        match parse_number(c.as_slice()) {
            Some(n) => {
                proof {
                    assert(n.deep_view() == n);
                }
                Ok(n)
            },
            None => Err(invalid_value(s)),
        }
    }
}

impl Duplicate for Number {
    fn duplicate(&self) -> (r: Number) {
        *self
    }
}

/// Reads a length: a number and, perhaps, a unit.
pub fn length(s: &str) -> (r: Result<Length, Error>)
    ensures
        match r {
            Ok(l) => length_spec(s@) == Some(l),
            Err(e) => length_spec(s@) is None && is_invalid_value(e, s@),
        },
{
    let c = to_chars(s);
    match parse_length(c.as_slice()) {
        Some(l) => Ok(l),
        None => Err(invalid_value(s)),
    }
}

impl Parse for Length {
    open spec fn parse_spec(s: Seq<char>) -> Option<Length> {
        length_spec(s)
    }

    fn parse(s: &str) -> (r: Result<Length, Error>) {
        let r = length(s);
        proof {
            if r is Ok {
                assert(r->Ok_0.deep_view() == r->Ok_0);
            }
        }
        r
    }
}

impl Duplicate for Length {
    fn duplicate(&self) -> (r: Length) {
        *self
    }
}

/// The length along the x axis that `s` stands for.
pub open spec fn length_x_spec(s: Seq<char>) -> Option<LengthX> {
    match length_spec(s) {
        Some(l) => Some(LengthX(l)),
        None => None,
    }
}

/// The length along the y axis that `s` stands for.
pub open spec fn length_y_spec(s: Seq<char>) -> Option<LengthY> {
    match length_spec(s) {
        Some(l) => Some(LengthY(l)),
        None => None,
    }
}

impl Parse for LengthX {
    open spec fn parse_spec(s: Seq<char>) -> Option<LengthX> {
        length_x_spec(s)
    }

    fn parse(s: &str) -> (r: Result<LengthX, Error>) {
        let c = to_chars(s);
        match parse_length(c.as_slice()) {
            Some(l) => {
                proof {
                    assert(LengthX(l).deep_view() == LengthX(l));
                }
                Ok(LengthX(l))
            },
            None => Err(invalid_value(s)),
        }
    }
}

impl Duplicate for LengthX {
    fn duplicate(&self) -> (r: LengthX) {
        *self
    }
}

impl Parse for LengthY {
    open spec fn parse_spec(s: Seq<char>) -> Option<LengthY> {
        length_y_spec(s)
    }

    fn parse(s: &str) -> (r: Result<LengthY, Error>) {
        let c = to_chars(s);
        match parse_length(c.as_slice()) {
            Some(l) => {
                proof {
                    assert(LengthY(l).deep_view() == LengthY(l));
                }
                Ok(LengthY(l))
            },
            None => Err(invalid_value(s)),
        }
    }
}

impl Duplicate for LengthY {
    fn duplicate(&self) -> (r: LengthY) {
        *self
    }
}

impl Parse for String {
    /// Every text stands for itself.
    open spec fn parse_spec(s: Seq<char>) -> Option<Seq<char>> {
        Some(s)
    }

    fn parse(s: &str) -> (r: Result<String, Error>) {
        let r = s.to_owned();
        proof {
            assert(r.deep_view() == r@);
        }
        Ok(r)
    }
}

impl<T: Parse> Parse for Option<T> {
    /// `none` stands for no value; every other text is read as a value.
    open spec fn parse_spec(s: Seq<char>) -> Option<Option<T::V>> {
        if s == "none"@ {
            Some(None)
        } else {
            match T::parse_spec(s) {
                Some(v) => Some(Some(v)),
                None => None,
            }
        }
    }

    fn parse(s: &str) -> (r: Result<Option<T>, Error>) {
        if crate::chars::str_eq(s, "none") {
            proof {
                assert(None::<T>.deep_view() == None::<T::V>);
            }
            Ok(None)
        } else {
            match T::parse(s) {
                Ok(v) => {
                    proof {
                        assert(Some(v).deep_view() == Some(v.deep_view()));
                    }
                    Ok(Some(v))
                },
                Err(e) => Err(e),
            }
        }
    }
}

impl<T: Duplicate> Duplicate for Option<T> {
    fn duplicate(&self) -> (r: Option<T>) {
        match self {
            Some(v) => {
                let c = v.duplicate();
                proof {
                    assert(Some(c).deep_view() == Some(c.deep_view()));
                    assert(self.deep_view() == Some(v.deep_view()));
                }
                Some(c)
            },
            None => {
                proof {
                    assert(None::<T>.deep_view() == None::<T::V>);
                }
                None
            },
        }
    }
}

impl DeepView for Iri {
    type V = Seq<char>;

    open spec fn deep_view(&self) -> Seq<char> {
        self.0@
    }
}

impl Parse for Iri {
    /// `url(#id)` and nothing after it stands for the id.
    open spec fn parse_spec(s: Seq<char>) -> Option<Seq<char>> {
        match func_iri_spec(s) {
            Some(end) => if end + 1 == s.len() {
                Some(s.subrange(5, end))
            } else {
                None
            },
            None => None,
        }
    }

    fn parse(s: &str) -> (r: Result<Iri, Error>) {
        match func_iri(s) {
            Ok((rest, link)) => {
                if rest.unicode_len() == 0 {
                    Ok(Iri(link.to_owned()))
                } else {
                    Err(invalid_value(s))
                }
            },
            Err(_) => Err(invalid_value(s)),
        }
    }
}

impl Rect {
    /// The rectangle that the first four lengths of the list `s` stand for; `Err(true)`
    /// where the list is too short, `Err(false)` where `s` is no list of lengths.
    pub open spec fn parse_spec(s: Seq<char>) -> Result<Rect, bool> {
        match length_list_spec(s) {
            None => Err(false),
            Some(l) => if l.len() < 4 {
                Err(true)
            } else {
                Ok(
                    Rect {
                        x: LengthX(l[0]),
                        y: LengthY(l[1]),
                        width: LengthX(l[2]),
                        height: LengthY(l[3]),
                    },
                )
            },
        }
    }

    /// Reads a rectangle as a `viewBox` gives it: its corner, its width and its height.
    pub fn parse(s: &str) -> (r: Result<Rect, Error>)
        ensures
            match r {
                Ok(rect) => Rect::parse_spec(s@) == Ok::<Rect, bool>(rect),
                Err(e) => match Rect::parse_spec(s@) {
                    Ok(_) => false,
                    Err(short) => if short {
                        e is TooShort
                    } else {
                        is_invalid_value(e, s@)
                    },
                },
            },
    {
        let c = to_chars(s);
        match parse_length_list(c.as_slice()) {
            None => Err(invalid_value(s)),
            Some(l) => {
                if l.len() < 4 {
                    Err(Error::TooShort)
                } else {
                    Ok(
                        Rect {
                            x: LengthX(l[0]),
                            y: LengthY(l[1]),
                            width: LengthX(l[2]),
                            height: LengthY(l[3]),
                        },
                    )
                }
            },
        }
    }
}

/// A [`OneOrMany`] as plain values.
pub enum OneOrManyModel<V> {
    One(V),
    Many(Seq<V>),
}

impl<T: DeepView> DeepView for OneOrMany<T> {
    type V = OneOrManyModel<T::V>;

    open spec fn deep_view(&self) -> OneOrManyModel<T::V> {
        match *self {
            OneOrMany::One(t) => OneOrManyModel::One(t.deep_view()),
            OneOrMany::Many(v) => OneOrManyModel::Many(v.deep_view()),
        }
    }
}

/// One length or several that the list `s` holds: a list of lengths that is not empty.
pub open spec fn one_or_many_lengths(s: Seq<char>) -> Option<OneOrManyModel<Length>> {
    match length_list_spec(s) {
        Some(l) => if l.len() == 0 {
            None
        } else if l.len() == 1 {
            Some(OneOrManyModel::One(l[0]))
        } else {
            Some(OneOrManyModel::Many(l))
        },
        None => None,
    }
}

impl Parse for OneOrMany<LengthX> {
    open spec fn parse_spec(s: Seq<char>) -> Option<OneOrManyModel<LengthX>> {
        match one_or_many_lengths(s) {
            Some(OneOrManyModel::One(l)) => Some(OneOrManyModel::One(LengthX(l))),
            Some(OneOrManyModel::Many(l)) => Some(
                OneOrManyModel::Many(Seq::new(l.len(), |i: int| LengthX(l[i]))),
            ),
            None => None,
        }
    }

    fn parse(s: &str) -> (r: Result<OneOrMany<LengthX>, Error>) {
        let c = to_chars(s);
        match parse_length_list(c.as_slice()) {
            Some(l) => {
                if l.len() == 0 {
                    Err(invalid_value(s))
                } else if l.len() == 1 {
                    proof {
                        assert(LengthX(l@[0]).deep_view() == LengthX(l@[0]));
                    }
                    Ok(OneOrMany::One(LengthX(l[0])))
                } else {
                    let mut v: Vec<LengthX> = Vec::new();
                    let mut i: usize = 0;
                    while i < l.len()
                        invariant
                            i <= l@.len(),
                            v@.len() == i,
                            forall|j: int| 0 <= j < i ==> #[trigger] v@[j] == LengthX(l@[j]),
                        decreases l@.len() - i,
                    {
                        v.push(LengthX(l[i]));
                        i = i + 1;
                    }
                    proof {
                        assert(v.deep_view() =~= Seq::new(l@.len(), |i: int| LengthX(l@[i]))) by {
                            assert forall|j: int| 0 <= j < v@.len() implies v.deep_view()[j]
                                == LengthX(l@[j]) by {
                                assert(v@[j].deep_view() == v@[j]);
                            }
                        }
                    }
                    Ok(OneOrMany::Many(v))
                }
            },
            None => Err(invalid_value(s)),
        }
    }
}

impl Parse for OneOrMany<LengthY> {
    open spec fn parse_spec(s: Seq<char>) -> Option<OneOrManyModel<LengthY>> {
        match one_or_many_lengths(s) {
            Some(OneOrManyModel::One(l)) => Some(OneOrManyModel::One(LengthY(l))),
            Some(OneOrManyModel::Many(l)) => Some(
                OneOrManyModel::Many(Seq::new(l.len(), |i: int| LengthY(l[i]))),
            ),
            None => None,
        }
    }

    fn parse(s: &str) -> (r: Result<OneOrMany<LengthY>, Error>) {
        let c = to_chars(s);
        match parse_length_list(c.as_slice()) {
            Some(l) => {
                if l.len() == 0 {
                    Err(invalid_value(s))
                } else if l.len() == 1 {
                    proof {
                        assert(LengthY(l@[0]).deep_view() == LengthY(l@[0]));
                    }
                    Ok(OneOrMany::One(LengthY(l[0])))
                } else {
                    let mut v: Vec<LengthY> = Vec::new();
                    let mut i: usize = 0;
                    while i < l.len()
                        invariant
                            i <= l@.len(),
                            v@.len() == i,
                            forall|j: int| 0 <= j < i ==> #[trigger] v@[j] == LengthY(l@[j]),
                        decreases l@.len() - i,
                    {
                        v.push(LengthY(l[i]));
                        i = i + 1;
                    }
                    proof {
                        assert(v.deep_view() =~= Seq::new(l@.len(), |i: int| LengthY(l@[i]))) by {
                            assert forall|j: int| 0 <= j < v@.len() implies v.deep_view()[j]
                                == LengthY(l@[j]) by {
                                assert(v@[j].deep_view() == v@[j]);
                            }
                        }
                    }
                    Ok(OneOrMany::Many(v))
                }
            },
            None => Err(invalid_value(s)),
        }
    }
}

impl Parse for OneOrMany<Number> {
    /// A single number that is all of the text, or else a list of numbers.
    open spec fn parse_spec(s: Seq<char>) -> Option<OneOrManyModel<Number>> {
        match crate::dom::parser::one_or_many_spec(s) {
            Some(l) => if crate::dom::parser::is_single_number(s) {
                Some(OneOrManyModel::One(l[0]))
            } else {
                Some(OneOrManyModel::Many(l))
            },
            None => None,
        }
    }

    fn parse(s: &str) -> (r: Result<OneOrMany<Number>, Error>) {
        match crate::dom::parser::one_or_many_f32(s) {
            Ok(v) => {
                proof {
                    if v is One {
                        let n = v->One_0;
                        assert(n.deep_view() == n);
                        assert(v.values()[0] == n);
                    } else {
                        let l = v->Many_0;
                        assert(l.deep_view() =~= l@) by {
                            assert forall|j: int| 0 <= j < l@.len() implies l.deep_view()[j]
                                == l@[j] by {
                                assert(l@[j].deep_view() == l@[j]);
                            }
                        }
                    }
                }
                Ok(v)
            },
            Err(e) => Err(e),
        }
    }
}

/// Whether `c` is white space at the ends of a text.
pub open spec fn is_blank(c: char) -> bool {
    c == ' ' || c == '\t' || c == '\n' || c == '\r' || c == '\x0b' || c == '\x0c'
}

fn is_blank_char(c: char) -> (r: bool)
    ensures
        r == is_blank(c),
{
    c == ' ' || c == '\t' || c == '\n' || c == '\r' || c == '\x0b' || c == '\x0c'
}

/// The place of the first character of `s[from..to]` that is not white space, or `to`.
pub open spec fn trim_start(s: Seq<char>, from: int, to: int) -> int
    decreases to - from,
{
    if from < to && 0 <= from < s.len() && is_blank(s[from]) {
        trim_start(s, from + 1, to)
    } else {
        from
    }
}

/// The place after the last character of `s[from..to]` that is not white space, or `from`.
pub open spec fn trim_end(s: Seq<char>, from: int, to: int) -> int
    decreases to - from,
{
    if from < to && 0 < to <= s.len() && is_blank(s[to - 1]) {
        trim_end(s, from, to - 1)
    } else {
        to
    }
}

/// `s[from..to]` without the white space at its ends.
pub open spec fn trimmed(s: Seq<char>, from: int, to: int) -> Seq<char> {
    let a = trim_start(s, from, to);
    s.subrange(a, trim_end(s, a, to))
}

fn trim(s: &[char], from: usize, to: usize) -> (r: String)
    requires
        from <= to <= s@.len(),
    ensures
        r@ == trimmed(s@, from as int, to as int),
{
    let mut a: usize = from;
    while a < to && is_blank_char(s[a])
        invariant
            from <= a <= to <= s@.len(),
            trim_start(s@, from as int, to as int) == trim_start(s@, a as int, to as int),
        decreases to - a,
    {
        a = a + 1;
    }
    let mut b: usize = to;
    while a < b && is_blank_char(s[b - 1])
        invariant
            a <= b <= to <= s@.len(),
            trim_end(s@, a as int, to as int) == trim_end(s@, a as int, b as int),
        decreases b - a,
    {
        b = b - 1;
    }
    to_string(s, a, b)
}

/// The place of the first `c` in `s[from..to]`, or `to`.
pub open spec fn find_char(s: Seq<char>, c: char, from: int, to: int) -> int
    decreases to - from,
{
    if from < to && 0 <= from < s.len() && s[from] != c {
        find_char(s, c, from + 1, to)
    } else {
        from
    }
}

fn find(s: &[char], c: char, from: usize, to: usize) -> (r: usize)
    requires
        from <= to <= s@.len(),
    ensures
        r == find_char(s@, c, from as int, to as int),
        from <= r <= to,
{
    let mut i: usize = from;
    while i < to && s[i] != c
        invariant
            from <= i <= to <= s@.len(),
            find_char(s@, c, from as int, to as int) == find_char(s@, c, i as int, to as int),
        decreases to - i,
    {
        i = i + 1;
    }
    i
}

/// The parts of the list `s` from `from` on: the text is cut at every `;`, and each part is
/// taken without the white space at its ends. `limit` bounds how many parts are looked at.
pub open spec fn parts_from(s: Seq<char>, from: int, limit: nat) -> Seq<Seq<char>>
    decreases limit,
{
    if limit == 0 || from > s.len() {
        Seq::empty()
    } else {
        let end = find_char(s, ';', from, s.len() as int);
        seq![trimmed(s, from, end)] + parts_from(s, end + 1, (limit - 1) as nat)
    }
}

/// The parts of the list `s`, which are parted by `;`.
pub open spec fn parts_spec(s: Seq<char>) -> Seq<Seq<char>> {
    parts_from(s, 0, s.len() + 1)
}

/// The texts as sequences of characters.
pub open spec fn strings_view(v: Seq<String>) -> Seq<Seq<char>> {
    Seq::new(v.len(), |i: int| v[i]@)
}

/// The parts of a list whose items are parted by `;`.
pub fn split_list(s: &str) -> (r: Vec<String>)
    ensures
        strings_view(r@) == parts_spec(s@),
{
    let c = to_chars(s);
    let c = c.as_slice();
    let n: usize = c.len();
    let mut out: Vec<String> = Vec::new();
    let mut from: usize = 0;
    let mut budget: usize = n;
    let mut first: bool = true;
    proof {
        assert(strings_view(out@) =~= Seq::empty());
        assert(Seq::<Seq<char>>::empty() + parts_spec(s@) =~= parts_spec(s@));
    }
    loop
        invariant
            c@ == s@,
            n == c@.len(),
            from <= n,
            budget <= n,
            parts_spec(s@) == strings_view(out@) + parts_from(
                s@,
                from as int,
                (budget + if first { 1int } else { 0int }) as nat,
            ),
        decreases budget + if first { 1int } else { 0int },
    {
        if budget == 0 && !first {
            proof {
                assert(strings_view(out@) + Seq::<Seq<char>>::empty() =~= strings_view(out@));
            }
            return out;
        }
        let end = find(c, ';', from, n);
        let ghost before = strings_view(out@);
        let part = trim(c, from, end);
        proof {
            let left = (budget + if first { 1int } else { 0int } - 1) as nat;
            let rest = parts_from(s@, end + 1, left);
            assert(before.push(part@) + rest =~= before + (seq![part@] + rest));
        }
        out.push(part);
        proof {
            assert(strings_view(out@) =~= before.push(part@));
        }
        if end >= n {
            proof {
                assert(strings_view(out@) + Seq::<Seq<char>>::empty() =~= strings_view(out@));
            }
            return out;
        }
        from = end + 1;
        if first {
            first = false;
        } else {
            budget = budget - 1;
        }
    }
}

/// A declaration of a `style` attribute: a property and its value.
#[derive(Clone, Debug, PartialEq, Eq)]
pub struct Declaration {
    pub key: String,
    pub value: String,
}

/// The declarations of the style text `s` from `from` on. The text is cut at every `;`;
/// a part with a `:` gives a declaration, cut at the first `:` and without white space at
/// the ends of both halves; a part without one gives nothing. `limit` bounds how many
/// parts are looked at.
pub open spec fn declarations_from(s: Seq<char>, from: int, limit: nat) -> Seq<
    (Seq<char>, Seq<char>),
>
    decreases limit,
{
    if limit == 0 || from > s.len() {
        Seq::empty()
    } else {
        let end = find_char(s, ';', from, s.len() as int);
        let colon = find_char(s, ':', from, end);
        let rest = declarations_from(s, end + 1, (limit - 1) as nat);
        if colon < end {
            seq![(trimmed(s, from, colon), trimmed(s, colon + 1, end))] + rest
        } else {
            rest
        }
    }
}

/// The declarations of the style text `s`.
pub open spec fn style_list_spec(s: Seq<char>) -> Seq<(Seq<char>, Seq<char>)> {
    declarations_from(s, 0, s.len() + 1)
}

/// The declarations as pairs of texts.
pub open spec fn declarations_view(v: Seq<Declaration>) -> Seq<(Seq<char>, Seq<char>)> {
    Seq::new(v.len(), |i: int| (v[i].key@, v[i].value@))
}

/// The declarations of a `style` attribute, in order.
pub fn style_list(s: &str) -> (r: Vec<Declaration>)
    ensures
        declarations_view(r@) == style_list_spec(s@),
{
    let c = to_chars(s);
    let c = c.as_slice();
    let n: usize = c.len();
    let mut out: Vec<Declaration> = Vec::new();
    let mut from: usize = 0;
    let mut budget: usize = n;
    let mut first: bool = true;
    proof {
        assert(declarations_view(out@) =~= Seq::empty());
        assert(Seq::<(Seq<char>, Seq<char>)>::empty() + style_list_spec(s@) =~= style_list_spec(
            s@,
        ));
    }
    loop
        invariant
            c@ == s@,
            n == c@.len(),
            from <= n + 1,
            budget <= n,
            style_list_spec(s@) == declarations_view(out@) + declarations_from(
                s@,
                from as int,
                (budget + if first { 1int } else { 0int }) as nat,
            ),
        decreases budget + if first { 1int } else { 0int },
    {
        if from > n || (budget == 0 && !first) {
            proof {
                assert(declarations_view(out@) + Seq::<(Seq<char>, Seq<char>)>::empty()
                    =~= declarations_view(out@));
            }
            return out;
        }
        let end = find(c, ';', from, n);
        let colon = find(c, ':', from, end);
        proof {
            let left = (budget + if first { 1int } else { 0int } - 1) as nat;
            let rest = declarations_from(s@, end + 1, left);
            if colon < end {
                let d = (trimmed(s@, from as int, colon as int), trimmed(s@, colon + 1, end as int));
                assert(declarations_view(out@).push(d) + rest =~= declarations_view(out@) + (seq![d]
                    + rest));
            }
        }
        if colon < end {
            let ghost before = declarations_view(out@);
            let key = trim(c, from, colon);
            let value = trim(c, colon + 1, end);
            out.push(Declaration { key, value });
            proof {
                assert(declarations_view(out@) =~= before.push((key@, value@)));
            }
        }
        if end >= n {
            proof {
                assert(declarations_view(out@) + Seq::<(Seq<char>, Seq<char>)>::empty()
                    =~= declarations_view(out@));
            }
            return out;
        }
        from = end + 1;
        if first {
            first = false;
        } else {
            budget = budget - 1;
        }
    }
}

} // verus!
