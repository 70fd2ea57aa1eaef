//! The presentation attributes that every drawable element carries.

use crate::chars::{has_prefix_at, starts_with, str_eq, to_chars, to_string};
use crate::dom::animate::Transform;
use crate::dom::error::{Error, ErrorModel};
use crate::dom::node::{
    anim_field_spec, err_of, field, field_text, first_of, parse_anim, parse_field, parse_field_spec,
    parse_transform, result_view, transform_field_spec,
};
use crate::dom::paint::{paint_spec, parse_paint as parse_plain_paint, Paint, PaintModel};
use crate::dom::parser::{invalid_value, is_invalid_value};
use crate::dom::parser::length::{length_list_spec, parse_length_list};
use crate::dom::util::{find_char, Duplicate, Iri, Length, LengthY, Parse};
use crate::dom::value::Value;
use crate::dom::xml::{string_view, XmlNode};
use crate::number::Number;
use vstd::prelude::*;

verus! {

/// Which points count as inside an outline that crosses itself.
#[derive(Clone, Copy, PartialEq, Eq, Structural, Debug)]
pub enum FillRule {
    /// The nonzero winding rule.
    Winding,
    /// The even-odd rule.
    EvenOdd,
}

/// The `fill` attribute. `None` stands for the paint of the parent.
#[derive(Debug, Clone)]
pub struct Fill(pub Option<Paint>);

/// The `stroke` attribute. `None` stands for the paint of the parent.
#[derive(Debug, Clone)]
pub struct Stroke(pub Option<Paint>);

/// The view of an optional paint.
pub open spec fn paint_option_view(p: Option<Paint>) -> Option<PaintModel> {
    match p {
        Some(p) => Some(p.deep_view()),
        None => None,
    }
}

impl DeepView for Fill {
    type V = Option<PaintModel>;

    open spec fn deep_view(&self) -> Option<PaintModel> {
        paint_option_view(self.0)
    }
}

impl DeepView for Stroke {
    type V = Option<PaintModel>;

    open spec fn deep_view(&self) -> Option<PaintModel> {
        paint_option_view(self.0)
    }
}

/// The `stroke-dasharray` attribute: the lengths of dashes and gaps in turn, an even number
/// of them.
#[derive(Debug, Clone)]
pub struct DashArray(pub Vec<Length>);

impl DeepView for DashArray {
    type V = Seq<Length>;

    open spec fn deep_view(&self) -> Seq<Length> {
        self.0@
    }
}

/// The `clip-path` attribute.
#[derive(Debug, Clone)]
pub enum ClipPathAttr {
    /// No clipping.
    Nothing,
    /// The clip path with this id.
    Ref(String),
}

/// A [`ClipPathAttr`] with the id as a sequence of characters.
pub enum ClipPathAttrModel {
    Nothing,
    Ref(Seq<char>),
}

impl DeepView for ClipPathAttr {
    type V = ClipPathAttrModel;

    open spec fn deep_view(&self) -> ClipPathAttrModel {
        match *self {
            ClipPathAttr::Nothing => ClipPathAttrModel::Nothing,
            ClipPathAttr::Ref(s) => ClipPathAttrModel::Ref(s@),
        }
    }
}

/// The direction in which text runs.
#[derive(Clone, Copy, PartialEq, Eq, Structural, Debug)]
pub enum TextFlow {
    LeftToRight,
    RightToLeft,
}

/// A language, by its three-letter ISO 639-3 code.
#[derive(Debug, Clone, PartialEq, Eq)]
pub struct Language {
    pub code: String,
}

/// The presentation attributes of one element. A field that is `None` (or, for a paint, holds
/// `None`) takes its value from the parent.
#[derive(Debug, Clone)]
pub struct Attrs {
    pub clip_path: Option<ClipPathAttr>,
    pub clip_rule: Option<FillRule>,
    pub transform: Transform,
    pub opacity: Value<Option<Number>>,
    pub fill: Value<Fill>,
    pub fill_rule: Option<FillRule>,
    pub fill_opacity: Value<Option<Number>>,
    pub stroke: Value<Stroke>,
    pub stroke_width: Value<Option<Length>>,
    pub stroke_opacity: Value<Option<Number>>,
    pub stroke_dasharray: Value<Option<DashArray>>,
    pub stroke_dashoffset: Value<Option<Length>>,
    pub display: bool,
    pub filter: Option<Iri>,
    pub font_size: Value<Option<LengthY>>,
    pub direction: Option<TextFlow>,
    pub lang: Option<Language>,
}

impl Attrs {
    /// The attributes of an element that sets none.
    pub fn new() -> (r: Attrs)
        ensures
            r.is_plain(),
    {
        Attrs {
            clip_path: None,
            clip_rule: Some(FillRule::Winding),
            transform: Transform::default(),
            opacity: Value::new(None),
            fill: Value::new(Fill(None)),
            fill_rule: Some(FillRule::Winding),
            fill_opacity: Value::new(None),
            stroke: Value::new(Stroke(None)),
            stroke_width: Value::new(None),
            stroke_opacity: Value::new(None),
            stroke_dasharray: Value::new(None),
            stroke_dashoffset: Value::new(None),
            display: true,
            filter: None,
            font_size: Value::new(None),
            direction: None,
            lang: None,
        }
    }

    /// Whether these are the attributes of an element that sets none: nothing animated,
    /// everything inherited but the two rules, which are nonzero, displayed.
    pub open spec fn is_plain(&self) -> bool {
        &&& self.clip_path is None
        &&& self.clip_rule == Some(FillRule::Winding)
        &&& self.transform.value == crate::geometry::Transform2::identity_spec()
        &&& self.transform.animations@.len() == 0
        &&& self.opacity.value is None
        &&& self.opacity.animations@.len() == 0
        &&& self.fill.value.0 is None
        &&& self.fill.animations@.len() == 0
        &&& self.fill_rule == Some(FillRule::Winding)
        &&& self.fill_opacity.value is None
        &&& self.fill_opacity.animations@.len() == 0
        &&& self.stroke.value.0 is None
        &&& self.stroke.animations@.len() == 0
        &&& self.stroke_width.value is None
        &&& self.stroke_width.animations@.len() == 0
        &&& self.stroke_opacity.value is None
        &&& self.stroke_opacity.animations@.len() == 0
        &&& self.stroke_dasharray.value is None
        &&& self.stroke_dasharray.animations@.len() == 0
        &&& self.stroke_dashoffset.value is None
        &&& self.stroke_dashoffset.animations@.len() == 0
        &&& self.display
        &&& self.filter is None
        &&& self.font_size.value is None
        &&& self.font_size.animations@.len() == 0
        &&& self.direction is None
        &&& self.lang is None
    }
}

/// The paint that the text `s` of a `fill` or `stroke` stands for: `inherit` and
/// `currentColor` stand for the paint of the parent.
pub open spec fn inherited_paint_spec(s: Seq<char>) -> Option<Option<PaintModel>> {
    if s == "inherit"@ || s == "currentColor"@ || s == "currentcolor"@ {
        Some(None)
    } else {
        match paint_spec(s) {
            Some(p) => Some(Some(p)),
            None => None,
        }
    }
}

/// Reads the paint of a `fill` or `stroke`.
pub fn parse_paint(s: &str) -> (r: Result<Option<Paint>, Error>)
    ensures
        match r {
            Ok(p) => inherited_paint_spec(s@) == Some(paint_option_view(p)),
            Err(e) => inherited_paint_spec(s@) is None && is_invalid_value(e, s@),
        },
{
    if str_eq(s, "inherit") || str_eq(s, "currentColor") || str_eq(s, "currentcolor") {
        Ok(None)
    } else {
        match parse_plain_paint(s) {
            Ok(p) => Ok(Some(p)),
            Err(e) => Err(e),
        }
    }
}

impl Parse for Fill {
    open spec fn parse_spec(s: Seq<char>) -> Option<Option<PaintModel>> {
        inherited_paint_spec(s)
    }

    fn parse(s: &str) -> (r: Result<Fill, Error>) {
        match parse_paint(s) {
            Ok(p) => Ok(Fill(p)),
            Err(e) => Err(e),
        }
    }
}

impl Parse for Stroke {
    open spec fn parse_spec(s: Seq<char>) -> Option<Option<PaintModel>> {
        inherited_paint_spec(s)
    }

    fn parse(s: &str) -> (r: Result<Stroke, Error>) {
        match parse_paint(s) {
            Ok(p) => Ok(Stroke(p)),
            Err(e) => Err(e),
        }
    }
}

fn duplicate_paint(p: &Option<Paint>) -> (r: Option<Paint>)
    ensures
        paint_option_view(r) == paint_option_view(*p),
{
    match p {
        Some(p) => Some(p.duplicate()),
        None => None,
    }
}

impl Duplicate for Fill {
    fn duplicate(&self) -> (r: Fill) {
        Fill(duplicate_paint(&self.0))
    }
}

impl Duplicate for Stroke {
    fn duplicate(&self) -> (r: Stroke) {
        Stroke(duplicate_paint(&self.0))
    }
}

impl DeepView for FillRule {
    type V = FillRule;

    open spec fn deep_view(&self) -> FillRule {
        *self
    }
}

impl Parse for FillRule {
    open spec fn parse_spec(s: Seq<char>) -> Option<FillRule> {
        if s == "nonzero"@ {
            Some(FillRule::Winding)
        } else if s == "evenodd"@ {
            Some(FillRule::EvenOdd)
        } else {
            None
        }
    }

    fn parse(s: &str) -> (r: Result<FillRule, Error>) {
        proof {
            assert(FillRule::Winding.deep_view() == FillRule::Winding);
            assert(FillRule::EvenOdd.deep_view() == FillRule::EvenOdd);
        }
        if str_eq(s, "nonzero") {
            Ok(FillRule::Winding)
        } else if str_eq(s, "evenodd") {
            Ok(FillRule::EvenOdd)
        } else {
            Err(invalid_value(s))
        }
    }
}

/// The fill rule that `s` stands for; `inherit` stands for the rule of the parent.
pub open spec fn inherited_fill_rule_spec(s: Seq<char>) -> Option<Option<FillRule>> {
    if s == "inherit"@ {
        Some(None)
    } else {
        match FillRule::parse_spec(s) {
            Some(r) => Some(Some(r)),
            None => None,
        }
    }
}

/// Reads a fill rule that may be inherited.
pub fn parse_inherited_fill_rule(s: &str) -> (r: Result<Option<FillRule>, Error>)
    ensures
        match r {
            Ok(v) => inherited_fill_rule_spec(s@) == Some(v),
            Err(e) => inherited_fill_rule_spec(s@) is None && is_invalid_value(e, s@),
        },
{
    if str_eq(s, "inherit") {
        Ok(None)
    } else {
        match FillRule::parse(s) {
            Ok(r) => {
                proof {
                    assert(r.deep_view() == r);
                }
                Ok(Some(r))
            },
            Err(e) => Err(e),
        }
    }
}

impl DeepView for TextFlow {
    type V = TextFlow;

    open spec fn deep_view(&self) -> TextFlow {
        *self
    }
}

impl Parse for TextFlow {
    open spec fn parse_spec(s: Seq<char>) -> Option<TextFlow> {
        if s == "ltr"@ {
            Some(TextFlow::LeftToRight)
        } else if s == "rtl"@ {
            Some(TextFlow::RightToLeft)
        } else {
            None
        }
    }

    fn parse(s: &str) -> (r: Result<TextFlow, Error>) {
        proof {
            assert(TextFlow::LeftToRight.deep_view() == TextFlow::LeftToRight);
            assert(TextFlow::RightToLeft.deep_view() == TextFlow::RightToLeft);
        }
        if str_eq(s, "ltr") {
            Ok(TextFlow::LeftToRight)
        } else if str_eq(s, "rtl") {
            Ok(TextFlow::RightToLeft)
        } else {
            Err(invalid_value(s))
        }
    }
}

/// Whether an element with the `display` value `s` is displayed.
pub open spec fn display_spec(s: Seq<char>) -> Option<bool> {
    if s == "none"@ {
        Some(false)
    } else if s == "inline"@ {
        Some(true)
    } else {
        None
    }
}

/// Reads a `display` attribute: `none` or `inline`.
pub fn parse_display(s: &str) -> (r: Result<bool, Error>)
    ensures
        match r {
            Ok(v) => display_spec(s@) == Some(v),
            Err(e) => display_spec(s@) is None && is_invalid_value(e, s@),
        },
{
    if str_eq(s, "none") {
        Ok(false)
    } else if str_eq(s, "inline") {
        Ok(true)
    } else {
        Err(invalid_value(s))
    }
}

/// The id in the text `s` where it has the form `url(#...)`: all that stands between.
pub open spec fn iri_spec(s: Seq<char>) -> Option<Seq<char>> {
    if starts_with(s, "url(#"@) && s.len() >= 6 && s[s.len() - 1] == ')' {
        Some(s.subrange(5, s.len() - 1))
    } else {
        None
    }
}

/// Reads a reference of the form `url(#...)`.
pub fn iri(s: &str) -> (r: Result<String, Error>)
    ensures
        match r {
            Ok(id) => iri_spec(s@) == Some(id@),
            Err(e) => iri_spec(s@) is None && is_invalid_value(e, s@),
        },
{
    let v = to_chars(s);
    let c = v.as_slice();
    let n = c.len();
    proof {
        reveal_strlit("url(#");
        assert(c@.subrange(0, n as int) =~= c@);
    }
    if has_prefix_at(c, 0, "url(#") && n >= 6 && c[n - 1] == ')' {
        Ok(to_string(c, 5, n - 1))
    } else {
        Err(invalid_value(s))
    }
}

/// The view of an optional `clip-path` value.
pub open spec fn clip_path_view(c: Option<ClipPathAttr>) -> Option<ClipPathAttrModel> {
    match c {
        Some(c) => Some(c.deep_view()),
        None => None,
    }
}

impl ClipPathAttr {
    /// What the `clip-path` value `s` stands for: `none` for no clipping, `inherit` for the
    /// clipping of the parent, `url(#id)` for a clip path.
    pub open spec fn parse_spec(s: Seq<char>) -> Option<Option<ClipPathAttrModel>> {
        if s == "none"@ {
            Some(Some(ClipPathAttrModel::Nothing))
        } else if s == "inherit"@ {
            Some(None)
        } else {
            match iri_spec(s) {
                Some(id) => Some(Some(ClipPathAttrModel::Ref(id))),
                None => None,
            }
        }
    }

    /// Reads a `clip-path` attribute.
    pub fn parse(s: &str) -> (r: Result<Option<ClipPathAttr>, Error>)
        ensures
            match r {
                Ok(v) => ClipPathAttr::parse_spec(s@) == Some(clip_path_view(v)),
                Err(e) => ClipPathAttr::parse_spec(s@) is None && is_invalid_value(e, s@),
            },
    {
        if str_eq(s, "none") {
            Ok(Some(ClipPathAttr::Nothing))
        } else if str_eq(s, "inherit") {
            Ok(None)
        } else {
            match iri(s) {
                Ok(id) => Ok(Some(ClipPathAttr::Ref(id))),
                Err(e) => Err(e),
            }
        }
    }
}

impl Parse for DashArray {
    /// A list of lengths; a list of odd length is taken twice over.
    open spec fn parse_spec(s: Seq<char>) -> Option<Seq<Length>> {
        match length_list_spec(s) {
            Some(l) => if l.len() % 2 == 0 {
                Some(l)
            } else {
                Some(l + l)
            },
            None => None,
        }
    }

    fn parse(s: &str) -> (r: Result<DashArray, Error>) {
        let c = to_chars(s);
        match parse_length_list(c.as_slice()) {
            None => Err(invalid_value(s)),
            Some(lengths) => {
                if lengths.len() % 2 == 0 {
                    Ok(DashArray(lengths))
                } else {
                    let mut v: Vec<Length> = Vec::new();
                    let mut round: usize = 0;
                    while round < 2
                        invariant
                            round <= 2,
                            v@ == (if round == 0 {
                                Seq::<Length>::empty()
                            } else if round == 1 {
                                lengths@
                            } else {
                                lengths@ + lengths@
                            }),
                        decreases 2 - round,
                    {
                        let ghost before = v@;
                        let mut i: usize = 0;
                        while i < lengths.len()
                            invariant
                                i <= lengths@.len(),
                                v@ == before + lengths@.take(i as int),
                            decreases lengths@.len() - i,
                        {
                            v.push(lengths[i]);
                            proof {
                                assert(before + lengths@.take(i + 1) =~= (before + lengths@.take(
                                    i as int,
                                )).push(lengths@[i as int]));
                            }
                            i = i + 1;
                        }
                        proof {
                            assert(lengths@.take(lengths@.len() as int) =~= lengths@);
                            assert(Seq::<Length>::empty() + lengths@ =~= lengths@);
                        }
                        round = round + 1;
                    }
                    Ok(DashArray(v))
                }
            },
        }
    }
}

impl Duplicate for DashArray {
    fn duplicate(&self) -> (r: DashArray) {
        let mut v: Vec<Length> = Vec::new();
        let mut i: usize = 0;
        while i < self.0.len()
            invariant
                i <= self.0@.len(),
                v@ == self.0@.take(i as int),
            decreases self.0@.len() - i,
        {
            v.push(self.0[i]);
            proof {
                assert(self.0@.take(i + 1) =~= self.0@.take(i as int).push(self.0@[i as int]));
            }
            i = i + 1;
        }
        proof {
            assert(self.0@.take(self.0@.len() as int) =~= self.0@);
        }
        DashArray(v)
    }
}

/// The three-letter code of the language with the three-letter ISO 639-3 code `code`, if
/// there is such a language.
pub uninterp spec fn iso_639_3(code: Seq<char>) -> Option<Seq<char>>;

/// The three-letter code of the language with the two-letter ISO 639-1 code `code`.
pub uninterp spec fn iso_639_1(code: Seq<char>) -> Option<Seq<char>>;

/// Calls `isolang::Language::from_639_3` and, where it finds a language, gives the code
/// that `Language::to_639_3` has for it. The contract claims only that the outcome depends
/// on the code alone.
#[verifier::external_body]
fn language_from_639_3(code: &str) -> (r: Option<String>)
    ensures
        string_view(r) == iso_639_3(code@),
{
    isolang::Language::from_639_3(code).map(|l| l.to_639_3().to_owned())
}

/// Calls `isolang::Language::from_639_1` and, where it finds a language, gives the code
/// that `Language::to_639_3` has for it. The contract claims only that the outcome depends
/// on the code alone.
#[verifier::external_body]
fn language_from_639_1(code: &str) -> (r: Option<String>)
    ensures
        string_view(r) == iso_639_1(code@),
{
    isolang::Language::from_639_1(code).map(|l| l.to_639_3().to_owned())
}

/// The letter `c` as a small letter, where it is a capital letter of the Latin alphabet.
pub open spec fn lower(c: char) -> char {
    if 'A' <= c && c <= 'Z' {
        ((c as u8) + 32) as char
    } else {
        c
    }
}

fn lower_char(c: char) -> (r: char)
    ensures
        r == lower(c),
{
    if c >= 'A' && c <= 'Z' {
        ((c as u8) + 32) as char
    } else {
        c
    }
}

/// The code that a language tag starts with: all that stands before its first `-`, in
/// small letters.
pub open spec fn language_code(s: Seq<char>) -> Seq<char> {
    let end = find_char(s, '-', 0, s.len() as int);
    Seq::new(end as nat, |i: int| lower(s[i]))
}

/// The language that the code `code` names: first as an ISO 639-3 code, then as an ISO
/// 639-1 code.
pub open spec fn language_of(code: Seq<char>) -> Option<Seq<char>> {
    match iso_639_3(code) {
        Some(c) => Some(c),
        None => iso_639_1(code),
    }
}

/// The language that the code `code` names.
pub fn parse_lang_attr(code: &str) -> (r: Option<Language>)
    ensures
        lang_code_view(r) == language_of(code@),
{
    match language_from_639_3(code) {
        Some(c) => Some(Language { code: c }),
        None => match language_from_639_1(code) {
            Some(c) => Some(Language { code: c }),
            None => None,
        },
    }
}

/// The code of an optional language.
pub open spec fn lang_code_view(l: Option<Language>) -> Option<Seq<char>> {
    match l {
        Some(l) => Some(l.code@),
        None => None,
    }
}

impl DeepView for Language {
    type V = Seq<char>;

    open spec fn deep_view(&self) -> Seq<char> {
        self.code@
    }
}

impl Parse for Language {
    /// The language that the first part of the tag names.
    open spec fn parse_spec(s: Seq<char>) -> Option<Seq<char>> {
        language_of(language_code(s))
    }

    fn parse(s: &str) -> (r: Result<Language, Error>) {
        let v = to_chars(s);
        let c = v.as_slice();
        let mut code = String::new();
        let mut i: usize = 0;
        while i < c.len() && c[i] != '-'
            invariant
                i <= c@.len(),
                c@ == s@,
                find_char(s@, '-', 0, s@.len() as int) == find_char(s@, '-', i as int, s@.len() as int),
                code@ == Seq::new(i as nat, |j: int| lower(s@[j])),
            decreases c@.len() - i,
        {
            let ghost before = code@;
            code.push(lower_char(c[i]));
            proof {
                assert(code@ =~= Seq::new((i + 1) as nat, |j: int| lower(s@[j])));
            }
            i = i + 1;
        }
        match parse_lang_attr(code.as_str()) {
            Some(l) => Ok(l),
            None => Err(invalid_value(s)),
        }
    }
}

/// The `clip-path` of the element `node`; inherited where nothing sets it.
pub open spec fn clip_path_field_spec(node: XmlNode) -> Result<Option<ClipPathAttrModel>, ErrorModel> {
    match field_text(node, "clip-path"@) {
        Some(text) => match ClipPathAttr::parse_spec(text) {
            Some(v) => Ok(v),
            None => Err(ErrorModel::InvalidAttributeValue(text)),
        },
        None => Ok(None),
    }
}

/// The rule that the property `name` of the element `node` sets: `fill-rule` or `clip-rule`.
/// It is nonzero where nothing sets it, and `None`, for the rule of the parent, where it is
/// set to `inherit`.
pub open spec fn rule_field_spec(node: XmlNode, name: Seq<char>) -> Result<
    Option<FillRule>,
    ErrorModel,
> {
    match field_text(node, name) {
        Some(text) => match inherited_fill_rule_spec(text) {
            Some(v) => Ok(v),
            None => Err(ErrorModel::InvalidAttributeValue(text)),
        },
        None => Ok(Some(FillRule::Winding)),
    }
}

/// Whether the element `node` is displayed; it is where nothing says otherwise.
pub open spec fn display_field_spec(node: XmlNode) -> Result<bool, ErrorModel> {
    match field_text(node, "display"@) {
        Some(text) => match display_spec(text) {
            Some(v) => Ok(v),
            None => Err(ErrorModel::InvalidAttributeValue(text)),
        },
        None => Ok(true),
    }
}

fn clip_path_field(node: &XmlNode) -> (r: Result<Option<ClipPathAttr>, Error>)
    ensures
        result_view(r) == clip_path_field_spec(*node),
{
    match field(node, "clip-path") {
        Some(text) => match ClipPathAttr::parse(text.as_str()) {
            Ok(v) => {
                proof {
                    assert(v.deep_view() == clip_path_view(v));
                }
                Ok(v)
            },
            Err(e) => Err(e),
        },
        None => {
            proof {
                assert(None::<ClipPathAttr>.deep_view() == None::<ClipPathAttrModel>);
            }
            Ok(None)
        },
    }
}

fn rule_field(node: &XmlNode, name: &str) -> (r: Result<Option<FillRule>, Error>)
    ensures
        result_view(r) == rule_field_spec(*node, name@),
{
    proof {
        assert(forall|v: Option<FillRule>| v.deep_view() == v) by {
            assert forall|v: Option<FillRule>| v.deep_view() == v by {
                if v is Some {
                    assert(v->0.deep_view() == v->0);
                }
            }
        }
    }
    match field(node, name) {
        Some(text) => match parse_inherited_fill_rule(text.as_str()) {
            Ok(v) => Ok(v),
            Err(e) => Err(e),
        },
        None => Ok(Some(FillRule::Winding)),
    }
}

fn display_field(node: &XmlNode) -> (r: Result<bool, Error>)
    ensures
        result_view(r) == display_field_spec(*node),
{
    match field(node, "display") {
        Some(text) => match parse_display(text.as_str()) {
            Ok(v) => Ok(v),
            Err(e) => Err(e),
        },
        None => Ok(true),
    }
}

impl Attrs {
    /// Whether the fields of `self` are what the element at `at` sets them to.
    #[verifier::opaque]
    pub open spec fn parsed_from(&self, nodes: Seq<XmlNode>, at: int) -> bool {
        &&& clip_path_field_spec(nodes[at]) == Ok::<_, ErrorModel>(self.clip_path.deep_view())
        &&& rule_field_spec(nodes[at], "clip-rule"@) == Ok::<_, ErrorModel>(
            self.clip_rule.deep_view(),
        )
        &&& transform_field_spec(nodes, at) == Ok::<_, ErrorModel>(self.transform.deep_view())
        &&& anim_field_spec::<Option<Number>>(nodes, at, "opacity"@, None)
            == Ok::<_, ErrorModel>(self.opacity.deep_view())
        &&& anim_field_spec::<Fill>(nodes, at, "fill"@, None)
            == Ok::<_, ErrorModel>(self.fill.deep_view())
        &&& rule_field_spec(nodes[at], "fill-rule"@) == Ok::<_, ErrorModel>(self.fill_rule.deep_view())
        &&& anim_field_spec::<Option<Number>>(nodes, at, "fill-opacity"@, None)
            == Ok::<_, ErrorModel>(self.fill_opacity.deep_view())
        &&& anim_field_spec::<Stroke>(nodes, at, "stroke"@, None)
            == Ok::<_, ErrorModel>(self.stroke.deep_view())
        &&& anim_field_spec::<Option<Length>>(nodes, at, "stroke-width"@, None)
            == Ok::<_, ErrorModel>(self.stroke_width.deep_view())
        &&& anim_field_spec::<Option<Number>>(nodes, at, "stroke-opacity"@, None)
            == Ok::<_, ErrorModel>(self.stroke_opacity.deep_view())
        &&& anim_field_spec::<Option<DashArray>>(nodes, at, "stroke-dasharray"@, None)
            == Ok::<_, ErrorModel>(self.stroke_dasharray.deep_view())
        &&& anim_field_spec::<Option<Length>>(nodes, at, "stroke-dashoffset"@, None)
            == Ok::<_, ErrorModel>(self.stroke_dashoffset.deep_view())
        &&& display_field_spec(nodes[at]) == Ok::<_, ErrorModel>(self.display.deep_view())
        &&& parse_field_spec::<Option<Iri>>(nodes[at], "filter"@, None)
            == Ok::<_, ErrorModel>(self.filter.deep_view())
        &&& anim_field_spec::<Option<LengthY>>(nodes, at, "font-size"@, None)
            == Ok::<_, ErrorModel>(self.font_size.deep_view())
        &&& parse_field_spec::<Option<TextFlow>>(nodes[at], "direction"@, None)
            == Ok::<_, ErrorModel>(self.direction.deep_view())
        &&& parse_field_spec::<Option<Language>>(nodes[at], "lang"@, None)
            == Ok::<_, ErrorModel>(self.lang.deep_view())
    }

    /// The error of the first field of the element at `at` that cannot be read.
    #[verifier::opaque]
    pub open spec fn parse_error(nodes: Seq<XmlNode>, at: int) -> Option<ErrorModel> {
        let e = err_of(clip_path_field_spec(nodes[at]));
        let e = first_of(e, err_of(rule_field_spec(nodes[at], "clip-rule"@)));
        let e = first_of(e, err_of(transform_field_spec(nodes, at)));
        let e = first_of(e, err_of(anim_field_spec::<Option<Number>>(nodes, at, "opacity"@, None)));
        let e = first_of(e, err_of(anim_field_spec::<Fill>(nodes, at, "fill"@, None)));
        let e = first_of(e, err_of(rule_field_spec(nodes[at], "fill-rule"@)));
        let e = first_of(
            e,
            err_of(anim_field_spec::<Option<Number>>(nodes, at, "fill-opacity"@, None)),
        );
        let e = first_of(e, err_of(anim_field_spec::<Stroke>(nodes, at, "stroke"@, None)));
        let e = first_of(
            e,
            err_of(anim_field_spec::<Option<Length>>(nodes, at, "stroke-width"@, None)),
        );
        let e = first_of(
            e,
            err_of(anim_field_spec::<Option<Number>>(nodes, at, "stroke-opacity"@, None)),
        );
        let e = first_of(
            e,
            err_of(anim_field_spec::<Option<DashArray>>(nodes, at, "stroke-dasharray"@, None)),
        );
        let e = first_of(
            e,
            err_of(anim_field_spec::<Option<Length>>(nodes, at, "stroke-dashoffset"@, None)),
        );
        let e = first_of(e, err_of(display_field_spec(nodes[at])));
        let e = first_of(e, err_of(parse_field_spec::<Option<Iri>>(nodes[at], "filter"@, None)));
        let e = first_of(
            e,
            err_of(anim_field_spec::<Option<LengthY>>(nodes, at, "font-size"@, None)),
        );
        let e = first_of(
            e,
            err_of(parse_field_spec::<Option<TextFlow>>(nodes[at], "direction"@, None)),
        );
        let e = first_of(e, err_of(parse_field_spec::<Option<Language>>(nodes[at], "lang"@, None)));
        e
    }

    /// Reads the presentation attributes of the element at `at`: from its attributes, from
    /// the declarations of its `style` attribute, and from the directives among its children.
    pub fn parse(nodes: &[XmlNode], at: usize) -> (r: Result<Attrs, Error>)
        requires
            at < nodes@.len(),
        ensures
            match r {
                Ok(t) => t.parsed_from(nodes@, at as int)
                    && Attrs::parse_error(nodes@, at as int) is None,
                Err(e) => Attrs::parse_error(nodes@, at as int) == Some(e.deep_view()),
            },
    {
        reveal(Attrs::parsed_from);
        reveal(Attrs::parse_error);
        let clip_path = match clip_path_field(&nodes[at]) {
            Ok(v) => v,
            Err(e) => {
                return Err(e);
            },
        };
        let clip_rule = match rule_field(&nodes[at], "clip-rule") {
            Ok(v) => v,
            Err(e) => {
                return Err(e);
            },
        };
        let transform = match parse_transform(nodes, at) {
            Ok(v) => v,
            Err(e) => {
                return Err(e);
            },
        };
        let opacity = match parse_anim::<Option<Number>>(nodes, at, "opacity", None) {
            Ok(v) => v,
            Err(e) => {
                return Err(e);
            },
        };
        let fill = match parse_anim::<Fill>(nodes, at, "fill", Fill(None)) {
            Ok(v) => v,
            Err(e) => {
                return Err(e);
            },
        };
        let fill_rule = match rule_field(&nodes[at], "fill-rule") {
            Ok(v) => v,
            Err(e) => {
                return Err(e);
            },
        };
        let fill_opacity = match parse_anim::<Option<Number>>(nodes, at, "fill-opacity", None) {
            Ok(v) => v,
            Err(e) => {
                return Err(e);
            },
        };
        let stroke = match parse_anim::<Stroke>(nodes, at, "stroke", Stroke(None)) {
            Ok(v) => v,
            Err(e) => {
                return Err(e);
            },
        };
        let stroke_width = match parse_anim::<Option<Length>>(nodes, at, "stroke-width", None) {
            Ok(v) => v,
            Err(e) => {
                return Err(e);
            },
        };
        let stroke_opacity = match parse_anim::<Option<Number>>(nodes, at, "stroke-opacity", None) {
            Ok(v) => v,
            Err(e) => {
                return Err(e);
            },
        };
        let stroke_dasharray = match parse_anim::<Option<DashArray>>(nodes, at, "stroke-dasharray", None) {
            Ok(v) => v,
            Err(e) => {
                return Err(e);
            },
        };
        let stroke_dashoffset = match parse_anim::<Option<Length>>(nodes, at, "stroke-dashoffset", None) {
            Ok(v) => v,
            Err(e) => {
                return Err(e);
            },
        };
        let display = match display_field(&nodes[at]) {
            Ok(v) => v,
            Err(e) => {
                return Err(e);
            },
        };
        let filter = match parse_field::<Option<Iri>>(&nodes[at], "filter", None) {
            Ok(v) => v,
            Err(e) => {
                return Err(e);
            },
        };
        let font_size = match parse_anim::<Option<LengthY>>(nodes, at, "font-size", None) {
            Ok(v) => v,
            Err(e) => {
                return Err(e);
            },
        };
        let direction = match parse_field::<Option<TextFlow>>(&nodes[at], "direction", None) {
            Ok(v) => v,
            Err(e) => {
                return Err(e);
            },
        };
        let lang = match parse_field::<Option<Language>>(&nodes[at], "lang", None) {
            Ok(v) => v,
            Err(e) => {
                return Err(e);
            },
        };
        Ok(Attrs {
            clip_path,
            clip_rule,
            transform,
            opacity,
            fill,
            fill_rule,
            fill_opacity,
            stroke,
            stroke_width,
            stroke_opacity,
            stroke_dasharray,
            stroke_dashoffset,
            display,
            filter,
            font_size,
            direction,
            lang,
        })
    }
}

} // verus!
