//! The `<linearGradient>`, `<radialGradient>` and `<stop>` elements.

use crate::chars::{str_eq, to_chars};
use crate::dom::{id_str, id_view, Item, ParseNode, Tag};
use crate::dom::error::{Error, ErrorModel};
use crate::dom::node::{
    err_of, first_of, gradient_transform_spec, href_field, href_field_spec, parse_field,
    parse_field_spec, parse_gradient_transform, result_view,
};
use crate::dom::paint::Color;
use crate::dom::parser::length::{length_spec, number_spec, parse_length, parse_number};
use crate::dom::util::{
    declarations_view, style_list, style_list_spec, Length, LengthUnit, LengthX, LengthY, Parse,
};
use crate::dom::xml::{
    lemma_subtree_nested, skip_subtree, subtree_end, XmlAttribute, XmlKind, XmlNode,
};
use crate::geometry::Transform2;
use crate::number::Number;
use std::sync::Arc;
use vstd::prelude::*;

verus! {

/// A colour with eight bits for each channel and for its opacity.
#[derive(Clone, Copy, PartialEq, Eq, Structural, Debug)]
pub struct ColorU {
    pub r: u8,
    pub g: u8,
    pub b: u8,
    pub a: u8,
}

/// One colour stop of a gradient.
#[derive(Clone, Copy, PartialEq, Eq, Structural, Debug)]
pub struct TagStop {
    /// Where along the gradient the stop lies, from `0` to `1`.
    pub offset: Number,
    pub color: Color,
    pub opacity: Number,
}

/// The `<linearGradient>` element. A coordinate that is not set is taken from the gradient
/// that `href` names, or is a default.
#[derive(Debug)]
pub struct TagLinearGradient {
    pub from: (Option<LengthX>, Option<LengthY>),
    pub to: (Option<LengthX>, Option<LengthY>),
    pub gradient_transform: Option<Transform2>,
    pub stops: Vec<TagStop>,
    pub id: Option<String>,
    pub href: Option<String>,
}

/// The `<radialGradient>` element. A coordinate that is not set is taken from the gradient
/// that `href` names, or is a default.
#[derive(Debug)]
pub struct TagRadialGradient {
    pub center: (Option<LengthX>, Option<LengthY>),
    pub focus: (Option<LengthX>, Option<LengthY>),
    pub radius: Option<Length>,
    pub gradient_transform: Option<Transform2>,
    pub stops: Vec<TagStop>,
    pub id: Option<String>,
    pub href: Option<String>,
}

impl DeepView for TagStop {
    type V = TagStop;

    open spec fn deep_view(&self) -> TagStop {
        *self
    }
}

/// The number `n` kept between `0` and `1`.
pub open spec fn clamp_unit(n: Number) -> Number {
    n.min_spec(Number::one_spec()).max_spec(Number::zero_spec())
}

/// The opacity that the text `s` stands for: a number, kept between `0` and `1`.
pub open spec fn opacity_spec(s: Seq<char>) -> Option<Number> {
    match number_spec(s) {
        Some(n) => Some(clamp_unit(n)),
        None => None,
    }
}

/// Reads an opacity: a number, kept between `0` and `1`.
pub fn opacity(s: &str) -> (r: Result<Number, Error>)
    ensures
        match r {
            Ok(v) => opacity_spec(s@) == Some(v),
            Err(e) => opacity_spec(s@) is None && crate::dom::parser::is_invalid_value(e, s@),
        },
{
    let c = to_chars(s);
    match parse_number(c.as_slice()) {
        Some(n) => Ok(n.min(Number::one()).max(Number::zero())),
        None => Err(crate::dom::parser::invalid_value(s)),
    }
}

/// The offset that the text `s` stands for: a number, or a percentage as its hundredth
/// part.
pub open spec fn number_or_percent_spec(s: Seq<char>) -> Option<Number> {
    match length_spec(s) {
        Some(l) => match l.unit {
            LengthUnit::Unitless => Some(l.num),
            LengthUnit::Percent => Some(l.num.mul_ratio_spec(1, 100)),
            _ => None,
        },
        None => None,
    }
}

fn number_or_percent(s: &str) -> (r: Option<Number>)
    ensures
        r == number_or_percent_spec(s@),
{
    let c = to_chars(s);
    match parse_length(c.as_slice()) {
        Some(l) => match l.unit {
            LengthUnit::Unitless => Some(l.num),
            LengthUnit::Percent => Some(l.num.mul_ratio(1, 100)),
            _ => None,
        },
        None => None,
    }
}

/// The red, green and blue levels of the colour that the text `text` stands for as a CSS
/// colour; `None` where it stands for none.
pub uninterp spec fn css_color(text: Seq<char>) -> Option<(u8, u8, u8)>;

/// Calls `svgtypes::Color::from_str` and hands out the three levels of the colour that it
/// reads; `None` where it reports an error. The contract claims only that the outcome
/// depends on the text alone.
#[verifier::external_body]
fn read_css_color(text: &str) -> (r: Option<(u8, u8, u8)>)
    ensures
        r == css_color(text@),
{
    text.parse::<svgtypes::Color>().ok().map(|c| (c.red, c.green, c.blue))
}

/// The colour of a stop that the levels `levels` stand for.
pub open spec fn stop_color_spec(levels: Option<(u8, u8, u8)>) -> Option<Color> {
    match levels {
        Some((r, g, b)) => Some(Color::from_srgb_u8_spec(r, g, b)),
        None => None,
    }
}

/// The colour of a stop that the levels `levels` stand for.
pub fn stop_color(levels: Option<(u8, u8, u8)>) -> (r: Option<Color>)
    ensures
        r == stop_color_spec(levels),
{
    match levels {
        Some((r, g, b)) => Some(Color::from_srgb_u8(r, g, b)),
        None => None,
    }
}

impl TagStop {
    /// The stop that sets nothing: black and opaque, at the start of the gradient.
    pub open spec fn new_spec() -> TagStop {
        TagStop { offset: Number::zero_spec(), color: Color::black_spec(), opacity: Number::one_spec() }
    }

    /// The stop after the property `key` was set to `value`; `None` where `value` cannot be
    /// read. A property that is not `offset`, `stop-opacity` or `stop-color` changes
    /// nothing.
    pub open spec fn set_spec(self, key: Seq<char>, value: Seq<char>) -> Option<TagStop> {
        if key == "offset"@ {
            match number_or_percent_spec(value) {
                Some(offset) => Some(TagStop { offset, ..self }),
                None => None,
            }
        } else if key == "stop-opacity"@ {
            match opacity_spec(value) {
                Some(opacity) => Some(TagStop { opacity, ..self }),
                None => None,
            }
        } else if key == "stop-color"@ {
            match stop_color_spec(css_color(value)) {
                Some(color) => Some(TagStop { color, ..self }),
                None => None,
            }
        } else {
            Some(self)
        }
    }

    /// The stop after the declarations `list` from `from` on were set, in order, up to the
    /// first one that cannot be read: what follows that one is left out.
    pub open spec fn style_spec(self, list: Seq<(Seq<char>, Seq<char>)>, from: int) -> TagStop
        decreases list.len() - from,
    {
        if 0 <= from < list.len() {
            match self.set_spec(list[from].0, list[from].1) {
                Some(next) => next.style_spec(list, from + 1),
                None => self,
            }
        } else {
            self
        }
    }

    /// The stop after the attribute `key` with the value `value` was taken in: a `style`
    /// attribute sets its declarations one by one, any other attribute sets itself, and
    /// one that cannot be read changes nothing.
    pub open spec fn apply_spec(self, key: Seq<char>, value: Seq<char>) -> TagStop {
        if key == "style"@ {
            self.style_spec(style_list_spec(value), 0)
        } else {
            match self.set_spec(key, value) {
                Some(next) => next,
                None => self,
            }
        }
    }

    /// The stop after the first `n` of the attributes `attributes` were taken in, in order.
    pub open spec fn after(attributes: Seq<XmlAttribute>, n: nat) -> TagStop
        decreases n,
    {
        if n == 0 || n > attributes.len() {
            TagStop::new_spec()
        } else {
            TagStop::after(attributes, (n - 1) as nat).apply_spec(
                attributes[n - 1].name@,
                attributes[n - 1].value@,
            )
        }
    }

    /// The stop that the element `node` stands for.
    pub open spec fn parse_spec(node: XmlNode) -> TagStop {
        TagStop::after(node.attributes@, node.attributes@.len())
    }

    pub fn new() -> (r: TagStop)
        ensures
            r == TagStop::new_spec(),
    {
        TagStop { offset: Number::zero(), color: Color::black(), opacity: Number::one() }
    }

    /// Sets the property `key` to `value`, and says whether `value` could be read.
    fn set(&mut self, key: &str, value: &str) -> (ok: bool)
        ensures
            match old(self).set_spec(key@, value@) {
                Some(next) => ok && *final(self) == next,
                None => !ok && *final(self) == *old(self),
            },
    {
        if str_eq(key, "offset") {
            match number_or_percent(value) {
                Some(offset) => {
                    self.offset = offset;
                    true
                },
                None => false,
            }
        } else if str_eq(key, "stop-opacity") {
            match opacity(value) {
                Ok(o) => {
                    self.opacity = o;
                    true
                },
                Err(_) => false,
            }
        } else if str_eq(key, "stop-color") {
            match stop_color(read_css_color(value)) {
                Some(color) => {
                    self.color = color;
                    true
                },
                None => false,
            }
        } else {
            true
        }
    }

    /// Takes in the attribute `key` with the value `value`.
    pub fn apply(&mut self, key: &str, value: &str)
        ensures
            *final(self) == old(self).apply_spec(key@, value@),
    {
        if str_eq(key, "style") {
            let list = style_list(value);
            let mut i: usize = 0;
            proof {
                assert(declarations_view(list@).len() == list@.len());
            }
            while i < list.len()
                invariant
                    i <= list@.len(),
                    key@ == "style"@,
                    declarations_view(list@) == style_list_spec(value@),
                    declarations_view(list@).len() == list@.len(),
                    old(self).style_spec(style_list_spec(value@), 0) == self.style_spec(
                        style_list_spec(value@),
                        i as int,
                    ),
                decreases list@.len() - i,
            {
                proof {
                    assert(declarations_view(list@)[i as int] == (
                        list@[i as int].key@,
                        list@[i as int].value@,
                    ));
                }
                let ghost before = *self;
                let ok = self.set(list[i].key.as_str(), list[i].value.as_str());
                proof {
                    let decls = style_list_spec(value@);
                    assert(before.style_spec(decls, i as int) == (match before.set_spec(
                        decls[i as int].0,
                        decls[i as int].1,
                    ) {
                        Some(next) => next.style_spec(decls, i + 1),
                        None => before,
                    }));
                }
                if !ok {
                    return ;
                }
                i = i + 1;
            }
        } else {
            self.set(key, value);
        }
    }
}

impl ParseNode for TagStop {
    /// Whether `self` is the stop that the element at `at` stands for.
    open spec fn parsed_from(&self, nodes: Seq<XmlNode>, at: int) -> bool {
        0 <= at < nodes.len() && *self == TagStop::parse_spec(nodes[at])
    }

    /// A stop can always be read.
    open spec fn parse_error(nodes: Seq<XmlNode>, at: int) -> Option<ErrorModel> {
        None
    }

    /// Reads a `<stop>`. What cannot be read of it is left as it is by default.
    fn parse_node(nodes: &[XmlNode], at: usize) -> (r: Result<TagStop, Error>) {
        let node = &nodes[at];
        let mut stop = TagStop::new();
        let mut i: usize = 0;
        while i < node.attributes.len()
            invariant
                i <= node.attributes@.len(),
                stop == TagStop::after(node.attributes@, i as nat),
            decreases node.attributes@.len() - i,
        {
            stop.apply(node.attributes[i].name.as_str(), node.attributes[i].value.as_str());
            i = i + 1;
        }
        proof {
            assert(stop.parsed_from(nodes@, at as int));
            assert(TagStop::parse_error(nodes@, at as int) is None);
        }
        Ok(stop)
    }
}

/// Whether the node is a `<stop>` element.
pub open spec fn is_stop(node: XmlNode) -> bool {
    node.kind == XmlKind::Element && node.name@ == "stop"@
}

/// The stops among the nodes directly beneath a node, from the child at `from` to `end`, in
/// document order.
pub open spec fn stops_from(nodes: Seq<XmlNode>, from: int, end: int) -> Seq<TagStop>
    decreases end - from,
{
    if from >= end || from < 0 || from >= nodes.len() {
        Seq::empty()
    } else {
        let next = if from < subtree_end(nodes, from) <= end {
            subtree_end(nodes, from)
        } else {
            end
        };
        let rest = stops_from(nodes, next, end);
        if is_stop(nodes[from]) {
            seq![TagStop::parse_spec(nodes[from])] + rest
        } else {
            rest
        }
    }
}

/// The stops of the gradient at `at`.
pub open spec fn stops_spec(nodes: Seq<XmlNode>, at: int) -> Result<Seq<TagStop>, ErrorModel> {
    Ok(stops_from(nodes, at + 1, subtree_end(nodes, at)))
}

/// Reads the stops of the gradient at `at`.
pub fn parse_stops(nodes: &[XmlNode], at: usize) -> (r: Result<Vec<TagStop>, Error>)
    requires
        at < nodes@.len(),
    ensures
        result_view(r) == stops_spec(nodes@, at as int),
{
    let mut stops: Vec<TagStop> = Vec::new();
    let end = skip_subtree(nodes, at);
    let mut c: usize = at + 1;
    proof {
        assert(Seq::<TagStop>::empty() + stops_from(nodes@, at + 1, end as int) =~= stops_from(
            nodes@,
            at + 1,
            end as int,
        ));
    }
    while c < end
        invariant
            at < c,
            c <= end <= nodes@.len(),
            end == subtree_end(nodes@, at as int),
            stops_from(nodes@, at + 1, end as int) == stops@ + stops_from(
                nodes@,
                c as int,
                end as int,
            ),
        decreases end - c,
    {
        proof {
            lemma_subtree_nested(nodes@, at as int, c as int);
        }
        let next = skip_subtree(nodes, c);
        if matches!(nodes[c].kind, XmlKind::Element) && str_eq(nodes[c].name.as_str(), "stop") {
            let stop = match TagStop::parse_node(nodes, c) {
                Ok(stop) => stop,
                Err(e) => {
                    return Err(e);
                },
            };
            proof {
                let rest = stops_from(nodes@, next as int, end as int);
                assert(stops@.push(stop) + rest =~= stops@ + (seq![stop] + rest));
            }
            stops.push(stop);
        }
        c = next;
    }
    proof {
        assert(stops@ + Seq::<TagStop>::empty() =~= stops@);
        assert(stops.deep_view() =~= stops@) by {
            assert forall|i: int| 0 <= i < stops@.len() implies stops.deep_view()[i] == stops@[i] by {
                assert(stops@[i].deep_view() == stops@[i]);
            }
        }
    }
    Ok(stops)
}

impl ParseNode for TagLinearGradient {
    /// Whether the fields of `self` are what the element at `at` sets them to.
    #[verifier::opaque]
    open spec fn parsed_from(&self, nodes: Seq<XmlNode>, at: int) -> bool {
        &&& parse_field_spec::<Option<LengthX>>(nodes[at], "x1"@, None)
            == Ok::<_, ErrorModel>(self.from.0.deep_view())
        &&& parse_field_spec::<Option<LengthY>>(nodes[at], "y1"@, None)
            == Ok::<_, ErrorModel>(self.from.1.deep_view())
        &&& parse_field_spec::<Option<LengthX>>(nodes[at], "x2"@, None)
            == Ok::<_, ErrorModel>(self.to.0.deep_view())
        &&& parse_field_spec::<Option<LengthY>>(nodes[at], "y2"@, None)
            == Ok::<_, ErrorModel>(self.to.1.deep_view())
        &&& parse_field_spec::<Option<String>>(nodes[at], "id"@, None)
            == Ok::<_, ErrorModel>(self.id.deep_view())
        &&& gradient_transform_spec(nodes[at])
            == Ok::<_, ErrorModel>(self.gradient_transform.deep_view())
        &&& href_field_spec(nodes[at]) == Ok::<_, ErrorModel>(self.href.deep_view())
        &&& stops_spec(nodes, at) == Ok::<_, ErrorModel>(self.stops.deep_view())
    }

    /// The error of the first field of the element at `at` that cannot be read.
    #[verifier::opaque]
    open spec fn parse_error(nodes: Seq<XmlNode>, at: int) -> Option<ErrorModel> {
        let e = err_of(parse_field_spec::<Option<LengthX>>(nodes[at], "x1"@, None));
        let e = first_of(e, err_of(parse_field_spec::<Option<LengthY>>(nodes[at], "y1"@, None)));
        let e = first_of(e, err_of(parse_field_spec::<Option<LengthX>>(nodes[at], "x2"@, None)));
        let e = first_of(e, err_of(parse_field_spec::<Option<LengthY>>(nodes[at], "y2"@, None)));
        let e = first_of(e, err_of(parse_field_spec::<Option<String>>(nodes[at], "id"@, None)));
        let e = first_of(e, err_of(gradient_transform_spec(nodes[at])));
        let e = first_of(e, err_of(href_field_spec(nodes[at])));
        let e = first_of(e, err_of(stops_spec(nodes, at)));
        e
    }

    /// Reads a `<linearGradient>`.
    fn parse_node(nodes: &[XmlNode], at: usize) -> (r: Result<TagLinearGradient, Error>) {
        reveal(<TagLinearGradient as ParseNode>::parsed_from);
        reveal(<TagLinearGradient as ParseNode>::parse_error);
        let x1 = match parse_field::<Option<LengthX>>(&nodes[at], "x1", None) {
            Ok(v) => v,
            Err(e) => {
                return Err(e);
            },
        };
        let y1 = match parse_field::<Option<LengthY>>(&nodes[at], "y1", None) {
            Ok(v) => v,
            Err(e) => {
                return Err(e);
            },
        };
        let x2 = match parse_field::<Option<LengthX>>(&nodes[at], "x2", None) {
            Ok(v) => v,
            Err(e) => {
                return Err(e);
            },
        };
        let y2 = match parse_field::<Option<LengthY>>(&nodes[at], "y2", None) {
            Ok(v) => v,
            Err(e) => {
                return Err(e);
            },
        };
        let id = match parse_field::<Option<String>>(&nodes[at], "id", None) {
            Ok(v) => v,
            Err(e) => {
                return Err(e);
            },
        };
        let gradient_transform = match parse_gradient_transform(&nodes[at]) {
            Ok(v) => v,
            Err(e) => {
                return Err(e);
            },
        };
        let href = match href_field(&nodes[at]) {
            Ok(v) => v,
            Err(e) => {
                return Err(e);
            },
        };
        let stops = match parse_stops(nodes, at) {
            Ok(v) => v,
            Err(e) => {
                return Err(e);
            },
        };
        Ok(TagLinearGradient { from: (x1, y1), to: (x2, y2), gradient_transform, stops, id, href })
    }
}

impl ParseNode for TagRadialGradient {
    /// Whether the fields of `self` are what the element at `at` sets them to.
    #[verifier::opaque]
    open spec fn parsed_from(&self, nodes: Seq<XmlNode>, at: int) -> bool {
        &&& parse_field_spec::<Option<LengthX>>(nodes[at], "cx"@, None)
            == Ok::<_, ErrorModel>(self.center.0.deep_view())
        &&& parse_field_spec::<Option<LengthY>>(nodes[at], "cy"@, None)
            == Ok::<_, ErrorModel>(self.center.1.deep_view())
        &&& parse_field_spec::<Option<LengthX>>(nodes[at], "fx"@, None)
            == Ok::<_, ErrorModel>(self.focus.0.deep_view())
        &&& parse_field_spec::<Option<LengthY>>(nodes[at], "fy"@, None)
            == Ok::<_, ErrorModel>(self.focus.1.deep_view())
        &&& parse_field_spec::<Option<Length>>(nodes[at], "r"@, None)
            == Ok::<_, ErrorModel>(self.radius.deep_view())
        &&& parse_field_spec::<Option<String>>(nodes[at], "id"@, None)
            == Ok::<_, ErrorModel>(self.id.deep_view())
        &&& gradient_transform_spec(nodes[at])
            == Ok::<_, ErrorModel>(self.gradient_transform.deep_view())
        &&& href_field_spec(nodes[at]) == Ok::<_, ErrorModel>(self.href.deep_view())
        &&& stops_spec(nodes, at) == Ok::<_, ErrorModel>(self.stops.deep_view())
    }

    /// The error of the first field of the element at `at` that cannot be read.
    #[verifier::opaque]
    open spec fn parse_error(nodes: Seq<XmlNode>, at: int) -> Option<ErrorModel> {
        let e = err_of(parse_field_spec::<Option<LengthX>>(nodes[at], "cx"@, None));
        let e = first_of(e, err_of(parse_field_spec::<Option<LengthY>>(nodes[at], "cy"@, None)));
        let e = first_of(e, err_of(parse_field_spec::<Option<LengthX>>(nodes[at], "fx"@, None)));
        let e = first_of(e, err_of(parse_field_spec::<Option<LengthY>>(nodes[at], "fy"@, None)));
        let e = first_of(e, err_of(parse_field_spec::<Option<Length>>(nodes[at], "r"@, None)));
        let e = first_of(e, err_of(parse_field_spec::<Option<String>>(nodes[at], "id"@, None)));
        let e = first_of(e, err_of(gradient_transform_spec(nodes[at])));
        let e = first_of(e, err_of(href_field_spec(nodes[at])));
        let e = first_of(e, err_of(stops_spec(nodes, at)));
        e
    }

    /// Reads a `<radialGradient>`.
    fn parse_node(nodes: &[XmlNode], at: usize) -> (r: Result<TagRadialGradient, Error>) {
        reveal(<TagRadialGradient as ParseNode>::parsed_from);
        reveal(<TagRadialGradient as ParseNode>::parse_error);
        let cx = match parse_field::<Option<LengthX>>(&nodes[at], "cx", None) {
            Ok(v) => v,
            Err(e) => {
                return Err(e);
            },
        };
        let cy = match parse_field::<Option<LengthY>>(&nodes[at], "cy", None) {
            Ok(v) => v,
            Err(e) => {
                return Err(e);
            },
        };
        let fx = match parse_field::<Option<LengthX>>(&nodes[at], "fx", None) {
            Ok(v) => v,
            Err(e) => {
                return Err(e);
            },
        };
        let fy = match parse_field::<Option<LengthY>>(&nodes[at], "fy", None) {
            Ok(v) => v,
            Err(e) => {
                return Err(e);
            },
        };
        let r = match parse_field::<Option<Length>>(&nodes[at], "r", None) {
            Ok(v) => v,
            Err(e) => {
                return Err(e);
            },
        };
        let id = match parse_field::<Option<String>>(&nodes[at], "id", None) {
            Ok(v) => v,
            Err(e) => {
                return Err(e);
            },
        };
        let gradient_transform = match parse_gradient_transform(&nodes[at]) {
            Ok(v) => v,
            Err(e) => {
                return Err(e);
            },
        };
        let href = match href_field(&nodes[at]) {
            Ok(v) => v,
            Err(e) => {
                return Err(e);
            },
        };
        let stops = match parse_stops(nodes, at) {
            Ok(v) => v,
            Err(e) => {
                return Err(e);
            },
        };
        Ok(TagRadialGradient {
            center: (cx, cy),
            focus: (fx, fy),
            radius: r,
            gradient_transform,
            stops,
            id,
            href,
        })
    }
}

impl Tag for TagLinearGradient {
    open spec fn id_spec(&self) -> Option<Seq<char>> {
        id_view(self.id)
    }

    open spec fn children_spec(&self) -> Seq<Arc<Item>> {
        Seq::empty()
    }

    fn id(&self) -> (r: Option<&str>) {
        id_str(&self.id)
    }

    fn children(&self) -> (r: &[Arc<Item>]) {
        &[]
    }
}

impl Tag for TagRadialGradient {
    open spec fn id_spec(&self) -> Option<Seq<char>> {
        id_view(self.id)
    }

    open spec fn children_spec(&self) -> Seq<Arc<Item>> {
        Seq::empty()
    }

    fn id(&self) -> (r: Option<&str>) {
        id_str(&self.id)
    }

    fn children(&self) -> (r: &[Arc<Item>]) {
        &[]
    }
}

} // verus!
