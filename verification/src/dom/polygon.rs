//! The `<polygon>`, `<polyline>` and `<line>` elements.

use crate::dom::{id_str, id_view, Item, ParseNode, Tag};
use crate::dom::attrs::Attrs;
use crate::dom::error::{Error, ErrorModel};
use crate::dom::node::{
    anim_field_spec, err_of, first_of, id_attr, id_attr_spec, parse_anim, parse_field,
    parse_field_spec, parse_points_field, points_field_spec,
};
use crate::dom::outline::Outline;
use crate::dom::util::{Length, LengthX, LengthY};
use crate::dom::value::ValueVector;
use crate::dom::xml::XmlNode;
use std::sync::Arc;
use vstd::prelude::*;

verus! {

/// The `<polygon>` element: the contour through its points.
#[derive(Debug)]
pub struct TagPolygon {
    pub outline: Outline,
    pub attrs: Attrs,
    pub id: Option<String>,
}

/// The `<polyline>` element: the contour through its points.
#[derive(Debug)]
pub struct TagPolyline {
    pub outline: Outline,
    pub attrs: Attrs,
    pub id: Option<String>,
}

/// The `<line>` element: its two ends.
#[derive(Debug)]
pub struct TagLine {
    pub p1: ValueVector,
    pub p2: ValueVector,
    pub attrs: Attrs,
    pub id: Option<String>,
}

impl ParseNode for TagPolygon {
    /// Whether the fields of `self` are what the element at `at` sets them to.
    #[verifier::opaque]
    open spec fn parsed_from(&self, nodes: Seq<XmlNode>, at: int) -> bool {
        &&& points_field_spec(nodes[at]) == Ok::<_, ErrorModel>(self.outline.deep_view())
        &&& self.attrs.parsed_from(nodes, at)
        &&& id_attr_spec(nodes[at]) == Ok::<_, ErrorModel>(self.id.deep_view())
    }

    /// The error of the first field of the element at `at` that cannot be read.
    #[verifier::opaque]
    open spec fn parse_error(nodes: Seq<XmlNode>, at: int) -> Option<ErrorModel> {
        let e = err_of(points_field_spec(nodes[at]));
        let e = first_of(e, Attrs::parse_error(nodes, at));
        let e = first_of(e, err_of(id_attr_spec(nodes[at])));
        e
    }

    /// Reads a `<polygon>`.
    fn parse_node(nodes: &[XmlNode], at: usize) -> (r: Result<TagPolygon, Error>) {
        reveal(<TagPolygon as ParseNode>::parsed_from);
        reveal(<TagPolygon as ParseNode>::parse_error);
        let outline = match parse_points_field(&nodes[at]) {
            Ok(v) => v,
            Err(e) => {
                return Err(e);
            },
        };
        let attrs = match Attrs::parse(nodes, at) {
            Ok(v) => v,
            Err(e) => {
                return Err(e);
            },
        };
        let id = match id_attr(&nodes[at]) {
            Ok(v) => v,
            Err(e) => {
                return Err(e);
            },
        };
        Ok(TagPolygon { id, outline, attrs })
    }
}

impl ParseNode for TagPolyline {
    /// Whether the fields of `self` are what the element at `at` sets them to.
    #[verifier::opaque]
    open spec fn parsed_from(&self, nodes: Seq<XmlNode>, at: int) -> bool {
        &&& points_field_spec(nodes[at]) == Ok::<_, ErrorModel>(self.outline.deep_view())
        &&& self.attrs.parsed_from(nodes, at)
        &&& id_attr_spec(nodes[at]) == Ok::<_, ErrorModel>(self.id.deep_view())
    }

    /// The error of the first field of the element at `at` that cannot be read.
    #[verifier::opaque]
    open spec fn parse_error(nodes: Seq<XmlNode>, at: int) -> Option<ErrorModel> {
        let e = err_of(points_field_spec(nodes[at]));
        let e = first_of(e, Attrs::parse_error(nodes, at));
        let e = first_of(e, err_of(id_attr_spec(nodes[at])));
        e
    }

    /// Reads a `<polyline>`.
    fn parse_node(nodes: &[XmlNode], at: usize) -> (r: Result<TagPolyline, Error>) {
        reveal(<TagPolyline as ParseNode>::parsed_from);
        reveal(<TagPolyline as ParseNode>::parse_error);
        let outline = match parse_points_field(&nodes[at]) {
            Ok(v) => v,
            Err(e) => {
                return Err(e);
            },
        };
        let attrs = match Attrs::parse(nodes, at) {
            Ok(v) => v,
            Err(e) => {
                return Err(e);
            },
        };
        let id = match id_attr(&nodes[at]) {
            Ok(v) => v,
            Err(e) => {
                return Err(e);
            },
        };
        Ok(TagPolyline { id, outline, attrs })
    }
}

impl ParseNode for TagLine {
    /// Whether the fields of `self` are what the element at `at` sets them to.
    #[verifier::opaque]
    open spec fn parsed_from(&self, nodes: Seq<XmlNode>, at: int) -> bool {
        &&& anim_field_spec::<LengthX>(nodes, at, "x1"@, LengthX(Length::zero_spec()))
            == Ok::<_, ErrorModel>(self.p1.x.deep_view())
        &&& anim_field_spec::<LengthY>(nodes, at, "y1"@, LengthY(Length::zero_spec()))
            == Ok::<_, ErrorModel>(self.p1.y.deep_view())
        &&& anim_field_spec::<LengthX>(nodes, at, "x2"@, LengthX(Length::zero_spec()))
            == Ok::<_, ErrorModel>(self.p2.x.deep_view())
        &&& anim_field_spec::<LengthY>(nodes, at, "y2"@, LengthY(Length::zero_spec()))
            == Ok::<_, ErrorModel>(self.p2.y.deep_view())
        &&& parse_field_spec::<Option<String>>(nodes[at], "id"@, None)
            == Ok::<_, ErrorModel>(self.id.deep_view())
        &&& self.attrs.parsed_from(nodes, at)
    }

    /// The error of the first field of the element at `at` that cannot be read.
    #[verifier::opaque]
    open spec fn parse_error(nodes: Seq<XmlNode>, at: int) -> Option<ErrorModel> {
        let e = err_of(anim_field_spec::<LengthX>(nodes, at, "x1"@, LengthX(Length::zero_spec())));
        let e = first_of(
            e,
            err_of(anim_field_spec::<LengthY>(nodes, at, "y1"@, LengthY(Length::zero_spec()))),
        );
        let e = first_of(
            e,
            err_of(anim_field_spec::<LengthX>(nodes, at, "x2"@, LengthX(Length::zero_spec()))),
        );
        let e = first_of(
            e,
            err_of(anim_field_spec::<LengthY>(nodes, at, "y2"@, LengthY(Length::zero_spec()))),
        );
        let e = first_of(e, err_of(parse_field_spec::<Option<String>>(nodes[at], "id"@, None)));
        let e = first_of(e, Attrs::parse_error(nodes, at));
        e
    }

    /// Reads a `<line>`.
    fn parse_node(nodes: &[XmlNode], at: usize) -> (r: Result<TagLine, Error>) {
        reveal(<TagLine as ParseNode>::parsed_from);
        reveal(<TagLine as ParseNode>::parse_error);
        let x1 = match parse_anim::<LengthX>(nodes, at, "x1", LengthX::zero()) {
            Ok(v) => v,
            Err(e) => {
                return Err(e);
            },
        };
        let y1 = match parse_anim::<LengthY>(nodes, at, "y1", LengthY::zero()) {
            Ok(v) => v,
            Err(e) => {
                return Err(e);
            },
        };
        let x2 = match parse_anim::<LengthX>(nodes, at, "x2", LengthX::zero()) {
            Ok(v) => v,
            Err(e) => {
                return Err(e);
            },
        };
        let y2 = match parse_anim::<LengthY>(nodes, at, "y2", LengthY::zero()) {
            Ok(v) => v,
            Err(e) => {
                return Err(e);
            },
        };
        let id = match parse_field::<Option<String>>(&nodes[at], "id", None) {
            Ok(v) => v,
            Err(e) => {
                return Err(e);
            },
        };
        let attrs = match Attrs::parse(nodes, at) {
            Ok(v) => v,
            Err(e) => {
                return Err(e);
            },
        };
        Ok(TagLine { id, p1: ValueVector::new(x1, y1), p2: ValueVector::new(x2, y2), attrs })
    }
}

impl Tag for TagPolygon {
    open spec fn id_spec(&self) -> Option<Seq<char>> {
        id_view(self.id)
    }

    open spec fn children_spec(&self) -> Seq<Arc<Item>> {
        Seq::empty()
    }

    fn id(&self) -> (r: Option<&str>) {
        id_str(&self.id)
    }

    fn children(&self) -> (r: &[Arc<Item>]) {
        &[]
    }
}

impl Tag for TagPolyline {
    open spec fn id_spec(&self) -> Option<Seq<char>> {
        id_view(self.id)
    }

    open spec fn children_spec(&self) -> Seq<Arc<Item>> {
        Seq::empty()
    }

    fn id(&self) -> (r: Option<&str>) {
        id_str(&self.id)
    }

    fn children(&self) -> (r: &[Arc<Item>]) {
        &[]
    }
}

impl Tag for TagLine {
    open spec fn id_spec(&self) -> Option<Seq<char>> {
        id_view(self.id)
    }

    open spec fn children_spec(&self) -> Seq<Arc<Item>> {
        Seq::empty()
    }

    fn id(&self) -> (r: Option<&str>) {
        id_str(&self.id)
    }

    fn children(&self) -> (r: &[Arc<Item>]) {
        &[]
    }
}

} // verus!
