//! The `<ellipse>` and `<circle>` elements.

use crate::dom::{id_str, id_view, Item, ParseNode, Tag};
use crate::dom::attrs::Attrs;
use crate::dom::error::{Error, ErrorModel};
use crate::dom::node::{
    anim_field_spec, err_of, first_of, parse_anim, parse_field, parse_field_spec,
};
use crate::dom::util::{Length, LengthX, LengthY};
use crate::dom::value::{Value, ValueVector};
use crate::dom::xml::XmlNode;
use std::sync::Arc;
use vstd::prelude::*;

verus! {

/// The `<ellipse>` element: a centre and two radii.
#[derive(Debug)]
pub struct TagEllipse {
    pub center: ValueVector,
    pub radius: ValueVector,
    pub attrs: Attrs,
    pub id: Option<String>,
}

/// The `<circle>` element: a centre and a radius.
#[derive(Debug)]
pub struct TagCircle {
    pub center: ValueVector,
    pub radius: Value<Length>,
    pub attrs: Attrs,
    pub id: Option<String>,
}

impl ParseNode for TagEllipse {
    /// Whether the fields of `self` are what the element at `at` sets them to.
    #[verifier::opaque]
    open spec fn parsed_from(&self, nodes: Seq<XmlNode>, at: int) -> bool {
        &&& anim_field_spec::<LengthX>(nodes, at, "cx"@, LengthX(Length::zero_spec()))
            == Ok::<_, ErrorModel>(self.center.x.deep_view())
        &&& anim_field_spec::<LengthY>(nodes, at, "cy"@, LengthY(Length::zero_spec()))
            == Ok::<_, ErrorModel>(self.center.y.deep_view())
        &&& anim_field_spec::<LengthX>(nodes, at, "rx"@, LengthX(Length::zero_spec()))
            == Ok::<_, ErrorModel>(self.radius.x.deep_view())
        &&& anim_field_spec::<LengthY>(nodes, at, "ry"@, LengthY(Length::zero_spec()))
            == Ok::<_, ErrorModel>(self.radius.y.deep_view())
        &&& parse_field_spec::<Option<String>>(nodes[at], "id"@, None)
            == Ok::<_, ErrorModel>(self.id.deep_view())
        &&& self.attrs.parsed_from(nodes, at)
    }

    /// The error of the first field of the element at `at` that cannot be read.
    #[verifier::opaque]
    open spec fn parse_error(nodes: Seq<XmlNode>, at: int) -> Option<ErrorModel> {
        let e = err_of(anim_field_spec::<LengthX>(nodes, at, "cx"@, LengthX(Length::zero_spec())));
        let e = first_of(
            e,
            err_of(anim_field_spec::<LengthY>(nodes, at, "cy"@, LengthY(Length::zero_spec()))),
        );
        let e = first_of(
            e,
            err_of(anim_field_spec::<LengthX>(nodes, at, "rx"@, LengthX(Length::zero_spec()))),
        );
        let e = first_of(
            e,
            err_of(anim_field_spec::<LengthY>(nodes, at, "ry"@, LengthY(Length::zero_spec()))),
        );
        let e = first_of(e, err_of(parse_field_spec::<Option<String>>(nodes[at], "id"@, None)));
        let e = first_of(e, Attrs::parse_error(nodes, at));
        e
    }

    /// Reads an `<ellipse>`.
    fn parse_node(nodes: &[XmlNode], at: usize) -> (r: Result<TagEllipse, Error>) {
        reveal(<TagEllipse as ParseNode>::parsed_from);
        reveal(<TagEllipse as ParseNode>::parse_error);
        let cx = match parse_anim::<LengthX>(nodes, at, "cx", LengthX::zero()) {
            Ok(v) => v,
            Err(e) => {
                return Err(e);
            },
        };
        let cy = match parse_anim::<LengthY>(nodes, at, "cy", LengthY::zero()) {
            Ok(v) => v,
            Err(e) => {
                return Err(e);
            },
        };
        let rx = match parse_anim::<LengthX>(nodes, at, "rx", LengthX::zero()) {
            Ok(v) => v,
            Err(e) => {
                return Err(e);
            },
        };
        let ry = match parse_anim::<LengthY>(nodes, at, "ry", LengthY::zero()) {
            Ok(v) => v,
            Err(e) => {
                return Err(e);
            },
        };
        let id = match parse_field::<Option<String>>(&nodes[at], "id", None) {
            Ok(v) => v,
            Err(e) => {
                return Err(e);
            },
        };
        let attrs = match Attrs::parse(nodes, at) {
            Ok(v) => v,
            Err(e) => {
                return Err(e);
            },
        };
        Ok(TagEllipse {
            center: ValueVector::new(cx, cy),
            radius: ValueVector::new(rx, ry),
            attrs,
            id,
        })
    }
}

impl ParseNode for TagCircle {
    /// Whether the fields of `self` are what the element at `at` sets them to.
    #[verifier::opaque]
    open spec fn parsed_from(&self, nodes: Seq<XmlNode>, at: int) -> bool {
        &&& anim_field_spec::<LengthX>(nodes, at, "cx"@, LengthX(Length::zero_spec()))
            == Ok::<_, ErrorModel>(self.center.x.deep_view())
        &&& anim_field_spec::<LengthY>(nodes, at, "cy"@, LengthY(Length::zero_spec()))
            == Ok::<_, ErrorModel>(self.center.y.deep_view())
        &&& anim_field_spec::<Length>(nodes, at, "r"@, Length::zero_spec())
            == Ok::<_, ErrorModel>(self.radius.deep_view())
        &&& parse_field_spec::<Option<String>>(nodes[at], "id"@, None)
            == Ok::<_, ErrorModel>(self.id.deep_view())
        &&& self.attrs.parsed_from(nodes, at)
    }

    /// The error of the first field of the element at `at` that cannot be read.
    #[verifier::opaque]
    open spec fn parse_error(nodes: Seq<XmlNode>, at: int) -> Option<ErrorModel> {
        let e = err_of(anim_field_spec::<LengthX>(nodes, at, "cx"@, LengthX(Length::zero_spec())));
        let e = first_of(
            e,
            err_of(anim_field_spec::<LengthY>(nodes, at, "cy"@, LengthY(Length::zero_spec()))),
        );
        let e = first_of(
            e,
            err_of(anim_field_spec::<Length>(nodes, at, "r"@, Length::zero_spec())),
        );
        let e = first_of(e, err_of(parse_field_spec::<Option<String>>(nodes[at], "id"@, None)));
        let e = first_of(e, Attrs::parse_error(nodes, at));
        e
    }

    /// Reads a `<circle>`.
    fn parse_node(nodes: &[XmlNode], at: usize) -> (r: Result<TagCircle, Error>) {
        reveal(<TagCircle as ParseNode>::parsed_from);
        reveal(<TagCircle as ParseNode>::parse_error);
        let cx = match parse_anim::<LengthX>(nodes, at, "cx", LengthX::zero()) {
            Ok(v) => v,
            Err(e) => {
                return Err(e);
            },
        };
        let cy = match parse_anim::<LengthY>(nodes, at, "cy", LengthY::zero()) {
            Ok(v) => v,
            Err(e) => {
                return Err(e);
            },
        };
        let r = match parse_anim::<Length>(nodes, at, "r", Length::zero()) {
            Ok(v) => v,
            Err(e) => {
                return Err(e);
            },
        };
        let id = match parse_field::<Option<String>>(&nodes[at], "id", None) {
            Ok(v) => v,
            Err(e) => {
                return Err(e);
            },
        };
        let attrs = match Attrs::parse(nodes, at) {
            Ok(v) => v,
            Err(e) => {
                return Err(e);
            },
        };
        Ok(TagCircle { center: ValueVector::new(cx, cy), radius: r, attrs, id })
    }
}

impl Tag for TagEllipse {
    open spec fn id_spec(&self) -> Option<Seq<char>> {
        id_view(self.id)
    }

    open spec fn children_spec(&self) -> Seq<Arc<Item>> {
        Seq::empty()
    }

    fn id(&self) -> (r: Option<&str>) {
        id_str(&self.id)
    }

    fn children(&self) -> (r: &[Arc<Item>]) {
        &[]
    }
}

impl Tag for TagCircle {
    open spec fn id_spec(&self) -> Option<Seq<char>> {
        id_view(self.id)
    }

    open spec fn children_spec(&self) -> Seq<Arc<Item>> {
        Seq::empty()
    }

    fn id(&self) -> (r: Option<&str>) {
        id_str(&self.id)
    }

    fn children(&self) -> (r: &[Arc<Item>]) {
        &[]
    }
}

} // verus!
