//! The `<rect>` element.

use crate::dom::{id_str, id_view, Item, ParseNode, Tag};
use crate::dom::attrs::Attrs;
use crate::dom::error::{Error, ErrorModel};
use crate::dom::node::{
    anim_field_spec, err_of, first_of, parse_anim, parse_field, parse_field_spec,
};
use crate::dom::util::{Length, LengthX, LengthY};
use crate::dom::value::{Value, ValueVector};
use crate::dom::xml::XmlNode;
use std::sync::Arc;
use vstd::prelude::*;

verus! {

/// The `<rect>` element: a corner, a size and, perhaps, the radii of rounded corners.
#[derive(Debug)]
pub struct TagRect {
    pub pos: ValueVector,
    pub size: ValueVector,
    pub rx: Value<Option<Length>>,
    pub ry: Value<Option<Length>>,
    pub id: Option<String>,
    pub attrs: Attrs,
}

impl ParseNode for TagRect {
    /// Whether the fields of `self` are what the element at `at` sets them to.
    #[verifier::opaque]
    open spec fn parsed_from(&self, nodes: Seq<XmlNode>, at: int) -> bool {
        &&& anim_field_spec::<LengthX>(nodes, at, "x"@, LengthX(Length::zero_spec()))
            == Ok::<_, ErrorModel>(self.pos.x.deep_view())
        &&& anim_field_spec::<LengthY>(nodes, at, "y"@, LengthY(Length::zero_spec()))
            == Ok::<_, ErrorModel>(self.pos.y.deep_view())
        &&& anim_field_spec::<LengthY>(nodes, at, "height"@, LengthY(Length::zero_spec()))
            == Ok::<_, ErrorModel>(self.size.y.deep_view())
        &&& anim_field_spec::<LengthX>(nodes, at, "width"@, LengthX(Length::zero_spec()))
            == Ok::<_, ErrorModel>(self.size.x.deep_view())
        &&& anim_field_spec::<Option<Length>>(nodes, at, "rx"@, None)
            == Ok::<_, ErrorModel>(self.rx.deep_view())
        &&& anim_field_spec::<Option<Length>>(nodes, at, "ry"@, None)
            == Ok::<_, ErrorModel>(self.ry.deep_view())
        &&& parse_field_spec::<Option<String>>(nodes[at], "id"@, None)
            == Ok::<_, ErrorModel>(self.id.deep_view())
        &&& self.attrs.parsed_from(nodes, at)
    }

    /// The error of the first field of the element at `at` that cannot be read.
    #[verifier::opaque]
    open spec fn parse_error(nodes: Seq<XmlNode>, at: int) -> Option<ErrorModel> {
        let e = err_of(anim_field_spec::<LengthX>(nodes, at, "x"@, LengthX(Length::zero_spec())));
        let e = first_of(
            e,
            err_of(anim_field_spec::<LengthY>(nodes, at, "y"@, LengthY(Length::zero_spec()))),
        );
        let e = first_of(
            e,
            err_of(anim_field_spec::<LengthY>(nodes, at, "height"@, LengthY(Length::zero_spec()))),
        );
        let e = first_of(
            e,
            err_of(anim_field_spec::<LengthX>(nodes, at, "width"@, LengthX(Length::zero_spec()))),
        );
        let e = first_of(e, err_of(anim_field_spec::<Option<Length>>(nodes, at, "rx"@, None)));
        let e = first_of(e, err_of(anim_field_spec::<Option<Length>>(nodes, at, "ry"@, None)));
        let e = first_of(e, err_of(parse_field_spec::<Option<String>>(nodes[at], "id"@, None)));
        let e = first_of(e, Attrs::parse_error(nodes, at));
        e
    }

    /// Reads a `<rect>`.
    fn parse_node(nodes: &[XmlNode], at: usize) -> (r: Result<TagRect, Error>) {
        reveal(<TagRect as ParseNode>::parsed_from);
        reveal(<TagRect as ParseNode>::parse_error);
        let x = match parse_anim::<LengthX>(nodes, at, "x", LengthX::zero()) {
            Ok(v) => v,
            Err(e) => {
                return Err(e);
            },
        };
        let y = match parse_anim::<LengthY>(nodes, at, "y", LengthY::zero()) {
            Ok(v) => v,
            Err(e) => {
                return Err(e);
            },
        };
        let height = match parse_anim::<LengthY>(nodes, at, "height", LengthY::zero()) {
            Ok(v) => v,
            Err(e) => {
                return Err(e);
            },
        };
        let width = match parse_anim::<LengthX>(nodes, at, "width", LengthX::zero()) {
            Ok(v) => v,
            Err(e) => {
                return Err(e);
            },
        };
        let rx = match parse_anim::<Option<Length>>(nodes, at, "rx", None) {
            Ok(v) => v,
            Err(e) => {
                return Err(e);
            },
        };
        let ry = match parse_anim::<Option<Length>>(nodes, at, "ry", None) {
            Ok(v) => v,
            Err(e) => {
                return Err(e);
            },
        };
        let id = match parse_field::<Option<String>>(&nodes[at], "id", None) {
            Ok(v) => v,
            Err(e) => {
                return Err(e);
            },
        };
        let attrs = match Attrs::parse(nodes, at) {
            Ok(v) => v,
            Err(e) => {
                return Err(e);
            },
        };
        Ok(TagRect {
            pos: ValueVector::new(x, y),
            size: ValueVector::new(width, height),
            rx,
            ry,
            id,
            attrs,
        })
    }
}

impl Tag for TagRect {
    open spec fn id_spec(&self) -> Option<Seq<char>> {
        id_view(self.id)
    }

    open spec fn children_spec(&self) -> Seq<Arc<Item>> {
        Seq::empty()
    }

    fn id(&self) -> (r: Option<&str>) {
        id_str(&self.id)
    }

    fn children(&self) -> (r: &[Arc<Item>]) {
        &[]
    }
}

} // verus!
