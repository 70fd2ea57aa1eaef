//! The `<text>`, `<tspan>` and `<tref>` elements.

use crate::dom::{elements_error, id_str, id_view, nodes_parsed, parse_nodes, Item, ParseNode, Tag};
use crate::dom::attrs::Attrs;
use crate::dom::error::{Error, ErrorModel};
use crate::dom::node::{
    err_of, first_of, href_field, href_field_spec, parse_field, parse_field_spec,
};
use crate::dom::util::{LengthX, LengthY, OneOrMany};
use crate::dom::xml::{subtree_end, XmlNode};
use crate::number::Number;
use std::sync::Arc;
use vstd::prelude::*;

verus! {

/// Where the glyphs of a run of text go.
#[derive(Clone, Debug)]
pub struct GlyphPos {
    pub x: Option<OneOrMany<LengthX>>,
    pub y: Option<OneOrMany<LengthY>>,
    pub dx: Option<OneOrMany<LengthX>>,
    pub dy: Option<OneOrMany<LengthY>>,
    /// Angles in degrees.
    pub rotate: Option<OneOrMany<Number>>,
}

/// The `<text>` element: runs of text and spans, with the positions of their glyphs.
#[derive(Clone, Debug)]
pub struct TagText {
    pub id: Option<String>,
    pub items: Vec<Arc<Item>>,
    pub pos: GlyphPos,
    pub attrs: Attrs,
}

/// The `<tspan>` element: a span of text with attributes and positions of its own.
#[derive(Clone, Debug)]
pub struct TagTSpan {
    pub id: Option<String>,
    pub items: Vec<Arc<Item>>,
    pub attrs: Attrs,
    pub pos: GlyphPos,
}

/// The `<tref>` element: a reference to text elsewhere.
#[derive(Clone, Debug)]
pub struct TagTRef {
    pub href: Option<String>,
}

impl ParseNode for TagTRef {
    /// Whether the fields of `self` are what the element at `at` sets them to.
    #[verifier::opaque]
    open spec fn parsed_from(&self, nodes: Seq<XmlNode>, at: int) -> bool {
        &&& href_field_spec(nodes[at]) == Ok::<_, ErrorModel>(self.href.deep_view())
    }

    /// The error of the first field of the element at `at` that cannot be read.
    #[verifier::opaque]
    open spec fn parse_error(nodes: Seq<XmlNode>, at: int) -> Option<ErrorModel> {
        first_of(
            err_of(href_field_spec(nodes[at])),
            None,
        )
    }

    /// Reads a `<tref>`.
    fn parse_node(nodes: &[XmlNode], at: usize) -> (r: Result<TagTRef, Error>) {
        reveal(<TagTRef as ParseNode>::parsed_from);
        reveal(<TagTRef as ParseNode>::parse_error);
        let href = match href_field(&nodes[at]) {
            Ok(v) => v,
            Err(e) => {
                return Err(e);
            },
        };
        Ok(TagTRef { href })
    }
}

impl TagText {
    /// Whether the fields of `self` that are read from the element at `at` itself are what
    /// it sets them to.
    #[verifier::opaque]
    pub open spec fn fields_parsed(&self, nodes: Seq<XmlNode>, at: int) -> bool {
        &&& parse_field_spec::<Option<OneOrMany<LengthX>>>(nodes[at], "x"@, None)
            == Ok::<_, ErrorModel>(self.pos.x.deep_view())
        &&& parse_field_spec::<Option<OneOrMany<LengthY>>>(nodes[at], "y"@, None)
            == Ok::<_, ErrorModel>(self.pos.y.deep_view())
        &&& parse_field_spec::<Option<OneOrMany<LengthX>>>(nodes[at], "dx"@, None)
            == Ok::<_, ErrorModel>(self.pos.dx.deep_view())
        &&& parse_field_spec::<Option<OneOrMany<LengthY>>>(nodes[at], "dy"@, None)
            == Ok::<_, ErrorModel>(self.pos.dy.deep_view())
        &&& parse_field_spec::<Option<OneOrMany<Number>>>(nodes[at], "rotate"@, None)
            == Ok::<_, ErrorModel>(self.pos.rotate.deep_view())
        &&& parse_field_spec::<Option<String>>(nodes[at], "id"@, None)
            == Ok::<_, ErrorModel>(self.id.deep_view())
        &&& self.attrs.parsed_from(nodes, at)
    }

    /// The error of the first field of the element at `at` itself that cannot be read.
    #[verifier::opaque]
    pub open spec fn fields_error(nodes: Seq<XmlNode>, at: int) -> Option<ErrorModel> {
        let e = err_of(parse_field_spec::<Option<OneOrMany<LengthX>>>(nodes[at], "x"@, None));
        let e = first_of(
            e,
            err_of(parse_field_spec::<Option<OneOrMany<LengthY>>>(nodes[at], "y"@, None)),
        );
        let e = first_of(
            e,
            err_of(parse_field_spec::<Option<OneOrMany<LengthX>>>(nodes[at], "dx"@, None)),
        );
        let e = first_of(
            e,
            err_of(parse_field_spec::<Option<OneOrMany<LengthY>>>(nodes[at], "dy"@, None)),
        );
        let e = first_of(
            e,
            err_of(parse_field_spec::<Option<OneOrMany<Number>>>(nodes[at], "rotate"@, None)),
        );
        let e = first_of(e, err_of(parse_field_spec::<Option<String>>(nodes[at], "id"@, None)));
        let e = first_of(e, Attrs::parse_error(nodes, at));
        e
    }
}

impl ParseNode for TagText {
    /// Whether the fields of `self`, and the items beneath it, are what the element at
    /// `at` and the nodes beneath it set them to.
    open spec fn parsed_from(&self, nodes: Seq<XmlNode>, at: int) -> bool
        decreases nodes.len() - at, 0nat,
    {
        if 0 <= at < nodes.len() {
            self.fields_parsed(nodes, at) && nodes_parsed(self.items@, 0, nodes, at + 1, subtree_end(nodes, at), true)
        } else {
            false
        }
    }

    /// The error of the first thing of the element at `at`, or beneath it, that cannot be
    /// read: its own fields come first.
    open spec fn parse_error(nodes: Seq<XmlNode>, at: int) -> Option<ErrorModel>
        decreases nodes.len() - at, 0nat,
    {
        if 0 <= at < nodes.len() {
            first_of(
                TagText::fields_error(nodes, at),
                elements_error(nodes, at + 1, subtree_end(nodes, at)),
            )
        } else {
            None
        }
    }

    /// Reads a `<text>` and all that is beneath it, runs of text included.
    fn parse_node(nodes: &[XmlNode], at: usize) -> (r: Result<TagText, Error>)
        decreases nodes@.len() - at, 1nat,
    {
        reveal(TagText::fields_parsed);
        reveal(TagText::fields_error);
        let x = match parse_field::<Option<OneOrMany<LengthX>>>(&nodes[at], "x", None) {
            Ok(v) => v,
            Err(e) => {
                return Err(e);
            },
        };
        let y = match parse_field::<Option<OneOrMany<LengthY>>>(&nodes[at], "y", None) {
            Ok(v) => v,
            Err(e) => {
                return Err(e);
            },
        };
        let dx = match parse_field::<Option<OneOrMany<LengthX>>>(&nodes[at], "dx", None) {
            Ok(v) => v,
            Err(e) => {
                return Err(e);
            },
        };
        let dy = match parse_field::<Option<OneOrMany<LengthY>>>(&nodes[at], "dy", None) {
            Ok(v) => v,
            Err(e) => {
                return Err(e);
            },
        };
        let rotate = match parse_field::<Option<OneOrMany<Number>>>(&nodes[at], "rotate", None) {
            Ok(v) => v,
            Err(e) => {
                return Err(e);
            },
        };
        let id = match parse_field::<Option<String>>(&nodes[at], "id", None) {
            Ok(v) => v,
            Err(e) => {
                return Err(e);
            },
        };
        let attrs = match Attrs::parse(nodes, at) {
            Ok(v) => v,
            Err(e) => {
                return Err(e);
            },
        };
        let items = match parse_nodes(nodes, at) {
            Ok(v) => v,
            Err(e) => {
                return Err(e);
            },
        };
        Ok(TagText { pos: GlyphPos { x, y, dx, dy, rotate }, attrs, id, items })
    }
}

impl TagTSpan {
    /// Whether the fields of `self` that are read from the element at `at` itself are what
    /// it sets them to.
    #[verifier::opaque]
    pub open spec fn fields_parsed(&self, nodes: Seq<XmlNode>, at: int) -> bool {
        &&& parse_field_spec::<Option<OneOrMany<LengthX>>>(nodes[at], "x"@, None)
            == Ok::<_, ErrorModel>(self.pos.x.deep_view())
        &&& parse_field_spec::<Option<OneOrMany<LengthY>>>(nodes[at], "y"@, None)
            == Ok::<_, ErrorModel>(self.pos.y.deep_view())
        &&& parse_field_spec::<Option<OneOrMany<LengthX>>>(nodes[at], "dx"@, None)
            == Ok::<_, ErrorModel>(self.pos.dx.deep_view())
        &&& parse_field_spec::<Option<OneOrMany<LengthY>>>(nodes[at], "dy"@, None)
            == Ok::<_, ErrorModel>(self.pos.dy.deep_view())
        &&& parse_field_spec::<Option<OneOrMany<Number>>>(nodes[at], "rotate"@, None)
            == Ok::<_, ErrorModel>(self.pos.rotate.deep_view())
        &&& parse_field_spec::<Option<String>>(nodes[at], "id"@, None)
            == Ok::<_, ErrorModel>(self.id.deep_view())
        &&& self.attrs.parsed_from(nodes, at)
    }

    /// The error of the first field of the element at `at` itself that cannot be read.
    #[verifier::opaque]
    pub open spec fn fields_error(nodes: Seq<XmlNode>, at: int) -> Option<ErrorModel> {
        let e = err_of(parse_field_spec::<Option<OneOrMany<LengthX>>>(nodes[at], "x"@, None));
        let e = first_of(
            e,
            err_of(parse_field_spec::<Option<OneOrMany<LengthY>>>(nodes[at], "y"@, None)),
        );
        let e = first_of(
            e,
            err_of(parse_field_spec::<Option<OneOrMany<LengthX>>>(nodes[at], "dx"@, None)),
        );
        let e = first_of(
            e,
            err_of(parse_field_spec::<Option<OneOrMany<LengthY>>>(nodes[at], "dy"@, None)),
        );
        let e = first_of(
            e,
            err_of(parse_field_spec::<Option<OneOrMany<Number>>>(nodes[at], "rotate"@, None)),
        );
        let e = first_of(e, err_of(parse_field_spec::<Option<String>>(nodes[at], "id"@, None)));
        let e = first_of(e, Attrs::parse_error(nodes, at));
        e
    }
}

impl ParseNode for TagTSpan {
    /// Whether the fields of `self`, and the items beneath it, are what the element at
    /// `at` and the nodes beneath it set them to.
    open spec fn parsed_from(&self, nodes: Seq<XmlNode>, at: int) -> bool
        decreases nodes.len() - at, 0nat,
    {
        if 0 <= at < nodes.len() {
            self.fields_parsed(nodes, at) && nodes_parsed(self.items@, 0, nodes, at + 1, subtree_end(nodes, at), true)
        } else {
            false
        }
    }

    /// The error of the first thing of the element at `at`, or beneath it, that cannot be
    /// read: its own fields come first.
    open spec fn parse_error(nodes: Seq<XmlNode>, at: int) -> Option<ErrorModel>
        decreases nodes.len() - at, 0nat,
    {
        if 0 <= at < nodes.len() {
            first_of(
                TagTSpan::fields_error(nodes, at),
                elements_error(nodes, at + 1, subtree_end(nodes, at)),
            )
        } else {
            None
        }
    }

    /// Reads a `<tspan>` and all that is beneath it, runs of text included.
    fn parse_node(nodes: &[XmlNode], at: usize) -> (r: Result<TagTSpan, Error>)
        decreases nodes@.len() - at, 1nat,
    {
        reveal(TagTSpan::fields_parsed);
        reveal(TagTSpan::fields_error);
        let x = match parse_field::<Option<OneOrMany<LengthX>>>(&nodes[at], "x", None) {
            Ok(v) => v,
            Err(e) => {
                return Err(e);
            },
        };
        let y = match parse_field::<Option<OneOrMany<LengthY>>>(&nodes[at], "y", None) {
            Ok(v) => v,
            Err(e) => {
                return Err(e);
            },
        };
        let dx = match parse_field::<Option<OneOrMany<LengthX>>>(&nodes[at], "dx", None) {
            Ok(v) => v,
            Err(e) => {
                return Err(e);
            },
        };
        let dy = match parse_field::<Option<OneOrMany<LengthY>>>(&nodes[at], "dy", None) {
            Ok(v) => v,
            Err(e) => {
                return Err(e);
            },
        };
        let rotate = match parse_field::<Option<OneOrMany<Number>>>(&nodes[at], "rotate", None) {
            Ok(v) => v,
            Err(e) => {
                return Err(e);
            },
        };
        let id = match parse_field::<Option<String>>(&nodes[at], "id", None) {
            Ok(v) => v,
            Err(e) => {
                return Err(e);
            },
        };
        let attrs = match Attrs::parse(nodes, at) {
            Ok(v) => v,
            Err(e) => {
                return Err(e);
            },
        };
        let items = match parse_nodes(nodes, at) {
            Ok(v) => v,
            Err(e) => {
                return Err(e);
            },
        };
        Ok(TagTSpan { attrs, id, items, pos: GlyphPos { x, y, dx, dy, rotate } })
    }
}

impl Tag for TagText {
    open spec fn id_spec(&self) -> Option<Seq<char>> {
        id_view(self.id)
    }

    open spec fn children_spec(&self) -> Seq<Arc<Item>> {
        self.items@
    }

    fn id(&self) -> (r: Option<&str>) {
        id_str(&self.id)
    }

    fn children(&self) -> (r: &[Arc<Item>]) {
        self.items.as_slice()
    }
}

impl Tag for TagTSpan {
    open spec fn id_spec(&self) -> Option<Seq<char>> {
        id_view(self.id)
    }

    open spec fn children_spec(&self) -> Seq<Arc<Item>> {
        self.items@
    }

    fn id(&self) -> (r: Option<&str>) {
        id_str(&self.id)
    }

    fn children(&self) -> (r: &[Arc<Item>]) {
        self.items.as_slice()
    }
}

impl Tag for TagTRef {
    open spec fn id_spec(&self) -> Option<Seq<char>> {
        None
    }

    open spec fn children_spec(&self) -> Seq<Arc<Item>> {
        Seq::empty()
    }

    fn id(&self) -> (r: Option<&str>) {
        None
    }

    fn children(&self) -> (r: &[Arc<Item>]) {
        &[]
    }
}

} // verus!
