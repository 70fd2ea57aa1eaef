//! The `<g>`, `<symbol>` and `<use>` elements.

use crate::dom::{
    elements_error, elements_parsed, id_str, id_view, parse_node_list, Item, ParseNode, Tag,
};
use crate::dom::attrs::Attrs;
use crate::dom::error::{Error, ErrorModel};
use crate::dom::node::{
    anim_field_spec, err_of, first_of, href_field, href_field_spec, id_attr, id_attr_spec,
    parse_anim, parse_field, parse_field_spec, parse_view_box, view_box_spec,
};
use crate::dom::util::{Length, LengthX, LengthY, Rect};
use crate::dom::value::ValueVector;
use crate::dom::xml::{subtree_end, XmlNode};
use std::sync::Arc;
use vstd::prelude::*;

verus! {

/// The `<g>` element: a group of elements under common attributes.
#[derive(Debug)]
pub struct TagG {
    pub items: Vec<Arc<Item>>,
    pub attrs: Attrs,
    pub id: Option<String>,
}

/// The `<symbol>` element: elements that are drawn only where a `<use>` refers to them.
#[derive(Debug)]
pub struct TagSymbol {
    pub items: Vec<Arc<Item>>,
    pub attrs: Attrs,
    pub id: Option<String>,
    pub view_box: Option<Rect>,
}

/// The `<use>` element: a reference to an element that is drawn in its place.
#[derive(Debug)]
pub struct TagUse {
    pub attrs: Attrs,
    pub pos: ValueVector,
    pub width: Option<LengthX>,
    pub height: Option<LengthY>,
    pub href: Option<String>,
    pub id: Option<String>,
}

impl ParseNode for TagUse {
    /// Whether the fields of `self` are what the element at `at` sets them to.
    #[verifier::opaque]
    open spec fn parsed_from(&self, nodes: Seq<XmlNode>, at: int) -> bool {
        &&& anim_field_spec::<LengthX>(nodes, at, "x"@, LengthX(Length::zero_spec()))
            == Ok::<_, ErrorModel>(self.pos.x.deep_view())
        &&& anim_field_spec::<LengthY>(nodes, at, "y"@, LengthY(Length::zero_spec()))
            == Ok::<_, ErrorModel>(self.pos.y.deep_view())
        &&& parse_field_spec::<Option<LengthX>>(nodes[at], "width"@, None)
            == Ok::<_, ErrorModel>(self.width.deep_view())
        &&& parse_field_spec::<Option<LengthY>>(nodes[at], "height"@, None)
            == Ok::<_, ErrorModel>(self.height.deep_view())
        &&& parse_field_spec::<Option<String>>(nodes[at], "id"@, None)
            == Ok::<_, ErrorModel>(self.id.deep_view())
        &&& href_field_spec(nodes[at]) == Ok::<_, ErrorModel>(self.href.deep_view())
        &&& self.attrs.parsed_from(nodes, at)
    }

    /// The error of the first field of the element at `at` that cannot be read.
    #[verifier::opaque]
    open spec fn parse_error(nodes: Seq<XmlNode>, at: int) -> Option<ErrorModel> {
        let e = err_of(anim_field_spec::<LengthX>(nodes, at, "x"@, LengthX(Length::zero_spec())));
        let e = first_of(
            e,
            err_of(anim_field_spec::<LengthY>(nodes, at, "y"@, LengthY(Length::zero_spec()))),
        );
        let e = first_of(e, err_of(parse_field_spec::<Option<LengthX>>(nodes[at], "width"@, None)));
        let e = first_of(
            e,
            err_of(parse_field_spec::<Option<LengthY>>(nodes[at], "height"@, None)),
        );
        let e = first_of(e, err_of(parse_field_spec::<Option<String>>(nodes[at], "id"@, None)));
        let e = first_of(e, err_of(href_field_spec(nodes[at])));
        let e = first_of(e, Attrs::parse_error(nodes, at));
        e
    }

    /// Reads a `<use>`.
    fn parse_node(nodes: &[XmlNode], at: usize) -> (r: Result<TagUse, Error>) {
        reveal(<TagUse as ParseNode>::parsed_from);
        reveal(<TagUse as ParseNode>::parse_error);
        let x = match parse_anim::<LengthX>(nodes, at, "x", LengthX::zero()) {
            Ok(v) => v,
            Err(e) => {
                return Err(e);
            },
        };
        let y = match parse_anim::<LengthY>(nodes, at, "y", LengthY::zero()) {
            Ok(v) => v,
            Err(e) => {
                return Err(e);
            },
        };
        let width = match parse_field::<Option<LengthX>>(&nodes[at], "width", None) {
            Ok(v) => v,
            Err(e) => {
                return Err(e);
            },
        };
        let height = match parse_field::<Option<LengthY>>(&nodes[at], "height", None) {
            Ok(v) => v,
            Err(e) => {
                return Err(e);
            },
        };
        let id = match parse_field::<Option<String>>(&nodes[at], "id", None) {
            Ok(v) => v,
            Err(e) => {
                return Err(e);
            },
        };
        let href = match href_field(&nodes[at]) {
            Ok(v) => v,
            Err(e) => {
                return Err(e);
            },
        };
        let attrs = match Attrs::parse(nodes, at) {
            Ok(v) => v,
            Err(e) => {
                return Err(e);
            },
        };
        Ok(TagUse { pos: ValueVector::new(x, y), width, height, attrs, href, id })
    }
}

impl TagG {
    /// Whether the fields of `self` that are read from the element at `at` itself are what
    /// it sets them to.
    #[verifier::opaque]
    pub open spec fn fields_parsed(&self, nodes: Seq<XmlNode>, at: int) -> bool {
        &&& self.attrs.parsed_from(nodes, at)
        &&& id_attr_spec(nodes[at]) == Ok::<_, ErrorModel>(self.id.deep_view())
    }

    /// The error of the first field of the element at `at` itself that cannot be read.
    #[verifier::opaque]
    pub open spec fn fields_error(nodes: Seq<XmlNode>, at: int) -> Option<ErrorModel> {
        first_of(
            Attrs::parse_error(nodes, at),
            first_of(
                err_of(id_attr_spec(nodes[at])),
                None,
            ),
        )
    }

}

impl ParseNode for TagG {
    /// Whether the fields of `self`, and the items beneath it, are what the element at
    /// `at` and the nodes beneath it set them to.
    open spec fn parsed_from(&self, nodes: Seq<XmlNode>, at: int) -> bool
        decreases nodes.len() - at, 0nat,
    {
        if 0 <= at < nodes.len() {
            self.fields_parsed(nodes, at) && elements_parsed(self.items@, 0, nodes, at + 1, subtree_end(nodes, at))
        } else {
            false
        }
    }

    /// The error of the first thing of the element at `at`, or beneath it, that cannot be
    /// read: its own fields come first.
    open spec fn parse_error(nodes: Seq<XmlNode>, at: int) -> Option<ErrorModel>
        decreases nodes.len() - at, 0nat,
    {
        if 0 <= at < nodes.len() {
            first_of(
                TagG::fields_error(nodes, at),
                elements_error(nodes, at + 1, subtree_end(nodes, at)),
            )
        } else {
            None
        }
    }

    /// Reads a `<g>` and all that is beneath it.
    fn parse_node(nodes: &[XmlNode], at: usize) -> (r: Result<TagG, Error>)
        decreases nodes@.len() - at, 1nat,
    {
        reveal(TagG::fields_parsed);
        reveal(TagG::fields_error);
        let attrs = match Attrs::parse(nodes, at) {
            Ok(v) => v,
            Err(e) => {
                return Err(e);
            },
        };
        let id = match id_attr(&nodes[at]) {
            Ok(v) => v,
            Err(e) => {
                return Err(e);
            },
        };
        let items = match parse_node_list(nodes, at) {
            Ok(v) => v,
            Err(e) => {
                return Err(e);
            },
        };
        Ok(TagG { items, attrs, id })
    }
}

impl TagSymbol {
    /// Whether the fields of `self` that are read from the element at `at` itself are what
    /// it sets them to.
    #[verifier::opaque]
    pub open spec fn fields_parsed(&self, nodes: Seq<XmlNode>, at: int) -> bool {
        &&& self.attrs.parsed_from(nodes, at)
        &&& id_attr_spec(nodes[at]) == Ok::<_, ErrorModel>(self.id.deep_view())
        &&& view_box_spec(nodes[at]) == Ok::<_, ErrorModel>(self.view_box.deep_view())
    }

    /// The error of the first field of the element at `at` itself that cannot be read.
    #[verifier::opaque]
    pub open spec fn fields_error(nodes: Seq<XmlNode>, at: int) -> Option<ErrorModel> {
        let e = Attrs::parse_error(nodes, at);
        let e = first_of(e, err_of(id_attr_spec(nodes[at])));
        let e = first_of(e, err_of(view_box_spec(nodes[at])));
        e
    }
}

impl ParseNode for TagSymbol {
    /// Whether the fields of `self`, and the items beneath it, are what the element at
    /// `at` and the nodes beneath it set them to.
    open spec fn parsed_from(&self, nodes: Seq<XmlNode>, at: int) -> bool
        decreases nodes.len() - at, 0nat,
    {
        if 0 <= at < nodes.len() {
            self.fields_parsed(nodes, at) && elements_parsed(self.items@, 0, nodes, at + 1, subtree_end(nodes, at))
        } else {
            false
        }
    }

    /// The error of the first thing of the element at `at`, or beneath it, that cannot be
    /// read: its own fields come first.
    open spec fn parse_error(nodes: Seq<XmlNode>, at: int) -> Option<ErrorModel>
        decreases nodes.len() - at, 0nat,
    {
        if 0 <= at < nodes.len() {
            first_of(
                TagSymbol::fields_error(nodes, at),
                elements_error(nodes, at + 1, subtree_end(nodes, at)),
            )
        } else {
            None
        }
    }

    /// Reads a `<symbol>` and all that is beneath it.
    fn parse_node(nodes: &[XmlNode], at: usize) -> (r: Result<TagSymbol, Error>)
        decreases nodes@.len() - at, 1nat,
    {
        reveal(TagSymbol::fields_parsed);
        reveal(TagSymbol::fields_error);
        let attrs = match Attrs::parse(nodes, at) {
            Ok(v) => v,
            Err(e) => {
                return Err(e);
            },
        };
        let id = match id_attr(&nodes[at]) {
            Ok(v) => v,
            Err(e) => {
                return Err(e);
            },
        };
        let view_box = match parse_view_box(&nodes[at]) {
            Ok(v) => v,
            Err(e) => {
                return Err(e);
            },
        };
        let items = match parse_node_list(nodes, at) {
            Ok(v) => v,
            Err(e) => {
                return Err(e);
            },
        };
        Ok(TagSymbol { items, attrs, id, view_box })
    }
}

impl Tag for TagUse {
    open spec fn id_spec(&self) -> Option<Seq<char>> {
        id_view(self.id)
    }

    open spec fn children_spec(&self) -> Seq<Arc<Item>> {
        Seq::empty()
    }

    fn id(&self) -> (r: Option<&str>) {
        id_str(&self.id)
    }

    fn children(&self) -> (r: &[Arc<Item>]) {
        &[]
    }
}

impl Tag for TagG {
    open spec fn id_spec(&self) -> Option<Seq<char>> {
        id_view(self.id)
    }

    open spec fn children_spec(&self) -> Seq<Arc<Item>> {
        self.items@
    }

    fn id(&self) -> (r: Option<&str>) {
        id_str(&self.id)
    }

    fn children(&self) -> (r: &[Arc<Item>]) {
        self.items.as_slice()
    }
}

impl Tag for TagSymbol {
    open spec fn id_spec(&self) -> Option<Seq<char>> {
        id_view(self.id)
    }

    open spec fn children_spec(&self) -> Seq<Arc<Item>> {
        self.items@
    }

    fn id(&self) -> (r: Option<&str>) {
        id_str(&self.id)
    }

    fn children(&self) -> (r: &[Arc<Item>]) {
        self.items.as_slice()
    }
}

} // verus!
