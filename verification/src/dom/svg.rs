//! The `<svg>` element and the document as a whole.

use crate::chars::str_eq;
use crate::dom::{
    elements_error, elements_parsed, find_item, id_str, id_view, item_error, item_parsed, link,
    parse_element, parse_node_list, Item, ParseNode, Tag,
};
use crate::dom::attrs::Attrs;
use crate::dom::error::{Error, ErrorModel};
use crate::dom::node::{
    err_of, first_of, id_attr, id_attr_spec, opt_attr_spec, parse_opt_attr, parse_view_box,
    view_box_spec,
};
use crate::dom::util::{LengthX, LengthY, Rect};
use crate::dom::xml::{subtree_end, xml_nodes, XmlDocument, XmlNode};
use std::io::Read;
use std::sync::Arc;
use vstd::prelude::*;
use vstd::utf8::{decode_utf8, valid_utf8};

verus! {

/// The `<svg>` element: the root of a document, or a viewport inside one.
#[derive(Debug)]
pub struct TagSvg {
    pub id: Option<String>,
    pub items: Vec<Arc<Item>>,
    pub view_box: Option<Rect>,
    pub width: Option<LengthX>,
    pub height: Option<LengthY>,
    pub attrs: Attrs,
}

/// An element of the document under the id that it carries.
#[derive(Debug, Clone)]
pub struct NamedItem {
    pub id: String,
    pub item: Arc<Item>,
}

/// The elements of a document by their ids. Where an id was given to several elements, the
/// one that was entered last is found.
#[derive(Debug, Clone)]
pub struct ItemCollection {
    pub entries: Vec<NamedItem>,
}

/// The element that the first `n` of the `entries` hold under `id`: the last one entered.
pub open spec fn lookup_in(entries: Seq<NamedItem>, id: Seq<char>, n: nat) -> Option<Arc<Item>>
    decreases n,
{
    if n == 0 || n > entries.len() {
        None
    } else if entries[n - 1].id@ == id {
        Some(entries[n - 1].item)
    } else {
        lookup_in(entries, id, (n - 1) as nat)
    }
}

/// What the first `n` entries hold does not depend on the entries after them.
pub proof fn lemma_lookup_prefix(a: Seq<NamedItem>, b: Seq<NamedItem>, id: Seq<char>, n: nat)
    requires
        n <= a.len(),
        n <= b.len(),
        forall|i: int| 0 <= i < n ==> a[i] == b[i],
    ensures
        lookup_in(a, id, n) == lookup_in(b, id, n),
    decreases n,
{
    if n > 0 {
        lemma_lookup_prefix(a, b, id, (n - 1) as nat);
    }
}

impl ItemCollection {
    /// The element under `id`, if there is one.
    pub open spec fn lookup(&self, id: Seq<char>) -> Option<Arc<Item>> {
        lookup_in(self.entries@, id, self.entries@.len())
    }

    pub fn new() -> (r: ItemCollection)
        ensures
            forall|id: Seq<char>| r.lookup(id) is None,
    {
        ItemCollection { entries: Vec::new() }
    }

    /// Enters `item` under `id`, in place of what was there under that id.
    pub fn insert(&mut self, id: String, item: Arc<Item>)
        ensures
            forall|k: Seq<char>|
                #[trigger] final(self).lookup(k) == (if k == id@ {
                    Some(item)
                } else {
                    old(self).lookup(k)
                }),
    {
        let ghost before = self.entries@;
        self.entries.push(NamedItem { id, item });
        proof {
            assert forall|k: Seq<char>|
                #[trigger] self.lookup(k) == (if k == id@ {
                    Some(item)
                } else {
                    lookup_in(before, k, before.len())
                }) by {
                lemma_lookup_prefix(self.entries@, before, k, before.len());
            }
        }
    }

    /// The element under `id`.
    pub fn get(&self, id: &str) -> (r: Option<&Arc<Item>>)
        ensures
            r == match self.lookup(id@) {
                Some(item) => Some(&item),
                None => None,
            },
    {
        let key = id.to_owned();
        let mut n: usize = self.entries.len();
        while n > 0
            invariant
                n <= self.entries@.len(),
                key@ == id@,
                self.lookup(id@) == lookup_in(self.entries@, id@, n as nat),
            decreases n,
        {
            if self.entries[n - 1].id == key {
                return Some(&self.entries[n - 1].item);
            }
            n = n - 1;
        }
        None
    }
}

/// A document: its root element and the index of the elements that carry an id.
#[derive(Debug, Clone)]
pub struct Svg {
    pub named_items: ItemCollection,
    pub root: Arc<Item>,
}

/// What the gzip stream `data` holds; `None` where `data` is no gzip stream.
pub uninterp spec fn gunzip_spec(data: Seq<u8>) -> Option<Seq<u8>>;

/// Opens `data` with `libflate::gzip::Decoder::new` and reads the decoder to its end. `None`
/// where either reports an error. The contract claims only that the outcome depends on the
/// bytes alone.
#[verifier::external_body]
fn gunzip(data: &[u8]) -> (r: Option<Vec<u8>>)
    ensures
        match r {
            Some(bytes) => gunzip_spec(data@) == Some(bytes@),
            None => gunzip_spec(data@) is None,
        },
{
    let mut decoder = libflate::gzip::Decoder::new(data).ok()?;
    let mut bytes = Vec::new();
    decoder.read_to_end(&mut bytes).ok()?;
    Some(bytes)
}

/// Calls `std::str::from_utf8`: the text that the bytes encode, where they are valid UTF-8,
/// and `None` where they are not.
#[verifier::external_body]
fn utf8_text(data: &[u8]) -> (r: Option<&str>)
    ensures
        match r {
            Some(text) => valid_utf8(data@) && text@ == decode_utf8(data@),
            None => !valid_utf8(data@),
        },
{
    std::str::from_utf8(data).ok()
}

/// Whether the data starts with the two bytes that start every gzip stream.
pub open spec fn is_gzip(data: Seq<u8>) -> bool {
    data.len() >= 2 && data[0] == 0x1f && data[1] == 0x8b
}

/// Whether `r` is what reading a document with the nodes `nodes` gives: the root element,
/// which must be an `<svg>`, read with all that is beneath it, and the index of all ids in
/// it; or the error of the first thing that cannot be read.
pub open spec fn document_read(r: Result<Svg, Error>, nodes: Seq<XmlNode>) -> bool {
    match r {
        Ok(svg) => {
            &&& nodes.len() > 0
            &&& nodes[0].name@ == "svg"@
            &&& item_parsed(*svg.root, nodes, 0)
            &&& item_error(nodes, 0) is None
            &&& forall|id: Seq<char>| #[trigger]
                svg.named_items.lookup(id) == find_item(svg.root, id)
        },
        Err(e) => if nodes.len() == 0 || nodes[0].name@ != "svg"@ {
            e is NotSvg
        } else {
            item_error(nodes, 0) == Some(e.deep_view())
        },
    }
}

/// Whether `r` is what reading the markup `text` gives: the error for markup that is not
/// well-formed, or else what [`document_read`] says of its nodes.
pub open spec fn text_read(r: Result<Svg, Error>, text: Seq<char>) -> bool {
    match xml_nodes(text) {
        None => r matches Err(e) && e is Xml,
        Some(nodes) => document_read(r, nodes),
    }
}

/// Whether `r` is what reading the bytes `data` as markup gives: the error for bytes that
/// are not valid UTF-8, or else what [`text_read`] says of the text that they encode.
pub open spec fn bytes_read(r: Result<Svg, Error>, data: Seq<u8>) -> bool {
    if valid_utf8(data) {
        text_read(r, decode_utf8(data))
    } else {
        r matches Err(e) && e is Utf8
    }
}

impl Svg {
    /// Reads a document from its nodes.
    pub fn from_xml(doc: &XmlDocument) -> (r: Result<Svg, Error>)
        ensures
            document_read(r, doc.nodes@),
    {
        if doc.nodes.len() == 0 || !str_eq(doc.nodes[0].name.as_str(), "svg") {
            return Err(Error::NotSvg);
        }
        let root = match parse_element(doc.nodes.as_slice(), 0) {
            Ok(Some(item)) => item,
            Ok(None) => {
                return Err(Error::NotSvg);
            },
            Err(e) => {
                return Err(e);
            },
        };
        let root = Arc::new(root);
        let mut named_items = ItemCollection::new();
        link(&mut named_items, &root);
        Ok(Svg { root, named_items })
    }

    /// Reads a document from markup.
    pub fn from_str(text: &str) -> (r: Result<Svg, Error>)
        ensures
            text_read(r, text@),
    {
        match XmlDocument::parse(text) {
            Some(doc) => Svg::from_xml(&doc),
            None => Err(Error::Xml),
        }
    }

    /// Reads a document from markup in UTF-8.
    pub fn from_utf8(data: &[u8]) -> (r: Result<Svg, Error>)
        ensures
            bytes_read(r, data@),
    {
        match utf8_text(data) {
            Some(text) => Svg::from_str(text),
            None => Err(Error::Utf8),
        }
    }

    /// Reads a document from data: markup in UTF-8, as it is or packed with gzip. Data
    /// that starts like a gzip stream is unpacked first.
    pub fn from_data(data: &[u8]) -> (r: Result<Svg, Error>)
        ensures
            if is_gzip(data@) {
                match gunzip_spec(data@) {
                    None => r matches Err(e) && e is Gzip,
                    Some(bytes) => bytes_read(r, bytes),
                }
            } else {
                bytes_read(r, data@)
            },
    {
        if data.len() >= 2 && data[0] == 0x1f && data[1] == 0x8b {
            match gunzip(data) {
                Some(bytes) => Svg::from_utf8(bytes.as_slice()),
                None => Err(Error::Gzip),
            }
        } else {
            Svg::from_utf8(data)
        }
    }

    /// The element with the id `id`.
    pub fn get_item(&self, id: &str) -> (r: Option<&Arc<Item>>)
        ensures
            r == match self.named_items.lookup(id@) {
                Some(item) => Some(&item),
                None => None,
            },
    {
        self.named_items.get(id)
    }
}

impl TagSvg {
    /// Whether the fields of `self` that are read from the element at `at` itself are what
    /// it sets them to.
    #[verifier::opaque]
    pub open spec fn fields_parsed(&self, nodes: Seq<XmlNode>, at: int) -> bool {
        &&& view_box_spec(nodes[at]) == Ok::<_, ErrorModel>(self.view_box.deep_view())
        &&& opt_attr_spec::<LengthX>(nodes[at], "width"@)
            == Ok::<_, ErrorModel>(self.width.deep_view())
        &&& opt_attr_spec::<LengthY>(nodes[at], "height"@)
            == Ok::<_, ErrorModel>(self.height.deep_view())
        &&& id_attr_spec(nodes[at]) == Ok::<_, ErrorModel>(self.id.deep_view())
        &&& self.attrs.parsed_from(nodes, at)
    }

    /// The error of the first field of the element at `at` itself that cannot be read.
    #[verifier::opaque]
    pub open spec fn fields_error(nodes: Seq<XmlNode>, at: int) -> Option<ErrorModel> {
        let e = err_of(view_box_spec(nodes[at]));
        let e = first_of(e, err_of(opt_attr_spec::<LengthX>(nodes[at], "width"@)));
        let e = first_of(e, err_of(opt_attr_spec::<LengthY>(nodes[at], "height"@)));
        let e = first_of(e, err_of(id_attr_spec(nodes[at])));
        let e = first_of(e, Attrs::parse_error(nodes, at));
        e
    }
}

impl ParseNode for TagSvg {
    /// Whether the fields of `self`, and the items beneath it, are what the element at
    /// `at` and the nodes beneath it set them to.
    open spec fn parsed_from(&self, nodes: Seq<XmlNode>, at: int) -> bool
        decreases nodes.len() - at, 0nat,
    {
        if 0 <= at < nodes.len() {
            self.fields_parsed(nodes, at) && elements_parsed(self.items@, 0, nodes, at + 1, subtree_end(nodes, at))
        } else {
            false
        }
    }

    /// The error of the first thing of the element at `at`, or beneath it, that cannot be
    /// read: its own fields come first.
    open spec fn parse_error(nodes: Seq<XmlNode>, at: int) -> Option<ErrorModel>
        decreases nodes.len() - at, 0nat,
    {
        if 0 <= at < nodes.len() {
            first_of(
                TagSvg::fields_error(nodes, at),
                elements_error(nodes, at + 1, subtree_end(nodes, at)),
            )
        } else {
            None
        }
    }

    /// Reads an `<svg>` and all that is beneath it.
    fn parse_node(nodes: &[XmlNode], at: usize) -> (r: Result<TagSvg, Error>)
        decreases nodes@.len() - at, 1nat,
    {
        reveal(TagSvg::fields_parsed);
        reveal(TagSvg::fields_error);
        let view_box = match parse_view_box(&nodes[at]) {
            Ok(v) => v,
            Err(e) => {
                return Err(e);
            },
        };
        let width = match parse_opt_attr::<LengthX>(&nodes[at], "width") {
            Ok(v) => v,
            Err(e) => {
                return Err(e);
            },
        };
        let height = match parse_opt_attr::<LengthY>(&nodes[at], "height") {
            Ok(v) => v,
            Err(e) => {
                return Err(e);
            },
        };
        let id = match id_attr(&nodes[at]) {
            Ok(v) => v,
            Err(e) => {
                return Err(e);
            },
        };
        let attrs = match Attrs::parse(nodes, at) {
            Ok(v) => v,
            Err(e) => {
                return Err(e);
            },
        };
        let items = match parse_node_list(nodes, at) {
            Ok(v) => v,
            Err(e) => {
                return Err(e);
            },
        };
        Ok(TagSvg { items, view_box, id, attrs, width, height })
    }
}

impl Tag for TagSvg {
    open spec fn id_spec(&self) -> Option<Seq<char>> {
        id_view(self.id)
    }

    open spec fn children_spec(&self) -> Seq<Arc<Item>> {
        self.items@
    }

    fn id(&self) -> (r: Option<&str>) {
        id_str(&self.id)
    }

    fn children(&self) -> (r: &[Arc<Item>]) {
        self.items.as_slice()
    }
}

} // verus!
