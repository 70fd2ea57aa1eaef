//! The typed tree that a document is read into.

pub mod animate;
pub mod attrs;
pub mod ellipse;
pub mod error;
pub mod filter;
pub mod g;
pub mod gradient;
pub mod node;
pub mod outline;
pub mod paint;
pub mod parser;
pub mod path;
pub mod polygon;
pub mod rect;
pub mod svg;
pub mod text;
pub mod util;
pub mod value;
pub mod xml;

use crate::chars::{str_eq, to_chars};
use crate::dom::ellipse::{TagCircle, TagEllipse};
use crate::dom::error::{Error, ErrorModel};
use crate::dom::filter::TagFilter;
use crate::dom::g::{TagG, TagSymbol, TagUse};
use crate::dom::gradient::{TagLinearGradient, TagRadialGradient};
use crate::dom::node::first_of;
use crate::dom::path::{TagClipPath, TagPath};
use crate::dom::polygon::{TagLine, TagPolygon, TagPolyline};
use crate::dom::rect::TagRect;
use crate::dom::svg::{ItemCollection, TagSvg};
use crate::dom::text::{TagText, TagTRef, TagTSpan};
use crate::dom::xml::{lemma_subtree_nested, skip_subtree, subtree_end, XmlKind, XmlNode};
use std::sync::Arc;
use vstd::prelude::*;

verus! {

/// One element of a document, or a run of text.
#[derive(Debug)]
pub enum Item {
    Path(TagPath),
    G(TagG),
    Defs(TagDefs),
    Rect(TagRect),
    Polygon(TagPolygon),
    Polyline(TagPolyline),
    Line(TagLine),
    Circle(TagCircle),
    Ellipse(TagEllipse),
    LinearGradient(TagLinearGradient),
    RadialGradient(TagRadialGradient),
    ClipPath(TagClipPath),
    Filter(TagFilter),
    Svg(TagSvg),
    Use(TagUse),
    Symbol(TagSymbol),
    Text(TagText),
    TSpan(TagTSpan),
    TRef(TagTRef),
    String(String),
}

/// The `<defs>` element.
#[derive(Debug)]
pub struct TagDefs {
    pub items: Vec<Arc<Item>>,
}

/// The id of an element, as characters.
pub open spec fn id_view(id: Option<String>) -> Option<Seq<char>> {
    match id {
        Some(s) => Some(s@),
        None => None,
    }
}

/// The view of an optional text.
pub open spec fn str_view(s: Option<&str>) -> Option<Seq<char>> {
    match s {
        Some(s) => Some(s@),
        None => None,
    }
}

/// The id of an element as a string slice.
pub fn id_str(id: &Option<String>) -> (r: Option<&str>)
    ensures
        str_view(r) == id_view(*id),
{
    match id {
        Some(s) => Some(s.as_str()),
        None => None,
    }
}

/// What is read from an element of the markup.
pub trait ParseNode: Sized {
    /// Whether `self` is what the element at `at` of `nodes` stands for.
    spec fn parsed_from(&self, nodes: Seq<XmlNode>, at: int) -> bool;

    /// The error of the first thing of the element at `at` that cannot be read, if there is
    /// one.
    spec fn parse_error(nodes: Seq<XmlNode>, at: int) -> Option<ErrorModel>;

    /// Reads the element at `at`: what it stands for, or the error of the first thing in
    /// it that cannot be read.
    fn parse_node(nodes: &[XmlNode], at: usize) -> (r: Result<Self, Error>)
        requires
            at < nodes@.len(),
        ensures
            match r {
                Ok(t) => t.parsed_from(nodes@, at as int) && Self::parse_error(nodes@, at as int)
                    is None,
                Err(e) => Self::parse_error(nodes@, at as int) == Some(e.deep_view()),
            },
    ;
}

/// What every element has: perhaps an id, and the elements beneath it.
pub trait Tag {
    spec fn id_spec(&self) -> Option<Seq<char>>;

    spec fn children_spec(&self) -> Seq<Arc<Item>>;

    /// The id of the element, if it carries one.
    fn id(&self) -> (r: Option<&str>)
        ensures
            str_view(r) == self.id_spec(),
    ;

    /// The elements under this one that the document index reaches, in document order.
    fn children(&self) -> (r: &[Arc<Item>])
        ensures
            r@ == self.children_spec(),
    ;
}

impl Tag for TagDefs {
    open spec fn id_spec(&self) -> Option<Seq<char>> {
        None
    }

    open spec fn children_spec(&self) -> Seq<Arc<Item>> {
        self.items@
    }

    fn id(&self) -> (r: Option<&str>) {
        None
    }

    fn children(&self) -> (r: &[Arc<Item>]) {
        self.items.as_slice()
    }
}

impl Tag for Item {
    open spec fn id_spec(&self) -> Option<Seq<char>> {
        match *self {
            Item::Path(t) => t.id_spec(),
            Item::G(t) => t.id_spec(),
            Item::Defs(t) => t.id_spec(),
            Item::Rect(t) => t.id_spec(),
            Item::Polygon(t) => t.id_spec(),
            Item::Polyline(t) => t.id_spec(),
            Item::Line(t) => t.id_spec(),
            Item::Circle(t) => t.id_spec(),
            Item::Ellipse(t) => t.id_spec(),
            Item::LinearGradient(t) => t.id_spec(),
            Item::RadialGradient(t) => t.id_spec(),
            Item::ClipPath(t) => t.id_spec(),
            Item::Filter(t) => t.id_spec(),
            Item::Svg(t) => t.id_spec(),
            Item::Use(t) => t.id_spec(),
            Item::Symbol(t) => t.id_spec(),
            Item::Text(t) => t.id_spec(),
            Item::TSpan(t) => t.id_spec(),
            Item::TRef(t) => t.id_spec(),
            Item::String(_) => None,
        }
    }

    open spec fn children_spec(&self) -> Seq<Arc<Item>> {
        children_of(*self)
    }

    fn id(&self) -> (r: Option<&str>) {
        match self {
            Item::Path(t) => t.id(),
            Item::G(t) => t.id(),
            Item::Defs(t) => t.id(),
            Item::Rect(t) => t.id(),
            Item::Polygon(t) => t.id(),
            Item::Polyline(t) => t.id(),
            Item::Line(t) => t.id(),
            Item::Circle(t) => t.id(),
            Item::Ellipse(t) => t.id(),
            Item::LinearGradient(t) => t.id(),
            Item::RadialGradient(t) => t.id(),
            Item::ClipPath(t) => t.id(),
            Item::Filter(t) => t.id(),
            Item::Svg(t) => t.id(),
            Item::Use(t) => t.id(),
            Item::Symbol(t) => t.id(),
            Item::Text(t) => t.id(),
            Item::TSpan(t) => t.id(),
            Item::TRef(t) => t.id(),
            Item::String(_) => None,
        }
    }

    fn children(&self) -> (r: &[Arc<Item>]) {
        match self {
            Item::G(t) => t.children(),
            Item::Defs(t) => t.children(),
            Item::Svg(t) => t.children(),
            Item::Symbol(t) => t.children(),
            Item::Text(t) => t.children(),
            Item::TSpan(t) => t.children(),
            _ => &[],
        }
    }
}

/// The elements directly beneath `item` that the document index reaches.
pub open spec fn children_of(item: Item) -> Seq<Arc<Item>> {
    match item {
        Item::G(t) => t.items@,
        Item::Defs(t) => t.items@,
        Item::Svg(t) => t.items@,
        Item::Symbol(t) => t.items@,
        Item::Text(t) => t.items@,
        Item::TSpan(t) => t.items@,
        _ => Seq::empty(),
    }
}

/// The element that carries the id `id` among `item` and all that is beneath it: of several,
/// the one that comes last in document order.
pub open spec fn find_item(item: Arc<Item>, id: Seq<char>) -> Option<Arc<Item>>
    decreases *item,
{
    let below = match *item {
        Item::G(t) => find_list(t.items@, id, t.items@.len()),
        Item::Defs(t) => find_list(t.items@, id, t.items@.len()),
        Item::Svg(t) => find_list(t.items@, id, t.items@.len()),
        Item::Symbol(t) => find_list(t.items@, id, t.items@.len()),
        Item::Text(t) => find_list(t.items@, id, t.items@.len()),
        Item::TSpan(t) => find_list(t.items@, id, t.items@.len()),
        _ => None,
    };
    match below {
        Some(found) => Some(found),
        None => if item.id_spec() == Some(id) {
            Some(item)
        } else {
            None
        },
    }
}

/// The element that carries the id `id` among the first `n` of `items` and all that is
/// beneath them: of several, the one that comes last in document order.
pub open spec fn find_list(items: Seq<Arc<Item>>, id: Seq<char>, n: nat) -> Option<Arc<Item>>
    decreases items, n,
{
    if n == 0 || n > items.len() {
        None
    } else {
        match find_item(items[n - 1], id) {
            Some(found) => Some(found),
            None => find_list(items, id, (n - 1) as nat),
        }
    }
}

/// What `index` holds under `id` once the ids in `found` were entered on top of it.
pub open spec fn over(found: Option<Arc<Item>>, index: Option<Arc<Item>>) -> Option<Arc<Item>> {
    match found {
        Some(item) => Some(item),
        None => index,
    }
}

proof fn lemma_children_below(it: Arc<Item>, i: int)
    requires
        0 <= i < children_of(*it).len(),
    ensures
        decreases_to!(*it => children_of(*it)[i]),
        it.children_spec() == children_of(*it),
{
    let item = *it;
    match item {
        Item::G(t) => {
            assert(decreases_to!(t.items => t.items@[i]));
        },
        Item::Defs(t) => {
            assert(decreases_to!(t.items => t.items@[i]));
        },
        Item::Svg(t) => {
            assert(decreases_to!(t.items => t.items@[i]));
        },
        Item::Symbol(t) => {
            assert(decreases_to!(t.items => t.items@[i]));
        },
        Item::Text(t) => {
            assert(decreases_to!(t.items => t.items@[i]));
        },
        Item::TSpan(t) => {
            assert(decreases_to!(t.items => t.items@[i]));
        },
        _ => {},
    }
}

proof fn lemma_find_item_unfold(item: Arc<Item>, id: Seq<char>)
    ensures
        find_item(item, id) == over(
            find_list(children_of(*item), id, children_of(*item).len()),
            if item.id_spec() == Some(id) {
                Some(item)
            } else {
                None
            },
        ),
{
}

/// Enters into `ids` every element among `item` and all that is beneath it that carries an
/// id, in document order, so that a later element takes the place of an earlier one with
/// the same id.
pub fn link(ids: &mut ItemCollection, item: &Arc<Item>)
    ensures
        forall|k: Seq<char>| #[trigger]
            final(ids).lookup(k) == over(find_item(*item, k), old(ids).lookup(k)),
    decreases **item,
{
    let ghost start = *ids;
    match item.id() {
        Some(id) => {
            ids.insert(id.to_owned(), item.clone());
        },
        None => {},
    }
    let ghost own = *ids;
    let ghost this = *item;
    let children = item.children();
    proof {
        assert(item.children_spec() == children_of(**item));
    }
    let mut i: usize = 0;
    while i < children.len()
        invariant
            i <= children@.len(),
            children@ == children_of(*this),
            this == *item,
            forall|k: Seq<char>| #[trigger]
                ids.lookup(k) == over(find_list(children@, k, i as nat), own.lookup(k)),
        decreases children@.len() - i,
    {
        proof {
            lemma_children_below(this, i as int);
        }
        let ghost before = *ids;
        link(ids, &children[i]);
        proof {
            assert forall|k: Seq<char>| #[trigger]
                ids.lookup(k) == over(
                    find_list(children@, k, (i + 1) as nat),
                    own.lookup(k),
                ) by {
                assert(ids.lookup(k) == over(find_item(children@[i as int], k), before.lookup(k)));
                assert(before.lookup(k) == over(find_list(children@, k, i as nat), own.lookup(k)));
            }
        }
        i = i + 1;
    }
    proof {
        assert forall|k: Seq<char>| #[trigger]
            ids.lookup(k) == over(find_item(*item, k), start.lookup(k)) by {
            lemma_find_item_unfold(*item, k);
            assert(ids.lookup(k) == over(
                find_list(children@, k, children@.len()),
                own.lookup(k),
            ));
        }
    }
}

impl ParseNode for TagDefs {
    /// Whether the fields of `self`, and the items beneath it, are what the element at
    /// `at` and the nodes beneath it set them to.
    open spec fn parsed_from(&self, nodes: Seq<XmlNode>, at: int) -> bool
        decreases nodes.len() - at, 0nat,
    {
        if 0 <= at < nodes.len() {
            elements_parsed(self.items@, 0, nodes, at + 1, subtree_end(nodes, at))
        } else {
            false
        }
    }

    /// The error of the first thing of the element at `at`, or beneath it, that cannot be
    /// read: its own fields come first.
    open spec fn parse_error(nodes: Seq<XmlNode>, at: int) -> Option<ErrorModel>
        decreases nodes.len() - at, 0nat,
    {
        if 0 <= at < nodes.len() {
            elements_error(nodes, at + 1, subtree_end(nodes, at))
        } else {
            None
        }
    }

    /// Reads a `<defs>` and all that is beneath it.
    fn parse_node(nodes: &[XmlNode], at: usize) -> (r: Result<TagDefs, Error>)
        decreases nodes@.len() - at, 1nat,
    {
        let items = match parse_node_list(nodes, at) {
            Ok(v) => v,
            Err(e) => {
                return Err(e);
            },
        };
        Ok(TagDefs { items })
    }
}

/// Whether `item` is what the element at `at`, and all that is beneath it, is read into.
pub open spec fn item_parsed(item: Item, nodes: Seq<XmlNode>, at: int) -> bool
    decreases nodes.len() - at, 1nat,
{
    if 0 <= at < nodes.len() {
        let name = nodes[at].name@;
        if name == "path"@ {
            item matches Item::Path(t) && t.parsed_from(nodes, at)
        } else if name == "g"@ {
            item matches Item::G(t) && t.parsed_from(nodes, at)
        } else if name == "defs"@ {
            item matches Item::Defs(t) && t.parsed_from(nodes, at)
        } else if name == "rect"@ {
            item matches Item::Rect(t) && t.parsed_from(nodes, at)
        } else if name == "polygon"@ {
            item matches Item::Polygon(t) && t.parsed_from(nodes, at)
        } else if name == "polyline"@ {
            item matches Item::Polyline(t) && t.parsed_from(nodes, at)
        } else if name == "line"@ {
            item matches Item::Line(t) && t.parsed_from(nodes, at)
        } else if name == "circle"@ {
            item matches Item::Circle(t) && t.parsed_from(nodes, at)
        } else if name == "ellipse"@ {
            item matches Item::Ellipse(t) && t.parsed_from(nodes, at)
        } else if name == "linearGradient"@ {
            item matches Item::LinearGradient(t) && t.parsed_from(nodes, at)
        } else if name == "radialGradient"@ {
            item matches Item::RadialGradient(t) && t.parsed_from(nodes, at)
        } else if name == "clipPath"@ {
            item matches Item::ClipPath(t) && t.parsed_from(nodes, at)
        } else if name == "filter"@ {
            item matches Item::Filter(t) && t.parsed_from(nodes, at)
        } else if name == "svg"@ {
            item matches Item::Svg(t) && t.parsed_from(nodes, at)
        } else if name == "use"@ {
            item matches Item::Use(t) && t.parsed_from(nodes, at)
        } else if name == "symbol"@ {
            item matches Item::Symbol(t) && t.parsed_from(nodes, at)
        } else if name == "text"@ {
            item matches Item::Text(t) && t.parsed_from(nodes, at)
        } else if name == "tspan"@ {
            item matches Item::TSpan(t) && t.parsed_from(nodes, at)
        } else if name == "tref"@ {
            item matches Item::TRef(t) && t.parsed_from(nodes, at)
        } else {
            false
        }
    } else {
        false
    }
}

/// The error of the first thing of the element at `at`, or beneath it, that cannot be read.
pub open spec fn item_error(nodes: Seq<XmlNode>, at: int) -> Option<ErrorModel>
    decreases nodes.len() - at, 1nat,
{
    if 0 <= at < nodes.len() {
        let name = nodes[at].name@;
        if name == "path"@ {
            TagPath::parse_error(nodes, at)
        } else if name == "g"@ {
            TagG::parse_error(nodes, at)
        } else if name == "defs"@ {
            TagDefs::parse_error(nodes, at)
        } else if name == "rect"@ {
            TagRect::parse_error(nodes, at)
        } else if name == "polygon"@ {
            TagPolygon::parse_error(nodes, at)
        } else if name == "polyline"@ {
            TagPolyline::parse_error(nodes, at)
        } else if name == "line"@ {
            TagLine::parse_error(nodes, at)
        } else if name == "circle"@ {
            TagCircle::parse_error(nodes, at)
        } else if name == "ellipse"@ {
            TagEllipse::parse_error(nodes, at)
        } else if name == "linearGradient"@ {
            TagLinearGradient::parse_error(nodes, at)
        } else if name == "radialGradient"@ {
            TagRadialGradient::parse_error(nodes, at)
        } else if name == "clipPath"@ {
            TagClipPath::parse_error(nodes, at)
        } else if name == "filter"@ {
            TagFilter::parse_error(nodes, at)
        } else if name == "svg"@ {
            TagSvg::parse_error(nodes, at)
        } else if name == "use"@ {
            TagUse::parse_error(nodes, at)
        } else if name == "symbol"@ {
            TagSymbol::parse_error(nodes, at)
        } else if name == "text"@ {
            TagText::parse_error(nodes, at)
        } else if name == "tspan"@ {
            TagTSpan::parse_error(nodes, at)
        } else if name == "tref"@ {
            TagTRef::parse_error(nodes, at)
        } else {
            None
        }
    } else {
        None
    }
}

/// Whether the items of `items` from the place `k` on are what the elements among the
/// nodes directly beneath a node, from the child at `from` to `end`, are read into, in
/// document order. Nodes that are no elements, and elements that are not known, give no
/// item.
pub open spec fn elements_parsed(
    items: Seq<Arc<Item>>,
    k: int,
    nodes: Seq<XmlNode>,
    from: int,
    end: int,
) -> bool
    decreases nodes.len() - from, 2nat,
{
    if from >= end || from < 0 || end > nodes.len() {
        k == items.len()
    } else {
        let next = if from < subtree_end(nodes, from) <= end {
            subtree_end(nodes, from)
        } else {
            end
        };
        if is_item_node(nodes[from]) {
            0 <= k < items.len() && item_parsed(*items[k], nodes, from) && elements_parsed(
                items,
                k + 1,
                nodes,
                next,
                end,
            )
        } else {
            elements_parsed(items, k, nodes, next, end)
        }
    }
}

/// As [`elements_parsed`], for items that are not shared.
pub open spec fn clip_items_parsed(
    items: Seq<Item>,
    k: int,
    nodes: Seq<XmlNode>,
    from: int,
    end: int,
) -> bool
    decreases nodes.len() - from, 2nat,
{
    if from >= end || from < 0 || end > nodes.len() {
        k == items.len()
    } else {
        let next = if from < subtree_end(nodes, from) <= end {
            subtree_end(nodes, from)
        } else {
            end
        };
        if is_item_node(nodes[from]) {
            0 <= k < items.len() && item_parsed(items[k], nodes, from) && clip_items_parsed(
                items,
                k + 1,
                nodes,
                next,
                end,
            )
        } else {
            clip_items_parsed(items, k, nodes, next, end)
        }
    }
}

/// As [`elements_parsed`], with the text nodes too: each gives a run of text, unless
/// nothing is left of it once its white space was collapsed. `first` says whether the node
/// at `from` is the first beneath its parent.
pub open spec fn nodes_parsed(
    items: Seq<Arc<Item>>,
    k: int,
    nodes: Seq<XmlNode>,
    from: int,
    end: int,
    first: bool,
) -> bool
    decreases nodes.len() - from, 2nat,
{
    if from >= end || from < 0 || end > nodes.len() {
        k == items.len()
    } else {
        let next = if from < subtree_end(nodes, from) <= end {
            subtree_end(nodes, from)
        } else {
            end
        };
        if is_item_node(nodes[from]) {
            0 <= k < items.len() && item_parsed(*items[k], nodes, from) && nodes_parsed(
                items,
                k + 1,
                nodes,
                next,
                end,
                false,
            )
        } else if nodes[from].kind == XmlKind::Text {
            match text_spec(crate::dom::xml::string_view(nodes[from].text), first, next >= end) {
                Some(text) => 0 <= k < items.len() && (*items[k] matches Item::String(s) && s@
                    == text) && nodes_parsed(items, k + 1, nodes, next, end, false),
                None => nodes_parsed(items, k, nodes, next, end, false),
            }
        } else {
            nodes_parsed(items, k, nodes, next, end, false)
        }
    }
}

/// The error of the first element among the nodes directly beneath a node, from the child
/// at `from` to `end`, that cannot be read.
pub open spec fn elements_error(nodes: Seq<XmlNode>, from: int, end: int) -> Option<ErrorModel>
    decreases nodes.len() - from, 2nat,
{
    if from >= end || from < 0 || end > nodes.len() {
        None
    } else {
        let next = if from < subtree_end(nodes, from) <= end {
            subtree_end(nodes, from)
        } else {
            end
        };
        if is_item_node(nodes[from]) {
            first_of(item_error(nodes, from), elements_error(nodes, next, end))
        } else {
            elements_error(nodes, next, end)
        }
    }
}

/// Whether an element with the name `name` is read into an item.
pub open spec fn is_item_tag(name: Seq<char>) -> bool {
    name == "path"@ || name == "g"@ || name == "defs"@ || name == "rect"@ || name == "polygon"@
        || name == "polyline"@ || name == "line"@ || name == "circle"@ || name == "ellipse"@
        || name == "linearGradient"@ || name == "radialGradient"@ || name == "clipPath"@ || name
        == "filter"@ || name == "svg"@ || name == "use"@ || name == "symbol"@ || name == "text"@
        || name == "tspan"@ || name == "tref"@
}

/// Whether the node is an element that is read into an item.
pub open spec fn is_item_node(node: XmlNode) -> bool {
    node.kind == XmlKind::Element && is_item_tag(node.name@)
}

/// The state of the collapsing of white space in a run of text: what was kept so far, and
/// whether the last thing seen was white space.
pub struct Collapse {
    pub kept: Seq<char>,
    pub after_space: bool,
}

/// The state after the first `n` characters of `text`, starting after white space where
/// `first`. White space after white space is dropped; a line feed is dropped always; any
/// other white space becomes one space.
pub open spec fn collapse(text: Seq<char>, first: bool, n: nat) -> Collapse
    decreases n,
{
    if n == 0 || n > text.len() {
        Collapse { kept: Seq::empty(), after_space: first }
    } else {
        let before = collapse(text, first, (n - 1) as nat);
        let c = text[n - 1];
        if before.after_space {
            if c == '\n' || c == '\t' || c == ' ' {
                before
            } else {
                Collapse { kept: before.kept.push(c), after_space: false }
            }
        } else {
            if c == '\n' {
                before
            } else if c == '\t' || c == ' ' {
                Collapse { kept: before.kept.push(' '), after_space: true }
            } else {
                Collapse { kept: before.kept.push(c), after_space: false }
            }
        }
    }
}

/// The text of a text node as it is kept: with its white space collapsed, without white
/// space at the start where it is the first node of its element, and without white space
/// at the end where it is the last. `None` where nothing is left.
pub open spec fn text_spec(text: Option<Seq<char>>, first: bool, last: bool) -> Option<Seq<char>> {
    match text {
        None => None,
        Some(t) => {
            let done = collapse(t, first, t.len());
            let kept = if last && done.after_space && done.kept.len() > 0 {
                done.kept.drop_last()
            } else {
                done.kept
            };
            if kept.len() > 0 {
                Some(kept)
            } else {
                None
            }
        },
    }
}

/// Reads a text node: collapses its white space.
pub fn parse_text(node: &XmlNode, first: bool, last: bool) -> (r: Option<String>)
    ensures
        crate::dom::xml::string_view(r) == text_spec(
            crate::dom::xml::string_view(node.text),
            first,
            last,
        ),
{
    let text = match &node.text {
        Some(t) => t,
        None => {
            return None;
        },
    };
    let chars = to_chars(text.as_str());
    let mut kept: Vec<char> = Vec::new();
    let mut after_space: bool = first;
    let mut i: usize = 0;
    while i < chars.len()
        invariant
            i <= chars@.len(),
            chars@ == text@,
            (Collapse { kept: kept@, after_space }) == collapse(text@, first, i as nat),
        decreases chars@.len() - i,
    {
        let c = chars[i];
        if after_space {
            if !(c == '\n' || c == '\t' || c == ' ') {
                after_space = false;
                kept.push(c);
            }
        } else {
            if c == '\n' {
            } else if c == '\t' || c == ' ' {
                after_space = true;
                kept.push(' ');
            } else {
                kept.push(c);
            }
        }
        i = i + 1;
    }
    let mut n: usize = kept.len();
    if last && after_space && n > 0 {
        n = n - 1;
    }
    if n > 0 {
        proof {
            assert(kept@.subrange(0, kept@.len() as int) =~= kept@);
            assert(kept@.subrange(0, kept@.len() - 1) =~= kept@.drop_last());
        }
        Some(crate::chars::to_string(kept.as_slice(), 0, n))
    } else {
        None
    }
}

/// One step of [`elements_error`].
pub proof fn lemma_elements_error_step(nodes: Seq<XmlNode>, c: int, end: int)
    requires
        0 <= c < end <= nodes.len(),
        c < subtree_end(nodes, c) <= end,
    ensures
        elements_error(nodes, c, end) == (if is_item_node(nodes[c]) {
            first_of(item_error(nodes, c), elements_error(nodes, subtree_end(nodes, c), end))
        } else {
            elements_error(nodes, subtree_end(nodes, c), end)
        }),
{
}

/// One step of [`elements_parsed`].
pub proof fn lemma_elements_parsed_step(
    items: Seq<Arc<Item>>,
    k: int,
    nodes: Seq<XmlNode>,
    c: int,
    end: int,
)
    requires
        0 <= c < end <= nodes.len(),
        c < subtree_end(nodes, c) <= end,
    ensures
        elements_parsed(items, k, nodes, c, end) == (if is_item_node(nodes[c]) {
            0 <= k < items.len() && item_parsed(*items[k], nodes, c) && elements_parsed(
                items,
                k + 1,
                nodes,
                subtree_end(nodes, c),
                end,
            )
        } else {
            elements_parsed(items, k, nodes, subtree_end(nodes, c), end)
        }),
{
}

/// One step of [`clip_items_parsed`].
pub proof fn lemma_clip_items_parsed_step(
    items: Seq<Item>,
    k: int,
    nodes: Seq<XmlNode>,
    c: int,
    end: int,
)
    requires
        0 <= c < end <= nodes.len(),
        c < subtree_end(nodes, c) <= end,
    ensures
        clip_items_parsed(items, k, nodes, c, end) == (if is_item_node(nodes[c]) {
            0 <= k < items.len() && item_parsed(items[k], nodes, c) && clip_items_parsed(
                items,
                k + 1,
                nodes,
                subtree_end(nodes, c),
                end,
            )
        } else {
            clip_items_parsed(items, k, nodes, subtree_end(nodes, c), end)
        }),
{
}

/// One step of [`nodes_parsed`].
pub proof fn lemma_nodes_parsed_step(
    items: Seq<Arc<Item>>,
    k: int,
    nodes: Seq<XmlNode>,
    c: int,
    end: int,
    first: bool,
)
    requires
        0 <= c < end <= nodes.len(),
        c < subtree_end(nodes, c) <= end,
    ensures
        nodes_parsed(items, k, nodes, c, end, first) == (if is_item_node(nodes[c]) {
            0 <= k < items.len() && item_parsed(*items[k], nodes, c) && nodes_parsed(
                items,
                k + 1,
                nodes,
                subtree_end(nodes, c),
                end,
                false,
            )
        } else if nodes[c].kind == XmlKind::Text {
            match text_spec(
                crate::dom::xml::string_view(nodes[c].text),
                first,
                subtree_end(nodes, c) >= end,
            ) {
                Some(text) => 0 <= k < items.len() && (*items[k] matches Item::String(s) && s@
                    == text) && nodes_parsed(
                    items,
                    k + 1,
                    nodes,
                    subtree_end(nodes, c),
                    end,
                    false,
                ),
                None => nodes_parsed(items, k, nodes, subtree_end(nodes, c), end, false),
            }
        } else {
            nodes_parsed(items, k, nodes, subtree_end(nodes, c), end, false)
        }),
{
}

/// Reads the element at `at` and all that is beneath it. `None` for an element that is not
/// known.
pub fn parse_element(nodes: &[XmlNode], at: usize) -> (r: Result<Option<Item>, Error>)
    requires
        at < nodes@.len(),
    ensures
        match r {
            Ok(Some(item)) => is_item_tag(nodes@[at as int].name@) && item_parsed(
                item,
                nodes@,
                at as int,
            ) && item_error(nodes@, at as int) is None,
            Ok(None) => !is_item_tag(nodes@[at as int].name@),
            Err(e) => is_item_tag(nodes@[at as int].name@) && item_error(nodes@, at as int)
                == Some(e.deep_view()),
        },
    decreases nodes@.len() - at, 3nat,
{
    let name = nodes[at].name.as_str();
    if str_eq(name, "path") {
        match TagPath::parse_node(nodes, at) {
            Ok(t) => Ok(Some(Item::Path(t))),
            Err(e) => Err(e),
        }
    } else if str_eq(name, "g") {
        match TagG::parse_node(nodes, at) {
            Ok(t) => Ok(Some(Item::G(t))),
            Err(e) => Err(e),
        }
    } else if str_eq(name, "defs") {
        match TagDefs::parse_node(nodes, at) {
            Ok(t) => Ok(Some(Item::Defs(t))),
            Err(e) => Err(e),
        }
    } else if str_eq(name, "rect") {
        match TagRect::parse_node(nodes, at) {
            Ok(t) => Ok(Some(Item::Rect(t))),
            Err(e) => Err(e),
        }
    } else if str_eq(name, "polygon") {
        match TagPolygon::parse_node(nodes, at) {
            Ok(t) => Ok(Some(Item::Polygon(t))),
            Err(e) => Err(e),
        }
    } else if str_eq(name, "polyline") {
        match TagPolyline::parse_node(nodes, at) {
            Ok(t) => Ok(Some(Item::Polyline(t))),
            Err(e) => Err(e),
        }
    } else if str_eq(name, "line") {
        match TagLine::parse_node(nodes, at) {
            Ok(t) => Ok(Some(Item::Line(t))),
            Err(e) => Err(e),
        }
    } else if str_eq(name, "circle") {
        match TagCircle::parse_node(nodes, at) {
            Ok(t) => Ok(Some(Item::Circle(t))),
            Err(e) => Err(e),
        }
    } else if str_eq(name, "ellipse") {
        match TagEllipse::parse_node(nodes, at) {
            Ok(t) => Ok(Some(Item::Ellipse(t))),
            Err(e) => Err(e),
        }
    } else {
        parse_more(nodes, at)
    }
}

fn parse_more(nodes: &[XmlNode], at: usize) -> (r: Result<Option<Item>, Error>)
    requires
        at < nodes@.len(),
        nodes@[at as int].name@ != "path"@,
        nodes@[at as int].name@ != "g"@,
        nodes@[at as int].name@ != "defs"@,
        nodes@[at as int].name@ != "rect"@,
        nodes@[at as int].name@ != "polygon"@,
        nodes@[at as int].name@ != "polyline"@,
        nodes@[at as int].name@ != "line"@,
        nodes@[at as int].name@ != "circle"@,
        nodes@[at as int].name@ != "ellipse"@,
    ensures
        match r {
            Ok(Some(item)) => is_item_tag(nodes@[at as int].name@) && item_parsed(
                item,
                nodes@,
                at as int,
            ) && item_error(nodes@, at as int) is None,
            Ok(None) => !is_item_tag(nodes@[at as int].name@),
            Err(e) => is_item_tag(nodes@[at as int].name@) && item_error(nodes@, at as int)
                == Some(e.deep_view()),
        },
    decreases nodes@.len() - at, 2nat,
{
    let name = nodes[at].name.as_str();
    if str_eq(name, "linearGradient") {
        match TagLinearGradient::parse_node(nodes, at) {
            Ok(t) => Ok(Some(Item::LinearGradient(t))),
            Err(e) => Err(e),
        }
    } else if str_eq(name, "radialGradient") {
        match TagRadialGradient::parse_node(nodes, at) {
            Ok(t) => Ok(Some(Item::RadialGradient(t))),
            Err(e) => Err(e),
        }
    } else if str_eq(name, "clipPath") {
        match TagClipPath::parse_node(nodes, at) {
            Ok(t) => Ok(Some(Item::ClipPath(t))),
            Err(e) => Err(e),
        }
    } else if str_eq(name, "filter") {
        match TagFilter::parse_node(nodes, at) {
            Ok(t) => Ok(Some(Item::Filter(t))),
            Err(e) => Err(e),
        }
    } else if str_eq(name, "svg") {
        match TagSvg::parse_node(nodes, at) {
            Ok(t) => Ok(Some(Item::Svg(t))),
            Err(e) => Err(e),
        }
    } else if str_eq(name, "use") {
        match TagUse::parse_node(nodes, at) {
            Ok(t) => Ok(Some(Item::Use(t))),
            Err(e) => Err(e),
        }
    } else if str_eq(name, "symbol") {
        match TagSymbol::parse_node(nodes, at) {
            Ok(t) => Ok(Some(Item::Symbol(t))),
            Err(e) => Err(e),
        }
    } else if str_eq(name, "text") {
        match TagText::parse_node(nodes, at) {
            Ok(t) => Ok(Some(Item::Text(t))),
            Err(e) => Err(e),
        }
    } else if str_eq(name, "tspan") {
        match TagTSpan::parse_node(nodes, at) {
            Ok(t) => Ok(Some(Item::TSpan(t))),
            Err(e) => Err(e),
        }
    } else if str_eq(name, "tref") {
        match TagTRef::parse_node(nodes, at) {
            Ok(t) => Ok(Some(Item::TRef(t))),
            Err(e) => Err(e),
        }
    } else {
        Ok(None)
    }
}

/// Whether the items `items` are what the children before `c` were read into: any list
/// that starts with them and goes on as the children from `c` on say is what all the
/// children from `from` on are read into.
pub open spec fn elements_so_far(
    items: Seq<Arc<Item>>,
    nodes: Seq<XmlNode>,
    from: int,
    c: int,
    end: int,
) -> bool {
    forall|all: Seq<Arc<Item>>|
        (items.is_prefix_of(all) && #[trigger] elements_parsed(all, items.len() as int, nodes, c, end))
            ==> elements_parsed(all, 0, nodes, from, end)
}

/// Reads the elements directly beneath the element at `at`, and all that is beneath them.
pub fn parse_node_list(nodes: &[XmlNode], at: usize) -> (r: Result<Vec<Arc<Item>>, Error>)
    requires
        at < nodes@.len(),
    ensures
        match r {
            Ok(items) => elements_parsed(
                items@,
                0,
                nodes@,
                at + 1,
                subtree_end(nodes@, at as int),
            ) && elements_error(nodes@, at + 1, subtree_end(nodes@, at as int)) is None,
            Err(e) => elements_error(nodes@, at + 1, subtree_end(nodes@, at as int)) == Some(
                e.deep_view(),
            ),
        },
    decreases nodes@.len() - at, 0nat,
{
    let mut items: Vec<Arc<Item>> = Vec::new();
    let end = skip_subtree(nodes, at);
    let mut c: usize = at + 1;
    while c < end
        invariant
            at < c,
            c <= end <= nodes@.len(),
            end == subtree_end(nodes@, at as int),
            elements_so_far(items@, nodes@, at + 1, c as int, end as int),
            elements_error(nodes@, at + 1, end as int) == elements_error(
                nodes@,
                c as int,
                end as int,
            ),
        decreases end - c,
    {
        proof {
            lemma_subtree_nested(nodes@, at as int, c as int);
            lemma_elements_error_step(nodes@, c as int, end as int);
        }
        let next = skip_subtree(nodes, c);
        let ghost before = items@;
        let mut found: Option<Item> = None;
        if matches!(nodes[c].kind, XmlKind::Element) {
            match parse_element(nodes, c) {
                Err(e) => {
                    return Err(e);
                },
                Ok(item) => {
                    found = item;
                },
            }
        }
        match found {
            Some(item) => {
                items.push(Arc::new(item));
                proof {
                    assert forall|all: Seq<Arc<Item>>|
                        (items@.is_prefix_of(all) && #[trigger] elements_parsed(
                            all,
                            items@.len() as int,
                            nodes@,
                            next as int,
                            end as int,
                        )) implies elements_parsed(all, 0, nodes@, at + 1, end as int) by {
                        assert(before.is_prefix_of(all));
                        assert(all[before.len() as int] == items@[before.len() as int]);
                        lemma_elements_parsed_step(
                            all,
                            before.len() as int,
                            nodes@,
                            c as int,
                            end as int,
                        );
                    }
                }
            },
            None => {
                proof {
                    assert forall|all: Seq<Arc<Item>>|
                        (items@.is_prefix_of(all) && #[trigger] elements_parsed(
                            all,
                            items@.len() as int,
                            nodes@,
                            next as int,
                            end as int,
                        )) implies elements_parsed(all, 0, nodes@, at + 1, end as int) by {
                        lemma_elements_parsed_step(
                            all,
                            before.len() as int,
                            nodes@,
                            c as int,
                            end as int,
                        );
                    }
                }
            },
        }
        c = next;
    }
    proof {
        assert(items@.is_prefix_of(items@));
        assert(elements_parsed(items@, items@.len() as int, nodes@, end as int, end as int));
    }
    Ok(items)
}

/// As [`elements_so_far`], for items that are not shared.
pub open spec fn clip_items_so_far(
    items: Seq<Item>,
    nodes: Seq<XmlNode>,
    from: int,
    c: int,
    end: int,
) -> bool {
    forall|all: Seq<Item>|
        (items.is_prefix_of(all) && #[trigger] clip_items_parsed(
            all,
            items.len() as int,
            nodes,
            c,
            end,
        )) ==> clip_items_parsed(all, 0, nodes, from, end)
}

/// Reads the elements directly beneath the clip path at `at`.
pub fn parse_clip_items(nodes: &[XmlNode], at: usize) -> (r: Result<Vec<Item>, Error>)
    requires
        at < nodes@.len(),
    ensures
        match r {
            Ok(items) => clip_items_parsed(
                items@,
                0,
                nodes@,
                at + 1,
                subtree_end(nodes@, at as int),
            ) && elements_error(nodes@, at + 1, subtree_end(nodes@, at as int)) is None,
            Err(e) => elements_error(nodes@, at + 1, subtree_end(nodes@, at as int)) == Some(
                e.deep_view(),
            ),
        },
    decreases nodes@.len() - at, 0nat,
{
    let mut items: Vec<Item> = Vec::new();
    let end = skip_subtree(nodes, at);
    let mut c: usize = at + 1;
    while c < end
        invariant
            at < c,
            c <= end <= nodes@.len(),
            end == subtree_end(nodes@, at as int),
            clip_items_so_far(items@, nodes@, at + 1, c as int, end as int),
            elements_error(nodes@, at + 1, end as int) == elements_error(
                nodes@,
                c as int,
                end as int,
            ),
        decreases end - c,
    {
        proof {
            lemma_subtree_nested(nodes@, at as int, c as int);
            lemma_elements_error_step(nodes@, c as int, end as int);
        }
        let next = skip_subtree(nodes, c);
        let ghost before = items@;
        let mut found: Option<Item> = None;
        if matches!(nodes[c].kind, XmlKind::Element) {
            match parse_element(nodes, c) {
                Err(e) => {
                    return Err(e);
                },
                Ok(item) => {
                    found = item;
                },
            }
        }
        match found {
            Some(item) => {
                items.push(item);
                proof {
                    assert forall|all: Seq<Item>|
                        (items@.is_prefix_of(all) && #[trigger] clip_items_parsed(
                            all,
                            items@.len() as int,
                            nodes@,
                            next as int,
                            end as int,
                        )) implies clip_items_parsed(all, 0, nodes@, at + 1, end as int) by {
                        assert(before.is_prefix_of(all));
                        assert(all[before.len() as int] == items@[before.len() as int]);
                        lemma_clip_items_parsed_step(
                            all,
                            before.len() as int,
                            nodes@,
                            c as int,
                            end as int,
                        );
                    }
                }
            },
            None => {
                proof {
                    assert forall|all: Seq<Item>|
                        (items@.is_prefix_of(all) && #[trigger] clip_items_parsed(
                            all,
                            items@.len() as int,
                            nodes@,
                            next as int,
                            end as int,
                        )) implies clip_items_parsed(all, 0, nodes@, at + 1, end as int) by {
                        lemma_clip_items_parsed_step(
                            all,
                            before.len() as int,
                            nodes@,
                            c as int,
                            end as int,
                        );
                    }
                }
            },
        }
        c = next;
    }
    proof {
        assert(items@.is_prefix_of(items@));
        assert(clip_items_parsed(items@, items@.len() as int, nodes@, end as int, end as int));
    }
    Ok(items)
}

/// As [`elements_so_far`], with the text nodes too.
pub open spec fn nodes_so_far(
    items: Seq<Arc<Item>>,
    nodes: Seq<XmlNode>,
    from: int,
    c: int,
    end: int,
    first: bool,
) -> bool {
    forall|all: Seq<Arc<Item>>|
        (items.is_prefix_of(all) && #[trigger] nodes_parsed(
            all,
            items.len() as int,
            nodes,
            c,
            end,
            first,
        )) ==> nodes_parsed(all, 0, nodes, from, end, true)
}

/// Reads the nodes directly beneath the element at `at`, elements and text, and all that is
/// beneath them.
pub fn parse_nodes(nodes: &[XmlNode], at: usize) -> (r: Result<Vec<Arc<Item>>, Error>)
    requires
        at < nodes@.len(),
    ensures
        match r {
            Ok(items) => nodes_parsed(
                items@,
                0,
                nodes@,
                at + 1,
                subtree_end(nodes@, at as int),
                true,
            ) && elements_error(nodes@, at + 1, subtree_end(nodes@, at as int)) is None,
            Err(e) => elements_error(nodes@, at + 1, subtree_end(nodes@, at as int)) == Some(
                e.deep_view(),
            ),
        },
    decreases nodes@.len() - at, 0nat,
{
    let mut items: Vec<Arc<Item>> = Vec::new();
    let end = skip_subtree(nodes, at);
    let mut c: usize = at + 1;
    let mut first: bool = true;
    while c < end
        invariant
            at < c,
            c <= end <= nodes@.len(),
            end == subtree_end(nodes@, at as int),
            nodes_so_far(items@, nodes@, at + 1, c as int, end as int, first),
            elements_error(nodes@, at + 1, end as int) == elements_error(
                nodes@,
                c as int,
                end as int,
            ),
        decreases end - c,
    {
        proof {
            lemma_subtree_nested(nodes@, at as int, c as int);
            lemma_elements_error_step(nodes@, c as int, end as int);
        }
        let next = skip_subtree(nodes, c);
        let ghost before = items@;
        let ghost was_first = first;
        let mut found: Option<Item> = None;
        if matches!(nodes[c].kind, XmlKind::Element) {
            match parse_element(nodes, c) {
                Err(e) => {
                    return Err(e);
                },
                Ok(item) => {
                    found = item;
                },
            }
        } else if matches!(nodes[c].kind, XmlKind::Text) {
            match parse_text(&nodes[c], first, next >= end) {
                Some(text) => {
                    found = Some(Item::String(text));
                },
                None => {},
            }
        }
        match found {
            Some(item) => {
                items.push(Arc::new(item));
                proof {
                    assert forall|all: Seq<Arc<Item>>|
                        (items@.is_prefix_of(all) && #[trigger] nodes_parsed(
                            all,
                            items@.len() as int,
                            nodes@,
                            next as int,
                            end as int,
                            false,
                        )) implies nodes_parsed(all, 0, nodes@, at + 1, end as int, true) by {
                        assert(before.is_prefix_of(all));
                        assert(all[before.len() as int] == items@[before.len() as int]);
                        lemma_nodes_parsed_step(
                            all,
                            before.len() as int,
                            nodes@,
                            c as int,
                            end as int,
                            was_first,
                        );
                    }
                }
            },
            None => {
                proof {
                    assert forall|all: Seq<Arc<Item>>|
                        (items@.is_prefix_of(all) && #[trigger] nodes_parsed(
                            all,
                            items@.len() as int,
                            nodes@,
                            next as int,
                            end as int,
                            false,
                        )) implies nodes_parsed(all, 0, nodes@, at + 1, end as int, true) by {
                        lemma_nodes_parsed_step(
                            all,
                            before.len() as int,
                            nodes@,
                            c as int,
                            end as int,
                            was_first,
                        );
                    }
                }
            },
        }
        first = false;
        c = next;
    }
    proof {
        assert(items@.is_prefix_of(items@));
        assert(nodes_parsed(items@, items@.len() as int, nodes@, end as int, end as int, first));
    }
    Ok(items)
}

} // verus!
