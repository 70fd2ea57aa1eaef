//! The markup as the element parsers read it: the nodes of the document in document
//! order, each with its depth.

use vstd::prelude::*;

verus! {

/// What kind of node of the markup a node is.
#[derive(Clone, Copy, PartialEq, Eq, Structural, Debug)]
pub enum XmlKind {
    Element,
    Text,
    /// A comment or a processing instruction.
    Other,
}

/// An attribute of an element.
#[derive(Clone, Debug)]
pub struct XmlAttribute {
    /// The URI of the namespace of the attribute, if it has one.
    pub namespace: Option<String>,
    /// The name without its prefix.
    pub name: String,
    pub value: String,
}

/// A node of the markup. `depth` counts the nodes on the way from the node up to the top of
/// the document, the node itself included. The nodes that follow it in document order with
/// a greater depth are beneath it.
#[derive(Clone, Debug)]
pub struct XmlNode {
    pub depth: usize,
    pub kind: XmlKind,
    /// The name of the element without its prefix; empty for other nodes.
    pub name: String,
    pub attributes: Vec<XmlAttribute>,
    /// The text of a text node.
    pub text: Option<String>,
    /// The URI that the prefix `xlink` stands for at this node, if it is declared.
    pub xlink: Option<String>,
}

/// The nodes of the document `text` from its root element on, in document order; `None`
/// where `text` is not well-formed.
pub uninterp spec fn xml_nodes(text: Seq<char>) -> Option<Seq<XmlNode>>;

/// Calls `roxmltree::Document::parse` and lists the root element and all that is beneath
/// it as `Node::descendants` walks them. Each node is copied out value by value; its depth
/// is the number of nodes that `Node::ancestors` gives for it, and its `xlink` is what
/// `Node::lookup_namespace_uri` gives for the prefix `xlink`. Where the parser reports an
/// error, the result is `None`. The contract claims only that the outcome depends on the
/// text alone.
#[verifier::external_body]
fn read_xml(text: &str) -> (r: Option<Vec<XmlNode>>)
    ensures
        match r {
            Some(nodes) => xml_nodes(text@) == Some(nodes@),
            None => xml_nodes(text@) is None,
        },
{
    roxmltree::Document::parse(text).ok().map(|doc| doc.root_element().descendants().map(|n| XmlNode {
        depth: n.ancestors().count(),
        kind: match n.node_type() {
            roxmltree::NodeType::Element => XmlKind::Element,
            roxmltree::NodeType::Text => XmlKind::Text,
            _ => XmlKind::Other,
        },
        name: n.tag_name().name().into(),
        attributes: n.attributes().map(|a| XmlAttribute { namespace: a.namespace().map(Into::into), name: a.name().into(), value: a.value().into() }).collect(),
        text: n.text().map(Into::into),
        xlink: n.lookup_namespace_uri(Some("xlink")).map(Into::into),
    }).collect())
}

/// A document as its nodes in document order. The first node is the root element.
#[derive(Clone, Debug)]
pub struct XmlDocument {
    pub nodes: Vec<XmlNode>,
}

impl XmlDocument {
    /// Reads the markup `text`. `None` where it is not well-formed.
    pub fn parse(text: &str) -> (r: Option<XmlDocument>)
        ensures
            match r {
                Some(doc) => xml_nodes(text@) == Some(doc.nodes@),
                None => xml_nodes(text@) is None,
            },
    {
        match read_xml(text) {
            Some(nodes) => Some(XmlDocument { nodes }),
            None => None,
        }
    }
}

/// The place after the node at `at` and all that is beneath it: the first node after it
/// that does not lie deeper, or the end.
pub open spec fn subtree_end(nodes: Seq<XmlNode>, at: int) -> int {
    scan_deeper(nodes, at + 1, nodes[at].depth as int)
}

/// The place of the first node from `from` on that does not lie deeper than `depth`, or the
/// end.
pub open spec fn scan_deeper(nodes: Seq<XmlNode>, from: int, depth: int) -> int
    decreases nodes.len() - from,
{
    if 0 <= from < nodes.len() && nodes[from].depth > depth {
        scan_deeper(nodes, from + 1, depth)
    } else {
        from
    }
}

pub proof fn lemma_scan_deeper(nodes: Seq<XmlNode>, from: int, depth: int)
    requires
        0 <= from <= nodes.len(),
    ensures
        from <= scan_deeper(nodes, from, depth) <= nodes.len(),
        forall|i: int| from <= i < scan_deeper(nodes, from, depth) ==> (#[trigger] nodes[i]).depth > depth,
        scan_deeper(nodes, from, depth) < nodes.len() ==> nodes[scan_deeper(nodes, from, depth)].depth
            <= depth,
    decreases nodes.len() - from,
{
    if from < nodes.len() && nodes[from].depth > depth {
        lemma_scan_deeper(nodes, from + 1, depth);
    }
}

/// What lies beneath a node that lies beneath another ends before that other ends.
pub proof fn lemma_subtree_nested(nodes: Seq<XmlNode>, at: int, child: int)
    requires
        0 <= at < child < subtree_end(nodes, at),
        at < nodes.len(),
    ensures
        child < subtree_end(nodes, child) <= subtree_end(nodes, at) <= nodes.len(),
{
    let end = subtree_end(nodes, at);
    lemma_scan_deeper(nodes, at + 1, nodes[at].depth as int);
    lemma_scan_deeper(nodes, child + 1, nodes[child].depth as int);
    let inner = subtree_end(nodes, child);
    if inner > end {
        // the node at `end` lies no deeper than `at`, so it ends the inner subtree too
        assert(nodes[end].depth > nodes[child].depth);
        assert(nodes[child].depth > nodes[at].depth);
    }
}

/// The place after the node at `at` and all that is beneath it.
pub fn skip_subtree(nodes: &[XmlNode], at: usize) -> (end: usize)
    requires
        at < nodes@.len(),
    ensures
        end == subtree_end(nodes@, at as int),
        at < end <= nodes@.len(),
{
    let depth = nodes[at].depth;
    let mut i: usize = at + 1;
    while i < nodes.len() && nodes[i].depth > depth
        invariant
            at < i <= nodes@.len(),
            depth == nodes@[at as int].depth,
            scan_deeper(nodes@, at + 1, depth as int) == scan_deeper(nodes@, i as int, depth as int),
        decreases nodes@.len() - i,
    {
        i = i + 1;
    }
    i
}

/// The value of the first attribute from `from` on that has the name `name`, whatever its
/// namespace.
pub open spec fn attribute_in(attributes: Seq<XmlAttribute>, name: Seq<char>, from: int) -> Option<
    Seq<char>,
>
    decreases attributes.len() - from,
{
    if 0 <= from < attributes.len() {
        if attributes[from].name@ == name {
            Some(attributes[from].value@)
        } else {
            attribute_in(attributes, name, from + 1)
        }
    } else {
        None
    }
}

/// The view of an optional text.
pub open spec fn text_view(s: Option<&str>) -> Option<Seq<char>> {
    match s {
        Some(s) => Some(s@),
        None => None,
    }
}

/// The view of an optional string.
pub open spec fn string_view(s: Option<String>) -> Option<Seq<char>> {
    match s {
        Some(s) => Some(s@),
        None => None,
    }
}

impl XmlNode {
    /// The value of the attribute with the name `name`: of several, the first.
    pub open spec fn attribute_spec(&self, name: Seq<char>) -> Option<Seq<char>> {
        attribute_in(self.attributes@, name, 0)
    }

    /// The value of the attribute `href` in the namespace that the prefix `xlink` stands
    /// for: the first such attribute.
    pub open spec fn href_spec(&self) -> Option<Seq<char>> {
        href_in(self.attributes@, string_view(self.xlink), 0)
    }

    /// The value of the attribute with the name `name`.
    pub fn attribute(&self, name: &str) -> (r: Option<&str>)
        ensures
            text_view(r) == self.attribute_spec(name@),
    {
        let key = name.to_owned();
        let mut i: usize = 0;
        while i < self.attributes.len()
            invariant
                i <= self.attributes@.len(),
                key@ == name@,
                self.attribute_spec(name@) == attribute_in(self.attributes@, name@, i as int),
            decreases self.attributes@.len() - i,
        {
            if self.attributes[i].name == key {
                return Some(self.attributes[i].value.as_str());
            }
            i = i + 1;
        }
        None
    }
}

/// The value of the first attribute from `from` on that is called `href` and lies in the
/// namespace `namespace`; an `xlink` prefix that is not declared stands for the empty
/// namespace.
pub open spec fn href_in(attributes: Seq<XmlAttribute>, namespace: Option<Seq<char>>, from: int) -> Option<
    Seq<char>,
>
    decreases attributes.len() - from,
{
    if 0 <= from < attributes.len() {
        if attributes[from].name@ == "href"@ && in_namespace(
            string_view(attributes[from].namespace),
            namespace,
        ) {
            Some(attributes[from].value@)
        } else {
            href_in(attributes, namespace, from + 1)
        }
    } else {
        None
    }
}

/// Whether an attribute with the namespace `own` lies in the namespace that `xlink` stands
/// for.
pub open spec fn in_namespace(own: Option<Seq<char>>, xlink: Option<Seq<char>>) -> bool {
    match (own, xlink) {
        (Some(a), Some(b)) => a == b,
        (Some(a), None) => a.len() == 0,
        (None, _) => false,
    }
}

fn same_text(own: &Option<String>, xlink: &Option<String>) -> (r: bool)
    ensures
        r == in_namespace(string_view(*own), string_view(*xlink)),
{
    match (own, xlink) {
        (Some(a), Some(b)) => *a == *b,
        (Some(a), None) => a.as_str().unicode_len() == 0,
        (None, _) => false,
    }
}

/// The reference that the element `node` carries in its `xlink:href` attribute.
pub fn href(node: &XmlNode) -> (r: Option<String>)
    ensures
        string_view(r) == node.href_spec(),
{
    let key = "href".to_owned();
    let mut i: usize = 0;
    while i < node.attributes.len()
        invariant
            i <= node.attributes@.len(),
            key@ == "href"@,
            node.href_spec() == href_in(node.attributes@, string_view(node.xlink), i as int),
        decreases node.attributes@.len() - i,
    {
        let a = &node.attributes[i];
        if a.name == key && same_text(&a.namespace, &node.xlink) {
            return Some(a.value.clone());
        }
        i = i + 1;
    }
    None
}

} // verus!
