//! Parsing HTML text into the document tree.
use crate::dom::{Attribute, DomData, DomNode, DomNodeView};
use crate::text::byte_len;
use markup5ever_rcdom::NodeData;
use std::rc::Rc;
use vstd::prelude::*;

verus! {

/// A node of the reference-counted tree that the HTML parser builds.
#[verifier::external_type_specification]
#[verifier::external_body]
pub struct ExRcNode(markup5ever_rcdom::Node);

/// The tree below a parser node: its data, and the trees below its children in order.
/// A parser node is taken to stand for a finite tree that stays as the parser built it;
/// the library never changes one.
pub uninterp spec fn dom_tree(node: markup5ever_rcdom::Node) -> DomNodeView;

/// The document that the HTML parser builds from a text.
pub uninterp spec fn html_document(input: Seq<char>) -> DomNodeView;

/// The longest text, in bytes, that is handed to the parser. The parser keeps each run of
/// text in a buffer whose length is a 32-bit number and whose capacity is rounded up to a
/// power of two, and a byte of the text can become three in that buffer; half a gigabyte
/// of text stays clear of the overflow.
pub const MAX_HTML_BYTES: usize = 536870912;

/// Runs `html5ever::parse_document` with the default options on the whole text, read as
/// UTF-8 bytes into a fresh `RcDom`, and hands back the document node. Reading from bytes
/// in memory cannot fail, and the parser recovers from any markup; its text buffers
/// overflow only on runs of text far longer than the bound allows. The tree it builds
/// depends on the text alone. What that tree is, is not stated here: it goes by the name
/// `html_document`.
#[verifier::external_body]
fn parse_document(input: &str) -> (root: Rc<markup5ever_rcdom::Node>)
    requires
        byte_len(input@) <= MAX_HTML_BYTES,
    ensures
        dom_tree(*root) == html_document(input@),
{
    let sink = markup5ever_rcdom::RcDom::default();
    let parser = html5ever::parse_document(sink, html5ever::ParseOpts::default());
    let mut bytes = input.as_bytes();
    let dom = html5ever::tendril::TendrilSink::read_from(parser.from_utf8(), &mut bytes).unwrap();
    dom.document
}

/// Reads the `data` field of a parser node: which kind of node it is, the contents of a text
/// node, and the local tag name and the attributes (local name and value) of an element.
/// Doctypes, comments and processing instructions all come back as `Other`.
#[verifier::external_body]
fn node_data(node: &markup5ever_rcdom::Node) -> (data: DomData)
    ensures
        data@ == dom_tree(*node).data,
{
    let attribute =
        |a: &html5ever::Attribute| Attribute { name: a.name.local.to_string(), value: a.value.to_string() };
    match &node.data {
        NodeData::Document => DomData::Document,
        NodeData::Text { contents } => DomData::Text { contents: contents.borrow().to_string() },
        NodeData::Element { name, attrs, .. } => DomData::Element {
            name: name.local.to_string(),
            attrs: attrs.borrow().iter().map(attribute).collect(),
        },
        NodeData::Doctype { .. } => DomData::Other,
        NodeData::Comment { .. } => DomData::Other,
        NodeData::ProcessingInstruction { .. } => DomData::Other,
    }
}

/// Reads the `children` field of a parser node: handles to its children, in order.
#[verifier::external_body]
fn node_children(node: &markup5ever_rcdom::Node) -> (kids: Vec<Rc<markup5ever_rcdom::Node>>)
    ensures
        kids@.len() == dom_tree(*node).children.len(),
        forall|i: int|
            0 <= i < kids@.len() ==> dom_tree(*#[trigger] kids@[i]) == dom_tree(*node).children[i],
{
    node.children.borrow().clone()
}

/// Copies the tree below a parser node into a tree of the library's own.
fn lift(node: &markup5ever_rcdom::Node) -> (out: DomNode)
    ensures
        out@ == dom_tree(*node),
    decreases dom_tree(*node),
{
    let data = node_data(node);
    let kids = node_children(node);
    let mut children: Vec<DomNode> = Vec::new();
    let mut i: usize = 0;
    while i < kids.len()
        invariant
            i <= kids.len(),
            kids@.len() == dom_tree(*node).children.len(),
            forall|j: int|
                0 <= j < kids@.len() ==> dom_tree(*#[trigger] kids@[j]) == dom_tree(
                    *node,
                ).children[j],
            children@.len() == i,
            forall|j: int| 0 <= j < i ==> (#[trigger] children@[j])@ == dom_tree(*node).children[j],
        decreases kids.len() - i,
    {
        let child = lift(&kids[i]);
        children.push(child);
        i = i + 1;
    }
    let out = DomNode { data, children };
    assert(out@.children =~= dom_tree(*node).children);
    out
}

/// Parses an HTML text of at most `MAX_HTML_BYTES` bytes into a document tree.
pub fn parse_html(input: &str) -> (doc: DomNode)
    requires
        byte_len(input@) <= MAX_HTML_BYTES,
    ensures
        doc@ == html_document(input@),
{
    let root = parse_document(input);
    lift(&root)
}

} // verus!
