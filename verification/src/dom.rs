//! The parsed document: a tree of nodes with ordered children.
use crate::text::{is_blank, is_blank_str, str_eq};
use vstd::prelude::*;

verus! {

/// One `name="value"` pair of an element.
#[derive(Debug, Clone, PartialEq, Eq)]
pub struct Attribute {
    pub name: String,
    pub value: String,
}

pub struct AttributeView {
    pub name: Seq<char>,
    pub value: Seq<char>,
}

impl View for Attribute {
    type V = AttributeView;

    open spec fn view(&self) -> AttributeView {
        AttributeView { name: self.name@, value: self.value@ }
    }
}

/// What a node is, apart from its children.
#[derive(Debug, Clone, PartialEq, Eq)]
pub enum DomData {
    /// The root of a document.
    Document,
    /// A run of text.
    Text { contents: String },
    /// An element with its lowercase tag name and its attributes in source order.
    Element { name: String, attrs: Vec<Attribute> },
    /// Anything else the parser produces: doctypes, comments, processing instructions.
    Other,
}

pub enum DomDataView {
    Document,
    Text { contents: Seq<char> },
    Element { name: Seq<char>, attrs: Seq<AttributeView> },
    Other,
}

/// The views of a sequence of attributes.
pub open spec fn attr_views(attrs: Seq<Attribute>) -> Seq<AttributeView> {
    attrs.map_values(|a: Attribute| a@)
}

impl View for DomData {
    type V = DomDataView;

    open spec fn view(&self) -> DomDataView {
        match self {
            DomData::Document => DomDataView::Document,
            DomData::Text { contents } => DomDataView::Text { contents: contents@ },
            DomData::Element { name, attrs } => DomDataView::Element {
                name: name@,
                attrs: attr_views(attrs@),
            },
            DomData::Other => DomDataView::Other,
        }
    }
}

/// A node of the document tree. A node owns its children.
#[derive(Debug, PartialEq, Eq)]
pub struct DomNode {
    pub data: DomData,
    pub children: Vec<DomNode>,
}

pub struct DomNodeView {
    pub data: DomDataView,
    pub children: Seq<DomNodeView>,
}

impl DomNode {
    /// The mathematical tree that this node stands for.
    pub open spec fn model(self) -> DomNodeView
        decreases self,
    {
        DomNodeView {
            data: self.data@,
            children: Seq::new(
                self.children@.len(),
                |i: int|
                    if 0 <= i < self.children@.len() {
                        self.children@[i].model()
                    } else {
                        arbitrary()
                    },
            ),
        }
    }

    /// The view of a child is the child of the view.
    pub proof fn lemma_child(self, i: int)
        requires
            0 <= i < self.children@.len(),
        ensures
            self@.children.len() == self.children@.len(),
            self@.children[i] == self.children@[i]@,
    {
    }

    pub fn document(children: Vec<DomNode>) -> (node: DomNode)
        ensures
            node.data == DomData::Document,
            node.children == children,
    {
        DomNode { data: DomData::Document, children }
    }

    pub fn text(contents: &str) -> (node: DomNode)
        ensures
            node@ == (DomNodeView {
                data: DomDataView::Text { contents: contents@ },
                children: Seq::empty(),
            }),
    {
        let node = DomNode {
            data: DomData::Text { contents: contents.to_owned() },
            children: Vec::new(),
        };
        assert(node@.children =~= Seq::empty());
        node
    }

    pub fn element(name: &str, attrs: Vec<Attribute>, children: Vec<DomNode>) -> (node: DomNode)
        ensures
            node.data matches DomData::Element { name: n, attrs: a } && n@ == name@ && a == attrs,
            node.children == children,
    {
        DomNode { data: DomData::Element { name: name.to_owned(), attrs }, children }
    }
}

impl View for DomNode {
    type V = DomNodeView;

    open spec fn view(&self) -> DomNodeView {
        self.model()
    }
}

impl DomNodeView {
    /// The tag name of an element; the empty text for any other node.
    pub open spec fn tag(self) -> Seq<char> {
        match self.data {
            DomDataView::Element { name, .. } => name,
            _ => Seq::empty(),
        }
    }

    /// Whether this is an element with the given tag name.
    pub open spec fn is_tag(self, name: Seq<char>) -> bool {
        self.data is Element && self.tag() == name
    }

    /// A text node that holds nothing but white space shows nothing.
    pub open spec fn is_useless(self) -> bool {
        self.data matches DomDataView::Text { contents } && is_blank(contents)
    }

    /// Whether the node is an element that starts a row of its own.
    pub open spec fn is_block(self) -> bool {
        self.data is Element && is_block_name(self.tag())
    }
}

/// The tag names that break the line before and after themselves.
pub open spec fn is_block_name(n: Seq<char>) -> bool {
    ||| n == "address"@
    ||| n == "article"@
    ||| n == "aside"@
    ||| n == "blockquote"@
    ||| n == "canvas"@
    ||| n == "dd"@
    ||| n == "div"@
    ||| n == "dl"@
    ||| n == "dt"@
    ||| n == "fieldset"@
    ||| n == "figcaption"@
    ||| n == "figure"@
    ||| n == "footer"@
    ||| n == "form"@
    ||| n == "h1"@
    ||| n == "h2"@
    ||| n == "h3"@
    ||| n == "h4"@
    ||| n == "h5"@
    ||| n == "h6"@
    ||| n == "header"@
    ||| n == "hr"@
    ||| n == "li"@
    ||| n == "main"@
    ||| n == "nav"@
    ||| n == "noscript"@
    ||| n == "ol"@
    ||| n == "p"@
    ||| n == "pre"@
    ||| n == "section"@
    ||| n == "table"@
    ||| n == "tfoot"@
    ||| n == "ul"@
    ||| n == "video"@
    ||| n == "br"@
    ||| n == "summary"@
}

/// The value of the first attribute called `name`, if there is one.
pub open spec fn spec_get_attr(attrs: Seq<AttributeView>, name: Seq<char>) -> Option<Seq<char>>
    decreases attrs.len(),
{
    if attrs.len() == 0 {
        None
    } else if attrs[0].name == name {
        Some(attrs[0].value)
    } else {
        spec_get_attr(attrs.drop_first(), name)
    }
}

/// Whether some attribute is called `name`, whatever its value.
pub open spec fn spec_has_attr(attrs: Seq<AttributeView>, name: Seq<char>) -> bool {
    spec_get_attr(attrs, name) is Some
}

/// Skipping attributes with another name does not change which one is found.
pub proof fn lemma_get_attr_skip(attrs: Seq<AttributeView>, name: Seq<char>, k: int)
    requires
        0 <= k <= attrs.len(),
        forall|j: int| 0 <= j < k ==> attrs[j].name != name,
    ensures
        spec_get_attr(attrs, name) == spec_get_attr(attrs.skip(k), name),
    decreases k,
{
    if k == 0 {
        assert(attrs.skip(0) == attrs);
    } else {
        lemma_get_attr_skip(attrs, name, k - 1);
        let rest = attrs.skip(k - 1);
        assert(rest[0] == attrs[k - 1]);
        assert(rest.drop_first() == attrs.skip(k));
    }
}

pub fn get_attr<'a>(attrs: &'a Vec<Attribute>, attr_name: &str) -> (found: Option<&'a str>)
    ensures
        match found {
            Some(v) => spec_get_attr(attr_views(attrs@), attr_name@) == Some(v@),
            None => spec_get_attr(attr_views(attrs@), attr_name@) is None,
        },
{
    let ghost all = attr_views(attrs@);
    let mut i: usize = 0;
    while i < attrs.len()
        invariant
            i <= attrs.len(),
            all == attr_views(attrs@),
            forall|j: int| 0 <= j < i ==> all[j].name != attr_name@,
        decreases attrs.len() - i,
    {
        if str_eq(attrs[i].name.as_str(), attr_name) {
            proof {
                lemma_get_attr_skip(all, attr_name@, i as int);
                assert(all.skip(i as int)[0] == all[i as int]);
            }
            return Some(attrs[i].value.as_str());
        }
        i = i + 1;
    }
    proof {
        lemma_get_attr_skip(all, attr_name@, i as int);
        assert(all.skip(i as int).len() == 0);
    }
    None
}

/// Whether the node is an element with the given tag name.
pub fn is_tag(node: &DomNode, tag: &str) -> (b: bool)
    ensures
        b == node@.is_tag(tag@),
{
    match &node.data {
        DomData::Element { name, .. } => str_eq(name.as_str(), tag),
        _ => false,
    }
}

pub fn is_node_useless(node: &DomNode) -> (b: bool)
    ensures
        b == node@.is_useless(),
{
    match &node.data {
        DomData::Text { contents } => is_blank_str(contents.as_str()),
        _ => false,
    }
}

pub fn is_block_element(node: &DomNode) -> (b: bool)
    ensures
        b == node@.is_block(),
{
    match &node.data {
        DomData::Element { name, .. } => {
            let n = name.as_str();
            str_eq(n, "address") || str_eq(n, "article") || str_eq(n, "aside") || str_eq(
                n,
                "blockquote",
            ) || str_eq(n, "canvas") || str_eq(n, "dd") || str_eq(n, "div") || str_eq(n, "dl")
                || str_eq(n, "dt") || str_eq(n, "fieldset") || str_eq(n, "figcaption") || str_eq(
                n,
                "figure",
            ) || str_eq(n, "footer") || str_eq(n, "form") || str_eq(n, "h1") || str_eq(n, "h2")
                || str_eq(n, "h3") || str_eq(n, "h4") || str_eq(n, "h5") || str_eq(n, "h6")
                || str_eq(n, "header") || str_eq(n, "hr") || str_eq(n, "li") || str_eq(n, "main")
                || str_eq(n, "nav") || str_eq(n, "noscript") || str_eq(n, "ol") || str_eq(n, "p")
                || str_eq(n, "pre") || str_eq(n, "section") || str_eq(n, "table") || str_eq(
                n,
                "tfoot",
            ) || str_eq(n, "ul") || str_eq(n, "video") || str_eq(n, "br") || str_eq(n, "summary")
        },
        _ => false,
    }
}

} // verus!
