//! The elements that the renderer knows, resolved once from the tag name.
use crate::text::str_eq;
use vstd::prelude::*;

verus! {

/// What the renderer does with an element.
#[derive(Debug, Clone, Copy, PartialEq, Eq, Structural)]
pub enum Tag {
    /// `html`, `body`, `p`, `div`, `span`, `kbd`, `summary`: the children, unchanged.
    Transparent,
    /// `center`: the children, centred.
    Center,
    /// `pre`: the children with their white space kept.
    Pre,
    /// `h1` to `h6` with weights 1 to 6, `sub` with weight 7.
    Heading(u16),
    Blockquote,
    /// `b`, `strong`.
    Bold,
    /// `em`, `i`.
    Italic,
    /// `u`.
    Underline,
    /// `del`, `s`, `strike`.
    Strikethrough,
    Code,
    Details,
    /// `a`.
    Anchor,
    /// `img`.
    Image,
    /// `br`.
    LineBreak,
    /// `hr`.
    Rule,
    /// `head`, `title`, `meta`: nothing is shown, no child is visited.
    Hidden,
    Input,
    /// `ul`.
    UnorderedList,
    /// `ol`.
    OrderedList,
    /// `li`.
    ListItem,
    /// Any other name: shown as a placeholder.
    Unknown,
}

impl Tag {
    /// The tag that a lowercase element name stands for.
    pub open spec fn spec_from_name(n: Seq<char>) -> Tag {
        if n == "summary"@ || n == "kbd"@ || n == "span"@ || n == "html"@ || n == "body"@ || n
            == "p"@ || n == "div"@ {
            Tag::Transparent
        } else if n == "center"@ {
            Tag::Center
        } else if n == "pre"@ {
            Tag::Pre
        } else if n == "h1"@ {
            Tag::Heading(1)
        } else if n == "h2"@ {
            Tag::Heading(2)
        } else if n == "h3"@ {
            Tag::Heading(3)
        } else if n == "h4"@ {
            Tag::Heading(4)
        } else if n == "h5"@ {
            Tag::Heading(5)
        } else if n == "h6"@ {
            Tag::Heading(6)
        } else if n == "sub"@ {
            Tag::Heading(7)
        } else if n == "blockquote"@ {
            Tag::Blockquote
        } else if n == "b"@ || n == "strong"@ {
            Tag::Bold
        } else if n == "em"@ || n == "i"@ {
            Tag::Italic
        } else if n == "u"@ {
            Tag::Underline
        } else if n == "del"@ || n == "s"@ || n == "strike"@ {
            Tag::Strikethrough
        } else if n == "code"@ {
            Tag::Code
        } else if n == "details"@ {
            Tag::Details
        } else if n == "a"@ {
            Tag::Anchor
        } else if n == "img"@ {
            Tag::Image
        } else if n == "br"@ {
            Tag::LineBreak
        } else if n == "hr"@ {
            Tag::Rule
        } else if n == "head"@ || n == "title"@ || n == "meta"@ {
            Tag::Hidden
        } else if n == "input"@ {
            Tag::Input
        } else if n == "ul"@ {
            Tag::UnorderedList
        } else if n == "ol"@ {
            Tag::OrderedList
        } else if n == "li"@ {
            Tag::ListItem
        } else {
            Tag::Unknown
        }
    }

    pub fn from_name(n: &str) -> (tag: Tag)
        ensures
            tag == Tag::spec_from_name(n@),
    {
        if str_eq(n, "summary") || str_eq(n, "kbd") || str_eq(n, "span") || str_eq(n, "html")
            || str_eq(n, "body") || str_eq(n, "p") || str_eq(n, "div") {
            Tag::Transparent
        } else if str_eq(n, "center") {
            Tag::Center
        } else if str_eq(n, "pre") {
            Tag::Pre
        } else if str_eq(n, "h1") {
            Tag::Heading(1)
        } else if str_eq(n, "h2") {
            Tag::Heading(2)
        } else if str_eq(n, "h3") {
            Tag::Heading(3)
        } else if str_eq(n, "h4") {
            Tag::Heading(4)
        } else if str_eq(n, "h5") {
            Tag::Heading(5)
        } else if str_eq(n, "h6") {
            Tag::Heading(6)
        } else if str_eq(n, "sub") {
            Tag::Heading(7)
        } else if str_eq(n, "blockquote") {
            Tag::Blockquote
        } else if str_eq(n, "b") || str_eq(n, "strong") {
            Tag::Bold
        } else if str_eq(n, "em") || str_eq(n, "i") {
            Tag::Italic
        } else if str_eq(n, "u") {
            Tag::Underline
        } else if str_eq(n, "del") || str_eq(n, "s") || str_eq(n, "strike") {
            Tag::Strikethrough
        } else if str_eq(n, "code") {
            Tag::Code
        } else if str_eq(n, "details") {
            Tag::Details
        } else if str_eq(n, "a") {
            Tag::Anchor
        } else if str_eq(n, "img") {
            Tag::Image
        } else if str_eq(n, "br") {
            Tag::LineBreak
        } else if str_eq(n, "hr") {
            Tag::Rule
        } else if str_eq(n, "head") || str_eq(n, "title") || str_eq(n, "meta") {
            Tag::Hidden
        } else if str_eq(n, "input") {
            Tag::Input
        } else if str_eq(n, "ul") {
            Tag::UnorderedList
        } else if str_eq(n, "ol") {
            Tag::OrderedList
        } else if str_eq(n, "li") {
            Tag::ListItem
        } else {
            Tag::Unknown
        }
    }
}

} // verus!
