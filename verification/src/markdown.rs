//! Markdown, brought to HTML before it is parsed.
use vstd::prelude::*;

verus! {

/// The HTML that the Markdown converter renders a text to, under the given choice of
/// extensions and of letting raw HTML through.
pub uninterp spec fn markdown_html(
    md: Seq<char>,
    strikethrough: bool,
    cjk_friendly_emphasis: bool,
    tasklist: bool,
    superscript: bool,
    subscript: bool,
    underline: bool,
    raw_html: bool,
) -> Seq<char>;

/// Calls `comrak::markdown_to_html` with the default options but for the six extensions
/// named here and for `render.unsafe_`, which lets raw HTML and any link through. The
/// HTML that comes back depends on the text and on these options alone.
#[verifier::external_body]
pub(crate) fn markdown_to_html(
    md: &str,
    strikethrough: bool,
    cjk_friendly_emphasis: bool,
    tasklist: bool,
    superscript: bool,
    subscript: bool,
    underline: bool,
    raw_html: bool,
) -> (html: String)
    ensures
        html@ == markdown_html(
            md@,
            strikethrough,
            cjk_friendly_emphasis,
            tasklist,
            superscript,
            subscript,
            underline,
            raw_html,
        ),
{
    let mut options = comrak::Options::default();
    options.extension.strikethrough = strikethrough;
    options.extension.cjk_friendly_emphasis = cjk_friendly_emphasis;
    options.extension.tasklist = tasklist;
    options.extension.superscript = superscript;
    options.extension.subscript = subscript;
    options.extension.underline = underline;
    options.render.unsafe_ = raw_html;
    comrak::markdown_to_html(md, &options)
}

} // verus!
