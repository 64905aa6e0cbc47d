//! The HTML-to-Markdown textual transformation, delegated to the `html2md`
//! crate.  The transformation is treated as a pure function of the HTML
//! text alone; its result is given a name that the pipeline's contracts
//! speak of.

use vstd::prelude::*;

verus! {

/// The Markdown rendering of an HTML text, as `html2md::parse_html`
/// produces it.  The rendering is a function of the HTML text alone.
pub uninterp spec fn markdown_of(html: Seq<char>) -> Seq<char>;

/// Relies on html2md::parse_html: parses the HTML text, tolerating
/// malformed input, and renders it as Markdown; the result depends on the
/// text alone (the document tree is walked in document order with the
/// library's fixed set of tag handlers).
#[verifier::external_body]
pub(crate) fn html_to_markdown(html: &str) -> (r: String)
    ensures
        r@ == markdown_of(html@),
{
    html2md::parse_html(html)
}

} // verus!
