//! Markdown rendering, delegated to `comrak`.

use vstd::prelude::*;

verus! {

/// The HTML that `comrak` produces for a Markdown text under its default
/// options. The renderer reads nothing but the text, so the HTML is a
/// function of the text.
pub uninterp spec fn markdown_html(text: Seq<char>) -> Seq<char>;

/// Renders Markdown to HTML.
///
/// Trusted: calls `comrak::markdown_to_html` with `comrak::Options::default()`.
/// The contract claims that the call returns for every text and that its
/// result depends on the text alone.
#[verifier::external_body]
pub(crate) fn render_markdown(text: &str) -> (html: String)
    ensures
        html@ == markdown_html(text@),
{
    comrak::markdown_to_html(text, &comrak::Options::default())
}

} // verus!
