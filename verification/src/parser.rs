//! Markdown rendering, delegated to the `pulldown_cmark` crate with the
//! GitHub-flavoured extensions the viewer advertises: tables, task lists,
//! strikethrough and footnotes.

use vstd::prelude::*;

verus! {

/// The HTML that `pulldown_cmark` renders for a Markdown text under the
/// extension set of [`markdown_to_html`].  The rendering is a pure function
/// of the input text.
pub uninterp spec fn html_of(markdown: Seq<char>) -> Seq<char>;

/// Render a Markdown text to HTML.
///
/// Relies on `pulldown_cmark::Parser::new_ext` and
/// `pulldown_cmark::html::push_html`: parsing and rendering read nothing but
/// the input text and the option flags, so the result is a function of the
/// text alone; an empty text produces no parse events, and `push_html`
/// appends nothing to the fresh output string.
#[verifier::external_body]
pub fn markdown_to_html(markdown: &str) -> (html: String)
    ensures
        html@ == html_of(markdown@),
        markdown@.len() == 0 ==> html@.len() == 0,
{
    let mut options = pulldown_cmark::Options::empty();
    options.insert(pulldown_cmark::Options::ENABLE_TABLES);
    options.insert(pulldown_cmark::Options::ENABLE_TASKLISTS);
    options.insert(pulldown_cmark::Options::ENABLE_STRIKETHROUGH);
    options.insert(pulldown_cmark::Options::ENABLE_FOOTNOTES);
    let parser = pulldown_cmark::Parser::new_ext(markdown, options);
    let mut html = String::new();
    pulldown_cmark::html::push_html(&mut html, parser);
    html
}

} // verus!
