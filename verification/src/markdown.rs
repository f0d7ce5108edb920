//! Markdown as HTML.

use vstd::prelude::*;

verus! {

/// The HTML that `pulldown_cmark` renders a Markdown text as, tables
/// enabled.
pub uninterp spec fn markdown_html(input: Seq<char>) -> Seq<char>;

/// Converts Markdown to HTML.
///
/// This is `pulldown_cmark::html::push_html` on what
/// `pulldown_cmark::Parser::new_ext` reads from `input` with
/// `Options::ENABLE_TABLES`, pushed onto an empty string. The contract gives
/// the outcome a name, `markdown_html`, and claims nothing else of it: what
/// the HTML of a Markdown text is is for `pulldown_cmark` to say.
#[verifier::external_body]
pub fn md_to_html(input: &str) -> (html: String)
    ensures
        html@ == markdown_html(input@),
{
    let mut options = pulldown_cmark::Options::empty();
    options.insert(pulldown_cmark::Options::ENABLE_TABLES);
    let parser = pulldown_cmark::Parser::new_ext(input, options);
    let mut html_output = String::new();
    pulldown_cmark::html::push_html(&mut html_output, parser);
    html_output
}

} // verus!
