//! The HTML page shown by the live preview.
use vstd::prelude::*;
use vstd::string::StringExecFns;

verus! {

/// Everything of the preview page that comes before the rendered markdown:
/// the doctype, a stylesheet and scripts for code highlighting, and the style
/// that centres the body.
pub const PAGE_HEAD: &'static str = "<!DOCTYPE html><html><head><link rel=\"stylesheet\" href=\"https://cdnjs.cloudflare.com/ajax/libs/highlight.js/9.12.0/styles/github.min.css\"></link><script src=\"https://cdnjs.cloudflare.com/ajax/libs/highlight.js/9.12.0/highlight.min.js\"></script><script src=\"https://cdnjs.cloudflare.com/ajax/libs/highlight.js/9.12.0/languages/rust.min.js\"></script><script>hljs.initHighlightingOnLoad()</script><style>body { width: 80%; margin: 0 auto }</style></head><body>";

/// Everything of the preview page that comes after the rendered markdown.
pub const PAGE_TAIL: &'static str = "</body></html>";

/// What pulldown-cmark's HTML writer yields for a markdown text.
pub uninterp spec fn cmark_html_of(markdown: Seq<char>) -> Seq<char>;

/// Relies on `pulldown_cmark::Parser::new` and `pulldown_cmark::html::push_html`:
/// the HTML that the parser's events render to, which depends on the text alone.
#[verifier::external_body]
fn markdown_to_html(markdown: &str) -> (r: String)
    ensures
        r@ == cmark_html_of(markdown@),
{
    let parser = pulldown_cmark::Parser::new(markdown);
    let mut buffer = String::new();
    pulldown_cmark::html::push_html(&mut buffer, parser);
    buffer
}

/// The complete page around an HTML body.
pub open spec fn page_of(body: Seq<char>) -> Seq<char> {
    PAGE_HEAD@ + body + PAGE_TAIL@
}

/// Wraps an HTML body in the preview page.
pub fn wrap_page(body: &str) -> (r: String)
    ensures
        r@ == page_of(body@),
{
    let mut page = String::from_str(PAGE_HEAD);
    page.append(body);
    page.append(PAGE_TAIL);
    page
}

/// In goes markdown text; out comes the HTML page that shows it.
pub fn render(markdown: &str) -> (r: String)
    ensures
        r@ == page_of(cmark_html_of(markdown@)),
{
    let body = markdown_to_html(markdown);
    wrap_page(body.as_str())
}

} // verus!
