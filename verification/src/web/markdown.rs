use vstd::prelude::*;

use pulldown_cmark::{html, Options, Parser};

verus! {

/// The HTML pulldown-cmark renders for the Markdown `source`, with the
/// strikethrough and table extensions switched as given.
pub uninterp spec fn commonmark_html(source: Seq<char>, strikethrough: bool, tables: bool) -> Seq<char>;

/// The HTML ammonia keeps of `html` when links may only use `url_schemes` and
/// carry `rel=link_rel`, its other settings being its defaults.
pub uninterp spec fn sanitized_html(html: Seq<char>, url_schemes: Seq<Seq<char>>, link_rel: Seq<char>) -> Seq<char>;

/// `Parser::new_ext` and `html::push_html` of pulldown-cmark: the HTML of the
/// Markdown source, a function of the source and the two extension switches.
#[verifier::external_body]
fn markdown_to_html(source: &str, strikethrough: bool, tables: bool) -> (r: String)
    ensures
        r@ == commonmark_html(source@, strikethrough, tables),
{
    let mut options = Options::empty();
    options.set(Options::ENABLE_STRIKETHROUGH, strikethrough);
    options.set(Options::ENABLE_TABLES, tables);
    let mut out = String::with_capacity(source.len());
    html::push_html(&mut out, Parser::new_ext(source, options));
    out
}

/// `Builder::clean` of ammonia on a default builder with `url_schemes` and
/// `link_rel` set: the sanitized HTML, a function of the input and the two
/// settings.
#[verifier::external_body]
fn ammonia_clean(html: &str, url_schemes: &[&str], link_rel: &str) -> (r: String)
    ensures
        r@ == sanitized_html(html@, url_schemes@.map_values(|s: &str| s@), link_rel@),
{
    let mut builder = ammonia::Builder::default();
    builder.url_schemes(url_schemes.iter().copied().collect()).link_rel(Some(link_rel));
    builder.clean(html).to_string()
}

/// URL schemes a rendered link may use.
pub open spec fn allowed_schemes() -> Seq<Seq<char>> {
    seq!["http"@, "https"@, "mailto"@]
}

/// `rel` attribute added to every rendered link.
pub const LINK_REL: &'static str = "noopener nofollow";

/// The safe HTML of a Markdown source: rendered with strikethrough and
/// tables, then sanitized so that links use only http, https or mailto.
pub open spec fn rendered(source: Seq<char>) -> Seq<char> {
    sanitized_html(commonmark_html(source, true, true), allowed_schemes(), LINK_REL@)
}

/// Render a Markdown source string to sanitized HTML.
pub fn render(input: &str) -> (r: String)
    ensures
        r@ == rendered(input@),
{
    let unsafe_html = markdown_to_html(input, true, true);
    let schemes: [&str; 3] = ["http", "https", "mailto"];
    let r = ammonia_clean(unsafe_html.as_str(), &schemes, LINK_REL);
    assert(schemes@.map_values(|s: &str| s@) =~= allowed_schemes());
    r
}

/// Descriptions are rendered as CommonMark with strikethrough and tables,
/// and sanitized so that links may use exactly the schemes `http`, `https`
/// and `mailto` and carry `rel="noopener nofollow"`.
pub proof fn render_keeps_web_and_mail_links(source: Seq<char>)
    ensures
        rendered(source) == sanitized_html(
            commonmark_html(source, true, true),
            seq!["http"@, "https"@, "mailto"@],
            "noopener nofollow"@,
        ),
        allowed_schemes().contains("http"@),
        allowed_schemes().contains("https"@),
        allowed_schemes().contains("mailto"@),
{
    assert(allowed_schemes()[0] == "http"@);
    assert(allowed_schemes()[1] == "https"@);
    assert(allowed_schemes()[2] == "mailto"@);
}

} // verus!
