//! Minifying HTML, and finishing a rendered page.
//!
//! The essentials plugin runs `minify_html` over the pages it renders. The
//! stand-alone minifier plugin answers the `html` hook alone.
use crate::compress::{compress_file, kept_copy, CompressionMode};
use crate::plugin::HOOK_HTML;
use crate::text::str_eq;
use vstd::prelude::*;

verus! {

/// What `minify_html` makes of `html`, with script minifying on or off and
/// every other switch at its default.
pub uninterp spec fn minified_html(html: Seq<u8>, minify_js: bool) -> Seq<u8>;

/// Calls `minify_html::minify` under the crate's default configuration with
/// `minify_js` copied in. Style minifying stays off, as the default has it,
/// and with it the only places where the crate gives up on bytes that are
/// not UTF-8. The contract names the result and claims no more than that it
/// depends on the two arguments alone.
#[verifier::external_body]
fn minify_page(html: &[u8], minify_js: bool) -> (small: Vec<u8>)
    ensures
        small@ == minified_html(html@, minify_js),
{
    let mut cfg = minify_html::Cfg::new();
    cfg.minify_js = minify_js;
    minify_html::minify(html, &cfg)
}

/// A page as it is written, and its compressed copy if it gets one.
#[derive(Clone, Debug)]
pub struct FinishedPage {
    pub html: Vec<u8>,
    pub compressed: Option<Vec<u8>>,
}

/// The bytes of a rendered page as they are written: minified, scripts
/// included, if the minifier is on.
pub open spec fn finished_html(rendered: Seq<u8>, minifier: bool) -> Seq<u8> {
    if minifier {
        minified_html(rendered, true)
    } else {
        rendered
    }
}

/// The compressed copy of a finished page: none unless compression is on,
/// and then the copy that [`kept_copy`] keeps of it as text.
pub open spec fn finished_copy(html: Seq<u8>, brotli: bool) -> Option<Seq<u8>> {
    if brotli {
        kept_copy(html, CompressionMode::Text)
    } else {
        None
    }
}

/// Finishes a rendered page: minifies it if the minifier is on, then, if
/// compression is on, makes the compressed copy of what is written.
pub fn finish_page(rendered: Vec<u8>, minifier: bool, brotli: bool) -> (page: FinishedPage)
    ensures
        page.html@ == finished_html(rendered@, minifier),
        page.compressed is Some <==> finished_copy(page.html@, brotli) is Some,
        page.compressed matches Some(copy) ==> Some(copy@) == finished_copy(page.html@, brotli),
{
    let html = if minifier {
        minify_page(rendered.as_slice(), true)
    } else {
        rendered
    };
    let compressed = if brotli {
        compress_file(html.as_slice(), CompressionMode::Text)
    } else {
        None
    };
    FinishedPage { html, compressed }
}

/// Whether the minifier plugin, started with `hook` as its first argument,
/// has work to do: it minifies at the `html` hook and keeps out of every
/// other, writing nothing and exiting well.
pub fn minifier_answers(hook: Option<&str>) -> (asked: bool)
    ensures
        asked == (hook matches Some(name) && name@ == HOOK_HTML@),
{
    match hook {
        Some(name) => str_eq(name, HOOK_HTML),
        None => false,
    }
}

} // verus!
