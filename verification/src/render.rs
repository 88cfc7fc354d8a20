//! Rendering Markdown text to HTML bytes.
//!
//! The grammar is not this crate's: with no extension asked for, the text
//! goes through `pulldown_cmark`; with any, through `comrak`. What is decided
//! here is which of the two is used and which of comrak's switches each
//! configuration flag turns.
use vstd::prelude::*;

verus! {

/// The Markdown flags of a run's configuration.
#[derive(Clone, Copy, PartialEq, Eq, Structural, Debug)]
pub struct MarkdownOptions {
    /// Strikethrough, tables, autolinks, task lists and heading anchors.
    pub github_extensions: bool,
    /// Smart punctuation, superscript, footnotes and description lists.
    pub comrak_extensions: bool,
}

/// The switches of the extended renderer that this crate sets. Every other
/// switch of the renderer keeps its default.
#[derive(Clone, Debug)]
pub struct RenderSettings {
    /// Render soft line breaks as hard ones.
    pub hardbreaks: bool,
    /// Turn straight quotes, dashes and dots into their typographic forms.
    pub smart: bool,
    /// Put a code block's language in a `lang` attribute of its `pre` tag.
    pub github_pre_lang: bool,
    /// Let raw HTML and any link pass through to the output.
    pub raw_html: bool,
    pub strikethrough: bool,
    /// Filter a fixed set of HTML tags out of raw HTML.
    pub tagfilter: bool,
    pub table: bool,
    pub autolink: bool,
    pub tasklist: bool,
    pub superscript: bool,
    /// Give every heading an anchor whose id starts with this prefix.
    pub header_ids: Option<String>,
    pub footnotes: bool,
    pub description_lists: bool,
}

/// [`RenderSettings`] as plain values.
pub struct RenderSettingsView {
    pub hardbreaks: bool,
    pub smart: bool,
    pub github_pre_lang: bool,
    pub raw_html: bool,
    pub strikethrough: bool,
    pub tagfilter: bool,
    pub table: bool,
    pub autolink: bool,
    pub tasklist: bool,
    pub superscript: bool,
    pub header_ids: Option<Seq<char>>,
    pub footnotes: bool,
    pub description_lists: bool,
}

impl View for RenderSettings {
    type V = RenderSettingsView;

    open spec fn view(&self) -> RenderSettingsView {
        RenderSettingsView {
            hardbreaks: self.hardbreaks,
            smart: self.smart,
            github_pre_lang: self.github_pre_lang,
            raw_html: self.raw_html,
            strikethrough: self.strikethrough,
            tagfilter: self.tagfilter,
            table: self.table,
            autolink: self.autolink,
            tasklist: self.tasklist,
            superscript: self.superscript,
            header_ids: match self.header_ids {
                Some(prefix) => Some(prefix@),
                None => None,
            },
            footnotes: self.footnotes,
            description_lists: self.description_lists,
        }
    }
}

/// The HTML that `pulldown_cmark` renders `text` to, with none of its
/// options enabled.
pub uninterp spec fn commonmark_html(text: Seq<char>) -> Seq<u8>;

/// The HTML that `comrak` renders `text` to under `settings`.
pub uninterp spec fn extended_html(text: Seq<char>, settings: RenderSettingsView) -> Seq<u8>;

/// The settings of the extended renderer for a pair of configuration flags.
///
/// Hard breaks stay off and a code block's language goes on its `pre` tag,
/// whatever the flags. Raw HTML passes through and the tag filter stays off:
/// cleaning the output is a sanitizer's work, not the renderer's. Headings
/// get anchors with an empty prefix under the GitHub flag.
pub open spec fn extended_settings(github_ext: bool, comrak_ext: bool) -> RenderSettingsView {
    RenderSettingsView {
        hardbreaks: false,
        smart: comrak_ext,
        github_pre_lang: true,
        raw_html: true,
        strikethrough: github_ext,
        tagfilter: false,
        table: github_ext,
        autolink: github_ext,
        tasklist: github_ext,
        superscript: comrak_ext,
        header_ids: if github_ext {
            Some(Seq::empty())
        } else {
            None
        },
        footnotes: comrak_ext,
        description_lists: comrak_ext,
    }
}

/// The HTML of `text` under a pair of configuration flags: the plain
/// renderer's when neither flag is set, the extended renderer's otherwise.
pub open spec fn rendered_html(text: Seq<char>, github_ext: bool, comrak_ext: bool) -> Seq<u8> {
    if github_ext || comrak_ext {
        extended_html(text, extended_settings(github_ext, comrak_ext))
    } else {
        commonmark_html(text)
    }
}

/// Renders with `pulldown_cmark`: `Parser::new` on the text, and
/// `html::push_html` on the events it yields. The contract names the bytes
/// of the string that comes out and claims no more than that they depend on
/// the text alone.
#[verifier::external_body]
fn render_commonmark(text: &str) -> (html: Vec<u8>)
    ensures
        html@ == commonmark_html(text@),
{
    let mut html = String::new();
    pulldown_cmark::html::push_html(&mut html, pulldown_cmark::Parser::new(text));
    html.into_bytes()
}

/// Renders with `comrak::markdown_to_html`, under comrak's default options
/// with the thirteen switches of `settings` copied in. The contract names
/// the bytes of the string that comes out and claims no more than that they
/// depend on the text and those switches alone. (With the switches left at
/// their defaults here, comrak writes at most one attribute on a tag of a
/// code block, so the order in which it walks its attribute map cannot
/// show.)
#[verifier::external_body]
fn render_extended(text: &str, settings: &RenderSettings) -> (html: Vec<u8>)
    ensures
        html@ == extended_html(text@, settings@),
{
    let mut options = comrak::Options::default();
    options.render.hardbreaks = settings.hardbreaks;
    options.parse.smart = settings.smart;
    options.render.github_pre_lang = settings.github_pre_lang;
    options.render.unsafe_ = settings.raw_html;
    options.extension.strikethrough = settings.strikethrough;
    options.extension.tagfilter = settings.tagfilter;
    options.extension.table = settings.table;
    options.extension.autolink = settings.autolink;
    options.extension.tasklist = settings.tasklist;
    options.extension.superscript = settings.superscript;
    options.extension.header_ids = settings.header_ids.clone();
    options.extension.footnotes = settings.footnotes;
    options.extension.description_lists = settings.description_lists;
    comrak::markdown_to_html(text, &options).into_bytes()
}

impl RenderSettings {
    /// The settings for a pair of configuration flags.
    pub fn for_flags(github_ext: bool, comrak_ext: bool) -> (settings: RenderSettings)
        ensures
            settings@ == extended_settings(github_ext, comrak_ext),
    {
        RenderSettings {
            hardbreaks: false,
            smart: comrak_ext,
            github_pre_lang: true,
            raw_html: true,
            strikethrough: github_ext,
            tagfilter: false,
            table: github_ext,
            autolink: github_ext,
            tasklist: github_ext,
            superscript: comrak_ext,
            header_ids: if github_ext {
                Some(String::new())
            } else {
                None
            },
            footnotes: comrak_ext,
            description_lists: comrak_ext,
        }
    }
}

/// Renders `input` to HTML. With neither flag set the text takes the plain
/// renderer, which knows no extension; with either it takes the extended
/// renderer under [`extended_settings`].
pub fn markdown_to_html(input: &str, github_ext: bool, comrak_ext: bool) -> (html: Vec<u8>)
    ensures
        html@ == rendered_html(input@, github_ext, comrak_ext),
{
    if github_ext || comrak_ext {
        let settings = RenderSettings::for_flags(github_ext, comrak_ext);
        render_extended(input, &settings)
    } else {
        render_commonmark(input)
    }
}

} // verus!
