//! Page and site metadata, as the essentials plugin hands them to its
//! templates.
//!
//! A page's metadata comes from three places: the front matter that leads
//! its HTML inside a comment, the site-wide defaults, and the page's file
//! name. What is decided here is which of them each field is taken from and
//! how each value is escaped for the place it is used in. Reading files and
//! parsing the front matter's TOML are the caller's.
use crate::job::{page_path, PAGE_EXTENSION};
use crate::paths::{
    extension_of, file_name_of, file_stem_of, path_extension, path_file_name, path_file_stem,
    path_with_extension,
};
use crate::text::{bytes_start_with, has_prefix, str_eq, text_of, text_or};
use rayon::slice::ParallelSliceMut;
use vstd::prelude::*;
use vstd::string::*;
use vstd::utf8::*;

verus! {

/// The site-wide settings of the essentials plugin.
#[derive(Clone, Debug)]
pub struct SiteSettings {
    /// The site's name; also the title of its index page.
    pub name: String,
    /// What every page's address begins with.
    pub url_stub: String,
    pub default_lang: String,
    pub default_og_type: String,
    pub default_is_nsfw: bool,
    pub default_allow_robots: bool,
    /// Whether page contents are cleaned of unsafe HTML.
    pub sanitizer: bool,
    /// Whether finished pages and assets are minified.
    pub minifier: bool,
    /// Whether finished pages and assets get a compressed copy.
    pub brotli: bool,
}

/// What a page says of itself in its front matter. Every field may be
/// missing.
#[derive(Clone, Debug)]
pub struct FrontMatter {
    pub title: Option<String>,
    pub description: Option<String>,
    pub locale: Option<String>,
    pub is_nsfw: Option<bool>,
    pub allow_robots: Option<bool>,
    pub og_type: Option<String>,
    pub og_image: Option<String>,
    pub og_audio: Option<String>,
    pub og_video: Option<String>,
}

/// What was read of one built page.
#[derive(Clone, Debug)]
pub struct PageSource {
    /// The path of the page's source document.
    pub path: String,
    /// When the source was created, in seconds since the epoch; 0 if unknown.
    pub created_time: u64,
    /// When the source was last changed, in seconds since the epoch; 0 if
    /// unknown.
    pub modified_time: u64,
    /// The page's HTML as it was built.
    pub contents: String,
}

/// One page as the templates see it.
#[derive(Clone, Debug)]
pub struct Page {
    pub created_time: u64,
    pub modified_time: u64,
    /// The page's file name, for use in an attribute that holds an address.
    pub filename: String,
    /// The page's file name, for use in an address.
    pub filename_url: String,
    /// The page's file name as it is.
    pub filename_raw: String,
    /// The page's HTML.
    pub data: String,
    pub title: String,
    pub description: Option<String>,
    pub locale: String,
    pub is_nsfw: bool,
    pub allow_robots: bool,
    pub og_type: String,
    pub og_image: Option<String>,
    pub og_audio: Option<String>,
    pub og_video: Option<String>,
}

/// The site as the templates see it.
#[derive(Clone, Debug)]
pub struct Site {
    pub name: String,
    pub url_stub: String,
    /// The pages, ordered by title.
    pub pages: Vec<Page>,
}

/// [`FrontMatter`] as plain values.
pub struct FrontMatterView {
    pub title: Option<Seq<char>>,
    pub description: Option<Seq<char>>,
    pub locale: Option<Seq<char>>,
    pub is_nsfw: Option<bool>,
    pub allow_robots: Option<bool>,
    pub og_type: Option<Seq<char>>,
    pub og_image: Option<Seq<char>>,
    pub og_audio: Option<Seq<char>>,
    pub og_video: Option<Seq<char>>,
}

impl View for FrontMatter {
    type V = FrontMatterView;

    open spec fn view(&self) -> FrontMatterView {
        FrontMatterView {
            title: text_of(self.title),
            description: text_of(self.description),
            locale: text_of(self.locale),
            is_nsfw: self.is_nsfw,
            allow_robots: self.allow_robots,
            og_type: text_of(self.og_type),
            og_image: text_of(self.og_image),
            og_audio: text_of(self.og_audio),
            og_video: text_of(self.og_video),
        }
    }
}

/// [`Page`] as plain values.
pub struct PageView {
    pub created_time: u64,
    pub modified_time: u64,
    pub filename: Seq<char>,
    pub filename_url: Seq<char>,
    pub filename_raw: Seq<char>,
    pub data: Seq<char>,
    pub title: Seq<char>,
    pub description: Option<Seq<char>>,
    pub locale: Seq<char>,
    pub is_nsfw: bool,
    pub allow_robots: bool,
    pub og_type: Seq<char>,
    pub og_image: Option<Seq<char>>,
    pub og_audio: Option<Seq<char>>,
    pub og_video: Option<Seq<char>>,
}

impl View for Page {
    type V = PageView;

    open spec fn view(&self) -> PageView {
        PageView {
            created_time: self.created_time,
            modified_time: self.modified_time,
            filename: self.filename@,
            filename_url: self.filename_url@,
            filename_raw: self.filename_raw@,
            data: self.data@,
            title: self.title@,
            description: text_of(self.description),
            locale: self.locale@,
            is_nsfw: self.is_nsfw,
            allow_robots: self.allow_robots,
            og_type: self.og_type@,
            og_image: text_of(self.og_image),
            og_audio: text_of(self.og_audio),
            og_video: text_of(self.og_video),
        }
    }
}

/// The sixteen digits of a hexadecimal escape.
pub const HEX_DIGITS: &'static str = "0123456789ABCDEF";

/// Whether `c` is an ASCII letter or digit.
pub open spec fn is_ascii_alnum(c: char) -> bool {
    ('a' as u32 <= c as u32 <= 'z' as u32) || ('A' as u32 <= c as u32 <= 'Z' as u32) || ('0' as u32
        <= c as u32 <= '9' as u32)
}

/// One character, escaped for an attribute value: the five characters that
/// HTML gives a meaning to become their entities; every other character
/// below U+0100 that is not an ASCII letter or digit becomes `&#x` with its
/// two hexadecimal digits and `;`; every other character stays.
pub open spec fn attribute_escaped_char(c: char) -> Seq<char> {
    if c == '"' {
        "&quot;"@
    } else if c == '&' {
        "&amp;"@
    } else if c == '\'' {
        "&#x27;"@
    } else if c == '<' {
        "&lt;"@
    } else if c == '>' {
        "&gt;"@
    } else if (c as u32) < 256 && !is_ascii_alnum(c) {
        seq!['&', '#', 'x', HEX_DIGITS@[(c as u32 / 16) as int], HEX_DIGITS@[(c as u32 % 16) as int], ';']
    } else {
        seq![c]
    }
}

/// A text escaped for an attribute value, character by character.
pub open spec fn attribute_escaped(text: Seq<char>) -> Seq<char>
    decreases text.len(),
{
    if text.len() == 0 {
        Seq::empty()
    } else {
        attribute_escaped(text.drop_last()) + attribute_escaped_char(text.last())
    }
}

/// Whether a byte stands for itself in an address: ASCII letters and digits
/// and the four marks `-`, `.`, `_` and `~`.
pub open spec fn is_unreserved(b: u8) -> bool {
    (0x30 <= b <= 0x39) || (0x41 <= b <= 0x5a) || (0x61 <= b <= 0x7a) || b == 0x2d || b == 0x2e
        || b == 0x5f || b == 0x7e
}

/// One byte, encoded for an address: itself if unreserved, else `%` and its
/// two hexadecimal digits.
pub open spec fn percent_encoded_byte(b: u8) -> Seq<char> {
    if is_unreserved(b) {
        seq![b as char]
    } else {
        seq!['%', HEX_DIGITS@[(b / 16) as int], HEX_DIGITS@[(b % 16) as int]]
    }
}

/// Bytes encoded for an address, byte by byte.
pub open spec fn percent_encoded(bytes: Seq<u8>) -> Seq<char>
    decreases bytes.len(),
{
    if bytes.len() == 0 {
        Seq::empty()
    } else {
        percent_encoded(bytes.drop_last()) + percent_encoded_byte(bytes.last())
    }
}

/// A text encoded for an address and then escaped for an attribute value.
pub open spec fn link_escaped(text: Seq<char>) -> Seq<char> {
    attribute_escaped(percent_encoded(encode_utf8(text)))
}

/// What `ammonia::clean` makes of `html`: the same document with everything
/// removed that ammonia's default rules do not allow.
pub uninterp spec fn sanitized_html(html: Seq<char>) -> Seq<char>;

/// What an `extract_frontmatter::Extractor` extracts from `contents` when it
/// selects by `terminator` and discards the first line: the lines up to the
/// first place where a line feed is followed by `terminator`, or all lines
/// where there is no such place, without the first of them and joined by
/// line feeds.
pub uninterp spec fn leading_block(contents: Seq<char>, terminator: Seq<char>) -> Seq<char>;

/// Calls `htmlescape::encode_attribute`, which walks the characters of the
/// text and writes for each what [`attribute_escaped_char`] says.
#[verifier::external_body]
fn encode_attribute(text: &str) -> (escaped: String)
    ensures
        escaped@ == attribute_escaped(text@),
{
    htmlescape::encode_attribute(text)
}

/// Calls `urlencoding::encode`, which walks the bytes of the text and writes
/// for each what [`percent_encoded_byte`] says.
#[verifier::external_body]
fn url_encode(text: &str) -> (encoded: String)
    ensures
        encoded@ == percent_encoded(encode_utf8(text@)),
{
    urlencoding::encode(text).into_owned()
}

/// Calls `ammonia::clean`. The contract gives the result a name and claims
/// no more than that it depends on the text alone.
#[verifier::external_body]
fn sanitize(html: &str) -> (clean: String)
    ensures
        clean@ == sanitized_html(html@),
{
    ammonia::clean(html)
}

/// Runs an `extract_frontmatter::Extractor` over `contents` that selects by
/// `terminator` and discards the first line, and extracts. The contract
/// gives the result a name and claims no more than that it depends on the
/// two texts alone.
#[verifier::external_body]
fn extract_block(contents: &str, terminator: &str) -> (block: String)
    ensures
        block@ == leading_block(contents@, terminator@),
{
    extract_frontmatter::Extractor::new(contents).select_by_terminator(
        terminator,
    ).discard_first_line().extract()
}

/// What opens a page whose front matter leads it.
pub const FRONT_MATTER_START: &'static str = "<!--";

/// What begins the line that ends the front matter.
pub const FRONT_MATTER_END: &'static str = "-->";

/// The file name of a site's index page.
pub const INDEX_PAGE: &'static str = "index.html";

/// How a page is called when its path has neither a stem nor an extension.
pub const FALLBACK_STEM: &'static str = ".html";

/// The most characters a title should have.
pub const TITLE_LIMIT: usize = 65;

/// The most characters a description should have.
pub const DESCRIPTION_LIMIT: usize = 155;

/// Whether a page's HTML begins with a comment, and so with front matter.
pub open spec fn has_front_matter(contents: Seq<char>) -> bool {
    has_prefix(encode_utf8(contents), encode_utf8(FRONT_MATTER_START@))
}

/// The front matter of a page: the lines of its leading comment between the
/// line that opens the comment and the line that closes it; nothing, if the
/// page does not begin with a comment.
pub open spec fn front_matter_of(contents: Seq<char>) -> Seq<char> {
    if has_front_matter(contents) {
        leading_block(contents, FRONT_MATTER_END@)
    } else {
        Seq::empty()
    }
}

/// Takes the front matter out of a page's HTML, as text that is yet to be
/// parsed.
pub fn front_matter_text(contents: &str) -> (block: String)
    ensures
        block@ == front_matter_of(contents@),
{
    if bytes_start_with(contents.as_bytes(), FRONT_MATTER_START.as_bytes()) {
        extract_block(contents, FRONT_MATTER_END)
    } else {
        String::new()
    }
}

/// The stem that stands for a page: the stem of its path; where the path
/// has none, its extension; where it has neither, a fixed stand-in.
pub open spec fn stem_of(path: Seq<char>) -> Seq<char> {
    match path_file_stem(path) {
        Some(stem) => stem,
        None => match path_extension(path) {
            Some(extension) => extension,
            None => FALLBACK_STEM@,
        },
    }
}

/// The title of a page before escaping: its own, if its front matter has
/// one; else the site's name for the index page and the stem for any other.
pub open spec fn chosen_title(
    own: Option<Seq<char>>,
    file_name: Seq<char>,
    stem: Seq<char>,
    site_name: Seq<char>,
) -> Seq<char> {
    match own {
        Some(title) => title,
        None => if file_name == INDEX_PAGE@ {
            site_name
        } else {
            stem
        },
    }
}

/// An optional text, escaped for an attribute value.
pub open spec fn escaped_option(value: Option<Seq<char>>) -> Option<Seq<char>> {
    match value {
        Some(text) => Some(attribute_escaped(text)),
        None => None,
    }
}

/// An optional address, encoded and escaped for an attribute value.
pub open spec fn link_option(value: Option<Seq<char>>) -> Option<Seq<char>> {
    match value {
        Some(text) => Some(link_escaped(text)),
        None => None,
    }
}

/// A flag, or the default where there is none.
pub open spec fn flag_or(value: Option<bool>, default: bool) -> bool {
    match value {
        Some(flag) => flag,
        None => default,
    }
}

/// The page that the templates see for a page file called `file_name`.
///
/// The file name is passed on raw, encoded for an address, and both encoded
/// and escaped. The contents are cleaned if the sanitizer is on. Title,
/// description, locale and type are escaped for an attribute value; image,
/// audio and video are addresses and are encoded first. Locale, type and the
/// two flags fall back on the site's defaults.
pub open spec fn page_for(
    settings: &SiteSettings,
    source: &PageSource,
    front: FrontMatterView,
    file_name: Seq<char>,
) -> PageView {
    PageView {
        created_time: source.created_time,
        modified_time: source.modified_time,
        filename: link_escaped(file_name),
        filename_url: percent_encoded(encode_utf8(file_name)),
        filename_raw: file_name,
        data: if settings.sanitizer {
            sanitized_html(source.contents@)
        } else {
            source.contents@
        },
        title: attribute_escaped(
            chosen_title(front.title, file_name, stem_of(source.path@), settings.name@),
        ),
        description: escaped_option(front.description),
        locale: attribute_escaped(text_or(front.locale, settings.default_lang@)),
        is_nsfw: flag_or(front.is_nsfw, settings.default_is_nsfw),
        allow_robots: flag_or(front.allow_robots, settings.default_allow_robots),
        og_type: attribute_escaped(text_or(front.og_type, settings.default_og_type@)),
        og_image: link_option(front.og_image),
        og_audio: link_option(front.og_audio),
        og_video: link_option(front.og_video),
    }
}

/// What a page's author should be told about its metadata.
#[derive(Clone, Copy, PartialEq, Eq, Structural, Debug)]
pub struct PageNotes {
    /// The title has more characters than [`TITLE_LIMIT`].
    pub title_too_long: bool,
    /// The description has more characters than [`DESCRIPTION_LIMIT`].
    pub description_too_long: bool,
}

/// The notes on a page, taken from its title and description before
/// escaping.
pub open spec fn notes_for(
    settings: &SiteSettings,
    source: &PageSource,
    front: FrontMatterView,
    file_name: Seq<char>,
) -> PageNotes {
    PageNotes {
        title_too_long: chosen_title(
            front.title,
            file_name,
            stem_of(source.path@),
            settings.name@,
        ).len() > TITLE_LIMIT,
        description_too_long: match front.description {
            Some(description) => description.len() > DESCRIPTION_LIMIT,
            None => false,
        },
    }
}

/// The file name of the page built from the document at `path`: the last
/// component of the path with the page extension.
pub open spec fn page_file_name(path: Seq<char>) -> Option<Seq<char>> {
    path_file_name(path_with_extension(path, PAGE_EXTENSION@))
}

fn escape_optional(value: &Option<String>) -> (escaped: Option<String>)
    ensures
        text_of(escaped) == escaped_option(text_of(*value)),
{
    match value {
        Some(text) => Some(encode_attribute(text.as_str())),
        None => None,
    }
}

fn escape_link(text: &str) -> (escaped: String)
    ensures
        escaped@ == link_escaped(text@),
{
    let encoded = url_encode(text);
    encode_attribute(encoded.as_str())
}

fn escape_optional_link(value: &Option<String>) -> (escaped: Option<String>)
    ensures
        text_of(escaped) == link_option(text_of(*value)),
{
    match value {
        Some(text) => Some(escape_link(text.as_str())),
        None => None,
    }
}

fn stem_for(path: &str) -> (stem: String)
    ensures
        stem@ == stem_of(path@),
{
    match file_stem_of(path) {
        Some(stem) => stem,
        None => match extension_of(path) {
            Some(extension) => extension,
            None => String::from_str(FALLBACK_STEM),
        },
    }
}

/// Puts together what the templates see of one page, and the notes on it.
///
/// `front` is the page's front matter as parsed from
/// [`front_matter_text`] of its contents. The result is `None` exactly
/// where the page's path has no last component to name the page by.
pub fn load_pageinfo(settings: &SiteSettings, source: PageSource, front: FrontMatter) -> (loaded:
    Option<(Page, PageNotes)>)
    ensures
        loaded is Some <==> page_file_name(source.path@) is Some,
        loaded matches Some((page, notes)) ==> {
            &&& page@ == page_for(settings, &source, front@, page_file_name(source.path@)->0)
            &&& notes == notes_for(settings, &source, front@, page_file_name(source.path@)->0)
        },
{
    let html_file = page_path(source.path.as_str());
    let file_name = match file_name_of(html_file.as_str()) {
        Some(name) => name,
        None => {
            return None;
        },
    };
    let stem = stem_for(source.path.as_str());
    let title = match &front.title {
        Some(title) => title.clone(),
        None => if str_eq(file_name.as_str(), INDEX_PAGE) {
            settings.name.clone()
        } else {
            stem
        },
    };
    let notes = PageNotes {
        title_too_long: title.as_str().unicode_len() > TITLE_LIMIT,
        description_too_long: match &front.description {
            Some(description) => description.as_str().unicode_len() > DESCRIPTION_LIMIT,
            None => false,
        },
    };
    let locale = match &front.locale {
        Some(locale) => encode_attribute(locale.as_str()),
        None => encode_attribute(settings.default_lang.as_str()),
    };
    let og_type = match &front.og_type {
        Some(og_type) => encode_attribute(og_type.as_str()),
        None => encode_attribute(settings.default_og_type.as_str()),
    };
    let data = if settings.sanitizer {
        sanitize(source.contents.as_str())
    } else {
        source.contents.clone()
    };
    let page = Page {
        created_time: source.created_time,
        modified_time: source.modified_time,
        filename: escape_link(file_name.as_str()),
        filename_url: url_encode(file_name.as_str()),
        filename_raw: file_name,
        data,
        title: encode_attribute(title.as_str()),
        description: escape_optional(&front.description),
        locale,
        is_nsfw: match front.is_nsfw {
            Some(flag) => flag,
            None => settings.default_is_nsfw,
        },
        allow_robots: match front.allow_robots {
            Some(flag) => flag,
            None => settings.default_allow_robots,
        },
        og_type,
        og_image: escape_optional_link(&front.og_image),
        og_audio: escape_optional_link(&front.og_audio),
        og_video: escape_optional_link(&front.og_video),
    };
    Some((page, notes))
}

/// Whether `a` comes before `b` or is `b`, byte by byte: the first byte in
/// which they differ decides, and a text comes before every text that it
/// begins.
pub open spec fn bytes_le(a: Seq<u8>, b: Seq<u8>) -> bool
    decreases a.len(),
{
    if a.len() == 0 {
        true
    } else if b.len() == 0 {
        false
    } else if a[0] != b[0] {
        a[0] < b[0]
    } else {
        bytes_le(a.drop_first(), b.drop_first())
    }
}

/// The order of texts: that of their UTF-8 bytes.
pub open spec fn text_le(a: Seq<char>, b: Seq<char>) -> bool {
    bytes_le(encode_utf8(a), encode_utf8(b))
}

/// Whether `pages` are in the order of their titles.
pub open spec fn sorted_by_title(pages: Seq<Page>) -> bool {
    forall|i: int, j: int|
        0 <= i <= j < pages.len() ==> text_le((#[trigger] pages[i]).title@, (
        #[trigger] pages[j]).title@)
}

/// Sorts with `par_sort_unstable_by_key` of rayon, by a copy of each page's
/// title. The keys are `String`s, which std orders by their bytes. Pages
/// with equal titles may come out in any order.
#[verifier::external_body]
fn sort_by_title(pages: &mut Vec<Page>)
    ensures
        final(pages)@.to_multiset() == old(pages)@.to_multiset(),
        sorted_by_title(final(pages)@),
{
    pages.par_sort_unstable_by_key(|page| page.title.to_owned());
}

/// Puts together what the templates see of the site: its name, escaped for
/// an attribute value, its address stub as it is, and the given pages, each
/// of them once, in the order of their titles.
pub fn load_siteinfo(settings: &SiteSettings, pages: Vec<Page>) -> (site: Site)
    ensures
        site.name@ == attribute_escaped(settings.name@),
        site.url_stub@ == settings.url_stub@,
        site.pages@.to_multiset() == pages@.to_multiset(),
        site.pages@.len() == pages@.len(),
        sorted_by_title(site.pages@),
{
    let ghost given = pages@;
    let mut pages = pages;
    sort_by_title(&mut pages);
    proof {
        given.to_multiset_ensures();
        pages@.to_multiset_ensures();
    }
    Site {
        name: encode_attribute(settings.name.as_str()),
        url_stub: settings.url_stub.clone(),
        pages,
    }
}

} // verus!
