//! Paths, as text. What happens to a path is decided by std's `Path`, under
//! the path rules of the platform that the crate is built for; this module
//! gives each of its answers a name and hands it on as text.
use crate::text::text_of;
use vstd::prelude::*;
use vstd::string::*;

verus! {

/// `path` with its extension replaced by `extension`, or with `extension`
/// added where it has none, as `Path::with_extension` gives it.
pub uninterp spec fn path_with_extension(path: Seq<char>, extension: Seq<char>) -> Seq<char>;

/// `path` adjoined to `base`, as `Path::join` gives it.
pub uninterp spec fn path_join(base: Seq<char>, path: Seq<char>) -> Seq<char>;

/// The last component of `path`, where it has one, as `Path::file_name`
/// gives it.
pub uninterp spec fn path_file_name(path: Seq<char>) -> Option<Seq<char>>;

/// The last component of `path` without its extension, where it has one, as
/// `Path::file_stem` gives it.
pub uninterp spec fn path_file_stem(path: Seq<char>) -> Option<Seq<char>>;

/// The extension of the last component of `path`, where it has one, as
/// `Path::extension` gives it.
pub uninterp spec fn path_extension(path: Seq<char>) -> Option<Seq<char>>;

/// Whether `c` separates the components of a path on some platform.
pub open spec fn is_path_separator(c: char) -> bool {
    c == '/' || c == '\\'
}

/// Whether some character of `text` is a path separator.
pub open spec fn holds_separator(text: Seq<char>) -> bool {
    exists|i: int| 0 <= i < text.len() && is_path_separator(#[trigger] text[i])
}

/// Whether some character of `text` is a path separator.
pub fn has_separator(text: &str) -> (found: bool)
    ensures
        found == holds_separator(text@),
{
    let count = text.unicode_len();
    let mut i: usize = 0;
    while i < count
        invariant
            count == text@.len(),
            i <= count,
            forall|j: int| 0 <= j < i ==> !is_path_separator(#[trigger] text@[j]),
        decreases count - i,
    {
        let c = text.get_char(i);
        if c == '/' || c == '\\' {
            return true;
        }
        i += 1;
    }
    false
}

/// Calls `Path::with_extension` of std on `path`. An extension that holds a
/// separator is left out: std panics on one. Text in, text out: the result
/// is made of pieces of `path` and of `extension`.
#[verifier::external_body]
pub(crate) fn with_extension(path: &str, extension: &str) -> (changed: String)
    requires
        !holds_separator(extension@),
    ensures
        changed@ == path_with_extension(path@, extension@),
{
    std::path::Path::new(path).with_extension(extension).to_string_lossy().into_owned()
}

/// Calls `Path::join` of std on `base` with `path`. Text in, text out: the
/// result is made of pieces of `base` and of `path`.
#[verifier::external_body]
pub(crate) fn join_paths(base: &str, path: &str) -> (joined: String)
    ensures
        joined@ == path_join(base@, path@),
{
    std::path::Path::new(base).join(path).to_string_lossy().into_owned()
}

/// Calls `Path::file_name` of std. Text in, text out: the name is a piece of
/// `path`.
#[verifier::external_body]
pub(crate) fn file_name_of(path: &str) -> (name: Option<String>)
    ensures
        text_of(name) == path_file_name(path@),
{
    std::path::Path::new(path).file_name().map(|name| name.to_string_lossy().into_owned())
}

/// Calls `Path::file_stem` of std. Text in, text out: the stem is a piece of
/// `path`.
#[verifier::external_body]
pub(crate) fn file_stem_of(path: &str) -> (stem: Option<String>)
    ensures
        text_of(stem) == path_file_stem(path@),
{
    std::path::Path::new(path).file_stem().map(|stem| stem.to_string_lossy().into_owned())
}

/// Calls `Path::extension` of std. Text in, text out: the extension is a
/// piece of `path`.
#[verifier::external_body]
pub(crate) fn extension_of(path: &str) -> (extension: Option<String>)
    ensures
        text_of(extension) == path_extension(path@),
{
    std::path::Path::new(path).extension().map(|ext| ext.to_string_lossy().into_owned())
}

} // verus!
