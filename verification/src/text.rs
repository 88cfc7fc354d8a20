//! Text and byte helpers shared by the pipeline.
use vstd::prelude::*;
use vstd::string::*;
use vstd::utf8::*;

verus! {

/// Equal byte encodings mean equal texts.
pub proof fn lemma_encoding_is_injective(a: Seq<char>, b: Seq<char>)
    requires
        encode_utf8(a) == encode_utf8(b),
    ensures
        a == b,
{
    encode_utf8_decode_utf8(a);
    encode_utf8_decode_utf8(b);
}

/// Whether two byte slices hold the same bytes.
pub fn bytes_eq(a: &[u8], b: &[u8]) -> (same: bool)
    ensures
        same == (a@ == b@),
{
    if a.len() != b.len() {
        return false;
    }
    let mut i: usize = 0;
    while i < a.len()
        invariant
            a@.len() == b@.len(),
            i <= a@.len(),
            forall|j: int| 0 <= j < i ==> a@[j] == b@[j],
        decreases a@.len() - i,
    {
        if a[i] != b[i] {
            return false;
        }
        i += 1;
    }
    assert(a@ =~= b@);
    true
}

/// Whether two texts are the same sequence of characters.
pub fn str_eq(a: &str, b: &str) -> (same: bool)
    ensures
        same == (a@ == b@),
{
    let same = bytes_eq(a.as_bytes(), b.as_bytes());
    proof {
        if same {
            lemma_encoding_is_injective(a@, b@);
        }
    }
    same
}

/// Whether `bytes` begins with `prefix`.
pub open spec fn has_prefix<T>(whole: Seq<T>, prefix: Seq<T>) -> bool {
    prefix.len() <= whole.len() && whole.subrange(0, prefix.len() as int) == prefix
}

/// Whether the byte slice `whole` begins with the bytes of `prefix`.
pub fn bytes_start_with(whole: &[u8], prefix: &[u8]) -> (yes: bool)
    ensures
        yes == has_prefix(whole@, prefix@),
{
    if prefix.len() > whole.len() {
        return false;
    }
    let mut i: usize = 0;
    while i < prefix.len()
        invariant
            prefix@.len() <= whole@.len(),
            i <= prefix@.len(),
            forall|j: int| 0 <= j < i ==> whole@[j] == prefix@[j],
        decreases prefix@.len() - i,
    {
        if whole[i] != prefix[i] {
            assert(whole@.subrange(0, prefix@.len() as int)[i as int] == whole@[i as int]);
            return false;
        }
        i += 1;
    }
    assert(whole@.subrange(0, prefix@.len() as int) =~= prefix@);
    true
}

/// The view of an optional text.
pub open spec fn text_of(value: Option<String>) -> Option<Seq<char>> {
    match value {
        Some(text) => Some(text@),
        None => None,
    }
}

/// A text, or the default where there is none.
pub open spec fn text_or(value: Option<Seq<char>>, default: Seq<char>) -> Seq<char> {
    match value {
        Some(text) => text,
        None => default,
    }
}

/// Decodes bytes as UTF-8 text with `String::from_utf8` of std, which
/// succeeds exactly on well-formed UTF-8 and then yields the text that those
/// bytes encode.
#[verifier::external_body]
pub(crate) fn decode_text(bytes: Vec<u8>) -> (text: Option<String>)
    ensures
        text is Some <==> valid_utf8(bytes@),
        text matches Some(s) ==> encode_utf8(s@) == bytes@,
{
    String::from_utf8(bytes).ok()
}

} // verus!
