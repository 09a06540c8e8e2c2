//! String tests that the rules lean on.

use vstd::prelude::*;

verus! {

/// `needle` stands in `text` from position `i` on.
pub open spec fn occurs_at(needle: Seq<char>, text: Seq<char>, i: int) -> bool {
    0 <= i && i + needle.len() <= text.len() && text.subrange(i, i + needle.len()) == needle
}

/// `needle` stands somewhere in `text`.
pub open spec fn is_substring(needle: Seq<char>, text: Seq<char>) -> bool {
    exists|i: int| occurs_at(needle, text, i)
}

/// Calls `str::contains` with a string pattern. Trusted: the result is true
/// exactly when the characters of `needle` occur in `text` as one contiguous run.
#[verifier::external_body]
pub(crate) fn str_contains(text: &str, needle: &str) -> (found: bool)
    ensures
        found == is_substring(needle@, text@),
{
    text.contains(needle)
}

/// `suffix` stands at the end of `text`.
pub open spec fn ends_with(text: Seq<char>, suffix: Seq<char>) -> bool {
    suffix.len() <= text.len() && text.subrange(text.len() - suffix.len(), text.len() as int) == suffix
}

/// The suffix class of disposable files, as a regular expression.
pub open spec fn disposable_pattern() -> Seq<char> {
    ".*\\.(tmp|log|old|bak)$"@
}

/// `path` ends in one of the suffixes of disposable files.
pub open spec fn has_disposable_suffix(path: Seq<char>) -> bool {
    ends_with(path, ".tmp"@) || ends_with(path, ".log"@) || ends_with(path, ".old"@) || ends_with(
        path,
        ".bak"@,
    )
}

/// Compiles `pattern` with `regex::Regex::new` and searches `text` with
/// `Regex::is_match`; `None` where the pattern does not compile. Trusted, of
/// the disposable pattern alone: it compiles, and since `is_match` looks for
/// a match anywhere in the text and `$` stands for the end of the text, the
/// search succeeds exactly on a text that ends in a dot and one of the four
/// alternatives. Nothing is claimed of any other pattern.
#[verifier::external_body]
pub(crate) fn pattern_is_match(pattern: &str, text: &str) -> (r: Option<bool>)
    ensures
        pattern@ == disposable_pattern() ==> r == Some(has_disposable_suffix(text@)),
{
    match regex::Regex::new(pattern) {
        Ok(re) => Some(re.is_match(text)),
        Err(_) => None,
    }
}

/// Whether `items` holds a string equal to `wanted`.
pub fn contains_string(items: &Vec<String>, wanted: &String) -> (found: bool)
    ensures
        found == crate::model::string_views(items@).contains(wanted@),
{
    let ghost views = crate::model::string_views(items@);
    let mut i: usize = 0;
    while i < items.len()
        invariant
            i <= items.len(),
            views == crate::model::string_views(items@),
            forall|j: int| 0 <= j < i ==> views[j] != wanted@,
        decreases items.len() - i,
    {
        if items[i] == *wanted {
            assert(views[i as int] == wanted@);
            return true;
        }
        i = i + 1;
    }
    false
}

} // verus!
