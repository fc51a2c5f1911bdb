//! Which files count as media: those whose name ends, in whatever case, in
//! one of the known extensions.

use vstd::prelude::*;
use vstd::string::StrSliceExecFns;

verus! {

/// The lower-case form of a text as `str::to_lowercase` gives it.
pub uninterp spec fn lowercase_of(text: Seq<char>) -> Seq<char>;

/// `str::to_lowercase`: the text with every character mapped to its
/// lower-case equivalent by the Unicode rules.
#[verifier::external_body]
fn lowercase(text: &str) -> (lower: String)
    ensures
        lower@ == lowercase_of(text@),
{
    text.to_lowercase()
}

/// Whether `text` ends in `suffix`.
pub open spec fn ends_with(text: Seq<char>, suffix: Seq<char>) -> bool {
    &&& suffix.len() <= text.len()
    &&& text.subrange(text.len() - suffix.len(), text.len() as int) == suffix
}

/// Whether a name, given in lower case, ends in a media extension.
pub open spec fn is_media_name(lower: Seq<char>) -> bool {
    ||| ends_with(lower, ".mp4"@)
    ||| ends_with(lower, ".mkv"@)
    ||| ends_with(lower, ".mov"@)
    ||| ends_with(lower, ".webm"@)
    ||| ends_with(lower, ".avi"@)
    ||| ends_with(lower, ".flv"@)
    ||| ends_with(lower, ".m4v"@)
    ||| ends_with(lower, ".ts"@)
    ||| ends_with(lower, ".m2ts"@)
    ||| ends_with(lower, ".wmv"@)
    ||| ends_with(lower, ".mp3"@)
}

fn has_suffix(text: &str, suffix: &str) -> (found: bool)
    ensures
        found == ends_with(text@, suffix@),
{
    let n = text.unicode_len();
    let m = suffix.unicode_len();
    if m > n {
        return false;
    }
    let start = n - m;
    let mut j: usize = 0;
    while j < m
        invariant
            j <= m,
            m <= n,
            start == n - m,
            n == text@.len(),
            m == suffix@.len(),
            forall|k: int| 0 <= k < j ==> text@[start + k] == suffix@[k],
        decreases m - j,
    {
        if text.get_char(start + j) != suffix.get_char(j) {
            assert(text@.subrange(start as int, n as int)[j as int] != suffix@[j as int]);
            return false;
        }
        j += 1;
    }
    assert(text@.subrange(start as int, n as int) =~= suffix@);
    true
}

/// Whether a name that is already in lower case ends in a media extension.
pub fn has_media_extension(lower: &str) -> (found: bool)
    ensures
        found == is_media_name(lower@),
{
    has_suffix(lower, ".mp4") || has_suffix(lower, ".mkv") || has_suffix(lower, ".mov")
        || has_suffix(lower, ".webm") || has_suffix(lower, ".avi") || has_suffix(lower, ".flv")
        || has_suffix(lower, ".m4v") || has_suffix(lower, ".ts") || has_suffix(lower, ".m2ts")
        || has_suffix(lower, ".wmv") || has_suffix(lower, ".mp3")
}

/// Whether a file of this name is a media file: whether its name in lower
/// case ends in a media extension.
pub fn is_media_file(name: &str) -> (found: bool)
    ensures
        found == is_media_name(lowercase_of(name@)),
{
    let lower = lowercase(name);
    has_media_extension(lower.as_str())
}

} // verus!
