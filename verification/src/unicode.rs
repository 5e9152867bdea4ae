//! What this crate takes from Unicode: white space and grapheme clusters.

use unicode_segmentation::UnicodeSegmentation;
use vstd::prelude::*;

verus! {

/// Whether `c` has the Unicode `White_Space` property.
pub uninterp spec fn is_white_space(c: char) -> bool;

/// The number of extended grapheme clusters that `s` splits into.
pub uninterp spec fn grapheme_count(s: Seq<char>) -> nat;

/// `char::is_whitespace` of the standard library: the result is the
/// `White_Space` property of `c`, which this crate only names.
#[verifier::external_body]
pub(crate) fn char_is_whitespace(c: char) -> (b: bool)
    ensures
        b == is_white_space(c),
{
    c.is_whitespace()
}

/// `UnicodeSegmentation::graphemes` with extended clusters, counted. The
/// count is a function of the text alone; every cluster holds at least one
/// character, so the count never exceeds the number of characters.
#[verifier::external_body]
pub(crate) fn count_graphemes(s: &str) -> (n: usize)
    ensures
        n == grapheme_count(s@),
        n <= s@.len(),
{
    s.graphemes(true).count()
}

} // verus!
