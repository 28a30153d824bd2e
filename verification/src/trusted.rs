//! What this library takes on trust: the calls into `unicode-width` and
//! `unicode-segmentation`, and the methods of `String` for which vstd has no
//! contract. Nothing here is proved; everything else is proved from it.

use unicode_segmentation::UnicodeSegmentation;
use unicode_width::UnicodeWidthStr;
use vstd::prelude::*;

verus! {

/// The number of terminal columns that `unicode-width` gives to the text `s`.
pub uninterp spec fn display_width(s: Seq<char>) -> usize;

/// The extended grapheme clusters into which `unicode-segmentation` splits the
/// text `s`, in order.
pub uninterp spec fn grapheme_clusters(s: Seq<char>) -> Seq<Seq<char>>;

/// `UnicodeWidthStr::width` of `unicode-width`: the columns that `s` takes, by
/// the Unicode East Asian Width tables. The result depends on the text alone.
#[verifier::external_body]
pub(crate) fn str_width(s: &str) -> (w: usize)
    ensures
        w == display_width(s@),
{
    UnicodeWidthStr::width(s)
}

/// `UnicodeSegmentation::graphemes` of `unicode-segmentation`, with extended
/// clusters, collected: the clusters of `s` in order, each a slice of `s`. The
/// result depends on the text alone.
#[verifier::external_body]
pub(crate) fn graphemes(s: &str) -> (clusters: Vec<&str>)
    ensures
        clusters@.len() == grapheme_clusters(s@).len(),
        forall|i: int| 0 <= i < clusters@.len() ==> (#[trigger] clusters@[i])@ == grapheme_clusters(s@)[i],
{
    UnicodeSegmentation::graphemes(s, true).collect()
}

/// `String::push` of std: appends the character `ch`.
pub assume_specification[ std::string::String::push ](s: &mut String, ch: char)
    ensures
        final(s)@ == old(s)@.push(ch),
;

/// `String::clear` of std: removes all the text.
pub assume_specification[ std::string::String::clear ](s: &mut String)
    ensures
        final(s)@ == Seq::<char>::empty(),
;

} // verus!
