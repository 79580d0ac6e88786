//! The three calls that leave this library: canonical composition, grapheme
//! segmentation and the whitespace test. Verus takes their contracts on trust.

use unicode_normalization::UnicodeNormalization;
use unicode_segmentation::UnicodeSegmentation;
use vstd::prelude::*;

verus! {

/// Normalization Form C of a text (canonical decomposition followed by
/// canonical composition), as `unicode_normalization` computes it.
pub uninterp spec fn nfc_form(text: Seq<char>) -> Seq<char>;

/// The extended grapheme clusters of a text, first to last, as
/// `unicode_segmentation` cuts them.
pub uninterp spec fn grapheme_clusters(text: Seq<char>) -> Seq<Seq<char>>;

/// Whether a character has the Unicode property `White_Space`, which is what
/// `char::is_whitespace` tests.
pub uninterp spec fn is_whitespace_char(c: char) -> bool;

/// Calls `UnicodeNormalization::nfc` of `unicode_normalization` on `s` and
/// collects the characters. Trusted: the result is the text in Normalization
/// Form C, and so is its own Form C.
#[verifier::external_body]
pub(crate) fn nfc(s: &str) -> (r: String)
    ensures
        r@ == nfc_form(s@),
        nfc_form(r@) == r@,
{
    s.nfc().collect::<String>()
}

/// Calls `UnicodeSegmentation::graphemes` of `unicode_segmentation` on `s`,
/// asking for extended clusters, and copies each cluster out. Trusted: the
/// result holds the clusters of `s` in order.
#[verifier::external_body]
pub(crate) fn graphemes(s: &str) -> (r: Vec<String>)
    ensures
        r.deep_view() == grapheme_clusters(s@),
{
    let mut clusters = Vec::new();
    for g in UnicodeSegmentation::graphemes(s, true) {
        clusters.push(g.to_owned());
    }
    clusters
}

/// Calls `char::is_whitespace`. Trusted: the result is the property that
/// [`is_whitespace_char`] names.
#[verifier::external_body]
pub(crate) fn char_is_whitespace(c: char) -> (b: bool)
    ensures
        b == is_whitespace_char(c),
{
    c.is_whitespace()
}

} // verus!
