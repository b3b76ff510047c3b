//! Texts: the operations that come from outside the verified code, and a
//! few small ones that are verified.

use unicode_segmentation::UnicodeSegmentation;
use vstd::prelude::*;

verus! {

/// What `str::to_lowercase` returns for a text.
pub uninterp spec fn lowercase(text: Seq<char>) -> Seq<char>;

/// The extended grapheme clusters that `UnicodeSegmentation::graphemes`
/// splits a text into, in order.
pub uninterp spec fn graphemes(text: Seq<char>) -> Seq<Seq<char>>;

/// What `i64::to_string` returns for a number.
pub uninterp spec fn decimal(number: int) -> Seq<char>;

/// Calls `str::to_lowercase`. The contract only gives the result its name:
/// nothing is claimed about which characters the lowercase form holds.
#[verifier::external_body]
pub(crate) fn to_lowercase(text: &str) -> (res: String)
    ensures
        res@ == lowercase(text@),
{
    text.to_lowercase()
}

/// Calls `UnicodeSegmentation::graphemes` in extended mode and hands out
/// the clusters it yields, each as a text of its own. The contract only
/// gives the clusters their name.
#[verifier::external_body]
pub(crate) fn split_graphemes(text: &str) -> (res: Vec<String>)
    ensures
        res.deep_view() == graphemes(text@),
{
    text.graphemes(true).map(|cluster| cluster.to_string()).collect()
}

/// Calls `i64::to_string`. The contract only gives the result its name.
#[verifier::external_body]
pub(crate) fn number_text(number: i64) -> (res: String)
    ensures
        res@ == decimal(number as int),
{
    number.to_string()
}

/// Whether two texts hold the same characters.
pub fn same_text(a: &str, b: &str) -> (res: bool)
    ensures
        res == (a@ == b@),
{
    let left = a.to_owned();
    let right = b.to_owned();
    left == right
}

/// Copies an optional text.
pub fn clone_opt_text(text: &Option<String>) -> (res: Option<String>)
    ensures
        res == *text,
{
    match text {
        Some(t) => Some(t.clone()),
        None => None,
    }
}

/// Whether two optional texts are both absent or hold the same characters.
pub fn same_opt_text(a: &Option<String>, b: &Option<String>) -> (res: bool)
    ensures
        res == (a.deep_view() == b.deep_view()),
{
    match (a, b) {
        (Some(x), Some(y)) => *x == *y,
        (None, None) => true,
        _ => false,
    }
}

} // verus!
