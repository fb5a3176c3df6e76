//! Turning the text of the search box into a coin filter.

use vstd::prelude::*;

verus! {

/// `text` without its leading and trailing white space, as `str::trim` cuts it.
pub uninterp spec fn trimmed(text: Seq<char>) -> Seq<char>;

/// `text` in upper case, as `str::to_uppercase` writes it.
pub uninterp spec fn uppercased(text: Seq<char>) -> Seq<char>;

/// Calls `str::trim`. Which characters count as white space is a table of the
/// Unicode standard, so the result is named after the text.
#[verifier::external_body]
fn trim(text: &str) -> (cut: &str)
    ensures
        cut@ == trimmed(text@),
{
    text.trim()
}

/// Calls `str::to_uppercase`. The mapping is a table of the Unicode standard,
/// so the result is named after the text.
#[verifier::external_body]
fn to_uppercase(text: &str) -> (upper: String)
    ensures
        upper@ == uppercased(text@),
{
    text.to_uppercase()
}

/// The coin that a line of the search box asks for: the line trimmed, then in
/// upper case.
pub open spec fn normalized(line: Seq<char>) -> Seq<char> {
    uppercased(trimmed(line))
}

/// The filter that a coin text stands for: none when the text is empty.
pub open spec fn filter_of(coin: Seq<char>) -> Option<Seq<char>> {
    if coin.len() == 0 {
        None
    } else {
        Some(coin)
    }
}

/// Normalises a line of the search box.
pub fn normalize(line: &str) -> (coin: String)
    ensures
        coin@ == normalized(line@),
{
    to_uppercase(trim(line))
}

} // verus!
