//! Comparing the text of tokens.

use vstd::prelude::*;

verus! {

/// Whether `text` reads `word`.
pub fn reads(text: &String, word: &str) -> (same: bool)
    ensures
        same == (text@ == word@),
{
    let word = String::from_str(word);
    *text == word
}

} // verus!
