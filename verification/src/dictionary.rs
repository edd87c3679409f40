//! Looking a word up in a list of known words, without regard to case.

use crate::text::lowercase_of;
use vstd::prelude::*;

verus! {

/// Whether the lower-case form of `word` is the lower-case form of one of
/// the words in the dictionary.
pub fn validate_word(word: &str, global_data_words: &[&str]) -> (valid: bool)
    ensures
        valid == exists|i: int|
            0 <= i < global_data_words@.len() && lowercase_of(
                (#[trigger] global_data_words@[i])@,
            ) == lowercase_of(word@),
{
    let wanted = word.to_lowercase();
    let mut i: usize = 0;
    while i < global_data_words.len()
        invariant
            i <= global_data_words@.len(),
            wanted@ == lowercase_of(word@),
            forall|j: int|
                0 <= j < i ==> lowercase_of((#[trigger] global_data_words@[j])@) != lowercase_of(
                    word@,
                ),
        decreases global_data_words@.len() - i,
    {
        if global_data_words[i].to_lowercase() == wanted {
            return true;
        }
        i = i + 1;
    }
    false
}

} // verus!
