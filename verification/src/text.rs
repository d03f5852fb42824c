//! Small things on strings.

use vstd::prelude::*;

verus! {

/// `String::push` appends the character to the end of the string.
pub assume_specification[ String::push ](s: &mut String, c: char)
    ensures
        final(s)@ == old(s)@.push(c),
;

/// Whether `s` holds exactly the characters of `word`.
pub fn is_word(s: &String, word: &str) -> (b: bool)
    ensures
        b == (s@ == word@),
{
    let w = String::from_str(word);
    *s == w
}

} // verus!
