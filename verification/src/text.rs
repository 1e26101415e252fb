//! Texts: equality, snake case, and an outline that tells words apart.

use vstd::prelude::*;

verus! {

/// Equality of two string slices, character by character.
///
/// Trusted: calls `str`'s `==` from the standard library, which is true
/// exactly when both slices hold the same characters.
#[verifier::external_body]
pub(crate) fn same_text(a: &str, b: &str) -> (r: bool)
    ensures
        r == (a@ == b@),
{
    a == b
}

/// What `heck`'s snake-case conversion makes of a text: its words in lower
/// case, joined by underscores.
pub uninterp spec fn snake_case(text: Seq<char>) -> Seq<char>;

/// Converts a text to snake case.
///
/// Trusted: calls `heck::ToSnakeCase::to_snake_case` on the text. The
/// contract only names the outcome.
#[verifier::external_body]
pub(crate) fn to_snake_case(text: &str) -> (r: String)
    ensures
        r@ == snake_case(text@),
{
    heck::ToSnakeCase::to_snake_case(text)
}

/// The character of `text` at `place`, or a blank where the text is shorter.
pub open spec fn glyph(text: Seq<char>, place: int) -> char {
    if 0 <= place < text.len() {
        text[place]
    } else {
        ' '
    }
}

/// The length of a text and its characters at five fixed places: enough to
/// tell the words of each vocabulary of this crate apart.
pub open spec fn outline(text: Seq<char>) -> (nat, char, char, char, char, char) {
    (text.len(), glyph(text, 0), glyph(text, 2), glyph(text, 5), glyph(text, 6), glyph(text, 9))
}

} // verus!
