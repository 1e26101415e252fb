//! Absolute URLs, held in their serialized form.

use crate::text::same_text;
use vstd::prelude::*;

verus! {

/// What `url::Url::parse` makes of a text: the serialization of the parsed
/// URL, or `None` where the text is no absolute URL.
pub uninterp spec fn parsed_url(text: Seq<char>) -> Option<Seq<char>>;

/// A text is canonical when parsing it as a URL gives the same text back.
pub open spec fn is_canonical(text: Seq<char>) -> bool {
    parsed_url(text) == Some(text)
}

/// Parses `text` as an absolute URL and returns its serialization.
///
/// Trusted: calls `url::Url::parse` and turns the parsed URL into its
/// serialization. The contract only names the outcome. It does not say that
/// a serialization parses to itself: for some URLs it does not.
#[verifier::external_body]
fn parse_url(text: &str) -> (r: Option<String>)
    ensures
        r matches Some(s) ==> parsed_url(text@) == Some(s@),
        r is None ==> parsed_url(text@) is None,
{
    match url::Url::parse(text) {
        Ok(url) => Some(String::from(url)),
        Err(_) => None,
    }
}

/// An absolute URL, held as the serialization that parsing gave.
#[derive(Debug, PartialEq, Eq)]
pub struct Url {
    text: String,
}

impl View for Url {
    type V = Seq<char>;

    closed spec fn view(&self) -> Seq<char> {
        self.text@
    }
}

impl Url {
    /// Parses an absolute URL; `None` where `text` is not one.
    pub fn parse(text: &str) -> (r: Option<Url>)
        ensures
            match parsed_url(text@) {
                Some(serialization) => r matches Some(url) && url@ == serialization,
                None => r is None,
            },
    {
        match parse_url(text) {
            Some(text) => Some(Url { text }),
            None => None,
        }
    }

    /// The serialization of this URL.
    pub fn as_str(&self) -> (r: &str)
        ensures
            r@ == self@,
    {
        self.text.as_str()
    }

    /// Whether this URL is canonical: whether parsing its serialization
    /// gives that serialization back. Most URLs are; the test parses once
    /// more and compares.
    pub fn is_canonical(&self) -> (r: bool)
        ensures
            r == is_canonical(self@),
    {
        match parse_url(self.text.as_str()) {
            Some(again) => same_text(again.as_str(), self.text.as_str()),
            None => false,
        }
    }
}

impl Clone for Url {
    /// A copy of this URL.
    fn clone(&self) -> (r: Url)
        ensures
            r@ == self@,
    {
        Url { text: self.text.clone() }
    }
}

} // verus!
