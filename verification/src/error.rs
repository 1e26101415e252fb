//! What reading a document or resolving its links can fail with.

use crate::property::Property;
use vstd::prelude::*;
use vstd::string::*;

verus! {

/// Why a remote object could not be had.
#[derive(Debug, Clone, Copy, PartialEq, Eq, Structural)]
pub enum FetchError {
    /// The request did not complete.
    Transport,
    /// The server answered with a status outside the 2xx range.
    Status(u16),
    /// The body of the answer is no object.
    Malformed,
}

/// What can go wrong in reading a document or in resolving its links.
#[derive(Debug, Clone, Copy, PartialEq, Eq, Structural)]
pub enum Error {
    /// The `@context` property has none of its four shapes.
    InvalidContext,
    /// The document is not a JSON object.
    NotAnObject,
    /// The `type` property names no type of the vocabulary.
    UnknownType,
    /// The value of a property has none of the shapes of that property.
    InvalidProperty(Property),
    /// The name asked for is no property whose links can be resolved.
    NonResolvableProperty,
    /// A link that should be resolved still holds a URL.
    NotResolved,
    /// A remote object could not be had.
    Fetch(FetchError),
}

impl FetchError {
    /// The words for this failure.
    pub open spec fn message_spec(self) -> Seq<char> {
        match self {
            FetchError::Transport => "the request did not complete"@,
            FetchError::Status(_) => "the server answered with a status that is no success"@,
            FetchError::Malformed => "the answer is no object"@,
        }
    }

    /// The words for this failure.
    pub fn message(self) -> (r: &'static str)
        ensures
            r@ == self.message_spec(),
    {
        match self {
            FetchError::Transport => "the request did not complete",
            FetchError::Status(_) => "the server answered with a status that is no success",
            FetchError::Malformed => "the answer is no object",
        }
    }
}

impl Error {
    /// The words for this error. An unreadable property is named by its
    /// key, and a failed fetch by its own words.
    pub open spec fn message_spec(self) -> Seq<char> {
        match self {
            Error::InvalidContext => "InvalidContext"@,
            Error::NotAnObject => "the document is not an object"@,
            Error::UnknownType => "the type is not in the vocabulary"@,
            Error::InvalidProperty(property) => "the value of this property cannot be read: "@
                + property.name_spec(),
            Error::NonResolvableProperty => "non resolvable property"@,
            Error::NotResolved => "called resolve but wasn't resolved"@,
            Error::Fetch(error) => "could not resolve a reference: "@ + error.message_spec(),
        }
    }

    /// The words for this error.
    pub fn message(self) -> (r: String)
        ensures
            r@ == self.message_spec(),
    {
        match self {
            Error::InvalidContext => "InvalidContext".to_owned(),
            Error::NotAnObject => "the document is not an object".to_owned(),
            Error::UnknownType => "the type is not in the vocabulary".to_owned(),
            Error::InvalidProperty(property) => "the value of this property cannot be read: ".to_owned().concat(
                property.name(),
            ),
            Error::NonResolvableProperty => "non resolvable property".to_owned(),
            Error::NotResolved => "called resolve but wasn't resolved".to_owned(),
            Error::Fetch(error) => "could not resolve a reference: ".to_owned().concat(error.message()),
        }
    }
}

} // verus!
