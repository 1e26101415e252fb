//! The ActivityStreams vocabulary as typed data: objects with their named
//! properties and whatever else a document holds, read from and written to
//! JSON trees, and links to remote objects resolved step by step.
//!
//! The crate performs no input or output. A document comes in as a
//! [`json::Json`] tree and leaves as one; what has to be fetched is handed
//! out as URLs, and what was fetched is handed back in.

pub mod context;
pub mod endpoints;
pub mod error;
pub mod json;
pub mod laws;
pub mod link;
pub mod multiplicity;
pub mod object;
pub mod property;
pub mod resolve;
pub mod resolver;
pub mod scalars;
pub mod targets;
pub mod text;
pub mod units;
pub mod url;
pub mod vocabulary;

pub use context::ActivityStreamsContext;
pub use context::ACTIVITYSTREAMS_CONTEXT;
pub use endpoints::EndpointsProperty;
pub use error::Error;
pub use error::FetchError;
pub use json::Json;
pub use json::Number;
pub use link::ClosedProperty;
pub use link::LinkObject;
pub use multiplicity::NonFunctional;
pub use multiplicity::NonFunctionalIter;
pub use multiplicity::NonFunctionalIterMut;
pub use object::Object;
pub use property::Property;
pub use resolve::outcome_of;
pub use resolve::Outcome;
pub use resolve::Resolve;
pub use resolve::Resolved;
pub use resolver::Action;
pub use resolver::Resolver;
pub use units::Units;
pub use url::Url;
pub use vocabulary::ActivityStreamsType;
pub use vocabulary::LinkRelation;
