//! What the service says of itself.

use vstd::prelude::*;

verus! {

/// The name of the service.
pub const NAME: &'static str = "embedder";

/// Those who wrote the service.
pub const AUTHORS: &'static str = "";

/// What the service does, in a sentence.
pub const DESCRIPTION: &'static str = "Sentence embeddings over HTTP.";

/// The version of the service.
pub const VERSION: &'static str = "0.1.0";

/// The response for the root endpoint.
#[derive(Clone, Copy, Debug, PartialEq, Eq)]
pub struct RootResponse {
    name: &'static str,
    authors: &'static str,
    description: &'static str,
    version: &'static str,
}

impl RootResponse {
    /// The name of the service.
    pub closed spec fn name_spec(&self) -> Seq<char> {
        self.name@
    }

    /// Those who wrote the service.
    pub closed spec fn authors_spec(&self) -> Seq<char> {
        self.authors@
    }

    /// What the service does.
    pub closed spec fn description_spec(&self) -> Seq<char> {
        self.description@
    }

    /// The version of the service.
    pub closed spec fn version_spec(&self) -> Seq<char> {
        self.version@
    }

    /// Create a new instance of the root response.
    pub fn new() -> (response: Self)
        ensures
            response.name_spec() == NAME@,
            response.authors_spec() == AUTHORS@,
            response.description_spec() == DESCRIPTION@,
            response.version_spec() == VERSION@,
    {
        RootResponse { name: NAME, authors: AUTHORS, description: DESCRIPTION, version: VERSION }
    }

    /// The name of the service.
    pub fn name(&self) -> (name: &'static str)
        ensures
            name@ == self.name_spec(),
    {
        self.name
    }

    /// Those who wrote the service.
    pub fn authors(&self) -> (authors: &'static str)
        ensures
            authors@ == self.authors_spec(),
    {
        self.authors
    }

    /// What the service does.
    pub fn description(&self) -> (description: &'static str)
        ensures
            description@ == self.description_spec(),
    {
        self.description
    }

    /// The version of the service.
    pub fn version(&self) -> (version: &'static str)
        ensures
            version@ == self.version_spec(),
    {
        self.version
    }
}

} // verus!
