use vstd::prelude::*;

pub mod fanbox;
pub mod fantia;

use crate::text::str_eq;
use crate::Article;
use crate::Error;
use crate::Field;

verus! {

/// Success statuses of the upstream exchange, the 2xx class.
pub open spec fn spec_status_success(status: int) -> bool {
    200 <= status <= 299
}

/// The platform a request names.
#[derive(Debug, Clone, Copy, PartialEq, Eq, Structural)]
pub enum SourceType {
    Fanbox,
    Fantia,
}

/// The platform a key selects: only the two registered keys resolve, every
/// other key is refused before any outbound fetch.
pub open spec fn spec_source_type(s: Seq<char>) -> Result<SourceType, ()> {
    if s == "fanbox"@ {
        Ok(SourceType::Fanbox)
    } else if s == "fantia"@ {
        Ok(SourceType::Fantia)
    } else {
        Err(())
    }
}

impl SourceType {
    /// Resolves a platform key. An unregistered key yields `Err`, on which
    /// the caller answers route-not-found without fetching anything.
    pub fn from_str(s: &str) -> (r: Result<SourceType, ()>)
        ensures
            r == spec_source_type(s@),
    {
        if str_eq(s, "fanbox") {
            Ok(SourceType::Fanbox)
        } else if str_eq(s, "fantia") {
            Ok(SourceType::Fantia)
        } else {
            Err(())
        }
    }
}

/// The registry: one stateless source per platform, shared across requests.
pub struct Sources {
    pub fanbox: fanbox::Fanbox,
    pub fantia: fantia::Fantia,
}

/// What the registry turns a finished fetch into, for the transport layer
/// to answer with.
pub enum FetchOutcome<T> {
    /// The identifier does not exist upstream: the caller answers not-found.
    NotFound,
    /// The fetched article, ready for the renderer.
    Fetched(Article),
    /// Transport failure, carrying the underlying error.
    Transport(T),
    /// The response did not match the expected shape at the named field.
    ParseFailed(Field),
}

impl Sources {
    pub fn new() -> (s: Sources)
    {
        Sources { fanbox: fanbox::Fanbox, fantia: fantia::Fantia }
    }

    /// Translates a source's result into the caller-visible outcome. This is
    /// the registry's only translation step: sources never recover from
    /// their own errors.
    pub fn resolve<T>(res: Result<Article, Error<T>>) -> (o: FetchOutcome<T>)
        ensures
            o == (match res {
                Ok(a) => FetchOutcome::Fetched(a),
                Err(Error::NotFound) => FetchOutcome::NotFound,
                Err(Error::ParseError(f)) => FetchOutcome::ParseFailed(f),
                Err(Error::Misc(t)) => FetchOutcome::Transport(t),
            }),
    {
        match res {
            Ok(a) => FetchOutcome::Fetched(a),
            Err(Error::NotFound) => FetchOutcome::NotFound,
            Err(Error::ParseError(f)) => FetchOutcome::ParseFailed(f),
            Err(Error::Misc(t)) => FetchOutcome::Transport(t),
        }
    }
}

/// The body text a parse failure is answered with: the fixed prefix and the
/// dotted entity/field path of the failing locator.
pub fn parse_failure_message(f: &Field) -> (m: String)
    ensures
        m@ == "failed to parse: "@ + f.path_spec(),
{
    let mut m = "failed to parse: ".to_owned();
    m.append(f.path());
    m
}

} // verus!
