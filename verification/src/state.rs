use vstd::prelude::*;

use crate::source::Sources;

verus! {

/// Application state shared by the transport layer: the registry of
/// sources, built once and reused across concurrent requests.
pub struct State {
    sources: Sources,
}

impl State {
    pub fn new(sources: Sources) -> (s: State) {
        State { sources }
    }

    pub fn sources(&self) -> (r: &Sources) {
        &self.sources
    }
}

} // verus!
