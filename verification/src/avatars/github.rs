//! Avatars from GitHub, by user or organisation name.
use vstd::prelude::*;
use crate::avatars::{AvatarFetch, CACHE_TTL_SECS, Reply, Request, Source, Stage, advance, lookup_first};

verus! {

/// Avatars from GitHub, by user or organisation name.
#[derive(Clone, Copy, Debug)]
pub struct Github;

impl AvatarFetch for Github {
    open spec fn source(&self) -> Source {
        Source::Github
    }

    fn cache_max_length() -> (r: u64) {
        CACHE_TTL_SECS
    }

    fn start(&self, identifier: &str) -> (r: (Stage, Request)) {
        lookup_first(identifier)
    }

    fn next(&self, identifier: &str, stage: Stage, reply: Reply) -> (r: (Stage, Request)) {
        advance(Source::Github, identifier, stage, reply)
    }
}

} // verus!
