//! Avatars from Discord, by user id, with one of the default avatars for users without one.
use vstd::prelude::*;
use crate::avatars::{AvatarFetch, CACHE_TTL_SECS, Reply, Request, Source, Stage, advance, lookup_first};

verus! {

/// Avatars from Discord, by user id, with one of the default avatars for users without one.
#[derive(Clone, Copy, Debug)]
pub struct Discord;

impl AvatarFetch for Discord {
    open spec fn source(&self) -> Source {
        Source::Discord
    }

    fn cache_max_length() -> (r: u64) {
        CACHE_TTL_SECS
    }

    fn start(&self, identifier: &str) -> (r: (Stage, Request)) {
        lookup_first(identifier)
    }

    fn next(&self, identifier: &str, stage: Stage, reply: Reply) -> (r: (Stage, Request)) {
        advance(Source::Discord, identifier, stage, reply)
    }
}

} // verus!
