//! The header that every answer of a service carries.
use vstd::prelude::*;
use crate::avatars::{AvatarFetch, CACHE_TTL_SECS};
use crate::text::{concat2, decimal, decimal_string};

verus! {

/// The name of the caching header.
pub open spec fn cache_control_name() -> Seq<char> {
    "Cache-Control"@
}

/// The value of the caching header for answers that may be kept `seconds`
/// seconds.
pub open spec fn max_age(seconds: nat) -> Seq<char> {
    "max-age="@ + decimal(seconds)
}

/// The `Cache-Control` header, name and value, that the answers of the
/// fetcher `T` carry: they may be kept as long as `T` caches an avatar.
pub fn cache_control<T: AvatarFetch>() -> (r: (String, String))
    ensures
        r.0@ == cache_control_name(),
        r.1@ == max_age(CACHE_TTL_SECS as nat),
{
    let seconds = T::cache_max_length();
    let digits = decimal_string(seconds);
    (String::from_str("Cache-Control"), concat2("max-age=", digits.as_str()))
}

} // verus!
