//! Animated GIFs of users' avatars: an avatar is fetched from Discord,
//! GitHub, Gravatar or Reddit, and petted, bonked or cancelled.

pub mod avatars;
pub mod bonk;
pub mod filters;
pub mod handler;
pub mod imaging;
pub mod picture;
pub mod service;
pub mod text;
