//! Fetching an avatar, as a state machine. The caller looks the avatar up
//! in a cache, reads the environment, sends HTTP requests and stores into
//! the cache; the library decides, from what each of these gave back, what
//! to do next and what the fetch finally returns.
//!
//! A fetch starts with `AvatarFetch::start`, which asks for a cache lookup.
//! The caller performs each `Request`, hands what came of it back to
//! `AvatarFetch::next` as a `Reply`, and goes on until `Request::Finish`.
use vstd::prelude::*;
use crate::avatars::gravatar::{gravatar_avatar_url, gravatar_digest_hex, gravatar_key, gravatar_url};
use crate::text::{before_query, concat2, concat3, decimal, decimal_string, law_before_query,
    law_u16_round_trip, parsed_u16, parse_u16, strip_query};

pub mod discord;
pub mod github;
pub mod gravatar;
pub mod reddit;

verus! {

/// How long a fetched avatar stays in the cache, in seconds (30 minutes).
pub const CACHE_TTL_SECS: u64 = 1800;

/// Why an avatar could not be fetched.
#[derive(Debug, Clone, Copy, PartialEq, Eq, Structural)]
pub enum AvatarError {
    /// The service knows no such user, or the user has no avatar.
    NotFound,
    /// Discord gave a discriminator that is not a decimal `u16`.
    BadDiscriminator,
    /// A request failed, or its answer could not be decoded.
    Transport,
    /// The reply does not answer the request that was made.
    OutOfOrder,
}

/// The services an avatar comes from, one per way of fetching it.
#[derive(Debug, Clone, Copy, PartialEq, Eq, Structural)]
pub enum Source {
    /// Discord, by user id, with a default avatar for users without one.
    Discord,
    /// GitHub, by user or organisation name.
    Github,
    /// Gravatar, by e-mail address.
    Gravatar,
    /// Reddit, by user name.
    Reddit,
    /// Discord, by user id, failing for users without an avatar.
    DiscordAvatarOnly,
}

/// What the caller is asked to do next.
pub enum Request {
    /// Look `key` up in the source's avatar cache.
    LookupCache { key: String },
    /// Read the environment variable `name`.
    ReadEnv { name: String },
    /// GET `url` with the `Authorization` header, and decode the answer as a
    /// Discord user with `avatar` and `discriminator`.
    GetDiscordUser { url: String, authorization: String },
    /// GET `url` with the `Authorization` header, and decode the answer as a
    /// Discord user with `avatar` only.
    GetDiscordAvatar { url: String, authorization: String },
    /// GET `url` and decode the answer as a Reddit user's `data.icon_img`.
    GetRedditUser { url: String },
    /// GET `url` and read the whole body.
    GetImage { url: String },
    /// Store `image` under `key` in the cache, for `ttl_secs` seconds.
    StoreCache { key: String, image: Vec<u8>, ttl_secs: u64 },
    /// The fetch is over, with this outcome.
    Finish(Result<Vec<u8>, AvatarError>),
}

/// What came of a request.
pub enum Reply {
    /// The cache lookup found this avatar, or nothing.
    Cached(Option<Vec<u8>>),
    /// The environment variable's value.
    EnvVar(String),
    /// A Discord user with both fields.
    DiscordUser { avatar: Option<String>, discriminator: String },
    /// A Discord user's avatar field.
    DiscordAvatar { avatar: Option<String> },
    /// A Reddit user's icon URL.
    RedditUser { icon_img: Option<String> },
    /// The body of an image request.
    Image(Vec<u8>),
    /// The cache took the avatar.
    Stored,
    /// The request failed, or its answer could not be decoded.
    Failed,
}

/// How far a fetch has come.
pub enum Stage {
    /// Waiting for the cache lookup.
    Lookup,
    /// Waiting for the bot token.
    Credentials,
    /// Waiting for the user's profile.
    Profile,
    /// Waiting for the image.
    Download,
    /// Waiting for the cache to take this image.
    Storing(Vec<u8>),
    /// Done.
    Finished,
}

/// A `Request` as a mathematical value.
pub enum RequestView {
    LookupCache { key: Seq<char> },
    ReadEnv { name: Seq<char> },
    GetDiscordUser { url: Seq<char>, authorization: Seq<char> },
    GetDiscordAvatar { url: Seq<char>, authorization: Seq<char> },
    GetRedditUser { url: Seq<char> },
    GetImage { url: Seq<char> },
    StoreCache { key: Seq<char>, image: Seq<u8>, ttl_secs: u64 },
    Finish(Result<Seq<u8>, AvatarError>),
}

/// A `Reply` as a mathematical value.
pub enum ReplyView {
    Cached(Option<Seq<u8>>),
    EnvVar(Seq<char>),
    DiscordUser { avatar: Option<Seq<char>>, discriminator: Seq<char> },
    DiscordAvatar { avatar: Option<Seq<char>> },
    RedditUser { icon_img: Option<Seq<char>> },
    Image(Seq<u8>),
    Stored,
    Failed,
}

/// A `Stage` as a mathematical value.
pub enum StageView {
    Lookup,
    Credentials,
    Profile,
    Download,
    Storing(Seq<u8>),
    Finished,
}

/// The mathematical value of an optional string.
pub open spec fn opt_view(s: Option<String>) -> Option<Seq<char>> {
    match s {
        Some(t) => Some(t@),
        None => None,
    }
}

impl View for Request {
    type V = RequestView;

    open spec fn view(&self) -> RequestView {
        match self {
            Request::LookupCache { key } => RequestView::LookupCache { key: key@ },
            Request::ReadEnv { name } => RequestView::ReadEnv { name: name@ },
            Request::GetDiscordUser { url, authorization } => RequestView::GetDiscordUser {
                url: url@,
                authorization: authorization@,
            },
            Request::GetDiscordAvatar { url, authorization } => RequestView::GetDiscordAvatar {
                url: url@,
                authorization: authorization@,
            },
            Request::GetRedditUser { url } => RequestView::GetRedditUser { url: url@ },
            Request::GetImage { url } => RequestView::GetImage { url: url@ },
            Request::StoreCache { key, image, ttl_secs } => RequestView::StoreCache {
                key: key@,
                image: image@,
                ttl_secs: *ttl_secs,
            },
            Request::Finish(r) => RequestView::Finish(
                match r {
                    Ok(b) => Ok(b@),
                    Err(e) => Err(*e),
                },
            ),
        }
    }
}

impl View for Reply {
    type V = ReplyView;

    open spec fn view(&self) -> ReplyView {
        match self {
            Reply::Cached(c) => ReplyView::Cached(
                match c {
                    Some(b) => Some(b@),
                    None => None,
                },
            ),
            Reply::EnvVar(v) => ReplyView::EnvVar(v@),
            Reply::DiscordUser { avatar, discriminator } => ReplyView::DiscordUser {
                avatar: opt_view(*avatar),
                discriminator: discriminator@,
            },
            Reply::DiscordAvatar { avatar } => ReplyView::DiscordAvatar { avatar: opt_view(*avatar) },
            Reply::RedditUser { icon_img } => ReplyView::RedditUser { icon_img: opt_view(*icon_img) },
            Reply::Image(b) => ReplyView::Image(b@),
            Reply::Stored => ReplyView::Stored,
            Reply::Failed => ReplyView::Failed,
        }
    }
}

impl View for Stage {
    type V = StageView;

    open spec fn view(&self) -> StageView {
        match self {
            Stage::Lookup => StageView::Lookup,
            Stage::Credentials => StageView::Credentials,
            Stage::Profile => StageView::Profile,
            Stage::Download => StageView::Download,
            Stage::Storing(b) => StageView::Storing(b@),
            Stage::Finished => StageView::Finished,
        }
    }
}

/// The environment variable that holds the Discord bot token.
pub open spec fn discord_token_var() -> Seq<char> {
    "DISCORD_TOKEN"@
}

/// The Discord API address of user `id`.
pub open spec fn discord_user_url(id: Seq<char>) -> Seq<char> {
    "https://discord.com/api/v9/users/"@ + id
}

/// The `Authorization` header value for the bot token `token`.
pub open spec fn bot_authorization(token: Seq<char>) -> Seq<char> {
    "Bot "@ + token
}

/// The address of the avatar `hash` of Discord user `id`, at 128 pixels.
pub open spec fn discord_avatar_url(id: Seq<char>, hash: Seq<char>) -> Seq<char> {
    "https://cdn.discordapp.com/avatars/"@ + id + "/"@ + hash + ".png?size=128"@
}

/// The number that the default-avatar address `url` names: what lies
/// between the directory of Discord's default avatars and `.png?size=128`,
/// read as a decimal `u16`; `None` where `url` is not such an address.
pub open spec fn default_avatar_number(url: Seq<char>) -> Option<u16> {
    let head = "https://cdn.discordapp.com/embed/avatars/"@;
    let tail = ".png?size=128"@;
    if url.len() >= head.len() + tail.len() && url.take(head.len() as int) == head && url.skip(
        url.len() - tail.len(),
    ) == tail {
        parsed_u16(url.subrange(head.len() as int, url.len() - tail.len()))
    } else {
        None
    }
}

/// `request` downloads the icon at `icon` without its query: a prefix of
/// `icon` without `?`, which is all of `icon` or stops at its first `?`.
pub open spec fn is_icon_download(icon: Seq<char>, request: RequestView) -> bool {
    match request {
        RequestView::GetImage { url } => {
            &&& url.len() <= icon.len()
            &&& url == icon.take(url.len() as int)
            &&& forall|j: int| 0 <= j < url.len() ==> #[trigger] url[j] != '?'
            &&& url.len() < icon.len() ==> icon[url.len() as int] == '?'
        },
        _ => false,
    }
}

/// The address of Discord's default avatar number `index`, at 128 pixels.
pub open spec fn discord_default_avatar_url(index: nat) -> Seq<char> {
    "https://cdn.discordapp.com/embed/avatars/"@ + decimal(index) + ".png?size=128"@
}

/// The address of the avatar of GitHub user `name`, at 128 pixels.
pub open spec fn github_avatar_url(name: Seq<char>) -> Seq<char> {
    "https://github.com/"@ + name + ".png?size=128"@
}

/// The Reddit API address of user `name`'s profile.
pub open spec fn reddit_about_url(name: Seq<char>) -> Seq<char> {
    "https://www.reddit.com/user/"@ + name + "/about.json"@
}

/// The fetch is over with outcome `r`.
pub open spec fn finish(r: Result<Seq<u8>, AvatarError>) -> (StageView, RequestView) {
    (StageView::Finished, RequestView::Finish(r))
}

/// The image `image` is to be stored under `key` before the fetch returns it.
pub open spec fn store(key: Seq<char>, image: Seq<u8>) -> (StageView, RequestView) {
    (StageView::Storing(image), RequestView::StoreCache { key, image, ttl_secs: 1800 })
}

/// The key under which a fetched avatar of `id` is stored: the e-mail's
/// digest for Gravatar, `id` itself elsewhere.
pub open spec fn store_key(source: Source, id: Seq<char>) -> Seq<char> {
    match source {
        Source::Gravatar => gravatar_digest_hex(id),
        _ => id,
    }
}

/// The source answers an unknown user with an empty body, which is then
/// taken for "not found".
pub open spec fn rejects_empty(source: Source) -> bool {
    source == Source::Github || source == Source::Gravatar
}

/// What follows a cache miss.
pub open spec fn after_miss(source: Source, id: Seq<char>) -> (StageView, RequestView) {
    match source {
        Source::Discord => (StageView::Credentials, RequestView::ReadEnv { name: discord_token_var() }),
        Source::DiscordAvatarOnly => (
            StageView::Credentials,
            RequestView::ReadEnv { name: discord_token_var() },
        ),
        Source::Github => (StageView::Download, RequestView::GetImage { url: github_avatar_url(id) }),
        Source::Gravatar => (
            StageView::Download,
            RequestView::GetImage { url: gravatar_avatar_url(gravatar_digest_hex(id)) },
        ),
        Source::Reddit => (StageView::Profile, RequestView::GetRedditUser { url: reddit_about_url(id) }),
    }
}

/// What follows the bot token `token`.
pub open spec fn after_token(source: Source, id: Seq<char>, token: Seq<char>) -> (
    StageView,
    RequestView,
) {
    match source {
        Source::Discord => (
            StageView::Profile,
            RequestView::GetDiscordUser {
                url: discord_user_url(id),
                authorization: bot_authorization(token),
            },
        ),
        Source::DiscordAvatarOnly => (
            StageView::Profile,
            RequestView::GetDiscordAvatar {
                url: discord_user_url(id),
                authorization: bot_authorization(token),
            },
        ),
        _ => finish(Err(AvatarError::OutOfOrder)),
    }
}

/// What follows a Discord user's profile: the avatar if the user has one,
/// else the default avatar numbered by the discriminator modulo 5.
pub open spec fn after_discord_user(
    id: Seq<char>,
    avatar: Option<Seq<char>>,
    discriminator: Seq<char>,
) -> (StageView, RequestView) {
    match avatar {
        Some(hash) => (StageView::Download, RequestView::GetImage { url: discord_avatar_url(id, hash) }),
        None => match parsed_u16(discriminator) {
            Some(n) => (
                StageView::Download,
                RequestView::GetImage { url: discord_default_avatar_url((n % 5) as nat) },
            ),
            None => finish(Err(AvatarError::BadDiscriminator)),
        },
    }
}

/// What follows a Discord user's avatar field: the avatar, or "not found".
pub open spec fn after_discord_avatar(id: Seq<char>, avatar: Option<Seq<char>>) -> (
    StageView,
    RequestView,
) {
    match avatar {
        Some(hash) => (StageView::Download, RequestView::GetImage { url: discord_avatar_url(id, hash) }),
        None => finish(Err(AvatarError::NotFound)),
    }
}

/// What follows a Reddit user's icon URL: the icon without its query, or
/// "not found".
pub open spec fn after_reddit_user(icon_img: Option<Seq<char>>) -> (StageView, RequestView) {
    match icon_img {
        Some(url) => (StageView::Download, RequestView::GetImage { url: before_query(url) }),
        None => finish(Err(AvatarError::NotFound)),
    }
}

/// What follows the image `image`: "not found" for an empty body where the
/// source takes it so, else the store into the cache.
pub open spec fn after_image(source: Source, id: Seq<char>, image: Seq<u8>) -> (
    StageView,
    RequestView,
) {
    if rejects_empty(source) && image.len() == 0 {
        finish(Err(AvatarError::NotFound))
    } else {
        store(store_key(source, id), image)
    }
}

/// The next stage and request of a fetch of `id` from `source`, at `stage`,
/// given `reply` to the last request. A failed request ends the fetch with
/// `Transport`; a reply that does not fit the stage ends it with
/// `OutOfOrder`.
pub open spec fn avatar_next(source: Source, id: Seq<char>, stage: StageView, reply: ReplyView) -> (
    StageView,
    RequestView,
) {
    match reply {
        ReplyView::Failed => finish(Err(AvatarError::Transport)),
        ReplyView::Cached(Some(b)) => if stage is Lookup {
            finish(Ok(b))
        } else {
            finish(Err(AvatarError::OutOfOrder))
        },
        ReplyView::Cached(None) => if stage is Lookup {
            after_miss(source, id)
        } else {
            finish(Err(AvatarError::OutOfOrder))
        },
        ReplyView::EnvVar(token) => if stage is Credentials {
            after_token(source, id, token)
        } else {
            finish(Err(AvatarError::OutOfOrder))
        },
        ReplyView::DiscordUser { avatar, discriminator } => if stage is Profile && source
            == Source::Discord {
            after_discord_user(id, avatar, discriminator)
        } else {
            finish(Err(AvatarError::OutOfOrder))
        },
        ReplyView::DiscordAvatar { avatar } => if stage is Profile && source
            == Source::DiscordAvatarOnly {
            after_discord_avatar(id, avatar)
        } else {
            finish(Err(AvatarError::OutOfOrder))
        },
        ReplyView::RedditUser { icon_img } => if stage is Profile && source == Source::Reddit {
            after_reddit_user(icon_img)
        } else {
            finish(Err(AvatarError::OutOfOrder))
        },
        ReplyView::Image(b) => if stage is Download {
            after_image(source, id, b)
        } else {
            finish(Err(AvatarError::OutOfOrder))
        },
        ReplyView::Stored => match stage {
            StageView::Storing(b) => finish(Ok(b)),
            _ => finish(Err(AvatarError::OutOfOrder)),
        },
    }
}

/// A service that avatars are fetched from.
pub trait AvatarFetch {
    /// Which service this is.
    spec fn source(&self) -> Source;

    /// How long a fetched avatar stays cached, in seconds.
    fn cache_max_length() -> (r: u64)
        ensures
            r == CACHE_TTL_SECS,
    ;

    /// Starts a fetch of the avatar of `identifier`: the first step is a
    /// cache lookup under `identifier`.
    fn start(&self, identifier: &str) -> (r: (Stage, Request))
        ensures
            r.0@ == StageView::Lookup,
            r.1@ == (RequestView::LookupCache { key: identifier@ }),
    ;

    /// The step after `stage`, given `reply`.
    fn next(&self, identifier: &str, stage: Stage, reply: Reply) -> (r: (Stage, Request))
        ensures
            (r.0@, r.1@) == avatar_next(self.source(), identifier@, stage@, reply@),
    ;
}

/// Ends a fetch with outcome `r`.
fn finished(r: Result<Vec<u8>, AvatarError>) -> (out: (Stage, Request))
    ensures
        (out.0@, out.1@) == finish(
            match r {
                Ok(b) => Ok(b@),
                Err(e) => Err(e),
            },
        ),
{
    (Stage::Finished, Request::Finish(r))
}

/// Ends a fetch with `OutOfOrder`.
fn out_of_order() -> (out: (Stage, Request))
    ensures
        (out.0@, out.1@) == finish(Err(AvatarError::OutOfOrder)),
{
    finished(Err(AvatarError::OutOfOrder))
}

/// The start of a fetch of `identifier`: a cache lookup.
pub fn lookup_first(identifier: &str) -> (r: (Stage, Request))
    ensures
        r.0@ == StageView::Lookup,
        r.1@ == (RequestView::LookupCache { key: identifier@ }),
{
    (Stage::Lookup, Request::LookupCache { key: String::from_str(identifier) })
}

/// The name of the environment variable that holds the Discord bot token.
fn discord_token_name() -> (r: String)
    ensures
        r@ == discord_token_var(),
{
    String::from_str("DISCORD_TOKEN")
}

/// The step after a cache miss.
fn miss_step(source: Source, id: &str) -> (r: (Stage, Request))
    ensures
        (r.0@, r.1@) == after_miss(source, id@),
{
    match source {
        Source::Discord | Source::DiscordAvatarOnly => (
            Stage::Credentials,
            Request::ReadEnv { name: discord_token_name() },
        ),
        Source::Github => (
            Stage::Download,
            Request::GetImage { url: concat3("https://github.com/", id, ".png?size=128") },
        ),
        Source::Gravatar => {
            let key = gravatar_key(id);
            let url = gravatar_url(key.as_str());
            (Stage::Download, Request::GetImage { url })
        },
        Source::Reddit => (
            Stage::Profile,
            Request::GetRedditUser { url: concat3("https://www.reddit.com/user/", id, "/about.json") },
        ),
    }
}

/// The step after the bot token arrived.
fn token_step(source: Source, id: &str, token: String) -> (r: (Stage, Request))
    ensures
        (r.0@, r.1@) == after_token(source, id@, token@),
{
    match source {
        Source::Discord => (
            Stage::Profile,
            Request::GetDiscordUser {
                url: concat2("https://discord.com/api/v9/users/", id),
                authorization: concat2("Bot ", token.as_str()),
            },
        ),
        Source::DiscordAvatarOnly => (
            Stage::Profile,
            Request::GetDiscordAvatar {
                url: concat2("https://discord.com/api/v9/users/", id),
                authorization: concat2("Bot ", token.as_str()),
            },
        ),
        _ => out_of_order(),
    }
}

/// The address of the avatar `hash` of Discord user `id`.
pub fn discord_avatar_address(id: &str, hash: &str) -> (r: String)
    ensures
        r@ == discord_avatar_url(id@, hash@),
{
    let mut r = concat3("https://cdn.discordapp.com/avatars/", id, "/");
    r.append(hash);
    r.append(".png?size=128");
    r
}

/// The address of Discord's default avatar number `index`: the number, in
/// decimal, between the avatars' directory and `.png?size=128`.
pub fn discord_default_avatar_address(index: u64) -> (r: String)
    ensures
        r@ == discord_default_avatar_url(index as nat),
        index <= 65535 ==> default_avatar_number(r@) == Some(index as u16),
{
    let digits = decimal_string(index);
    let r = concat3("https://cdn.discordapp.com/embed/avatars/", digits.as_str(), ".png?size=128");
    proof {
        if index <= 65535 {
            lemma_default_avatar_number(index as u16);
        }
    }
    r
}

/// The step after a Discord user's profile.
fn discord_user_step(id: &str, avatar: Option<String>, discriminator: String) -> (r: (
    Stage,
    Request,
))
    ensures
        (r.0@, r.1@) == after_discord_user(id@, opt_view(avatar), discriminator@),
{
    match avatar {
        Some(hash) => (
            Stage::Download,
            Request::GetImage { url: discord_avatar_address(id, hash.as_str()) },
        ),
        None => match parse_u16(discriminator.as_str()) {
            Some(n) => (
                Stage::Download,
                Request::GetImage { url: discord_default_avatar_address((n % 5) as u64) },
            ),
            None => finished(Err(AvatarError::BadDiscriminator)),
        },
    }
}

/// The step after a Discord user's avatar field.
fn discord_avatar_step(id: &str, avatar: Option<String>) -> (r: (Stage, Request))
    ensures
        (r.0@, r.1@) == after_discord_avatar(id@, opt_view(avatar)),
{
    match avatar {
        Some(hash) => (
            Stage::Download,
            Request::GetImage { url: discord_avatar_address(id, hash.as_str()) },
        ),
        None => finished(Err(AvatarError::NotFound)),
    }
}

/// The step after a Reddit user's icon URL: the download of the icon URL up
/// to its first `?` (the whole URL where it has none), or "not found" where
/// the user has no icon.
fn reddit_user_step(icon_img: Option<String>) -> (r: (Stage, Request))
    ensures
        (r.0@, r.1@) == after_reddit_user(opt_view(icon_img)),
        match icon_img {
            Some(icon) => r.0@ == StageView::Download && is_icon_download(icon@, r.1@),
            None => (r.0@, r.1@) == finish(Err(AvatarError::NotFound)),
        },
{
    match icon_img {
        Some(url) => (Stage::Download, Request::GetImage { url: strip_query(url.as_str()) }),
        None => finished(Err(AvatarError::NotFound)),
    }
}

/// The step after the image arrived.
fn image_step(source: Source, id: &str, image: Vec<u8>) -> (r: (Stage, Request))
    ensures
        (r.0@, r.1@) == after_image(source, id@, image@),
{
    let empty_is_missing = match source {
        Source::Github | Source::Gravatar => true,
        _ => false,
    };
    if empty_is_missing && image.len() == 0 {
        return finished(Err(AvatarError::NotFound));
    }
    let key = match source {
        Source::Gravatar => gravatar_key(id),
        _ => String::from_str(id),
    };
    let kept = image.clone();
    (Stage::Storing(kept), Request::StoreCache { key, image, ttl_secs: CACHE_TTL_SECS })
}

/// The step of a fetch of `id` from `source` after `stage`, given `reply`.
pub fn advance(source: Source, id: &str, stage: Stage, reply: Reply) -> (r: (Stage, Request))
    ensures
        (r.0@, r.1@) == avatar_next(source, id@, stage@, reply@),
{
    match reply {
        Reply::Failed => finished(Err(AvatarError::Transport)),
        Reply::Cached(Some(b)) => match stage {
            Stage::Lookup => finished(Ok(b)),
            _ => out_of_order(),
        },
        Reply::Cached(None) => match stage {
            Stage::Lookup => miss_step(source, id),
            _ => out_of_order(),
        },
        Reply::EnvVar(token) => match stage {
            Stage::Credentials => token_step(source, id, token),
            _ => out_of_order(),
        },
        Reply::DiscordUser { avatar, discriminator } => match (stage, source) {
            (Stage::Profile, Source::Discord) => discord_user_step(id, avatar, discriminator),
            _ => out_of_order(),
        },
        Reply::DiscordAvatar { avatar } => match (stage, source) {
            (Stage::Profile, Source::DiscordAvatarOnly) => discord_avatar_step(id, avatar),
            _ => out_of_order(),
        },
        Reply::RedditUser { icon_img } => match (stage, source) {
            (Stage::Profile, Source::Reddit) => reddit_user_step(icon_img),
            _ => out_of_order(),
        },
        Reply::Image(b) => match stage {
            Stage::Download => image_step(source, id, b),
            _ => out_of_order(),
        },
        Reply::Stored => match stage {
            Stage::Storing(b) => finished(Ok(b)),
            _ => out_of_order(),
        },
    }
}

/// Law: a cache hit ends the fetch at once with the cached avatar, from
/// every source.
pub proof fn law_cache_hit_is_served(source: Source, id: Seq<char>, cached: Seq<u8>)
    ensures
        avatar_next(source, id, StageView::Lookup, ReplyView::Cached(Some(cached))) == finish(
            Ok(cached),
        ),
{
}

/// Law: a fetch only ever hands out an avatar that the cache just gave, or
/// one that it just stored into the cache.
pub proof fn law_served_avatars_are_cached(
    source: Source,
    id: Seq<char>,
    stage: StageView,
    reply: ReplyView,
    image: Seq<u8>,
)
    requires
        avatar_next(source, id, stage, reply).1 == RequestView::Finish(Ok(image)),
    ensures
        (stage == StageView::Lookup && reply == ReplyView::Cached(Some(image))) || (stage
            == StageView::Storing(image) && reply == ReplyView::Stored),
{
}

/// Law: what is stored into the cache is the image just downloaded, under
/// the source's key, for 30 minutes; and the fetch then returns exactly
/// that image once the cache took it.
pub proof fn law_store_then_serve(source: Source, id: Seq<char>, stage: StageView, reply: ReplyView)
    requires
        avatar_next(source, id, stage, reply).1 is StoreCache,
    ensures
        stage == StageView::Download,
        reply is Image,
        avatar_next(source, id, stage, reply).1 == (RequestView::StoreCache {
            key: store_key(source, id),
            image: reply->Image_0,
            ttl_secs: 1800,
        }),
        avatar_next(source, id, avatar_next(source, id, stage, reply).0, ReplyView::Stored) == finish(
            Ok(reply->Image_0),
        ),
{
}

/// Law: a failed request ends every fetch, at every stage, with
/// `Transport`.
pub proof fn law_failure_ends_fetch(source: Source, id: Seq<char>, stage: StageView)
    ensures
        avatar_next(source, id, stage, ReplyView::Failed) == finish(Err(AvatarError::Transport)),
{
}

/// Law: where GitHub or Gravatar answer with an empty body, nothing is
/// stored and the fetch ends with `NotFound`.
pub proof fn law_empty_image_not_found(source: Source, id: Seq<char>)
    requires
        source == Source::Github || source == Source::Gravatar,
    ensures
        avatar_next(source, id, StageView::Download, ReplyView::Image(Seq::empty())) == finish(
            Err(AvatarError::NotFound),
        ),
{
}

/// Law: a Discord user without an avatar gets one of the five default
/// avatars, numbered by the discriminator modulo 5, whenever the
/// discriminator is a decimal `u16`.
pub proof fn law_discord_default_avatar(id: Seq<char>, discriminator: Seq<char>)
    requires
        parsed_u16(discriminator) is Some,
    ensures
        ({
            let (stage, request) = avatar_next(
                Source::Discord,
                id,
                StageView::Profile,
                ReplyView::DiscordUser { avatar: None, discriminator },
            );
            &&& stage == StageView::Download
            &&& request == RequestView::GetImage {
                url: discord_default_avatar_url((parsed_u16(discriminator)->0 % 5) as nat),
            }
            &&& parsed_u16(discriminator)->0 % 5 < 5
        }),
{
}

/// The address of default avatar `n` names `n`.
proof fn lemma_default_avatar_number(n: u16)
    ensures
        default_avatar_number(discord_default_avatar_url(n as nat)) == Some(n),
{
    let head = "https://cdn.discordapp.com/embed/avatars/"@;
    let tail = ".png?size=128"@;
    let d = decimal(n as nat);
    let url = discord_default_avatar_url(n as nat);
    assert(url == head + d + tail);
    assert(url.take(head.len() as int) =~= head);
    assert(url.skip(url.len() - tail.len()) =~= tail);
    assert(url.subrange(head.len() as int, url.len() - tail.len()) =~= d);
    law_u16_round_trip(n);
}

/// Law: a Discord user without an avatar whose discriminator reads as the
/// number `n` gets the default avatar whose address names `n % 5`; so each
/// of the five default avatars goes to the discriminators of its own
/// remainder.
pub proof fn law_discord_default_avatar_number(id: Seq<char>, discriminator: Seq<char>, n: u16)
    requires
        parsed_u16(discriminator) == Some(n),
    ensures
        ({
            let (stage, request) = avatar_next(
                Source::Discord,
                id,
                StageView::Profile,
                ReplyView::DiscordUser { avatar: None, discriminator },
            );
            &&& stage == StageView::Download
            &&& request matches RequestView::GetImage { url } && default_avatar_number(url) == Some(
                (n % 5) as u16,
            )
        }),
{
    lemma_default_avatar_number((n % 5) as u16);
}

/// Law: a Reddit user with an icon has it downloaded, from its URL up to the
/// first `?` (the whole URL where it has no query); the fetch ends with
/// "not found" at the profile only for a user without an icon.
pub proof fn law_reddit_icon_download(id: Seq<char>, icon_img: Option<Seq<char>>)
    ensures
        ({
            let (stage, request) = avatar_next(
                Source::Reddit,
                id,
                StageView::Profile,
                ReplyView::RedditUser { icon_img },
            );
            match icon_img {
                Some(icon) => {
                    &&& stage == StageView::Download
                    &&& is_icon_download(icon, request)
                    &&& (forall|j: int| 0 <= j < icon.len() ==> #[trigger] icon[j] != '?')
                        ==> request == RequestView::GetImage { url: icon }
                },
                None => (stage, request) == finish(Err(AvatarError::NotFound)),
            }
        }),
{
    if let Some(icon) = icon_img {
        law_before_query(icon);
    }
}

} // verus!
