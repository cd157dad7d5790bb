use pfpet::avatars::discord::Discord;
use pfpet::avatars::github::Github;
use pfpet::avatars::gravatar::{gravatar_key, gravatar_url, Gravatar};
use pfpet::avatars::reddit::Reddit;
use pfpet::avatars::{
    advance, discord_avatar_address, discord_default_avatar_address, AvatarError, AvatarFetch,
    Reply, Request, Source, Stage,
};

fn expect_image_url(r: (Stage, Request)) -> String {
    assert!(matches!(r.0, Stage::Download));
    match r.1 {
        Request::GetImage { url } => url,
        _ => panic!("expected an image request"),
    }
}

fn expect_finish(r: (Stage, Request)) -> Result<Vec<u8>, AvatarError> {
    assert!(matches!(r.0, Stage::Finished));
    match r.1 {
        Request::Finish(out) => out,
        _ => panic!("expected the end of the fetch"),
    }
}

fn expect_store(r: (Stage, Request)) -> (Stage, String, Vec<u8>, u64) {
    match r.1 {
        Request::StoreCache { key, image, ttl_secs } => (r.0, key, image, ttl_secs),
        _ => panic!("expected a cache store"),
    }
}

#[test]
fn every_fetch_starts_with_a_cache_lookup() {
    for r in [
        Discord.start("80351110224678912"),
        Github.start("octocat"),
        Gravatar.start("test@example.com"),
        Reddit.start("spez"),
    ] {
        assert!(matches!(r.0, Stage::Lookup));
        assert!(matches!(r.1, Request::LookupCache { .. }));
    }
    match Github.start("octocat").1 {
        Request::LookupCache { key } => assert_eq!(key, "octocat"),
        _ => unreachable!(),
    }
}

#[test]
fn cache_hit_is_served_at_once() {
    let r = Github.next("octocat", Stage::Lookup, Reply::Cached(Some(vec![1, 2, 3])));
    assert_eq!(expect_finish(r), Ok(vec![1, 2, 3]));
    let r = Discord.next("1", Stage::Lookup, Reply::Cached(Some(vec![9])));
    assert_eq!(expect_finish(r), Ok(vec![9]));
}

#[test]
fn cache_max_length_is_half_an_hour() {
    assert_eq!(Discord::cache_max_length(), 1800);
    assert_eq!(Github::cache_max_length(), 1800);
    assert_eq!(Gravatar::cache_max_length(), 1800);
    assert_eq!(Reddit::cache_max_length(), 1800);
}

#[test]
fn discord_fetch_with_avatar() {
    let id = "80351110224678912";
    let r = Discord.next(id, Stage::Lookup, Reply::Cached(None));
    assert!(matches!(r.0, Stage::Credentials));
    match r.1 {
        Request::ReadEnv { name } => assert_eq!(name, "DISCORD_TOKEN"),
        _ => panic!("expected the token"),
    }
    let r = Discord.next(id, r.0, Reply::EnvVar("tok123".to_string()));
    assert!(matches!(r.0, Stage::Profile));
    match r.1 {
        Request::GetDiscordUser { url, authorization } => {
            assert_eq!(url, "https://discord.com/api/v9/users/80351110224678912");
            assert_eq!(authorization, "Bot tok123");
        }
        _ => panic!("expected the user request"),
    }
    let r = Discord.next(
        id,
        Stage::Profile,
        Reply::DiscordUser { avatar: Some("8342729096ea3675442027381ff50dfe".to_string()), discriminator: "1337".to_string() },
    );
    assert_eq!(
        expect_image_url(r),
        "https://cdn.discordapp.com/avatars/80351110224678912/8342729096ea3675442027381ff50dfe.png?size=128"
    );
    let r = Discord.next(id, Stage::Download, Reply::Image(vec![7, 7]));
    let (stage, key, image, ttl) = expect_store(r);
    assert_eq!((key.as_str(), image.clone(), ttl), (id, vec![7, 7], 1800));
    let r = Discord.next(id, stage, Reply::Stored);
    assert_eq!(expect_finish(r), Ok(vec![7, 7]));
}

#[test]
fn discord_default_avatar_by_discriminator() {
    let r = Discord.next("1", Stage::Profile, Reply::DiscordUser { avatar: None, discriminator: "1234".to_string() });
    assert_eq!(expect_image_url(r), "https://cdn.discordapp.com/embed/avatars/4.png?size=128");
    let r = Discord.next("1", Stage::Profile, Reply::DiscordUser { avatar: None, discriminator: "0005".to_string() });
    assert_eq!(expect_image_url(r), "https://cdn.discordapp.com/embed/avatars/0.png?size=128");
    let r = Discord.next("1", Stage::Profile, Reply::DiscordUser { avatar: None, discriminator: "0".to_string() });
    assert_eq!(expect_image_url(r), "https://cdn.discordapp.com/embed/avatars/0.png?size=128");
}

#[test]
fn discord_bad_discriminator() {
    for d in ["abc", "", "70000", "-3"] {
        let r = Discord.next("1", Stage::Profile, Reply::DiscordUser { avatar: None, discriminator: d.to_string() });
        assert_eq!(expect_finish(r), Err(AvatarError::BadDiscriminator));
    }
}

#[test]
fn discord_avatar_only_source() {
    let r = advance(Source::DiscordAvatarOnly, "42", Stage::Credentials, Reply::EnvVar("t".to_string()));
    match r.1 {
        Request::GetDiscordAvatar { url, authorization } => {
            assert_eq!(url, "https://discord.com/api/v9/users/42");
            assert_eq!(authorization, "Bot t");
        }
        _ => panic!("expected the avatar request"),
    }
    let r = advance(Source::DiscordAvatarOnly, "42", Stage::Profile, Reply::DiscordAvatar { avatar: None });
    assert_eq!(expect_finish(r), Err(AvatarError::NotFound));
    let r = advance(Source::DiscordAvatarOnly, "42", Stage::Profile, Reply::DiscordAvatar { avatar: Some("h".to_string()) });
    assert_eq!(expect_image_url(r), "https://cdn.discordapp.com/avatars/42/h.png?size=128");
}

#[test]
fn github_fetch() {
    let r = Github.next("octocat", Stage::Lookup, Reply::Cached(None));
    assert_eq!(expect_image_url(r), "https://github.com/octocat.png?size=128");
    let r = Github.next("octocat", Stage::Download, Reply::Image(vec![]));
    assert_eq!(expect_finish(r), Err(AvatarError::NotFound));
    let r = Github.next("octocat", Stage::Download, Reply::Image(vec![1]));
    let (_, key, image, ttl) = expect_store(r);
    assert_eq!((key.as_str(), image, ttl), ("octocat", vec![1], 1800));
}

#[test]
fn gravatar_key_is_md5_of_trimmed_lower_case_address() {
    assert_eq!(gravatar_key("  Test@Example.COM \n"), "55502f40dc8b7c769880b10874abc9d0");
    assert_eq!(gravatar_key("foo@bar.com"), "f3ada405ce890b6f8204094deb12d8a8");
    assert_eq!(gravatar_key(""), "d41d8cd98f00b204e9800998ecf8427e");
    assert_eq!(gravatar_url("abc"), "https://www.gravatar.com/avatar/abc.jpg?size=128");
}

#[test]
fn gravatar_fetch_stores_under_the_digest() {
    let email = "Test@Example.com";
    let r = Gravatar.next(email, Stage::Lookup, Reply::Cached(None));
    assert_eq!(expect_image_url(r), "https://www.gravatar.com/avatar/55502f40dc8b7c769880b10874abc9d0.jpg?size=128");
    let r = Gravatar.next(email, Stage::Download, Reply::Image(vec![]));
    assert_eq!(expect_finish(r), Err(AvatarError::NotFound));
    let r = Gravatar.next(email, Stage::Download, Reply::Image(vec![5, 6]));
    let (_, key, _, ttl) = expect_store(r);
    assert_eq!((key.as_str(), ttl), ("55502f40dc8b7c769880b10874abc9d0", 1800));
}

#[test]
fn reddit_fetch() {
    let r = Reddit.next("spez", Stage::Lookup, Reply::Cached(None));
    assert!(matches!(r.0, Stage::Profile));
    match r.1 {
        Request::GetRedditUser { url } => assert_eq!(url, "https://www.reddit.com/user/spez/about.json"),
        _ => panic!("expected the user request"),
    }
    let r = Reddit.next("spez", Stage::Profile, Reply::RedditUser { icon_img: None });
    assert_eq!(expect_finish(r), Err(AvatarError::NotFound));
    let r = Reddit.next(
        "spez",
        Stage::Profile,
        Reply::RedditUser { icon_img: Some("https://styles.redditmedia.com/t5_1/icon.png?width=256&s=x".to_string()) },
    );
    assert_eq!(expect_image_url(r), "https://styles.redditmedia.com/t5_1/icon.png");
    let r = Reddit.next("spez", Stage::Download, Reply::Image(vec![]));
    let (_, key, image, _) = expect_store(r);
    assert_eq!((key.as_str(), image.len()), ("spez", 0));
}

#[test]
fn failures_and_stray_replies_end_the_fetch() {
    let r = Reddit.next("spez", Stage::Profile, Reply::Failed);
    assert_eq!(expect_finish(r), Err(AvatarError::Transport));
    let r = Github.next("octocat", Stage::Lookup, Reply::Image(vec![1]));
    assert_eq!(expect_finish(r), Err(AvatarError::OutOfOrder));
    let r = Github.next("octocat", Stage::Profile, Reply::RedditUser { icon_img: None });
    assert_eq!(expect_finish(r), Err(AvatarError::OutOfOrder));
    let r = Reddit.next("spez", Stage::Download, Reply::Stored);
    assert_eq!(expect_finish(r), Err(AvatarError::OutOfOrder));
    let r = Github.next("octocat", Stage::Credentials, Reply::EnvVar("t".to_string()));
    assert_eq!(expect_finish(r), Err(AvatarError::OutOfOrder));
}

#[test]
fn discord_addresses() {
    assert_eq!(discord_avatar_address("1", "abc"), "https://cdn.discordapp.com/avatars/1/abc.png?size=128");
    assert_eq!(discord_default_avatar_address(3), "https://cdn.discordapp.com/embed/avatars/3.png?size=128");
}

#[test]
fn gravatar_ignores_surrounding_space() {
    for email in ["a@b.c", " a@b.c", "a@b.c\t", "\u{2003}a@b.c\n"] {
        assert_eq!(gravatar_key(email), gravatar_key(email.trim()));
        assert_eq!(gravatar_key(email), gravatar_key("a@b.c"));
    }
}
