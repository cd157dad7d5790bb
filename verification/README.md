# pfpet

Animated GIFs of users' avatars: the avatar of a Discord, GitHub, Reddit or
Gravatar user is fetched, then petted, bonked or cancelled.

| URL                           | Answer                                  |
| ----------------------------- | --------------------------------------- |
| `/d/{id}.gif`                 | a Discord user's avatar, petted         |
| `/d/bonk/{id}.gif`            | a Discord user's avatar, bonked         |
| `/d/cancel/{id}.gif`          | a Discord user's avatar, cancelled      |
| `/gh/...`, `/ru/...`, `/ga/...` | the same for GitHub, Reddit, Gravatar |

## Layout

- `src/` is the library, verified with Verus:
  - `text.rs`: decimal and hexadecimal notation, the parse of a `u16`, the
    cut of a URL at its query, trimming;
  - `picture.rs`: RGBA pictures and the stamp of a sprite over a canvas;
  - `imaging.rs`: the calls into the `image` crate (decoding an image in
    the format its first bytes show, so Gravatar's JPEG avatars too;
    resampling; overlay; GIF encoding);
  - `filters/` and `bonk.rs`: the pet, cancel and bonk animations;
  - `avatars/`: fetching an avatar as a state machine (cache lookup,
    requests, cache store), one service per module;
  - `handler.rs`, `service.rs`: the HTTP answer and the caching header.
- `app/` is the web server around it: actix routes, HTTP requests with
  `awc`, the caches (`retainer`), JSON decoding, and the sprites, read from
  `res/` at start-up.
- `tests/` runs the library on concrete values.
