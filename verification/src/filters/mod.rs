//! What the filters share: the error they report, the placement of the
//! squashed avatar on a frame, the composition of one frame, and the GIF
//! encoding of the frames.
use vstd::prelude::*;
use crate::imaging::{
    Looping, Resampling, decoded_rgba8, encode_gif_frames, gif_encoding, gif_preamble, load_image,
    overlaid, overlay_at, resampled, resize,
};
use crate::picture::{
    AnimationFrame, Picture, PictureView, clear_pixel, frames_view, stamp, stamped, transparent,
};

pub mod cancel;
pub mod pet;

verus! {

/// Why a filter could not turn an avatar into an animation.
#[derive(Debug, Clone, Copy, PartialEq, Eq, Structural)]
pub enum FilterError {
    /// The input is not an image that the decoder accepts (PNG, JPEG, GIF).
    Decode,
    /// The GIF encoder reported an error.
    Encode,
    /// The avatar is too wide for the resampler's buffers on this target
    /// (on 64-bit targets no avatar is).
    TooLarge,
}

/// Where and at what size the resized avatar lands on a frame: its size, and
/// the position of its top-left corner on the canvas.
#[derive(Debug, Clone, Copy, PartialEq, Eq, Structural)]
pub struct Placement {
    pub width: u32,
    pub height: u32,
    pub x: i64,
    pub y: i64,
}

/// `a / b` rounded toward zero, as a cast of the quotient to an integer type
/// rounds it.
pub open spec fn trunc_div(a: int, b: int) -> int {
    if a >= 0 {
        a / b
    } else {
        -((-a) / b)
    }
}

/// How far into its squeeze frame `i` of `frames` is: it rises by one per
/// frame up to the middle, then falls back.
pub open spec fn squeeze(i: int, frames: int) -> int {
    if i < frames / 2 {
        i
    } else {
        frames - i
    }
}

/// The avatar's width on a `canvas_width` canvas at squeeze `s`: the canvas
/// width scaled by 0.8 + 0.02 s, that is by (40 + s) / 50.
pub open spec fn squashed_width(canvas_width: int, s: int) -> int {
    trunc_div(canvas_width * (40 + s), 50)
}

/// The avatar's height on a `canvas_height` canvas at squeeze `s`: the canvas
/// height scaled by 0.8 - 0.05 s, that is by (16 - s) / 20.
pub open spec fn squashed_height(canvas_height: int, s: int) -> int {
    trunc_div(canvas_height * (16 - s), 20)
}

/// The avatar's top edge at squeeze `s`: the canvas height scaled by
/// (1 - (0.8 - 0.05 s)) - 0.08, that is by (12 + 5 s) / 100.
pub open spec fn dropped_top(canvas_height: int, s: int) -> int {
    trunc_div(canvas_height * (12 + 5 * s), 100)
}

/// The pixels of `avatar` resized by Lanczos3 resampling to `width` by
/// `height`.
pub open spec fn resized_pixels(avatar: PictureView, width: u32, height: u32) -> Seq<[u8; 4]> {
    resampled(avatar, width, height, Resampling::Lanczos3)
}

/// `avatar` resized by Lanczos3 resampling to `width` by `height`.
pub open spec fn resized_view(avatar: PictureView, width: u32, height: u32) -> PictureView {
    PictureView { width, height, pixels: resized_pixels(avatar, width, height) }
}

/// One frame: `avatar` resized to the placement's size and overlaid on a
/// transparent `canvas_width` by `canvas_height` canvas at the placement's
/// position, then `sprite` stamped over it.
pub open spec fn composed(
    avatar: PictureView,
    canvas_width: u32,
    canvas_height: u32,
    place: Placement,
    sprite: PictureView,
) -> PictureView {
    stamped(
        PictureView {
            width: canvas_width,
            height: canvas_height,
            pixels: overlaid(
                transparent(canvas_width, canvas_height),
                resized_view(avatar, place.width, place.height),
                place.x,
                place.y,
            ),
        },
        sprite,
    )
}

/// The animation that the GIF encoder makes of `frames` at speed 5, looping
/// forever, or `Encode` where it fails.
pub open spec fn gif_of(frames: Seq<(PictureView, u32)>) -> Result<Seq<u8>, FilterError> {
    match gif_encoding(frames, 5, Looping::Forever) {
        Some(b) => Ok(b),
        None => Err(FilterError::Encode),
    }
}

/// What a filter makes of the image `png`, given the frames it makes of a
/// decoded avatar on a canvas `canvas_height` high: `Decode` where the image
/// does not decode, `TooLarge` where the avatar is too wide to resample.
pub open spec fn animation_of(
    png: Seq<u8>,
    canvas_height: u32,
    frames: spec_fn(PictureView) -> Seq<(PictureView, u32)>,
) -> Result<Seq<u8>, FilterError> {
    match decoded_rgba8(png) {
        Some(avatar) => if fits_resampler(avatar.width, canvas_height) {
            gif_of(frames(avatar))
        } else {
            Err(FilterError::TooLarge)
        },
        None => Err(FilterError::Decode),
    }
}

/// Resampling a picture `width` wide to at most `height` rows keeps the
/// resampler's buffers within the length that `ImageBuffer::new` allows.
pub open spec fn fits_resampler(width: u32, height: u32) -> bool {
    4 * (width as int) * (height as int) <= usize::MAX
}

/// The filter's animation of `png` succeeds: the image decodes, and the
/// avatar is narrow enough to resample to `canvas_height` rows.
pub open spec fn accepts(png: Seq<u8>, canvas_height: u32) -> bool {
    decoded_rgba8(png) matches Some(avatar) && fits_resampler(avatar.width, canvas_height)
}

/// Whether resampling a picture `width` wide to at most `height` rows keeps
/// the resampler's buffers within the length limit.
pub fn within_resampler(width: u32, height: u32) -> (b: bool)
    ensures
        b == fits_resampler(width, height),
{
    assert((width as u128) * 4 * (height as u128) <= 0xffff_ffff * 4 * 0xffff_ffff) by (nonlinear_arith)
        requires
            width <= 0xffff_ffffu32,
            height <= 0xffff_ffffu32,
    ;
    (width as u128) * 4 * (height as u128) <= usize::MAX as u128
}

/// What a frame shows at pixel `k` where the avatar does not reach: the
/// sprite's pixel where the sprite reaches and is not fully transparent,
/// and a fully transparent pixel elsewhere.
pub open spec fn backdrop(sprite: PictureView, k: int) -> [u8; 4] {
    over(sprite, k, clear_pixel())
}

/// What a frame shows at pixel `k` where `under` lies beneath the sprite:
/// the sprite's pixel where the sprite reaches and is not fully
/// transparent, and `under` elsewhere.
pub open spec fn over(sprite: PictureView, k: int, under: [u8; 4]) -> [u8; 4] {
    if k < sprite.pixels.len() && sprite.alpha(k) != 0 {
        sprite.pixels[k]
    } else {
        under
    }
}

/// A filter's result as a mathematical value.
pub open spec fn bytes_result(r: Result<Vec<u8>, FilterError>) -> Result<Seq<u8>, FilterError> {
    match r {
        Ok(b) => Ok(b@),
        Err(e) => Err(e),
    }
}

/// A filter that turns an avatar image into an animated GIF.
pub trait ImageFilter {
    /// What the filter makes of the image bytes `png`.
    spec fn filtered(&self, png: Seq<u8>) -> Result<Seq<u8>, FilterError>;

    /// Turns the avatar image `png` (PNG, JPEG or GIF) into the GIF bytes of
    /// the animation.
    fn convert_bytes(&self, png: &[u8]) -> (r: Result<Vec<u8>, FilterError>)
        ensures
            bytes_result(r) == self.filtered(png@),
    ;
}

/// Makes one frame: `avatar` resized to the placement's size, overlaid on a
/// transparent canvas at the placement's position, and `sprite` stamped
/// over it. Where the sprite is not fully transparent the frame shows the
/// sprite. Elsewhere it is transparent outside the rectangle of the placed
/// avatar, and inside it shows a fully opaque pixel of the resized avatar
/// as is and leaves a fully transparent one transparent.
pub fn compose_frame(
    avatar: &Picture,
    canvas_width: u32,
    canvas_height: u32,
    place: Placement,
    sprite: &Picture,
) -> (r: Picture)
    requires
        avatar@.wf(),
        4 * (place.width as int) * (place.height as int) <= usize::MAX,
        4 * (avatar.width as int) * (place.height as int) <= usize::MAX,
        canvas_width as int * canvas_height as int <= usize::MAX,
    ensures
        r@ == composed(avatar@, canvas_width, canvas_height, place, sprite@),
        r@.wf(),
        forall|px: int, py: int|
            0 <= px < canvas_width && 0 <= py < canvas_height && place.x <= px < place.x
                + place.width && place.y <= py < place.y + place.height ==> {
                &&& resized_pixels(avatar@, place.width, place.height)[(py - place.y) * place.width
                    + (px - place.x)][3] == 0 ==> #[trigger] r.pixels@[py * canvas_width + px]
                    == backdrop(sprite@, py * canvas_width + px)
                &&& resized_pixels(avatar@, place.width, place.height)[(py - place.y) * place.width
                    + (px - place.x)][3] == 255 ==> r.pixels@[py * canvas_width + px] == over(
                    sprite@,
                    py * canvas_width + px,
                    resized_pixels(avatar@, place.width, place.height)[(py - place.y) * place.width
                        + (px - place.x)],
                )
            },
        forall|px: int, py: int|
            0 <= px < canvas_width && 0 <= py < canvas_height && !(place.x <= px < place.x
                + place.width && place.y <= py < place.y + place.height) ==> #[trigger] r.pixels@[py
                * canvas_width + px] == backdrop(sprite@, py * canvas_width + px),
{
    let resized = resize(avatar, place.width, place.height, Resampling::Lanczos3);
    let canvas = Picture::transparent(canvas_width, canvas_height);
    let ghost blank = canvas@;
    let layered = overlay_at(canvas, &resized, place.x, place.y);
    let ghost mid = layered@;
    let r = stamp(layered, sprite);
    assert forall|px: int, py: int|
        0 <= px < canvas_width && 0 <= py < canvas_height && !(place.x <= px < place.x
            + place.width && place.y <= py < place.y + place.height) implies #[trigger] r.pixels@[py
            * canvas_width + px] == backdrop(sprite@, py * canvas_width + px) by {
        let k = py * canvas_width + px;
        assert(0 <= k < canvas_width as int * canvas_height as int) by (nonlinear_arith)
            requires
                0 <= px < canvas_width,
                0 <= py < canvas_height,
                k == py * canvas_width + px,
        ;
        assert(mid.pixels[k] == blank.pixels[k]);
    }
    assert forall|px: int, py: int|
        0 <= px < canvas_width && 0 <= py < canvas_height && place.x <= px < place.x + place.width
            && place.y <= py < place.y + place.height implies {
            &&& resized_pixels(avatar@, place.width, place.height)[(py - place.y) * place.width + (px
                - place.x)][3] == 0 ==> #[trigger] r.pixels@[py * canvas_width + px] == backdrop(
                sprite@,
                py * canvas_width + px,
            )
            &&& resized_pixels(avatar@, place.width, place.height)[(py - place.y) * place.width + (px
                - place.x)][3] == 255 ==> r.pixels@[py * canvas_width + px] == over(
                sprite@,
                py * canvas_width + px,
                resized_pixels(avatar@, place.width, place.height)[(py - place.y) * place.width + (px
                    - place.x)],
            )
        } by {
        let k = py * canvas_width + px;
        assert(0 <= k < canvas_width as int * canvas_height as int) by (nonlinear_arith)
            requires
                0 <= px < canvas_width,
                0 <= py < canvas_height,
                k == py * canvas_width + px,
        ;
        assert(blank.pixels[k] == clear_pixel());
    }
    r
}

/// Decodes a picture (the avatar, or a sprite) from the bytes of an image
/// in a format the decoder recognises.
pub fn decode_picture(bytes: &[u8]) -> (r: Result<Picture, FilterError>)
    ensures
        match r {
            Ok(p) => decoded_rgba8(bytes@) == Some(p@) && p@.wf(),
            Err(e) => e == FilterError::Decode && decoded_rgba8(bytes@) is None,
        },
{
    match load_image(bytes) {
        Ok(p) => Ok(p),
        Err(_) => Err(FilterError::Decode),
    }
}

/// Encodes `frames` as a GIF that loops forever, at the given encoder
/// speed (1 is the best quality, 30 the fastest). It succeeds whenever every
/// frame's sides are at most 65535 pixels (0 included); a GIF of at least
/// one frame starts with the preamble for the first frame's size and ends
/// with the trailer.
pub fn encode_gif(frames: &Vec<AnimationFrame>, speed: i32) -> (r: Result<Vec<u8>, FilterError>)
    requires
        1 <= speed <= 30,
        forall|i: int| 0 <= i < frames@.len() ==> (#[trigger] frames@[i]).picture@.wf(),
    ensures
        match r {
            Ok(b) => gif_encoding(frames_view(frames@), speed, Looping::Forever) == Some(b@),
            Err(e) => e == FilterError::Encode && gif_encoding(frames_view(frames@), speed, Looping::Forever) is None,
        },
        (forall|i: int|
            0 <= i < frames@.len() ==> (#[trigger] frames@[i]).picture.width <= 65535 && frames@[i].picture.height
                <= 65535) ==> r is Ok,
        r matches Ok(b) ==> frames@.len() > 0 ==> {
            let pre = gif_preamble(frames@[0].picture.width, frames@[0].picture.height, Looping::Forever);
            &&& b@.len() > pre.len()
            &&& b@.take(pre.len() as int) == pre
            &&& b@.last() == 0x3b
        },
{
    match encode_gif_frames(frames, speed, Looping::Forever) {
        Ok(b) => Ok(b),
        Err(_) => Err(FilterError::Encode),
    }
}

} // verus!
