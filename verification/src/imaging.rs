//! The calls into the `image` crate: decoding an image, resampling,
//! overlaying one picture on another, and encoding an animated GIF. Each is
//! a trusted wrapper; what it returns is named where the crate's source
//! computes it with floating point or a codec.
use vstd::prelude::*;
use image::codecs::gif::{GifEncoder, Repeat};
use image::imageops::FilterType;
use crate::picture::{AnimationFrame, Picture, PictureView, frames_view};

verus! {

/// The error type of the `image` crate, carried through opaquely.
#[verifier::external_type_specification]
#[verifier::external_body]
pub struct ExImageError(image::ImageError);

/// The resampling filters of `image::imageops::FilterType`, one for one.
#[derive(Debug, Clone, Copy, PartialEq, Eq, Structural)]
pub enum Resampling {
    Nearest,
    Triangle,
    CatmullRom,
    Gaussian,
    Lanczos3,
}

/// How often an animated GIF plays: forever, or a number of times.
#[derive(Debug, Clone, Copy, PartialEq, Eq, Structural)]
pub enum Looping {
    Forever,
    Times(u16),
}

/// The RGBA picture that `image::load_from_memory(bytes)` decodes, in the
/// format it recognises by the first bytes (PNG, JPEG or GIF here),
/// converted with `to_rgba8`; `None` where the decoder refuses the bytes.
pub uninterp spec fn decoded_rgba8(bytes: Seq<u8>) -> Option<PictureView>;

/// The pixels that `image::imageops::resize(img, width, height, filter)`
/// computes. The crate weighs the source pixels in `f32` arithmetic (the
/// Lanczos kernel through `f32::sin`), so the name holds for one build of
/// the program; another math library may round a weight differently.
pub uninterp spec fn resampled(img: PictureView, width: u32, height: u32, filter: Resampling) -> Seq<
    [u8; 4],
>;

/// The pixels of `bottom` after `image::imageops::overlay(bottom, top, x, y)`,
/// which alpha-blends `top` onto `bottom` with its top-left corner at `(x, y)`.
pub uninterp spec fn overlaid(bottom: PictureView, top: PictureView, x: i64, y: i64) -> Seq<[u8; 4]>;

/// The bytes that an `image::codecs::gif::GifEncoder` made with
/// `new_with_speed(_, speed)` and set to repeat as `looping` says writes for
/// `frames` (each placed at the top-left corner, shown for its delay in
/// milliseconds); `None` where the encoder reports an error.
pub uninterp spec fn gif_encoding(frames: Seq<(PictureView, u32)>, speed: i32, looping: Looping) -> Option<
    Seq<u8>,
>;

/// The bytes of `n` in little-endian order.
pub open spec fn le16(n: int) -> Seq<u8> {
    seq![(n % 256) as u8, (n / 256) as u8]
}

/// The NETSCAPE2.0 application extension that makes a GIF play `count`
/// times after the first (0 for forever).
pub open spec fn netscape_loop(count: u16) -> Seq<u8> {
    seq![0x21u8, 0xff, 0x0b, 0x4e, 0x45, 0x54, 0x53, 0x43, 0x41, 0x50, 0x45, 0x32, 0x2e, 0x30, 0x03, 0x01]
        + le16(count as int) + seq![0x00u8]
}

/// What a GIF that the encoder writes starts with: the signature `GIF89a`,
/// the logical screen of the first frame's size with an empty global colour
/// table (flags 0x80, padded to two black entries), and the loop extension
/// (none for `Times(0)`).
pub open spec fn gif_preamble(width: u32, height: u32, looping: Looping) -> Seq<u8> {
    seq![0x47u8, 0x49, 0x46, 0x38, 0x39, 0x61] + le16(width as int) + le16(height as int) + seq![
        0x80u8,
        0x00,
        0x00,
        0x00,
        0x00,
        0x00,
        0x00,
        0x00,
        0x00,
    ] + match looping {
        Looping::Forever => netscape_loop(0),
        Looping::Times(n) => if n == 0 {
            Seq::empty()
        } else {
            netscape_loop(n)
        },
    }
}

/// Calls `image::load_from_memory`, which recognises the format by the
/// first bytes, and converts the result with `to_rgba8`. Claimed: on success
/// the picture is the named decoding and holds `width * height` pixels; on
/// failure the named decoding is `None`. Which error comes back is left
/// unsaid.
#[verifier::external_body]
pub(crate) fn load_image(bytes: &[u8]) -> (r: Result<Picture, image::ImageError>)
    ensures
        match r {
            Ok(p) => decoded_rgba8(bytes@) == Some(p@) && p@.wf(),
            Err(_) => decoded_rgba8(bytes@) is None,
        },
{
    let img = image::load_from_memory(bytes)?.to_rgba8();
    Ok(Picture { width: img.width(), height: img.height(), pixels: img.pixels().map(|p| p.0).collect() })
}

/// Calls `image::imageops::resize` with the given filter. Claimed: the
/// result has the size asked for (the function's documented purpose) and
/// the named pixels, which are those of `img` where the size asked for is
/// its own (the crate then copies the picture). The requirements keep the buffers that the crate
/// allocates (the result, and a float buffer as wide as `img` and as high as
/// the result) within `ImageBuffer::new`'s length limit, where it panics.
#[verifier::external_body]
pub(crate) fn resize(img: &Picture, width: u32, height: u32, filter: Resampling) -> (r: Picture)
    requires
        img@.wf(),
        4 * (width as int) * (height as int) <= usize::MAX,
        4 * (img.width as int) * (height as int) <= usize::MAX,
    ensures
        r.width == width,
        r.height == height,
        r.pixels@ == resampled(img@, width, height, filter),
        r@.wf(),
        width == img.width && height == img.height ==> r.pixels@ == img.pixels@,
{
    let src = image::RgbaImage::from_raw(img.width, img.height, img.pixels.concat()).unwrap();
    let kind = match filter {
        Resampling::Nearest => FilterType::Nearest,
        Resampling::Triangle => FilterType::Triangle,
        Resampling::CatmullRom => FilterType::CatmullRom,
        Resampling::Gaussian => FilterType::Gaussian,
        Resampling::Lanczos3 => FilterType::Lanczos3,
    };
    let out = image::imageops::resize(&src, width, height, kind);
    Picture { width: out.width(), height: out.height(), pixels: out.pixels().map(|p| p.0).collect() }
}

/// Calls `image::imageops::overlay(bottom, top, x, y)`. Claimed: `bottom`
/// keeps its size and gets the named pixels; every pixel of `bottom` outside
/// the rectangle that `top` covers at `(x, y)` is left as it was (the crate
/// only visits the clipped overlap); and inside it, where the covering pixel
/// of `top` has alpha 0 the pixel is left as it was, and where it has alpha
/// 255 it becomes that pixel (`Rgba::blend` returns early in both cases).
#[verifier::external_body]
pub(crate) fn overlay_at(bottom: Picture, top: &Picture, x: i64, y: i64) -> (r: Picture)
    requires
        bottom@.wf(),
        top@.wf(),
    ensures
        r.width == bottom.width,
        r.height == bottom.height,
        r.pixels@ == overlaid(bottom@, top@, x, y),
        r@.wf(),
        forall|px: int, py: int|
            0 <= px < bottom.width && 0 <= py < bottom.height && !(x <= px < x + top.width && y
                <= py < y + top.height) ==> #[trigger] r.pixels@[py * bottom.width + px]
                == bottom.pixels@[py * bottom.width + px],
        forall|px: int, py: int|
            0 <= px < bottom.width && 0 <= py < bottom.height && x <= px < x + top.width && y <= py
                < y + top.height ==> {
                &&& top.pixels@[(py - y) * top.width + (px - x)][3] == 0 ==> #[trigger] r.pixels@[py
                    * bottom.width + px] == bottom.pixels@[py * bottom.width + px]
                &&& top.pixels@[(py - y) * top.width + (px - x)][3] == 255 ==> r.pixels@[py
                    * bottom.width + px] == top.pixels@[(py - y) * top.width + (px - x)]
            },
{
    let mut canvas = image::RgbaImage::from_raw(bottom.width, bottom.height, bottom.pixels.concat()).unwrap();
    let layer = image::RgbaImage::from_raw(top.width, top.height, top.pixels.concat()).unwrap();
    image::imageops::overlay(&mut canvas, &layer, x, y);
    Picture { width: bottom.width, height: bottom.height, pixels: canvas.pixels().map(|p| p.0).collect() }
}

/// Encodes `frames` as an animated GIF through `GifEncoder::new_with_speed`,
/// `set_repeat` and `encode_frames`, each frame made with
/// `Frame::from_parts(_, 0, 0, Delay::from_numer_denom_ms(delay_ms, 1))`.
/// Claimed: the bytes written, or `None` on an error, are the named
/// encoding; the encoder fails only on a side above 65535 (writing to a
/// `Vec` cannot fail, and a side of 0 gives an empty frame), so frames whose
/// sides are at most 65535 succeed; and a GIF of at least one frame starts
/// with the preamble for the first frame's size and ends with the trailer byte 0x3b (written as the encoder drops).
/// `new_with_speed` panics outside speeds 1 to 30, which the requirement
/// leaves out.
#[verifier::external_body]
pub(crate) fn encode_gif_frames(frames: &Vec<AnimationFrame>, speed: i32, looping: Looping) -> (r:
    Result<Vec<u8>, image::ImageError>)
    requires
        1 <= speed <= 30,
        forall|i: int| 0 <= i < frames@.len() ==> (#[trigger] frames@[i]).picture@.wf(),
    ensures
        match r {
            Ok(b) => gif_encoding(frames_view(frames@), speed, looping) == Some(b@),
            Err(_) => gif_encoding(frames_view(frames@), speed, looping) is None,
        },
        (forall|i: int|
            0 <= i < frames@.len() ==> (#[trigger] frames@[i]).picture.width <= 65535 && frames@[i].picture.height
                <= 65535) ==> r is Ok,
        r matches Ok(b) ==> frames@.len() > 0 ==> {
            let pre = gif_preamble(frames@[0].picture.width, frames@[0].picture.height, looping);
            &&& b@.len() > pre.len()
            &&& b@.take(pre.len() as int) == pre
            &&& b@.last() == 0x3b
        },
{
    let mut buf: Vec<u8> = Vec::new();
    let repeat = match looping { Looping::Forever => Repeat::Infinite, Looping::Times(n) => Repeat::Finite(n) };
    {
        let mut encoder = GifEncoder::new_with_speed(&mut buf, speed);
        encoder.set_repeat(repeat)?;
        encoder.encode_frames(frames.iter().map(|f| image::Frame::from_parts(
            image::RgbaImage::from_raw(f.picture.width, f.picture.height, f.picture.pixels.concat()).unwrap(),
            0, 0, image::Delay::from_numer_denom_ms(f.delay_ms, 1))))?;
    }
    Ok(buf)
}

} // verus!
