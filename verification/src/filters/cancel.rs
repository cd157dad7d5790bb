//! The cancel filter: a single frame with the "no" sign over the avatar.
use vstd::prelude::*;
use crate::filters::{
    FilterError, ImageFilter, Placement, accepts, animation_of, backdrop, over, resized_pixels, fits_resampler, within_resampler, bytes_result, compose_frame, composed,
    decode_picture, encode_gif,
};
use crate::imaging::{Looping, decoded_rgba8, gif_preamble};
use crate::picture::{AnimationFrame, Picture, PictureView, frames_view};

verus! {

/// The side of the square cancel canvas, in pixels.
pub const CANCEL_SIZE: u32 = 113;

/// How long the cancel frame shows, in milliseconds.
pub const CANCEL_DELAY_MS: u32 = 1;

/// The avatar fills the whole cancel canvas.
pub open spec fn cancel_layout() -> Placement {
    Placement { width: 113, height: 113, x: 0, y: 0 }
}

/// The single cancel frame of `avatar`, shown for 1 ms.
pub open spec fn cancel_frames(avatar: PictureView, mark: PictureView) -> Seq<(PictureView, u32)> {
    seq![(composed(avatar, 113, 113, cancel_layout(), mark), 1u32)]
}

/// The cancel filter, with the sign laid over the avatar.
#[derive(Clone)]
pub struct Cancel {
    mark: Picture,
}

impl Cancel {
    /// The sign sprite.
    pub closed spec fn mark(&self) -> PictureView {
        self.mark@
    }

    /// A cancel filter with the given sign sprite.
    pub fn new(mark: Picture) -> (r: Cancel)
        ensures
            r.mark() == mark@,
    {
        Cancel { mark }
    }

    /// A cancel filter with the sign sprite decoded from a PNG; `Decode`
    /// where it does not decode.
    pub fn from_png(png: &[u8]) -> (r: Result<Cancel, FilterError>)
        ensures
            match r {
                Ok(c) => decoded_rgba8(png@) == Some(c.mark()),
                Err(e) => e == FilterError::Decode && decoded_rgba8(png@) is None,
            },
    {
        match decode_picture(png) {
            Ok(mark) => Ok(Cancel { mark }),
            Err(e) => Err(e),
        }
    }

    /// The single cancel frame of `avatar`: where the sign is not fully
    /// transparent it shows the sign; elsewhere it shows a fully opaque pixel
    /// of the avatar resized to 113 by 113 as is, and leaves a fully
    /// transparent one transparent.
    pub fn generate(&self, avatar: &Picture) -> (frames: Vec<AnimationFrame>)
        requires
            avatar@.wf(),
            fits_resampler(avatar.width, CANCEL_SIZE),
        ensures
            frames_view(frames@) == cancel_frames(avatar@, self.mark()),
            forall|i: int| 0 <= i < frames@.len() ==> (#[trigger] frames@[i]).picture@.wf(),
            forall|i: int|
                0 <= i < frames@.len() ==> (#[trigger] frames@[i]).picture.width == CANCEL_SIZE
                    && frames@[i].picture.height == CANCEL_SIZE,
            forall|px: int, py: int|
                0 <= px < 113 && 0 <= py < 113 ==> {
                    &&& resized_pixels(avatar@, 113, 113)[py * 113 + px][3] == 0 ==> #[trigger] frames@[0].picture.pixels@[py
                        * 113 + px] == backdrop(self.mark(), py * 113 + px)
                    &&& resized_pixels(avatar@, 113, 113)[py * 113 + px][3] == 255 ==> frames@[0].picture.pixels@[py
                        * 113 + px] == over(self.mark(), py * 113 + px, resized_pixels(avatar@, 113, 113)[py * 113 + px])
                },
    {
        let place = Placement { width: CANCEL_SIZE, height: CANCEL_SIZE, x: 0, y: 0 };

        let picture = compose_frame(avatar, CANCEL_SIZE, CANCEL_SIZE, place, &self.mark);
        let mut frames: Vec<AnimationFrame> = Vec::new();
        frames.push(AnimationFrame { picture, delay_ms: CANCEL_DELAY_MS });
        assert(frames_view(frames@) =~= cancel_frames(avatar@, self.mark()));
        frames
    }
}

impl ImageFilter for Cancel {
    open spec fn filtered(&self, png: Seq<u8>) -> Result<Seq<u8>, FilterError> {
        animation_of(png, 113, |avatar: PictureView| cancel_frames(avatar, self.mark()))
    }

    /// Decodes the avatar, makes the cancel frame and encodes it as a
    /// looping GIF at speed 5.
    fn convert_bytes(&self, png: &[u8]) -> (r: Result<Vec<u8>, FilterError>)
        ensures
            r is Ok <==> accepts(png@, 113),
            r matches Ok(b) ==> {
                &&& b@.take(gif_preamble(113, 113, Looping::Forever).len() as int) == gif_preamble(113, 113, Looping::Forever)
                &&& b@.last() == 0x3b
            },
    {
        let avatar = match decode_picture(png) {
            Ok(a) => a,
            Err(e) => return Err(e),
        };
        if !within_resampler(avatar.width, CANCEL_SIZE) {
            return Err(FilterError::TooLarge);
        }
        let frames = self.generate(&avatar);
        assert(frames_view(frames@).len() == frames@.len());
        assert(forall|i: int|
            0 <= i < frames@.len() ==> (#[trigger] frames@[i]).picture.width <= 65535 && frames@[i].picture.height
                <= 65535);
        let r = encode_gif(&frames, 5);
        assert(bytes_result(r) == self.filtered(png@));
        r
    }
}

/// Law: the cancel animation is one 113 by 113 frame shown for 1 ms.
pub proof fn law_cancel_frames(avatar: PictureView, mark: PictureView)
    ensures
        cancel_frames(avatar, mark).len() == 1,
        cancel_frames(avatar, mark)[0].1 == 1,
        cancel_frames(avatar, mark)[0].0.width == 113,
        cancel_frames(avatar, mark)[0].0.height == 113,
{
}

} // verus!
