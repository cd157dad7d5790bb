//! The pet filter: a hand pats the avatar, which squashes and springs back
//! over ten frames.
use vstd::prelude::*;
use crate::filters::{
    FilterError, ImageFilter, Placement, accepts, animation_of, fits_resampler, within_resampler, backdrop, bytes_result, compose_frame, composed,
    decode_picture, dropped_top, encode_gif, squashed_height, squashed_width,
    squeeze, trunc_div,
};
use crate::imaging::{Looping, decoded_rgba8, gif_preamble};
use crate::picture::{AnimationFrame, Picture, PictureView, frames_view};

verus! {

/// The number of frames of the pet animation.
pub const PET_FRAMES: u32 = 10;

/// The side of the square pet canvas, in pixels.
pub const PET_SIZE: u32 = 112;

/// How long each pet frame shows, in milliseconds.
pub const PET_DELAY_MS: u32 = 20;

/// The placement of the avatar in pet frame `i`: squashed as `squeeze(i,
/// 10)` says, its left edge at the canvas width scaled by
/// (1 - (0.8 + 0.02 s)) * 0.5 + 0.1, that is by (20 - s) / 100.
pub open spec fn pet_layout(i: int) -> Placement {
    let s = squeeze(i, 10);
    Placement {
        width: squashed_width(112, s) as u32,
        height: squashed_height(112, s) as u32,
        x: trunc_div(112 * (20 - s), 100) as i64,
        y: dropped_top(112, s) as i64,
    }
}

/// Pet frame `i` of `avatar`, with the hand sprite `hands[i / 2]`.
pub open spec fn pet_frame(avatar: PictureView, hands: Seq<PictureView>, i: int) -> PictureView {
    composed(avatar, 112, 112, pet_layout(i), hands[i / 2])
}

/// The ten pet frames of `avatar`, each shown for 20 ms.
pub open spec fn pet_frames(avatar: PictureView, hands: Seq<PictureView>) -> Seq<(PictureView, u32)> {
    Seq::new(10, |i: int| (pet_frame(avatar, hands, i), 20u32))
}

/// The placement of the avatar in pet frame `i`.
pub fn pet_placement(i: u32) -> (p: Placement)
    requires
        i < PET_FRAMES,
    ensures
        p == pet_layout(i as int),
        0 < p.width <= PET_SIZE,
        0 < p.height <= PET_SIZE,
{
    let s: u32 = if i < PET_FRAMES / 2 {
        i
    } else {
        PET_FRAMES - i
    };
    Placement {
        width: (PET_SIZE * (40 + s)) / 50,
        height: (PET_SIZE * (16 - s)) / 20,
        x: ((PET_SIZE * (20 - s)) / 100) as i64,
        y: ((PET_SIZE * (12 + 5 * s)) / 100) as i64,
    }
}

/// The pet filter, with the five frames of the patting hand.
#[derive(Clone)]
pub struct Pet {
    hands: [Picture; 5],
}

impl Pet {
    /// The hand sprites, in order.
    pub closed spec fn hands(&self) -> Seq<PictureView> {
        self.hands@.map_values(|p: Picture| p@)
    }

    /// A pet filter with the given hand sprites.
    pub fn new(hands: [Picture; 5]) -> (r: Pet)
        ensures
            r.hands() == hands@.map_values(|p: Picture| p@),
    {
        Pet { hands }
    }

    /// A pet filter with hand sprites decoded from the five PNGs; `Decode`
    /// where one of them does not decode.
    pub fn from_pngs(pngs: &[Vec<u8>; 5]) -> (r: Result<Pet, FilterError>)
        ensures
            match r {
                Ok(p) => forall|i: int| 0 <= i < 5 ==> decoded_rgba8(#[trigger] pngs@[i]@) == Some(p.hands()[i]),
                Err(e) => e == FilterError::Decode && exists|i: int| 0 <= i < 5 && decoded_rgba8(#[trigger] pngs@[i]@) is None,
            },
    {
        let h0 = decode_picture(pngs[0].as_slice());
        let h1 = decode_picture(pngs[1].as_slice());
        let h2 = decode_picture(pngs[2].as_slice());
        let h3 = decode_picture(pngs[3].as_slice());
        let h4 = decode_picture(pngs[4].as_slice());
        match (h0, h1, h2, h3, h4) {
            (Ok(a), Ok(b), Ok(c), Ok(d), Ok(e)) => {
                let p = Pet { hands: [a, b, c, d, e] };
                assert(p.hands().len() == 5);
                Ok(p)
            },
            _ => Err(FilterError::Decode),
        }
    }

    /// The ten pet frames of `avatar`. Outside the squashed avatar a frame
    /// shows only its hand sprite, where that is not fully transparent.
    pub fn generate(&self, avatar: &Picture) -> (frames: Vec<AnimationFrame>)
        requires
            avatar@.wf(),
            fits_resampler(avatar.width, PET_SIZE),
        ensures
            frames_view(frames@) == pet_frames(avatar@, self.hands()),
            forall|i: int| 0 <= i < frames@.len() ==> (#[trigger] frames@[i]).picture@.wf(),
            forall|i: int|
                0 <= i < frames@.len() ==> (#[trigger] frames@[i]).picture.width == PET_SIZE
                    && frames@[i].picture.height == PET_SIZE,
            forall|i: int, px: int, py: int|
                0 <= i < frames@.len() && 0 <= px < 112 && 0 <= py < 112 && !(pet_layout(i).x <= px
                    < pet_layout(i).x + pet_layout(i).width && pet_layout(i).y <= py < pet_layout(i).y
                    + pet_layout(i).height) ==> #[trigger] frames@[i].picture.pixels@[py * 112 + px]
                    == backdrop(self.hands()[i / 2], py * 112 + px),
    {
        let mut frames: Vec<AnimationFrame> = Vec::new();
        for i in 0..PET_FRAMES
            invariant
                avatar@.wf(),
                fits_resampler(avatar.width, PET_SIZE),
                frames@.len() == i,
                forall|j: int| 0 <= j < i ==> (#[trigger] frames@[j])@ == (pet_frame(avatar@, self.hands(), j), 20u32),
                forall|j: int| 0 <= j < frames@.len() ==> (#[trigger] frames@[j]).picture@.wf(),
                forall|j: int|
                    0 <= j < frames@.len() ==> (#[trigger] frames@[j]).picture.width == PET_SIZE
                        && frames@[j].picture.height == PET_SIZE,
                forall|j: int, px: int, py: int|
                    0 <= j < frames@.len() && 0 <= px < 112 && 0 <= py < 112 && !(pet_layout(j).x <= px
                        < pet_layout(j).x + pet_layout(j).width && pet_layout(j).y <= py < pet_layout(j).y
                        + pet_layout(j).height) ==> #[trigger] frames@[j].picture.pixels@[py * 112 + px]
                        == backdrop(self.hands()[j / 2], py * 112 + px),
        {
            let place = pet_placement(i);
            assert(4 * (place.width as int) * (place.height as int) <= usize::MAX) by (nonlinear_arith)
                requires
                    place.width <= 112,
                    place.height <= 112,
            ;
            assert(4 * (avatar.width as int) * (place.height as int) <= usize::MAX) by (nonlinear_arith)
                requires
                    4 * (avatar.width as int) * 112 <= usize::MAX,
                    place.height <= 112,
            ;
            let hand = &self.hands[(i / 2) as usize];
            assert(hand@ == self.hands()[(i / 2) as int]);
            let picture = compose_frame(avatar, PET_SIZE, PET_SIZE, place, hand);
            frames.push(AnimationFrame { picture, delay_ms: PET_DELAY_MS });
        }
        assert(frames_view(frames@) =~= pet_frames(avatar@, self.hands()));
        frames
    }
}

impl ImageFilter for Pet {
    open spec fn filtered(&self, png: Seq<u8>) -> Result<Seq<u8>, FilterError> {
        animation_of(png, 112, |avatar: PictureView| pet_frames(avatar, self.hands()))
    }

    /// Decodes the avatar, makes the ten pet frames and encodes them as a
    /// looping GIF at speed 5.
    fn convert_bytes(&self, png: &[u8]) -> (r: Result<Vec<u8>, FilterError>)
        ensures
            r is Ok <==> accepts(png@, 112),
            r matches Ok(b) ==> {
                &&& b@.take(gif_preamble(112, 112, Looping::Forever).len() as int) == gif_preamble(112, 112, Looping::Forever)
                &&& b@.last() == 0x3b
            },
    {
        let avatar = match decode_picture(png) {
            Ok(a) => a,
            Err(e) => return Err(e),
        };
        if !within_resampler(avatar.width, PET_SIZE) {
            return Err(FilterError::TooLarge);
        }
        let frames = self.generate(&avatar);
        assert(frames_view(frames@).len() == frames@.len());
        assert(forall|i: int|
            0 <= i < frames@.len() ==> (#[trigger] frames@[i]).picture.width <= 65535 && frames@[i].picture.height
                <= 65535);
        let r = encode_gif(&frames, 5);
        assert(bytes_result(r) == self.filtered(png@));
        r
    }
}

/// Law: the pet animation has ten frames, each a 112 by 112 picture shown
/// for 20 ms.
pub proof fn law_pet_frames(avatar: PictureView, hands: Seq<PictureView>)
    ensures
        pet_frames(avatar, hands).len() == 10,
        forall|i: int| 0 <= i < 10 ==> {
            &&& (#[trigger] pet_frames(avatar, hands)[i]).1 == 20
            &&& pet_frames(avatar, hands)[i].0.width == 112
            &&& pet_frames(avatar, hands)[i].0.height == 112
        },
{
}

/// Law: the pet squeeze goes back the way it came: frame `i` and frame
/// `10 - i` place the avatar alike.
pub proof fn law_pet_squeeze_returns(i: int)
    requires
        1 <= i < 10,
    ensures
        pet_layout(i) == pet_layout(10 - i),
{
}

/// Law: the pet animation mirrors itself about its middle frame: frame `i`
/// and frame `10 - i` show the same pixel wherever neither frame's hand
/// sprite covers it (where both hand pixels are fully transparent). It holds
/// of every avatar, whatever its size; `Pet::generate` makes exactly these
/// frames.
pub proof fn law_pet_frames_mirror(avatar: PictureView, hands: Seq<PictureView>, i: int, k: int)
    requires
        hands.len() == 5,
        1 <= i < 10,
        0 <= k < pet_frame(avatar, hands, i).pixels.len(),
        k < hands[i / 2].pixels.len() ==> hands[i / 2].alpha(k) == 0,
        k < hands[(10 - i) / 2].pixels.len() ==> hands[(10 - i) / 2].alpha(k) == 0,
    ensures
        pet_frame(avatar, hands, i).pixels[k] == pet_frame(avatar, hands, 10 - i).pixels[k],
{
    assert(pet_layout(i) == pet_layout(10 - i));
}

} // verus!
