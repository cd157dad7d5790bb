//! The bonk filter: a bat comes down on the avatar, which squashes and
//! springs back over eight frames.
use vstd::prelude::*;
use crate::filters::{
    FilterError, ImageFilter, Placement, accepts, animation_of, fits_resampler, within_resampler, backdrop, bytes_result, compose_frame, composed,
    decode_picture, dropped_top, encode_gif, squashed_height, squashed_width,
    squeeze, trunc_div,
};
use crate::imaging::{Looping, decoded_rgba8, gif_preamble};
use crate::picture::{AnimationFrame, Picture, PictureView, frames_view};

verus! {

/// The number of frames of the bonk animation.
pub const BONK_FRAMES: u32 = 8;

/// The width of the bonk canvas, in pixels.
pub const BONK_WIDTH: u32 = 128;

/// The height of the bonk canvas, in pixels.
pub const BONK_HEIGHT: u32 = 115;

/// How long each bonk frame shows, in milliseconds.
pub const BONK_DELAY_MS: u32 = 20;

/// The placement of the avatar in bonk frame `i`: squashed as `squeeze(i,
/// 8)` says, its left edge at the canvas width scaled by
/// (1 - (0.8 + 0.02 s)) * 0.3 - 0.05, that is by (5 - 3 s) / 500.
pub open spec fn bonk_layout(i: int) -> Placement {
    let s = squeeze(i, 8);
    Placement {
        width: squashed_width(128, s) as u32,
        height: squashed_height(115, s) as u32,
        x: trunc_div(128 * (5 - 3 * s), 500) as i64,
        y: dropped_top(115, s) as i64,
    }
}

/// Bonk frame `i` of `avatar`, with the bat sprite `bats[i / 4]`.
pub open spec fn bonk_frame(avatar: PictureView, bats: Seq<PictureView>, i: int) -> PictureView {
    composed(avatar, 128, 115, bonk_layout(i), bats[i / 4])
}

/// The eight bonk frames of `avatar`, each shown for 20 ms.
pub open spec fn bonk_frames(avatar: PictureView, bats: Seq<PictureView>) -> Seq<(PictureView, u32)> {
    Seq::new(8, |i: int| (bonk_frame(avatar, bats, i), 20u32))
}

/// The placement of the avatar in bonk frame `i`.
pub fn bonk_placement(i: u32) -> (p: Placement)
    requires
        i < BONK_FRAMES,
    ensures
        p == bonk_layout(i as int),
        0 < p.width <= BONK_WIDTH,
        0 < p.height <= BONK_HEIGHT,
{
    let s: u32 = if i < BONK_FRAMES / 2 {
        i
    } else {
        BONK_FRAMES - i
    };
    let x: i64 = if 3 * s <= 5 {
        ((BONK_WIDTH * (5 - 3 * s)) / 500) as i64
    } else {
        -(((BONK_WIDTH * (3 * s - 5)) / 500) as i64)
    };
    Placement {
        width: (BONK_WIDTH * (40 + s)) / 50,
        height: (BONK_HEIGHT * (16 - s)) / 20,
        x,
        y: ((BONK_HEIGHT * (12 + 5 * s)) / 100) as i64,
    }
}

/// The bonk filter, with the four frames of the bat.
#[derive(Clone)]
pub struct Bonk {
    bats: [Picture; 4],
}

impl Bonk {
    /// The bat sprites, in order.
    pub closed spec fn bats(&self) -> Seq<PictureView> {
        self.bats@.map_values(|p: Picture| p@)
    }

    /// A bonk filter with the given bat sprites.
    pub fn new(bats: [Picture; 4]) -> (r: Bonk)
        ensures
            r.bats() == bats@.map_values(|p: Picture| p@),
    {
        Bonk { bats }
    }

    /// A bonk filter with bat sprites decoded from the four PNGs; `Decode`
    /// where one of them does not decode.
    pub fn from_pngs(pngs: &[Vec<u8>; 4]) -> (r: Result<Bonk, FilterError>)
        ensures
            match r {
                Ok(b) => forall|i: int| 0 <= i < 4 ==> decoded_rgba8(#[trigger] pngs@[i]@) == Some(b.bats()[i]),
                Err(e) => e == FilterError::Decode && exists|i: int| 0 <= i < 4 && decoded_rgba8(#[trigger] pngs@[i]@) is None,
            },
    {
        let b0 = decode_picture(pngs[0].as_slice());
        let b1 = decode_picture(pngs[1].as_slice());
        let b2 = decode_picture(pngs[2].as_slice());
        let b3 = decode_picture(pngs[3].as_slice());
        match (b0, b1, b2, b3) {
            (Ok(a), Ok(b), Ok(c), Ok(d)) => {
                let r = Bonk { bats: [a, b, c, d] };
                assert(r.bats().len() == 4);
                Ok(r)
            },
            _ => Err(FilterError::Decode),
        }
    }

    /// The eight bonk frames of `avatar`. Outside the squashed avatar a frame
    /// shows only its bat sprite, where that is not fully transparent.
    pub fn generate(&self, avatar: &Picture) -> (frames: Vec<AnimationFrame>)
        requires
            avatar@.wf(),
            fits_resampler(avatar.width, BONK_HEIGHT),
        ensures
            frames_view(frames@) == bonk_frames(avatar@, self.bats()),
            forall|i: int| 0 <= i < frames@.len() ==> (#[trigger] frames@[i]).picture@.wf(),
            forall|i: int|
                0 <= i < frames@.len() ==> (#[trigger] frames@[i]).picture.width == BONK_WIDTH
                    && frames@[i].picture.height == BONK_HEIGHT,
            forall|i: int, px: int, py: int|
                0 <= i < frames@.len() && 0 <= px < 128 && 0 <= py < 115 && !(bonk_layout(i).x <= px
                    < bonk_layout(i).x + bonk_layout(i).width && bonk_layout(i).y <= py < bonk_layout(i).y
                    + bonk_layout(i).height) ==> #[trigger] frames@[i].picture.pixels@[py * 128 + px]
                    == backdrop(self.bats()[i / 4], py * 128 + px),
    {
        let mut frames: Vec<AnimationFrame> = Vec::new();
        for i in 0..BONK_FRAMES
            invariant
                avatar@.wf(),
                fits_resampler(avatar.width, BONK_HEIGHT),
                frames@.len() == i,
                forall|j: int| 0 <= j < i ==> (#[trigger] frames@[j])@ == (bonk_frame(avatar@, self.bats(), j), 20u32),
                forall|j: int| 0 <= j < frames@.len() ==> (#[trigger] frames@[j]).picture@.wf(),
                forall|j: int|
                    0 <= j < frames@.len() ==> (#[trigger] frames@[j]).picture.width == BONK_WIDTH
                        && frames@[j].picture.height == BONK_HEIGHT,
                forall|j: int, px: int, py: int|
                    0 <= j < frames@.len() && 0 <= px < 128 && 0 <= py < 115 && !(bonk_layout(j).x <= px
                        < bonk_layout(j).x + bonk_layout(j).width && bonk_layout(j).y <= py < bonk_layout(j).y
                        + bonk_layout(j).height) ==> #[trigger] frames@[j].picture.pixels@[py * 128 + px]
                        == backdrop(self.bats()[j / 4], py * 128 + px),
        {
            let place = bonk_placement(i);
            assert(4 * (place.width as int) * (place.height as int) <= usize::MAX) by (nonlinear_arith)
                requires
                    place.width <= 128,
                    place.height <= 115,
            ;
            assert(4 * (avatar.width as int) * (place.height as int) <= usize::MAX) by (nonlinear_arith)
                requires
                    4 * (avatar.width as int) * 115 <= usize::MAX,
                    place.height <= 115,
            ;
            let bat = &self.bats[(i / 4) as usize];
            assert(bat@ == self.bats()[(i / 4) as int]);
            let picture = compose_frame(avatar, BONK_WIDTH, BONK_HEIGHT, place, bat);
            frames.push(AnimationFrame { picture, delay_ms: BONK_DELAY_MS });
        }
        assert(frames_view(frames@) =~= bonk_frames(avatar@, self.bats()));
        frames
    }
}

/// Turns the avatar image `png` into the looping bonk GIF: decodes it, makes
/// the eight bonk frames and encodes them at speed 5.
pub fn convert_bytes(bonk: &Bonk, png: &[u8]) -> (r: Result<Vec<u8>, FilterError>)
    ensures
        bytes_result(r) == animation_of(png@, 115, |avatar: PictureView| bonk_frames(avatar, bonk.bats())),
        r is Ok <==> accepts(png@, 115),
        r matches Ok(b) ==> {
            &&& b@.take(gif_preamble(128, 115, Looping::Forever).len() as int) == gif_preamble(128, 115, Looping::Forever)
            &&& b@.last() == 0x3b
        },
{
    let avatar = match decode_picture(png) {
        Ok(a) => a,
        Err(e) => return Err(e),
    };
    if !within_resampler(avatar.width, BONK_HEIGHT) {
        return Err(FilterError::TooLarge);
    }
    let frames = bonk.generate(&avatar);
    assert(frames_view(frames@).len() == frames@.len());
        assert(forall|i: int|
            0 <= i < frames@.len() ==> (#[trigger] frames@[i]).picture.width <= 65535 && frames@[i].picture.height
                <= 65535);
    encode_gif(&frames, 5)
}

impl ImageFilter for Bonk {
    open spec fn filtered(&self, png: Seq<u8>) -> Result<Seq<u8>, FilterError> {
        animation_of(png, 115, |avatar: PictureView| bonk_frames(avatar, self.bats()))
    }

    /// The bonk animation of `png`, as `convert_bytes` makes it.
    fn convert_bytes(&self, png: &[u8]) -> (r: Result<Vec<u8>, FilterError>)
        ensures
            r is Ok <==> accepts(png@, 115),
    {
        convert_bytes(self, png)
    }
}

/// Law: the bonk animation has eight frames, each a 128 by 115 picture shown
/// for 20 ms.
pub proof fn law_bonk_frames(avatar: PictureView, bats: Seq<PictureView>)
    ensures
        bonk_frames(avatar, bats).len() == 8,
        forall|i: int| 0 <= i < 8 ==> {
            &&& (#[trigger] bonk_frames(avatar, bats)[i]).1 == 20
            &&& bonk_frames(avatar, bats)[i].0.width == 128
            &&& bonk_frames(avatar, bats)[i].0.height == 115
        },
{
}

/// Law: the bonk squeeze goes back the way it came: frame `i` and frame
/// `8 - i` place the avatar alike.
pub proof fn law_bonk_squeeze_returns(i: int)
    requires
        1 <= i < 8,
    ensures
        bonk_layout(i) == bonk_layout(8 - i),
{
}

/// Law: the bonk animation mirrors itself about its middle frame: frame
/// `i` and frame `8 - i` show the same pixel wherever neither frame's bat
/// sprite covers it (where both bat pixels are fully transparent). It holds
/// of every avatar, whatever its size; `Bonk::generate` makes exactly these
/// frames.
pub proof fn law_bonk_frames_mirror(avatar: PictureView, bats: Seq<PictureView>, i: int, k: int)
    requires
        bats.len() == 4,
        1 <= i < 8,
        0 <= k < bonk_frame(avatar, bats, i).pixels.len(),
        k < bats[i / 4].pixels.len() ==> bats[i / 4].alpha(k) == 0,
        k < bats[(8 - i) / 4].pixels.len() ==> bats[(8 - i) / 4].alpha(k) == 0,
    ensures
        bonk_frame(avatar, bats, i).pixels[k] == bonk_frame(avatar, bats, 8 - i).pixels[k],
{
    assert(bonk_layout(i) == bonk_layout(8 - i));
}

} // verus!
