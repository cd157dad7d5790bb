//! RGBA pictures held as plain pixels, and the two operations on them that
//! the filters do by hand: a transparent canvas, and the stamp of a sprite
//! over a canvas wherever the sprite is not fully transparent.
use vstd::prelude::*;

verus! {

/// An RGBA picture with 8 bits per channel: `pixels` holds the rows from
/// top to bottom, each row from left to right, each pixel as
/// `[red, green, blue, alpha]`.
#[derive(Clone, Debug)]
pub struct Picture {
    pub width: u32,
    pub height: u32,
    pub pixels: Vec<[u8; 4]>,
}

/// What a `Picture` holds, as a mathematical value.
pub struct PictureView {
    pub width: u32,
    pub height: u32,
    pub pixels: Seq<[u8; 4]>,
}

impl View for Picture {
    type V = PictureView;

    open spec fn view(&self) -> PictureView {
        PictureView { width: self.width, height: self.height, pixels: self.pixels@ }
    }
}

impl PictureView {
    /// The picture holds exactly `width * height` pixels.
    pub open spec fn wf(self) -> bool {
        self.pixels.len() == self.width as int * self.height as int
    }

    /// The alpha channel of pixel `k` (in row-major order).
    pub open spec fn alpha(self, k: int) -> u8 {
        self.pixels[k][3]
    }
}

/// One frame of an animation: a picture and how long it shows, in
/// milliseconds.
pub struct AnimationFrame {
    pub picture: Picture,
    pub delay_ms: u32,
}

impl View for AnimationFrame {
    type V = (PictureView, u32);

    open spec fn view(&self) -> (PictureView, u32) {
        (self.picture@, self.delay_ms)
    }
}

/// The frames of an animation, as mathematical values.
pub open spec fn frames_view(frames: Seq<AnimationFrame>) -> Seq<(PictureView, u32)> {
    frames.map_values(|f: AnimationFrame| f@)
}

/// The fully transparent pixel, all four channels 0.
pub open spec fn clear_pixel() -> [u8; 4] {
    [0u8, 0u8, 0u8, 0u8]
}

/// A `width` by `height` picture whose every pixel is fully transparent, as
/// `RgbaImage::new` makes it.
pub open spec fn transparent(width: u32, height: u32) -> PictureView {
    PictureView {
        width,
        height,
        pixels: Seq::new((width as int * height as int) as nat, |k: int| clear_pixel()),
    }
}

/// `canvas` with the pixels of `sprite` laid over it one for one, in
/// row-major order, as far as both reach: pixel `k` becomes the sprite's
/// pixel `k` where that one's alpha is not 0, and stays as it was elsewhere.
pub open spec fn stamped(canvas: PictureView, sprite: PictureView) -> PictureView {
    PictureView {
        width: canvas.width,
        height: canvas.height,
        pixels: Seq::new(
            canvas.pixels.len(),
            |k: int|
                if k < sprite.pixels.len() && sprite.alpha(k) != 0 {
                    sprite.pixels[k]
                } else {
                    canvas.pixels[k]
                },
        ),
    }
}

impl Picture {
    /// A picture from its size and pixels; `None` where the number of pixels
    /// is not `width * height`.
    pub fn new(width: u32, height: u32, pixels: Vec<[u8; 4]>) -> (r: Option<Picture>)
        ensures
            r matches Some(p) ==> p@ == (PictureView { width, height, pixels: pixels@ }) && p@.wf(),
            r is None <==> pixels@.len() != width as int * height as int,
    {
        let n = pixels.len() as u64;
        proof {
            assert(width as int * height as int <= 0xffff_ffff * 0xffff_ffff) by (nonlinear_arith)
                requires
                    width <= 0xffff_ffffu32,
                    height <= 0xffff_ffffu32,
            ;
        }
        if n == (width as u64) * (height as u64) {
            Some(Picture { width, height, pixels })
        } else {
            None
        }
    }

    /// A `width` by `height` picture, fully transparent.
    pub fn transparent(width: u32, height: u32) -> (r: Picture)
        requires
            width as int * height as int <= usize::MAX,
        ensures
            r@ == transparent(width, height),
            r@.wf(),
    {
        let n = (width as usize) * (height as usize);
        let mut pixels: Vec<[u8; 4]> = Vec::new();
        for i in 0..n
            invariant
                pixels@ =~= Seq::new(i as nat, |k: int| clear_pixel()),
        {
            pixels.push([0u8, 0u8, 0u8, 0u8]);
        }
        let r = Picture { width, height, pixels };
        assert(r@.pixels =~= transparent(width, height).pixels);
        r
    }
}

/// Lays `sprite` over `canvas` pixel by pixel, in row-major order, as far as
/// both reach: where the sprite's pixel is not fully transparent it replaces
/// the canvas pixel.
pub fn stamp(canvas: Picture, sprite: &Picture) -> (r: Picture)
    ensures
        r@ == stamped(canvas@, sprite@),
        canvas@.wf() ==> r@.wf(),
{
    let ghost before = canvas@;
    let width = canvas.width;
    let height = canvas.height;
    let mut pixels = canvas.pixels;
    let n = if pixels.len() < sprite.pixels.len() {
        pixels.len()
    } else {
        sprite.pixels.len()
    };
    for k in 0..n
        invariant
            n <= before.pixels.len(),
            n <= sprite@.pixels.len(),
            pixels@.len() == before.pixels.len(),
            forall|j: int|
                0 <= j < pixels@.len() ==> #[trigger] pixels@[j] == (if j < k && sprite@.alpha(j)
                    != 0 {
                    sprite@.pixels[j]
                } else {
                    before.pixels[j]
                }),
    {
        let p = sprite.pixels[k];
        if p[3] != 0 {
            pixels.set(k, p);
        }
    }
    let r = Picture { width, height, pixels };
    assert(r@.pixels =~= stamped(before, sprite@).pixels);
    r
}

} // verus!
