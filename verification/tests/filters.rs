use std::io::Cursor;

use image::codecs::gif::GifDecoder;
use image::{AnimationDecoder, ImageOutputFormat, Rgba, RgbaImage};
use pfpet::bonk::{self, bonk_placement, Bonk};
use pfpet::filters::cancel::Cancel;
use pfpet::filters::pet::{pet_placement, Pet};
use pfpet::filters::{compose_frame, encode_gif, FilterError, ImageFilter, Placement};
use pfpet::picture::{stamp, AnimationFrame, Picture};

/// The placement computed in floating point, scale by scale.
fn float_placement(i: u32, frames: u32, width: u32, height: u32, pet: bool) -> Placement {
    let squeeze = if i < frames / 2 { i } else { frames - i } as f64;
    let width_scale = 0.8 + squeeze * 0.02;
    let height_scale = 0.8 - squeeze * 0.05;
    let w = (width_scale * width as f64) as u32;
    let h = (height_scale * height as f64) as u32;
    let x = if pet {
        (((1.0 - width_scale) * 0.5 + 0.1) * width as f64) as i64
    } else {
        (((1.0 - width_scale) * 0.3 - 0.05) * width as f64) as i64
    };
    let y = (((1.0 - height_scale) - 0.08) * height as f64) as i64;
    Placement { width: w, height: h, x, y }
}

fn png_of(img: &RgbaImage) -> Vec<u8> {
    let mut out = Cursor::new(Vec::new());
    img.write_to(&mut out, ImageOutputFormat::Png).unwrap();
    out.into_inner()
}

fn filled(width: u32, height: u32, px: [u8; 4]) -> Picture {
    Picture::new(width, height, vec![px; (width * height) as usize]).unwrap()
}

fn gif_frames(bytes: &[u8]) -> Vec<image::Frame> {
    GifDecoder::new(Cursor::new(bytes)).unwrap().into_frames().collect_frames().unwrap()
}

#[test]
fn pet_placement_matches_floating_point() {
    for i in 0..10 {
        assert_eq!(pet_placement(i), float_placement(i, 10, 112, 112, true), "frame {}", i);
    }
    assert_eq!(pet_placement(0), Placement { width: 89, height: 89, x: 22, y: 13 });
    assert_eq!(pet_placement(5), Placement { width: 100, height: 61, x: 16, y: 41 });
}

#[test]
fn bonk_placement_matches_floating_point() {
    for i in 0..8 {
        assert_eq!(bonk_placement(i), float_placement(i, 8, 128, 115, false), "frame {}", i);
    }
    assert_eq!(bonk_placement(4), Placement { width: 112, height: 69, x: -1, y: 36 });
    assert_eq!(bonk_placement(2), Placement { width: 107, height: 80, x: 0, y: 25 });
}

#[test]
fn picture_new_checks_the_pixel_count() {
    assert!(Picture::new(2, 3, vec![[0; 4]; 6]).is_some());
    assert!(Picture::new(2, 3, vec![[0; 4]; 5]).is_none());
    let t = Picture::transparent(3, 2);
    assert_eq!((t.width, t.height, t.pixels.len()), (3, 2, 6));
    assert!(t.pixels.iter().all(|p| *p == [0, 0, 0, 0]));
}

#[test]
fn stamp_keeps_canvas_under_transparent_sprite_pixels() {
    let canvas = Picture::new(2, 2, vec![[1, 1, 1, 1], [2, 2, 2, 2], [3, 3, 3, 3], [4, 4, 4, 4]]).unwrap();
    let sprite = Picture::new(3, 1, vec![[9, 9, 9, 0], [8, 8, 8, 255], [7, 7, 7, 1]]).unwrap();
    let out = stamp(canvas, &sprite);
    assert_eq!(out.pixels, vec![[1, 1, 1, 1], [8, 8, 8, 255], [7, 7, 7, 1], [4, 4, 4, 4]]);
    assert_eq!((out.width, out.height), (2, 2));
}

#[test]
fn compose_frame_places_the_resized_avatar() {
    let avatar = filled(10, 10, [200, 0, 0, 255]);
    let clear_sprite = filled(20, 20, [0, 0, 0, 0]);
    let place = Placement { width: 5, height: 4, x: 3, y: 2 };
    let frame = compose_frame(&avatar, 20, 20, place, &clear_sprite);
    assert_eq!((frame.width, frame.height, frame.pixels.len()), (20, 20, 400));
    for py in 0..20i64 {
        for px in 0..20i64 {
            let p = frame.pixels[(py * 20 + px) as usize];
            let inside = (3..8).contains(&px) && (2..6).contains(&py);
            if inside {
                assert_eq!(p, [200, 0, 0, 255]);
            } else {
                assert_eq!(p, [0, 0, 0, 0]);
            }
        }
    }
    let sprite = filled(20, 20, [0, 0, 255, 255]);
    let frame = compose_frame(&avatar, 20, 20, place, &sprite);
    assert!(frame.pixels.iter().all(|p| *p == [0, 0, 255, 255]));
}

#[test]
fn encode_gif_writes_a_gif() {
    let frames = vec![
        AnimationFrame { picture: filled(4, 3, [10, 20, 30, 255]), delay_ms: 20 },
        AnimationFrame { picture: filled(4, 3, [30, 20, 10, 255]), delay_ms: 20 },
    ];
    let bytes = encode_gif(&frames, 5).unwrap();
    assert_eq!(&bytes[..6], b"GIF89a");
    let decoded = gif_frames(&bytes);
    assert_eq!(decoded.len(), 2);
    assert_eq!(decoded[0].buffer().dimensions(), (4, 3));
}

fn avatar_png() -> Vec<u8> {
    png_of(&RgbaImage::from_pixel(48, 40, Rgba([255, 0, 0, 255])))
}

fn hand_pngs<const N: usize>(width: u32, height: u32) -> [Vec<u8>; N] {
    std::array::from_fn(|k| png_of(&RgbaImage::from_fn(width, height, |x, y| {
        if (x + y + k as u32) % 7 == 0 { Rgba([0, 255, 0, 255]) } else { Rgba([0, 0, 0, 0]) }
    })))
}

#[test]
fn pet_makes_ten_frames_of_112_pixels() {
    let pet = Pet::from_pngs(&hand_pngs::<5>(112, 112)).unwrap();
    let gif = pet.convert_bytes(&avatar_png()).unwrap();
    let frames = gif_frames(&gif);
    assert_eq!(frames.len(), 10);
    for f in &frames {
        assert_eq!(f.buffer().dimensions(), (112, 112));
        assert_eq!(f.delay().numer_denom_ms(), (20, 1));
    }
}

#[test]
fn bonk_makes_eight_frames_of_128_by_115() {
    let bonk = Bonk::from_pngs(&hand_pngs::<4>(128, 115)).unwrap();
    let gif = bonk::convert_bytes(&bonk, &avatar_png()).unwrap();
    let frames = gif_frames(&gif);
    assert_eq!(frames.len(), 8);
    for f in &frames {
        assert_eq!(f.buffer().dimensions(), (128, 115));
    }
    assert_eq!(bonk.convert_bytes(&avatar_png()).unwrap(), gif);
}

#[test]
fn cancel_makes_one_frame_of_113_pixels() {
    let [mark] = hand_pngs::<1>(113, 113);
    let cancel = Cancel::from_png(&mark).unwrap();
    let frames = gif_frames(&cancel.convert_bytes(&avatar_png()).unwrap());
    assert_eq!(frames.len(), 1);
    assert_eq!(frames[0].buffer().dimensions(), (113, 113));
}

#[test]
fn filters_refuse_what_is_not_an_image() {
    let pet = Pet::from_pngs(&hand_pngs::<5>(112, 112)).unwrap();
    assert_eq!(pet.convert_bytes(b"not a png"), Err(FilterError::Decode));
    assert_eq!(pet.convert_bytes(&[]), Err(FilterError::Decode));
    let mut bad = hand_pngs::<5>(112, 112);
    bad[3] = b"GIF89a".to_vec();
    assert!(matches!(Pet::from_pngs(&bad), Err(FilterError::Decode)));
    assert!(matches!(Cancel::from_png(b"xx"), Err(FilterError::Decode)));
}

#[test]
fn filter_output_does_not_depend_on_the_call() {
    let pet = Pet::from_pngs(&hand_pngs::<5>(112, 112)).unwrap();
    let a = pet.convert_bytes(&avatar_png()).unwrap();
    let b = pet.clone().convert_bytes(&avatar_png()).unwrap();
    assert_eq!(a, b);
}

#[test]
fn squeeze_returns_the_way_it_came() {
    for i in 1..10 {
        assert_eq!(pet_placement(i), pet_placement(10 - i));
    }
    for i in 1..8 {
        assert_eq!(bonk_placement(i), bonk_placement(8 - i));
    }
}

#[test]
fn encode_gif_refuses_frames_wider_than_a_gif_allows() {
    let frames = vec![AnimationFrame { picture: filled(70000, 1, [1, 2, 3, 255]), delay_ms: 20 }];
    assert_eq!(encode_gif(&frames, 5), Err(FilterError::Encode));
}

#[test]
fn outside_the_avatar_only_the_hand_shows() {
    let mut hand = filled(112, 112, [0, 0, 0, 0]);
    hand.pixels[0] = [5, 6, 7, 255];
    let pet = Pet::new([hand.clone(), hand.clone(), hand.clone(), hand.clone(), hand]);
    let avatar = filled(30, 30, [200, 100, 50, 255]);
    let frames = pet.generate(&avatar);
    assert_eq!(frames.len(), 10);
    for (i, f) in frames.iter().enumerate() {
        let place = pet_placement(i as u32);
        assert_eq!(f.delay_ms, 20);
        assert_eq!(f.picture.pixels[0], [5, 6, 7, 255]);
        assert_eq!(f.picture.pixels[111], [0, 0, 0, 0]);
        let inside = (place.y as usize + 1) * 112 + place.x as usize + 1;
        assert_eq!(f.picture.pixels[inside], [200, 100, 50, 255]);
    }
}

fn jpeg_of(img: &RgbaImage) -> Vec<u8> {
    let rgb = image::DynamicImage::ImageRgba8(img.clone()).to_rgb8();
    let mut out = Cursor::new(Vec::new());
    rgb.write_to(&mut out, ImageOutputFormat::Jpeg(80)).unwrap();
    out.into_inner()
}

#[test]
fn a_jpeg_avatar_is_petted_bonked_and_cancelled() {
    let jpeg = jpeg_of(&RgbaImage::from_pixel(48, 40, Rgba([255, 0, 0, 255])));
    assert_eq!(&jpeg[..2], &[0xff, 0xd8]);
    let pet = Pet::from_pngs(&hand_pngs::<5>(112, 112)).unwrap();
    assert_eq!(gif_frames(&pet.convert_bytes(&jpeg).unwrap()).len(), 10);
    let bonk = Bonk::from_pngs(&hand_pngs::<4>(128, 115)).unwrap();
    assert_eq!(gif_frames(&bonk::convert_bytes(&bonk, &jpeg).unwrap()).len(), 8);
    let [mark] = hand_pngs::<1>(113, 113);
    let cancel = Cancel::from_png(&mark).unwrap();
    assert_eq!(gif_frames(&cancel.convert_bytes(&jpeg).unwrap()).len(), 1);
}

/// The bytes every looping GIF of a `w` by `h` first frame starts with.
fn preamble(w: u16, h: u16) -> Vec<u8> {
    let mut v = b"GIF89a".to_vec();
    v.extend_from_slice(&w.to_le_bytes());
    v.extend_from_slice(&h.to_le_bytes());
    v.extend_from_slice(&[0x80, 0, 0, 0, 0, 0, 0, 0, 0]);
    v.extend_from_slice(&[0x21, 0xff, 0x0b]);
    v.extend_from_slice(b"NETSCAPE2.0");
    v.extend_from_slice(&[0x03, 0x01, 0x00, 0x00, 0x00]);
    v
}

#[test]
fn filter_gifs_start_with_the_looping_preamble_and_end_with_the_trailer() {
    assert_eq!(preamble(112, 112).len(), 38);
    let pet = Pet::from_pngs(&hand_pngs::<5>(112, 112)).unwrap();
    let gif = pet.convert_bytes(&avatar_png()).unwrap();
    assert_eq!(&gif[..38], &preamble(112, 112)[..]);
    assert_eq!(*gif.last().unwrap(), 0x3b);
    let bonk = Bonk::from_pngs(&hand_pngs::<4>(128, 115)).unwrap();
    let gif = bonk.convert_bytes(&avatar_png()).unwrap();
    assert_eq!(&gif[..38], &preamble(128, 115)[..]);
    assert_eq!(*gif.last().unwrap(), 0x3b);
    let [mark] = hand_pngs::<1>(113, 113);
    let gif = Cancel::from_png(&mark).unwrap().convert_bytes(&avatar_png()).unwrap();
    assert_eq!(&gif[..38], &preamble(113, 113)[..]);
    assert_eq!(*gif.last().unwrap(), 0x3b);
}

#[test]
fn encode_gif_writes_the_preamble_of_the_first_frame() {
    let frames = vec![
        AnimationFrame { picture: filled(300, 2, [1, 2, 3, 255]), delay_ms: 20 },
        AnimationFrame { picture: filled(4, 3, [3, 2, 1, 255]), delay_ms: 20 },
    ];
    let bytes = encode_gif(&frames, 5).unwrap();
    assert_eq!(&bytes[..38], &preamble(300, 2)[..]);
    assert_eq!(*bytes.last().unwrap(), 0x3b);
    assert_eq!(gif_frames(&bytes).len(), 2);
}

#[test]
fn cancel_shows_the_avatar_where_the_sign_is_clear() {
    let mut mark = filled(113, 113, [0, 0, 0, 0]);
    mark.pixels[0] = [255, 0, 0, 255];
    mark.pixels[1] = [9, 9, 9, 40];
    let cancel = Cancel::new(mark);
    let mut avatar = filled(113, 113, [10, 200, 30, 255]);
    avatar.pixels[113 * 2 + 5] = [0, 0, 0, 0];
    let frames = cancel.generate(&avatar);
    assert_eq!(frames.len(), 1);
    assert_eq!(frames[0].delay_ms, 1);
    let p = &frames[0].picture.pixels;
    assert_eq!(p[0], [255, 0, 0, 255]);
    assert_eq!(p[1], [9, 9, 9, 40]);
    assert_eq!(p[2], [10, 200, 30, 255]);
    assert_eq!(p[113 * 50 + 60], [10, 200, 30, 255]);
    assert_eq!(p[113 * 2 + 5], [0, 0, 0, 0]);
}

#[test]
fn pet_and_bonk_frames_mirror_about_the_middle() {
    let mut hand = filled(112, 112, [0, 0, 0, 0]);
    hand.pixels[7] = [1, 2, 3, 255];
    let pet = Pet::new([hand.clone(), hand.clone(), hand.clone(), hand.clone(), hand]);
    let avatar = Picture::new(3, 2, vec![[250, 0, 0, 255], [0, 250, 0, 255], [0, 0, 250, 255], [9, 9, 9, 255], [90, 90, 0, 128], [0, 0, 0, 0]]).unwrap();
    let frames = pet.generate(&avatar);
    for i in 1..10 {
        assert_eq!(frames[i].picture.pixels, frames[10 - i].picture.pixels, "frame {}", i);
    }
    assert_ne!(frames[1].picture.pixels, frames[2].picture.pixels);
    let mut bat = filled(128, 115, [0, 0, 0, 0]);
    bat.pixels[3] = [4, 5, 6, 255];
    let bonk = Bonk::new([bat.clone(), bat.clone(), bat.clone(), bat]);
    let frames = bonk.generate(&avatar);
    for i in 1..8 {
        assert_eq!(frames[i].picture.pixels, frames[8 - i].picture.pixels, "frame {}", i);
    }
}

#[test]
fn encode_gif_accepts_frames_with_a_side_of_zero() {
    let frames = vec![
        AnimationFrame { picture: Picture::new(0, 3, vec![]).unwrap(), delay_ms: 20 },
        AnimationFrame { picture: Picture::new(4, 0, vec![]).unwrap(), delay_ms: 20 },
        AnimationFrame { picture: filled(2, 2, [1, 2, 3, 255]), delay_ms: 20 },
    ];
    let bytes = encode_gif(&frames, 5).unwrap();
    assert_eq!(&bytes[..38], &preamble(0, 3)[..]);
    assert_eq!(*bytes.last().unwrap(), 0x3b);
}
