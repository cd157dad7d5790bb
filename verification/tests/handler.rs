use std::io::Cursor;

use image::{ImageOutputFormat, Rgba, RgbaImage};
use pfpet::avatars::AvatarError;
use pfpet::filters::pet::Pet;
use pfpet::filters::ImageFilter;
use pfpet::handler::respond;

fn png_of(img: &RgbaImage) -> Vec<u8> {
    let mut out = Cursor::new(Vec::new());
    img.write_to(&mut out, ImageOutputFormat::Png).unwrap();
    out.into_inner()
}

fn pet() -> Pet {
    let hand = png_of(&RgbaImage::from_pixel(112, 112, Rgba([0, 0, 0, 0])));
    Pet::from_pngs(&[hand.clone(), hand.clone(), hand.clone(), hand.clone(), hand]).unwrap()
}

#[test]
fn failed_fetch_is_not_found() {
    let r = respond(&pet(), Err(AvatarError::NotFound));
    assert_eq!((r.status, r.content_type, r.body.len()), (404, None, 0));
    let r = respond(&pet(), Err(AvatarError::Transport));
    assert_eq!(r.status, 404);
}

#[test]
fn failed_filter_is_internal_error() {
    let r = respond(&pet(), Ok(b"garbage".to_vec()));
    assert_eq!((r.status, r.content_type, r.body.len()), (500, None, 0));
}

#[test]
fn filtered_avatar_is_a_gif() {
    let avatar = png_of(&RgbaImage::from_pixel(16, 16, Rgba([1, 2, 3, 255])));
    let p = pet();
    let r = respond(&p, Ok(avatar.clone()));
    assert_eq!(r.status, 200);
    assert_eq!(r.content_type.as_deref(), Some("image/gif"));
    assert_eq!(r.body, p.convert_bytes(&avatar).unwrap());
}
