//! The answer to a request for a filtered avatar.
use vstd::prelude::*;
use crate::avatars::AvatarError;
use crate::filters::ImageFilter;

verus! {

/// HTTP status 200.
pub const STATUS_OK: u16 = 200;

/// HTTP status 404.
pub const STATUS_NOT_FOUND: u16 = 404;

/// HTTP status 500.
pub const STATUS_INTERNAL_SERVER_ERROR: u16 = 500;

/// An HTTP answer: status, content type (where there is a body) and body.
pub struct Response {
    pub status: u16,
    pub content_type: Option<String>,
    pub body: Vec<u8>,
}

/// The content type of a GIF.
pub open spec fn gif_content_type() -> Seq<char> {
    "image/gif"@
}

/// An answer with a status and nothing else.
fn bare(status: u16) -> (r: Response)
    ensures
        r.status == status,
        r.content_type is None,
        r.body@.len() == 0,
{
    Response { status, content_type: None, body: Vec::new() }
}

/// The answer to a request whose avatar fetch gave `avatar`: 404 where the
/// fetch failed, 500 where `filter` could not make the animation, and
/// otherwise 200 with the GIF that `filter` made, typed `image/gif`.
pub fn respond<F: ImageFilter>(filter: &F, avatar: Result<Vec<u8>, AvatarError>) -> (r: Response)
    ensures
        match avatar {
            Err(_) => r.status == STATUS_NOT_FOUND && r.content_type is None && r.body@.len() == 0,
            Ok(png) => match filter.filtered(png@) {
                Ok(gif) => {
                    &&& r.status == STATUS_OK
                    &&& r.content_type matches Some(t) && t@ == gif_content_type()
                    &&& r.body@ == gif
                },
                Err(_) => r.status == STATUS_INTERNAL_SERVER_ERROR && r.content_type is None
                    && r.body@.len() == 0,
            },
        },
{
    let png = match avatar {
        Ok(png) => png,
        Err(_) => return bare(STATUS_NOT_FOUND),
    };
    match filter.convert_bytes(png.as_slice()) {
        Ok(gif) => Response {
            status: STATUS_OK,
            content_type: Some(String::from_str("image/gif")),
            body: gif,
        },
        Err(_) => bare(STATUS_INTERNAL_SERVER_ERROR),
    }
}

} // verus!
