//! The rotation parameter: an optional mirroring and a turn by quarters.

use vstd::prelude::*;
use crate::number::read_digits;
use crate::raster::{
    flip_image, image_height, image_pixel, image_width, rotate_image_180, rotate_image_270,
    rotate_image_90,
};
use crate::text::{all_digits, chars_of, digits_value, strip_mark, take_mark};
use crate::wif_error::{bad_request, outcome, Failure, WifError};

verus! {

/// The message for a rotation token outside the grammar.
pub const ROTATION_PARSE: &'static str = "Rotation cannot be parsed";

/// The message for an angle that is no multiple of 90 up to 360.
pub const ROTATION_ANGLE: &'static str = "Rotation must be 0, 90, 180, 270 or 360";

/// The rotation of a request: degrees clockwise, applied after mirroring
/// the picture left to right if `mirrored` is set.
#[derive(Clone, Copy, Debug, PartialEq, Eq, Structural)]
pub struct EPicRotation {
    pub rotation: u32,
    pub mirrored: bool,
}

/// The rotation that the token `s` writes: an optional `!` and an unsigned
/// whole number that fits 32 bits; anything else is a bad request.
pub open spec fn parse_rotation(s: Seq<char>) -> Result<EPicRotation, Failure> {
    let (mirrored, body) = strip_mark(s, '!');
    if body.len() > 0 && all_digits(body) && digits_value(body) <= u32::MAX {
        Ok(EPicRotation { rotation: digits_value(body) as u32, mirrored })
    } else {
        Err(bad_request(ROTATION_PARSE@))
    }
}

impl EPicRotation {
    /// Whether the angle is one that the pipeline turns by.
    pub open spec fn allowed(self) -> bool {
        self.rotation == 0 || self.rotation == 90 || self.rotation == 180 || self.rotation == 270
            || self.rotation == 360
    }

    /// Whether the rotation changes nothing.
    pub open spec fn is_identity(self) -> bool {
        (self.rotation == 0 || self.rotation == 360) && !self.mirrored
    }

    /// The size of a `width` by `height` picture after the rotation: a
    /// quarter or three quarter turn swaps the axes.
    pub open spec fn turned_size(self, width: u32, height: u32) -> (u32, u32) {
        if self.rotation == 90 || self.rotation == 270 {
            (height, width)
        } else {
            (width, height)
        }
    }

    /// Where in a `width` by `height` picture the pixel comes from that
    /// stands at column `i`, row `j` after the rotation.
    pub open spec fn source_of(self, width: int, height: int, i: int, j: int) -> (int, int) {
        let at = if self.rotation == 90 {
            (j, height - 1 - i)
        } else if self.rotation == 180 {
            (width - 1 - i, height - 1 - j)
        } else if self.rotation == 270 {
            (width - 1 - j, i)
        } else {
            (i, j)
        };
        if self.mirrored {
            (width - 1 - at.0, at.1)
        } else {
            at
        }
    }

    /// Whether `out` is `src` after the rotation.
    pub open spec fn relates(self, src: image::DynamicImage, out: image::DynamicImage) -> bool {
        &&& image_width(out) == self.turned_size(image_width(src), image_height(src)).0
        &&& image_height(out) == self.turned_size(image_width(src), image_height(src)).1
        &&& forall|i: int, j: int|
            0 <= i < image_width(out) && 0 <= j < image_height(out) ==> #[trigger] image_pixel(
                out,
                i,
                j,
            ) == image_pixel(
                src,
                self.source_of(image_width(src) as int, image_height(src) as int, i, j).0,
                self.source_of(image_width(src) as int, image_height(src) as int, i, j).1,
            )
    }

    /// Reads the rotation token of a request.
    pub fn from_str(s: &str) -> (r: Result<EPicRotation, WifError>)
        ensures
            outcome(r) == parse_rotation(s@),
    {
        let text = chars_of(s);
        let (mirrored, body) = take_mark(text, '!');
        if body.len() == 0 {
            return Err(WifError::bad_request(ROTATION_PARSE.to_owned()));
        }
        match read_digits(&body, 4_294_967_296) {
            Some(v) => {
                if v > 4_294_967_295 {
                    Err(WifError::bad_request(ROTATION_PARSE.to_owned()))
                } else {
                    Ok(EPicRotation { rotation: v as u32, mirrored })
                }
            },
            None => Err(WifError::bad_request(ROTATION_PARSE.to_owned())),
        }
    }
}

/// Mirrors the picture if asked to, then turns it. An angle that is refused
/// leaves the picture as it was.
pub fn mutate_image_rotation(rotation: &EPicRotation, img: &mut image::DynamicImage) -> (r: Result<
    (),
    WifError,
>)
    ensures
        rotation.allowed() ==> r is Ok && rotation.relates(*old(img), *final(img)),
        !rotation.allowed() ==> r is Err && r->Err_0@ == bad_request(ROTATION_ANGLE@),
        !rotation.allowed() ==> *final(img) == *old(img),
        rotation.is_identity() ==> *final(img) == *old(img),
{
    let angle = rotation.rotation;
    if angle != 0 && angle != 90 && angle != 180 && angle != 270 && angle != 360 {
        return Err(WifError::bad_request(ROTATION_ANGLE.to_owned()));
    }
    if rotation.mirrored {
        flip_image(img);
    }
    if angle == 90 {
        rotate_image_90(img);
    } else if angle == 180 {
        rotate_image_180(img);
    } else if angle == 270 {
        rotate_image_270(img);
    }
    Ok(())
}

} // verus!
