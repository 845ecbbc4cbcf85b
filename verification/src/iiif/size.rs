//! The size parameter: the dimensions that the selected region is scaled to.

use vstd::prelude::*;
use crate::number::{clip, parse_decimal, Decimal};
use crate::raster::{
    area_fits, fitted, has_pixels, height_of, image_height, image_width, resize_image_exact,
    resize_image_fit, width_of,
};
use crate::text::{
    chars_of, has_prefix, is_word, lemma_split_nonempty, split, split_chars, starts_with,
    strip_mark, tail_from, take_mark, texts,
};
use crate::wif_error::{bad_request, outcome, Failure, WifError};

verus! {

/// The message for a size token outside the grammar.
pub const SIZE_PARSE: &'static str = "Cannot parse parameter size";

/// The message for a size that the picture cannot be scaled to.
pub const SIZE_NOT_ALLOWED: &'static str = "Size not allowed";

/// The message for a width and height beyond the picture without upscaling.
pub const SIZE_BOX_NOT_ALLOWED: &'static str = "This size is not allowed";

/// The size of a request. `upscale` allows a result larger than the region.
#[derive(Clone, Copy, Debug, PartialEq, Eq, Structural)]
pub enum EPicSize {
    /// The size of the region itself.
    Max,
    /// A width; the height follows in proportion.
    Width { w: Decimal, upscale: bool },
    /// A height; the width follows in proportion.
    Height { h: Decimal, upscale: bool },
    /// A percentage of the region's width and height.
    Perc { n: Decimal, upscale: bool },
    /// A width and a height. With `forced`, the picture is fitted into that
    /// box with its aspect ratio kept; without, it is scaled to exactly that
    /// size.
    WidthHeight { w: Decimal, h: Decimal, forced: bool, upscale: bool },
}

/// The size that `body`, a size token without its `^` and `!` marks, writes:
/// `pct:n`, `w,h`, `w,` or `,h`, tried in that order.
pub open spec fn size_body(body: Seq<char>, forced: bool, upscale: bool) -> Option<EPicSize> {
    let f = split(body, ',');
    if has_prefix(body, "pct:"@) && parse_decimal(body.skip("pct:"@.len() as int)) is Some {
        Some(EPicSize::Perc { n: parse_decimal(body.skip("pct:"@.len() as int))->0, upscale })
    } else if f.len() != 2 {
        None
    } else if parse_decimal(f[0]) is Some && parse_decimal(f[1]) is Some {
        Some(
            EPicSize::WidthHeight {
                w: parse_decimal(f[0])->0,
                h: parse_decimal(f[1])->0,
                forced,
                upscale,
            },
        )
    } else if parse_decimal(f[0]) is Some && f[1].len() == 0 {
        Some(EPicSize::Width { w: parse_decimal(f[0])->0, upscale })
    } else if f[0].len() == 0 && parse_decimal(f[1]) is Some {
        Some(EPicSize::Height { h: parse_decimal(f[1])->0, upscale })
    } else {
        None
    }
}

/// The size that the token `s` writes: `max` or `^max`, or an optional `^`,
/// an optional `!`, and one of the forms of [`size_body`]; anything else is
/// a bad request.
pub open spec fn parse_size(s: Seq<char>) -> Result<EPicSize, Failure> {
    if s == "max"@ || s == "^max"@ {
        Ok(EPicSize::Max)
    } else {
        let (upscale, rest) = strip_mark(s, '^');
        let (forced, body) = strip_mark(rest, '!');
        match size_body(body, forced, upscale) {
            Some(size) => Ok(size),
            None => Err(bad_request(SIZE_PARSE@)),
        }
    }
}

/// The size that scaling comes to: exactly the box, or the box fitted to the
/// picture's aspect ratio.
pub open spec fn scaled_size(
    width: u32,
    height: u32,
    box_w: u32,
    box_h: u32,
    exact: bool,
) -> (int, int) {
    if exact {
        (box_w as int, box_h as int)
    } else {
        fitted(width, height, box_w, box_h)
    }
}

/// Fits a `src_w` by `src_h` picture into a `box_w` by `box_h` box.
pub fn fit_dimensions(src_w: u32, src_h: u32, box_w: u32, box_h: u32) -> (r: (u32, u32))
    requires
        src_w > 0,
        src_h > 0,
    ensures
        r.0 == fitted(src_w, src_h, box_w, box_h).0,
        r.1 == fitted(src_w, src_h, box_w, box_h).1,
{
    assert(box_w * src_h <= 0xFFFF_FFFF * 0xFFFF_FFFF) by (nonlinear_arith)
        requires
            box_w <= 0xFFFF_FFFF,
            src_h <= 0xFFFF_FFFF,
    ;
    assert(src_w * box_h <= 0xFFFF_FFFF * 0xFFFF_FFFF) by (nonlinear_arith)
        requires
            src_w <= 0xFFFF_FFFF,
            box_h <= 0xFFFF_FFFF,
    ;
    let across: u64 = box_w as u64 * src_h as u64;
    let along: u64 = src_w as u64 * box_h as u64;
    let by_width = across <= along;
    let raw: u64 = if by_width {
        across / src_w as u64
    } else {
        along / src_h as u64
    };
    let other: u64 = if raw < 1 {
        1
    } else {
        raw
    };
    let top: u64 = 0xFFFF_FFFF;
    if by_width {
        if other <= top {
            (box_w, other as u32)
        } else {
            assert(box_w * top <= 0xFFFF_FFFF * 0xFFFF_FFFF) by (nonlinear_arith)
                requires
                    box_w <= 0xFFFF_FFFF,
                    top == 0xFFFF_FFFF,
            ;
            let shrunk: u64 = box_w as u64 * top / other;
            assert(shrunk <= box_w) by (nonlinear_arith)
                requires
                    shrunk == (box_w * top) / (other as int),
                    other > top,
                    top > 0,
            ;
            (shrunk as u32, u32::MAX)
        }
    } else {
        if other <= top {
            (other as u32, box_h)
        } else {
            assert(box_h * top <= 0xFFFF_FFFF * 0xFFFF_FFFF) by (nonlinear_arith)
                requires
                    box_h <= 0xFFFF_FFFF,
                    top == 0xFFFF_FFFF,
            ;
            let shrunk: u64 = box_h as u64 * top / other;
            assert(shrunk <= box_h) by (nonlinear_arith)
                requires
                    shrunk == (box_h * top) / (other as int),
                    other > top,
                    top > 0,
            ;
            (u32::MAX, shrunk as u32)
        }
    }
}

/// Whether a buffer of `width` by `height` pixels can be allocated.
pub fn check_area(width: u32, height: u32) -> (r: bool)
    ensures
        r == area_fits(width as int, height as int),
{
    assert(width * height <= 0xFFFF_FFFF * 0xFFFF_FFFF) by (nonlinear_arith)
        requires
            width <= 0xFFFF_FFFF,
            height <= 0xFFFF_FFFF,
    ;
    let area: u64 = width as u64 * height as u64;
    let limit: usize = usize::MAX / 16;
    area <= limit as u64
}

impl EPicSize {
    /// The box that the size asks for in a `width` by `height` picture, and
    /// whether the result is to be exactly that box; no box for `Max`. A
    /// width or a height beyond the picture asks, where upscaling is
    /// allowed, for exactly that width or height with the other side scaled
    /// by the same factor and rounded. A message refuses a size beyond the
    /// picture where upscaling is not allowed.
    pub open spec fn request(self, width: u32, height: u32) -> Result<
        Option<(u32, u32, bool)>,
        Seq<char>,
    > {
        match self {
            EPicSize::Max => Ok(None),
            EPicSize::Width { w, upscale } => if clip(w.rounded()) > width {
                if upscale {
                    Ok(
                        Some(
                            (
                                clip(w.rounded()),
                                clip(w.scaled_spec(height as nat, width as nat)),
                                true,
                            ),
                        ),
                    )
                } else {
                    Err(SIZE_NOT_ALLOWED@)
                }
            } else {
                Ok(Some((clip(w.rounded()), height, false)))
            },
            EPicSize::Height { h, upscale } => if clip(h.rounded()) > height {
                if upscale {
                    Ok(
                        Some(
                            (
                                clip(h.scaled_spec(width as nat, height as nat)),
                                clip(h.rounded()),
                                true,
                            ),
                        ),
                    )
                } else {
                    Err(SIZE_NOT_ALLOWED@)
                }
            } else {
                Ok(Some((width, clip(h.rounded()), false)))
            },
            EPicSize::Perc { n, upscale } => if n.micros >= 100_000_000 && !upscale {
                Err(SIZE_NOT_ALLOWED@)
            } else {
                Ok(
                    Some(
                        (
                            clip(n.percent_of_spec(width as nat)),
                            clip(n.percent_of_spec(height as nat)),
                            true,
                        ),
                    ),
                )
            },
            EPicSize::WidthHeight { w, h, forced, upscale } => if (w.micros > width * 1_000_000
                || h.micros > height * 1_000_000) && !upscale {
                Err(SIZE_BOX_NOT_ALLOWED@)
            } else {
                Ok(Some((clip(w.rounded()), clip(h.rounded()), !forced)))
            },
        }
    }

    /// The dimensions that a `width` by `height` picture has after the size
    /// stage, or the message that refuses the size: a picture without
    /// pixels that is to be scaled, what [`EPicSize::request`] refuses, a
    /// box or a result without pixels, and a result too large to allocate.
    pub open spec fn target(self, width: u32, height: u32) -> Result<(u32, u32), Seq<char>> {
        if self is Max {
            Ok((width, height))
        } else if width == 0 || height == 0 {
            Err(SIZE_NOT_ALLOWED@)
        } else {
            match self.request(width, height) {
                Err(m) => Err(m),
                Ok(None) => Ok((width, height)),
                Ok(Some((box_w, box_h, exact))) => {
                    let t = scaled_size(width, height, box_w, box_h, exact);
                    if box_w == 0 || box_h == 0 || t.0 == 0 || t.1 == 0 || !area_fits(t.0, t.1)
                        || !area_fits(width as int, t.1) {
                        Err(SIZE_NOT_ALLOWED@)
                    } else {
                        Ok((t.0 as u32, t.1 as u32))
                    }
                },
            }
        }
    }

    /// Reads a size token without its marks as a percentage.
    fn parse_as_percent(s: &Vec<char>) -> (r: Option<Decimal>)
        ensures
            r == (if has_prefix(s@, "pct:"@) {
                parse_decimal(s@.skip("pct:"@.len() as int))
            } else {
                None
            }),
    {
        if starts_with(s, "pct:") {
            let prefix = chars_of("pct:");
            let body = tail_from(s, prefix.len());
            Decimal::parse(&body)
        } else {
            None
        }
    }

    /// Reads a size token without its marks as `w,h`.
    fn parse_as_width_and_height(parts: &Vec<Vec<char>>) -> (r: Option<(Decimal, Decimal)>)
        requires
            parts.len() == 2,
        ensures
            r == (if parse_decimal(parts@[0]@) is Some && parse_decimal(parts@[1]@) is Some {
                Some((parse_decimal(parts@[0]@)->0, parse_decimal(parts@[1]@)->0))
            } else {
                None
            }),
    {
        match Decimal::parse(&parts[0]) {
            Some(w) => match Decimal::parse(&parts[1]) {
                Some(h) => Some((w, h)),
                None => None,
            },
            None => None,
        }
    }

    /// Reads a size token without its marks as `w,`.
    fn parse_as_width(parts: &Vec<Vec<char>>) -> (r: Option<Decimal>)
        requires
            parts.len() == 2,
        ensures
            r == (if parts@[1]@.len() == 0 {
                parse_decimal(parts@[0]@)
            } else {
                None
            }),
    {
        if parts[1].len() == 0 {
            Decimal::parse(&parts[0])
        } else {
            None
        }
    }

    /// Reads a size token without its marks as `,h`.
    fn parse_as_height(parts: &Vec<Vec<char>>) -> (r: Option<Decimal>)
        requires
            parts.len() == 2,
        ensures
            r == (if parts@[0]@.len() == 0 {
                parse_decimal(parts@[1]@)
            } else {
                None
            }),
    {
        if parts[0].len() == 0 {
            Decimal::parse(&parts[1])
        } else {
            None
        }
    }

    /// Reads the size token of a request.
    pub fn from_str(s: &str) -> (r: Result<EPicSize, WifError>)
        ensures
            outcome(r) == parse_size(s@),
    {
        let text = chars_of(s);
        if is_word(&text, "max") || is_word(&text, "^max") {
            return Ok(EPicSize::Max);
        }
        let (upscale, rest) = take_mark(text, '^');
        let (forced, part) = take_mark(rest, '!');
        if let Some(n) = EPicSize::parse_as_percent(&part) {
            return Ok(EPicSize::Perc { n, upscale });
        }
        let parts = split_chars(&part, ',');
        proof {
            lemma_split_nonempty(part@, ',');
            assert(texts(parts@).len() == parts@.len());
        }
        if parts.len() != 2 {
            return Err(WifError::bad_request(SIZE_PARSE.to_owned()));
        }
        proof {
            assert(texts(parts@)[0] == parts@[0]@);
            assert(texts(parts@)[1] == parts@[1]@);
        }
        if let Some((w, h)) = EPicSize::parse_as_width_and_height(&parts) {
            return Ok(EPicSize::WidthHeight { w, h, forced, upscale });
        }
        if let Some(w) = EPicSize::parse_as_width(&parts) {
            return Ok(EPicSize::Width { w, upscale });
        }
        if let Some(h) = EPicSize::parse_as_height(&parts) {
            return Ok(EPicSize::Height { h, upscale });
        }
        Err(WifError::bad_request(SIZE_PARSE.to_owned()))
    }
}

/// Scales the picture to the size asked for. A width or a height within the
/// picture and a `forced` width and height fit the picture into a box with
/// its aspect ratio kept; a width or a height beyond the picture, a
/// percentage, and a width and height that are not `forced` give exactly the
/// size they come to.
/// A size that is refused leaves the picture as it was; a picture without
/// pixels is left as it is by `Max` and refused by every other size.
pub fn mutate_image_size(size: &EPicSize, img: &mut image::DynamicImage) -> (r: Result<
    (),
    WifError,
>)
    ensures
        match size.target(image_width(*old(img)), image_height(*old(img))) {
            Ok(t) => {
                &&& r is Ok
                &&& image_width(*final(img)) == t.0
                &&& image_height(*final(img)) == t.1
                &&& has_pixels(*old(img)) ==> has_pixels(*final(img))
            },
            Err(m) => r is Err && r->Err_0@ == bad_request(m) && *final(img) == *old(img),
        },
        size is Max ==> *final(img) == *old(img),
{
    let width = width_of(img);
    let height = height_of(img);
    if let EPicSize::Max = size {
        return Ok(());
    }
    if width == 0 || height == 0 {
        return Err(WifError::bad_request(SIZE_NOT_ALLOWED.to_owned()));
    }
    let (box_w, box_h, exact) = match size {
        EPicSize::Max => {
            return Ok(());
        },
        EPicSize::Height { h, upscale } => {
            if h.round() > height {
                if *upscale {
                    (h.scaled(width, height), h.round(), true)
                } else {
                    return Err(WifError::bad_request(SIZE_NOT_ALLOWED.to_owned()));
                }
            } else {
                (width, h.round(), false)
            }
        },
        EPicSize::Width { w, upscale } => {
            if w.round() > width {
                if *upscale {
                    (w.round(), w.scaled(height, width), true)
                } else {
                    return Err(WifError::bad_request(SIZE_NOT_ALLOWED.to_owned()));
                }
            } else {
                (w.round(), height, false)
            }
        },
        EPicSize::Perc { n, upscale } => {
            if n.at_least(100) && !*upscale {
                return Err(WifError::bad_request(SIZE_NOT_ALLOWED.to_owned()));
            }
            (n.percent_of(width), n.percent_of(height), true)
        },
        EPicSize::WidthHeight { w, h, forced, upscale } => {
            if w.exceeds(width) && !*upscale {
                return Err(WifError::bad_request(SIZE_BOX_NOT_ALLOWED.to_owned()));
            }
            if h.exceeds(height) && !*upscale {
                return Err(WifError::bad_request(SIZE_BOX_NOT_ALLOWED.to_owned()));
            }
            (w.round(), h.round(), !*forced)
        },
    };
    if box_w == 0 || box_h == 0 {
        return Err(WifError::bad_request(SIZE_NOT_ALLOWED.to_owned()));
    }
    let (new_w, new_h) = if exact {
        (box_w, box_h)
    } else {
        fit_dimensions(width, height, box_w, box_h)
    };
    if new_w == 0 || new_h == 0 || !check_area(new_w, new_h) || !check_area(width, new_h) {
        return Err(WifError::bad_request(SIZE_NOT_ALLOWED.to_owned()));
    }
    if exact {
        resize_image_exact(img, box_w, box_h);
    } else {
        resize_image_fit(img, box_w, box_h);
    }
    Ok(())
}

} // verus!
