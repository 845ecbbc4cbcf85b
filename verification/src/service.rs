//! The three requests that the service answers: the redirect to the
//! descriptor, the descriptor, and a derivative of a picture.
//!
//! Reading files, decoding whole pictures and sending answers is left to the
//! caller; what is decided and computed between them stands here. The
//! decoders of whole files may panic on a damaged file, and nothing in this
//! crate does, so the caller decodes. A request for a derivative is answered
//! in one step where the file itself or a window of its PNG rows is the
//! answer, and in two where the whole picture has to be decoded first.

use vstd::prelude::*;
use crate::config::Config;
use crate::iiif::img_info::{
    extension_format, found_at, header_size, rect_of_size, resolved, ImgView, SourceFormat,
    NOT_FOUND_SUFFIX,
};
use crate::iiif::info_json::{descriptor_text, IIIFInfo};
use crate::iiif::quality::{
    mutate_image_quality, parse_quality, EPicQuality, OutputFormat, ENCODE_REFUSED,
};
use crate::iiif::region::{parse_region, EPicRegion};
use crate::iiif::rotation::{mutate_image_rotation, parse_rotation, EPicRotation, ROTATION_ANGLE};
use crate::iiif::size::{mutate_image_size, parse_size, EPicSize};
use crate::raster::{
    describe_image_error, encodable, encoded, height_of, image_height, image_width, is_grey,
    width_of,
};
use crate::wif_error::{
    bad_request, internal_error, not_found, Failure, StatusCode, WifError, INTERNAL_BODY,
};

verus! {

/// The four parameters of a request for a derivative. They are applied in
/// this order: region, size, rotation, quality.
#[derive(Clone, Copy, Debug, PartialEq, Eq, Structural)]
pub struct TransformPlan {
    pub region: EPicRegion,
    pub size: EPicSize,
    pub rotation: EPicRotation,
    pub quality: EPicQuality,
}

/// The answer to a request for a derivative.
#[derive(Debug)]
pub struct Derivative {
    pub body: Vec<u8>,
    pub content_type: &'static str,
    /// Whether `body` is the source file as it is.
    pub unmodified: bool,
}

/// An encoded picture with its format and its size.
#[derive(Debug)]
pub struct Encoded {
    pub body: Vec<u8>,
    pub format: OutputFormat,
    pub width: u32,
    pub height: u32,
}

/// What becomes of a request once its tokens are read and the bytes of the
/// source file are looked at.
#[derive(Debug)]
pub enum Answer {
    /// The answer.
    Done(Derivative),
    /// The whole picture has to be decoded from the bytes, which are handed
    /// back, and the plan applied to it.
    Decode(TransformPlan, Vec<u8>),
}

/// What an encoding says: its bytes, or its error.
pub open spec fn body_of(r: Result<Encoded, WifError>) -> Result<Seq<u8>, Failure> {
    match r {
        Ok(e) => Ok(e.body@),
        Err(e) => Err(e@),
    }
}

/// What a derivative says: its bytes, or its error.
pub open spec fn shown(r: Result<Derivative, WifError>) -> Result<Seq<u8>, Failure> {
    match r {
        Ok(d) => Ok(d.body@),
        Err(e) => Err(e@),
    }
}

/// The plan that four tokens write; the first token that is refused, in the
/// order region, size, rotation, quality, decides the error.
pub open spec fn parse_plan(
    region: Seq<char>,
    size: Seq<char>,
    rotation: Seq<char>,
    quality: Seq<char>,
    jpg_quality: u8,
) -> Result<TransformPlan, Failure> {
    match parse_region(region) {
        Err(e) => Err(e),
        Ok(region) => match parse_size(size) {
            Err(e) => Err(e),
            Ok(size) => match parse_rotation(rotation) {
                Err(e) => Err(e),
                Ok(rotation) => match parse_quality(quality, jpg_quality) {
                    Err(e) => Err(e),
                    Ok(quality) => Ok(TransformPlan { region, size, rotation, quality }),
                },
            },
        },
    }
}

impl TransformPlan {
    /// The content type under which the source file answers the plan as it
    /// is: the whole picture at its own size, not mirrored, not turned, in
    /// its own colours, from a PNG as PNG or from a JPEG as JPEG. None for
    /// every other plan.
    pub open spec fn stream_mime(self, source: SourceFormat) -> Option<Seq<char>> {
        if !(self.region is Full) || !(self.size is Max) || !self.rotation.is_identity()
            || !self.quality.keeps_colors() {
            None
        } else {
            match (self.quality.format_spec(), source) {
                (OutputFormat::Jpeg(_), SourceFormat::Jpeg) => Some("image/jpeg"@),
                (OutputFormat::Png, SourceFormat::Png) => Some("image/png"@),
                _ => None,
            }
        }
    }

    /// The size that the picture of the region, `width` by `height`, has
    /// after the size and the rotation stage, or the message that refuses
    /// the plan: the picture is scaled, and a quarter or three quarter turn
    /// swaps the axes.
    pub open spec fn turned_size(self, width: u32, height: u32) -> Result<(u32, u32), Seq<char>> {
        match self.size.target(width, height) {
            Err(m) => Err(m),
            Ok(t) => if self.rotation.allowed() {
                Ok(self.rotation.turned_size(t.0, t.1))
            } else {
                Err(ROTATION_ANGLE@)
            },
        }
    }

    /// The size of the answer to the plan for a `width` by `height`
    /// picture, or the message that refuses the plan: the region is cut, the
    /// result is scaled, and a quarter or three quarter turn swaps the axes.
    pub open spec fn response_size(self, width: u32, height: u32) -> Result<
        (u32, u32),
        Seq<char>,
    > {
        match self.region.section(width, height) {
            Err(m) => Err(m),
            Ok(s) => self.turned_size(s.dimensions.width, s.dimensions.height),
        }
    }

    /// Whether `r` is what the plan answers once its region is cut and has
    /// come to `width` by `height` pixels. A size or a rotation that is
    /// refused is a bad request with its message. Otherwise the answer is
    /// decided by the picture that reaches the encoder: it has the size that
    /// the plan comes to and is grey where the quality asks for it; it is
    /// too large for the format, an internal error, or the encoder writes
    /// the bytes of the answer, or writes none, an internal error.
    pub open spec fn answers(self, width: u32, height: u32, r: Result<Seq<u8>, Failure>) -> bool {
        match self.turned_size(width, height) {
            Err(m) => r == Err::<Seq<u8>, Failure>(bad_request(m)),
            Ok(t) => if !encodable(t.0, t.1, self.quality.format_spec()) {
                r == Err::<Seq<u8>, Failure>(internal_error(ENCODE_REFUSED@))
            } else {
                exists|img: image::DynamicImage|
                    {
                        &&& image_width(img) == t.0
                        &&& image_height(img) == t.1
                        &&& !self.quality.keeps_colors() ==> is_grey(img)
                        &&& (match #[trigger] encoded(img, self.quality.format_spec()) {
                            Some(b) => r == Ok::<Seq<u8>, Failure>(b),
                            None => r is Err && r->Err_0.status
                                == StatusCode::InternalServerError,
                        })
                    }
            },
        }
    }

    /// Whether `r` is what the plan answers for the picture `img`, decoded
    /// from the file that `img_view` describes. A view without pixels and a
    /// picture of another size than the view states are internal errors; a
    /// region that is refused is a bad request with its message; the rest
    /// is what [`TransformPlan::answers`] says of the region that is cut.
    pub open spec fn applied(
        self,
        img_view: &ImgView,
        img: image::DynamicImage,
        r: Result<Seq<u8>, Failure>,
    ) -> bool {
        if !img_view.wf() || image_width(img) != img_view.dimensions.width || image_height(img)
            != img_view.dimensions.height {
            r == Err::<Seq<u8>, Failure>(internal_error(INTERNAL_BODY@))
        } else {
            match self.region.section(img_view.dimensions.width, img_view.dimensions.height) {
                Err(m) => r == Err::<Seq<u8>, Failure>(bad_request(m)),
                Ok(s) => self.answers(s.dimensions.width, s.dimensions.height, r),
            }
        }
    }

    /// Reads the four tokens of a request.
    pub fn from_tokens(region: &str, size: &str, rotation: &str, quality: &str, jpg_quality: u8) -> (r:
        Result<TransformPlan, WifError>)
        ensures
            crate::wif_error::outcome(r) == parse_plan(
                region@,
                size@,
                rotation@,
                quality@,
                jpg_quality,
            ),
    {
        let region = EPicRegion::from_str(region)?;
        let size = EPicSize::from_str(size)?;
        let rotation = EPicRotation::from_str(rotation)?;
        let quality = EPicQuality::from_str(quality, jpg_quality)?;
        Ok(TransformPlan { region, size, rotation, quality })
    }

    /// Scales, turns, recolours and encodes the picture of the region.
    pub fn finish(&self, region: image::DynamicImage) -> (r: Result<Encoded, WifError>)
        ensures
            self.answers(image_width(region), image_height(region), body_of(r)),
            r is Ok ==> {
                &&& self.turned_size(image_width(region), image_height(region)) == Ok::<
                    (u32, u32),
                    Seq<char>,
                >((r->Ok_0.width, r->Ok_0.height))
                &&& r->Ok_0.format == self.quality.format_spec()
            },
    {
        let mut img = region;
        mutate_image_size(&self.size, &mut img)?;
        mutate_image_rotation(&self.rotation, &mut img)?;
        let mut quality = self.quality;
        let (body, format) = mutate_image_quality(&mut quality, &mut img)?;
        let answer = Encoded { body, format, width: width_of(&img), height: height_of(&img) };
        proof {
            assert(encoded(img, answer.format) == Some(answer.body@));
        }
        Ok(answer)
    }

    /// Applies the plan to the picture that the caller decoded from the
    /// file that `img_view` describes: region, size, rotation and quality in
    /// this order, then the encoding.
    pub fn apply(&self, img_view: &ImgView, decoded: image::DynamicImage) -> (r: Result<
        Encoded,
        WifError,
    >)
        ensures
            self.applied(img_view, decoded, body_of(r)),
            r is Ok ==> {
                &&& self.response_size(img_view.dimensions.width, img_view.dimensions.height)
                    == Ok::<(u32, u32), Seq<char>>((r->Ok_0.width, r->Ok_0.height))
                &&& r->Ok_0.format == self.quality.format_spec()
            },
    {
        if img_view.dimensions.width == 0 || img_view.dimensions.height == 0 {
            return Err(WifError::internal_error(INTERNAL_BODY.to_owned()));
        }
        let region = self.region.from_file(img_view, Ok(decoded))?;
        self.finish(region)
    }
}

/// Whether the source file answers the request as it is, and under which
/// content type.
pub fn try_stream_unmodified(
    img_view: &ImgView,
    region: &EPicRegion,
    size: &EPicSize,
    rotation: &EPicRotation,
    quality: &EPicQuality,
) -> (r: Option<&'static str>)
    ensures
        match (TransformPlan {
            region: *region,
            size: *size,
            rotation: *rotation,
            quality: *quality,
        }).stream_mime(img_view.format) {
            Some(m) => r is Some && r->0@ == m,
            None => r is None,
        },
{
    match region {
        EPicRegion::Full => (),
        _ => {
            return None;
        },
    }
    match size {
        EPicSize::Max => (),
        _ => {
            return None;
        },
    }
    if (rotation.rotation != 0 && rotation.rotation != 360) || rotation.mirrored {
        return None;
    }
    let format = match quality {
        EPicQuality::Default(f) => f,
        EPicQuality::Color(f) => f,
        _ => {
            return None;
        },
    };
    match (format, img_view.format) {
        (OutputFormat::Jpeg(_), SourceFormat::Jpeg) => Some("image/jpeg"),
        (OutputFormat::Png, SourceFormat::Png) => Some("image/png"),
        _ => None,
    }
}

/// An encoding as the answer to a request.
pub fn derivative(encoded: Result<Encoded, WifError>) -> (r: Result<Derivative, WifError>)
    ensures
        shown(r) == body_of(encoded),
        r is Ok ==> !r->Ok_0.unmodified && r->Ok_0.content_type@
            == encoded->Ok_0.format.mime_spec(),
{
    match encoded {
        Ok(e) => Ok(Derivative { body: e.body, content_type: e.format.mime(), unmodified: false }),
        Err(e) => Err(e),
    }
}

/// What [`show_img`] says of its answer: its bytes, or its error.
pub open spec fn first_step(r: Result<Answer, WifError>) -> Result<Seq<u8>, Failure> {
    match r {
        Ok(Answer::Done(d)) => Ok(d.body@),
        Ok(Answer::Decode(_, source)) => Ok(source@),
        Err(e) => Err(e@),
    }
}

/// Answers a request for a derivative of the picture that `img_view`
/// describes and whose file holds the bytes `source`, as far as that can be
/// done without decoding the whole picture. Tokens that are refused are a
/// bad request. The source file answers as it is where the plan changes
/// nothing. A view without pixels is an internal error. Where the region
/// can be cut out of the rows of a PNG stream, the plan is applied to it.
/// Otherwise the caller is to decode the picture and call [`show_decoded`].
pub fn show_img(
    img_view: &ImgView,
    source: Vec<u8>,
    region: &str,
    size: &str,
    rotation: &str,
    quality: &str,
    jpg_quality: u8,
) -> (r: Result<Answer, WifError>)
    ensures
        match parse_plan(region@, size@, rotation@, quality@, jpg_quality) {
            Err(e) => r is Err && r->Err_0@ == e,
            Ok(plan) => match plan.stream_mime(img_view.format) {
                Some(m) => {
                    &&& r is Ok
                    &&& r->Ok_0 is Done
                    &&& r->Ok_0->Done_0.unmodified
                    &&& r->Ok_0->Done_0.body@ == source@
                    &&& r->Ok_0->Done_0.content_type@ == m
                },
                None => if !img_view.wf() {
                    r is Err && r->Err_0@ == internal_error(INTERNAL_BODY@)
                } else {
                    match plan.region.window(img_view, source@) {
                        Some((s, _, _)) => {
                            &&& plan.answers(
                                s.dimensions.width,
                                s.dimensions.height,
                                first_step(r),
                            )
                            &&& r is Ok ==> r->Ok_0 is Done && !r->Ok_0->Done_0.unmodified
                                && r->Ok_0->Done_0.content_type@
                                == plan.quality.format_spec().mime_spec()
                        },
                        None => {
                            &&& r is Ok
                            &&& r->Ok_0 is Decode
                            &&& r->Ok_0->Decode_0 == plan
                            &&& r->Ok_0->Decode_1@ == source@
                        },
                    }
                },
            },
        },
{
    let plan = TransformPlan::from_tokens(region, size, rotation, quality, jpg_quality)?;
    match try_stream_unmodified(img_view, &plan.region, &plan.size, &plan.rotation, &plan.quality) {
        Some(mime) => {
            return Ok(Answer::Done(Derivative { body: source, content_type: mime, unmodified: true }));
        },
        None => {},
    }
    if img_view.dimensions.width == 0 || img_view.dimensions.height == 0 {
        return Err(WifError::internal_error(INTERNAL_BODY.to_owned()));
    }
    match plan.region.try_get_from_png(img_view, source.as_slice()) {
        Some(window) => {
            let done = derivative(plan.finish(window))?;
            Ok(Answer::Done(done))
        },
        None => Ok(Answer::Decode(plan, source)),
    }
}

/// Answers a request for a derivative from the picture that the caller
/// decoded from the file that `img_view` describes, or from the error that
/// decoding gave, which is an internal error.
pub fn show_decoded(
    img_view: &ImgView,
    plan: &TransformPlan,
    decoded: Result<image::DynamicImage, image::ImageError>,
) -> (r: Result<Derivative, WifError>)
    ensures
        match decoded {
            Err(_) => r is Err && r->Err_0.status == StatusCode::InternalServerError,
            Ok(img) => plan.applied(img_view, img, shown(r)),
        },
        r is Ok ==> !r->Ok_0.unmodified && r->Ok_0.content_type@
            == plan.quality.format_spec().mime_spec(),
{
    match decoded {
        Err(e) => Err(WifError::internal_error(describe_image_error(&e))),
        Ok(img) => derivative(plan.apply(img_view, img)),
    }
}

/// The descriptor that answers a request for the picture `identifier`, or
/// why there is none: the descriptor states the size that the header of the
/// picture's file states.
pub open spec fn described(
    identifier: Seq<char>,
    probe: Seq<bool>,
    contents: Seq<u8>,
    base_address: Seq<char>,
    max_area: u64,
) -> Result<Seq<char>, Failure> {
    match found_at(identifier, probe) {
        Some(i) => match rect_of_size(header_size(contents, extension_format(i))) {
            Some(rect) => Ok(
                descriptor_text(base_address, identifier, rect.width, rect.height, max_area),
            ),
            None => Err(internal_error(INTERNAL_BODY@)),
        },
        None => Err(not_found(identifier + NOT_FOUND_SUFFIX@)),
    }
}

/// The descriptor of a picture states the width and the height that are
/// known of the picture of the same identifier, and there is a descriptor
/// exactly where something is known of the picture.
pub proof fn lemma_descriptor_size(
    identifier: Seq<char>,
    image_path: Seq<char>,
    probe: Seq<bool>,
    contents: Seq<u8>,
    base_address: Seq<char>,
    max_area: u64,
)
    ensures
        match resolved(identifier, image_path, probe, contents) {
            Ok((_, _, dimensions)) => described(
                identifier,
                probe,
                contents,
                base_address,
                max_area,
            ) == Ok::<Seq<char>, Failure>(
                descriptor_text(
                    base_address,
                    identifier,
                    dimensions.width,
                    dimensions.height,
                    max_area,
                ),
            ),
            Err(e) => described(identifier, probe, contents, base_address, max_area) == Err::<
                Seq<char>,
                Failure,
            >(e),
        },
{
}

/// Answers a request for the descriptor of the picture `identifier`. `probe`
/// says for each file of [`ImgView::candidates`] whether it exists, and
/// `contents` holds the first one that does.
pub fn info_json(identifier: &str, probe: &Vec<bool>, contents: &[u8], config: &Config) -> (r: Result<
    String,
    WifError,
>)
    ensures
        match described(identifier@, probe@, contents@, config.base_address@, config.max_area) {
            Ok(text) => r is Ok && r->Ok_0@ == text,
            Err(e) => r is Err && r->Err_0@ == e,
        },
{
    let image_path = config.image_path();
    let img_view = ImgView::for_identifier(identifier, image_path.as_str(), probe, contents)?;
    IIIFInfo::for_img(&img_view, config)
}

/// Where a request for the bare identifier is sent on to.
pub open spec fn info_location(identifier: Seq<char>) -> Seq<char> {
    "/iiif/"@ + identifier + "/info.json"@
}

/// An answer that sends the client on.
#[derive(Debug)]
pub struct Redirect {
    pub status: u16,
    pub location: String,
}

/// The answer to a request for the bare identifier: moved permanently to
/// the descriptor of that identifier.
pub fn redirect_info_json(identifier: &str) -> (r: Redirect)
    ensures
        r.status == 301,
        r.location@ == info_location(identifier@),
{
    let mut location = "/iiif/".to_owned();
    location.append(identifier);
    location.append("/info.json");
    Redirect { status: 301, location }
}

} // verus!
