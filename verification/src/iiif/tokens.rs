//! Writing request parameters back as the tokens that are read as them.
//!
//! Each parameter has one canonical token. Reading the canonical token of a
//! parameter gives the parameter back; the proofs of that stand here.

use vstd::prelude::*;
use crate::iiif::quality::{parse_quality, EPicQuality, OutputFormat};
use crate::iiif::region::{parse_region, region_numbers, EPicRegion};
use crate::iiif::rotation::{parse_rotation, EPicRotation};
use crate::iiif::size::{parse_size, size_body, EPicSize};
use crate::number::{lemma_parsed_in_range, parse_decimal, Decimal};
use crate::service::{parse_plan, TransformPlan};
use crate::text::{
    append_decimal, decimal_text, has_prefix, is_digit,
    lemma_decimal_text, lemma_split_append, lemma_split_pair, lemma_split_plain,
    lower_text, push_char, split, strip_mark,
};

verus! {

/// Four numbers with commas between them.
pub open spec fn quad_text(x: Decimal, y: Decimal, w: Decimal, h: Decimal) -> Seq<char> {
    x.text() + seq![','] + y.text() + seq![','] + w.text() + seq![','] + h.text()
}

/// The canonical token of a region.
pub open spec fn region_token(r: EPicRegion) -> Seq<char> {
    match r {
        EPicRegion::Full => "full"@,
        EPicRegion::Square => "square"@,
        EPicRegion::Reg { x, y, w, h } => quad_text(x, y, w, h),
        EPicRegion::RegPerc { x, y, w, h } => "pct:"@ + quad_text(x, y, w, h),
    }
}

/// Whether a region is one that a token can write: its numbers are in
/// range, its width and height are not zero, and a percent region starts
/// below 100 percent.
pub open spec fn region_canonical(r: EPicRegion) -> bool {
    match r {
        EPicRegion::Full => true,
        EPicRegion::Square => true,
        EPicRegion::Reg { x, y, w, h } => x.in_range() && y.in_range() && w.in_range()
            && h.in_range() && w.micros != 0 && h.micros != 0,
        EPicRegion::RegPerc { x, y, w, h } => x.in_range() && y.in_range() && w.in_range()
            && h.in_range() && w.micros != 0 && h.micros != 0 && x.micros < 100_000_000
            && y.micros < 100_000_000,
    }
}

/// The marks before a size: `^` for upscaling, then `!` for a fitted box.
pub open spec fn size_marks(upscale: bool, forced: bool) -> Seq<char> {
    (if upscale {
        seq!['^']
    } else {
        Seq::<char>::empty()
    }) + (if forced {
        seq!['!']
    } else {
        Seq::<char>::empty()
    })
}

/// The canonical token of a size.
pub open spec fn size_token(s: EPicSize) -> Seq<char> {
    match s {
        EPicSize::Max => "max"@,
        EPicSize::Width { w, upscale } => size_marks(upscale, false) + (w.text() + seq![',']),
        EPicSize::Height { h, upscale } => size_marks(upscale, false) + (seq![','] + h.text()),
        EPicSize::Perc { n, upscale } => size_marks(upscale, false) + ("pct:"@ + n.text()),
        EPicSize::WidthHeight { w, h, forced, upscale } => size_marks(upscale, forced) + (w.text()
            + seq![','] + h.text()),
    }
}

/// Whether a size is one that a token can write: its numbers are in range.
pub open spec fn size_canonical(s: EPicSize) -> bool {
    match s {
        EPicSize::Max => true,
        EPicSize::Width { w, upscale } => w.in_range(),
        EPicSize::Height { h, upscale } => h.in_range(),
        EPicSize::Perc { n, upscale } => n.in_range(),
        EPicSize::WidthHeight { w, h, forced, upscale } => w.in_range() && h.in_range(),
    }
}

/// The canonical token of a rotation.
pub open spec fn rotation_token(r: EPicRotation) -> Seq<char> {
    (if r.mirrored {
        seq!['!']
    } else {
        Seq::<char>::empty()
    }) + decimal_text(r.rotation as nat)
}

/// The canonical name of a format.
pub open spec fn format_name(f: OutputFormat) -> Seq<char> {
    match f {
        OutputFormat::Jpeg(_) => seq!['j', 'p', 'g'],
        OutputFormat::Png => seq!['p', 'n', 'g'],
        OutputFormat::Bmp => seq!['b', 'm', 'p'],
        OutputFormat::Ico => seq!['i', 'c', 'o'],
        OutputFormat::Tga => seq!['t', 'g', 'a'],
    }
}

/// The name of a quality.
pub open spec fn quality_name(q: EPicQuality) -> Seq<char> {
    match q {
        EPicQuality::Color(_) => seq!['c', 'o', 'l', 'o', 'r'],
        EPicQuality::Gray(_) => seq!['g', 'r', 'a', 'y'],
        EPicQuality::Bitonal(_) => seq!['b', 'i', 't', 'o', 'n', 'a', 'l'],
        EPicQuality::Default(_) => seq!['d', 'e', 'f', 'a', 'u', 'l', 't'],
    }
}

/// The canonical token of a quality with its format.
pub open spec fn quality_token(q: EPicQuality) -> Seq<char> {
    quality_name(q) + seq!['.'] + format_name(q.format_spec())
}

/// Whether a quality is one that a token can write where JPEG answers are
/// encoded with the quality `jpg_quality`.
pub open spec fn quality_canonical(q: EPicQuality, jpg_quality: u8) -> bool {
    match q.format_spec() {
        OutputFormat::Jpeg(v) => v == jpg_quality,
        _ => true,
    }
}

/// Four canonical numbers with commas between them split into the four.
pub proof fn lemma_quad_split(x: Decimal, y: Decimal, w: Decimal, h: Decimal)
    ensures
        split(quad_text(x, y, w, h), ',') == seq![x.text(), y.text(), w.text(), h.text()],
{
    x.lemma_text_lacks(',');
    y.lemma_text_lacks(',');
    w.lemma_text_lacks(',');
    h.lemma_text_lacks(',');
    lemma_split_plain(x.text(), ',');
    lemma_split_append(x.text(), ',', y.text());
    lemma_split_append(x.text() + seq![','] + y.text(), ',', w.text());
    lemma_split_append(x.text() + seq![','] + y.text() + seq![','] + w.text(), ',', h.text());
    assert(seq![x.text()].push(y.text()).push(w.text()).push(h.text()) =~= seq![
        x.text(),
        y.text(),
        w.text(),
        h.text(),
    ]);
}

/// Four canonical numbers with commas between them, the last two not zero,
/// are read as the four.
pub proof fn lemma_quad_numbers(x: Decimal, y: Decimal, w: Decimal, h: Decimal)
    requires
        x.in_range(),
        y.in_range(),
        w.in_range(),
        h.in_range(),
        w.micros != 0,
        h.micros != 0,
    ensures
        region_numbers(quad_text(x, y, w, h)) == Ok::<
            (Decimal, Decimal, Decimal, Decimal),
            Seq<char>,
        >((x, y, w, h)),
{
    lemma_quad_split(x, y, w, h);
    x.lemma_round_trip();
    y.lemma_round_trip();
    w.lemma_round_trip();
    h.lemma_round_trip();
}

/// Reading the canonical token of a region gives the region back.
pub proof fn lemma_region_round_trip(r: EPicRegion)
    requires
        region_canonical(r),
    ensures
        parse_region(region_token(r)) == Ok::<EPicRegion, crate::wif_error::Failure>(r),
{
    reveal_strlit("full");
    reveal_strlit("square");
    reveal_strlit("pct:");
    match r {
        EPicRegion::Full => {
            assert("full"@.len() == 4);
        },
        EPicRegion::Square => {
            assert("square"@[0] == 's');
            assert("full"@[0] == 'f');
            assert("square"@.take(4)[0] == 's');
            assert("pct:"@[0] == 'p');
        },
        EPicRegion::Reg { x, y, w, h } => {
            let t = quad_text(x, y, w, h);
            x.lemma_text_shape();
            assert(t[0] == x.text()[0]);
            assert("full"@[0] == 'f');
            assert("square"@[0] == 's');
            assert("pct:"@[0] == 'p');
            if has_prefix(t, "pct:"@) {
                assert(t.take(4)[0] == t[0]);
            }
            lemma_quad_numbers(x, y, w, h);
        },
        EPicRegion::RegPerc { x, y, w, h } => {
            let body = quad_text(x, y, w, h);
            let t = "pct:"@ + body;
            assert(t[0] == 'p');
            assert("full"@[0] == 'f');
            assert("square"@[0] == 's');
            assert(t.take(4) =~= "pct:"@);
            assert(t.skip(4) =~= body);
            lemma_quad_numbers(x, y, w, h);
        },
    }
}

/// Reading the canonical token of a rotation gives the rotation back.
pub proof fn lemma_rotation_round_trip(r: EPicRotation)
    ensures
        parse_rotation(rotation_token(r)) == Ok::<EPicRotation, crate::wif_error::Failure>(r),
{
    let digits = decimal_text(r.rotation as nat);
    lemma_decimal_text(r.rotation as nat);
    let t = rotation_token(r);
    if r.mirrored {
        assert(t[0] == '!');
        assert(t.skip(1) =~= digits);
    } else {
        assert(t =~= digits);
        assert(is_digit(digits[0]));
    }
}

/// Reading the canonical token of a width gives the width back.
proof fn lemma_width_round_trip(w: Decimal, upscale: bool)
    requires
        w.in_range(),
    ensures
        parse_size(size_token(EPicSize::Width { w, upscale })) == Ok::<
            EPicSize,
            crate::wif_error::Failure,
        >(EPicSize::Width { w, upscale }),
{
    let body = w.text() + seq![','];
    w.lemma_text_shape();
    w.lemma_text_lacks(',');
    w.lemma_round_trip();
    lemma_empty_lacks(',');
    lemma_size_marks(upscale, false, body);
    assert(body[0] == w.text()[0]);
    lemma_split_pair(w.text(), Seq::<char>::empty(), ',');
    assert(w.text() + seq![','] + Seq::<char>::empty() =~= body);
    lemma_not_number(Seq::<char>::empty());
    lemma_not_percent(body);
    lemma_not_max(upscale, false, body);
}

/// Reading the canonical token of a height gives the height back.
proof fn lemma_height_round_trip(h: Decimal, upscale: bool)
    requires
        h.in_range(),
    ensures
        parse_size(size_token(EPicSize::Height { h, upscale })) == Ok::<
            EPicSize,
            crate::wif_error::Failure,
        >(EPicSize::Height { h, upscale }),
{
    let body = seq![','] + h.text();
    h.lemma_text_shape();
    h.lemma_text_lacks(',');
    h.lemma_round_trip();
    lemma_empty_lacks(',');
    lemma_size_marks(upscale, false, body);
    assert(body[0] == ',');
    lemma_split_pair(Seq::<char>::empty(), h.text(), ',');
    assert(Seq::<char>::empty() + seq![','] + h.text() =~= body);
    lemma_not_number(Seq::<char>::empty());
    lemma_not_percent(body);
    lemma_not_max(upscale, false, body);
}

/// Reading the canonical token of a percentage gives the percentage back.
proof fn lemma_percent_round_trip(n: Decimal, upscale: bool)
    requires
        n.in_range(),
    ensures
        parse_size(size_token(EPicSize::Perc { n, upscale })) == Ok::<
            EPicSize,
            crate::wif_error::Failure,
        >(EPicSize::Perc { n, upscale }),
{
    reveal_strlit("pct:");
    let body = "pct:"@ + n.text();
    n.lemma_round_trip();
    lemma_size_marks(upscale, false, body);
    assert(body[0] == 'p');
    assert(body.take(4) =~= "pct:"@);
    assert(body.skip(4) =~= n.text());
    lemma_not_max(upscale, false, body);
}

/// Reading the canonical token of a width and height gives them back.
proof fn lemma_box_round_trip(w: Decimal, h: Decimal, forced: bool, upscale: bool)
    requires
        w.in_range(),
        h.in_range(),
    ensures
        parse_size(size_token(EPicSize::WidthHeight { w, h, forced, upscale })) == Ok::<
            EPicSize,
            crate::wif_error::Failure,
        >(EPicSize::WidthHeight { w, h, forced, upscale }),
{
    let body = w.text() + seq![','] + h.text();
    w.lemma_text_shape();
    h.lemma_text_shape();
    w.lemma_text_lacks(',');
    h.lemma_text_lacks(',');
    w.lemma_round_trip();
    h.lemma_round_trip();
    lemma_size_marks(upscale, forced, body);
    assert(body[0] == w.text()[0]);
    lemma_split_pair(w.text(), h.text(), ',');
    lemma_not_percent(body);
    lemma_not_max(upscale, forced, body);
}

/// Reading the canonical token of a size gives the size back.
pub proof fn lemma_size_round_trip(s: EPicSize)
    requires
        size_canonical(s),
    ensures
        parse_size(size_token(s)) == Ok::<EPicSize, crate::wif_error::Failure>(s),
{
    match s {
        EPicSize::Max => {},
        EPicSize::Width { w, upscale } => {
            lemma_width_round_trip(w, upscale);
        },
        EPicSize::Height { h, upscale } => {
            lemma_height_round_trip(h, upscale);
        },
        EPicSize::Perc { n, upscale } => {
            lemma_percent_round_trip(n, upscale);
        },
        EPicSize::WidthHeight { w, h, forced, upscale } => {
            lemma_box_round_trip(w, h, forced, upscale);
        },
    }
}

/// The marks before a body that begins with neither mark are read off as
/// they were put.
pub proof fn lemma_size_marks(upscale: bool, forced: bool, body: Seq<char>)
    requires
        body.len() > 0,
        body[0] != '^',
        body[0] != '!',
    ensures
        strip_mark(size_marks(upscale, forced) + body, '^') == (
            upscale,
            (if forced {
                seq!['!']
            } else {
                Seq::<char>::empty()
            }) + body,
        ),
        strip_mark(
            (if forced {
                seq!['!']
            } else {
                Seq::<char>::empty()
            }) + body,
            '!',
        ) == (forced, body),
{
    let inner = (if forced {
        seq!['!']
    } else {
        Seq::<char>::empty()
    }) + body;
    let t = size_marks(upscale, forced) + body;
    if forced {
        assert(inner[0] == '!');
        assert(inner.skip(1) =~= body);
    } else {
        assert(inner =~= body);
    }
    if upscale {
        assert(t[0] == '^');
        assert(t.skip(1) =~= inner);
    } else {
        assert(t =~= inner);
    }
}

/// The empty text holds no character.
pub proof fn lemma_empty_lacks(c: char)
    ensures
        !Seq::<char>::empty().contains(c),
{
    if Seq::<char>::empty().contains(c) {
        let i = choose|i: int| 0 <= i < Seq::<char>::empty().len() && Seq::<char>::empty()[i] == c;
    }
}

/// The empty text writes no number.
pub proof fn lemma_not_number(s: Seq<char>)
    requires
        s.len() == 0,
    ensures
        parse_decimal(s) is None,
{
    assert(split(s, '.') =~= seq![Seq::<char>::empty()]);
}

/// A body that does not begin with `p` is no percentage.
pub proof fn lemma_not_percent(body: Seq<char>)
    requires
        body.len() > 0,
        body[0] != 'p',
    ensures
        !has_prefix(body, "pct:"@),
{
    reveal_strlit("pct:");
    if has_prefix(body, "pct:"@) {
        assert(body.take(4)[0] == body[0]);
    }
}

/// Marks before a body that begins with a digit, a comma or `p` never spell
/// `max` or `^max`.
pub proof fn lemma_not_max(upscale: bool, forced: bool, body: Seq<char>)
    requires
        body.len() > 0,
        body[0] != 'm',
        body[0] != '^',
        body[0] != '!',
    ensures
        size_marks(upscale, forced) + body != "max"@,
        size_marks(upscale, forced) + body != "^max"@,
{
    reveal_strlit("max");
    reveal_strlit("^max");
    let t = size_marks(upscale, forced) + body;
    assert("max"@[0] == 'm');
    assert("^max"@[0] == '^');
    assert("^max"@[1] == 'm');
    if upscale {
        assert(t[0] == '^');
        if forced {
            assert(t[1] == '!');
        } else {
            assert(t[1] == body[0]);
        }
    } else {
        if forced {
            assert(t[0] == '!');
        } else {
            assert(t[0] == body[0]);
        }
    }
}

/// Reading the canonical token of a quality gives the quality back.
pub proof fn lemma_quality_round_trip(q: EPicQuality, jpg_quality: u8)
    requires
        quality_canonical(q, jpg_quality),
    ensures
        parse_quality(quality_token(q), jpg_quality) == Ok::<
            EPicQuality,
            crate::wif_error::Failure,
        >(q),
{
    reveal_strlit("jpg");
    reveal_strlit("jpeg");
    reveal_strlit("png");
    reveal_strlit("bmp");
    reveal_strlit("ico");
    reveal_strlit("tga");
    reveal_strlit("color");
    reveal_strlit("gray");
    reveal_strlit("bitonal");
    reveal_strlit("default");
    let name = quality_name(q);
    let form = format_name(q.format_spec());
    assert(!name.contains('.')) by {
        if name.contains('.') {
            let i = choose|i: int| 0 <= i < name.len() && name[i] == '.';
        }
    }
    assert(!form.contains('.')) by {
        if form.contains('.') {
            let i = choose|i: int| 0 <= i < form.len() && form[i] == '.';
        }
    }
    lemma_split_pair(name, form, '.');
    assert(lower_text(form) =~= form);
    assert(seq!['j', 'p', 'g'] =~= "jpg"@);
    assert(seq!['p', 'n', 'g'] =~= "png"@);
    assert(seq!['b', 'm', 'p'] =~= "bmp"@);
    assert(seq!['i', 'c', 'o'] =~= "ico"@);
    assert(seq!['t', 'g', 'a'] =~= "tga"@);
    assert(seq!['c', 'o', 'l', 'o', 'r'] =~= "color"@);
    assert(seq!['g', 'r', 'a', 'y'] =~= "gray"@);
    assert(seq!['b', 'i', 't', 'o', 'n', 'a', 'l'] =~= "bitonal"@);
    assert(seq!['d', 'e', 'f', 'a', 'u', 'l', 't'] =~= "default"@);
    assert("jpg"@[0] == 'j' && "png"@[0] == 'p' && "bmp"@[0] == 'b' && "ico"@[0] == 'i'
        && "tga"@[0] == 't' && "jpeg"@.len() == 4);
    assert("color"@[0] == 'c' && "gray"@[0] == 'g' && "bitonal"@[0] == 'b' && "default"@[0]
        == 'd');
}

/// Reading the canonical tokens of a plan gives the plan back: parsing is a
/// function of the tokens, and writing and reading again changes nothing.
pub proof fn lemma_plan_round_trip(plan: TransformPlan, jpg_quality: u8)
    requires
        region_canonical(plan.region),
        size_canonical(plan.size),
        quality_canonical(plan.quality, jpg_quality),
    ensures
        parse_plan(
            region_token(plan.region),
            size_token(plan.size),
            rotation_token(plan.rotation),
            quality_token(plan.quality),
            jpg_quality,
        ) == Ok::<TransformPlan, crate::wif_error::Failure>(plan),
{
    lemma_region_round_trip(plan.region);
    lemma_size_round_trip(plan.size);
    lemma_rotation_round_trip(plan.rotation);
    lemma_quality_round_trip(plan.quality, jpg_quality);
}

/// What a region token is read as is a region that a token can write.
pub proof fn lemma_parsed_region(s: Seq<char>)
    requires
        parse_region(s) is Ok,
    ensures
        region_canonical(parse_region(s)->Ok_0),
{
    if s != "full"@ && s != "square"@ {
        let body = if has_prefix(s, "pct:"@) {
            s.skip("pct:"@.len() as int)
        } else {
            s
        };
        let f = split(body, ',');
        lemma_parsed_in_range(f[0]);
        lemma_parsed_in_range(f[1]);
        lemma_parsed_in_range(f[2]);
        lemma_parsed_in_range(f[3]);
    }
}

/// What a size token is read as is a size that a token can write.
pub proof fn lemma_parsed_size(s: Seq<char>)
    requires
        parse_size(s) is Ok,
    ensures
        size_canonical(parse_size(s)->Ok_0),
{
    if s != "max"@ && s != "^max"@ {
        let (upscale, rest) = strip_mark(s, '^');
        let (forced, body) = strip_mark(rest, '!');
        let f = split(body, ',');
        match size_body(body, forced, upscale)->0 {
            EPicSize::Max => {},
            EPicSize::Perc { n, upscale } => {
                lemma_parsed_in_range(body.skip("pct:"@.len() as int));
            },
            EPicSize::WidthHeight { w, h, forced, upscale } => {
                lemma_parsed_in_range(f[0]);
                lemma_parsed_in_range(f[1]);
            },
            EPicSize::Width { w, upscale } => {
                lemma_parsed_in_range(f[0]);
            },
            EPicSize::Height { h, upscale } => {
                lemma_parsed_in_range(f[1]);
            },
        }
    }
}

/// What a quality token is read as is a quality that a token can write.
pub proof fn lemma_parsed_quality(s: Seq<char>, jpg_quality: u8)
    requires
        parse_quality(s, jpg_quality) is Ok,
    ensures
        quality_canonical(parse_quality(s, jpg_quality)->Ok_0, jpg_quality),
{
}

/// Writing a plan that was read from four tokens as its canonical tokens and
/// reading those gives the same plan.
pub proof fn lemma_reparse(
    region: Seq<char>,
    size: Seq<char>,
    rotation: Seq<char>,
    quality: Seq<char>,
    jpg_quality: u8,
)
    requires
        parse_plan(region, size, rotation, quality, jpg_quality) is Ok,
    ensures
        ({
            let plan = parse_plan(region, size, rotation, quality, jpg_quality)->Ok_0;
            parse_plan(
                region_token(plan.region),
                size_token(plan.size),
                rotation_token(plan.rotation),
                quality_token(plan.quality),
                jpg_quality,
            ) == Ok::<TransformPlan, crate::wif_error::Failure>(plan)
        }),
{
    lemma_parsed_region(region);
    lemma_parsed_size(size);
    lemma_parsed_quality(quality, jpg_quality);
    lemma_plan_round_trip(
        parse_plan(region, size, rotation, quality, jpg_quality)->Ok_0,
        jpg_quality,
    );
}

/// The plan that changes nothing: the whole picture at its own size, not
/// turned, in its own colours, encoded as `format`.
pub open spec fn identity_plan(format: OutputFormat) -> TransformPlan {
    TransformPlan {
        region: EPicRegion::Full,
        size: EPicSize::Max,
        rotation: EPicRotation { rotation: 0, mirrored: false },
        quality: EPicQuality::Color(format),
    }
}

/// The tokens `full`, `max`, `0` and `color` with the format of the source
/// are read as the plan that changes nothing, and for a PNG or JPEG source
/// that plan is answered by the source file as it is.
pub proof fn lemma_identity_streams(jpg_quality: u8)
    ensures
        parse_plan("full"@, "max"@, seq!['0'], quality_token(
            EPicQuality::Color(OutputFormat::Png),
        ), jpg_quality) == Ok::<TransformPlan, crate::wif_error::Failure>(
            identity_plan(OutputFormat::Png),
        ),
        parse_plan("full"@, "max"@, seq!['0'], quality_token(
            EPicQuality::Color(OutputFormat::Jpeg(jpg_quality)),
        ), jpg_quality) == Ok::<TransformPlan, crate::wif_error::Failure>(
            identity_plan(OutputFormat::Jpeg(jpg_quality)),
        ),
        identity_plan(OutputFormat::Png).stream_mime(crate::iiif::img_info::SourceFormat::Png)
            == Some("image/png"@),
        identity_plan(OutputFormat::Jpeg(jpg_quality)).stream_mime(
            crate::iiif::img_info::SourceFormat::Jpeg,
        ) == Some("image/jpeg"@),
{
    lemma_plan_round_trip(identity_plan(OutputFormat::Png), jpg_quality);
    lemma_plan_round_trip(identity_plan(OutputFormat::Jpeg(jpg_quality)), jpg_quality);
    assert(decimal_text(0) =~= seq!['0']);
    assert(rotation_token(EPicRotation { rotation: 0, mirrored: false }) =~= seq!['0']);
}

/// The percent region `0,0,100,100` selects what the whole picture is.
pub proof fn lemma_whole_percent(width: u32, height: u32)
    requires
        width >= 1,
        height >= 1,
    ensures
        (EPicRegion::RegPerc {
            x: Decimal { micros: 0 },
            y: Decimal { micros: 0 },
            w: Decimal { micros: 100_000_000 },
            h: Decimal { micros: 100_000_000 },
        }).section(width, height) == EPicRegion::Full.section(width, height),
{
    let zero = Decimal { micros: 0 };
    let all = Decimal { micros: 100_000_000 };
    lemma_percent_ends(width as nat);
    lemma_percent_ends(height as nat);
    assert(zero.percent_of_spec(width as nat) == 0);
    assert(all.percent_of_spec(width as nat) == width);
    assert(zero.percent_of_spec(height as nat) == 0);
    assert(all.percent_of_spec(height as nat) == height);
}

/// Nothing of a length is 0 and all of it is the length itself.
pub proof fn lemma_percent_ends(dim: nat)
    ensures
        crate::number::round_ratio((dim * 0) as nat, 100_000_000) == 0,
        crate::number::round_ratio((dim * 100_000_000) as nat, 100_000_000) == dim,
{
    assert(dim * 0 == 0) by (nonlinear_arith);
    assert(100_000_000int / 200_000_000int == 0);
    assert(crate::number::round_ratio(0, 100_000_000) == (2 * 0 + 100_000_000int) / (2
        * 100_000_000int));
    let full: int = (dim * 100_000_000) as int;
    assert((2 * full + 100_000_000) / 200_000_000 == dim) by (nonlinear_arith)
        requires
            full == dim * 100_000_000,
            dim >= 0,
    ;
}

/// Writes four numbers with commas between them.
fn append_quad(out: &mut String, x: &Decimal, y: &Decimal, w: &Decimal, h: &Decimal)
    ensures
        final(out)@ == old(out)@ + quad_text(*x, *y, *w, *h),
{
    x.to_text(out);
    push_char(out, ',');
    y.to_text(out);
    push_char(out, ',');
    w.to_text(out);
    push_char(out, ',');
    h.to_text(out);
    proof {
        assert(out@ =~= old(out)@ + quad_text(*x, *y, *w, *h));
    }
}

/// Writes the marks before a size.
fn append_marks(out: &mut String, upscale: bool, forced: bool)
    ensures
        final(out)@ == old(out)@ + size_marks(upscale, forced),
{
    if upscale {
        push_char(out, '^');
    }
    if forced {
        push_char(out, '!');
    }
    proof {
        assert(out@ =~= old(out)@ + size_marks(upscale, forced));
    }
}

/// The canonical token of a region.
pub fn write_region(r: &EPicRegion) -> (t: String)
    ensures
        t@ == region_token(*r),
{
    match r {
        EPicRegion::Full => "full".to_owned(),
        EPicRegion::Square => "square".to_owned(),
        EPicRegion::Reg { x, y, w, h } => {
            let mut t = String::new();
            append_quad(&mut t, x, y, w, h);
            t
        },
        EPicRegion::RegPerc { x, y, w, h } => {
            let mut t = "pct:".to_owned();
            append_quad(&mut t, x, y, w, h);
            t
        },
    }
}

/// The canonical token of a size.
pub fn write_size(s: &EPicSize) -> (t: String)
    ensures
        t@ == size_token(*s),
{
    let mut t = String::new();
    match s {
        EPicSize::Max => {
            t.append("max");
        },
        EPicSize::Width { w, upscale } => {
            append_marks(&mut t, *upscale, false);
            w.to_text(&mut t);
            push_char(&mut t, ',');
            proof {
                assert(t@ =~= size_token(*s));
            }
        },
        EPicSize::Height { h, upscale } => {
            append_marks(&mut t, *upscale, false);
            push_char(&mut t, ',');
            h.to_text(&mut t);
            proof {
                assert(t@ =~= size_token(*s));
            }
        },
        EPicSize::Perc { n, upscale } => {
            append_marks(&mut t, *upscale, false);
            t.append("pct:");
            n.to_text(&mut t);
            proof {
                assert(t@ =~= size_token(*s));
            }
        },
        EPicSize::WidthHeight { w, h, forced, upscale } => {
            append_marks(&mut t, *upscale, *forced);
            w.to_text(&mut t);
            push_char(&mut t, ',');
            h.to_text(&mut t);
            proof {
                assert(t@ =~= size_token(*s));
            }
        },
    }
    t
}

/// The canonical token of a rotation.
pub fn write_rotation(r: &EPicRotation) -> (t: String)
    ensures
        t@ == rotation_token(*r),
{
    let mut t = String::new();
    if r.mirrored {
        push_char(&mut t, '!');
    }
    append_decimal(&mut t, r.rotation as u64);
    proof {
        assert(t@ =~= rotation_token(*r));
    }
    t
}

/// The canonical token of a quality with its format.
pub fn write_quality(q: &EPicQuality) -> (t: String)
    ensures
        t@ == quality_token(*q),
{
    proof {
        reveal_strlit("jpg");
        reveal_strlit("png");
        reveal_strlit("bmp");
        reveal_strlit("ico");
        reveal_strlit("tga");
        reveal_strlit("color");
        reveal_strlit("gray");
        reveal_strlit("bitonal");
        reveal_strlit("default");
    }
    let mut t = match q {
        EPicQuality::Color(_) => "color".to_owned(),
        EPicQuality::Gray(_) => "gray".to_owned(),
        EPicQuality::Bitonal(_) => "bitonal".to_owned(),
        EPicQuality::Default(_) => "default".to_owned(),
    };
    proof {
        assert(t@ =~= quality_name(*q));
    }
    push_char(&mut t, '.');
    let form = match q.format() {
        OutputFormat::Jpeg(_) => "jpg",
        OutputFormat::Png => "png",
        OutputFormat::Bmp => "bmp",
        OutputFormat::Ico => "ico",
        OutputFormat::Tga => "tga",
    };
    proof {
        assert(form@ =~= format_name(q.format_spec()));
    }
    t.append(form);
    t
}

} // verus!
