//! Reading a PNG stream row by row, so that a window of a picture can be cut
//! out without decoding what lies below it.

use vstd::prelude::*;

verus! {

/// The colour layout of the rows that a PNG stream decodes to.
#[derive(Clone, Copy, Debug, PartialEq, Eq, Structural)]
pub enum PngColor {
    Grayscale,
    GrayscaleAlpha,
    Rgb,
    Rgba,
    Indexed,
}

/// What the header of a PNG stream tells about the rows it decodes to.
#[derive(Clone, Copy, Debug, PartialEq, Eq, Structural)]
pub struct PngHeader {
    pub width: u32,
    pub height: u32,
    pub color: PngColor,
    /// Bits per sample.
    pub depth: u8,
    pub interlaced: bool,
}

/// A PNG stream whose header has been read and whose rows are still to
/// come. It holds `png::Reader` over a copy of the stream.
#[verifier::external_body]
pub struct PngRows {
    reader: png::Reader<std::io::Cursor<Vec<u8>>>,
}

/// What `png::Decoder::read_info` reports for the stream `bytes`; none where
/// it fails.
pub uninterp spec fn png_header(bytes: Seq<u8>) -> Option<PngHeader>;

/// The rows that `png::Reader::next_row` yields for the stream `bytes`, one
/// call after another, up to the first call that yields none or fails.
pub uninterp spec fn png_rows(bytes: Seq<u8>) -> Seq<Seq<u8>>;

/// The rows that `png::Reader::next_row` will still yield, up to the first
/// call that yields none or fails.
pub uninterp spec fn pending_rows(rows: PngRows) -> Seq<Seq<u8>>;

/// The bytes that one pixel takes: the samples of the colour layout times
/// the bytes of a sample.
pub open spec fn bytes_per_pixel(color: PngColor, depth: u8) -> nat {
    let samples: nat = match color {
        PngColor::Grayscale => 1,
        PngColor::GrayscaleAlpha => 2,
        PngColor::Rgb => 3,
        PngColor::Rgba => 4,
        PngColor::Indexed => 1,
    };
    let sample_bytes: nat = if depth == 16 {
        2
    } else {
        1
    };
    samples * sample_bytes
}

/// The bytes that one pixel takes.
pub fn pixel_size(color: PngColor, depth: u8) -> (n: usize)
    ensures
        n == bytes_per_pixel(color, depth),
        1 <= n <= 8,
{
    let color_multi: usize = match color {
        PngColor::Rgb => 3,
        PngColor::Rgba => 4,
        PngColor::Grayscale => 1,
        PngColor::GrayscaleAlpha => 2,
        PngColor::Indexed => 1,
    };
    let bit_multi: usize = if depth == 16 {
        2
    } else {
        1
    };
    bit_multi * color_multi
}

/// The bytes `from..to` of each of the `count` rows from row `first` on, one
/// row after the other.
pub open spec fn window_bytes(
    rows: Seq<Seq<u8>>,
    from: int,
    to: int,
    first: int,
    count: nat,
) -> Seq<u8>
    decreases count,
{
    if count == 0 {
        Seq::<u8>::empty()
    } else {
        window_bytes(rows, from, to, first, (count - 1) as nat) + rows[first + count - 1].subrange(
            from,
            to,
        )
    }
}

/// Whether the `count` rows from row `first` on exist and reach to byte
/// `to`.
pub open spec fn window_fits(rows: Seq<Seq<u8>>, to: int, first: int, count: nat) -> bool {
    &&& first + count <= rows.len()
    &&& forall|r: int| first <= r < first + count ==> to <= (#[trigger] rows[r]).len()
}

/// A window of `count` rows of `to - from` bytes each has that many bytes.
pub proof fn lemma_window_len(rows: Seq<Seq<u8>>, from: int, to: int, first: int, count: nat)
    requires
        0 <= from <= to,
        0 <= first,
        window_fits(rows, to, first, count),
    ensures
        window_bytes(rows, from, to, first, count).len() == count * (to - from),
    decreases count,
{
    if count > 0 {
        lemma_window_len(rows, from, to, first, (count - 1) as nat);
        assert(to <= rows[first + count - 1].len());
        assert(count * (to - from) == (count - 1) * (to - from) + (to - from))
            by (nonlinear_arith);
    } else {
        assert(0 * (to - from) == 0) by (nonlinear_arith);
    }
}

/// Reads the header of a PNG stream. Trusted: `png::Decoder::new` over a
/// copy of the bytes and `png::Decoder::read_info`; what is reported
/// depends on the bytes alone and is named [`png_header`], the rows to come
/// are named [`png_rows`].
#[verifier::external_body]
pub(crate) fn open_png(bytes: &[u8]) -> (r: Option<(PngHeader, PngRows)>)
    ensures
        match r {
            Some((header, rows)) => png_header(bytes@) == Some(header) && pending_rows(rows)
                == png_rows(bytes@),
            None => png_header(bytes@) is None,
        },
{
    let decoder = png::Decoder::new(std::io::Cursor::new(bytes.to_vec()));
    let (info, reader) = decoder.read_info().ok()?;
    let color = match info.color_type {
        png::ColorType::Grayscale => PngColor::Grayscale,
        png::ColorType::GrayscaleAlpha => PngColor::GrayscaleAlpha,
        png::ColorType::RGB => PngColor::Rgb,
        png::ColorType::RGBA => PngColor::Rgba,
        png::ColorType::Indexed => PngColor::Indexed,
    };
    let (width, height, depth) = (info.width, info.height, info.bit_depth as u8);
    let interlaced = reader.info().interlaced;
    Some((PngHeader { width, height, color, depth, interlaced }, PngRows { reader }))
}

/// Decodes the next row. Trusted: `png::Reader::next_row`; a row that is
/// yielded is the first of the pending ones and leaves the others pending,
/// and none is yielded only where none is pending.
#[verifier::external_body]
pub(crate) fn next_row(rows: &mut PngRows) -> (row: Option<Vec<u8>>)
    ensures
        match row {
            Some(v) => {
                &&& pending_rows(*old(rows)).len() > 0
                &&& v@ == pending_rows(*old(rows))[0]
                &&& pending_rows(*final(rows)) == pending_rows(*old(rows)).skip(1)
            },
            None => pending_rows(*old(rows)).len() == 0,
        },
{
    match rows.reader.next_row() {
        Ok(Some(row)) => Some(row.to_vec()),
        _ => None,
    }
}

/// Appends the bytes `from..to` of `row` to `out`.
pub fn cut_row(row: &Vec<u8>, from: usize, to: usize, out: &mut Vec<u8>)
    requires
        from <= to <= row.len(),
    ensures
        final(out)@ == old(out)@ + row@.subrange(from as int, to as int),
{
    let mut i: usize = from;
    while i < to
        invariant
            from <= i <= to <= row.len(),
            out@ == old(out)@ + row@.subrange(from as int, i as int),
        decreases to - i,
    {
        out.push(row[i]);
        proof {
            assert(row@.subrange(from as int, i + 1) =~= row@.subrange(from as int, i as int).push(
                row@[i as int],
            ));
            assert(old(out)@ + row@.subrange(from as int, i as int).push(row@[i as int]) =~= (old(
                out,
            )@ + row@.subrange(from as int, i as int)).push(row@[i as int]));
        }
        i += 1;
    }
}

/// Decodes the rows down to the lower edge of a window and keeps the bytes
/// `from..to` of the `count` rows from row `first` on; none unless all these
/// rows come and reach to byte `to`.
pub fn copy_window(rows: &mut PngRows, from: usize, to: usize, first: u32, count: u32) -> (r:
    Option<Vec<u8>>)
    requires
        from <= to,
    ensures
        match r {
            Some(buf) => window_fits(
                pending_rows(*old(rows)),
                to as int,
                first as int,
                count as nat,
            ) && buf@ == window_bytes(
                pending_rows(*old(rows)),
                from as int,
                to as int,
                first as int,
                count as nat,
            ),
            None => !window_fits(
                pending_rows(*old(rows)),
                to as int,
                first as int,
                count as nat,
            ),
        },
{
    let ghost all = pending_rows(*rows);
    let mut skipped: u32 = 0;
    while skipped < first
        invariant
            skipped <= first,
            skipped <= all.len(),
            all == pending_rows(*old(rows)),
            pending_rows(*rows) == all.skip(skipped as int),
        decreases first - skipped,
    {
        match next_row(rows) {
            Some(_) => {
                proof {
                    assert(all.skip(skipped as int).skip(1) =~= all.skip(skipped + 1));
                }
                skipped += 1;
            },
            None => {
                proof {
                    assert(all.skip(skipped as int).len() == all.len() - skipped);
                }
                return None;
            },
        }
    }
    let mut buf: Vec<u8> = Vec::new();
    let mut n: u32 = 0;
    while n < count
        invariant
            n <= count,
            from <= to,
            first + n <= all.len(),
            all == pending_rows(*old(rows)),
            pending_rows(*rows) == all.skip(first + n),
            window_fits(all, to as int, first as int, n as nat),
            buf@ == window_bytes(all, from as int, to as int, first as int, n as nat),
        decreases count - n,
    {
        match next_row(rows) {
            Some(row) => {
                proof {
                    assert(all.skip(first + n).skip(1) =~= all.skip(first + n + 1));
                    assert(all.skip(first + n)[0] == all[first + n]);
                }
                if row.len() < to {
                    proof {
                        assert(!(to <= all[first + n].len()));
                    }
                    return None;
                }
                cut_row(&row, from, to, &mut buf);
                n += 1;
            },
            None => {
                proof {
                    assert(all.skip(first + n).len() == all.len() - (first + n));
                }
                return None;
            },
        }
    }
    Some(buf)
}

} // verus!
