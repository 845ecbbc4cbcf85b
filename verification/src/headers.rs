//! The size of a picture read from the first bytes of its file, for the
//! formats whose header this crate reads itself: BMP and TIFF.

use vstd::prelude::*;

verus! {

/// The 16 bit number at `at`, least significant byte first unless `big`.
pub open spec fn u16_at(b: Seq<u8>, at: int, big: bool) -> int {
    if big {
        b[at] as int * 256 + b[at + 1] as int
    } else {
        b[at + 1] as int * 256 + b[at] as int
    }
}

/// The 32 bit number at `at`, least significant byte first unless `big`.
pub open spec fn u32_at(b: Seq<u8>, at: int, big: bool) -> int {
    if big {
        u16_at(b, at, true) * 65536 + u16_at(b, at + 2, true)
    } else {
        u16_at(b, at + 2, false) * 65536 + u16_at(b, at, false)
    }
}

/// Reads the 16 bit number at `at`.
pub fn read_u16(b: &[u8], at: usize, big: bool) -> (r: u16)
    requires
        at + 2 <= b.len(),
    ensures
        r == u16_at(b@, at as int, big),
{
    let first: u16 = b[at] as u16;
    let second: u16 = b[at + 1] as u16;
    if big {
        first * 256 + second
    } else {
        second * 256 + first
    }
}

/// Reads the 32 bit number at `at`.
pub fn read_u32(b: &[u8], at: usize, big: bool) -> (r: u32)
    requires
        at + 4 <= b.len(),
    ensures
        r == u32_at(b@, at as int, big),
{
    let first: u32 = read_u16(b, at, big) as u32;
    let second: u32 = read_u16(b, at + 2, big) as u32;
    if big {
        first * 65536 + second
    } else {
        second * 65536 + first
    }
}

/// The width and height that the header of the BMP file `b` states: the
/// file begins with `BM`; a 12 byte info header holds them as 16 bit
/// numbers, one of 40 bytes or more as signed 32 bit numbers, where the
/// width is not negative and a negative height, which marks rows stored top
/// down, counts by its amount. Anything else states no size.
pub open spec fn bmp_size(b: Seq<u8>) -> Option<(u32, u32)> {
    if b.len() < 26 || b[0] != 0x42 || b[1] != 0x4D {
        None
    } else {
        let info = u32_at(b, 14, false);
        if info == 12 {
            Some((u16_at(b, 18, false) as u32, u16_at(b, 20, false) as u32))
        } else if info >= 40 {
            let width = u32_at(b, 18, false);
            let height = u32_at(b, 22, false);
            if width >= 0x8000_0000 {
                None
            } else if height >= 0x8000_0000 {
                Some((width as u32, (0x1_0000_0000 - height) as u32))
            } else {
                Some((width as u32, height as u32))
            }
        } else {
            None
        }
    }
}

/// Reads the size of a picture from the header of a BMP file.
pub fn read_bmp_size(b: &[u8]) -> (r: Option<(u32, u32)>)
    ensures
        r == bmp_size(b@),
{
    if b.len() < 26 || b[0] != 0x42 || b[1] != 0x4D {
        return None;
    }
    let info = read_u32(b, 14, false);
    if info == 12 {
        Some((read_u16(b, 18, false) as u32, read_u16(b, 20, false) as u32))
    } else if info >= 40 {
        let width = read_u32(b, 18, false);
        let height = read_u32(b, 22, false);
        if width >= 0x8000_0000 {
            None
        } else if height >= 0x8000_0000 {
            Some((width, (0x1_0000_0000u64 - height as u64) as u32))
        } else {
            Some((width, height))
        }
    } else {
        None
    }
}

/// The value of the directory entry at `at`: a 16 bit number for the type
/// SHORT, a 32 bit number for the type LONG, none for any other type.
pub open spec fn tiff_entry_value(b: Seq<u8>, at: int, big: bool) -> Option<u32> {
    let kind = u16_at(b, at + 2, big);
    if kind == 3 {
        Some(u16_at(b, at + 8, big) as u32)
    } else if kind == 4 {
        Some(u32_at(b, at + 8, big) as u32)
    } else {
        None
    }
}

/// The value of the first of the `count` directory entries from `at` on
/// that carries the tag `tag`; none if an entry up to it lies outside the
/// file or none carries the tag.
pub open spec fn tiff_tag(b: Seq<u8>, at: int, count: nat, tag: int, big: bool) -> Option<u32>
    decreases count,
{
    if count == 0 || at + 12 > b.len() {
        None
    } else if u16_at(b, at, big) == tag {
        tiff_entry_value(b, at, big)
    } else {
        tiff_tag(b, at + 12, (count - 1) as nat, tag, big)
    }
}

/// The width and height that the first directory of the TIFF file `b`
/// states: the file begins with `II` or `MM`, which fixes the byte order,
/// and the number 42; the directory holds the width under tag 256 and the
/// height under tag 257. Anything else states no size.
pub open spec fn tiff_size(b: Seq<u8>) -> Option<(u32, u32)> {
    if b.len() < 8 || b[0] != b[1] || (b[0] != 0x49 && b[0] != 0x4D) {
        None
    } else {
        let big = b[0] == 0x4D;
        let dir = u32_at(b, 4, big);
        if u16_at(b, 2, big) != 42 || dir + 2 > b.len() {
            None
        } else {
            let count = u16_at(b, dir, big) as nat;
            match (tiff_tag(b, dir + 2, count, 256, big), tiff_tag(b, dir + 2, count, 257, big)) {
                (Some(width), Some(height)) => Some((width, height)),
                _ => None,
            }
        }
    }
}

/// Looks a tag up in a directory of a TIFF file.
pub fn find_tiff_tag(b: &[u8], at: usize, count: u16, tag: u16, big: bool) -> (r: Option<u32>)
    ensures
        r == tiff_tag(b@, at as int, count as nat, tag as int, big),
{
    let mut pos: usize = at;
    let mut left: u16 = count;
    while left > 0
        invariant
            tiff_tag(b@, at as int, count as nat, tag as int, big) == tiff_tag(
                b@,
                pos as int,
                left as nat,
                tag as int,
                big,
            ),
        decreases left,
    {
        if pos > b.len() || b.len() - pos < 12 {
            return None;
        }
        if read_u16(b, pos, big) == tag {
            let kind = read_u16(b, pos + 2, big);
            if kind == 3 {
                return Some(read_u16(b, pos + 8, big) as u32);
            } else if kind == 4 {
                return Some(read_u32(b, pos + 8, big));
            } else {
                return None;
            }
        }
        pos = pos + 12;
        left = left - 1;
    }
    None
}

/// Reads the size of a picture from the first directory of a TIFF file.
pub fn read_tiff_size(b: &[u8]) -> (r: Option<(u32, u32)>)
    ensures
        r == tiff_size(b@),
{
    if b.len() < 8 || b[0] != b[1] || (b[0] != 0x49 && b[0] != 0x4D) {
        return None;
    }
    let big = b[0] == 0x4D;
    let dir = read_u32(b, 4, big);
    if read_u16(b, 2, big) != 42 {
        return None;
    }
    if dir as u64 + 2 > b.len() as u64 {
        return None;
    }
    let dir_at: usize = dir as usize;
    let count = read_u16(b, dir_at, big);
    let width = find_tiff_tag(b, dir_at + 2, count, 256, big);
    let height = find_tiff_tag(b, dir_at + 2, count, 257, big);
    match (width, height) {
        (Some(w), Some(h)) => Some((w, h)),
        _ => None,
    }
}

} // verus!
