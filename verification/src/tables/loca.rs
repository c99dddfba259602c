//! The table of offsets to the glyphs.

use crate::read::{read_u16, read_u32, u16_at, u32_at};
use vstd::prelude::*;

verus! {

/// The number of offsets that the table `bytes` holds.
pub open spec fn offset_count(bytes: Seq<u8>, long: bool) -> int {
    if long {
        bytes.len() as int / 4
    } else {
        bytes.len() as int / 2
    }
}

/// The offset `i` of the table `bytes`: a long offset as it stands, a short
/// one doubled.
pub open spec fn offset_at(bytes: Seq<u8>, long: bool, i: int) -> int {
    if long {
        u32_at(bytes, 4 * i) as int
    } else {
        u16_at(bytes, 2 * i) * 2
    }
}

/// Where glyph `gid` lies in the outline table: nothing where the table of
/// offsets has no pair of offsets for it, or the pair does not ascend.
pub open spec fn glyph_range(bytes: Seq<u8>, long: bool, gid: int) -> Option<(int, int)> {
    if 0 <= gid && gid + 1 < offset_count(bytes, long) && offset_at(bytes, long, gid)
        <= offset_at(bytes, long, gid + 1) {
        Some((offset_at(bytes, long, gid), offset_at(bytes, long, gid + 1)))
    } else {
        None
    }
}

/// Looks up where glyph `gid` lies in the outline table.
pub fn get_range(loca: &[u8], long: bool, gid: u16) -> (r: Option<(usize, usize)>)
    ensures
        match r {
            Some((start, end)) => glyph_range(loca@, long, gid as int) == Some(
                (start as int, end as int),
            ),
            None => glyph_range(loca@, long, gid as int).is_none(),
        },
{
    let i = gid as usize;
    let (start, end): (u32, u32) = if long {
        if loca.len() / 4 < i + 2 {
            return None;
        }
        (read_u32(loca, 4 * i), read_u32(loca, 4 * i + 4))
    } else {
        if loca.len() / 2 < i + 2 {
            return None;
        }
        (read_u16(loca, 2 * i) as u32 * 2, read_u16(loca, 2 * i + 2) as u32 * 2)
    };
    if start > end {
        return None;
    }
    Some((start as usize, end as usize))
}

} // verus!
