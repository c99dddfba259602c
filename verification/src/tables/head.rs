//! The font header table.

use crate::read::{i16_at, read_i16, read_u16, u16_at};
use vstd::prelude::*;

verus! {

/// Bytes of a font header table.
pub const HEAD_LEN: usize = 54;

/// What the loader reads of the font header.
#[derive(Copy, Clone, PartialEq, Eq, Structural, Debug)]
pub struct Head {
    /// Font units per em.
    pub units_per_em: u16,
    /// 0 for short offsets to the glyphs, 1 for long ones.
    pub index_to_loc_format: i16,
}

/// The font header that `bytes` hold, if they hold a whole one.
pub open spec fn head_of(bytes: Seq<u8>) -> Option<Head> {
    if bytes.len() >= HEAD_LEN {
        Some(Head { units_per_em: u16_at(bytes, 18), index_to_loc_format: i16_at(bytes, 50) })
    } else {
        None
    }
}

impl Head {
    /// Reads a font header. Fails where the table is cut short.
    pub fn read(data: &[u8]) -> (r: Option<Head>)
        ensures
            r == head_of(data@),
    {
        if data.len() < HEAD_LEN {
            return None;
        }
        Some(Head { units_per_em: read_u16(data, 18), index_to_loc_format: read_i16(data, 50) })
    }

    /// Whether the offsets to the glyphs are long.
    pub fn long_offsets(&self) -> (r: bool)
        ensures
            r == (self.index_to_loc_format == 1),
    {
        self.index_to_loc_format == 1
    }
}

} // verus!
