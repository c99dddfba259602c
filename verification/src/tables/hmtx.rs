//! The horizontal metrics table, and the header that counts its records.

use crate::read::{i16_at, read_i16, read_u16, u16_at};
use crate::truetype::font::LongMetric;
use vstd::prelude::*;

verus! {

/// Bytes of a horizontal header table.
pub const HHEA_LEN: usize = 36;

/// The number of long records of the horizontal metrics that the horizontal
/// header `bytes` announces, if the header is whole.
pub open spec fn number_of_h_metrics_of(bytes: Seq<u8>) -> Option<u16> {
    if bytes.len() >= HHEA_LEN {
        Some(u16_at(bytes, 34))
    } else {
        None
    }
}

/// Reads the number of long records of the horizontal metrics from the
/// horizontal header. Fails where the header is cut short.
pub fn number_of_h_metrics(hhea: &[u8]) -> (r: Option<u16>)
    ensures
        r == number_of_h_metrics_of(hhea@),
{
    if hhea.len() < HHEA_LEN {
        return None;
    }
    Some(read_u16(hhea, 34))
}

/// The horizontal metrics: long records for the first glyphs, and the
/// left side bearings of the others.
#[derive(Clone, PartialEq, Eq, Debug)]
pub struct Hmtx {
    pub h_metrics: Vec<LongMetric>,
    pub left_side_bearings: Vec<i16>,
}

/// The number of left side bearings that follow `long_count` long records
/// in a font of `num_glyphs` glyphs.
pub open spec fn bearing_count(long_count: u16, num_glyphs: u16) -> int {
    if num_glyphs > long_count {
        num_glyphs - long_count
    } else {
        0
    }
}

/// Holds when `bytes` hold all the horizontal metrics that the counts call
/// for.
pub open spec fn is_hmtx(bytes: Seq<u8>, long_count: u16, num_glyphs: u16) -> bool {
    bytes.len() >= 4 * long_count + 2 * bearing_count(long_count, num_glyphs)
}

/// The long record `i` of the horizontal metrics `bytes`.
pub open spec fn long_metric_at(bytes: Seq<u8>, i: int) -> LongMetric {
    LongMetric { advance_width: u16_at(bytes, 4 * i), lsb: i16_at(bytes, 4 * i + 2) }
}

impl Hmtx {
    /// Reads the horizontal metrics of a font of `num_glyphs` glyphs, of
    /// which the first `long_count` have long records. Fails where the
    /// table is cut short.
    pub fn read(data: &[u8], long_count: u16, num_glyphs: u16) -> (r: Option<Hmtx>)
        ensures
            r.is_some() == is_hmtx(data@, long_count, num_glyphs),
            r matches Some(hmtx) ==> {
                &&& hmtx.h_metrics@.len() == long_count
                &&& hmtx.left_side_bearings@.len() == bearing_count(long_count, num_glyphs)
                &&& forall|i: int|
                    0 <= i < long_count ==> (#[trigger] hmtx.h_metrics@[i]) == long_metric_at(
                        data@,
                        i,
                    )
                &&& forall|i: int|
                    0 <= i < hmtx.left_side_bearings@.len() ==> (
                    #[trigger] hmtx.left_side_bearings@[i]) == i16_at(
                        data@,
                        4 * long_count + 2 * i,
                    )
            },
    {
        let longs = long_count as usize;
        let shorts: usize = if num_glyphs > long_count {
            (num_glyphs - long_count) as usize
        } else {
            0
        };
        if data.len() < 4 * longs + 2 * shorts {
            return None;
        }
        let mut h_metrics: Vec<LongMetric> = Vec::new();
        let mut i: usize = 0;
        while i < longs
            invariant
                i <= longs,
                longs == long_count,
                data@.len() >= 4 * longs + 2 * shorts,
                h_metrics@.len() == i,
                forall|j: int|
                    0 <= j < i ==> (#[trigger] h_metrics@[j]) == long_metric_at(data@, j),
            decreases longs - i,
        {
            h_metrics.push(
                LongMetric {
                    advance_width: read_u16(data, 4 * i),
                    lsb: read_i16(data, 4 * i + 2),
                },
            );
            i += 1;
        }
        let mut left_side_bearings: Vec<i16> = Vec::new();
        i = 0;
        while i < shorts
            invariant
                i <= shorts,
                shorts <= 0xFFFF,
                longs == long_count,
                data@.len() >= 4 * longs + 2 * shorts,
                left_side_bearings@.len() == i,
                forall|j: int|
                    0 <= j < i ==> (#[trigger] left_side_bearings@[j]) == i16_at(
                        data@,
                        4 * long_count + 2 * j,
                    ),
            decreases shorts - i,
        {
            left_side_bearings.push(read_i16(data, 4 * longs + 2 * i));
            i += 1;
        }
        Some(Hmtx { h_metrics, left_side_bearings })
    }
}

} // verus!
