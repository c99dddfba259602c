//! The maximum profile table.

use crate::read::{read_u16, read_u32, u16_at, u32_at};
use vstd::prelude::*;

verus! {

/// Bytes of a maximum profile table of version 0.5.
pub const MAXP_SHORT_LEN: usize = 6;

/// Bytes of a maximum profile table of version 1.0.
pub const MAXP_LONG_LEN: usize = 32;

/// The version 1.0, which has the limits of the hint programs.
pub const VERSION_1_0: u32 = 0x0001_0000;

/// The limits of the hint programs: those of a table of version 1.0.
#[derive(Copy, Clone, PartialEq, Eq, Structural, Debug)]
pub struct HintLimits {
    pub max_twilight_points: u16,
    pub max_storage: u16,
    pub max_function_defs: u16,
    pub max_instruction_defs: u16,
    pub max_stack_elements: u16,
}

/// What the loader reads of the maximum profile.
#[derive(Copy, Clone, PartialEq, Eq, Structural, Debug)]
pub struct Maxp {
    /// The number of glyphs in the font.
    pub num_glyphs: u16,
    /// The limits of the hint programs, where the table has them.
    pub limits: Option<HintLimits>,
}

/// The maximum profile that `bytes` hold, if they hold a whole one.
pub open spec fn maxp_of(bytes: Seq<u8>) -> Option<Maxp> {
    if bytes.len() < MAXP_SHORT_LEN {
        None
    } else if u32_at(bytes, 0) != VERSION_1_0 {
        Some(Maxp { num_glyphs: u16_at(bytes, 4), limits: None })
    } else if bytes.len() < MAXP_LONG_LEN {
        None
    } else {
        Some(
            Maxp {
                num_glyphs: u16_at(bytes, 4),
                limits: Some(
                    HintLimits {
                        max_twilight_points: u16_at(bytes, 16),
                        max_storage: u16_at(bytes, 18),
                        max_function_defs: u16_at(bytes, 20),
                        max_instruction_defs: u16_at(bytes, 22),
                        max_stack_elements: u16_at(bytes, 24),
                    },
                ),
            },
        )
    }
}

impl Maxp {
    /// Reads a maximum profile. Fails where the table is cut short for its
    /// version.
    pub fn read(data: &[u8]) -> (r: Option<Maxp>)
        ensures
            r == maxp_of(data@),
    {
        if data.len() < MAXP_SHORT_LEN {
            return None;
        }
        let num_glyphs = read_u16(data, 4);
        if read_u32(data, 0) != VERSION_1_0 {
            return Some(Maxp { num_glyphs, limits: None });
        }
        if data.len() < MAXP_LONG_LEN {
            return None;
        }
        Some(
            Maxp {
                num_glyphs,
                limits: Some(
                    HintLimits {
                        max_twilight_points: read_u16(data, 16),
                        max_storage: read_u16(data, 18),
                        max_function_defs: read_u16(data, 20),
                        max_instruction_defs: read_u16(data, 22),
                        max_stack_elements: read_u16(data, 24),
                    },
                ),
            },
        )
    }
}

} // verus!
