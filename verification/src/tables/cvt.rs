//! The table of control values.

use crate::read::{i16_at, read_i16};
use vstd::prelude::*;

verus! {

/// Reads control values: as many signed 16-bit numbers as `data` holds
/// whole.
pub fn read_cvt(data: &[u8]) -> (r: Vec<i16>)
    ensures
        r@.len() == data@.len() / 2,
        forall|i: int| 0 <= i < r@.len() ==> (#[trigger] r@[i]) == i16_at(data@, 2 * i),
{
    let n = data.len() / 2;
    let mut r: Vec<i16> = Vec::new();
    let mut i: usize = 0;
    while i < n
        invariant
            i <= n,
            n == data@.len() / 2,
            data@.len() <= usize::MAX,
            r@.len() == i,
            forall|j: int| 0 <= j < i ==> (#[trigger] r@[j]) == i16_at(data@, 2 * j),
        decreases n - i,
    {
        r.push(read_i16(data, 2 * i));
        i += 1;
    }
    r
}

} // verus!
