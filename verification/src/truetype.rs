//! TrueType glyph loader.

pub mod assemble;
pub mod cache;
pub mod font;
pub mod glyf;
pub mod hint;
pub mod load;
pub mod math;
pub mod path;

pub use hint::HinterMode;
pub use load::{Loader, LoaderState};

use vstd::prelude::*;

verus! {

/// Point in a TrueType outline.
///
/// The coordinates are either in font units or in 26.6 fixed point,
/// depending on whether the outline was scaled while loading: see
/// [`Outline::is_scaled`].
#[derive(Copy, Clone, PartialEq, Eq, Structural, Debug)]
pub struct Point {
    /// X coordinate.
    pub x: i32,
    /// Y coordinate.
    pub y: i32,
}

impl Point {
    /// Creates a new point with the specified x and y coordinates.
    pub fn new(x: i32, y: i32) -> (p: Self)
        ensures
            p == (Point { x, y }),
    {
        Self { x, y }
    }
}

impl Default for Point {
    fn default() -> (p: Self)
        ensures
            p == (Point { x: 0, y: 0 }),
    {
        Self { x: 0, y: 0 }
    }
}

/// TrueType outline.
#[derive(PartialEq, Eq, Debug)]
pub struct Outline {
    /// Set of points that define the shape of the outline.
    pub points: Vec<Point>,
    /// Set of tags (one per point).
    pub tags: Vec<u8>,
    /// Index of the end points for each contour in the outline.
    pub contours: Vec<u16>,
    /// True if the loader applied a scale, in which case the points are in
    /// 26.6 fixed point format. Otherwise, they are in integral font units.
    pub is_scaled: bool,
}

impl Outline {
    /// Holds of an outline that has no point, no contour and is not scaled.
    pub open spec fn is_empty(&self) -> bool {
        &&& self.points@.len() == 0
        &&& self.tags@.len() == 0
        &&& self.contours@.len() == 0
        &&& !self.is_scaled
    }

    /// Holds when there is one tag per point, the contour ends increase
    /// strictly and each of them names a point.
    pub open spec fn wf(&self) -> bool {
        &&& self.tags@.len() == self.points@.len()
        &&& forall|c: int|
            0 <= c < self.contours@.len() ==> (#[trigger] self.contours@[c]) < self.points@.len()
        &&& forall|c: int, d: int|
            0 <= c < d < self.contours@.len() ==> self.contours@[c] < self.contours@[d]
    }

    /// Creates a new empty outline.
    pub fn new() -> (outline: Self)
        ensures
            outline.is_empty(),
            outline.wf(),
    {
        Self { points: Vec::new(), tags: Vec::new(), contours: Vec::new(), is_scaled: false }
    }

    /// Empties the outline.
    pub fn clear(&mut self)
        ensures
            final(self).is_empty(),
            final(self).wf(),
    {
        self.points.clear();
        self.tags.clear();
        self.contours.clear();
        self.is_scaled = false;
    }

    /// The number by which a coordinate is divided to give pixels (where the
    /// outline is scaled) or font units (where it is not).
    pub fn units_per_step(&self) -> (n: u32)
        ensures
            n == (if self.is_scaled {
                64u32
            } else {
                1u32
            }),
    {
        if self.is_scaled {
            64
        } else {
            1
        }
    }
}

impl Default for Outline {
    fn default() -> (outline: Self)
        ensures
            outline.is_empty(),
            outline.wf(),
    {
        Outline::new()
    }
}

} // verus!
