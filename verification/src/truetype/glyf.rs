//! Decoded glyph records: what the loader reads of the outline table.

use vstd::prelude::*;

verus! {

/// Bit of a component's flags: the offsets are rounded to the pixel grid.
pub const ROUND_XY_TO_GRID: u16 = 0x0004;

/// Bit of a component's flags: one scale for both axes.
pub const WE_HAVE_A_SCALE: u16 = 0x0008;

/// Bit of a component's flags: one scale for each axis.
pub const WE_HAVE_AN_X_AND_Y_SCALE: u16 = 0x0040;

/// Bit of a component's flags: a full 2x2 matrix.
pub const WE_HAVE_A_TWO_BY_TWO: u16 = 0x0080;

/// Bit of a component's flags: the composite takes its metrics from this
/// component.
pub const USE_MY_METRICS: u16 = 0x0200;

/// Bit of a component's flags: the offset is scaled by the transform.
pub const SCALED_COMPONENT_OFFSET: u16 = 0x0800;

/// Bit of a component's flags: the offset is not scaled by the transform.
pub const UNSCALED_COMPONENT_OFFSET: u16 = 0x1000;

/// The flags of one component of a composite glyph.
#[derive(Copy, Clone, PartialEq, Eq, Structural, Debug)]
pub struct CompositeGlyphFlags {
    /// The flags as the font stores them.
    pub bits: u16,
}

impl CompositeGlyphFlags {
    /// Holds when every bit of `mask` is set.
    pub open spec fn has_all(&self, mask: u16) -> bool {
        self.bits & mask == mask
    }

    /// Holds when some bit of `mask` is set.
    pub open spec fn has_any(&self, mask: u16) -> bool {
        self.bits & mask != 0
    }

    /// Holds when the component carries a transform.
    pub open spec fn has_transform(&self) -> bool {
        self.has_any(WE_HAVE_A_SCALE | WE_HAVE_AN_X_AND_Y_SCALE | WE_HAVE_A_TWO_BY_TWO)
    }

    /// Holds when the offset is to be scaled by the transform: the bit for
    /// it is set and the bit against it is not.
    pub open spec fn has_scaled_offset(&self) -> bool {
        self.bits & (SCALED_COMPONENT_OFFSET | UNSCALED_COMPONENT_OFFSET)
            == SCALED_COMPONENT_OFFSET
    }

    /// Creates flags from their stored form.
    pub fn from_bits(bits: u16) -> (flags: Self)
        ensures
            flags.bits == bits,
    {
        Self { bits }
    }

    /// Tells whether every bit of `mask` is set.
    pub fn contains(&self, mask: u16) -> (r: bool)
        ensures
            r == self.has_all(mask),
    {
        self.bits & mask == mask
    }

    /// Tells whether some bit of `mask` is set.
    pub fn intersects(&self, mask: u16) -> (r: bool)
        ensures
            r == self.has_any(mask),
    {
        self.bits & mask != 0
    }

    /// Tells whether the component carries a transform.
    pub fn have_transform(&self) -> (r: bool)
        ensures
            r == self.has_transform(),
    {
        self.intersects(WE_HAVE_A_SCALE | WE_HAVE_AN_X_AND_Y_SCALE | WE_HAVE_A_TWO_BY_TWO)
    }

    /// Tells whether the offset is to be scaled by the transform.
    pub fn scaled_offset(&self) -> (r: bool)
        ensures
            r == self.has_scaled_offset(),
    {
        self.bits & (SCALED_COMPONENT_OFFSET | UNSCALED_COMPONENT_OFFSET)
            == SCALED_COMPONENT_OFFSET
    }
}

/// One point of a simple glyph, in font units.
#[derive(Copy, Clone, PartialEq, Eq, Structural, Debug)]
pub struct GlyphPoint {
    /// X coordinate.
    pub x: i16,
    /// Y coordinate.
    pub y: i16,
    /// Whether the point lies on the curve.
    pub on_curve: bool,
}

/// The bounding box of a glyph, in font units.
#[derive(Copy, Clone, PartialEq, Eq, Structural, Debug)]
pub struct Bounds {
    /// Smallest x coordinate.
    pub x_min: i16,
    /// Largest x coordinate.
    pub x_max: i16,
    /// Smallest y coordinate.
    pub y_min: i16,
    /// Largest y coordinate.
    pub y_max: i16,
}

/// A glyph that holds its own contours.
#[derive(Clone, PartialEq, Eq, Debug)]
pub struct SimpleGlyph {
    /// Bounding box.
    pub bounds: Bounds,
    /// Index of the last point of each contour.
    pub end_pts: Vec<u16>,
    /// The points of all contours.
    pub points: Vec<GlyphPoint>,
    /// The glyph's hint program.
    pub instructions: Vec<u8>,
}

/// Where a component is placed.
#[derive(Copy, Clone, PartialEq, Eq, Structural, Debug)]
pub enum Anchor {
    /// At an offset, in font units.
    Offset { x: i16, y: i16 },
    /// So that the point `component` of the component falls on the point
    /// `base` of the composite built so far.
    Point { base: u16, component: u16 },
}

/// A 2x2 matrix with entries in 2.14 fixed point, as the font stores them.
#[derive(Copy, Clone, PartialEq, Eq, Structural, Debug)]
pub struct Transform {
    pub xx: i16,
    pub yx: i16,
    pub xy: i16,
    pub yy: i16,
}

/// One component of a composite glyph.
#[derive(Copy, Clone, PartialEq, Eq, Structural, Debug)]
pub struct Component {
    /// How the component is placed and transformed.
    pub flags: CompositeGlyphFlags,
    /// The glyph that the component refers to.
    pub glyph: u16,
    /// Where the component is placed.
    pub anchor: Anchor,
    /// The component's transform, read only where the flags ask for one.
    pub transform: Transform,
}

/// A glyph made of other glyphs.
#[derive(Clone, PartialEq, Eq, Debug)]
pub struct CompositeGlyph {
    /// Bounding box.
    pub bounds: Bounds,
    /// The components in the order of their declaration.
    pub components: Vec<Component>,
    /// The glyph's hint program.
    pub instructions: Vec<u8>,
}

/// A glyph record.
#[derive(Clone, PartialEq, Eq, Debug)]
pub enum Glyph {
    Simple(SimpleGlyph),
    Composite(CompositeGlyph),
}

impl SimpleGlyph {
    /// The number of points that the contour ends call for: one more than
    /// the last end, or none without a contour.
    pub open spec fn point_count(&self) -> int {
        if self.end_pts@.len() == 0 {
            0
        } else {
            self.end_pts@.last() + 1
        }
    }

    /// Holds when the glyph has exactly the points that its contours name.
    pub open spec fn wf(&self) -> bool {
        self.points@.len() == self.point_count()
    }

    /// Tells whether the glyph has exactly the points that its contours name.
    pub fn check(&self) -> (ok: bool)
        ensures
            ok == self.wf(),
    {
        let n = self.end_pts.len();
        if n == 0 {
            self.points.len() == 0
        } else {
            let want: u32 = self.end_pts[n - 1] as u32 + 1;
            self.points.len() as u64 == want as u64
        }
    }
}

impl Glyph {
    /// Holds when a simple glyph has exactly the points that its contours
    /// name.
    pub open spec fn wf(&self) -> bool {
        match self {
            Glyph::Simple(g) => g.wf(),
            Glyph::Composite(_) => true,
        }
    }

    /// The glyph's bounding box.
    pub open spec fn spec_bounds(&self) -> Bounds {
        match self {
            Glyph::Simple(g) => g.bounds,
            Glyph::Composite(g) => g.bounds,
        }
    }

    /// The glyph's bounding box.
    pub fn bounds(&self) -> (b: Bounds)
        ensures
            b == self.spec_bounds(),
    {
        match self {
            Glyph::Simple(g) => g.bounds,
            Glyph::Composite(g) => g.bounds,
        }
    }

    /// Tells whether the glyph is well formed.
    pub fn check(&self) -> (ok: bool)
        ensures
            ok == self.wf(),
    {
        match self {
            Glyph::Simple(g) => g.check(),
            Glyph::Composite(_) => true,
        }
    }
}

/// Widens a 2.14 matrix entry to 16.16.
pub open spec fn spec_f2dot14_to_fixed(bits: i16) -> i32 {
    (bits * 4) as i32
}

/// Widens a 2.14 matrix entry to 16.16.
pub fn f2dot14_to_fixed(bits: i16) -> (r: i32)
    ensures
        r == spec_f2dot14_to_fixed(bits),
{
    bits as i32 * 4
}

} // verus!
