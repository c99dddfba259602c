//! The boundary to the hint program interpreter.
//!
//! The interpreter itself is not part of this crate. It is reached through
//! the trait [`Interpreter`]. Of what a willing interpreter hands back
//! nothing is assumed: it is checked before it is used.

use super::font::LoaderFont;
use super::Point;
use vstd::prelude::*;

verus! {

/// Modes of the hint program interpreter.
#[derive(Copy, Clone, PartialEq, Eq, Structural, Debug)]
pub enum HinterMode {
    /// Full hinting in both directions.
    Legacy,
    /// Hinting for subpixel rendering: horizontal moves are dropped.
    Subpixel,
    /// Vertical hinting only.
    Modern,
}

impl Default for HinterMode {
    fn default() -> (mode: Self)
        ensures
            mode == HinterMode::Modern,
    {
        HinterMode::Modern
    }
}

/// The points that a hint program moves: those of the glyph, followed by
/// its four phantom points.
#[derive(Clone, PartialEq, Eq, Debug)]
pub struct HintZone {
    /// The points, the four phantom points last.
    pub points: Vec<Point>,
    /// One tag per point.
    pub tags: Vec<u8>,
    /// The session's phantom points.
    pub phantom: [Point; 4],
}

/// What a hint program reads of the glyph that it belongs to.
pub struct HintGlyph<'a> {
    /// The glyph's points before scaling.
    pub unscaled: &'a Vec<Point>,
    /// The glyph's points after scaling and before hinting.
    pub original: &'a Vec<Point>,
    /// All contour ends of the outline so far.
    pub contours: &'a Vec<u16>,
    /// Index in the outline of the zone's first point.
    pub point_base: usize,
    /// Index of the glyph's first contour.
    pub contour_base: usize,
    /// The glyph's hint program.
    pub instructions: &'a Vec<u8>,
    /// Whether the glyph is a composite.
    pub is_composite: bool,
}

/// An interpreter of hint programs.
pub trait Interpreter {
    /// What the interpreter keeps of a font at one size.
    type Context;

    /// Whether the interpreter builds contexts at all. One that does not
    /// refuses every font, and never comes to build one.
    open spec fn willing(&self) -> bool {
        true
    }

    /// Builds the context for a font at one size, running the font's own
    /// programs. `None` says that the font cannot be hinted at this size. An
    /// interpreter that is not willing builds none and stays as it is.
    fn prepare(
        &mut self,
        font: &LoaderFont,
        coords: &[i16],
        ppem: u16,
        scale: i32,
        mode: HinterMode,
    ) -> (context: Option<Self::Context>)
        ensures
            !old(self).willing() ==> context.is_none() && !final(self).willing(),
    ;

    /// Runs the hint program of a glyph on a zone and hands back the zone
    /// with its points moved. `None` says that the program failed. An
    /// interpreter that is not willing does not come to be.
    fn execute(
        &mut self,
        context: &mut Self::Context,
        font: &LoaderFont,
        coords: &[i16],
        glyph: &HintGlyph<'_>,
        zone: HintZone,
    ) -> (hinted: Option<HintZone>)
        ensures
            !old(self).willing() ==> !final(self).willing(),
    ;
}

/// The interpreter that hints no font.
#[derive(Copy, Clone, PartialEq, Eq, Debug)]
pub struct NoInterpreter;

impl Interpreter for NoInterpreter {
    type Context = ();

    open spec fn willing(&self) -> bool {
        false
    }

    fn prepare(
        &mut self,
        font: &LoaderFont,
        coords: &[i16],
        ppem: u16,
        scale: i32,
        mode: HinterMode,
    ) -> (context: Option<()>)
        ensures
            context.is_none(),
    {
        None
    }

    fn execute(
        &mut self,
        context: &mut (),
        font: &LoaderFont,
        coords: &[i16],
        glyph: &HintGlyph<'_>,
        zone: HintZone,
    ) -> (hinted: Option<HintZone>)
        ensures
            hinted.is_none(),
    {
        None
    }
}

} // verus!
