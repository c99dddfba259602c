//! The glyph loader: simple and composite glyphs to one outline.

use super::assemble::{
    advance_after, anchor_in_range, anchor_offset, assemble, assemble_components,
    component_delta, components_advance,
    component_offset, components_contours, components_count, components_have_program,
    has_program, lemma_simple_glyph_unscaled, lemma_translate_by_zero, loaded_contours, loaded_count, offset_contours,
    phantom_of, place_component, round_points, rounded_from, scale_one, scale_points, scaled,
    setup_phantom, simple_contours, simple_points, simple_tags, transform_points,
    translate_points, translated_from, Assembly, RECURSE_LIMIT,
};
use super::cache::{Cache, CacheSlot};
use super::font::{glyph_record, LoaderFont};
use super::glyf::{
    f2dot14_to_fixed, Anchor, Bounds, Component, CompositeGlyph, Glyph, SimpleGlyph,
    USE_MY_METRICS,
};
use super::hint::{HintGlyph, HintZone, HinterMode, Interpreter, NoInterpreter};
use super::math::{magnitude, spec_div, spec_mul, wrap_i32, wrap_to_i32};
use super::{Outline, Point};
use font_types::GlyphId;
use vstd::prelude::*;

verus! {

/// The number of contexts that the cache of a new loader keeps.
pub const DEFAULT_CACHE_MAX_SIZE: usize = 8;

/// The bits of a tag that hint programs set on the points they touch.
pub const TOUCH_MASK: u8 = 0x18;

/// Per-session data of the loader.
pub struct LoaderStateInner<'a> {
    pub data: &'a LoaderFont,
    pub id: Option<u64>,
    pub coords: &'a [i16],
    pub slot: Option<CacheSlot>,
    pub have_scale: bool,
    pub ppem: u16,
    pub scale: i32,
    pub hinter_mode: Option<HinterMode>,
    pub hint: bool,
    pub hint_failed: bool,
    pub vary: bool,
    pub xmin: i32,
    pub xmax: i32,
    pub lsb: i32,
    pub advance: i32,
    pub phantom: [Point; 4],
}

/// Configured state for loading a TrueType glyph from a font.
pub struct LoaderState<'a> {
    inner: LoaderStateInner<'a>,
}

/// The size `size`, in 26.6 pixels per em, as a magnitude of at most 31 bits.
pub open spec fn size_magnitude(size: i32) -> i32 {
    if magnitude(size as int) > i32::MAX {
        i32::MAX
    } else {
        magnitude(size as int) as i32
    }
}

/// The whole pixels per em of the size `size`, at most 65535.
pub open spec fn ppem_of(size: i32) -> u16 {
    if size_magnitude(size) / 64 > u16::MAX {
        u16::MAX
    } else {
        (size_magnitude(size) / 64) as u16
    }
}

impl<'a> LoaderStateInner<'a> {
    /// The scale of the session, if it has one.
    pub open spec fn spec_scale(&self) -> Option<i32> {
        if self.have_scale {
            Some(self.scale)
        } else {
            None
        }
    }

    /// Holds when `self` and `other` are for the same font, size, variation
    /// and mode.
    pub open spec fn same_session(&self, other: &Self) -> bool {
        &&& self.data == other.data
        &&& self.id == other.id
        &&& self.coords@ == other.coords@
        &&& self.have_scale == other.have_scale
        &&& self.ppem == other.ppem
        &&& self.scale == other.scale
        &&& self.hinter_mode == other.hinter_mode
        &&& self.vary == other.vary
    }

    /// Holds of the data of a session that has loaded nothing yet, for a
    /// font at the size `size`: the session scales where it has a size and
    /// the font has units per em, by the quotient of the two; it hints where
    /// it has a mode.
    pub open spec fn is_new(
        &self,
        data: &LoaderFont,
        id: Option<u64>,
        coords: Seq<i16>,
        size: i32,
        hint: Option<HinterMode>,
    ) -> bool {
        &&& self.data == data
        &&& self.id == id
        &&& self.coords@ == coords
        &&& self.slot.is_none()
        &&& self.have_scale == (size != 0 && data.units_per_em != 0)
        &&& self.ppem == ppem_of(size)
        &&& self.scale == if self.have_scale {
            spec_div(size_magnitude(size), data.units_per_em as i32)
        } else {
            0
        }
        &&& self.hinter_mode == hint
        &&& self.hint == hint.is_some()
        &&& !self.hint_failed
        &&& self.vary == (data.axis_count != 0 && coords.len() != 0)
        &&& self.xmin == 0 && self.xmax == 0 && self.lsb == 0 && self.advance == 0
        &&& self.phantom@ == Seq::new(4, |i: int| Point { x: 0, y: 0 })
    }

    /// Creates the per-session data for a font at the size `size`, in 26.6
    /// pixels per em. The sign of the size is dropped. Without a size, or for
    /// a font without units per em, the session does not scale.
    pub fn new(
        data: &'a LoaderFont,
        id: Option<u64>,
        coords: &'a [i16],
        size: i32,
        hint: Option<HinterMode>,
    ) -> (state: Self)
        ensures
            state.is_new(data, id, coords@, size, hint),
    {
        let wide: i64 = if size < 0 {
            -(size as i64)
        } else {
            size as i64
        };
        let abs: i32 = if wide > 0x7FFF_FFFF {
            0x7FFF_FFFF
        } else {
            wide as i32
        };
        let whole: u32 = (abs as u32) / 64;
        let ppem: u16 = if whole > 0xFFFF {
            0xFFFF
        } else {
            whole as u16
        };
        let upem = data.units_per_em;
        let have_scale = size != 0 && upem != 0;
        let scale = if have_scale {
            crate::truetype::math::div(abs, upem as i32)
        } else {
            0
        };
        let zero = Point { x: 0, y: 0 };
        let phantom = [zero, zero, zero, zero];
        assert(phantom@ =~= Seq::new(4, |i: int| Point { x: 0, y: 0 }));
        Self {
            data,
            id,
            coords,
            slot: None,
            have_scale,
            ppem,
            scale,
            hinter_mode: hint,
            hint: hint.is_some(),
            hint_failed: false,
            vary: data.axis_count != 0 && coords.len() != 0,
            xmin: 0,
            xmax: 0,
            lsb: 0,
            advance: 0,
            phantom,
        }
    }
}

impl<'a> LoaderState<'a> {
    /// The per-session data.
    pub closed spec fn view(&self) -> LoaderStateInner<'a> {
        self.inner
    }

    /// Creates a new glyph loader state for the specified font and
    /// configuration settings. The size is given in 26.6 pixels per em.
    pub fn new(
        font: &'a LoaderFont,
        font_id: Option<u64>,
        variation_coords: &'a [i16],
        pixels_per_em: i32,
        hinter_mode: Option<HinterMode>,
    ) -> (state: Self)
        ensures
            state@.is_new(font, font_id, variation_coords@, pixels_per_em, hinter_mode),
    {
        Self {
            inner: LoaderStateInner::new(
                font,
                font_id,
                variation_coords,
                pixels_per_em,
                hinter_mode,
            ),
        }
    }

    /// Whether the session still hints.
    pub fn hinting(&self) -> (r: bool)
        ensures
            r == self@.hint,
    {
        self.inner.hint
    }

    /// Whether a hint program failed during the latest load.
    pub fn hint_failed(&self) -> (r: bool)
        ensures
            r == self@.hint_failed,
    {
        self.inner.hint_failed
    }

    /// The scale of the session: a 16.16 factor from font units to 26.6
    /// pixels, if the session scales.
    pub fn scale(&self) -> (r: Option<i32>)
        ensures
            r == self@.spec_scale(),
    {
        if self.inner.have_scale {
            Some(self.inner.scale)
        } else {
            None
        }
    }

    /// The phantom points that the latest load left.
    pub fn phantom(&self) -> (r: [Point; 4])
        ensures
            r == self@.phantom,
    {
        self.inner.phantom
    }
}

/// The tags of a zone: those of a composite have the marks of earlier hint
/// programs removed.
pub open spec fn zone_tags(tags: Seq<u8>, is_composite: bool) -> Seq<u8> {
    Seq::new(
        tags.len(),
        |i: int|
            if is_composite {
                tags[i] & !TOUCH_MASK
            } else {
                tags[i]
            },
    )
}

/// The points of a zone: the points from index `point_base` on, the last
/// four of them, which are the phantom points, rounded to the pixel grid.
pub open spec fn zone_points(points: Seq<Point>, point_base: int) -> Seq<Point> {
    rounded_from(points.subrange(point_base, points.len() as int), points.len() - point_base - 4)
}

/// Builds the zone that the hint program of a glyph works on.
pub fn hint_zone(
    points: &Vec<Point>,
    tags: &Vec<u8>,
    phantom: [Point; 4],
    point_base: usize,
    is_composite: bool,
) -> (zone: HintZone)
    requires
        point_base + 4 <= points@.len(),
        tags@.len() == points@.len(),
    ensures
        zone.points@ == zone_points(points@, point_base as int),
        zone.tags@ == zone_tags(
            tags@.subrange(point_base as int, tags@.len() as int),
            is_composite,
        ),
        zone.phantom == phantom,
{
    let n = points.len();
    let mut zp: Vec<Point> = Vec::new();
    let mut zt: Vec<u8> = Vec::new();
    let mut i: usize = point_base;
    while i < n
        invariant
            point_base <= i <= n,
            n == points@.len(),
            n == tags@.len(),
            zp@.len() == i - point_base,
            zt@.len() == i - point_base,
            forall|j: int|
                0 <= j < i - point_base ==> (#[trigger] zp@[j]) == points@[point_base + j],
            forall|j: int|
                0 <= j < i - point_base ==> (#[trigger] zt@[j]) == if is_composite {
                    tags@[point_base + j] & !TOUCH_MASK
                } else {
                    tags@[point_base + j]
                },
        decreases n - i,
    {
        zp.push(points[i]);
        let t = tags[i];
        zt.push(
            if is_composite {
                t & !TOUCH_MASK
            } else {
                t
            },
        );
        i += 1;
    }
    assert(zp@ =~= points@.subrange(point_base as int, n as int));
    round_points(&mut zp, n - point_base - 4);
    assert(zt@ =~= zone_tags(tags@.subrange(point_base as int, n as int), is_composite));
    HintZone { points: zp, tags: zt, phantom }
}

/// Puts the points and tags of a hinted zone back where the zone came from:
/// from index `point_base` on.
pub fn apply_zone(
    points: &mut Vec<Point>,
    tags: &mut Vec<u8>,
    point_base: usize,
    zone: &HintZone,
)
    requires
        old(tags)@.len() == old(points)@.len(),
        point_base + zone.points@.len() == old(points)@.len(),
        zone.tags@.len() == zone.points@.len(),
    ensures
        final(points)@ == old(points)@.subrange(0, point_base as int) + zone.points@,
        final(tags)@ == old(tags)@.subrange(0, point_base as int) + zone.tags@,
{
    let n = zone.points.len();
    let total = points.len();
    let mut i: usize = 0;
    while i < n
        invariant
            n == zone.points@.len(),
            n == zone.tags@.len(),
            total == points@.len(),
            i <= n,
            points@.len() == old(points)@.len(),
            tags@.len() == old(tags)@.len(),
            point_base + n == points@.len(),
            point_base + n <= usize::MAX,
            tags@.len() == points@.len(),
            forall|j: int| 0 <= j < point_base ==> (#[trigger] points@[j]) == old(points)@[j],
            forall|j: int| 0 <= j < point_base ==> (#[trigger] tags@[j]) == old(tags)@[j],
            forall|j: int| 0 <= j < i ==> (#[trigger] points@[point_base + j]) == zone.points@[j],
            forall|j: int| 0 <= j < i ==> (#[trigger] tags@[point_base + j]) == zone.tags@[j],
        decreases n - i,
    {
        points.set(point_base + i, zone.points[i]);
        tags.set(point_base + i, zone.tags[i]);
        i += 1;
    }
    assert forall|j: int| 0 <= j < points@.len() implies points@[j] == (old(points)@.subrange(
        0,
        point_base as int,
    ) + zone.points@)[j] by {
        if j >= point_base {
            assert(points@[point_base + (j - point_base)] == zone.points@[j - point_base]);
        }
    }
    assert forall|j: int| 0 <= j < tags@.len() implies tags@[j] == (old(tags)@.subrange(
        0,
        point_base as int,
    ) + zone.tags@)[j] by {
        if j >= point_base {
            assert(tags@[point_base + (j - point_base)] == zone.tags@[j - point_base]);
        }
    }
    assert(points@ =~= old(points)@.subrange(0, point_base as int) + zone.points@);
    assert(tags@ =~= old(tags)@.subrange(0, point_base as int) + zone.tags@);
}

/// An outline together with the phantom points of a session.
pub open spec fn assembly_of(outline: Outline, phantom: [Point; 4]) -> Assembly {
    Assembly {
        points: outline.points@,
        tags: outline.tags@,
        contours: outline.contours@,
        phantom: phantom@,
    }
}

/// The four points of `phantom` under the scale `scale`.
pub open spec fn scaled_phantom(phantom: Seq<Point>, scale: Option<i32>) -> Seq<Point> {
    Seq::new(4, |i: int| scaled(phantom[i], scale))
}

/// Replaces `dst` by the points of `src` from index `from` on.
fn snapshot(dst: &mut Vec<Point>, src: &Vec<Point>, from: usize)
    requires
        from <= src@.len(),
    ensures
        final(dst)@ == src@.subrange(from as int, src@.len() as int),
{
    dst.clear();
    let n = src.len();
    let mut i: usize = from;
    while i < n
        invariant
            from <= i <= n,
            n == src@.len(),
            dst@ == src@.subrange(from as int, i as int),
        decreases n - i,
    {
        dst.push(src[i]);
        assert(dst@ =~= src@.subrange(from as int, i + 1));
        i += 1;
    }
}

/// Transforms the points of the component `c`, which start at index
/// `start`, and moves them to their place in a composite whose points start
/// at index `point_base`. Fails, with the points transformed at most, where
/// the component's anchor names a point that does not exist.
pub fn place(
    points: &mut Vec<Point>,
    c: &Component,
    scale: Option<i32>,
    point_base: usize,
    start: usize,
) -> (ok: bool)
    requires
        point_base <= start <= old(points)@.len(),
    ensures
        ok == anchor_in_range(
            c.anchor,
            point_base as int,
            start as int,
            old(points)@.len() as int,
        ),
        final(points)@.len() == old(points)@.len(),
        ok ==> final(points)@ == place_component(
            *c,
            scale,
            old(points)@,
            point_base as int,
            start as int,
        ),
{
    if c.flags.have_transform() {
        transform_points(
            points,
            start,
            f2dot14_to_fixed(c.transform.xx),
            f2dot14_to_fixed(c.transform.yx),
            f2dot14_to_fixed(c.transform.xy),
            f2dot14_to_fixed(c.transform.yy),
        );
    }
    let ghost turned = points@;
    let delta = match c.anchor {
        Anchor::Offset { x, y } => component_offset(c.flags, c.transform, x, y, scale),
        Anchor::Point { base: parent, component: child } => {
            let count = points.len();
            if parent as usize >= count - point_base || child as usize >= count - start {
                return false;
            }
            match anchor_offset(points, point_base + parent as usize, start + child as usize) {
                Some(delta) => delta,
                None => {
                    return false;
                },
            }
        },
    };
    assert(delta == component_delta(*c, scale, turned, point_base as int, start as int));
    if delta.0 != 0 || delta.1 != 0 {
        translate_points(points, start, delta.0, delta.1);
    } else {
        proof {
            lemma_translate_by_zero(turned, start as int);
        }
    }
    true
}

/// The glyph identifier of `font-types`, of which nothing is seen here.
#[verifier::external_type_specification]
#[verifier::external_body]
pub struct ExGlyphId(GlyphId);

/// The number that a glyph identifier stands for.
pub uninterp spec fn glyph_index(id: GlyphId) -> u16;

/// Calls `font_types::GlyphId::to_u16`, which hands out the number that the
/// identifier was made of. The contract gives that number the name
/// `glyph_index(id)` and claims nothing of its value.
#[verifier::external_body]
fn glyph_id_to_u16(id: GlyphId) -> (index: u16)
    ensures
        index == glyph_index(id),
{
    id.to_u16()
}

/// Holds when glyph `gid` of `font` can be loaded: the font counts it among
/// its glyphs and has a record for it and for every glyph that it is made
/// of, no composite is nested deeper than the limit, and every anchor names
/// points that exist.
pub open spec fn loadable(font: LoaderFont, gid: u16) -> bool {
    gid < font.glyph_count && loaded_count(font.glyphs@, gid, 0, 0).is_some()
}

/// The number of points of glyph `gid` of `font`, which can be loaded.
pub open spec fn point_count(font: LoaderFont, gid: u16) -> int {
    loaded_count(font.glyphs@, gid, 0, 0).unwrap()
}

/// `points` with the x coordinate `origin` taken from each.
pub open spec fn origin_shifted(points: Seq<Point>, origin: i32) -> Seq<Point> {
    Seq::new(points.len(), |i: int| Point { x: wrap_i32(points[i].x - origin), y: points[i].y })
}

/// Glyph `gid` of `font` as it is loaded when no hint program runs, in a
/// session with the scale `scale` that an earlier load left with the
/// phantom points `phantom`: the outline, its points relative to the
/// glyph's origin, and the phantom points that the load leaves.
pub open spec fn unhinted(font: LoaderFont, scale: Option<i32>, phantom: Seq<Point>, gid: u16)
    -> Assembly {
    let a = assemble(
        font,
        scale,
        gid,
        0,
        Assembly { points: Seq::empty(), tags: Seq::empty(), contours: Seq::empty(), phantom },
    );
    Assembly { points: origin_shifted(a.points, a.phantom[0].x), ..a }
}

/// Taking nothing from the points leaves them where they are.
pub proof fn lemma_shift_by_zero(points: Seq<Point>)
    ensures
        origin_shifted(points, 0) == points,
{
    reveal(wrap_i32);
    assert(origin_shifted(points, 0) =~= points);
}

/// Holds when no hint program runs: the session does not hint, the loader
/// is idle, or there is no program.
pub open spec fn quiet(hint: bool, idle: bool, program: bool) -> bool {
    !hint || idle || !program
}

/// Holds when two states of a session hold the same scaled bounds and left
/// side bearing of the outermost glyph.
pub open spec fn same_bounds(before: LoaderStateInner<'_>, after: LoaderStateInner<'_>) -> bool {
    &&& after.xmin == before.xmin
    &&& after.xmax == before.xmax
    &&& after.lsb == before.lsb
}

/// The scaled bounds and left side bearing that a session holds once glyph
/// `gid` is loaded as the outermost glyph: those of the glyph where the
/// session scales and the glyph has an outline, else those that it held.
pub open spec fn outer_bounds(
    before: LoaderStateInner<'_>,
    gid: u16,
    after: LoaderStateInner<'_>,
) -> bool {
    match glyph_record(before.data.glyphs@, gid) {
        Some(Some(glyph)) => if before.have_scale {
            &&& after.xmin == spec_mul(glyph.spec_bounds().x_min as i32, before.scale)
            &&& after.xmax == spec_mul(glyph.spec_bounds().x_max as i32, before.scale)
            &&& after.lsb == spec_mul(before.data.spec_lsb(gid) as i32, before.scale)
        } else {
            same_bounds(before, after)
        },
        _ => same_bounds(before, after),
    }
}

/// The flags of a session after a step in which no hint program ran, where
/// `program` says whether there was a program to run: a session that hints
/// has then found that it cannot; it stops hinting and notes the failure.
pub open spec fn quiet_flags(
    before: LoaderStateInner<'_>,
    after: LoaderStateInner<'_>,
    program: bool,
) -> bool {
    &&& after.hint == (before.hint && !program)
    &&& after.hint_failed == (before.hint_failed || (before.hint && program))
}

/// What a load of glyph `gid` leaves, in a session that was in the state
/// `before` and with a loader that was idle or not: whether it succeeded,
/// the outline, and the state of the session.
///
/// The load succeeds exactly where the glyph can be loaded, whatever the
/// hint programs do; a failed load leaves the outline empty. On success the
/// outline has the points of the glyph and of the glyphs that it is made
/// of, and no phantom point, one tag for each point, and the contour ends of
/// those glyphs; the session holds the scaled bounds of the glyph and the
/// scaled advance of the glyph that was loaded last. Where no hint program
/// runs, since the session does not hint, the loader is idle or there is no
/// program, the outline is the one that scaling alone gives, relative to
/// the glyph's origin.
pub open spec fn load_leaves(
    idle: bool,
    before: LoaderStateInner<'_>,
    gid: u16,
    ok: bool,
    outline: Outline,
    after: LoaderStateInner<'_>,
) -> bool {
    &&& ok == loadable(*before.data, gid)
    &&& !ok ==> outline.is_empty()
    &&& ok ==> {
        &&& outline.points@.len() == point_count(*before.data, gid)
        &&& outline.tags@.len() == outline.points@.len()
        &&& outline.contours@ == loaded_contours(before.data.glyphs@, gid, 0, 0, Seq::empty())
        &&& outline.is_scaled == before.have_scale
        &&& outer_bounds(before, gid, after)
        &&& after.advance == advance_after(*before.data, before.scale, gid, 0, before.advance)
        &&& quiet(before.hint, idle, has_program(before.data.glyphs@, gid, 0)) ==> assembly_of(
            outline,
            after.phantom,
        ) == unhinted(*before.data, before.spec_scale(), before.phantom@, gid)
    }
}

/// The flags that a load of glyph `gid` leaves where it succeeds and no hint
/// program runs: the session notes a failure, and stops hinting, exactly
/// where it hinted and there was a program to run.
pub open spec fn load_flags(
    idle: bool,
    before: LoaderStateInner<'_>,
    gid: u16,
    ok: bool,
    after: LoaderStateInner<'_>,
) -> bool {
    let program = has_program(before.data.glyphs@, gid, 0);
    ok && quiet(before.hint, idle, program) ==> {
        &&& after.hint == (before.hint && !program)
        &&& after.hint_failed == (before.hint && program)
    }
}

/// A load of a simple glyph without hint program, in a session that does not
/// scale, succeeds whether the session hints or not. The outline holds the
/// points of the glyph as the font has them, each x coordinate counted from
/// the glyph's origin, which is its smallest x less its left side bearing;
/// it holds one tag for each point, and no point beyond the last contour
/// end.
pub proof fn lemma_load_of_simple_glyph(
    before: LoaderStateInner<'_>,
    idle: bool,
    gid: u16,
    g: SimpleGlyph,
    ok: bool,
    outline: Outline,
    after: LoaderStateInner<'_>,
)
    requires
        gid < before.data.glyph_count,
        before.data.spec_glyph(gid) == Some(Some(Glyph::Simple(g))),
        g.wf(),
        g.instructions@.len() == 0,
        !before.have_scale,
        load_leaves(idle, before, gid, ok, outline, after),
    ensures
        ok,
        outline.points@.len() == g.points@.len(),
        outline.tags@.len() == outline.points@.len(),
        outline.contours@ == g.end_pts@,
        outline.contours@.len() > 0 ==> outline.points@.len() == outline.contours@.last() + 1,
        forall|i: int|
            0 <= i < g.points@.len() ==> (#[trigger] outline.points@[i]).y == g.points@[i].y
                && outline.points@[i].x == g.points@[i].x - (g.bounds.x_min
                - before.data.spec_lsb(gid)),
{
    lemma_simple_glyph_unscaled(*before.data, before.phantom@, gid, g);
}

/// A loader that is idle never fails a load for want of hinting, and what it
/// leaves in a session that hints is what a load leaves in a session that
/// does not: both loads succeed or both fail, and where they succeed the
/// outlines and the phantom points are the same, coordinate for coordinate.
pub proof fn lemma_idle_load_is_unhinted(
    hinting: LoaderStateInner<'_>,
    plain: LoaderStateInner<'_>,
    idle: bool,
    gid: u16,
    ok_hinting: bool,
    outline_hinting: Outline,
    after_hinting: LoaderStateInner<'_>,
    ok_plain: bool,
    outline_plain: Outline,
    after_plain: LoaderStateInner<'_>,
)
    requires
        hinting.same_session(&plain),
        hinting.phantom == plain.phantom,
        !plain.hint,
        load_leaves(true, hinting, gid, ok_hinting, outline_hinting, after_hinting),
        load_leaves(idle, plain, gid, ok_plain, outline_plain, after_plain),
    ensures
        ok_hinting == ok_plain,
        outline_hinting.points@ == outline_plain.points@,
        outline_hinting.tags@ == outline_plain.tags@,
        outline_hinting.contours@ == outline_plain.contours@,
        outline_hinting.is_scaled == outline_plain.is_scaled,
        ok_hinting ==> after_hinting.phantom@ == after_plain.phantom@,
{
    if !ok_hinting {
        assert(outline_hinting.points@ =~= outline_plain.points@);
        assert(outline_hinting.tags@ =~= outline_plain.tags@);
        assert(outline_hinting.contours@ =~= outline_plain.contours@);
    }
}

/// Takes the x coordinate `origin` from each point.
pub fn shift_origin(points: &mut Vec<Point>, origin: i32)
    ensures
        final(points)@ == origin_shifted(old(points)@, origin),
{
    let n = points.len();
    let mut i: usize = 0;
    while i < n
        invariant
            n == points@.len(),
            n == old(points)@.len(),
            i <= n,
            forall|j: int|
                0 <= j < n ==> (#[trigger] points@[j]) == if j < i {
                    Point { x: wrap_i32(old(points)@[j].x - origin), y: old(points)@[j].y }
                } else {
                    old(points)@[j]
                },
        decreases n - i,
    {
        let p = points[i];
        points.set(i, Point { x: wrap_to_i32(p.x as i64 - origin as i64), y: p.y });
        i += 1;
    }
    assert(points@ =~= origin_shifted(old(points)@, origin));
}

/// What every step of a load keeps: the loader's cache stays in order and
/// an idle loader idle, the session stays the same and does not come to
/// hint, it notes no failure unless it hints, and the outline keeps one tag
/// for each point.
pub open spec fn kept<H: Interpreter>(
    loader: Loader<H>,
    state: LoaderStateInner<'_>,
    outline: Outline,
    loader_after: Loader<H>,
    state_after: LoaderStateInner<'_>,
    outline_after: Outline,
) -> bool {
    &&& loader_after.wf()
    &&& loader_after.cache_size() == loader.cache_size()
    &&& loader.idle() ==> loader_after.idle()
    &&& state_after.same_session(&state)
    &&& state_after.hint ==> state.hint
    &&& !state.hint ==> state_after.hint_failed == state.hint_failed
    &&& outline_after.tags@.len() == outline_after.points@.len()
    &&& outline_after.is_scaled == outline.is_scaled
}

/// Loader for TrueType glyphs.
pub struct Loader<H: Interpreter> {
    unscaled: Vec<Point>,
    original: Vec<Point>,
    cache: Cache<H>,
}

impl Loader<NoInterpreter> {
    /// Creates a new TrueType glyph loader without an interpreter of hint
    /// programs: it loads and scales, and hints nothing.
    pub fn new() -> (loader: Self)
        ensures
            loader.wf(),
            loader.cache_size() == DEFAULT_CACHE_MAX_SIZE,
            loader.idle(),
    {
        Loader::with_interpreter(NoInterpreter, DEFAULT_CACHE_MAX_SIZE)
    }
}

impl Default for Loader<NoInterpreter> {
    fn default() -> (loader: Self)
        ensures
            loader.wf(),
            loader.cache_size() == DEFAULT_CACHE_MAX_SIZE,
            loader.idle(),
    {
        Loader::new()
    }
}

impl<H: Interpreter> Loader<H> {
    /// Holds when the loader's cache is in order.
    pub closed spec fn wf(&self) -> bool {
        self.cache.wf()
    }

    /// The largest number of contexts that the loader's cache keeps.
    pub closed spec fn cache_size(&self) -> usize {
        self.cache.max_size()
    }

    /// Holds when the loader hints nothing: its cache holds no context and
    /// builds none, since it keeps none or the interpreter is not willing.
    pub closed spec fn idle(&self) -> bool {
        self.cache.idle()
    }

    /// Creates a new TrueType glyph loader that hints with `interpreter` and
    /// keeps at most `max_size` of its contexts.
    pub fn with_interpreter(interpreter: H, max_size: usize) -> (loader: Self)
        ensures
            loader.wf(),
            loader.cache_size() == max_size,
            max_size == 0 || !interpreter.willing() ==> loader.idle(),
    {
        Self {
            unscaled: Vec::new(),
            original: Vec::new(),
            cache: Cache::new(interpreter, max_size),
        }
    }

    /// Loads the specified TrueType glyph using the prepared state.
    ///
    /// Returns the outline that [`Loader::load_to`] fills, or `None` where
    /// the glyph cannot be loaded.
    pub fn load(&mut self, state: &mut LoaderState<'_>, glyph_id: GlyphId) -> (res: Option<Outline>)
        requires
            old(self).wf(),
        ensures
            final(self).wf(),
            final(self).cache_size() == old(self).cache_size(),
            old(self).idle() ==> final(self).idle(),
            final(state)@.same_session(&old(state)@),
            final(state)@.hint ==> old(state)@.hint,
            !old(state)@.hint ==> !final(state)@.hint_failed,
            res.is_some() == loadable(*old(state)@.data, glyph_index(glyph_id)),
            res matches Some(outline) ==> load_leaves(
                old(self).idle(),
                old(state)@,
                glyph_index(glyph_id),
                true,
                outline,
                final(state)@,
            ),
            load_flags(
                old(self).idle(),
                old(state)@,
                glyph_index(glyph_id),
                res.is_some(),
                final(state)@,
            ),
    {
        let mut outline = Outline::new();
        if self.load_to(state, glyph_id, &mut outline) {
            Some(outline)
        } else {
            None
        }
    }

    /// Loads the specified TrueType glyph using the prepared state into a
    /// preallocated outline: [`Loader::load_glyph_to`] for the number that
    /// the identifier stands for.
    pub fn load_to(
        &mut self,
        state: &mut LoaderState<'_>,
        glyph_id: GlyphId,
        outline: &mut Outline,
    ) -> (ok: bool)
        requires
            old(self).wf(),
        ensures
            final(self).wf(),
            final(self).cache_size() == old(self).cache_size(),
            old(self).idle() ==> final(self).idle(),
            final(state)@.same_session(&old(state)@),
            final(state)@.hint ==> old(state)@.hint,
            !old(state)@.hint ==> !final(state)@.hint_failed,
            load_leaves(
                old(self).idle(),
                old(state)@,
                glyph_index(glyph_id),
                ok,
                *final(outline),
                final(state)@,
            ),
            load_flags(old(self).idle(), old(state)@, glyph_index(glyph_id), ok, final(state)@),
    {
        self.load_glyph_to(state, glyph_id_to_u16(glyph_id), outline)
    }

    /// Loads the glyph with the number `gid` using the prepared state into
    /// a preallocated outline, which is emptied first. A hint program that
    /// fails, or a context that cannot be had, does not fail the load: the
    /// session notes it and the points stay as scaling left them.
    pub fn load_glyph_to(
        &mut self,
        state: &mut LoaderState<'_>,
        gid: u16,
        outline: &mut Outline,
    ) -> (ok: bool)
        requires
            old(self).wf(),
        ensures
            final(self).wf(),
            final(self).cache_size() == old(self).cache_size(),
            old(self).idle() ==> final(self).idle(),
            final(state)@.same_session(&old(state)@),
            final(state)@.hint ==> old(state)@.hint,
            !old(state)@.hint ==> !final(state)@.hint_failed,
            load_leaves(
                old(self).idle(),
                old(state)@,
                gid,
                ok,
                *final(outline),
                final(state)@,
            ),
            load_flags(old(self).idle(), old(state)@, gid, ok, final(state)@),
    {
        outline.clear();
        self.unscaled.clear();
        self.original.clear();
        state.inner.hint_failed = false;
        if gid >= state.inner.data.glyph_count {
            return false;
        }
        let ghost start = assembly_of(*outline, state.inner.phantom);
        assert(start.points =~= Seq::empty() && start.tags =~= Seq::empty() && start.contours
            =~= Seq::empty());
        match self.load_impl(&mut state.inner, gid, outline, 0) {
            Some(_) => {
                let origin = state.inner.phantom[0].x;
                if origin != 0 {
                    shift_origin(&mut outline.points, origin);
                } else {
                    proof {
                        lemma_shift_by_zero(outline.points@);
                    }
                }
                outline.is_scaled = state.inner.have_scale;
                true
            },
            None => {
                outline.clear();
                false
            },
        }
    }

    /// Loads glyph `glyph_id` at nesting depth `recurse`, appending to the
    /// outline. An empty glyph adds nothing and succeeds.
    fn load_impl(
        &mut self,
        state: &mut LoaderStateInner<'_>,
        glyph_id: u16,
        outline: &mut Outline,
        recurse: usize,
    ) -> (res: Option<()>)
        requires
            old(self).wf(),
            old(outline).tags@.len() == old(outline).points@.len(),
        ensures
            kept(
                *old(self),
                *old(state),
                *old(outline),
                *final(self),
                *final(state),
                *final(outline),
            ),
            res.is_some() <==> loaded_count(
                old(state).data.glyphs@,
                glyph_id,
                recurse as int,
                old(outline).points@.len() as int,
            ).is_some(),
            res.is_some() ==> {
                &&& final(outline).points@.len() >= old(outline).points@.len()
                &&& final(outline).points@.len() == loaded_count(
                    old(state).data.glyphs@,
                    glyph_id,
                    recurse as int,
                    old(outline).points@.len() as int,
                ).unwrap()
                &&& final(outline).contours@ == loaded_contours(
                    old(state).data.glyphs@,
                    glyph_id,
                    recurse as int,
                    old(outline).points@.len() as int,
                    old(outline).contours@,
                )
                &&& final(state).advance == advance_after(
                    *old(state).data,
                    old(state).scale,
                    glyph_id,
                    recurse as int,
                    old(state).advance,
                )
                &&& if recurse == 0 {
                    outer_bounds(*old(state), glyph_id, *final(state))
                } else {
                    same_bounds(*old(state), *final(state))
                }
            },
            res.is_some() && quiet(
                old(state).hint,
                old(self).idle(),
                has_program(old(state).data.glyphs@, glyph_id, recurse as int),
            ) ==> quiet_flags(
                *old(state),
                *final(state),
                has_program(old(state).data.glyphs@, glyph_id, recurse as int),
            ),
            res.is_some() && quiet(
                old(state).hint,
                old(self).idle(),
                has_program(old(state).data.glyphs@, glyph_id, recurse as int),
            ) ==> assembly_of(*final(outline), final(state).phantom) == assemble(
                *old(state).data,
                old(state).spec_scale(),
                glyph_id,
                recurse as int,
                assembly_of(*old(outline), old(state).phantom),
            ),
        decreases RECURSE_LIMIT + 1 - recurse, 2int,
    {
        if recurse > RECURSE_LIMIT {
            return None;
        }
        let font: &LoaderFont = state.data;
        let glyph = match font.glyph(glyph_id) {
            None => {
                return None;
            },
            Some(None) => {
                return Some(());
            },
            Some(Some(glyph)) => glyph,
        };
        Self::setup(state, glyph.bounds(), glyph_id, recurse);
        match glyph {
            Glyph::Simple(simple) => {
                self.load_simple(state, simple, outline);
                Some(())
            },
            Glyph::Composite(composite) => self.load_composite(state, composite, outline, recurse),
        }
    }

    /// Loads a simple glyph: appends its contour ends, points and tags to
    /// the outline, scales the points, hints them where the session hints
    /// and the glyph has a program, and leaves the glyph's phantom points,
    /// scaled like the others, in the session.
    fn load_simple(
        &mut self,
        state: &mut LoaderStateInner<'_>,
        simple: &SimpleGlyph,
        outline: &mut Outline,
    )
        requires
            old(self).wf(),
            old(outline).tags@.len() == old(outline).points@.len(),
        ensures
            kept(
                *old(self),
                *old(state),
                *old(outline),
                *final(self),
                *final(state),
                *final(outline),
            ),
            same_bounds(*old(state), *final(state)),
            final(state).advance == old(state).advance,
            final(outline).points@.len() == old(outline).points@.len() + simple.points@.len(),
            final(outline).contours@ == old(outline).contours@ + simple_contours(
                simple.end_pts@,
                old(outline).points@.len() as int,
            ),
            quiet(old(state).hint, old(self).idle(), simple.instructions@.len() > 0) ==> {
                &&& quiet_flags(*old(state), *final(state), simple.instructions@.len() > 0)
                &&& final(outline).points@ == old(outline).points@ + simple_points(
                    simple.points@,
                    old(state).spec_scale(),
                )
                &&& final(outline).tags@ == old(outline).tags@ + simple_tags(simple.points@)
                &&& final(state).phantom@ == scaled_phantom(
                    old(state).phantom@,
                    old(state).spec_scale(),
                )
            },
    {
        let point_base = outline.points.len();
        let contour_base = outline.contours.len();
        let ghost raw = simple_points(simple.points@, None);
        let ghost tags = simple_tags(simple.points@);
        let mut i: usize = 0;
        while i < simple.end_pts.len()
            invariant
                i <= simple.end_pts@.len(),
                outline.contours@ == old(outline).contours@ + simple.end_pts@.subrange(0, i as int),
                outline.points@ == old(outline).points@,
                outline.tags@ == old(outline).tags@,
                outline.is_scaled == old(outline).is_scaled,
            decreases simple.end_pts@.len() - i,
        {
            outline.contours.push(simple.end_pts[i]);
            assert(outline.contours@ =~= old(outline).contours@ + simple.end_pts@.subrange(
                0,
                i + 1,
            ));
            i += 1;
        }
        assert(simple.end_pts@.subrange(0, i as int) =~= simple.end_pts@);
        i = 0;
        while i < simple.points.len()
            invariant
                i <= simple.points@.len(),
                raw == simple_points(simple.points@, None),
                tags == simple_tags(simple.points@),
                outline.points@ == old(outline).points@ + raw.subrange(0, i as int),
                outline.tags@ == old(outline).tags@ + tags.subrange(0, i as int),
                outline.contours@ == old(outline).contours@ + simple.end_pts@,
                outline.is_scaled == old(outline).is_scaled,
            decreases simple.points@.len() - i,
        {
            let p = simple.points[i];
            outline.points.push(Point { x: p.x as i32, y: p.y as i32 });
            outline.tags.push(
                if p.on_curve {
                    1
                } else {
                    0
                },
            );
            assert(outline.points@ =~= old(outline).points@ + raw.subrange(0, i + 1));
            assert(outline.tags@ =~= old(outline).tags@ + tags.subrange(0, i + 1));
            i += 1;
        }
        assert(raw.subrange(0, i as int) =~= raw);
        assert(tags.subrange(0, i as int) =~= tags);
        Self::push_phantom(state, outline);
        let ghost pushed = outline.points@;
        let point_count = outline.points.len() - point_base;
        let hinted = state.hint && simple.instructions.len() > 0;
        if hinted {
            snapshot(&mut self.unscaled, &outline.points, point_base);
        }
        if state.have_scale {
            scale_points(&mut outline.points, point_base, state.scale);
            Self::save_phantom(state, outline, point_base, point_count);
            assert(state.phantom@ =~= scaled_phantom(old(state).phantom@, old(state).spec_scale()));
        } else {
            assert(state.phantom@ =~= scaled_phantom(old(state).phantom@, old(state).spec_scale()));
        }
        let ghost ready = outline.points@;
        assert(ready.subrange(0, ready.len() - 4) =~= old(outline).points@ + simple_points(
            simple.points@,
            old(state).spec_scale(),
        ));
        assert(outline.tags@.subrange(0, outline.tags@.len() - 4) =~= old(outline).tags@ + tags);
        if hinted {
            snapshot(&mut self.original, &outline.points, point_base);
            if !self.hint(state, outline, point_base, contour_base, &simple.instructions, false) {
                state.hint_failed = true;
            }
        }
        if point_base != 0 {
            offset_contours(&mut outline.contours, contour_base, point_base);
        }
        assert(outline.contours@ =~= old(outline).contours@ + simple_contours(
            simple.end_pts@,
            point_base as int,
        ));
        let n = outline.points.len();
        outline.points.truncate(n - 4);
        outline.tags.truncate(n - 4);
    }

    /// Loads a composite glyph: its components, and then its own hint
    /// program where the session hints and the glyph has one. The phantom
    /// points of the outermost glyph are scaled before anything else.
    fn load_composite(
        &mut self,
        state: &mut LoaderStateInner<'_>,
        composite: &CompositeGlyph,
        outline: &mut Outline,
        recurse: usize,
    ) -> (res: Option<()>)
        requires
            old(self).wf(),
            old(outline).tags@.len() == old(outline).points@.len(),
            recurse <= RECURSE_LIMIT,
        ensures
            kept(
                *old(self),
                *old(state),
                *old(outline),
                *final(self),
                *final(state),
                *final(outline),
            ),
            res.is_some() <==> components_count(
                old(state).data.glyphs@,
                composite.components@,
                0,
                recurse as int,
                old(outline).points@.len() as int,
                old(outline).points@.len() as int,
            ).is_some(),
            res.is_some() ==> {
                &&& final(outline).points@.len() >= old(outline).points@.len()
                &&& final(outline).points@.len() == components_count(
                    old(state).data.glyphs@,
                    composite.components@,
                    0,
                    recurse as int,
                    old(outline).points@.len() as int,
                    old(outline).points@.len() as int,
                ).unwrap()
                &&& final(outline).contours@ == components_contours(
                    old(state).data.glyphs@,
                    composite.components@,
                    0,
                    recurse as int,
                    old(outline).points@.len() as int,
                    old(outline).contours@,
                )
                &&& same_bounds(*old(state), *final(state))
                &&& final(state).advance == components_advance(
                    *old(state).data,
                    old(state).scale,
                    composite.components@,
                    0,
                    recurse as int,
                    old(state).advance,
                )
            },
            res.is_some() && quiet(
                old(state).hint,
                old(self).idle(),
                composite.instructions@.len() > 0 || components_have_program(
                    old(state).data.glyphs@,
                    composite.components@,
                    0,
                    recurse as int,
                ),
            ) ==> quiet_flags(
                *old(state),
                *final(state),
                composite.instructions@.len() > 0 || components_have_program(
                    old(state).data.glyphs@,
                    composite.components@,
                    0,
                    recurse as int,
                ),
            ),
            res.is_some() && quiet(
                old(state).hint,
                old(self).idle(),
                composite.instructions@.len() > 0 || components_have_program(
                    old(state).data.glyphs@,
                    composite.components@,
                    0,
                    recurse as int,
                ),
            ) ==> assembly_of(*final(outline), final(state).phantom) == assemble_components(
                *old(state).data,
                old(state).spec_scale(),
                composite.components@,
                0,
                recurse as int,
                old(outline).points@.len() as int,
                Assembly {
                    phantom: if recurse == 0 {
                        scaled_phantom(old(state).phantom@, old(state).spec_scale())
                    } else {
                        old(state).phantom@
                    },
                    ..assembly_of(*old(outline), old(state).phantom)
                },
            ),
        decreases RECURSE_LIMIT + 1 - recurse, 1int,
    {
        let point_base = outline.points.len();
        let contour_base = outline.contours.len();
        if recurse == 0 && state.have_scale {
            let s = state.scale;
            let p = state.phantom;
            state.phantom = [
                scale_one(p[0], s),
                scale_one(p[1], s),
                scale_one(p[2], s),
                scale_one(p[3], s),
            ];
            assert(state.phantom@ =~= scaled_phantom(old(state).phantom@, old(state).spec_scale()));
        } else if recurse == 0 {
            assert(old(state).phantom@ =~= scaled_phantom(
                old(state).phantom@,
                old(state).spec_scale(),
            ));
        }
        match self.load_components(state, composite, outline, recurse) {
            None => {
                return None;
            },
            Some(_) => {},
        }
        if state.hint && composite.instructions.len() > 0 {
            let ghost loaded = *outline;
            Self::push_phantom(state, outline);
            snapshot(&mut self.unscaled, &outline.points, point_base);
            snapshot(&mut self.original, &outline.points, point_base);
            if !self.hint(state, outline, point_base, contour_base, &composite.instructions, true) {
                state.hint_failed = true;
            }
            let n = outline.points.len();
            outline.points.truncate(n - 4);
            outline.tags.truncate(n - 4);
            assert(old(self).idle() ==> outline.points@ =~= loaded.points@
                && outline.tags@ =~= loaded.tags@);
        }
        Some(())
    }

    /// Loads the components of a composite glyph in the order of their
    /// declaration, each transformed and moved to its place. Fails where a
    /// component cannot be loaded or its anchor names a point that does not
    /// exist.
    fn load_components(
        &mut self,
        state: &mut LoaderStateInner<'_>,
        composite: &CompositeGlyph,
        outline: &mut Outline,
        recurse: usize,
    ) -> (res: Option<()>)
        requires
            old(self).wf(),
            old(outline).tags@.len() == old(outline).points@.len(),
            recurse <= RECURSE_LIMIT,
        ensures
            kept(
                *old(self),
                *old(state),
                *old(outline),
                *final(self),
                *final(state),
                *final(outline),
            ),
            res.is_some() <==> components_count(
                old(state).data.glyphs@,
                composite.components@,
                0,
                recurse as int,
                old(outline).points@.len() as int,
                old(outline).points@.len() as int,
            ).is_some(),
            res.is_some() ==> {
                &&& final(outline).points@.len() >= old(outline).points@.len()
                &&& final(outline).points@.len() == components_count(
                    old(state).data.glyphs@,
                    composite.components@,
                    0,
                    recurse as int,
                    old(outline).points@.len() as int,
                    old(outline).points@.len() as int,
                ).unwrap()
                &&& final(outline).contours@ == components_contours(
                    old(state).data.glyphs@,
                    composite.components@,
                    0,
                    recurse as int,
                    old(outline).points@.len() as int,
                    old(outline).contours@,
                )
                &&& same_bounds(*old(state), *final(state))
                &&& final(state).advance == components_advance(
                    *old(state).data,
                    old(state).scale,
                    composite.components@,
                    0,
                    recurse as int,
                    old(state).advance,
                )
            },
            res.is_some() && quiet(
                old(state).hint,
                old(self).idle(),
                components_have_program(
                    old(state).data.glyphs@,
                    composite.components@,
                    0,
                    recurse as int,
                ),
            ) ==> quiet_flags(
                *old(state),
                *final(state),
                components_have_program(
                    old(state).data.glyphs@,
                    composite.components@,
                    0,
                    recurse as int,
                ),
            ),
            res.is_some() && quiet(
                old(state).hint,
                old(self).idle(),
                components_have_program(
                    old(state).data.glyphs@,
                    composite.components@,
                    0,
                    recurse as int,
                ),
            ) ==> assembly_of(*final(outline), final(state).phantom) == assemble_components(
                *old(state).data,
                old(state).spec_scale(),
                composite.components@,
                0,
                recurse as int,
                old(outline).points@.len() as int,
                assembly_of(*old(outline), old(state).phantom),
            ),
        decreases RECURSE_LIMIT + 1 - recurse, 0int,
    {
        let point_base = outline.points.len();
        let scale = if state.have_scale {
            Some(state.scale)
        } else {
            None
        };
        let ghost font = *state.data;
        let ghost glyphs = state.data.glyphs@;
        let ghost comps = composite.components@;
        let ghost base = point_base as int;
        let ghost depth = recurse as int;
        let ghost unhinted = quiet(
            old(state).hint,
            old(self).idle(),
            components_have_program(glyphs, comps, 0, depth),
        );
        let ghost whole_count = components_count(glyphs, comps, 0, depth, base, base);
        let ghost whole_contours = components_contours(
            glyphs,
            comps,
            0,
            depth,
            base,
            old(outline).contours@,
        );
        let ghost whole = assemble_components(
            font,
            scale,
            comps,
            0,
            depth,
            base,
            assembly_of(*old(outline), old(state).phantom),
        );
        let ghost mut met = false;
        let ghost whole_advance = components_advance(
            font,
            state.scale,
            comps,
            0,
            depth,
            old(state).advance,
        );
        let mut i: usize = 0;
        while i < composite.components.len()
            invariant
                i <= composite.components@.len(),
                recurse <= RECURSE_LIMIT,
                components_have_program(glyphs, comps, 0, depth) == (met
                    || components_have_program(glyphs, comps, i as int, depth)),
                unhinted ==> quiet_flags(*old(state), *state, met),
                same_bounds(*old(state), *state),
                whole_advance == components_advance(
                    font,
                    old(state).scale,
                    comps,
                    0,
                    depth,
                    old(state).advance,
                ),
                whole_advance == components_advance(
                    font,
                    old(state).scale,
                    comps,
                    i as int,
                    depth,
                    state.advance,
                ),
                self.wf(),
                self.cache_size() == old(self).cache_size(),
                old(self).idle() ==> self.idle(),
                state.same_session(old(state)),
                state.hint ==> old(state).hint,
                !old(state).hint ==> state.hint_failed == old(state).hint_failed,
                font == *old(state).data,
                glyphs == old(state).data.glyphs@,
                comps == composite.components@,
                base == point_base,
                depth == recurse,
                scale == old(state).spec_scale(),
                unhinted ==> quiet(
                    state.hint,
                    self.idle(),
                    components_have_program(glyphs, comps, i as int, depth),
                ),
                outline.tags@.len() == outline.points@.len(),
                outline.is_scaled == old(outline).is_scaled,
                outline.points@.len() >= point_base,
                point_base == old(outline).points@.len(),
                whole_count == components_count(glyphs, comps, 0, depth, base, base),
                whole_contours == components_contours(
                    glyphs,
                    comps,
                    0,
                    depth,
                    base,
                    old(outline).contours@,
                ),
                whole_contours == components_contours(
                    glyphs,
                    comps,
                    i as int,
                    depth,
                    outline.points@.len() as int,
                    outline.contours@,
                ),
                whole == assemble_components(
                    font,
                    scale,
                    comps,
                    0,
                    depth,
                    base,
                    assembly_of(*old(outline), old(state).phantom),
                ),
                whole_count == components_count(
                    glyphs,
                    comps,
                    i as int,
                    depth,
                    base,
                    outline.points@.len() as int,
                ),
                unhinted ==> whole == assemble_components(
                    font,
                    scale,
                    comps,
                    i as int,
                    depth,
                    base,
                    assembly_of(*outline, state.phantom),
                ),
            decreases composite.components@.len() - i,
        {
            let c = composite.components[i];
            let saved = state.phantom;
            let start = outline.points.len();
            let ghost before = assembly_of(*outline, state.phantom);
            match self.load_impl(state, c.glyph, outline, recurse + 1) {
                None => {
                    return None;
                },
                Some(_) => {},
            }
            proof {
                met = met || has_program(glyphs, c.glyph, depth + 1);
            }
            let ghost loaded = assembly_of(*outline, state.phantom);
            if !c.flags.contains(USE_MY_METRICS) {
                state.phantom = saved;
            }
            if !place(&mut outline.points, &c, scale, point_base, start) {
                return None;
            }
            proof {
                if unhinted {
                    assert(loaded == assemble(font, scale, c.glyph, depth + 1, before));
                    assert(assembly_of(*outline, state.phantom) == (Assembly {
                        points: place_component(c, scale, loaded.points, base, start as int),
                        phantom: if c.flags.has_all(USE_MY_METRICS) {
                            loaded.phantom
                        } else {
                            before.phantom
                        },
                        ..loaded
                    }));
                }
            }
            i += 1;
        }
        Some(())
    }

    /// Runs the hint program `ins` of the glyph whose points, the phantom
    /// points last, start at index `point_base`. Returns whether the
    /// program ran; where it did, the points and tags from `point_base` on
    /// and the phantom points of the session are those that it left.
    ///
    /// Where no context can be had for the session, the session stops
    /// hinting and nothing else changes.
    fn hint(
        &mut self,
        state: &mut LoaderStateInner<'_>,
        outline: &mut Outline,
        point_base: usize,
        contour_base: usize,
        ins: &Vec<u8>,
        is_composite: bool,
    ) -> (ok: bool)
        requires
            old(self).wf(),
            point_base + 4 <= old(outline).points@.len(),
            old(outline).tags@.len() == old(outline).points@.len(),
        ensures
            final(self).wf(),
            final(self).cache_size() == old(self).cache_size(),
            old(self).idle() ==> final(self).idle() && !ok && !final(state).hint,
            final(state).same_session(old(state)),
            same_bounds(*old(state), *final(state)),
            final(state).advance == old(state).advance,
            final(state).hint_failed == old(state).hint_failed,
            final(state).hint ==> old(state).hint,
            ok ==> final(state).hint == old(state).hint,
            final(outline).points@.len() == old(outline).points@.len(),
            final(outline).tags@.len() == old(outline).tags@.len(),
            final(outline).contours@ == old(outline).contours@,
            final(outline).is_scaled == old(outline).is_scaled,
            final(outline).points@.subrange(0, point_base as int)
                == old(outline).points@.subrange(0, point_base as int),
            final(outline).tags@.subrange(0, point_base as int)
                == old(outline).tags@.subrange(0, point_base as int),
            !ok ==> {
                &&& final(outline).points@ == old(outline).points@
                &&& final(outline).tags@ == old(outline).tags@
                &&& final(state).phantom == old(state).phantom
            },
    {
        let live = match state.slot {
            Some(slot) => if self.cache.is_live(slot) {
                Some(slot)
            } else {
                None
            },
            None => None,
        };
        let slot = match live {
            Some(slot) => slot,
            None => {
                let mode = match state.hinter_mode {
                    Some(mode) => mode,
                    None => HinterMode::default(),
                };
                match self.cache.prepare(
                    state.id,
                    state.data,
                    state.coords,
                    state.ppem,
                    state.scale,
                    mode,
                ) {
                    Some(slot) => {
                        state.slot = Some(slot);
                        slot
                    },
                    None => {
                        state.hint = false;
                        return false;
                    },
                }
            },
        };
        let zone = hint_zone(
            &outline.points,
            &outline.tags,
            state.phantom,
            point_base,
            is_composite,
        );
        let glyph = HintGlyph {
            unscaled: &self.unscaled,
            original: &self.original,
            contours: &outline.contours,
            point_base,
            contour_base,
            instructions: ins,
            is_composite,
        };
        match self.cache.hint(state.data, state.coords, slot, &glyph, zone) {
            Some(hinted) => {
                apply_zone(&mut outline.points, &mut outline.tags, point_base, &hinted);
                state.phantom = hinted.phantom;
                let ghost kept_points = old(outline).points@.subrange(0, point_base as int);
                let ghost kept_tags = old(outline).tags@.subrange(0, point_base as int);
                assert(outline.points@.subrange(0, point_base as int) =~= kept_points);
                assert(outline.tags@.subrange(0, point_base as int) =~= kept_tags);
                true
            },
            None => false,
        }
    }

    /// Sets the phantom points of the session to those of glyph `glyph_id`,
    /// in font units, and its scaled metrics: the advance always, the others
    /// for the outermost glyph of a scaled session.
    fn setup(state: &mut LoaderStateInner<'_>, bounds: Bounds, glyph_id: u16, recurse: usize)
        ensures
            final(state).same_session(old(state)),
            final(state).slot == old(state).slot,
            final(state).hint == old(state).hint,
            final(state).hint_failed == old(state).hint_failed,
            final(state).phantom@ == phantom_of(
                bounds,
                old(state).data.spec_lsb(glyph_id),
                old(state).data.spec_advance_width(glyph_id),
            ),
            final(state).advance == spec_mul(
                old(state).data.spec_advance_width(glyph_id) as i32,
                old(state).scale,
            ),
            recurse == 0 && old(state).have_scale ==> {
                &&& final(state).xmin == spec_mul(bounds.x_min as i32, old(state).scale)
                &&& final(state).xmax == spec_mul(bounds.x_max as i32, old(state).scale)
                &&& final(state).lsb == spec_mul(
                    old(state).data.spec_lsb(glyph_id) as i32,
                    old(state).scale,
                )
            },
            !(recurse == 0 && old(state).have_scale) ==> {
                &&& final(state).xmin == old(state).xmin
                &&& final(state).xmax == old(state).xmax
                &&& final(state).lsb == old(state).lsb
            },
    {
        let lsb = state.data.lsb(glyph_id);
        let advance = state.data.advance_width(glyph_id);
        state.phantom = setup_phantom(bounds, lsb, advance);
        if recurse == 0 && state.have_scale {
            state.xmin = crate::truetype::math::mul(bounds.x_min as i32, state.scale);
            state.xmax = crate::truetype::math::mul(bounds.x_max as i32, state.scale);
            state.lsb = crate::truetype::math::mul(lsb as i32, state.scale);
        }
        state.advance = crate::truetype::math::mul(advance as i32, state.scale);
    }

    /// Appends the phantom points of the session to the outline, each with
    /// the tag 0.
    fn push_phantom(state: &LoaderStateInner<'_>, outline: &mut Outline)
        ensures
            final(outline).points@ == old(outline).points@ + state.phantom@,
            final(outline).tags@ == old(outline).tags@ + seq![0u8, 0u8, 0u8, 0u8],
            final(outline).contours@ == old(outline).contours@,
            final(outline).is_scaled == old(outline).is_scaled,
    {
        let mut i: usize = 0;
        while i < 4
            invariant
                i <= 4,
                outline.points@ == old(outline).points@ + state.phantom@.subrange(0, i as int),
                outline.tags@ == old(outline).tags@ + seq![0u8, 0u8, 0u8, 0u8].subrange(
                    0,
                    i as int,
                ),
                outline.contours@ == old(outline).contours@,
                outline.is_scaled == old(outline).is_scaled,
            decreases 4 - i,
        {
            outline.points.push(state.phantom[i]);
            outline.tags.push(0);
            assert(outline.points@ =~= old(outline).points@ + state.phantom@.subrange(0, i + 1));
            assert(outline.tags@ =~= old(outline).tags@ + seq![0u8, 0u8, 0u8, 0u8].subrange(
                0,
                i + 1,
            ));
            i += 1;
        }
        assert(state.phantom@.subrange(0, 4) =~= state.phantom@);
        assert(seq![0u8, 0u8, 0u8, 0u8].subrange(0, 4) =~= seq![0u8, 0u8, 0u8, 0u8]);
    }

    /// Makes the four points that end at index `point_base + point_count`
    /// the phantom points of the session.
    fn save_phantom(
        state: &mut LoaderStateInner<'_>,
        outline: &Outline,
        point_base: usize,
        point_count: usize,
    )
        requires
            point_count >= 4,
            point_base + point_count <= outline.points@.len(),
        ensures
            final(state).same_session(old(state)),
            same_bounds(*old(state), *final(state)),
            final(state).advance == old(state).advance,
            final(state).slot == old(state).slot,
            final(state).hint == old(state).hint,
            final(state).hint_failed == old(state).hint_failed,
            final(state).phantom@ == outline.points@.subrange(
                point_base + point_count - 4,
                point_base + point_count,
            ),
    {
        let total = outline.points.len();
        let end = point_base + point_count;
        state.phantom = [
            outline.points[end - 4],
            outline.points[end - 3],
            outline.points[end - 2],
            outline.points[end - 1],
        ];
        assert(state.phantom@ =~= outline.points@.subrange(end - 4, end as int));
    }
}

} // verus!
