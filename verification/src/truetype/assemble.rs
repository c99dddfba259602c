//! What loading a glyph yields, stated on sequences of points.
//!
//! `loaded_count` says which glyphs can be loaded and how many points they
//! have; `assemble` says where the points of a glyph lie when no hint
//! program moves them.

use super::font::{advance_width_of, lsb_of, GlyphRecord, LoaderFont};
use super::glyf::{
    spec_f2dot14_to_fixed, Anchor, Bounds, Component, CompositeGlyphFlags, Glyph, GlyphPoint,
    SimpleGlyph, Transform, ROUND_XY_TO_GRID, USE_MY_METRICS,
};
use super::math::{
    lemma_mul_unity, spec_hypot, spec_mul, spec_round, spec_transform, wrap_i32, wrap_to_i32,
};
use super::Point;
use vstd::prelude::*;

verus! {

/// Deepest nesting of composite glyphs that is loaded.
pub const RECURSE_LIMIT: usize = 32;

/// An outline under construction, with the phantom points of the session.
pub struct Assembly {
    pub points: Seq<Point>,
    pub tags: Seq<u8>,
    pub contours: Seq<u16>,
    pub phantom: Seq<Point>,
}

/// The point `p` under the 16.16 factor `scale`.
pub open spec fn scale_point(p: Point, scale: i32) -> Point {
    Point { x: spec_mul(p.x, scale), y: spec_mul(p.y, scale) }
}

/// The point `p` under the scale of the session, if it has one.
pub open spec fn scaled(p: Point, scale: Option<i32>) -> Point {
    match scale {
        Some(s) => scale_point(p, s),
        None => p,
    }
}

/// The point `p` moved by `(dx, dy)`.
pub open spec fn translate_point(p: Point, dx: i32, dy: i32) -> Point {
    Point { x: wrap_i32(p.x + dx), y: wrap_i32(p.y + dy) }
}

/// The point `p` under the matrix with 16.16 entries `xx yx xy yy`.
pub open spec fn transform_point(p: Point, xx: i32, yx: i32, xy: i32, yy: i32) -> Point {
    Point {
        x: spec_transform(p.x, p.y, xx, yx, xy, yy).0,
        y: spec_transform(p.x, p.y, xx, yx, xy, yy).1,
    }
}

/// The point `p` rounded to the pixel grid.
pub open spec fn round_point(p: Point) -> Point {
    Point { x: spec_round(p.x), y: spec_round(p.y) }
}

/// `points` with those from index `from` on scaled by `scale`.
pub open spec fn scaled_from(points: Seq<Point>, from: int, scale: i32) -> Seq<Point> {
    Seq::new(
        points.len(),
        |i: int|
            if i >= from {
                scale_point(points[i], scale)
            } else {
                points[i]
            },
    )
}

/// `points` with those from index `from` on moved by `(dx, dy)`.
pub open spec fn translated_from(points: Seq<Point>, from: int, dx: i32, dy: i32) -> Seq<Point> {
    Seq::new(
        points.len(),
        |i: int|
            if i >= from {
                translate_point(points[i], dx, dy)
            } else {
                points[i]
            },
    )
}

/// `points` with those from index `from` on under the matrix `xx yx xy yy`.
pub open spec fn transformed_from(
    points: Seq<Point>,
    from: int,
    xx: i32,
    yx: i32,
    xy: i32,
    yy: i32,
) -> Seq<Point> {
    Seq::new(
        points.len(),
        |i: int|
            if i >= from {
                transform_point(points[i], xx, yx, xy, yy)
            } else {
                points[i]
            },
    )
}

/// `points` with those from index `from` on rounded to the pixel grid.
pub open spec fn rounded_from(points: Seq<Point>, from: int) -> Seq<Point> {
    Seq::new(
        points.len(),
        |i: int|
            if i >= from {
                round_point(points[i])
            } else {
                points[i]
            },
    )
}

/// The four phantom points of a glyph, in font units: the origin, the
/// advance, and twice the top, since there are no vertical metrics.
pub open spec fn phantom_of(bounds: Bounds, lsb: i16, advance: u16) -> Seq<Point> {
    let left = bounds.x_min - lsb;
    seq![
        Point { x: left as i32, y: 0 },
        Point { x: (left + advance) as i32, y: 0 },
        Point { x: (advance as int / 2) as i32, y: bounds.y_max as i32 },
        Point { x: (advance as int / 2) as i32, y: bounds.y_max as i32 },
    ]
}

/// The points of a simple glyph as the outline holds them.
pub open spec fn simple_points(points: Seq<GlyphPoint>, scale: Option<i32>) -> Seq<Point> {
    Seq::new(
        points.len(),
        |i: int| scaled(Point { x: points[i].x as i32, y: points[i].y as i32 }, scale),
    )
}

/// The tags of a simple glyph: 1 for a point on the curve, else 0.
pub open spec fn simple_tags(points: Seq<GlyphPoint>) -> Seq<u8> {
    Seq::new(
        points.len(),
        |i: int|
            if points[i].on_curve {
                1u8
            } else {
                0u8
            },
    )
}

/// A contour end of a glyph whose first point has index `base` in the
/// outline. Contour ends have 16 bits and wrap.
pub open spec fn offset_contour(end: u16, base: int) -> u16 {
    ((end + base) % 0x1_0000) as u16
}

/// The contour ends of a simple glyph whose first point has index `base`.
pub open spec fn simple_contours(ends: Seq<u16>, base: int) -> Seq<u16> {
    Seq::new(ends.len(), |i: int| offset_contour(ends[i], base))
}

/// The offset of a component that is placed by an offset: scaled by the
/// size of the transform where the flags ask for it, then by the scale of
/// the session, its vertical part then rounded where the flags ask for it.
pub open spec fn offset_delta(
    flags: CompositeGlyphFlags,
    transform: Transform,
    x: i16,
    y: i16,
    scale: Option<i32>,
) -> (i32, i32) {
    let xx = spec_f2dot14_to_fixed(transform.xx);
    let yx = spec_f2dot14_to_fixed(transform.yx);
    let xy = spec_f2dot14_to_fixed(transform.xy);
    let yy = spec_f2dot14_to_fixed(transform.yy);
    let by_transform = flags.has_transform() && flags.has_scaled_offset();
    let dx0 = if by_transform {
        spec_mul(x as i32, spec_hypot(xx, xy))
    } else {
        x as i32
    };
    let dy0 = if by_transform {
        spec_mul(y as i32, spec_hypot(yy, yx))
    } else {
        y as i32
    };
    match scale {
        None => (dx0, dy0),
        Some(s) => {
            let dy1 = spec_mul(dy0, s);
            (
                spec_mul(dx0, s),
                if flags.has_all(ROUND_XY_TO_GRID) {
                    spec_round(dy1)
                } else {
                    dy1
                },
            )
        },
    }
}

/// The offset that brings point `child` of `points` onto point `parent`.
pub open spec fn anchor_delta(points: Seq<Point>, parent: int, child: int) -> (i32, i32) {
    (
        wrap_i32(points[parent].x - points[child].x),
        wrap_i32(points[parent].y - points[child].y),
    )
}

/// The offset of the component `c`, whose points start at index `start` of
/// `points`, in a composite whose points start at index `base`.
pub open spec fn component_delta(
    c: Component,
    scale: Option<i32>,
    points: Seq<Point>,
    base: int,
    start: int,
) -> (i32, i32) {
    match c.anchor {
        Anchor::Offset { x, y } => offset_delta(c.flags, c.transform, x, y, scale),
        Anchor::Point { base: parent, component: child } => anchor_delta(
            points,
            base + parent,
            start + child,
        ),
    }
}

/// Holds when the anchor of a component names points that exist: `count`
/// is the number of points once the component is loaded.
pub open spec fn anchor_in_range(anchor: Anchor, base: int, start: int, count: int) -> bool {
    match anchor {
        Anchor::Offset { .. } => true,
        Anchor::Point { base: parent, component: child } => base + parent < count && start
            + child < count,
    }
}

/// The number of points in the outline once glyph `gid` is loaded at
/// nesting depth `depth` into an outline of `n` points; `None` where the
/// glyph cannot be loaded: it is nested too deep, the font has no record
/// for it that can be read, or the same holds of one of its components, or a component's
/// anchor names a point that does not exist.
pub open spec fn loaded_count(glyphs: Seq<GlyphRecord>, gid: u16, depth: int, n: int) -> Option<
    int,
>
    decreases RECURSE_LIMIT + 1 - depth, 1int, 0int,
{
    if depth < 0 || depth > RECURSE_LIMIT || gid >= glyphs.len() {
        None
    } else {
        match glyphs[gid as int] {
            GlyphRecord::Missing => None,
            GlyphRecord::Empty => Some(n),
            GlyphRecord::Outline(Glyph::Simple(g)) => Some(n + g.points@.len()),
            GlyphRecord::Outline(Glyph::Composite(g)) => components_count(
                glyphs,
                g.components@,
                0,
                depth,
                n,
                n,
            ),
        }
    }
}

/// The number of points in the outline once the components from `i` on are
/// loaded, for a composite at depth `depth` whose points start at index
/// `base`, into an outline of `n` points.
pub open spec fn components_count(
    glyphs: Seq<GlyphRecord>,
    components: Seq<Component>,
    i: int,
    depth: int,
    base: int,
    n: int,
) -> Option<int>
    decreases RECURSE_LIMIT + 1 - depth, 0int, components.len() - i,
{
    if depth < 0 || depth > RECURSE_LIMIT {
        None
    } else if i < 0 || i >= components.len() {
        Some(n)
    } else {
        match loaded_count(glyphs, components[i].glyph, depth + 1, n) {
            None => None,
            Some(count) => if anchor_in_range(components[i].anchor, base, n, count) {
                components_count(glyphs, components, i + 1, depth, base, count)
            } else {
                None
            },
        }
    }
}

/// The contour ends of the outline once glyph `gid` is loaded at depth
/// `depth` into an outline of `n` points with the contour ends `contours`,
/// for a glyph that can be loaded: those of each simple glyph that the glyph
/// is made of are added, counted from the outline's first point.
pub open spec fn loaded_contours(
    glyphs: Seq<GlyphRecord>,
    gid: u16,
    depth: int,
    n: int,
    contours: Seq<u16>,
) -> Seq<u16>
    decreases RECURSE_LIMIT + 1 - depth, 1int, 0int,
{
    if depth < 0 || depth > RECURSE_LIMIT || gid >= glyphs.len() {
        contours
    } else {
        match glyphs[gid as int] {
            GlyphRecord::Missing => contours,
            GlyphRecord::Empty => contours,
            GlyphRecord::Outline(Glyph::Simple(g)) => contours + simple_contours(g.end_pts@, n),
            GlyphRecord::Outline(Glyph::Composite(g)) => components_contours(
                glyphs,
                g.components@,
                0,
                depth,
                n,
                contours,
            ),
        }
    }
}

/// The contour ends of the outline once the components from `i` on are
/// loaded, for a composite at depth `depth`, into an outline of `n` points
/// with the contour ends `contours`.
pub open spec fn components_contours(
    glyphs: Seq<GlyphRecord>,
    components: Seq<Component>,
    i: int,
    depth: int,
    n: int,
    contours: Seq<u16>,
) -> Seq<u16>
    decreases RECURSE_LIMIT + 1 - depth, 0int, components.len() - i,
{
    if depth < 0 || depth > RECURSE_LIMIT || i < 0 || i >= components.len() {
        contours
    } else {
        match loaded_count(glyphs, components[i].glyph, depth + 1, n) {
            None => contours,
            Some(count) => components_contours(
                glyphs,
                components,
                i + 1,
                depth,
                count,
                loaded_contours(glyphs, components[i].glyph, depth + 1, n, contours),
            ),
        }
    }
}

/// The scaled advance that the session holds once glyph `gid` is loaded at
/// depth `depth`, having held `advance` before: that of the glyph that was
/// loaded last, which for a composite is the last of the glyphs that it is
/// made of.
pub open spec fn advance_after(
    font: LoaderFont,
    scale: i32,
    gid: u16,
    depth: int,
    advance: i32,
) -> i32
    decreases RECURSE_LIMIT + 1 - depth, 1int, 0int,
{
    if depth < 0 || depth > RECURSE_LIMIT || gid >= font.glyphs@.len() {
        advance
    } else {
        let own = spec_mul(advance_width_of(font.h_metrics@, gid) as i32, scale);
        match font.glyphs@[gid as int] {
            GlyphRecord::Missing => advance,
            GlyphRecord::Empty => advance,
            GlyphRecord::Outline(Glyph::Simple(_)) => own,
            GlyphRecord::Outline(Glyph::Composite(g)) => components_advance(
                font,
                scale,
                g.components@,
                0,
                depth,
                own,
            ),
        }
    }
}

/// The scaled advance that the session holds once the components from `i`
/// on are loaded, for a composite at depth `depth`.
pub open spec fn components_advance(
    font: LoaderFont,
    scale: i32,
    components: Seq<Component>,
    i: int,
    depth: int,
    advance: i32,
) -> i32
    decreases RECURSE_LIMIT + 1 - depth, 0int, components.len() - i,
{
    if depth < 0 || depth > RECURSE_LIMIT || i < 0 || i >= components.len() {
        advance
    } else {
        components_advance(
            font,
            scale,
            components,
            i + 1,
            depth,
            advance_after(font, scale, components[i].glyph, depth + 1, advance),
        )
    }
}

/// Holds when glyph `gid`, loaded at depth `depth`, or a glyph that it is
/// made of has a hint program.
pub open spec fn has_program(glyphs: Seq<GlyphRecord>, gid: u16, depth: int) -> bool
    decreases RECURSE_LIMIT + 1 - depth, 1int, 0int,
{
    if depth < 0 || depth > RECURSE_LIMIT || gid >= glyphs.len() {
        false
    } else {
        match glyphs[gid as int] {
            GlyphRecord::Missing => false,
            GlyphRecord::Empty => false,
            GlyphRecord::Outline(Glyph::Simple(g)) => g.instructions@.len() > 0,
            GlyphRecord::Outline(Glyph::Composite(g)) => g.instructions@.len() > 0
                || components_have_program(
                glyphs,
                g.components@,
                0,
                depth,
            ),
        }
    }
}

/// Holds when one of the components from `i` on, of a composite at depth
/// `depth`, has a hint program or is made of a glyph that has one.
pub open spec fn components_have_program(
    glyphs: Seq<GlyphRecord>,
    components: Seq<Component>,
    i: int,
    depth: int,
) -> bool
    decreases RECURSE_LIMIT + 1 - depth, 0int, components.len() - i,
{
    if depth < 0 || depth > RECURSE_LIMIT || i < 0 || i >= components.len() {
        false
    } else {
        has_program(glyphs, components[i].glyph, depth + 1) || components_have_program(
            glyphs,
            components,
            i + 1,
            depth,
        )
    }
}

/// The outline once glyph `gid` is loaded at depth `depth` into `a` and no
/// hint program runs, for a glyph that can be loaded.
pub open spec fn assemble(font: LoaderFont, scale: Option<i32>, gid: u16, depth: int, a: Assembly)
    -> Assembly
    decreases RECURSE_LIMIT + 1 - depth, 1int, 0int,
{
    if depth < 0 || depth > RECURSE_LIMIT || gid >= font.glyphs@.len() {
        a
    } else {
        match font.glyphs@[gid as int] {
            GlyphRecord::Missing => a,
            GlyphRecord::Empty => a,
            GlyphRecord::Outline(glyph) => {
                let phantom = phantom_of(
                    glyph.spec_bounds(),
                    lsb_of(font.h_metrics@, font.left_side_bearings@, gid),
                    advance_width_of(font.h_metrics@, gid),
                );
                match glyph {
                    Glyph::Simple(g) => Assembly {
                        points: a.points + simple_points(g.points@, scale),
                        tags: a.tags + simple_tags(g.points@),
                        contours: a.contours + simple_contours(g.end_pts@, a.points.len() as int),
                        phantom: Seq::new(4, |i: int| scaled(phantom[i], scale)),
                    },
                    Glyph::Composite(g) => assemble_components(
                        font,
                        scale,
                        g.components@,
                        0,
                        depth,
                        a.points.len() as int,
                        Assembly {
                            phantom: if depth == 0 {
                                Seq::new(4, |i: int| scaled(phantom[i], scale))
                            } else {
                                phantom
                            },
                            ..a
                        },
                    ),
                }
            },
        }
    }
}

/// The outline once the components from `i` on are loaded into `a`, for a
/// composite at depth `depth` whose points start at index `base`.
pub open spec fn assemble_components(
    font: LoaderFont,
    scale: Option<i32>,
    components: Seq<Component>,
    i: int,
    depth: int,
    base: int,
    a: Assembly,
) -> Assembly
    decreases RECURSE_LIMIT + 1 - depth, 0int, components.len() - i,
{
    if depth < 0 || depth > RECURSE_LIMIT || i < 0 || i >= components.len() {
        a
    } else {
        let c = components[i];
        let start = a.points.len() as int;
        let b = assemble(font, scale, c.glyph, depth + 1, a);
        let placed = place_component(c, scale, b.points, base, start);
        assemble_components(
            font,
            scale,
            components,
            i + 1,
            depth,
            base,
            Assembly {
                points: placed,
                phantom: if c.flags.has_all(USE_MY_METRICS) {
                    b.phantom
                } else {
                    a.phantom
                },
                ..b
            },
        )
    }
}

/// `points` with those of the component `c`, which start at index `start`,
/// transformed and moved to their place in a composite whose points start at
/// index `base`.
pub open spec fn place_component(
    c: Component,
    scale: Option<i32>,
    points: Seq<Point>,
    base: int,
    start: int,
) -> Seq<Point> {
    let turned = if c.flags.has_transform() {
        transformed_from(
            points,
            start,
            spec_f2dot14_to_fixed(c.transform.xx),
            spec_f2dot14_to_fixed(c.transform.yx),
            spec_f2dot14_to_fixed(c.transform.xy),
            spec_f2dot14_to_fixed(c.transform.yy),
        )
    } else {
        points
    };
    let delta = component_delta(c, scale, turned, base, start);
    translated_from(turned, start, delta.0, delta.1)
}

/// Holds when each glyph of `ids` but the last is a composite of one
/// component, which is the next glyph of `ids` and is placed by an offset,
/// and the last glyph of `ids` is a simple glyph.
pub open spec fn is_chain(glyphs: Seq<GlyphRecord>, ids: Seq<u16>) -> bool {
    &&& ids.len() >= 1
    &&& forall|j: int|
        0 <= j < ids.len() ==> (#[trigger] ids[j]) < glyphs.len() && match glyphs[ids[j] as int] {
            GlyphRecord::Outline(Glyph::Composite(g)) => {
                &&& j + 1 < ids.len()
                &&& g.components@.len() == 1
                &&& g.components@[0].glyph == ids[j + 1]
                &&& g.components@[0].anchor matches Anchor::Offset { .. }
            },
            GlyphRecord::Outline(Glyph::Simple(_)) => j + 1 == ids.len(),
            _ => false,
        }
}

/// In a chain of nested composites, the glyph at place `j` can be loaded at
/// depth `j` exactly where the chain's last glyph is no deeper than the
/// limit.
pub proof fn lemma_chain_from(glyphs: Seq<GlyphRecord>, ids: Seq<u16>, j: int, n: int)
    requires
        is_chain(glyphs, ids),
        0 <= j < ids.len(),
    ensures
        loaded_count(glyphs, ids[j], j, n).is_some() <==> ids.len() - 1 <= RECURSE_LIMIT,
    decreases ids.len() - j,
{
    if j > RECURSE_LIMIT {
    } else {
        match glyphs[ids[j] as int] {
            GlyphRecord::Outline(Glyph::Composite(g)) => {
                lemma_chain_from(glyphs, ids, j + 1, n);
                let comps = g.components@;
                assert(loaded_count(glyphs, ids[j], j, n) == components_count(
                    glyphs,
                    comps,
                    0,
                    j,
                    n,
                    n,
                ));
                match loaded_count(glyphs, comps[0].glyph, j + 1, n) {
                    None => {},
                    Some(count) => {
                        assert(anchor_in_range(comps[0].anchor, n, n, count));
                        assert(components_count(glyphs, comps, 1, j, n, count) == Some(count));
                    },
                }
            },
            _ => {},
        }
    }
}

/// A chain of composites nested one in the other can be loaded exactly
/// where its innermost glyph lies no deeper than the limit: a chain of 33
/// glyphs, the last at depth 32, is loaded, and one of 34 is not.
pub proof fn lemma_chain_depth(glyphs: Seq<GlyphRecord>, ids: Seq<u16>)
    requires
        is_chain(glyphs, ids),
    ensures
        loaded_count(glyphs, ids[0], 0, 0).is_some() <==> ids.len() <= RECURSE_LIMIT + 1,
{
    lemma_chain_from(glyphs, ids, 0, 0);
}

/// The number of points once the components before `i` are loaded and
/// placed, for a composite at depth `depth` whose points start at index
/// `base`; `None` where one of them cannot be.
pub open spec fn count_before(
    glyphs: Seq<GlyphRecord>,
    components: Seq<Component>,
    i: int,
    depth: int,
    base: int,
) -> Option<int>
    decreases i,
{
    if i <= 0 {
        Some(base)
    } else {
        match count_before(glyphs, components, i - 1, depth, base) {
            None => None,
            Some(n) => match loaded_count(glyphs, components[i - 1].glyph, depth + 1, n) {
                None => None,
                Some(count) => if anchor_in_range(components[i - 1].anchor, base, n, count) {
                    Some(count)
                } else {
                    None
                },
            },
        }
    }
}

/// Loading all components is loading those before `i` and then the rest.
pub proof fn lemma_components_split(
    glyphs: Seq<GlyphRecord>,
    components: Seq<Component>,
    i: int,
    depth: int,
    base: int,
)
    requires
        0 <= i <= components.len(),
        0 <= depth <= RECURSE_LIMIT,
    ensures
        components_count(glyphs, components, 0, depth, base, base) == match count_before(
            glyphs,
            components,
            i,
            depth,
            base,
        ) {
            None => None,
            Some(n) => components_count(glyphs, components, i, depth, base, n),
        },
    decreases i,
{
    if i > 0 {
        lemma_components_split(glyphs, components, i - 1, depth, base);
    }
}

/// A composite fails to load where the anchor of one of its components
/// names a point that does not exist, on the side of the composite or on
/// that of the component: a point at or beyond the number of points once
/// the component is loaded.
pub proof fn lemma_anchor_out_of_range(
    glyphs: Seq<GlyphRecord>,
    gid: u16,
    depth: int,
    base: int,
    i: int,
)
    requires
        gid < glyphs.len(),
        0 <= depth <= RECURSE_LIMIT,
        match glyphs[gid as int] {
            GlyphRecord::Outline(Glyph::Composite(g)) => {
                &&& 0 <= i < g.components@.len()
                &&& match g.components@[i].anchor {
                    Anchor::Point { base: parent, component: child } => match count_before(
                        glyphs,
                        g.components@,
                        i,
                        depth,
                        base,
                    ) {
                        None => true,
                        Some(n) => match loaded_count(
                            glyphs,
                            g.components@[i].glyph,
                            depth + 1,
                            n,
                        ) {
                            None => true,
                            Some(count) => base + parent >= count || n + child >= count,
                        },
                    },
                    Anchor::Offset { .. } => false,
                }
            },
            _ => false,
        },
    ensures
        loaded_count(glyphs, gid, depth, base).is_none(),
{
    match glyphs[gid as int] {
        GlyphRecord::Outline(Glyph::Composite(g)) => {
            lemma_components_split(glyphs, g.components@, i, depth, base);
        },
        _ => {},
    }
}

/// A simple glyph in a session that does not scale: the outline holds the
/// glyph's points as the font has them, but for the origin, which is taken
/// from each x coordinate; it has one tag for each point and as many points
/// as the last contour end calls for.
pub proof fn lemma_simple_glyph_unscaled(
    font: LoaderFont,
    phantom: Seq<Point>,
    gid: u16,
    g: SimpleGlyph,
)
    requires
        gid < font.glyphs@.len(),
        font.glyphs@[gid as int] == GlyphRecord::Outline(Glyph::Simple(g)),
        g.wf(),
    ensures
        g.instructions@.len() == 0 ==> !has_program(font.glyphs@, gid, 0),
        loaded_count(font.glyphs@, gid, 0, 0) == Some(g.points@.len() as int),
        ({
            let a = assemble(
                font,
                None,
                gid,
                0,
                Assembly {
                    points: Seq::empty(),
                    tags: Seq::empty(),
                    contours: Seq::empty(),
                    phantom,
                },
            );
            let origin = g.bounds.x_min - lsb_of(font.h_metrics@, font.left_side_bearings@, gid);
            &&& a.points == simple_points(g.points@, None)
            &&& a.points.len() == g.points@.len()
            &&& forall|i: int|
                0 <= i < g.points@.len() ==> (#[trigger] a.points[i]) == (Point {
                    x: g.points@[i].x as i32,
                    y: g.points@[i].y as i32,
                })
            &&& a.tags.len() == a.points.len()
            &&& a.contours == g.end_pts@
            &&& a.contours.len() > 0 ==> a.points.len() == a.contours.last() + 1
            &&& a.phantom[0].x == origin
            &&& forall|i: int|
                0 <= i < g.points@.len() ==> wrap_i32((#[trigger] a.points[i]).x - origin)
                    == g.points@[i].x - origin
        }),
{
    reveal(wrap_i32);
    let start = Assembly {
        points: Seq::<Point>::empty(),
        tags: Seq::<u8>::empty(),
        contours: Seq::<u16>::empty(),
        phantom,
    };
    let a = assemble(font, None, gid, 0, start);
    assert(a.points =~= simple_points(g.points@, None));
    assert(a.contours =~= g.end_pts@);
    assert(a.tags =~= simple_tags(g.points@));
}

/// Scaling by the factor 1.0 in 16.16 leaves every coordinate as it is.
pub proof fn lemma_scale_by_unity(points: Seq<Point>, from: int)
    ensures
        scaled_from(points, from, 0x1_0000) == points,
{
    assert forall|i: int| 0 <= i < points.len() implies scaled_from(points, from, 0x1_0000)[i]
        == points[i] by {
        lemma_mul_unity(points[i].x);
        lemma_mul_unity(points[i].y);
    }
    assert(scaled_from(points, from, 0x1_0000) =~= points);
}

/// Moving points by nothing leaves them where they are.
pub proof fn lemma_translate_by_zero(points: Seq<Point>, from: int)
    ensures
        translated_from(points, from, 0, 0) == points,
{
    reveal(wrap_i32);
    assert(translated_from(points, from, 0, 0) =~= points);
}

/// Scales a point by the 16.16 factor `scale`.
pub fn scale_one(p: Point, scale: i32) -> (q: Point)
    ensures
        q == scale_point(p, scale),
{
    Point {
        x: crate::truetype::math::mul(p.x, scale),
        y: crate::truetype::math::mul(p.y, scale),
    }
}

/// Scales the points from index `from` on by the 16.16 factor `scale`.
pub fn scale_points(points: &mut Vec<Point>, from: usize, scale: i32)
    ensures
        final(points)@ == scaled_from(old(points)@, from as int, scale),
{
    let n = points.len();
    let mut i: usize = from;
    while i < n
        invariant
            n == points@.len(),
            n == old(points)@.len(),
            from <= i,
            forall|j: int|
                0 <= j < n ==> (#[trigger] points@[j]) == if from <= j < i {
                    scale_point(old(points)@[j], scale)
                } else {
                    old(points)@[j]
                },
        decreases n - i,
    {
        let q = scale_one(points[i], scale);
        points.set(i, q);
        i += 1;
    }
    assert(points@ =~= scaled_from(old(points)@, from as int, scale));
}

/// Applies the matrix with 16.16 entries `xx yx xy yy` to the points from
/// index `from` on.
pub fn transform_points(points: &mut Vec<Point>, from: usize, xx: i32, yx: i32, xy: i32, yy: i32)
    ensures
        final(points)@ == transformed_from(old(points)@, from as int, xx, yx, xy, yy),
{
    let n = points.len();
    let mut i: usize = from;
    while i < n
        invariant
            n == points@.len(),
            n == old(points)@.len(),
            from <= i,
            forall|j: int|
                0 <= j < n ==> (#[trigger] points@[j]) == if from <= j < i {
                    transform_point(old(points)@[j], xx, yx, xy, yy)
                } else {
                    old(points)@[j]
                },
        decreases n - i,
    {
        let p = points[i];
        let t = crate::truetype::math::transform(p.x, p.y, xx, yx, xy, yy);
        points.set(i, Point { x: t.0, y: t.1 });
        i += 1;
    }
    assert(points@ =~= transformed_from(old(points)@, from as int, xx, yx, xy, yy));
}

/// Moves the points from index `from` on by `(dx, dy)`.
pub fn translate_points(points: &mut Vec<Point>, from: usize, dx: i32, dy: i32)
    ensures
        final(points)@ == translated_from(old(points)@, from as int, dx, dy),
{
    let n = points.len();
    let mut i: usize = from;
    while i < n
        invariant
            n == points@.len(),
            n == old(points)@.len(),
            from <= i,
            forall|j: int|
                0 <= j < n ==> (#[trigger] points@[j]) == if from <= j < i {
                    translate_point(old(points)@[j], dx, dy)
                } else {
                    old(points)@[j]
                },
        decreases n - i,
    {
        let p = points[i];
        let q = Point {
            x: wrap_to_i32(p.x as i64 + dx as i64),
            y: wrap_to_i32(p.y as i64 + dy as i64),
        };
        points.set(i, q);
        i += 1;
    }
    assert(points@ =~= translated_from(old(points)@, from as int, dx, dy));
}

/// Rounds the points from index `from` on to the pixel grid.
pub fn round_points(points: &mut Vec<Point>, from: usize)
    ensures
        final(points)@ == rounded_from(old(points)@, from as int),
{
    let n = points.len();
    let mut i: usize = from;
    while i < n
        invariant
            n == points@.len(),
            n == old(points)@.len(),
            from <= i,
            forall|j: int|
                0 <= j < n ==> (#[trigger] points@[j]) == if from <= j < i {
                    round_point(old(points)@[j])
                } else {
                    old(points)@[j]
                },
        decreases n - i,
    {
        let p = points[i];
        let q = Point {
            x: crate::truetype::math::round(p.x),
            y: crate::truetype::math::round(p.y),
        };
        points.set(i, q);
        i += 1;
    }
    assert(points@ =~= rounded_from(old(points)@, from as int));
}

/// Computes the four phantom points of a glyph, in font units.
pub fn setup_phantom(bounds: Bounds, lsb: i16, advance: u16) -> (phantom: [Point; 4])
    ensures
        phantom@ == phantom_of(bounds, lsb, advance),
{
    let left: i32 = bounds.x_min as i32 - lsb as i32;
    let half: i32 = (advance / 2) as i32;
    let top: i32 = bounds.y_max as i32;
    let phantom = [
        Point { x: left, y: 0 },
        Point { x: left + advance as i32, y: 0 },
        Point { x: half, y: top },
        Point { x: half, y: top },
    ];
    assert(phantom@ =~= phantom_of(bounds, lsb, advance));
    phantom
}

/// Resolves the offset of a component that is placed by an offset.
pub fn component_offset(
    flags: CompositeGlyphFlags,
    transform: Transform,
    x: i16,
    y: i16,
    scale: Option<i32>,
) -> (delta: (i32, i32))
    ensures
        delta == offset_delta(flags, transform, x, y, scale),
{
    let xx = super::glyf::f2dot14_to_fixed(transform.xx);
    let yx = super::glyf::f2dot14_to_fixed(transform.yx);
    let xy = super::glyf::f2dot14_to_fixed(transform.xy);
    let yy = super::glyf::f2dot14_to_fixed(transform.yy);
    let mut dx: i32 = x as i32;
    let mut dy: i32 = y as i32;
    if flags.have_transform() && flags.scaled_offset() {
        dx = crate::truetype::math::mul(dx, crate::truetype::math::hypot(xx, xy));
        dy = crate::truetype::math::mul(dy, crate::truetype::math::hypot(yy, yx));
    }
    match scale {
        None => {},
        Some(s) => {
            dx = crate::truetype::math::mul(dx, s);
            dy = crate::truetype::math::mul(dy, s);
            if flags.contains(ROUND_XY_TO_GRID) {
                dy = crate::truetype::math::round(dy);
            }
        },
    }
    (dx, dy)
}

/// Resolves the offset of a component that is placed by matching points:
/// the offset that brings the point at index `child` onto the point at index
/// `parent`. Fails where either index names no point.
pub fn anchor_offset(points: &Vec<Point>, parent: usize, child: usize) -> (delta: Option<
    (i32, i32),
>)
    ensures
        delta.is_some() <==> parent < points@.len() && child < points@.len(),
        delta.is_some() ==> delta.unwrap() == anchor_delta(
            points@,
            parent as int,
            child as int,
        ),
{
    if parent >= points.len() || child >= points.len() {
        return None;
    }
    let onto = points[parent];
    let from = points[child];
    Some(
        (
            wrap_to_i32(onto.x as i64 - from.x as i64),
            wrap_to_i32(onto.y as i64 - from.y as i64),
        ),
    )
}

/// Adds `base` to the contour ends from index `from` on.
pub fn offset_contours(contours: &mut Vec<u16>, from: usize, base: usize)
    ensures
        final(contours)@.len() == old(contours)@.len(),
        forall|j: int|
            0 <= j < old(contours)@.len() ==> (#[trigger] final(contours)@[j]) == if from <= j {
                offset_contour(old(contours)@[j], base as int)
            } else {
                old(contours)@[j]
            },
{
    let n = contours.len();
    let add: u32 = (base % 0x1_0000) as u32;
    let mut i: usize = from;
    while i < n
        invariant
            n == contours@.len(),
            n == old(contours)@.len(),
            from <= i,
            add == base % 0x1_0000,
            forall|j: int|
                0 <= j < n ==> (#[trigger] contours@[j]) == if from <= j < i {
                    offset_contour(old(contours)@[j], base as int)
                } else {
                    old(contours)@[j]
                },
        decreases n - i,
    {
        let c = contours[i];
        let moved: u16 = ((c as u32 + add) % 0x1_0000) as u16;
        contours.set(i, moved);
        i += 1;
    }
}

} // verus!
