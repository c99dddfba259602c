//! The outline table: glyph records from their bytes.

use crate::read::{as_signed, copy_range, i16_at, read_i16, read_u16, to_signed, u16_at};
use crate::tables::loca::{get_range, glyph_range, offset_count};
use crate::truetype::font::GlyphRecord;
use crate::truetype::glyf::{
    Anchor, Bounds, Component, CompositeGlyph, CompositeGlyphFlags, Glyph, GlyphPoint,
    SimpleGlyph, Transform,
};
use vstd::prelude::*;
use vstd::slice::slice_subrange;

verus! {

/// Bit of a point's flags: the point lies on the curve.
pub const ON_CURVE_POINT: u8 = 0x01;

/// Bit of a point's flags: the x coordinate takes one byte.
pub const X_SHORT_VECTOR: u8 = 0x02;

/// Bit of a point's flags: the y coordinate takes one byte.
pub const Y_SHORT_VECTOR: u8 = 0x04;

/// Bit of a point's flags: the next byte says how often the flags repeat.
pub const REPEAT_FLAG: u8 = 0x08;

/// Bit of a point's flags: a short x coordinate is positive, a long one the
/// same as the one before.
pub const X_IS_SAME_OR_POSITIVE: u8 = 0x10;

/// Bit of a point's flags: a short y coordinate is positive, a long one the
/// same as the one before.
pub const Y_IS_SAME_OR_POSITIVE: u8 = 0x20;

/// Bit of a component's flags: the arguments take two bytes each.
pub const ARG_1_AND_2_ARE_WORDS: u16 = 0x0001;

/// Bit of a component's flags: the arguments are an offset, not points.
pub const ARGS_ARE_XY_VALUES: u16 = 0x0002;

/// Bit of a component's flags: another component follows.
pub const MORE_COMPONENTS: u16 = 0x0020;

/// Bit of a component's flags: a hint program follows the components.
pub const WE_HAVE_INSTRUCTIONS: u16 = 0x0100;

/// Bytes of the header of a glyph.
pub const GLYPH_HEADER_LEN: usize = 10;

/// The value of `v` reduced to 16 bits in two's complement.
pub open spec fn wrap_i16(v: int) -> i16 {
    ((v + 0x8000) % 0x1_0000 - 0x8000) as i16
}

fn wrap_to_i16(v: i32) -> (r: i16)
    requires
        -0x1_0000 <= v <= 0x1_0000,
    ensures
        r == wrap_i16(v as int),
{
    (((v + 0x1_8000) as u32 % 0x1_0000) as i32 - 0x8000) as i16
}

/// A result of reading with `acc` put before what was read.
pub open spec fn after<T>(acc: Seq<T>, rest: Option<(Seq<T>, int)>) -> Option<(Seq<T>, int)> {
    match rest {
        None => None,
        Some((items, end)) => Some((acc + items, end)),
    }
}

/// The flags of `count` points, read from position `pos` on, and the
/// position after them. A flag with the repeat bit stands for as many more
/// points as the byte after it says.
pub open spec fn flags_from(bytes: Seq<u8>, pos: int, count: int) -> Option<(Seq<u8>, int)>
    decreases count,
{
    if count <= 0 {
        Some((Seq::empty(), pos))
    } else if pos < 0 || pos >= bytes.len() {
        None
    } else if bytes[pos] & REPEAT_FLAG != 0 {
        if pos + 1 >= bytes.len() {
            None
        } else {
            let run = if bytes[pos + 1] + 1 < count {
                bytes[pos + 1] + 1
            } else {
                count
            };
            after(
                Seq::new(run as nat, |i: int| bytes[pos]),
                flags_from(bytes, pos + 2, count - run),
            )
        }
    } else {
        after(seq![bytes[pos]], flags_from(bytes, pos + 1, count - 1))
    }
}

/// The coordinates of the points from `i` on, read from position `pos` on,
/// and the position after them. `prev` is the coordinate of the point
/// before; `short` and `same` are the bits of the flags that say how a
/// coordinate is stored. Coordinates have 16 bits and wrap.
pub open spec fn coords_from(
    bytes: Seq<u8>,
    pos: int,
    flags: Seq<u8>,
    i: int,
    short: u8,
    same: u8,
    prev: i16,
) -> Option<(Seq<i16>, int)>
    decreases flags.len() - i,
{
    if i < 0 || i >= flags.len() {
        Some((Seq::empty(), pos))
    } else if flags[i] & short != 0 {
        if pos < 0 || pos >= bytes.len() {
            None
        } else {
            let v = if flags[i] & same != 0 {
                wrap_i16(prev + bytes[pos])
            } else {
                wrap_i16(prev - bytes[pos])
            };
            after(seq![v], coords_from(bytes, pos + 1, flags, i + 1, short, same, v))
        }
    } else if flags[i] & same != 0 {
        after(seq![prev], coords_from(bytes, pos, flags, i + 1, short, same, prev))
    } else if pos < 0 || pos + 2 > bytes.len() {
        None
    } else {
        let v = wrap_i16(prev + i16_at(bytes, pos));
        after(seq![v], coords_from(bytes, pos + 2, flags, i + 1, short, same, v))
    }
}

/// Reads the flags of `count` points from position `pos` on.
fn read_flags(data: &[u8], pos: usize, count: usize) -> (r: Option<(Vec<u8>, usize)>)
    requires
        pos <= data@.len(),
    ensures
        match r {
            Some((flags, end)) => flags_from(data@, pos as int, count as int) == Some(
                (flags@, end as int),
            ) && flags@.len() == count && end <= data@.len(),
            None => flags_from(data@, pos as int, count as int).is_none(),
        },
{
    let len = data.len();
    let ghost whole = flags_from(data@, pos as int, count as int);
    let mut flags: Vec<u8> = Vec::new();
    let mut p = pos;
    while flags.len() < count
        invariant
            len == data@.len(),
            flags@.len() <= count,
            whole == flags_from(data@, pos as int, count as int),
            whole == after(flags@, flags_from(data@, p as int, count - flags@.len())),
            p <= len,
        decreases count - flags@.len(),
    {
        if p >= len {
            return None;
        }
        let f = data[p];
        let ghost before = flags@;
        let ghost left = count - flags@.len();
        if f & REPEAT_FLAG != 0 {
            if len - p < 2 {
                return None;
            }
            let repeat = data[p + 1] as usize + 1;
            let run = if repeat < count - flags.len() {
                repeat
            } else {
                count - flags.len()
            };
            let mut k: usize = 0;
            while k < run
                invariant
                    k <= run,
                    flags@ == before + Seq::new(k as nat, |i: int| f),
                decreases run - k,
            {
                flags.push(f);
                assert(flags@ =~= before + Seq::new((k + 1) as nat, |i: int| f));
                k += 1;
            }
            p = p + 2;
            proof {
                let rest = flags_from(data@, p as int, left - run);
                match rest {
                    Some((items, end)) => {
                        assert(before + (Seq::new(run as nat, |i: int| f) + items) =~= flags@
                            + items);
                    },
                    None => {},
                }
            }
        } else {
            flags.push(f);
            p = p + 1;
            proof {
                let rest = flags_from(data@, p as int, left - 1);
                match rest {
                    Some((items, end)) => {
                        assert(before + (seq![f] + items) =~= flags@ + items);
                    },
                    None => {},
                }
            }
        }
    }
    assert(flags@ + Seq::<u8>::empty() =~= flags@);
    Some((flags, p))
}

/// Reads one coordinate of each point from position `pos` on.
fn read_coords(data: &[u8], pos: usize, flags: &Vec<u8>, short: u8, same: u8) -> (r: Option<
    (Vec<i16>, usize),
>)
    requires
        pos <= data@.len(),
    ensures
        match r {
            Some((coords, end)) => coords_from(data@, pos as int, flags@, 0, short, same, 0)
                == Some((coords@, end as int)) && coords@.len() == flags@.len() && end
                <= data@.len(),
            None => coords_from(data@, pos as int, flags@, 0, short, same, 0).is_none(),
        },
{
    let len = data.len();
    let ghost whole = coords_from(data@, pos as int, flags@, 0, short, same, 0);
    let mut coords: Vec<i16> = Vec::new();
    let mut p = pos;
    let mut prev: i16 = 0;
    let mut i: usize = 0;
    while i < flags.len()
        invariant
            len == data@.len(),
            i <= flags@.len(),
            p <= len,
            coords@.len() == i,
            whole == coords_from(data@, pos as int, flags@, 0, short, same, 0),
            whole == after(
                coords@,
                coords_from(data@, p as int, flags@, i as int, short, same, prev),
            ),
        decreases flags@.len() - i,
    {
        let f = flags[i];
        let ghost before = coords@;
        let v: i16;
        if f & short != 0 {
            if p >= len {
                return None;
            }
            let d = data[p] as i32;
            v = if f & same != 0 {
                wrap_to_i16(prev as i32 + d)
            } else {
                wrap_to_i16(prev as i32 - d)
            };
            p = p + 1;
        } else if f & same != 0 {
            v = prev;
        } else {
            if len - p < 2 {
                return None;
            }
            v = wrap_to_i16(prev as i32 + read_i16(data, p) as i32);
            p = p + 2;
        }
        coords.push(v);
        proof {
            let rest = coords_from(data@, p as int, flags@, i + 1, short, same, v);
            match rest {
                Some((items, end)) => {
                    assert(before + (seq![v] + items) =~= coords@ + items);
                },
                None => {},
            }
        }
        prev = v;
        i += 1;
    }
    assert(coords@ + Seq::<i16>::empty() =~= coords@);
    Some((coords, p))
}

/// What a simple glyph holds.
pub struct SimpleParts {
    pub bounds: Bounds,
    pub end_pts: Seq<u16>,
    pub points: Seq<GlyphPoint>,
    pub instructions: Seq<u8>,
}

/// What a composite glyph holds.
pub struct CompositeParts {
    pub bounds: Bounds,
    pub components: Seq<Component>,
    pub instructions: Seq<u8>,
}

/// What a glyph holds.
pub enum GlyphParts {
    Simple(SimpleParts),
    Composite(CompositeParts),
}

/// What the record of a glyph holds.
pub enum RecordParts {
    Missing,
    Empty,
    Outline(GlyphParts),
}

/// What the glyph `g` holds.
pub open spec fn glyph_parts(g: Glyph) -> GlyphParts {
    match g {
        Glyph::Simple(s) => GlyphParts::Simple(
            SimpleParts {
                bounds: s.bounds,
                end_pts: s.end_pts@,
                points: s.points@,
                instructions: s.instructions@,
            },
        ),
        Glyph::Composite(c) => GlyphParts::Composite(
            CompositeParts {
                bounds: c.bounds,
                components: c.components@,
                instructions: c.instructions@,
            },
        ),
    }
}

/// What the record `r` holds.
pub open spec fn record_parts(r: GlyphRecord) -> RecordParts {
    match r {
        GlyphRecord::Missing => RecordParts::Missing,
        GlyphRecord::Empty => RecordParts::Empty,
        GlyphRecord::Outline(g) => RecordParts::Outline(glyph_parts(g)),
    }
}

/// The bounding box in the header of the glyph `bytes`.
pub open spec fn bounds_of(bytes: Seq<u8>) -> Bounds {
    Bounds {
        x_min: i16_at(bytes, 2),
        y_min: i16_at(bytes, 4),
        x_max: i16_at(bytes, 6),
        y_max: i16_at(bytes, 8),
    }
}

/// The simple glyph of `n` contours that `bytes` hold: the ends of the
/// contours, the hint program, and then the flags, the x and the y
/// coordinates of as many points as the last contour end calls for.
/// Nothing where the bytes end before the glyph does.
pub open spec fn simple_of(bytes: Seq<u8>, n: int) -> Option<SimpleParts> {
    let ins_start = 12 + 2 * n;
    if n < 0 || bytes.len() < ins_start || bytes.len() < ins_start + u16_at(bytes, ins_start - 2) {
        None
    } else {
        let ins_end = ins_start + u16_at(bytes, ins_start - 2);
        let end_pts = Seq::new(n as nat, |i: int| u16_at(bytes, 10 + 2 * i));
        let count: int = if n == 0 {
            0
        } else {
            end_pts[n - 1] + 1
        };
        match flags_from(bytes, ins_end, count) {
            None => None,
            Some((flags, after_flags)) => match coords_from(
                bytes,
                after_flags,
                flags,
                0,
                X_SHORT_VECTOR,
                X_IS_SAME_OR_POSITIVE,
                0,
            ) {
                None => None,
                Some((xs, after_xs)) => match coords_from(
                    bytes,
                    after_xs,
                    flags,
                    0,
                    Y_SHORT_VECTOR,
                    Y_IS_SAME_OR_POSITIVE,
                    0,
                ) {
                    None => None,
                    Some((ys, _)) => Some(
                        SimpleParts {
                            bounds: bounds_of(bytes),
                            end_pts,
                            points: Seq::new(
                                count as nat,
                                |i: int|
                                    GlyphPoint {
                                        x: xs[i],
                                        y: ys[i],
                                        on_curve: flags[i] & ON_CURVE_POINT != 0,
                                    },
                            ),
                            instructions: bytes.subrange(ins_start, ins_end),
                        },
                    ),
                },
            },
        }
    }
}

/// Reads a simple glyph of `n` contours.
fn read_simple(data: &[u8], n: usize) -> (r: Option<SimpleGlyph>)
    requires
        n <= 0x7FFF,
        data@.len() >= GLYPH_HEADER_LEN,
    ensures
        match r {
            Some(g) => simple_of(data@, n as int) == Some(
                SimpleParts {
                    bounds: g.bounds,
                    end_pts: g.end_pts@,
                    points: g.points@,
                    instructions: g.instructions@,
                },
            ),
            None => simple_of(data@, n as int).is_none(),
        },
{
    let len = data.len();
    let ins_start = 12 + 2 * n;
    if len < ins_start {
        return None;
    }
    let ins_len = read_u16(data, ins_start - 2) as usize;
    if len - ins_start < ins_len {
        return None;
    }
    let ins_end = ins_start + ins_len;
    let mut end_pts: Vec<u16> = Vec::new();
    let mut i: usize = 0;
    while i < n
        invariant
            i <= n,
            n <= 0x7FFF,
            data@.len() >= 12 + 2 * n,
            end_pts@.len() == i,
            forall|j: int| 0 <= j < i ==> (#[trigger] end_pts@[j]) == u16_at(data@, 10 + 2 * j),
        decreases n - i,
    {
        end_pts.push(read_u16(data, 10 + 2 * i));
        i += 1;
    }
    assert(end_pts@ =~= Seq::new(n as nat, |i: int| u16_at(data@, 10 + 2 * i)));
    let count: usize = if n == 0 {
        0
    } else {
        end_pts[n - 1] as usize + 1
    };
    let (flags, after_flags) = match read_flags(data, ins_end, count) {
        Some(read) => read,
        None => {
            return None;
        },
    };
    let (xs, after_xs) = match read_coords(
        data,
        after_flags,
        &flags,
        X_SHORT_VECTOR,
        X_IS_SAME_OR_POSITIVE,
    ) {
        Some(read) => read,
        None => {
            return None;
        },
    };
    let (ys, _) = match read_coords(data, after_xs, &flags, Y_SHORT_VECTOR, Y_IS_SAME_OR_POSITIVE) {
        Some(read) => read,
        None => {
            return None;
        },
    };
    let mut points: Vec<GlyphPoint> = Vec::new();
    i = 0;
    while i < count
        invariant
            i <= count,
            flags@.len() == count,
            xs@.len() == count,
            ys@.len() == count,
            points@.len() == i,
            forall|j: int|
                0 <= j < i ==> (#[trigger] points@[j]) == (GlyphPoint {
                    x: xs@[j],
                    y: ys@[j],
                    on_curve: flags@[j] & ON_CURVE_POINT != 0,
                }),
        decreases count - i,
    {
        points.push(GlyphPoint { x: xs[i], y: ys[i], on_curve: flags[i] & ON_CURVE_POINT != 0 });
        i += 1;
    }
    assert(points@ =~= Seq::new(
        count as nat,
        |i: int| GlyphPoint { x: xs@[i], y: ys@[i], on_curve: flags@[i] & ON_CURVE_POINT != 0 },
    ));
    let bounds = read_bounds(data);
    let instructions = copy_range(data, ins_start, ins_end);
    Some(SimpleGlyph { bounds, end_pts, points, instructions })
}

/// Reads the bounding box in the header of a glyph.
fn read_bounds(data: &[u8]) -> (b: Bounds)
    requires
        data@.len() >= GLYPH_HEADER_LEN,
    ensures
        b == bounds_of(data@),
{
    Bounds {
        x_min: read_i16(data, 2),
        y_min: read_i16(data, 4),
        x_max: read_i16(data, 6),
        y_max: read_i16(data, 8),
    }
}

/// The byte `b` as a number in two's complement.
pub open spec fn signed_byte(b: u8) -> i16 {
    if b >= 0x80 {
        (b - 0x100) as i16
    } else {
        b as i16
    }
}

/// The transform that changes nothing: 1.0 on the diagonal.
pub open spec fn identity_transform() -> Transform {
    Transform { xx: 0x4000, yx: 0, xy: 0, yy: 0x4000 }
}

/// The anchor of a component with the flags `flags` whose arguments start
/// at position `pos`: an offset or a pair of points, in bytes or in words.
pub open spec fn anchor_at(bytes: Seq<u8>, pos: int, flags: u16) -> Anchor {
    if flags & ARG_1_AND_2_ARE_WORDS != 0 {
        if flags & ARGS_ARE_XY_VALUES != 0 {
            Anchor::Offset { x: i16_at(bytes, pos), y: i16_at(bytes, pos + 2) }
        } else {
            Anchor::Point { base: u16_at(bytes, pos), component: u16_at(bytes, pos + 2) }
        }
    } else {
        if flags & ARGS_ARE_XY_VALUES != 0 {
            Anchor::Offset { x: signed_byte(bytes[pos]), y: signed_byte(bytes[pos + 1]) }
        } else {
            Anchor::Point { base: bytes[pos] as u16, component: bytes[pos + 1] as u16 }
        }
    }
}

/// The number of bytes that the arguments of a component take.
pub open spec fn args_len(flags: u16) -> int {
    if flags & ARG_1_AND_2_ARE_WORDS != 0 {
        4
    } else {
        2
    }
}

/// The number of bytes that the transform of a component takes: one scale,
/// two, a whole matrix, or nothing.
pub open spec fn transform_len(flags: u16) -> int {
    if flags & crate::truetype::glyf::WE_HAVE_A_SCALE != 0 {
        2
    } else if flags & crate::truetype::glyf::WE_HAVE_AN_X_AND_Y_SCALE != 0 {
        4
    } else if flags & crate::truetype::glyf::WE_HAVE_A_TWO_BY_TWO != 0 {
        8
    } else {
        0
    }
}

/// The transform of a component with the flags `flags`, stored at position
/// `pos`.
pub open spec fn transform_at(bytes: Seq<u8>, pos: int, flags: u16) -> Transform {
    if flags & crate::truetype::glyf::WE_HAVE_A_SCALE != 0 {
        Transform { xx: i16_at(bytes, pos), yx: 0, xy: 0, yy: i16_at(bytes, pos) }
    } else if flags & crate::truetype::glyf::WE_HAVE_AN_X_AND_Y_SCALE != 0 {
        Transform { xx: i16_at(bytes, pos), yx: 0, xy: 0, yy: i16_at(bytes, pos + 2) }
    } else if flags & crate::truetype::glyf::WE_HAVE_A_TWO_BY_TWO != 0 {
        Transform {
            xx: i16_at(bytes, pos),
            yx: i16_at(bytes, pos + 2),
            xy: i16_at(bytes, pos + 4),
            yy: i16_at(bytes, pos + 6),
        }
    } else {
        identity_transform()
    }
}

/// The number of bytes that the component at position `pos` takes, if its
/// flags and glyph can be read.
pub open spec fn component_len(bytes: Seq<u8>, pos: int) -> int {
    4 + args_len(u16_at(bytes, pos)) + transform_len(u16_at(bytes, pos))
}

/// Holds when `bytes` hold a whole component at position `pos`.
pub open spec fn has_component(bytes: Seq<u8>, pos: int) -> bool {
    0 <= pos && pos + 4 <= bytes.len() && pos + component_len(bytes, pos) <= bytes.len()
}

/// The component at position `pos`.
pub open spec fn component_at(bytes: Seq<u8>, pos: int) -> Component {
    let flags = u16_at(bytes, pos);
    Component {
        flags: CompositeGlyphFlags { bits: flags },
        glyph: u16_at(bytes, pos + 2),
        anchor: anchor_at(bytes, pos + 4, flags),
        transform: transform_at(bytes, pos + 4 + args_len(flags), flags),
    }
}

/// The components from position `pos` on, up to the first that is not
/// followed by another, and the position after them. Nothing where the
/// bytes end before the components do.
pub open spec fn components_from(bytes: Seq<u8>, pos: int) -> Option<(Seq<Component>, int)>
    decreases bytes.len() - pos,
{
    if !has_component(bytes, pos) {
        None
    } else if u16_at(bytes, pos) & MORE_COMPONENTS != 0 {
        after(
            seq![component_at(bytes, pos)],
            components_from(bytes, pos + component_len(bytes, pos)),
        )
    } else {
        Some((seq![component_at(bytes, pos)], pos + component_len(bytes, pos)))
    }
}

/// Holds when one of the components announces a hint program.
pub open spec fn announces_program(components: Seq<Component>) -> bool {
    exists|i: int|
        0 <= i < components.len() && (#[trigger] components[i]).flags.bits & WE_HAVE_INSTRUCTIONS
            != 0
}

/// The hint program that follows the components at position `pos`: its
/// length and then its bytes. Empty where none is announced or the bytes
/// end before it does.
pub open spec fn program_at(bytes: Seq<u8>, pos: int, announced: bool) -> Seq<u8> {
    if announced && 0 <= pos && pos + 2 <= bytes.len() && pos + 2 + u16_at(bytes, pos)
        <= bytes.len() {
        bytes.subrange(pos + 2, pos + 2 + u16_at(bytes, pos))
    } else {
        Seq::empty()
    }
}

/// The composite glyph that `bytes` hold.
pub open spec fn composite_of(bytes: Seq<u8>) -> Option<CompositeParts> {
    match components_from(bytes, GLYPH_HEADER_LEN as int) {
        None => None,
        Some((components, end)) => Some(
            CompositeParts {
                bounds: bounds_of(bytes),
                components,
                instructions: program_at(bytes, end, announces_program(components)),
            },
        ),
    }
}

/// The glyph that `bytes` hold: a simple one where the header counts
/// contours, a composite where the count is negative.
pub open spec fn glyph_of(bytes: Seq<u8>) -> Option<GlyphParts> {
    if bytes.len() < GLYPH_HEADER_LEN {
        None
    } else if i16_at(bytes, 0) >= 0 {
        match simple_of(bytes, i16_at(bytes, 0) as int) {
            None => None,
            Some(g) => Some(GlyphParts::Simple(g)),
        }
    } else {
        match composite_of(bytes) {
            None => None,
            Some(g) => Some(GlyphParts::Composite(g)),
        }
    }
}

fn to_signed_byte(b: u8) -> (r: i16)
    ensures
        r == signed_byte(b),
{
    if b >= 0x80 {
        b as i16 - 0x100
    } else {
        b as i16
    }
}

/// Reads the component at position `pos` and says how many bytes it takes.
fn read_component(data: &[u8], pos: usize) -> (r: Option<(Component, usize)>)
    requires
        pos <= data@.len(),
    ensures
        r.is_some() == has_component(data@, pos as int),
        r matches Some((c, n)) ==> c == component_at(data@, pos as int) && n == component_len(
            data@,
            pos as int,
        ),
{
    let len = data.len();
    if len - pos < 4 {
        return None;
    }
    let flags = read_u16(data, pos);
    let glyph = read_u16(data, pos + 2);
    let words = flags & ARG_1_AND_2_ARE_WORDS != 0;
    let args: usize = if words {
        4
    } else {
        2
    };
    let matrix: usize = if flags & crate::truetype::glyf::WE_HAVE_A_SCALE != 0 {
        2
    } else if flags & crate::truetype::glyf::WE_HAVE_AN_X_AND_Y_SCALE != 0 {
        4
    } else if flags & crate::truetype::glyf::WE_HAVE_A_TWO_BY_TWO != 0 {
        8
    } else {
        0
    };
    let n = 4 + args + matrix;
    if len - pos < n {
        return None;
    }
    let p = pos + 4;
    let xy = flags & ARGS_ARE_XY_VALUES != 0;
    let anchor = if words {
        if xy {
            Anchor::Offset { x: read_i16(data, p), y: read_i16(data, p + 2) }
        } else {
            Anchor::Point { base: read_u16(data, p), component: read_u16(data, p + 2) }
        }
    } else {
        if xy {
            Anchor::Offset { x: to_signed_byte(data[p]), y: to_signed_byte(data[p + 1]) }
        } else {
            Anchor::Point { base: data[p] as u16, component: data[p + 1] as u16 }
        }
    };
    let q = p + args;
    let transform = if matrix == 2 {
        let s = read_i16(data, q);
        Transform { xx: s, yx: 0, xy: 0, yy: s }
    } else if matrix == 4 {
        Transform { xx: read_i16(data, q), yx: 0, xy: 0, yy: read_i16(data, q + 2) }
    } else if matrix == 8 {
        Transform {
            xx: read_i16(data, q),
            yx: read_i16(data, q + 2),
            xy: read_i16(data, q + 4),
            yy: read_i16(data, q + 6),
        }
    } else {
        Transform { xx: 0x4000, yx: 0, xy: 0, yy: 0x4000 }
    };
    Some((Component { flags: CompositeGlyphFlags { bits: flags }, glyph, anchor, transform }, n))
}

/// Reads a composite glyph.
fn read_composite(data: &[u8]) -> (r: Option<CompositeGlyph>)
    requires
        data@.len() >= GLYPH_HEADER_LEN,
    ensures
        match r {
            Some(g) => composite_of(data@) == Some(
                CompositeParts {
                    bounds: g.bounds,
                    components: g.components@,
                    instructions: g.instructions@,
                },
            ),
            None => composite_of(data@).is_none(),
        },
{
    let len = data.len();
    let ghost whole = components_from(data@, GLYPH_HEADER_LEN as int);
    let mut components: Vec<Component> = Vec::new();
    let mut pos: usize = GLYPH_HEADER_LEN;
    let mut announced = false;
    let mut more = true;
    while more
        invariant
            len == data@.len(),
            pos <= len,
            whole == components_from(data@, GLYPH_HEADER_LEN as int),
            more ==> whole == after(components@, components_from(data@, pos as int)),
            !more ==> whole == Some((components@, pos as int)),
            announced == announces_program(components@),
        decreases len - pos, more as int,
    {
        let ghost before = components@;
        let (c, n) = match read_component(data, pos) {
            Some(read) => read,
            None => {
                return None;
            },
        };
        components.push(c);
        proof {
            let i = before.len() as int;
            assert(components@[i] == c);
            if announces_program(before) {
                let j = choose|j: int|
                    0 <= j < before.len() && (#[trigger] before[j]).flags.bits
                        & WE_HAVE_INSTRUCTIONS != 0;
                assert(components@[j] == before[j]);
            }
            if announces_program(components@) && !announces_program(before) {
                let j = choose|j: int|
                    0 <= j < components@.len() && (#[trigger] components@[j]).flags.bits
                        & WE_HAVE_INSTRUCTIONS != 0;
                if j < i {
                    assert(before[j] == components@[j]);
                }
            }
        }
        if c.flags.bits & WE_HAVE_INSTRUCTIONS != 0 {
            announced = true;
        }
        more = c.flags.bits & MORE_COMPONENTS != 0;
        proof {
            if more {
                match components_from(data@, pos + n) {
                    Some((items, end)) => {
                        assert(before + (seq![c] + items) =~= components@ + items);
                    },
                    None => {},
                }
            } else {
                assert(before + seq![c] =~= components@);
            }
        }
        pos = pos + n;
    }
    let mut instructions: Vec<u8> = Vec::new();
    if announced && len - pos >= 2 {
        let n = read_u16(data, pos) as usize;
        if len - pos - 2 >= n {
            instructions = copy_range(data, pos + 2, pos + 2 + n);
        }
    }
    assert(instructions@ =~= program_at(data@, pos as int, announced));
    Some(CompositeGlyph { bounds: read_bounds(data), components, instructions })
}

/// Reads a glyph: a simple one where the header counts contours, a
/// composite where the count is negative. Fails where the bytes end before
/// the glyph does.
pub fn read_glyph(data: &[u8]) -> (r: Option<Glyph>)
    ensures
        match r {
            Some(g) => glyph_of(data@) == Some(glyph_parts(g)),
            None => glyph_of(data@).is_none(),
        },
{
    if data.len() < GLYPH_HEADER_LEN {
        return None;
    }
    let n = read_i16(data, 0);
    if n >= 0 {
        match read_simple(data, n as usize) {
            Some(g) => Some(Glyph::Simple(g)),
            None => None,
        }
    } else {
        match read_composite(data) {
            Some(g) => Some(Glyph::Composite(g)),
            None => None,
        }
    }
}

/// The number of glyphs that a table of offsets has a pair of offsets for.
pub open spec fn record_count(loca: Seq<u8>, long: bool) -> int {
    if offset_count(loca, long) < 1 {
        0
    } else if offset_count(loca, long) - 1 > 0x1_0000 {
        0x1_0000
    } else {
        offset_count(loca, long) - 1
    }
}

/// The record of glyph `gid`: missing where the table of offsets has no
/// range for it, the range leaves the outline table or what lies there is
/// not a whole glyph; empty where the range is.
pub open spec fn record_of(glyf: Seq<u8>, loca: Seq<u8>, long: bool, gid: int) -> RecordParts {
    match glyph_range(loca, long, gid) {
        None => RecordParts::Missing,
        Some((start, end)) => if start == end {
            RecordParts::Empty
        } else if end > glyf.len() {
            RecordParts::Missing
        } else {
            match glyph_of(glyf.subrange(start, end)) {
                None => RecordParts::Missing,
                Some(g) => RecordParts::Outline(g),
            }
        },
    }
}

/// Reads the record of glyph `gid`.
pub fn read_record(glyf: &[u8], loca: &[u8], long: bool, gid: u16) -> (r: GlyphRecord)
    ensures
        record_parts(r) == record_of(glyf@, loca@, long, gid as int),
{
    match get_range(loca, long, gid) {
        None => GlyphRecord::Missing,
        Some((start, end)) => {
            if start == end {
                GlyphRecord::Empty
            } else if end > glyf.len() {
                GlyphRecord::Missing
            } else {
                match read_glyph(slice_subrange(glyf, start, end)) {
                    Some(g) => GlyphRecord::Outline(g),
                    None => GlyphRecord::Missing,
                }
            }
        },
    }
}

/// Reads the records of all glyphs that the table of offsets has a pair of
/// offsets for.
pub fn read_records(glyf: &[u8], loca: &[u8], long: bool) -> (r: Vec<GlyphRecord>)
    ensures
        r@.len() == record_count(loca@, long),
        forall|i: int|
            0 <= i < r@.len() ==> record_parts(#[trigger] r@[i]) == record_of(
                glyf@,
                loca@,
                long,
                i,
            ),
{
    let entries = if long {
        loca.len() / 4
    } else {
        loca.len() / 2
    };
    let count: usize = if entries < 1 {
        0
    } else if entries - 1 > 0x1_0000 {
        0x1_0000
    } else {
        entries - 1
    };
    let mut records: Vec<GlyphRecord> = Vec::new();
    let mut i: usize = 0;
    while i < count
        invariant
            i <= count <= 0x1_0000,
            count == record_count(loca@, long),
            records@.len() == i,
            forall|j: int|
                0 <= j < i ==> record_parts(#[trigger] records@[j]) == record_of(
                    glyf@,
                    loca@,
                    long,
                    j,
                ),
        decreases count - i,
    {
        records.push(read_record(glyf, loca, long, i as u16));
        i += 1;
    }
    records
}

} // verus!
