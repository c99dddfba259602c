//! Flattening of an outline into path commands.

use super::{Outline, Point};
use vstd::prelude::*;

verus! {

/// One step of a path.
#[derive(Copy, Clone, PartialEq, Eq, Debug)]
pub enum PathCommand {
    /// Starts a new sub-path at the point.
    MoveTo(Point),
    /// A straight line to the point.
    LineTo(Point),
    /// A quadratic curve: control point, then end point.
    QuadTo(Point, Point),
    /// A cubic curve: two control points, then end point.
    CurveTo(Point, Point, Point),
    /// Closes the current sub-path.
    Close,
}

/// Mask of the bits of a tag that tell the kind of a point.
pub const TAG_MASK: u8 = 0x3;

/// Kind of an off-curve point that controls a quadratic curve.
pub const CONIC: u8 = 0x0;

/// Kind of a point on the curve.
pub const ON: u8 = 0x1;

/// Kind of an off-curve point that controls a cubic curve.
pub const CUBIC: u8 = 0x2;

/// The kind of the point with tag `t`.
pub open spec fn kind(t: u8) -> u8 {
    t & TAG_MASK
}

/// Half of `a + b`, rounded towards zero.
pub open spec fn half_sum(a: i32, b: i32) -> i32 {
    let s = a + b;
    if s >= 0 {
        (s / 2) as i32
    } else {
        (-((-s) / 2)) as i32
    }
}

/// The point halfway between `a` and `b`.
pub open spec fn midpoint(a: Point, b: Point) -> Point {
    Point { x: half_sum(a.x, b.x), y: half_sum(a.y, b.y) }
}

/// `cmd` followed by the commands of `rest`, with the verdict of `rest`.
pub open spec fn followed(cmd: PathCommand, rest: (Seq<PathCommand>, bool)) -> (
    Seq<PathCommand>,
    bool,
) {
    (seq![cmd] + rest.0, rest.1)
}

/// The commands for the points of a contour after index `cur`, the last of
/// which has index `last`, and whether they are well formed. The contour
/// starts at the point `start`.
pub open spec fn walk(points: Seq<Point>, tags: Seq<u8>, start: Point, last: int, cur: int) -> (
    Seq<PathCommand>,
    bool,
)
    decreases last - cur, 0int,
{
    if cur >= last {
        (Seq::empty(), true)
    } else {
        let i = cur + 1;
        let k = kind(tags[i]);
        if k == ON {
            followed(PathCommand::LineTo(points[i]), walk(points, tags, start, last, i))
        } else if k == CONIC {
            conic_run(points, tags, start, last, points[i], i)
        } else if i + 1 > last || kind(tags[i + 1]) != CUBIC {
            (Seq::empty(), false)
        } else if i + 2 <= last {
            if kind(tags[i + 2]) != ON {
                (Seq::empty(), false)
            } else {
                followed(
                    PathCommand::CurveTo(points[i], points[i + 1], points[i + 2]),
                    walk(points, tags, start, last, i + 2),
                )
            }
        } else {
            (seq![PathCommand::CurveTo(points[i], points[i + 1], start)], true)
        }
    }
}

/// The commands for a run of quadratic control points whose latest one is
/// `control`, at index `i`, followed by those for the rest of the contour.
pub open spec fn conic_run(
    points: Seq<Point>,
    tags: Seq<u8>,
    start: Point,
    last: int,
    control: Point,
    i: int,
) -> (Seq<PathCommand>, bool)
    decreases last - i, 1int,
{
    if i >= last {
        (seq![PathCommand::QuadTo(control, start)], true)
    } else {
        let j = i + 1;
        let k = kind(tags[j]);
        if k == ON {
            followed(PathCommand::QuadTo(control, points[j]), walk(points, tags, start, last, j))
        } else if k == CONIC {
            followed(
                PathCommand::QuadTo(control, midpoint(control, points[j])),
                conic_run(points, tags, start, last, points[j], j),
            )
        } else {
            (Seq::empty(), false)
        }
    }
}

/// The commands for the contour whose points have the indices `first` to
/// `last`, without the closing command, and whether the contour is well
/// formed.
pub open spec fn contour_path(points: Seq<Point>, tags: Seq<u8>, first: int, last: int) -> (
    Seq<PathCommand>,
    bool,
) {
    if last < first || last >= points.len() {
        (Seq::empty(), false)
    } else if kind(tags[first]) == CUBIC {
        (Seq::empty(), false)
    } else if kind(tags[first]) == CONIC {
        if kind(tags[last]) == ON {
            let start = points[last];
            if first < last - 1 {
                followed(
                    PathCommand::MoveTo(start),
                    conic_run(points, tags, start, last - 1, points[first], first),
                )
            } else {
                (seq![PathCommand::MoveTo(start)], true)
            }
        } else {
            let start = midpoint(points[first], points[last]);
            if first < last {
                followed(
                    PathCommand::MoveTo(start),
                    conic_run(points, tags, start, last, points[first], first),
                )
            } else {
                (seq![PathCommand::MoveTo(start)], true)
            }
        }
    } else {
        followed(PathCommand::MoveTo(points[first]), walk(points, tags, points[first], last, first))
    }
}

/// Index of the first point of contour `c`.
pub open spec fn contour_first(contours: Seq<u16>, c: int) -> int {
    if c > 0 {
        contours[c - 1] + 1
    } else {
        0
    }
}

/// The commands for the contours from `c` on, each closed, up to the first
/// one that is not well formed; and whether all of them are well formed.
pub open spec fn path_from(points: Seq<Point>, tags: Seq<u8>, contours: Seq<u16>, c: int) -> (
    Seq<PathCommand>,
    bool,
)
    decreases contours.len() - c,
{
    if c < 0 || c >= contours.len() {
        (Seq::empty(), true)
    } else {
        let one = contour_path(points, tags, contour_first(contours, c), contours[c] as int);
        if !one.1 {
            one
        } else {
            let rest = path_from(points, tags, contours, c + 1);
            (one.0.push(PathCommand::Close) + rest.0, rest.1)
        }
    }
}

/// The path of an outline: its commands, and whether all of it is well
/// formed. An outline with a tag missing for some point has no path.
pub open spec fn outline_path(points: Seq<Point>, tags: Seq<u8>, contours: Seq<u16>) -> (
    Seq<PathCommand>,
    bool,
) {
    if tags.len() != points.len() {
        (Seq::empty(), false)
    } else {
        path_from(points, tags, contours, 0)
    }
}

/// Half of `a + b`, rounded towards zero.
fn half(a: i32, b: i32) -> (r: i32)
    ensures
        r == half_sum(a, b),
{
    let s: i64 = a as i64 + b as i64;
    if s >= 0 {
        ((s as u64) / 2) as i32
    } else {
        (-((((-s) as u64) / 2) as i64)) as i32
    }
}

/// The point halfway between `a` and `b`.
pub fn mid(a: Point, b: Point) -> (r: Point)
    ensures
        r == midpoint(a, b),
{
    Point { x: half(a.x, b.x), y: half(a.y, b.y) }
}

/// The kind of the point with tag `t`.
fn kind_of(t: u8) -> (k: u8)
    ensures
        k == kind(t),
        k <= 3,
{
    let k = t & TAG_MASK;
    assert(t & 3 <= 3) by (bit_vector);
    k
}

/// What is left of a contour after a step that reported `r`: whether the step
/// found the contour well formed so far, the index of the last point used,
/// and whether the step closed the contour.
pub open spec fn left_after(
    points: Seq<Point>,
    tags: Seq<u8>,
    start: Point,
    last: int,
    r: (bool, usize, bool),
) -> (Seq<PathCommand>, bool) {
    if !r.0 {
        (Seq::empty(), false)
    } else if r.2 {
        (Seq::empty(), true)
    } else {
        walk(points, tags, start, last, r.1 as int)
    }
}

/// Emits the curves of a run of quadratic control points whose latest one is
/// `control`, at index `i`. Returns whether the run is well formed, the index
/// of the last point used, and whether the run closed the contour.
fn emit_conic_run(
    points: &Vec<Point>,
    tags: &Vec<u8>,
    start: Point,
    last: usize,
    control: Point,
    i: usize,
    cmds: &mut Vec<PathCommand>,
) -> (r: (bool, usize, bool))
    requires
        tags@.len() == points@.len(),
        i <= last < points@.len(),
    ensures
        i <= r.1 <= last,
        conic_run(points@, tags@, start, last as int, control, i as int).1 == left_after(
            points@,
            tags@,
            start,
            last as int,
            r,
        ).1,
        old(cmds)@ + conic_run(points@, tags@, start, last as int, control, i as int).0
            == final(cmds)@ + left_after(points@, tags@, start, last as int, r).0,
{
    let ghost before = cmds@;
    let ghost whole = conic_run(points@, tags@, start, last as int, control, i as int);
    let mut ctl = control;
    let mut cur = i;
    while cur < last
        invariant
            tags@.len() == points@.len(),
            i <= cur <= last < points@.len(),
            before == old(cmds)@,
            cmds@.len() >= before.len(),
            whole == conic_run(points@, tags@, start, last as int, control, i as int),
            whole.1 == conic_run(points@, tags@, start, last as int, ctl, cur as int).1,
            before + whole.0 == cmds@ + conic_run(
                points@,
                tags@,
                start,
                last as int,
                ctl,
                cur as int,
            ).0,
        decreases last - cur,
    {
        let ghost here = conic_run(points@, tags@, start, last as int, ctl, cur as int);
        cur += 1;
        let point = points[cur];
        let k = kind_of(tags[cur]);
        if k == ON {
            let ghost rest = walk(points@, tags@, start, last as int, cur as int);
            assert(cmds@ + here.0 =~= cmds@.push(PathCommand::QuadTo(ctl, point)) + rest.0);
            cmds.push(PathCommand::QuadTo(ctl, point));
            return (true, cur, false);
        }
        if k != CONIC {
            assert(cmds@ + here.0 =~= cmds@ + Seq::<PathCommand>::empty());
            return (false, cur, false);
        }
        let middle = mid(ctl, point);
        let ghost rest = conic_run(points@, tags@, start, last as int, point, cur as int);
        assert(cmds@ + here.0 =~= cmds@.push(PathCommand::QuadTo(ctl, middle)) + rest.0);
        cmds.push(PathCommand::QuadTo(ctl, middle));
        ctl = point;
    }
    let ghost here = conic_run(points@, tags@, start, last as int, ctl, cur as int);
    assert(cmds@ + here.0 =~= cmds@.push(PathCommand::QuadTo(ctl, start)));
    cmds.push(PathCommand::QuadTo(ctl, start));
    assert(before + whole.0 =~= cmds@ + Seq::<PathCommand>::empty());
    (true, cur, true)
}

/// Emits the commands of the contour whose points have the indices `first`
/// to `last`, without the closing command. Returns whether the contour is
/// well formed; where it is not, the commands up to the fault are emitted.
fn emit_contour(
    points: &Vec<Point>,
    tags: &Vec<u8>,
    first: usize,
    last: usize,
    cmds: &mut Vec<PathCommand>,
) -> (ok: bool)
    requires
        tags@.len() == points@.len(),
        last <= u16::MAX,
    ensures
        ok == contour_path(points@, tags@, first as int, last as int).1,
        final(cmds)@ == old(cmds)@ + contour_path(points@, tags@, first as int, last as int).0,
{
    let ghost before = cmds@;
    let ghost whole = contour_path(points@, tags@, first as int, last as int);
    if last < first || last >= points.len() {
        assert(before + whole.0 =~= before);
        return false;
    }
    let first_kind = kind_of(tags[first]);
    if first_kind == CUBIC {
        assert(before + whole.0 =~= before);
        return false;
    }
    let mut start = points[first];
    let mut last = last;
    let mut state: (bool, usize, bool) = (true, first, false);
    if first_kind == CONIC {
        if kind_of(tags[last]) == ON {
            start = points[last];
            last = last - 1;
        } else {
            start = mid(start, points[last]);
        }
        cmds.push(PathCommand::MoveTo(start));
        if first < last {
            let ghost run = conic_run(
                points@,
                tags@,
                start,
                last as int,
                points@[first as int],
                first as int,
            );
            assert(before + whole.0 =~= cmds@ + run.0);
            state = emit_conic_run(points, tags, start, last, points[first], first, cmds);
        } else {
            state = (true, first, true);
            assert(before + whole.0 =~= cmds@ + Seq::<PathCommand>::empty());
        }
    } else {
        cmds.push(PathCommand::MoveTo(start));
        let ghost rest = walk(points@, tags@, start, last as int, first as int);
        assert(before + whole.0 =~= cmds@ + rest.0);
    }
    while state.0 && !state.2 && state.1 < last
        invariant
            tags@.len() == points@.len(),
            first <= state.1 <= last < points@.len(),
            last <= u16::MAX,
            whole.1 == left_after(points@, tags@, start, last as int, state).1,
            before + whole.0 == cmds@ + left_after(points@, tags@, start, last as int, state).0,
        decreases last - state.1, state.0 as int,
    {
        let ghost here = walk(points@, tags@, start, last as int, state.1 as int);
        let i = state.1 + 1;
        let k = kind_of(tags[i]);
        if k == ON {
            let ghost rest = walk(points@, tags@, start, last as int, i as int);
            assert(cmds@ + here.0 =~= cmds@.push(PathCommand::LineTo(points@[i as int])) + rest.0);
            cmds.push(PathCommand::LineTo(points[i]));
            state = (true, i, false);
        } else if k == CONIC {
            state = emit_conic_run(points, tags, start, last, points[i], i, cmds);
        } else if i + 1 > last || kind_of(tags[i + 1]) != CUBIC {
            state = (false, i, false);
        } else if i + 2 <= last {
            if kind_of(tags[i + 2]) != ON {
                state = (false, i, false);
            } else {
                let ghost rest = walk(points@, tags@, start, last as int, i + 2);
                let cmd = PathCommand::CurveTo(points[i], points[i + 1], points[i + 2]);
                assert(cmds@ + here.0 =~= cmds@.push(cmd) + rest.0);
                cmds.push(cmd);
                state = (true, i + 2, false);
            }
        } else {
            let cmd = PathCommand::CurveTo(points[i], points[i + 1], start);
            assert(cmds@ + here.0 =~= cmds@.push(cmd) + Seq::<PathCommand>::empty());
            cmds.push(cmd);
            state = (true, i + 1, true);
        }
    }
    assert(before + whole.0 =~= cmds@);
    state.0
}

impl Outline {
    /// Builds a path representation of the outline: the commands in the
    /// order in which a sink receives them, one closed sub-path per contour.
    ///
    /// Returns `false` with the commands up to the fault where a contour does
    /// not name a range of points, or where the kinds of its points do not
    /// follow each other as those of lines, quadratic and cubic curves do.
    pub fn path(&self) -> (r: (bool, Vec<PathCommand>))
        ensures
            r.0 == outline_path(self.points@, self.tags@, self.contours@).1,
            r.1@ == outline_path(self.points@, self.tags@, self.contours@).0,
    {
        let mut cmds: Vec<PathCommand> = Vec::new();
        if self.tags.len() != self.points.len() {
            return (false, cmds);
        }
        let ghost whole = path_from(self.points@, self.tags@, self.contours@, 0);
        let mut c: usize = 0;
        while c < self.contours.len()
            invariant
                self.tags@.len() == self.points@.len(),
                c <= self.contours@.len(),
                whole == path_from(self.points@, self.tags@, self.contours@, 0),
                whole.1 == path_from(self.points@, self.tags@, self.contours@, c as int).1,
                whole.0 == cmds@ + path_from(self.points@, self.tags@, self.contours@, c as int).0,
            decreases self.contours@.len() - c,
        {
            let ghost here = path_from(self.points@, self.tags@, self.contours@, c as int);
            let ghost rest = path_from(self.points@, self.tags@, self.contours@, c + 1);
            let ghost before = cmds@;
            let first: usize = if c > 0 {
                self.contours[c - 1] as usize + 1
            } else {
                0
            };
            let last: usize = self.contours[c] as usize;
            let ghost one = contour_path(self.points@, self.tags@, first as int, last as int);
            if !emit_contour(&self.points, &self.tags, first, last, &mut cmds) {
                return (false, cmds);
            }
            cmds.push(PathCommand::Close);
            assert(before + here.0 =~= cmds@ + rest.0);
            c += 1;
        }
        assert(cmds@ + Seq::<PathCommand>::empty() =~= cmds@);
        (true, cmds)
    }
}

} // verus!
