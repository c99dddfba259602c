use glyph_load::truetype::path::PathCommand;
use glyph_load::truetype::{Outline, Point};

fn outline(points: &[(i32, i32, u8)], contours: &[u16]) -> Outline {
    let mut o = Outline::new();
    for &(x, y, tag) in points {
        o.points.push(Point::new(x, y));
        o.tags.push(tag);
    }
    o.contours.extend_from_slice(contours);
    o
}

#[test]
fn triangle_of_on_curve_points_gives_lines() {
    let o = outline(&[(0, 0, 1), (10, 0, 1), (10, 10, 1)], &[2]);
    let (ok, cmds) = o.path();
    assert!(ok);
    assert_eq!(
        cmds,
        vec![
            PathCommand::MoveTo(Point::new(0, 0)),
            PathCommand::LineTo(Point::new(10, 0)),
            PathCommand::LineTo(Point::new(10, 10)),
            PathCommand::Close,
        ]
    );
}

#[test]
fn contour_starting_off_curve_starts_at_last_on_curve_point() {
    let o = outline(&[(5, 5, 0), (10, 0, 1), (0, 0, 1)], &[2]);
    let (ok, cmds) = o.path();
    assert!(ok);
    assert_eq!(
        cmds,
        vec![
            PathCommand::MoveTo(Point::new(0, 0)),
            PathCommand::QuadTo(Point::new(5, 5), Point::new(10, 0)),
            PathCommand::Close,
        ]
    );
}

#[test]
fn run_of_off_curve_points_has_implied_points_between() {
    let o = outline(&[(0, 0, 1), (10, 0, 0), (10, 10, 0), (0, 10, 1)], &[3]);
    let (ok, cmds) = o.path();
    assert!(ok);
    assert_eq!(
        cmds,
        vec![
            PathCommand::MoveTo(Point::new(0, 0)),
            PathCommand::QuadTo(Point::new(10, 0), Point::new(10, 5)),
            PathCommand::QuadTo(Point::new(10, 10), Point::new(0, 10)),
            PathCommand::Close,
        ]
    );
}

#[test]
fn off_curve_run_at_the_end_closes_to_the_start() {
    let o = outline(&[(0, 0, 1), (10, 0, 0), (10, 11, 0)], &[2]);
    let (ok, cmds) = o.path();
    assert!(ok);
    assert_eq!(
        cmds,
        vec![
            PathCommand::MoveTo(Point::new(0, 0)),
            PathCommand::QuadTo(Point::new(10, 0), Point::new(10, 5)),
            PathCommand::QuadTo(Point::new(10, 11), Point::new(0, 0)),
            PathCommand::Close,
        ]
    );
}

#[test]
fn contour_of_off_curve_points_starts_halfway() {
    let o = outline(&[(0, 0, 0), (10, 0, 0), (-3, -5, 0)], &[2]);
    let (ok, cmds) = o.path();
    assert!(ok);
    assert_eq!(
        cmds,
        vec![
            // Halves are rounded towards zero.
            PathCommand::MoveTo(Point::new(-1, -2)),
            PathCommand::QuadTo(Point::new(0, 0), Point::new(5, 0)),
            PathCommand::QuadTo(Point::new(10, 0), Point::new(3, -2)),
            PathCommand::QuadTo(Point::new(-3, -5), Point::new(-1, -2)),
            PathCommand::Close,
        ]
    );
}

#[test]
fn cubic_points_come_in_pairs() {
    let o = outline(
        &[(0, 0, 1), (1, 1, 2), (2, 2, 2), (3, 3, 1), (4, 4, 2), (5, 5, 2)],
        &[5],
    );
    let (ok, cmds) = o.path();
    assert!(ok);
    assert_eq!(
        cmds,
        vec![
            PathCommand::MoveTo(Point::new(0, 0)),
            PathCommand::CurveTo(Point::new(1, 1), Point::new(2, 2), Point::new(3, 3)),
            PathCommand::CurveTo(Point::new(4, 4), Point::new(5, 5), Point::new(0, 0)),
            PathCommand::Close,
        ]
    );
}

#[test]
fn faulty_contours_stop_the_path() {
    // A lone cubic point.
    let (ok, cmds) = outline(&[(0, 0, 1), (1, 1, 2), (2, 2, 1)], &[2]).path();
    assert!(!ok);
    assert_eq!(cmds, vec![PathCommand::MoveTo(Point::new(0, 0))]);
    // A contour that starts with a cubic point.
    let (ok, cmds) = outline(&[(0, 0, 2), (1, 1, 2), (2, 2, 1)], &[2]).path();
    assert!(!ok);
    assert!(cmds.is_empty());
    // A cubic point in a run of quadratic ones.
    let (ok, cmds) = outline(&[(0, 0, 1), (1, 1, 0), (2, 2, 2), (3, 3, 1)], &[3]).path();
    assert!(!ok);
    assert_eq!(cmds, vec![PathCommand::MoveTo(Point::new(0, 0))]);
    // A pair of cubic points followed by an off-curve point.
    let (ok, _) = outline(&[(0, 0, 1), (1, 1, 2), (2, 2, 2), (3, 3, 0)], &[3]).path();
    assert!(!ok);
    // A contour end beyond the points.
    let (ok, cmds) = outline(&[(0, 0, 1)], &[1]).path();
    assert!(!ok);
    assert!(cmds.is_empty());
    // Contour ends that do not increase.
    let (ok, cmds) = outline(&[(0, 0, 1), (1, 1, 1)], &[1, 0]).path();
    assert!(!ok);
    assert_eq!(
        cmds,
        vec![
            PathCommand::MoveTo(Point::new(0, 0)),
            PathCommand::LineTo(Point::new(1, 1)),
            PathCommand::Close,
        ]
    );
    // A tag missing.
    let mut o = outline(&[(0, 0, 1), (1, 1, 1)], &[1]);
    o.tags.pop();
    let (ok, cmds) = o.path();
    assert!(!ok);
    assert!(cmds.is_empty());
}

#[test]
fn each_contour_is_closed_once() {
    let o = outline(&[(0, 0, 1), (1, 0, 1), (5, 5, 1), (6, 5, 0)], &[1, 3]);
    let (ok, cmds) = o.path();
    assert!(ok);
    assert_eq!(
        cmds,
        vec![
            PathCommand::MoveTo(Point::new(0, 0)),
            PathCommand::LineTo(Point::new(1, 0)),
            PathCommand::Close,
            PathCommand::MoveTo(Point::new(5, 5)),
            PathCommand::QuadTo(Point::new(6, 5), Point::new(5, 5)),
            PathCommand::Close,
        ]
    );
    assert_eq!(o.units_per_step(), 1);
}

#[test]
fn empty_outline_has_an_empty_path() {
    let mut o = Outline::new();
    assert_eq!(o.path(), (true, vec![]));
    o.points.push(Point::new(1, 2));
    o.tags.push(1);
    o.contours.push(0);
    o.is_scaled = true;
    assert_eq!(o.units_per_step(), 64);
    assert_eq!(
        o.path(),
        (true, vec![PathCommand::MoveTo(Point::new(1, 2)), PathCommand::Close])
    );
    o.clear();
    assert_eq!(o, Outline::default());
    assert_eq!(Point::default(), Point::new(0, 0));
}
