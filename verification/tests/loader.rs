use font_types::GlyphId;
use glyph_load::truetype::font::{GlyphRecord, LoaderFont, LongMetric};
use glyph_load::truetype::glyf::{
    Anchor, Bounds, Component, CompositeGlyph, CompositeGlyphFlags, Glyph, GlyphPoint,
    SimpleGlyph, Transform, ROUND_XY_TO_GRID, SCALED_COMPONENT_OFFSET, USE_MY_METRICS,
    WE_HAVE_A_SCALE,
};
use glyph_load::truetype::hint::{HintGlyph, HintZone, Interpreter};
use glyph_load::truetype::{HinterMode, Loader, LoaderState, Outline, Point};

fn bounds(x_min: i16, x_max: i16, y_min: i16, y_max: i16) -> Bounds {
    Bounds { x_min, x_max, y_min, y_max }
}

fn simple(x_min: i16, points: &[(i16, i16, bool)], ends: &[u16], ins: &[u8]) -> Glyph {
    Glyph::Simple(SimpleGlyph {
        bounds: bounds(x_min, 100, 0, 200),
        end_pts: ends.to_vec(),
        points: points
            .iter()
            .map(|&(x, y, on_curve)| GlyphPoint { x, y, on_curve })
            .collect(),
        instructions: ins.to_vec(),
    })
}

fn identity() -> Transform {
    Transform { xx: 0x4000, yx: 0, xy: 0, yy: 0x4000 }
}

fn component(glyph: u16, flags: u16, anchor: Anchor) -> Component {
    Component {
        flags: CompositeGlyphFlags::from_bits(flags),
        glyph,
        anchor,
        transform: identity(),
    }
}

fn composite(components: Vec<Component>, ins: &[u8]) -> Glyph {
    Glyph::Composite(CompositeGlyph {
        bounds: bounds(0, 100, 0, 200),
        components,
        instructions: ins.to_vec(),
    })
}

fn font(glyphs: Vec<GlyphRecord>, units_per_em: u16) -> LoaderFont {
    let glyph_count = glyphs.len() as u16;
    LoaderFont {
        glyphs,
        h_metrics: vec![LongMetric { advance_width: 500, lsb: 0 }],
        left_side_bearings: vec![],
        fpgm: vec![],
        prep: vec![],
        cvt: vec![],
        units_per_em,
        glyph_count,
        max_storage: 0,
        max_stack: 0,
        max_function_defs: 0,
        max_instruction_defs: 0,
        max_twilight: 0,
        axis_count: 0,
    }
}

fn triangle(ins: &[u8]) -> Glyph {
    simple(0, &[(0, 0, true), (100, 0, true), (50, 200, false)], &[2], ins)
}

fn points(outline: &Outline) -> Vec<(i32, i32)> {
    outline.points.iter().map(|p| (p.x, p.y)).collect()
}

#[test]
fn simple_glyph_without_scale_keeps_the_raw_points() {
    let f = font(vec![GlyphRecord::Outline(triangle(&[]))], 1000);
    let mut state = LoaderState::new(&f, None, &[], 0, Some(HinterMode::Subpixel));
    let mut loader = Loader::new();
    let outline = loader.load(&mut state, GlyphId::new(0)).unwrap();
    assert_eq!(points(&outline), vec![(0, 0), (100, 0), (50, 200)]);
    assert_eq!(outline.tags, vec![1, 1, 0]);
    assert_eq!(outline.contours, vec![2]);
    assert!(!outline.is_scaled);
    assert_eq!(outline.tags.len(), outline.points.len());
    assert_eq!(outline.points.len(), *outline.contours.last().unwrap() as usize + 1);
    assert!(!state.hint_failed());
}

#[test]
fn points_are_relative_to_the_glyph_origin() {
    let g = simple(30, &[(30, 0, true), (100, 0, true), (50, 200, true)], &[2], &[]);
    let mut f = font(vec![GlyphRecord::Outline(g)], 1000);
    f.h_metrics = vec![LongMetric { advance_width: 500, lsb: 10 }];
    let mut state = LoaderState::new(&f, None, &[], 0, None);
    let mut loader = Loader::new();
    let outline = loader.load(&mut state, GlyphId::new(0)).unwrap();
    assert_eq!(points(&outline), vec![(10, 0), (80, 0), (30, 200)]);
    let phantom = state.phantom();
    assert_eq!(phantom[0], Point::new(20, 0));
    assert_eq!(phantom[1], Point::new(520, 0));
    assert_eq!(phantom[2], Point::new(250, 200));
    assert_eq!(phantom[3], Point::new(250, 200));
}

#[test]
fn scaled_simple_glyph_has_exact_coordinates() {
    let f = font(vec![GlyphRecord::Outline(triangle(&[]))], 2048);
    // 16 pixels per em at 2048 units per em: the factor is 0.5 in 26.6.
    let mut state = LoaderState::new(&f, None, &[], 16 * 64, None);
    assert_eq!(state.scale(), Some(0x8000));
    let mut loader = Loader::new();
    let outline = loader.load(&mut state, GlyphId::new(0)).unwrap();
    assert_eq!(points(&outline), vec![(0, 0), (50, 0), (25, 100)]);
    assert!(outline.is_scaled);
    assert_eq!(state.phantom()[1], Point::new(250, 0));
}

#[test]
fn glyph_id_selects_the_glyph() {
    let other = simple(0, &[(7, 9, true)], &[0], &[]);
    let f = font(vec![GlyphRecord::Outline(triangle(&[])), GlyphRecord::Outline(other)], 1000);
    let mut state = LoaderState::new(&f, None, &[], 0, None);
    let mut loader = Loader::new();
    let outline = loader.load(&mut state, GlyphId::new(1)).unwrap();
    assert_eq!(points(&outline), vec![(7, 9)]);
}

#[test]
fn glyph_id_out_of_range_fails_and_empties_the_outline() {
    let f = font(vec![GlyphRecord::Outline(triangle(&[]))], 1000);
    let mut state = LoaderState::new(&f, None, &[], 0, None);
    let mut loader = Loader::new();
    let mut outline = Outline::new();
    assert!(loader.load_to(&mut state, GlyphId::new(0), &mut outline));
    assert_eq!(outline.points.len(), 3);
    assert!(!loader.load_to(&mut state, GlyphId::new(1), &mut outline));
    assert_eq!(outline, Outline::new());
    assert!(loader.load(&mut state, GlyphId::new(9)).is_none());
}

#[test]
fn glyph_without_record_fails() {
    let mut f = font(vec![GlyphRecord::Outline(triangle(&[]))], 1000);
    f.glyph_count = 5;
    let mut state = LoaderState::new(&f, None, &[], 0, None);
    let mut loader = Loader::new();
    assert!(loader.load(&mut state, GlyphId::new(3)).is_none());
}

#[test]
fn empty_glyph_loads_as_an_empty_outline() {
    let f = font(vec![GlyphRecord::Empty], 1000);
    let mut state = LoaderState::new(&f, None, &[], 0, None);
    let mut loader = Loader::new();
    let outline = loader.load(&mut state, GlyphId::new(0)).unwrap();
    assert_eq!(outline, Outline::new());
}

#[test]
fn composite_places_components_by_offset() {
    let c = composite(
        vec![
            component(0, 0, Anchor::Offset { x: 0, y: 0 }),
            component(0, 0, Anchor::Offset { x: 10, y: -20 }),
        ],
        &[],
    );
    let f = font(vec![GlyphRecord::Outline(triangle(&[])), GlyphRecord::Outline(c)], 1000);
    let mut state = LoaderState::new(&f, None, &[], 0, None);
    let mut loader = Loader::new();
    let outline = loader.load(&mut state, GlyphId::new(1)).unwrap();
    assert_eq!(
        points(&outline),
        vec![(0, 0), (100, 0), (50, 200), (10, -20), (110, -20), (60, 180)]
    );
    assert_eq!(outline.contours, vec![2, 5]);
    assert_eq!(outline.tags, vec![1, 1, 0, 1, 1, 0]);
}

#[test]
fn composite_matches_anchor_points() {
    // Point 0 of the second component falls on point 1 of the composite.
    let c = composite(
        vec![
            component(0, 0, Anchor::Offset { x: 0, y: 0 }),
            component(0, 0, Anchor::Point { base: 1, component: 0 }),
        ],
        &[],
    );
    let f = font(vec![GlyphRecord::Outline(triangle(&[])), GlyphRecord::Outline(c)], 1000);
    let mut state = LoaderState::new(&f, None, &[], 0, None);
    let mut loader = Loader::new();
    let outline = loader.load(&mut state, GlyphId::new(1)).unwrap();
    assert_eq!(
        points(&outline),
        vec![(0, 0), (100, 0), (50, 200), (100, 0), (200, 0), (150, 200)]
    );
}

#[test]
fn anchor_beyond_the_points_fails_on_the_side_of_the_composite() {
    let c = composite(
        vec![
            component(0, 0, Anchor::Offset { x: 0, y: 0 }),
            component(0, 0, Anchor::Point { base: 6, component: 0 }),
        ],
        &[],
    );
    let f = font(vec![GlyphRecord::Outline(triangle(&[])), GlyphRecord::Outline(c)], 1000);
    let mut state = LoaderState::new(&f, None, &[], 0, None);
    let mut loader = Loader::new();
    let mut outline = Outline::new();
    assert!(!loader.load_to(&mut state, GlyphId::new(1), &mut outline));
    assert!(outline.points.is_empty());
    // The last point that exists is still in range.
    let c = composite(
        vec![
            component(0, 0, Anchor::Offset { x: 0, y: 0 }),
            component(0, 0, Anchor::Point { base: 5, component: 0 }),
        ],
        &[],
    );
    let f = font(vec![GlyphRecord::Outline(triangle(&[])), GlyphRecord::Outline(c)], 1000);
    let mut state = LoaderState::new(&f, None, &[], 0, None);
    assert!(loader.load(&mut state, GlyphId::new(1)).is_some());
}

#[test]
fn anchor_beyond_the_points_fails_on_the_side_of_the_component() {
    let c = composite(
        vec![
            component(0, 0, Anchor::Offset { x: 0, y: 0 }),
            component(0, 0, Anchor::Point { base: 0, component: 3 }),
        ],
        &[],
    );
    let f = font(vec![GlyphRecord::Outline(triangle(&[])), GlyphRecord::Outline(c)], 1000);
    let mut state = LoaderState::new(&f, None, &[], 0, None);
    let mut loader = Loader::new();
    assert!(loader.load(&mut state, GlyphId::new(1)).is_none());
}

fn chain(length: u16) -> LoaderFont {
    // Glyph 0 is simple; glyph i is a composite of glyph i - 1.
    let mut glyphs = vec![GlyphRecord::Outline(triangle(&[]))];
    for i in 1..length {
        glyphs.push(GlyphRecord::Outline(composite(
            vec![component(i - 1, 0, Anchor::Offset { x: 0, y: 0 })],
            &[],
        )));
    }
    font(glyphs, 1000)
}

#[test]
fn nesting_to_depth_32_loads_and_to_depth_33_fails() {
    let f = chain(34);
    let mut state = LoaderState::new(&f, None, &[], 0, None);
    let mut loader = Loader::new();
    // Glyph 32 has its simple glyph at depth 32.
    let outline = loader.load(&mut state, GlyphId::new(32)).unwrap();
    assert_eq!(outline.points.len(), 3);
    // Glyph 33 has it at depth 33.
    assert!(loader.load(&mut state, GlyphId::new(33)).is_none());
}

#[test]
fn composite_that_contains_itself_fails() {
    let c = composite(vec![component(0, 0, Anchor::Offset { x: 0, y: 0 })], &[]);
    let f = font(vec![GlyphRecord::Outline(c)], 1000);
    let mut state = LoaderState::new(&f, None, &[], 0, None);
    let mut loader = Loader::new();
    assert!(loader.load(&mut state, GlyphId::new(0)).is_none());
}

#[test]
fn component_transform_and_scaled_offset() {
    // A transform of one half in both axes, the offset scaled with it.
    let mut half = component(
        0,
        WE_HAVE_A_SCALE | SCALED_COMPONENT_OFFSET,
        Anchor::Offset { x: 40, y: 80 },
    );
    half.transform = Transform { xx: 0x2000, yx: 0, xy: 0, yy: 0x2000 };
    let c = composite(vec![half], &[]);
    let f = font(vec![GlyphRecord::Outline(triangle(&[])), GlyphRecord::Outline(c)], 1000);
    let mut state = LoaderState::new(&f, None, &[], 0, None);
    let mut loader = Loader::new();
    let outline = loader.load(&mut state, GlyphId::new(1)).unwrap();
    assert_eq!(points(&outline), vec![(20, 40), (70, 40), (45, 140)]);
}

#[test]
fn component_offset_is_scaled_and_its_vertical_part_rounded() {
    let c = composite(
        vec![component(0, ROUND_XY_TO_GRID, Anchor::Offset { x: 30, y: 30 })],
        &[],
    );
    let f = font(vec![GlyphRecord::Outline(triangle(&[])), GlyphRecord::Outline(c)], 2048);
    let mut state = LoaderState::new(&f, None, &[], 16 * 64, None);
    let mut loader = Loader::new();
    let outline = loader.load(&mut state, GlyphId::new(1)).unwrap();
    // The offset (30, 30) scales to (15, 15); 15 rounds to 0 in 26.6.
    assert_eq!(points(&outline), vec![(15, 0), (65, 0), (40, 100)]);
}

#[test]
fn use_my_metrics_takes_the_phantom_points_of_the_component() {
    let wide = simple(5, &[(5, 0, true)], &[0], &[]);
    let plain = composite(vec![component(0, 0, Anchor::Offset { x: 0, y: 0 })], &[]);
    let metrics = composite(
        vec![component(0, USE_MY_METRICS, Anchor::Offset { x: 0, y: 0 })],
        &[],
    );
    let mut f = font(vec![GlyphRecord::Outline(wide), GlyphRecord::Outline(plain), GlyphRecord::Outline(metrics)], 1000);
    f.h_metrics = vec![
        LongMetric { advance_width: 700, lsb: 5 },
        LongMetric { advance_width: 300, lsb: 0 },
        LongMetric { advance_width: 300, lsb: 0 },
    ];
    let mut loader = Loader::new();
    let mut state = LoaderState::new(&f, None, &[], 0, None);
    loader.load(&mut state, GlyphId::new(1)).unwrap();
    assert_eq!(state.phantom()[1], Point::new(300, 0));
    loader.load(&mut state, GlyphId::new(2)).unwrap();
    assert_eq!(state.phantom()[1], Point::new(700, 0));
}

/// Moves every point of a zone up by one pixel.
struct Lift {
    prepared: usize,
    executed: usize,
    fail_prepare: bool,
    fail_execute: bool,
    drop_a_point: bool,
}

impl Lift {
    fn new() -> Self {
        Lift {
            prepared: 0,
            executed: 0,
            fail_prepare: false,
            fail_execute: false,
            drop_a_point: false,
        }
    }
}

impl Interpreter for Lift {
    type Context = u16;

    fn prepare(
        &mut self,
        _font: &LoaderFont,
        _coords: &[i16],
        ppem: u16,
        _scale: i32,
        _mode: HinterMode,
    ) -> Option<u16> {
        self.prepared += 1;
        if self.fail_prepare {
            None
        } else {
            Some(ppem)
        }
    }

    fn execute(
        &mut self,
        _context: &mut u16,
        _font: &LoaderFont,
        _coords: &[i16],
        glyph: &HintGlyph<'_>,
        mut zone: HintZone,
    ) -> Option<HintZone> {
        self.executed += 1;
        assert_eq!(glyph.unscaled.len(), zone.points.len());
        assert_eq!(glyph.original.len(), zone.points.len());
        if self.fail_execute {
            return None;
        }
        for p in zone.points.iter_mut() {
            p.y += 64;
        }
        for t in zone.tags.iter_mut() {
            *t |= 0x10;
        }
        zone.phantom[1].x += 64;
        if self.drop_a_point {
            zone.points.pop();
        }
        Some(zone)
    }
}

#[test]
fn hint_program_moves_the_points() {
    let f = font(vec![GlyphRecord::Outline(triangle(&[0xB0]))], 2048);
    let mut state = LoaderState::new(&f, Some(1), &[], 16 * 64, Some(HinterMode::Subpixel));
    let mut loader = Loader::with_interpreter(Lift::new(), 8);
    let outline = loader.load(&mut state, GlyphId::new(0)).unwrap();
    assert_eq!(points(&outline), vec![(0, 64), (50, 64), (25, 164)]);
    assert_eq!(outline.tags, vec![0x11, 0x11, 0x10]);
    assert_eq!(outline.contours, vec![2]);
    assert!(state.hinting());
    assert!(!state.hint_failed());
    assert_eq!(state.phantom()[1], Point::new(250 + 64, 0));
}

#[test]
fn glyph_without_program_is_not_hinted() {
    let f = font(vec![GlyphRecord::Outline(triangle(&[]))], 2048);
    let mut state = LoaderState::new(&f, Some(1), &[], 16 * 64, Some(HinterMode::Subpixel));
    let mut loader = Loader::with_interpreter(Lift::new(), 8);
    let outline = loader.load(&mut state, GlyphId::new(0)).unwrap();
    assert_eq!(points(&outline), vec![(0, 0), (50, 0), (25, 100)]);
    assert!(state.hinting());
}

fn hinted_font() -> LoaderFont {
    let c = composite(
        vec![
            component(0, ROUND_XY_TO_GRID, Anchor::Offset { x: 30, y: 30 }),
            component(0, 0, Anchor::Point { base: 1, component: 0 }),
        ],
        &[0xB0],
    );
    font(vec![GlyphRecord::Outline(triangle(&[0xB0])), GlyphRecord::Outline(c)], 2048)
}

fn load_all(loader_outlines: &mut Vec<Outline>, f: &LoaderFont, mode: Option<HinterMode>, which: u8) {
    let mut state = LoaderState::new(f, Some(1), &[], 16 * 64, mode);
    for gid in 0..2 {
        let outline = match which {
            0 => Loader::new().load(&mut state, GlyphId::new(gid)),
            1 => Loader::with_interpreter(Lift::new(), 0).load(&mut state, GlyphId::new(gid)),
            _ => {
                let mut lift = Lift::new();
                lift.fail_prepare = true;
                Loader::with_interpreter(lift, 8).load(&mut state, GlyphId::new(gid))
            }
        };
        loader_outlines.push(outline.unwrap());
    }
}

#[test]
fn a_cache_that_prepares_nothing_gives_the_unhinted_outline() {
    let f = hinted_font();
    let mut plain = vec![];
    load_all(&mut plain, &f, None, 0);
    for which in 0..3 {
        let mut got = vec![];
        load_all(&mut got, &f, Some(HinterMode::Subpixel), which);
        assert_eq!(got, plain);
    }
}

#[test]
fn failed_prepare_stops_hinting_for_the_session() {
    let f = hinted_font();
    let mut lift = Lift::new();
    lift.fail_prepare = true;
    let mut loader = Loader::with_interpreter(lift, 8);
    let mut state = LoaderState::new(&f, Some(1), &[], 16 * 64, Some(HinterMode::Subpixel));
    assert!(state.hinting());
    assert!(loader.load(&mut state, GlyphId::new(0)).is_some());
    assert!(!state.hinting());
    assert!(state.hint_failed());
    assert!(loader.load(&mut state, GlyphId::new(1)).is_some());
    assert!(!state.hinting());
    assert!(!state.hint_failed());
}

#[test]
fn failed_program_leaves_the_scaled_outline() {
    let f = font(vec![GlyphRecord::Outline(triangle(&[0xB0]))], 2048);
    let mut lift = Lift::new();
    lift.fail_execute = true;
    let mut loader = Loader::with_interpreter(lift, 8);
    let mut state = LoaderState::new(&f, Some(1), &[], 16 * 64, Some(HinterMode::Subpixel));
    let outline = loader.load(&mut state, GlyphId::new(0)).unwrap();
    assert_eq!(points(&outline), vec![(0, 0), (50, 0), (25, 100)]);
    assert!(state.hint_failed());
    assert!(state.hinting());
}

#[test]
fn zone_of_another_length_counts_as_a_failed_program() {
    let f = font(vec![GlyphRecord::Outline(triangle(&[0xB0]))], 2048);
    let mut lift = Lift::new();
    lift.drop_a_point = true;
    let mut loader = Loader::with_interpreter(lift, 8);
    let mut state = LoaderState::new(&f, Some(1), &[], 16 * 64, Some(HinterMode::Subpixel));
    let outline = loader.load(&mut state, GlyphId::new(0)).unwrap();
    assert_eq!(points(&outline), vec![(0, 0), (50, 0), (25, 100)]);
    assert_eq!(outline.tags, vec![1, 1, 0]);
    assert!(state.hint_failed());
}

#[test]
fn composite_program_runs_on_all_its_points() {
    let c = composite(
        vec![
            component(0, 0, Anchor::Offset { x: 0, y: 0 }),
            component(0, 0, Anchor::Offset { x: 100, y: 0 }),
        ],
        &[0xB0],
    );
    let f = font(vec![GlyphRecord::Outline(triangle(&[])), GlyphRecord::Outline(c)], 2048);
    let mut state = LoaderState::new(&f, Some(1), &[], 16 * 64, Some(HinterMode::Modern));
    let mut loader = Loader::with_interpreter(Lift::new(), 8);
    let outline = loader.load(&mut state, GlyphId::new(1)).unwrap();
    assert_eq!(
        points(&outline),
        vec![(0, 64), (50, 64), (25, 164), (50, 64), (100, 64), (75, 164)]
    );
    assert_eq!(outline.points.len(), outline.tags.len());
}

#[test]
fn glyph_can_be_named_by_its_number() {
    let other = simple(0, &[(7, 9, true)], &[0], &[]);
    let f = font(vec![GlyphRecord::Outline(triangle(&[])), GlyphRecord::Outline(other)], 1000);
    let mut state = LoaderState::new(&f, None, &[], 0, None);
    let mut loader = Loader::new();
    let mut outline = Outline::new();
    assert!(loader.load_glyph_to(&mut state, 1, &mut outline));
    assert_eq!(points(&outline), vec![(7, 9)]);
    assert!(!loader.load_glyph_to(&mut state, 2, &mut outline));
    assert!(outline.points.is_empty());
}

#[test]
fn record_that_cannot_be_read_fails_the_load() {
    let c = composite(vec![component(0, 0, Anchor::Offset { x: 0, y: 0 })], &[]);
    let f = font(vec![GlyphRecord::Missing, GlyphRecord::Outline(c)], 1000);
    let mut state = LoaderState::new(&f, None, &[], 0, None);
    let mut loader = Loader::new();
    assert!(loader.load(&mut state, GlyphId::new(0)).is_none());
    assert!(loader.load(&mut state, GlyphId::new(1)).is_none());
}

#[test]
fn contour_ends_count_from_the_first_point_of_the_outline() {
    let c = composite(
        vec![
            component(0, 0, Anchor::Offset { x: 0, y: 0 }),
            component(1, 0, Anchor::Offset { x: 0, y: 0 }),
        ],
        &[0xB0],
    );
    let two = simple(0, &[(0, 0, true), (1, 1, true), (2, 2, true)], &[0, 2], &[0xB0]);
    let f = font(
        vec![
            GlyphRecord::Outline(triangle(&[0xB0])),
            GlyphRecord::Outline(two),
            GlyphRecord::Outline(c),
        ],
        2048,
    );
    for hinted in [false, true] {
        let mode = if hinted { Some(HinterMode::Modern) } else { None };
        let mut state = LoaderState::new(&f, Some(1), &[], 16 * 64, mode);
        let mut loader = Loader::with_interpreter(Lift::new(), 8);
        let outline = loader.load(&mut state, GlyphId::new(2)).unwrap();
        assert_eq!(outline.contours, vec![2, 3, 5]);
        assert_eq!(outline.points.len(), 6);
    }
}

#[test]
fn loader_state_derives_scale_and_size() {
    let f = font(vec![GlyphRecord::Empty], 1000);
    let state = LoaderState::new(&f, None, &[], 0, None);
    assert_eq!(state.scale(), None);
    assert!(!state.hinting());
    let state = LoaderState::new(&f, None, &[], -(12 * 64), Some(HinterMode::Legacy));
    // 12 * 64 * 65536 / 1000, rounded.
    assert_eq!(state.scale(), Some(50331648 / 1000 + 1));
    assert!(state.hinting());
    let f = font(vec![GlyphRecord::Empty], 0);
    let state = LoaderState::new(&f, None, &[], 12 * 64, None);
    assert_eq!(state.scale(), None);
}
