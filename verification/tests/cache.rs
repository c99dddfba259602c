use glyph_load::truetype::cache::{checked_zone, Cache, CacheSlot};
use glyph_load::truetype::font::{LoaderFont, LongMetric};
use glyph_load::truetype::hint::{HintGlyph, HintZone, Interpreter, NoInterpreter};
use glyph_load::truetype::{HinterMode, Point};

fn font(cvt: Vec<i16>) -> LoaderFont {
    LoaderFont {
        glyphs: vec![],
        h_metrics: vec![
            LongMetric { advance_width: 500, lsb: 10 },
            LongMetric { advance_width: 600, lsb: -20 },
        ],
        left_side_bearings: vec![7, 8],
        fpgm: vec![],
        prep: vec![],
        cvt,
        units_per_em: 1000,
        glyph_count: 4,
        max_storage: 0,
        max_stack: 0,
        max_function_defs: 0,
        max_instruction_defs: 0,
        max_twilight: 0,
        axis_count: 0,
    }
}

/// Counts the contexts that it builds; the context is its number.
struct Counting {
    built: u32,
    refuse_ppem: u16,
}

impl Interpreter for Counting {
    type Context = u32;

    fn prepare(
        &mut self,
        _font: &LoaderFont,
        _coords: &[i16],
        ppem: u16,
        _scale: i32,
        _mode: HinterMode,
    ) -> Option<u32> {
        if ppem == self.refuse_ppem {
            return None;
        }
        self.built += 1;
        Some(self.built)
    }

    fn execute(
        &mut self,
        context: &mut u32,
        _font: &LoaderFont,
        _coords: &[i16],
        _glyph: &HintGlyph<'_>,
        mut zone: HintZone,
    ) -> Option<HintZone> {
        // Marks the zone with the context that ran.
        zone.points[0].x = *context as i32;
        Some(zone)
    }
}

fn cache(max_size: usize) -> Cache<Counting> {
    Cache::new(Counting { built: 0, refuse_ppem: 99 }, max_size)
}

fn prepare(c: &mut Cache<Counting>, id: u64, ppem: u16) -> Option<CacheSlot> {
    c.prepare(Some(id), &font(vec![]), &[], ppem, 0x10000, HinterMode::Modern)
}

fn index(slot: Option<CacheSlot>) -> usize {
    match slot {
        Some(CacheSlot::Cached { index, .. }) => index,
        other => panic!("no cached slot: {:?}", other),
    }
}

fn run(c: &mut Cache<Counting>, slot: CacheSlot) -> Option<i32> {
    let zone = HintZone {
        points: vec![Point::new(0, 0); 5],
        tags: vec![0; 5],
        phantom: [Point::new(0, 0); 4],
    };
    let empty = vec![];
    let contours = vec![];
    let ins = vec![];
    let glyph = HintGlyph {
        unscaled: &empty,
        original: &empty,
        contours: &contours,
        point_base: 0,
        contour_base: 0,
        instructions: &ins,
        is_composite: false,
    };
    c.hint(&font(vec![]), &[], slot, &glyph, zone).map(|z| z.points[0].x)
}

#[test]
fn same_key_gives_the_same_context() {
    let mut c = cache(8);
    let a = prepare(&mut c, 1, 12).unwrap();
    let b = prepare(&mut c, 1, 12).unwrap();
    assert_eq!(c.len(), 1);
    assert_eq!(index(Some(a)), index(Some(b)));
    assert!(!c.is_live(a));
    assert!(c.is_live(b));
    assert_eq!(run(&mut c, b), Some(1));
    assert_eq!(run(&mut c, a), None);
}

#[test]
fn each_part_of_the_key_counts() {
    let mut c = cache(8);
    let f = font(vec![]);
    c.prepare(Some(1), &f, &[], 12, 0x10000, HinterMode::Modern).unwrap();
    c.prepare(Some(2), &f, &[], 12, 0x10000, HinterMode::Modern).unwrap();
    c.prepare(Some(1), &f, &[], 13, 0x10000, HinterMode::Modern).unwrap();
    c.prepare(Some(1), &f, &[1], 12, 0x10000, HinterMode::Modern).unwrap();
    c.prepare(Some(1), &f, &[], 12, 0x10000, HinterMode::Legacy).unwrap();
    assert_eq!(c.len(), 5);
    c.prepare(Some(1), &f, &[1], 12, 0x10000, HinterMode::Modern).unwrap();
    assert_eq!(c.len(), 5);
}

#[test]
fn the_context_asked_for_longest_ago_leaves() {
    let mut c = cache(2);
    assert_eq!(c.capacity(), 2);
    assert_eq!(index(prepare(&mut c, 1, 10)), 0);
    assert_eq!(index(prepare(&mut c, 2, 10)), 1);
    // Asking for the first again makes the second the oldest.
    assert_eq!(index(prepare(&mut c, 1, 10)), 0);
    let third = prepare(&mut c, 3, 10);
    assert_eq!(index(third), 1);
    assert_eq!(c.len(), 2);
    assert_eq!(run(&mut c, third.unwrap()), Some(3));
    // The first is still there, the second has to be built anew.
    assert_eq!(index(prepare(&mut c, 1, 10)), 0);
    let again = prepare(&mut c, 2, 10);
    assert_eq!(index(again), 1);
    assert_eq!(run(&mut c, again.unwrap()), Some(4));
}

#[test]
fn a_cache_for_nothing_prepares_nothing() {
    let mut c = cache(0);
    assert_eq!(prepare(&mut c, 1, 10), None);
    assert_eq!(c.prepare(None, &font(vec![]), &[], 10, 0x10000, HinterMode::Modern), None);
    assert_eq!(c.len(), 0);
    assert!(!c.is_live(CacheSlot::Uncached));
}

#[test]
fn a_refused_context_changes_nothing() {
    let mut c = cache(2);
    prepare(&mut c, 1, 10).unwrap();
    assert_eq!(prepare(&mut c, 1, 99), None);
    assert_eq!(c.len(), 1);
}

#[test]
fn font_without_identity_is_not_kept() {
    let mut c = cache(2);
    let f = font(vec![]);
    let slot = c.prepare(None, &f, &[], 10, 0x10000, HinterMode::Modern);
    assert_eq!(slot, Some(CacheSlot::Uncached));
    assert_eq!(c.len(), 0);
    assert_eq!(run(&mut c, CacheSlot::Uncached), Some(1));
    c.prepare(None, &f, &[], 10, 0x10000, HinterMode::Modern).unwrap();
    assert_eq!(run(&mut c, CacheSlot::Uncached), Some(2));
}

#[test]
fn the_interpreter_without_programs_prepares_nothing() {
    let mut c = Cache::new(NoInterpreter, 8);
    assert_eq!(
        c.prepare(Some(1), &font(vec![]), &[], 10, 0x10000, HinterMode::Modern),
        None
    );
}

#[test]
fn a_zone_of_another_size_is_not_kept() {
    let zone = HintZone {
        points: vec![Point::new(1, 2); 5],
        tags: vec![0; 5],
        phantom: [Point::new(0, 0); 4],
    };
    assert_eq!(checked_zone(Some(zone.clone()), 5, 5), Some(zone.clone()));
    assert_eq!(checked_zone(Some(zone.clone()), 4, 5), None);
    assert_eq!(checked_zone(Some(zone), 5, 6), None);
    assert_eq!(checked_zone(None, 0, 0), None);
}

#[test]
fn metrics_fall_back_to_the_last_record_and_the_bearings() {
    let f = font(vec![]);
    assert_eq!(f.advance_width(0), 500);
    assert_eq!(f.advance_width(1), 600);
    assert_eq!(f.advance_width(2), 600);
    assert_eq!(f.advance_width(9), 600);
    assert_eq!(f.lsb(0), 10);
    assert_eq!(f.lsb(1), -20);
    assert_eq!(f.lsb(2), 7);
    assert_eq!(f.lsb(3), 8);
    assert_eq!(f.lsb(4), 0);
    let mut bare = font(vec![]);
    bare.h_metrics.clear();
    bare.left_side_bearings.clear();
    assert_eq!(bare.advance_width(0), 0);
    assert_eq!(bare.lsb(0), 0);
}

#[test]
fn control_values_are_scaled_to_26_6() {
    let f = font(vec![100, -7]);
    let mut scaled = vec![];
    f.scale_cvt(None, &mut scaled);
    assert_eq!(scaled, vec![6400, -448]);
    // A factor of one half: the scale holds it times 64.
    let mut scaled = vec![1, 2, 1000];
    f.scale_cvt(Some(0x8000 * 64), &mut scaled);
    assert_eq!(scaled, vec![3200, -224, 500]);
}
