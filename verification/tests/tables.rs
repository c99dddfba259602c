use font_types::{GlyphId, Tag};
use glyph_load::font_ref::FontRef;
use glyph_load::name::ReadError;
use glyph_load::table_provider::{
    expect_data_for_tag, expect_table, name, read_name, TableProvider, TableTag,
};
use glyph_load::tables::glyf::{read_glyph, read_record, read_records};
use glyph_load::tables::head::Head;
use glyph_load::tables::cvt::read_cvt;
use glyph_load::tables::hmtx::{number_of_h_metrics, Hmtx};
use glyph_load::tables::loca::get_range;
use glyph_load::tables::maxp::{HintLimits, Maxp};
use glyph_load::truetype::font::{FontTables, GlyphRecord, LoaderFont, LongMetric};
use glyph_load::truetype::glyf::{
    Anchor, Bounds, Component, CompositeGlyph, CompositeGlyphFlags, Glyph, GlyphPoint,
    SimpleGlyph, Transform,
};
use glyph_load::truetype::{Loader, LoaderState};

fn be16(v: u16) -> [u8; 2] {
    v.to_be_bytes()
}

fn header(contours: i16, bounds: [i16; 4]) -> Vec<u8> {
    let mut g = contours.to_be_bytes().to_vec();
    for b in bounds {
        g.extend_from_slice(&b.to_be_bytes());
    }
    g
}

/// The triangle (0,0) (100,0) (50,200), the last point off the curve, with
/// the program `ins`.
fn triangle_bytes(ins: &[u8]) -> Vec<u8> {
    let mut g = header(1, [0, 0, 100, 200]);
    g.extend_from_slice(&be16(2));
    g.extend_from_slice(&be16(ins.len() as u16));
    g.extend_from_slice(ins);
    g.extend_from_slice(&[0x31, 0x33, 0x26]);
    g.extend_from_slice(&[100, 50]);
    g.extend_from_slice(&[200]);
    g
}

fn triangle(ins: &[u8]) -> Glyph {
    Glyph::Simple(SimpleGlyph {
        bounds: Bounds { x_min: 0, x_max: 100, y_min: 0, y_max: 200 },
        end_pts: vec![2],
        points: vec![
            GlyphPoint { x: 0, y: 0, on_curve: true },
            GlyphPoint { x: 100, y: 0, on_curve: true },
            GlyphPoint { x: 50, y: 200, on_curve: false },
        ],
        instructions: ins.to_vec(),
    })
}

/// A composite of glyph 0 twice: at an offset in bytes, and by points in
/// words with a scale.
fn composite_bytes() -> Vec<u8> {
    let mut g = header(-1, [0, -5, 300, 200]);
    // ARGS_ARE_XY_VALUES | MORE_COMPONENTS | WE_HAVE_INSTRUCTIONS
    g.extend_from_slice(&be16(0x0002 | 0x0020 | 0x0100));
    g.extend_from_slice(&be16(0));
    g.extend_from_slice(&[10, 0xF6]);
    // ARG_1_AND_2_ARE_WORDS | WE_HAVE_A_SCALE
    g.extend_from_slice(&be16(0x0001 | 0x0008));
    g.extend_from_slice(&be16(0));
    g.extend_from_slice(&be16(1));
    g.extend_from_slice(&be16(0));
    g.extend_from_slice(&be16(0x2000));
    g.extend_from_slice(&be16(2));
    g.extend_from_slice(&[0xAA, 0xBB]);
    g
}

fn composite() -> Glyph {
    Glyph::Composite(CompositeGlyph {
        bounds: Bounds { x_min: 0, y_min: -5, x_max: 300, y_max: 200 },
        components: vec![
            Component {
                flags: CompositeGlyphFlags::from_bits(0x0122),
                glyph: 0,
                anchor: Anchor::Offset { x: 10, y: -10 },
                transform: Transform { xx: 0x4000, yx: 0, xy: 0, yy: 0x4000 },
            },
            Component {
                flags: CompositeGlyphFlags::from_bits(0x0009),
                glyph: 0,
                anchor: Anchor::Point { base: 1, component: 0 },
                transform: Transform { xx: 0x2000, yx: 0, xy: 0, yy: 0x2000 },
            },
        ],
        instructions: vec![0xAA, 0xBB],
    })
}

#[test]
fn simple_glyph_is_decoded_from_flags_and_deltas() {
    assert_eq!(read_glyph(&triangle_bytes(&[])), Some(triangle(&[])));
    assert_eq!(read_glyph(&triangle_bytes(&[1, 2, 3])), Some(triangle(&[1, 2, 3])));
}

#[test]
fn repeated_flags_and_long_deltas_are_decoded() {
    let mut g = header(2, [-300, -1, 300, 1]);
    g.extend_from_slice(&be16(1));
    g.extend_from_slice(&be16(3));
    g.extend_from_slice(&be16(0));
    // Four points with the same flags: long x, same y, on the curve.
    g.extend_from_slice(&[0x01 | 0x20 | 0x08, 3]);
    for dx in [300i16, -600, 1, -1] {
        g.extend_from_slice(&dx.to_be_bytes());
    }
    let glyph = read_glyph(&g).unwrap();
    match glyph {
        Glyph::Simple(s) => {
            assert_eq!(s.end_pts, vec![1, 3]);
            let xs: Vec<i16> = s.points.iter().map(|p| p.x).collect();
            let ys: Vec<i16> = s.points.iter().map(|p| p.y).collect();
            assert_eq!(xs, vec![300, -300, -299, -300]);
            assert_eq!(ys, vec![0, 0, 0, 0]);
            assert!(s.points.iter().all(|p| p.on_curve));
            assert!(s.check());
        }
        _ => panic!("not a simple glyph"),
    }
}

#[test]
fn glyph_without_contours_has_no_points() {
    let mut g = header(0, [0, 0, 0, 0]);
    g.extend_from_slice(&be16(0));
    match read_glyph(&g) {
        Some(Glyph::Simple(s)) => {
            assert!(s.end_pts.is_empty());
            assert!(s.points.is_empty());
        }
        other => panic!("{:?}", other),
    }
}

#[test]
fn glyphs_cut_short_are_not_read() {
    let whole = triangle_bytes(&[9]);
    for len in 0..whole.len() {
        assert_eq!(read_glyph(&whole[..len]), None, "length {}", len);
    }
    let whole = composite_bytes();
    // Without the program a composite is still whole.
    for len in 0..whole.len() - 4 {
        assert_eq!(read_glyph(&whole[..len]), None, "length {}", len);
    }
    // A repeat count without its byte.
    let mut g = header(1, [0, 0, 0, 0]);
    g.extend_from_slice(&be16(0));
    g.extend_from_slice(&be16(0));
    g.push(0x08 | 0x30);
    assert_eq!(read_glyph(&g), None);
}

#[test]
fn composite_glyph_is_decoded() {
    assert_eq!(read_glyph(&composite_bytes()), Some(composite()));
    // A program that is cut short is left out.
    let bytes = composite_bytes();
    let cut = &bytes[..bytes.len() - 1];
    match read_glyph(cut) {
        Some(Glyph::Composite(c)) => {
            assert_eq!(c.components.len(), 2);
            assert!(c.instructions.is_empty());
        }
        other => panic!("{:?}", other),
    }
}

#[test]
fn composite_with_a_matrix_and_words() {
    let mut g = header(-1, [0, 0, 0, 0]);
    // ARG_1_AND_2_ARE_WORDS | ARGS_ARE_XY_VALUES | WE_HAVE_A_TWO_BY_TWO
    g.extend_from_slice(&be16(0x0001 | 0x0002 | 0x0080));
    g.extend_from_slice(&be16(7));
    g.extend_from_slice(&(-300i16).to_be_bytes());
    g.extend_from_slice(&be16(400));
    for v in [1i16, -2, 3, -4] {
        g.extend_from_slice(&v.to_be_bytes());
    }
    match read_glyph(&g) {
        Some(Glyph::Composite(c)) => {
            assert_eq!(c.components.len(), 1);
            assert_eq!(c.components[0].glyph, 7);
            assert_eq!(c.components[0].anchor, Anchor::Offset { x: -300, y: 400 });
            assert_eq!(c.components[0].transform, Transform { xx: 1, yx: -2, xy: 3, yy: -4 });
        }
        other => panic!("{:?}", other),
    }
    // Two scales.
    let mut g = header(-1, [0, 0, 0, 0]);
    g.extend_from_slice(&be16(0x0040));
    g.extend_from_slice(&be16(7));
    g.extend_from_slice(&[200, 3]);
    g.extend_from_slice(&be16(0x1000));
    g.extend_from_slice(&be16(0x3000));
    match read_glyph(&g) {
        Some(Glyph::Composite(c)) => {
            assert_eq!(c.components[0].anchor, Anchor::Point { base: 200, component: 3 });
            assert_eq!(
                c.components[0].transform,
                Transform { xx: 0x1000, yx: 0, xy: 0, yy: 0x3000 }
            );
        }
        other => panic!("{:?}", other),
    }
}

fn pad(mut table: Vec<u8>) -> Vec<u8> {
    while table.len() % 4 != 0 {
        table.push(0);
    }
    table
}

struct Tables {
    head: Vec<u8>,
    maxp: Vec<u8>,
    hhea: Vec<u8>,
    hmtx: Vec<u8>,
    loca: Vec<u8>,
    glyf: Vec<u8>,
    cvt: Vec<u8>,
}

fn tables() -> Tables {
    let mut head = vec![0u8; 54];
    head[18..20].copy_from_slice(&be16(2048));
    let mut maxp = vec![0u8; 32];
    maxp[0..4].copy_from_slice(&0x0001_0000u32.to_be_bytes());
    maxp[4..6].copy_from_slice(&be16(4));
    maxp[16..18].copy_from_slice(&be16(16));
    maxp[18..20].copy_from_slice(&be16(64));
    maxp[20..22].copy_from_slice(&be16(10));
    maxp[22..24].copy_from_slice(&be16(1));
    maxp[24..26].copy_from_slice(&be16(256));
    let mut hhea = vec![0u8; 36];
    hhea[34..36].copy_from_slice(&be16(2));
    let mut hmtx = vec![];
    for (advance, lsb) in [(500u16, 0i16), (600, -20)] {
        hmtx.extend_from_slice(&be16(advance));
        hmtx.extend_from_slice(&lsb.to_be_bytes());
    }
    for lsb in [7i16, -8] {
        hmtx.extend_from_slice(&lsb.to_be_bytes());
    }
    // Glyph 0 a triangle, glyph 1 empty, glyph 2 a composite, glyph 3 cut
    // short.
    let g0 = pad(triangle_bytes(&[]));
    let g2 = pad(composite_bytes());
    let mut glyf = vec![];
    let mut loca = vec![];
    loca.extend_from_slice(&be16(0));
    glyf.extend_from_slice(&g0);
    loca.extend_from_slice(&be16((glyf.len() / 2) as u16));
    loca.extend_from_slice(&be16((glyf.len() / 2) as u16));
    glyf.extend_from_slice(&g2);
    loca.extend_from_slice(&be16((glyf.len() / 2) as u16));
    glyf.extend_from_slice(&[0, 1, 0, 0]);
    loca.extend_from_slice(&be16((glyf.len() / 2) as u16));
    let cvt = vec![0, 100, 0xFF, 0xF9];
    Tables { head, maxp, hhea, hmtx, loca, glyf, cvt }
}

fn font_bytes(t: &Tables, version: u32) -> Vec<u8> {
    let list: Vec<(&[u8; 4], &Vec<u8>)> = vec![
        (b"cvt ", &t.cvt),
        (b"glyf", &t.glyf),
        (b"head", &t.head),
        (b"hhea", &t.hhea),
        (b"hmtx", &t.hmtx),
        (b"loca", &t.loca),
        (b"maxp", &t.maxp),
    ];
    let mut font = version.to_be_bytes().to_vec();
    font.extend_from_slice(&be16(list.len() as u16));
    font.extend_from_slice(&[0; 6]);
    let mut offset = 12 + 16 * list.len();
    let mut body = vec![];
    for (tag, data) in &list {
        font.extend_from_slice(*tag);
        font.extend_from_slice(&[0; 4]);
        font.extend_from_slice(&(offset as u32).to_be_bytes());
        font.extend_from_slice(&(data.len() as u32).to_be_bytes());
        body.extend_from_slice(data);
        offset += data.len();
    }
    font.extend_from_slice(&body);
    font
}

fn expected_binding() -> LoaderFont {
    LoaderFont {
        glyphs: vec![
            GlyphRecord::Outline(triangle(&[])),
            GlyphRecord::Empty,
            GlyphRecord::Outline(composite()),
            GlyphRecord::Missing,
        ],
        h_metrics: vec![
            LongMetric { advance_width: 500, lsb: 0 },
            LongMetric { advance_width: 600, lsb: -20 },
        ],
        left_side_bearings: vec![7, -8],
        fpgm: vec![],
        prep: vec![],
        cvt: vec![100, -7],
        units_per_em: 2048,
        glyph_count: 4,
        max_storage: 64,
        max_stack: 256,
        max_function_defs: 10,
        max_instruction_defs: 1,
        max_twilight: 16,
        axis_count: 0,
    }
}

#[test]
fn font_file_serves_its_tables() {
    let t = tables();
    let bytes = font_bytes(&t, 0x0001_0000);
    let font = FontRef::new(&bytes).unwrap();
    assert_eq!(font.num_tables(), 7);
    assert_eq!(font.table(b"head"), Some(&t.head[..]));
    assert_eq!(font.table(b"cvt "), Some(&t.cvt[..]));
    assert_eq!(font.table(b"fpgm"), None);
    assert_eq!(font.data_for_tag(Tag::new(b"hmtx")), Some(&t.hmtx[..]));
    assert_eq!(font.data_for_tag(Tag::new(b"cvt")), Some(&t.cvt[..]));
    assert_eq!(font.data_for_tag(TableTag::Glyf.tag()), Some(&t.glyf[..]));
    assert_eq!(font.data_for_tag(TableTag::Prep.tag()), None);
    assert_eq!(TableTag::Cvt.tag(), Tag::new(b"cvt "));
    assert_eq!(TableTag::Maxp.bytes(), *b"maxp");
    assert_eq!(expect_data_for_tag(&font, Tag::new(b"loca")), Ok(&t.loca[..]));
    assert_eq!(
        expect_data_for_tag(&font, Tag::new(b"GPOS")),
        Err(ReadError::TableIsMissing)
    );
    assert_eq!(expect_table(Some(&[1, 2])), Ok(&[1u8, 2][..]));
    assert_eq!(expect_table(None), Err(ReadError::TableIsMissing));
    assert!(name(&font).is_err());
    assert_eq!(read_name(None).err(), Some(ReadError::TableIsMissing));
    assert_eq!(read_name(Some(&[0, 0])).err(), Some(ReadError::OutOfBounds));
    assert!(read_name(Some(&[0, 0, 0, 0, 0, 6])).is_ok());
}

/// Serves the same bytes for every tag.
struct OneTable(Vec<u8>);

impl TableProvider for OneTable {
    fn data_for_tag(&self, _tag: Tag) -> Option<&[u8]> {
        Some(&self.0)
    }
}

/// Serves nothing.
struct NoTable;

impl TableProvider for NoTable {
    fn data_for_tag(&self, _tag: Tag) -> Option<&[u8]> {
        None
    }
}

#[test]
fn what_a_provider_serves_is_what_is_read() {
    let naming = OneTable(vec![0, 0, 0, 0, 0, 6]);
    assert_eq!(name(&naming).unwrap().storage_offset().to_u32(), 6);
    assert_eq!(expect_data_for_tag(&naming, Tag::new(b"abcd")), Ok(&naming.0[..]));
    assert_eq!(name(&OneTable(vec![0, 0])).err(), Some(ReadError::OutOfBounds));
    assert_eq!(name(&NoTable).err(), Some(ReadError::TableIsMissing));
    assert_eq!(
        expect_data_for_tag(&NoTable, Tag::new(b"head")),
        Err(ReadError::TableIsMissing)
    );
    assert_eq!(LoaderFont::new(&NoTable), None);
    // Bytes that are too short for a font header make no binding.
    assert_eq!(LoaderFont::new(&naming), None);
}

#[test]
fn bytes_that_are_no_font_are_refused() {
    let t = tables();
    let bytes = font_bytes(&t, 0x0001_0000);
    assert!(FontRef::new(&bytes[..11]).is_none());
    assert!(FontRef::new(&bytes[..12 + 16 * 7 - 1]).is_none());
    assert!(FontRef::new(&bytes[..12 + 16 * 7]).is_some());
    assert!(FontRef::new(&font_bytes(&t, 0x4F54_544F)).is_some());
    assert!(FontRef::new(&font_bytes(&t, 0x7474_6366)).is_none());
    // A table that leaves the file is not served.
    let cut = &bytes[..bytes.len() - 1];
    let font = FontRef::new(cut).unwrap();
    assert_eq!(font.table(b"maxp"), None);
    assert!(font.table(b"loca").is_some());
}

#[test]
fn binding_is_made_of_the_tables() {
    let t = tables();
    let bytes = font_bytes(&t, 0x0001_0000);
    let font = FontRef::new(&bytes).unwrap();
    assert_eq!(LoaderFont::from_font(&font), Some(expected_binding()));
    assert_eq!(LoaderFont::new(&font), Some(expected_binding()));
}

fn from_tables(t: &Tables, keep: [bool; 6]) -> Option<LoaderFont> {
    let pick = |i: usize, data: &'static str, bytes: &Vec<u8>| -> Option<Vec<u8>> {
        let _ = data;
        if keep[i] {
            Some(bytes.clone())
        } else {
            None
        }
    };
    let head = pick(0, "head", &t.head);
    let maxp = pick(1, "maxp", &t.maxp);
    let hhea = pick(2, "hhea", &t.hhea);
    let hmtx = pick(3, "hmtx", &t.hmtx);
    let loca = pick(4, "loca", &t.loca);
    let glyf = pick(5, "glyf", &t.glyf);
    LoaderFont::from_tables(&FontTables {
        head: head.as_deref(),
        maxp: maxp.as_deref(),
        hhea: hhea.as_deref(),
        hmtx: hmtx.as_deref(),
        loca: loca.as_deref(),
        glyf: glyf.as_deref(),
        fpgm: Some(&[1, 2]),
        prep: Some(&[3]),
        cvt: None,
    })
}

#[test]
fn binding_needs_six_tables() {
    let t = tables();
    let all = from_tables(&t, [true; 6]).unwrap();
    assert_eq!(all.fpgm, vec![1, 2]);
    assert_eq!(all.prep, vec![3]);
    assert!(all.cvt.is_empty());
    for missing in 0..6 {
        let mut keep = [true; 6];
        keep[missing] = false;
        assert_eq!(from_tables(&t, keep), None, "table {}", missing);
    }
    let mut short = tables();
    short.head.pop();
    assert_eq!(from_tables(&short, [true; 6]), None);
    let mut short = tables();
    short.hmtx.pop();
    assert_eq!(from_tables(&short, [true; 6]), None);
    let mut short = tables();
    short.maxp.truncate(31);
    assert_eq!(from_tables(&short, [true; 6]), None);
    let mut short = tables();
    short.hhea.truncate(35);
    assert_eq!(from_tables(&short, [true; 6]), None);
}

#[test]
fn tables_are_read_field_by_field() {
    let t = tables();
    assert_eq!(
        Head::read(&t.head),
        Some(Head { units_per_em: 2048, index_to_loc_format: 0 })
    );
    let mut long = t.head.clone();
    long[51] = 1;
    assert!(Head::read(&long).unwrap().long_offsets());
    assert_eq!(
        Maxp::read(&t.maxp),
        Some(Maxp {
            num_glyphs: 4,
            limits: Some(HintLimits {
                max_twilight_points: 16,
                max_storage: 64,
                max_function_defs: 10,
                max_instruction_defs: 1,
                max_stack_elements: 256,
            }),
        })
    );
    // Version 0.5 has the number of glyphs only.
    assert_eq!(
        Maxp::read(&[0, 0, 0x50, 0, 1, 2]),
        Some(Maxp { num_glyphs: 258, limits: None })
    );
    assert_eq!(Maxp::read(&[0, 0, 0x50, 0, 1]), None);
    assert_eq!(number_of_h_metrics(&t.hhea), Some(2));
    assert_eq!(
        Hmtx::read(&t.hmtx, 2, 4),
        Some(Hmtx {
            h_metrics: vec![
                LongMetric { advance_width: 500, lsb: 0 },
                LongMetric { advance_width: 600, lsb: -20 },
            ],
            left_side_bearings: vec![7, -8],
        })
    );
    // More long records than glyphs: no bearings follow.
    assert_eq!(Hmtx::read(&t.hmtx[..8], 2, 1).unwrap().left_side_bearings, Vec::<i16>::new());
    assert_eq!(Hmtx::read(&t.hmtx, 2, 5), None);
    assert_eq!(read_cvt(&[0, 1, 0x80, 0, 9]), vec![1, -32768]);
}

#[test]
fn offsets_to_the_glyphs_are_short_or_long() {
    assert_eq!(get_range(&[0, 1, 0, 5], false, 0), Some((2, 10)));
    assert_eq!(get_range(&[0, 1, 0, 5], false, 1), None);
    assert_eq!(get_range(&[0, 5, 0, 1], false, 0), None);
    assert_eq!(get_range(&[0, 0, 0, 1, 0, 1, 0, 5], true, 0), Some((1, 65541)));
    assert_eq!(get_range(&[0, 0, 0, 1, 0, 1, 0, 5, 9], true, 0), Some((1, 65541)));
    assert_eq!(get_range(&[0, 0, 0, 1, 0, 1, 0], true, 0), None);
    let t = tables();
    assert_eq!(read_records(&t.glyf, &t.loca, false), expected_binding().glyphs);
    assert_eq!(read_record(&t.glyf, &t.loca, false, 1), GlyphRecord::Empty);
    assert_eq!(read_record(&t.glyf, &t.loca, false, 4), GlyphRecord::Missing);
    // A range that leaves the outlines.
    assert_eq!(read_record(&t.glyf[..4], &t.loca, false, 0), GlyphRecord::Missing);
    assert!(read_records(&t.glyf, &[], false).is_empty());
    assert!(read_records(&t.glyf, &[0, 0], false).is_empty());
}

#[test]
fn glyphs_load_from_a_font_file() {
    let t = tables();
    let bytes = font_bytes(&t, 0x0001_0000);
    let font = FontRef::new(&bytes).unwrap();
    let binding = LoaderFont::new(&font).unwrap();
    let mut state = LoaderState::new(&binding, None, &[], 0, None);
    let mut loader = Loader::new();
    let triangle = loader.load(&mut state, GlyphId::new(0)).unwrap();
    let xy: Vec<(i32, i32)> = triangle.points.iter().map(|p| (p.x, p.y)).collect();
    assert_eq!(xy, vec![(0, 0), (100, 0), (50, 200)]);
    assert!(loader.load(&mut state, GlyphId::new(1)).unwrap().points.is_empty());
    let both = loader.load(&mut state, GlyphId::new(2)).unwrap();
    let xy: Vec<(i32, i32)> = both.points.iter().map(|p| (p.x, p.y)).collect();
    // The second component is halved and its first point put on point 1;
    // the glyph's left side bearing of 7 moves the origin.
    assert_eq!(xy, vec![(17, -10), (117, -10), (67, 190), (117, -10), (167, -10), (142, 90)]);
    assert_eq!(both.contours, vec![2, 5]);
    // The glyph that is cut short cannot be loaded.
    assert!(loader.load(&mut state, GlyphId::new(3)).is_none());
    assert!(loader.load(&mut state, GlyphId::new(4)).is_none());
}
