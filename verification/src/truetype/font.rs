//! The tables and limits that loading, scaling and hinting a glyph need.

use super::glyf::Glyph;
use crate::font_ref::FontRef;
use crate::read::{copy_range, i16_at};
use crate::table_provider::{TableProvider, TableTag};
use crate::tables::cvt::read_cvt;
use crate::tables::glyf::{read_records, record_count, record_of, record_parts};
use crate::tables::head::{head_of, Head};
use crate::tables::hmtx::{
    bearing_count, is_hmtx, long_metric_at, number_of_h_metrics, number_of_h_metrics_of, Hmtx,
};
use crate::tables::maxp::{maxp_of, Maxp};
use super::math::{spec_mul, wrap_to_i32};
use vstd::prelude::*;

verus! {

/// One record of the horizontal metrics: advance width and left side
/// bearing of a glyph, in font units.
#[derive(Copy, Clone, PartialEq, Eq, Structural, Debug)]
pub struct LongMetric {
    pub advance_width: u16,
    pub lsb: i16,
}

/// What the font holds of one glyph.
#[derive(Clone, PartialEq, Eq, Debug)]
pub enum GlyphRecord {
    /// Nothing that can be read.
    Missing,
    /// An empty glyph: it has no outline.
    Empty,
    /// The glyph's outline.
    Outline(Glyph),
}

/// Contains the tables and limits necessary for loading, scaling and hinting
/// a TrueType glyph.
#[derive(Clone, PartialEq, Eq, Debug)]
pub struct LoaderFont {
    /// The glyph records by glyph id.
    pub glyphs: Vec<GlyphRecord>,
    /// The long records of the horizontal metrics.
    pub h_metrics: Vec<LongMetric>,
    /// The left side bearings of the glyphs that have no long record.
    pub left_side_bearings: Vec<i16>,
    /// The font program.
    pub fpgm: Vec<u8>,
    /// The control value program.
    pub prep: Vec<u8>,
    /// The control values.
    pub cvt: Vec<i16>,
    pub units_per_em: u16,
    pub glyph_count: u16,
    pub max_storage: u16,
    pub max_stack: u16,
    pub max_function_defs: u16,
    pub max_instruction_defs: u16,
    pub max_twilight: u16,
    pub axis_count: u16,
}

/// The bytes of the tables that a font binding is made of, each as far as
/// the font has it.
pub struct FontTables<'a> {
    pub head: Option<&'a [u8]>,
    pub maxp: Option<&'a [u8]>,
    pub hhea: Option<&'a [u8]>,
    pub hmtx: Option<&'a [u8]>,
    pub loca: Option<&'a [u8]>,
    pub glyf: Option<&'a [u8]>,
    pub fpgm: Option<&'a [u8]>,
    pub prep: Option<&'a [u8]>,
    pub cvt: Option<&'a [u8]>,
}

/// The bytes of the tables that a font binding is made of, each as far as
/// the font has it.
pub struct TableBytes {
    pub head: Option<Seq<u8>>,
    pub maxp: Option<Seq<u8>>,
    pub hhea: Option<Seq<u8>>,
    pub hmtx: Option<Seq<u8>>,
    pub loca: Option<Seq<u8>>,
    pub glyf: Option<Seq<u8>>,
    pub fpgm: Option<Seq<u8>>,
    pub prep: Option<Seq<u8>>,
    pub cvt: Option<Seq<u8>>,
}

/// The bytes of a table, none where the font does not have it.
pub open spec fn bytes_or_empty(table: Option<Seq<u8>>) -> Seq<u8> {
    match table {
        Some(bytes) => bytes,
        None => Seq::empty(),
    }
}

/// The bytes of a table as far as the font has it.
pub open spec fn table_view(table: Option<&[u8]>) -> Option<Seq<u8>> {
    match table {
        Some(bytes) => Some(bytes@),
        None => None,
    }
}

impl<'a> FontTables<'a> {
    /// The bytes of the tables.
    pub open spec fn view(&self) -> TableBytes {
        TableBytes {
            head: table_view(self.head),
            maxp: table_view(self.maxp),
            hhea: table_view(self.hhea),
            hmtx: table_view(self.hmtx),
            loca: table_view(self.loca),
            glyf: table_view(self.glyf),
            fpgm: table_view(self.fpgm),
            prep: table_view(self.prep),
            cvt: table_view(self.cvt),
        }
    }
}

impl TableBytes {
    /// Holds when the tables that a binding cannot do without are there and
    /// whole: the font header, the maximum profile, the horizontal header
    /// and metrics, the offsets to the glyphs and the outlines.
    pub open spec fn suffice(&self) -> bool {
        &&& self.head matches Some(head) && head_of(head).is_some()
        &&& self.maxp matches Some(maxp) && maxp_of(maxp).is_some()
        &&& self.hhea matches Some(hhea) && number_of_h_metrics_of(hhea).is_some()
        &&& self.hmtx matches Some(hmtx) && is_hmtx(
            hmtx,
            number_of_h_metrics_of(bytes_or_empty(self.hhea)).unwrap(),
            maxp_of(bytes_or_empty(self.maxp)).unwrap().num_glyphs,
        )
        &&& self.loca.is_some()
        &&& self.glyf.is_some()
    }

    /// The font header.
    pub open spec fn spec_head(&self) -> Head {
        head_of(bytes_or_empty(self.head)).unwrap()
    }

    /// The maximum profile.
    pub open spec fn spec_maxp(&self) -> Maxp {
        maxp_of(bytes_or_empty(self.maxp)).unwrap()
    }

    /// The number of long records of the horizontal metrics.
    pub open spec fn spec_long_count(&self) -> u16 {
        number_of_h_metrics_of(bytes_or_empty(self.hhea)).unwrap()
    }
}

/// The outline of glyph `gid` in `glyphs`: nothing where the font has no
/// record for it that can be read, else `None` for an empty glyph or the
/// glyph's outline.
pub open spec fn glyph_record(glyphs: Seq<GlyphRecord>, gid: u16) -> Option<Option<Glyph>> {
    if gid < glyphs.len() {
        match glyphs[gid as int] {
            GlyphRecord::Missing => None,
            GlyphRecord::Empty => Some(None),
            GlyphRecord::Outline(glyph) => Some(Some(glyph)),
        }
    } else {
        None
    }
}

/// The advance width of glyph `gid`: that of its long record, else that of
/// the last long record, else zero.
pub open spec fn advance_width_of(h_metrics: Seq<LongMetric>, gid: u16) -> u16 {
    if gid < h_metrics.len() {
        h_metrics[gid as int].advance_width
    } else if h_metrics.len() > 0 {
        h_metrics.last().advance_width
    } else {
        0
    }
}

/// The left side bearing of glyph `gid`: that of its long record, else its
/// entry in the table of bearings that follows the long records, else zero.
pub open spec fn lsb_of(h_metrics: Seq<LongMetric>, bearings: Seq<i16>, gid: u16) -> i16 {
    if gid < h_metrics.len() {
        h_metrics[gid as int].lsb
    } else if gid - h_metrics.len() < bearings.len() {
        bearings[gid - h_metrics.len()]
    } else {
        0
    }
}

/// A control value in 26.6 under the scale `scale`, of which the part above
/// its six lowest bits is a 16.16 factor; without a scale, the value itself.
pub open spec fn scaled_cvt_value(value: i32, scale: Option<i32>) -> i32 {
    match scale {
        Some(s) => spec_mul(value, (s as int / 64) as i32),
        None => value,
    }
}

/// `x` shifted right by six bits: the largest integer that is at most
/// `x / 64`.
fn shift_right_6(x: i32) -> (r: i32)
    ensures
        r == x as int / 64,
{
    let lifted: u64 = (x as i64 + 0x8000_0000) as u64;
    (((lifted / 64) as i64) - 0x200_0000) as i32
}

/// The tables of a font file that a binding is made of.
pub open spec fn tables_of(font: FontRef<'_>) -> TableBytes {
    TableBytes {
        head: font.spec_table(TableTag::Head.spec_bytes()),
        maxp: font.spec_table(TableTag::Maxp.spec_bytes()),
        hhea: font.spec_table(TableTag::Hhea.spec_bytes()),
        hmtx: font.spec_table(TableTag::Hmtx.spec_bytes()),
        loca: font.spec_table(TableTag::Loca.spec_bytes()),
        glyf: font.spec_table(TableTag::Glyf.spec_bytes()),
        fpgm: font.spec_table(TableTag::Fpgm.spec_bytes()),
        prep: font.spec_table(TableTag::Prep.spec_bytes()),
        cvt: font.spec_table(TableTag::Cvt.spec_bytes()),
    }
}

impl LoaderFont {
    /// Holds when the binding is the one that `tables` make.
    pub open spec fn made_of(&self, tables: TableBytes) -> bool {
        let hmtx = bytes_or_empty(tables.hmtx);
        let loca = bytes_or_empty(tables.loca);
        let long = tables.spec_head().index_to_loc_format == 1;
        let limits = tables.spec_maxp().limits;
        &&& self.units_per_em == tables.spec_head().units_per_em
        &&& self.glyph_count == tables.spec_maxp().num_glyphs
        &&& self.axis_count == 0
        &&& match limits {
            Some(l) => {
                &&& self.max_storage == l.max_storage
                &&& self.max_stack == l.max_stack_elements
                &&& self.max_function_defs == l.max_function_defs
                &&& self.max_instruction_defs == l.max_instruction_defs
                &&& self.max_twilight == l.max_twilight_points
            },
            None => {
                &&& self.max_storage == 0
                &&& self.max_stack == 0
                &&& self.max_function_defs == 0
                &&& self.max_instruction_defs == 0
                &&& self.max_twilight == 0
            },
        }
        &&& self.fpgm@ == bytes_or_empty(tables.fpgm)
        &&& self.prep@ == bytes_or_empty(tables.prep)
        &&& self.cvt@.len() == bytes_or_empty(tables.cvt).len() / 2
        &&& forall|i: int|
            0 <= i < self.cvt@.len() ==> (#[trigger] self.cvt@[i]) == i16_at(
                bytes_or_empty(tables.cvt),
                2 * i,
            )
        &&& self.h_metrics@.len() == tables.spec_long_count()
        &&& forall|i: int|
            0 <= i < self.h_metrics@.len() ==> (#[trigger] self.h_metrics@[i]) == long_metric_at(
                hmtx,
                i,
            )
        &&& self.left_side_bearings@.len() == bearing_count(
            tables.spec_long_count(),
            tables.spec_maxp().num_glyphs,
        )
        &&& forall|i: int|
            0 <= i < self.left_side_bearings@.len() ==> (#[trigger] self.left_side_bearings@[i])
                == i16_at(hmtx, 4 * tables.spec_long_count() + 2 * i)
        &&& self.glyphs@.len() == record_count(loca, long)
        &&& forall|i: int|
            0 <= i < self.glyphs@.len() ==> record_parts(#[trigger] self.glyphs@[i]) == record_of(
                bytes_or_empty(tables.glyf),
                loca,
                long,
                i,
            )
    }

    /// Makes the binding of a font from the bytes of its tables. Fails
    /// where one of the tables that a binding cannot do without is missing
    /// or cut short. The programs and control values are optional; a glyph
    /// that cannot be read does not fail the binding.
    pub fn from_tables(tables: &FontTables<'_>) -> (r: Option<LoaderFont>)
        ensures
            r.is_some() == tables@.suffice(),
            r matches Some(font) ==> font.made_of(tables@),
    {
        let head = match tables.head {
            Some(bytes) => match Head::read(bytes) {
                Some(head) => head,
                None => {
                    return None;
                },
            },
            None => {
                return None;
            },
        };
        let maxp = match tables.maxp {
            Some(bytes) => match Maxp::read(bytes) {
                Some(maxp) => maxp,
                None => {
                    return None;
                },
            },
            None => {
                return None;
            },
        };
        let long_count = match tables.hhea {
            Some(bytes) => match number_of_h_metrics(bytes) {
                Some(n) => n,
                None => {
                    return None;
                },
            },
            None => {
                return None;
            },
        };
        let hmtx = match tables.hmtx {
            Some(bytes) => match Hmtx::read(bytes, long_count, maxp.num_glyphs) {
                Some(hmtx) => hmtx,
                None => {
                    return None;
                },
            },
            None => {
                return None;
            },
        };
        let loca = match tables.loca {
            Some(bytes) => bytes,
            None => {
                return None;
            },
        };
        let glyf = match tables.glyf {
            Some(bytes) => bytes,
            None => {
                return None;
            },
        };
        let glyphs = read_records(glyf, loca, head.long_offsets());
        let fpgm = match tables.fpgm {
            Some(bytes) => copy_range(bytes, 0, bytes.len()),
            None => Vec::new(),
        };
        let prep = match tables.prep {
            Some(bytes) => copy_range(bytes, 0, bytes.len()),
            None => Vec::new(),
        };
        let cvt = match tables.cvt {
            Some(bytes) => read_cvt(bytes),
            None => Vec::new(),
        };
        assert(fpgm@ =~= bytes_or_empty(tables@.fpgm));
        assert(prep@ =~= bytes_or_empty(tables@.prep));
        let (max_storage, max_stack, max_function_defs, max_instruction_defs, max_twilight) =
            match maxp.limits {
            Some(l) => (
                l.max_storage,
                l.max_stack_elements,
                l.max_function_defs,
                l.max_instruction_defs,
                l.max_twilight_points,
            ),
            None => (0, 0, 0, 0, 0),
        };
        Some(
            LoaderFont {
                glyphs,
                h_metrics: hmtx.h_metrics,
                left_side_bearings: hmtx.left_side_bearings,
                fpgm,
                prep,
                cvt,
                units_per_em: head.units_per_em,
                glyph_count: maxp.num_glyphs,
                max_storage,
                max_stack,
                max_function_defs,
                max_instruction_defs,
                max_twilight,
                axis_count: 0,
            },
        )
    }

    /// Makes the binding of a font file. Fails where the file lacks one of
    /// the tables that a binding cannot do without, or has it cut short.
    pub fn from_font(font: &FontRef<'_>) -> (r: Option<LoaderFont>)
        ensures
            r.is_some() == tables_of(*font).suffice(),
            r matches Some(binding) ==> binding.made_of(tables_of(*font)),
    {
        let tables = FontTables {
            head: font.table(&TableTag::Head.bytes()),
            maxp: font.table(&TableTag::Maxp.bytes()),
            hhea: font.table(&TableTag::Hhea.bytes()),
            hmtx: font.table(&TableTag::Hmtx.bytes()),
            loca: font.table(&TableTag::Loca.bytes()),
            glyf: font.table(&TableTag::Glyf.bytes()),
            fpgm: font.table(&TableTag::Fpgm.bytes()),
            prep: font.table(&TableTag::Prep.bytes()),
            cvt: font.table(&TableTag::Cvt.bytes()),
        };
        assert(tables@ == tables_of(*font));
        LoaderFont::from_tables(&tables)
    }

    /// Makes the binding of a font from the tables that `font` serves:
    /// what [`LoaderFont::from_tables`] makes of them. Fails where what it
    /// serves for one of the tables that a binding cannot do without is
    /// missing or cut short. Whatever the font serves, a binding that is
    /// handed out is made of tables that suffice.
    pub fn new<T: TableProvider>(font: &T) -> (r: Option<LoaderFont>)
        ensures
            r matches Some(binding) ==> exists|tables: TableBytes| #[trigger]
                tables.suffice() && binding.made_of(tables),
    {
        let tables = FontTables {
            head: font.data_for_tag(TableTag::Head.tag()),
            maxp: font.data_for_tag(TableTag::Maxp.tag()),
            hhea: font.data_for_tag(TableTag::Hhea.tag()),
            hmtx: font.data_for_tag(TableTag::Hmtx.tag()),
            loca: font.data_for_tag(TableTag::Loca.tag()),
            glyf: font.data_for_tag(TableTag::Glyf.tag()),
            fpgm: font.data_for_tag(TableTag::Fpgm.tag()),
            prep: font.data_for_tag(TableTag::Prep.tag()),
            cvt: font.data_for_tag(TableTag::Cvt.tag()),
        };
        let r = LoaderFont::from_tables(&tables);
        assert(r.is_some() ==> tables@.suffice() && r.unwrap().made_of(tables@));
        r
    }

    /// The record of glyph `gid`.
    pub open spec fn spec_glyph(&self, gid: u16) -> Option<Option<Glyph>> {
        glyph_record(self.glyphs@, gid)
    }

    /// The advance width of glyph `gid`.
    pub open spec fn spec_advance_width(&self, gid: u16) -> u16 {
        advance_width_of(self.h_metrics@, gid)
    }

    /// The left side bearing of glyph `gid`.
    pub open spec fn spec_lsb(&self, gid: u16) -> i16 {
        lsb_of(self.h_metrics@, self.left_side_bearings@, gid)
    }

    /// Looks up the outline of glyph `gid`. The outer `None` says that the
    /// font has no record for the glyph that can be read, the inner one that
    /// the glyph is empty.
    pub fn glyph(&self, gid: u16) -> (r: Option<Option<&Glyph>>)
        ensures
            match r {
                None => self.spec_glyph(gid).is_none(),
                Some(None) => self.spec_glyph(gid) == Some(None::<Glyph>),
                Some(Some(g)) => self.spec_glyph(gid) == Some(Some(*g)),
            },
    {
        let i = gid as usize;
        if i < self.glyphs.len() {
            match &self.glyphs[i] {
                GlyphRecord::Missing => None,
                GlyphRecord::Empty => Some(None),
                GlyphRecord::Outline(glyph) => Some(Some(glyph)),
            }
        } else {
            None
        }
    }

    /// The advance width of glyph `gid`, in font units.
    pub fn advance_width(&self, gid: u16) -> (r: u16)
        ensures
            r == self.spec_advance_width(gid),
    {
        let i = gid as usize;
        let n = self.h_metrics.len();
        if i < n {
            self.h_metrics[i].advance_width
        } else if n > 0 {
            self.h_metrics[n - 1].advance_width
        } else {
            0
        }
    }

    /// The left side bearing of glyph `gid`, in font units.
    pub fn lsb(&self, gid: u16) -> (r: i16)
        ensures
            r == self.spec_lsb(gid),
    {
        let i = gid as usize;
        let n = self.h_metrics.len();
        if i < n {
            self.h_metrics[i].lsb
        } else if i - n < self.left_side_bearings.len() {
            self.left_side_bearings[i - n]
        } else {
            0
        }
    }

    /// Writes the control values in 26.6 to `scaled_cvt`, which grows to
    /// hold them all, and applies `scale` to every entry of it: also to
    /// those beyond the control values, which are otherwise left as they
    /// were.
    pub fn scale_cvt(&self, scale: Option<i32>, scaled_cvt: &mut Vec<i32>)
        ensures
            final(scaled_cvt)@.len() == if old(scaled_cvt)@.len() < self.cvt@.len() {
                self.cvt@.len()
            } else {
                old(scaled_cvt)@.len()
            },
            forall|i: int|
                0 <= i < self.cvt@.len() ==> (#[trigger] final(scaled_cvt)@[i])
                    == scaled_cvt_value((self.cvt@[i] * 64) as i32, scale),
            forall|i: int|
                self.cvt@.len() <= i < old(scaled_cvt)@.len() ==> (
                #[trigger] final(scaled_cvt)@[i]) == scaled_cvt_value(old(scaled_cvt)@[i], scale),
    {
        let n = self.cvt.len();
        while scaled_cvt.len() < n
            invariant
                n == self.cvt@.len(),
                scaled_cvt@.len() >= old(scaled_cvt)@.len(),
                scaled_cvt@.len() <= n || scaled_cvt@.len() == old(scaled_cvt)@.len(),
                forall|i: int|
                    0 <= i < old(scaled_cvt)@.len() ==> scaled_cvt@[i] == old(scaled_cvt)@[i],
            decreases n - scaled_cvt@.len(),
        {
            scaled_cvt.push(0);
        }
        let total = scaled_cvt.len();
        let mut i: usize = 0;
        while i < total
            invariant
                n == self.cvt@.len(),
                n <= total,
                i <= total,
                total == scaled_cvt@.len(),
                total == if old(scaled_cvt)@.len() < n {
                    n as nat
                } else {
                    old(scaled_cvt)@.len()
                },
                forall|j: int|
                    0 <= j < i && j < n ==> (#[trigger] scaled_cvt@[j]) == scaled_cvt_value(
                        (self.cvt@[j] * 64) as i32,
                        scale,
                    ),
                forall|j: int|
                    n <= j < i ==> (#[trigger] scaled_cvt@[j]) == scaled_cvt_value(
                        old(scaled_cvt)@[j],
                        scale,
                    ),
                forall|j: int|
                    i <= j < old(scaled_cvt)@.len() ==> (#[trigger] scaled_cvt@[j])
                        == old(scaled_cvt)@[j],
            decreases total - i,
        {
            let value: i32 = if i < n {
                self.cvt[i] as i32 * 64
            } else {
                scaled_cvt[i]
            };
            let scaled = match scale {
                Some(s) => crate::truetype::math::mul(value, shift_right_6(s)),
                None => value,
            };
            scaled_cvt.set(i, scaled);
            i += 1;
        }
    }
}

} // verus!
