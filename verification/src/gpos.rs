//! Anchor and mark tables of the glyph positioning table, and how they are
//! written.
//!
//! A table is written as its own bytes. Where it refers to another table,
//! it leaves an offset of zero and records where that offset stands: the
//! other table is written on its own, and placing it is the work of whoever
//! packs the tables.

use vstd::prelude::*;

verus! {

/// The bytes of `v`, the high byte first.
pub open spec fn u16_bytes(v: u16) -> Seq<u8> {
    seq![(v / 256) as u8, (v % 256) as u8]
}

/// The bytes of `v` in two's complement, the high byte first.
pub open spec fn i16_bytes(v: i16) -> Seq<u8> {
    if v < 0 {
        u16_bytes((v + 0x1_0000) as u16)
    } else {
        u16_bytes(v as u16)
    }
}

/// An offset that has been left open: where it stands in the bytes of its
/// table, how many bytes it takes, and whether it refers to nothing.
#[derive(Copy, Clone, PartialEq, Eq, Structural, Debug)]
pub struct OffsetRecord {
    pub pos: usize,
    pub width: usize,
    pub null: bool,
}

/// The record of a 16-bit offset at position `pos`.
pub open spec fn offset16_at(pos: int, null: bool) -> OffsetRecord {
    OffsetRecord { pos: pos as usize, width: 2, null }
}

/// Collects the bytes of one table.
#[derive(Debug)]
pub struct TableWriter {
    /// The bytes written so far.
    pub bytes: Vec<u8>,
    /// The offsets left open so far.
    pub offsets: Vec<OffsetRecord>,
}

impl TableWriter {
    /// Creates a writer that holds nothing.
    pub fn new() -> (writer: Self)
        ensures
            writer.bytes@.len() == 0,
            writer.offsets@.len() == 0,
    {
        TableWriter { bytes: Vec::new(), offsets: Vec::new() }
    }

    /// Appends a 16-bit number, the high byte first.
    pub fn write_u16(&mut self, v: u16)
        ensures
            final(self).bytes@ == old(self).bytes@ + u16_bytes(v),
            final(self).offsets@ == old(self).offsets@,
    {
        self.bytes.push((v / 256) as u8);
        self.bytes.push((v % 256) as u8);
        assert(self.bytes@ =~= old(self).bytes@ + u16_bytes(v));
    }

    /// Appends a signed 16-bit number in two's complement.
    pub fn write_i16(&mut self, v: i16)
        ensures
            final(self).bytes@ == old(self).bytes@ + i16_bytes(v),
            final(self).offsets@ == old(self).offsets@,
    {
        let raw: u16 = if v < 0 {
            (v as i32 + 0x1_0000) as u16
        } else {
            v as u16
        };
        self.write_u16(raw);
    }

    /// Leaves a 16-bit offset open at the current position.
    pub fn write_offset16(&mut self, null: bool)
        ensures
            final(self).bytes@ == old(self).bytes@ + seq![0u8, 0u8],
            final(self).offsets@ == old(self).offsets@.push(
                offset16_at(old(self).bytes@.len() as int, null),
            ),
    {
        let pos = self.bytes.len();
        self.offsets.push(OffsetRecord { pos, width: 2, null });
        self.bytes.push(0);
        self.bytes.push(0);
        assert(self.bytes@ =~= old(self).bytes@ + seq![0u8, 0u8]);
    }
}

/// One finding of a validation: the table and the field that it is about,
/// and what is wrong.
#[derive(Copy, Clone, PartialEq, Eq, Debug)]
pub struct ValidationError {
    pub table: &'static str,
    pub field: &'static str,
    pub message: &'static str,
}

/// Collects the findings of a validation.
#[derive(Debug)]
pub struct ValidationCtx {
    /// The findings so far.
    pub errors: Vec<ValidationError>,
}

impl ValidationCtx {
    /// Creates a context without findings.
    pub fn new() -> (ctx: Self)
        ensures
            ctx.errors@.len() == 0,
    {
        ValidationCtx { errors: Vec::new() }
    }

    /// Adds a finding about `field` of `table`.
    pub fn report(&mut self, table: &'static str, field: &'static str, message: &'static str)
        ensures
            final(self).errors@ == old(self).errors@.push(
                (ValidationError { table, field, message }),
            ),
    {
        self.errors.push(ValidationError { table, field, message });
    }
}

/// What is reported of an offset that must refer to a table and does not.
pub open spec fn null_offset_message() -> &'static str {
    "offset field should not be null"
}

/// What is reported of an array with more items than 16 bits count.
pub open spec fn long_array_message() -> &'static str {
    "array excedes max length"
}

/// The finding that `field` of `table` has more items than 16 bits count,
/// if an array of `len` items has.
pub open spec fn long_array(table: &'static str, field: &'static str, len: nat) -> Seq<
    ValidationError,
> {
    if len > u16::MAX {
        seq![(ValidationError { table, field, message: long_array_message() })]
    } else {
        Seq::empty()
    }
}

/// checked conversion to u16
pub fn array_len<T>(s: &Vec<T>) -> (r: Option<u16>)
    ensures
        r == if s@.len() <= u16::MAX {
            Some(s@.len() as u16)
        } else {
            None
        },
{
    let n = s.len();
    if n <= 0xFFFF {
        Some(n as u16)
    } else {
        None
    }
}

/// One more than `val`, if that fits in 16 bits.
pub fn plus_one(val: &usize) -> (r: Option<u16>)
    ensures
        r == if *val < u16::MAX {
            Some((*val + 1) as u16)
        } else {
            None
        },
{
    if *val < 0xFFFF {
        Some((*val + 1) as u16)
    } else {
        None
    }
}

/// A table or record that is written as bytes.
pub trait FontWrite {
    /// Holds when every array of the table has a length that 16 bits count.
    spec fn writable(&self) -> bool;

    /// The bytes of the table, its offsets left open.
    spec fn spec_bytes(&self) -> Seq<u8>;

    /// The offsets that the table leaves open when it is written at
    /// position `at`.
    spec fn spec_offsets(&self, at: int) -> Seq<OffsetRecord>;

    /// Writes the table.
    fn write_into(&self, writer: &mut TableWriter)
        requires
            self.writable(),
        ensures
            final(writer).bytes@ == old(writer).bytes@ + self.spec_bytes(),
            final(writer).offsets@ == old(writer).offsets@ + self.spec_offsets(
                old(writer).bytes@.len() as int,
            ),
    ;
}

/// A table or record that is checked before it is written.
pub trait Validate {
    /// What a validation finds of the table.
    spec fn spec_errors(&self) -> Seq<ValidationError>;

    /// Reports what is wrong with the table.
    fn validate_impl(&self, ctx: &mut ValidationCtx)
        ensures
            final(ctx).errors@ == old(ctx).errors@ + self.spec_errors(),
    ;
}

/// The bytes of the items from `i` on.
pub open spec fn items_bytes<T: FontWrite>(items: Seq<T>, i: int) -> Seq<u8>
    decreases items.len() - i,
{
    if i < 0 || i >= items.len() {
        Seq::empty()
    } else {
        items[i].spec_bytes() + items_bytes(items, i + 1)
    }
}

/// The offsets that the items from `i` on leave open when they are written
/// at position `at`.
pub open spec fn items_offsets<T: FontWrite>(items: Seq<T>, i: int, at: int) -> Seq<OffsetRecord>
    decreases items.len() - i,
{
    if i < 0 || i >= items.len() {
        Seq::empty()
    } else {
        items[i].spec_offsets(at) + items_offsets(
            items,
            i + 1,
            at + items[i].spec_bytes().len(),
        )
    }
}

/// Holds when each of the items can be written.
pub open spec fn items_writable<T: FontWrite>(items: Seq<T>) -> bool {
    forall|i: int| 0 <= i < items.len() ==> (#[trigger] items[i]).writable()
}

/// What a validation finds of the items from `i` on.
pub open spec fn items_errors<T: Validate>(items: Seq<T>, i: int) -> Seq<ValidationError>
    decreases items.len() - i,
{
    if i < 0 || i >= items.len() {
        Seq::empty()
    } else {
        items[i].spec_errors() + items_errors(items, i + 1)
    }
}

/// Writes the items one after the other.
pub fn write_items<T: FontWrite>(items: &Vec<T>, writer: &mut TableWriter)
    requires
        items_writable(items@),
    ensures
        final(writer).bytes@ == old(writer).bytes@ + items_bytes(items@, 0),
        final(writer).offsets@ == old(writer).offsets@ + items_offsets(
            items@,
            0,
            old(writer).bytes@.len() as int,
        ),
{
    let ghost at = old(writer).bytes@.len() as int;
    let mut i: usize = 0;
    while i < items.len()
        invariant
            i <= items@.len(),
            items_writable(items@),
            at == old(writer).bytes@.len(),
            writer.bytes@ + items_bytes(items@, i as int) == old(writer).bytes@ + items_bytes(
                items@,
                0,
            ),
            writer.offsets@ + items_offsets(items@, i as int, writer.bytes@.len() as int)
                == old(writer).offsets@ + items_offsets(items@, 0, at),
        decreases items@.len() - i,
    {
        let ghost bytes = writer.bytes@;
        let ghost offsets = writer.offsets@;
        items[i].write_into(writer);
        assert(bytes + items_bytes(items@, i as int) =~= writer.bytes@ + items_bytes(
            items@,
            i + 1,
        ));
        assert(offsets + items_offsets(items@, i as int, bytes.len() as int) =~= writer.offsets@
            + items_offsets(items@, i + 1, writer.bytes@.len() as int));
        i += 1;
    }
    assert(writer.bytes@ + items_bytes(items@, i as int) =~= writer.bytes@);
    assert(writer.offsets@ + items_offsets(items@, i as int, writer.bytes@.len() as int)
        =~= writer.offsets@);
}

/// Validates the items one after the other.
pub fn validate_items<T: Validate>(items: &Vec<T>, ctx: &mut ValidationCtx)
    ensures
        final(ctx).errors@ == old(ctx).errors@ + items_errors(items@, 0),
{
    let mut i: usize = 0;
    while i < items.len()
        invariant
            i <= items@.len(),
            ctx.errors@ + items_errors(items@, i as int) == old(ctx).errors@ + items_errors(
                items@,
                0,
            ),
        decreases items@.len() - i,
    {
        let ghost before = ctx.errors@;
        items[i].validate_impl(ctx);
        assert(before + items_errors(items@, i as int) =~= ctx.errors@ + items_errors(
            items@,
            i + 1,
        ));
        i += 1;
    }
    assert(ctx.errors@ + items_errors(items@, i as int) =~= ctx.errors@);
}

/// A device table: adjustments of a value at a range of sizes.
#[derive(Clone, PartialEq, Eq, Debug)]
pub struct Device {
    /// Smallest size to correct, in ppem
    pub start_size: u16,
    /// Largest size to correct, in ppem
    pub end_size: u16,
    /// Format of deltaValue array data
    pub delta_format: u16,
    /// Array of compressed data
    pub delta_value: Vec<u16>,
}

/// [Anchor Table Format 1](https://docs.microsoft.com/en-us/typography/opentype/spec/gpos#anchor-table-format-1-design-units): Design Units
#[derive(Copy, Clone, PartialEq, Eq, Structural, Debug)]
pub struct AnchorFormat1 {
    /// Horizontal value, in design units
    pub x_coordinate: i16,
    /// Vertical value, in design units
    pub y_coordinate: i16,
}

impl FontWrite for AnchorFormat1 {
    open spec fn writable(&self) -> bool {
        true
    }

    open spec fn spec_bytes(&self) -> Seq<u8> {
        u16_bytes(1) + i16_bytes(self.x_coordinate) + i16_bytes(self.y_coordinate)
    }

    open spec fn spec_offsets(&self, at: int) -> Seq<OffsetRecord> {
        Seq::empty()
    }

    /// Writes the format, then the coordinates.
    fn write_into(&self, writer: &mut TableWriter) {
        writer.write_u16(1);
        writer.write_i16(self.x_coordinate);
        writer.write_i16(self.y_coordinate);
        assert(writer.bytes@ =~= old(writer).bytes@ + self.spec_bytes());
        assert(writer.offsets@ =~= old(writer).offsets@ + Seq::<OffsetRecord>::empty());
    }
}

impl Validate for AnchorFormat1 {
    open spec fn spec_errors(&self) -> Seq<ValidationError> {
        Seq::empty()
    }

    /// Finds nothing: every such table can be written.
    fn validate_impl(&self, ctx: &mut ValidationCtx) {
        assert(ctx.errors@ =~= old(ctx).errors@ + Seq::<ValidationError>::empty());
    }
}

/// [Anchor Table Format 2](https://docs.microsoft.com/en-us/typography/opentype/spec/gpos#anchor-table-format-2-design-units-plus-contour-point): Design Units Plus Contour Point
#[derive(Copy, Clone, PartialEq, Eq, Structural, Debug)]
pub struct AnchorFormat2 {
    /// Horizontal value, in design units
    pub x_coordinate: i16,
    /// Vertical value, in design units
    pub y_coordinate: i16,
    /// Index to glyph contour point
    pub anchor_point: u16,
}

impl FontWrite for AnchorFormat2 {
    open spec fn writable(&self) -> bool {
        true
    }

    open spec fn spec_bytes(&self) -> Seq<u8> {
        u16_bytes(2) + i16_bytes(self.x_coordinate) + i16_bytes(self.y_coordinate) + u16_bytes(
            self.anchor_point,
        )
    }

    open spec fn spec_offsets(&self, at: int) -> Seq<OffsetRecord> {
        Seq::empty()
    }

    /// Writes the format, the coordinates, the contour point.
    fn write_into(&self, writer: &mut TableWriter) {
        writer.write_u16(2);
        writer.write_i16(self.x_coordinate);
        writer.write_i16(self.y_coordinate);
        writer.write_u16(self.anchor_point);
        assert(writer.bytes@ =~= old(writer).bytes@ + self.spec_bytes());
        assert(writer.offsets@ =~= old(writer).offsets@ + Seq::<OffsetRecord>::empty());
    }
}

impl Validate for AnchorFormat2 {
    open spec fn spec_errors(&self) -> Seq<ValidationError> {
        Seq::empty()
    }

    /// Finds nothing: every such table can be written.
    fn validate_impl(&self, ctx: &mut ValidationCtx) {
        assert(ctx.errors@ =~= old(ctx).errors@ + Seq::<ValidationError>::empty());
    }
}

/// [Anchor Table Format 3](https://docs.microsoft.com/en-us/typography/opentype/spec/gpos#anchor-table-format-3-design-units-plus-device-or-variationindex-tables): Design Units Plus Device or VariationIndex Tables
#[derive(Clone, PartialEq, Eq, Debug)]
pub struct AnchorFormat3 {
    /// Horizontal value, in design units
    pub x_coordinate: i16,
    /// Vertical value, in design units
    pub y_coordinate: i16,
    /// Device table (non-variable font) / VariationIndex table (variable
    /// font) for X coordinate (may be NULL)
    pub x_device_offset: Option<Device>,
    /// Device table (non-variable font) / VariationIndex table (variable
    /// font) for Y coordinate (may be NULL)
    pub y_device_offset: Option<Device>,
}

impl FontWrite for AnchorFormat3 {
    open spec fn writable(&self) -> bool {
        true
    }

    open spec fn spec_bytes(&self) -> Seq<u8> {
        u16_bytes(3) + i16_bytes(self.x_coordinate) + i16_bytes(self.y_coordinate)
            + seq![0u8, 0u8, 0u8, 0u8]
    }

    open spec fn spec_offsets(&self, at: int) -> Seq<OffsetRecord> {
        seq![
            offset16_at(at + 6, self.x_device_offset.is_none()),
            offset16_at(at + 8, self.y_device_offset.is_none()),
        ]
    }

    /// Writes the format, the coordinates, and the two offsets to the device
    /// tables, which may refer to nothing.
    fn write_into(&self, writer: &mut TableWriter) {
        writer.write_u16(3);
        writer.write_i16(self.x_coordinate);
        writer.write_i16(self.y_coordinate);
        writer.write_offset16(self.x_device_offset.is_none());
        writer.write_offset16(self.y_device_offset.is_none());
        assert(writer.bytes@ =~= old(writer).bytes@ + self.spec_bytes());
        assert(writer.offsets@ =~= old(writer).offsets@ + self.spec_offsets(
            old(writer).bytes@.len() as int,
        ));
    }
}

impl Validate for AnchorFormat3 {
    open spec fn spec_errors(&self) -> Seq<ValidationError> {
        Seq::empty()
    }

    /// Finds nothing: both offsets may refer to nothing.
    fn validate_impl(&self, ctx: &mut ValidationCtx) {
        assert(ctx.errors@ =~= old(ctx).errors@ + Seq::<ValidationError>::empty());
    }
}

/// [Anchor Tables](https://docs.microsoft.com/en-us/typography/opentype/spec/gpos#anchor-tables)
/// position one glyph with respect to another.
#[derive(Clone, PartialEq, Eq, Debug)]
pub enum AnchorTable {
    Format1(AnchorFormat1),
    Format2(AnchorFormat2),
    Format3(AnchorFormat3),
}

impl FontWrite for AnchorTable {
    open spec fn writable(&self) -> bool {
        true
    }

    open spec fn spec_bytes(&self) -> Seq<u8> {
        match self {
            AnchorTable::Format1(item) => item.spec_bytes(),
            AnchorTable::Format2(item) => item.spec_bytes(),
            AnchorTable::Format3(item) => item.spec_bytes(),
        }
    }

    open spec fn spec_offsets(&self, at: int) -> Seq<OffsetRecord> {
        match self {
            AnchorTable::Format1(item) => item.spec_offsets(at),
            AnchorTable::Format2(item) => item.spec_offsets(at),
            AnchorTable::Format3(item) => item.spec_offsets(at),
        }
    }

    /// Writes the table in the format that it has.
    fn write_into(&self, writer: &mut TableWriter) {
        match self {
            AnchorTable::Format1(item) => item.write_into(writer),
            AnchorTable::Format2(item) => item.write_into(writer),
            AnchorTable::Format3(item) => item.write_into(writer),
        }
    }
}

impl Validate for AnchorTable {
    open spec fn spec_errors(&self) -> Seq<ValidationError> {
        Seq::empty()
    }

    /// Finds nothing: every anchor table can be written.
    fn validate_impl(&self, ctx: &mut ValidationCtx) {
        match self {
            AnchorTable::Format1(item) => item.validate_impl(ctx),
            AnchorTable::Format2(item) => item.validate_impl(ctx),
            AnchorTable::Format3(item) => item.validate_impl(ctx),
        }
    }
}

/// The offsets that a row of tables leaves open from index `i` on, two
/// bytes each from position `at` on: a table that is missing makes an offset
/// that refers to nothing.
pub open spec fn table_offsets<T>(tables: Seq<Option<T>>, i: int, at: int) -> Seq<OffsetRecord>
    decreases tables.len() - i,
{
    if i < 0 || i >= tables.len() {
        Seq::empty()
    } else {
        seq![offset16_at(at, tables[i].is_none())] + table_offsets(tables, i + 1, at + 2)
    }
}

/// As many zero bytes as `n` 16-bit offsets take.
pub open spec fn open_offsets(n: nat) -> Seq<u8> {
    Seq::new(2 * n, |i: int| 0u8)
}

/// Leaves one offset open for each of the tables.
pub fn write_offsets<T>(tables: &Vec<Option<T>>, writer: &mut TableWriter)
    ensures
        final(writer).bytes@ == old(writer).bytes@ + open_offsets(tables@.len()),
        final(writer).offsets@ == old(writer).offsets@ + table_offsets(
            tables@,
            0,
            old(writer).bytes@.len() as int,
        ),
{
    let ghost at = old(writer).bytes@.len() as int;
    let mut i: usize = 0;
    while i < tables.len()
        invariant
            i <= tables@.len(),
            at == old(writer).bytes@.len(),
            writer.bytes@ == old(writer).bytes@ + open_offsets(i as nat),
            writer.offsets@ + table_offsets(tables@, i as int, at + 2 * i)
                == old(writer).offsets@ + table_offsets(tables@, 0, at),
        decreases tables@.len() - i,
    {
        let ghost offsets = writer.offsets@;
        writer.write_offset16(tables[i].is_none());
        assert(writer.bytes@ =~= old(writer).bytes@ + open_offsets((i + 1) as nat));
        assert(offsets + table_offsets(tables@, i as int, at + 2 * i) =~= writer.offsets@
            + table_offsets(tables@, i + 1, at + 2 * (i + 1)));
        i += 1;
    }
    assert(writer.offsets@ + table_offsets(tables@, i as int, at + 2 * i) =~= writer.offsets@);
}

/// Part of [MarkArray]
#[derive(Clone, PartialEq, Eq, Debug)]
pub struct MarkRecord {
    /// Class defined for the associated mark.
    pub mark_class: u16,
    /// The Anchor table of the mark, which must be there.
    pub mark_anchor_offset: Option<AnchorTable>,
}

impl FontWrite for MarkRecord {
    open spec fn writable(&self) -> bool {
        true
    }

    open spec fn spec_bytes(&self) -> Seq<u8> {
        u16_bytes(self.mark_class) + seq![0u8, 0u8]
    }

    open spec fn spec_offsets(&self, at: int) -> Seq<OffsetRecord> {
        seq![offset16_at(at + 2, self.mark_anchor_offset.is_none())]
    }

    /// Writes the class, then the offset to the anchor table.
    fn write_into(&self, writer: &mut TableWriter) {
        writer.write_u16(self.mark_class);
        writer.write_offset16(self.mark_anchor_offset.is_none());
        assert(writer.bytes@ =~= old(writer).bytes@ + self.spec_bytes());
        assert(writer.offsets@ =~= old(writer).offsets@ + self.spec_offsets(
            old(writer).bytes@.len() as int,
        ));
    }
}

impl Validate for MarkRecord {
    open spec fn spec_errors(&self) -> Seq<ValidationError> {
        if self.mark_anchor_offset.is_none() {
            seq![
                (ValidationError {
                    table: "MarkRecord",
                    field: "mark_anchor_offset",
                    message: null_offset_message(),
                }),
            ]
        } else {
            Seq::empty()
        }
    }

    /// Reports a record without anchor table.
    fn validate_impl(&self, ctx: &mut ValidationCtx) {
        match &self.mark_anchor_offset {
            Some(anchor) => {
                anchor.validate_impl(ctx);
            },
            None => {
                ctx.report("MarkRecord", "mark_anchor_offset", "offset field should not be null");
            },
        }
        assert(ctx.errors@ =~= old(ctx).errors@ + self.spec_errors());
    }
}

/// [Mark Array Table](https://docs.microsoft.com/en-us/typography/opentype/spec/gpos#mark-array-table)
#[derive(Clone, PartialEq, Eq, Debug)]
pub struct MarkArray {
    /// Array of MarkRecords, ordered by corresponding glyphs in the
    /// associated mark Coverage table.
    pub mark_records: Vec<MarkRecord>,
}

impl FontWrite for MarkArray {
    open spec fn writable(&self) -> bool {
        self.mark_records@.len() <= u16::MAX
    }

    open spec fn spec_bytes(&self) -> Seq<u8> {
        u16_bytes(self.mark_records@.len() as u16) + items_bytes(self.mark_records@, 0)
    }

    open spec fn spec_offsets(&self, at: int) -> Seq<OffsetRecord> {
        items_offsets(self.mark_records@, 0, at + 2)
    }

    /// Writes the number of records, then the records.
    fn write_into(&self, writer: &mut TableWriter) {
        let count = match array_len(&self.mark_records) {
            Some(count) => count,
            None => 0,
        };
        writer.write_u16(count);
        write_items(&self.mark_records, writer);
        assert(writer.bytes@ =~= old(writer).bytes@ + self.spec_bytes());
    }
}

impl Validate for MarkArray {
    open spec fn spec_errors(&self) -> Seq<ValidationError> {
        long_array("MarkArray", "mark_records", self.mark_records@.len()) + items_errors(
            self.mark_records@,
            0,
        )
    }

    /// Reports a table with more records than 16 bits count, and what is
    /// found of each record.
    fn validate_impl(&self, ctx: &mut ValidationCtx) {
        if self.mark_records.len() > 0xFFFF {
            ctx.report("MarkArray", "mark_records", "array excedes max length");
        }
        assert(ctx.errors@ =~= old(ctx).errors@ + long_array(
            "MarkArray",
            "mark_records",
            self.mark_records@.len(),
        ));
        validate_items(&self.mark_records, ctx);
        assert(ctx.errors@ =~= old(ctx).errors@ + self.spec_errors());
    }
}

/// Part of [CursivePosFormat1]
#[derive(Clone, PartialEq, Eq, Debug)]
pub struct EntryExitRecord {
    /// The entryAnchor table (may be NULL).
    pub entry_anchor_offset: Option<AnchorTable>,
    /// The exitAnchor table (may be NULL).
    pub exit_anchor_offset: Option<AnchorTable>,
}

impl FontWrite for EntryExitRecord {
    open spec fn writable(&self) -> bool {
        true
    }

    open spec fn spec_bytes(&self) -> Seq<u8> {
        seq![0u8, 0u8, 0u8, 0u8]
    }

    open spec fn spec_offsets(&self, at: int) -> Seq<OffsetRecord> {
        seq![
            offset16_at(at, self.entry_anchor_offset.is_none()),
            offset16_at(at + 2, self.exit_anchor_offset.is_none()),
        ]
    }

    /// Writes the offsets to the two anchor tables.
    fn write_into(&self, writer: &mut TableWriter) {
        writer.write_offset16(self.entry_anchor_offset.is_none());
        writer.write_offset16(self.exit_anchor_offset.is_none());
        assert(writer.bytes@ =~= old(writer).bytes@ + self.spec_bytes());
        assert(writer.offsets@ =~= old(writer).offsets@ + self.spec_offsets(
            old(writer).bytes@.len() as int,
        ));
    }
}

impl Validate for EntryExitRecord {
    open spec fn spec_errors(&self) -> Seq<ValidationError> {
        Seq::empty()
    }

    /// Finds nothing: both offsets may refer to nothing.
    fn validate_impl(&self, ctx: &mut ValidationCtx) {
        assert(ctx.errors@ =~= old(ctx).errors@ + Seq::<ValidationError>::empty());
    }
}

/// Part of [BaseArray]
#[derive(Clone, PartialEq, Eq, Debug)]
pub struct BaseRecord {
    /// Array of Anchor tables (one per mark class), ordered by class (may be
    /// NULL).
    pub base_anchor_offsets: Vec<Option<AnchorTable>>,
}

impl FontWrite for BaseRecord {
    open spec fn writable(&self) -> bool {
        true
    }

    open spec fn spec_bytes(&self) -> Seq<u8> {
        open_offsets(self.base_anchor_offsets@.len())
    }

    open spec fn spec_offsets(&self, at: int) -> Seq<OffsetRecord> {
        table_offsets(self.base_anchor_offsets@, 0, at)
    }

    /// Writes the offsets to the anchor tables.
    fn write_into(&self, writer: &mut TableWriter) {
        write_offsets(&self.base_anchor_offsets, writer);
    }
}

impl Validate for BaseRecord {
    open spec fn spec_errors(&self) -> Seq<ValidationError> {
        Seq::empty()
    }

    /// Finds nothing: each offset may refer to nothing.
    fn validate_impl(&self, ctx: &mut ValidationCtx) {
        assert(ctx.errors@ =~= old(ctx).errors@ + Seq::<ValidationError>::empty());
    }
}

/// Part of [MarkBasePosFormat1]
#[derive(Clone, PartialEq, Eq, Debug)]
pub struct BaseArray {
    /// Array of BaseRecords, in order of baseCoverage Index.
    pub base_records: Vec<BaseRecord>,
}

impl FontWrite for BaseArray {
    open spec fn writable(&self) -> bool {
        self.base_records@.len() <= u16::MAX
    }

    open spec fn spec_bytes(&self) -> Seq<u8> {
        u16_bytes(self.base_records@.len() as u16) + items_bytes(self.base_records@, 0)
    }

    open spec fn spec_offsets(&self, at: int) -> Seq<OffsetRecord> {
        items_offsets(self.base_records@, 0, at + 2)
    }

    /// Writes the number of records, then the records.
    fn write_into(&self, writer: &mut TableWriter) {
        let count = match array_len(&self.base_records) {
            Some(count) => count,
            None => 0,
        };
        writer.write_u16(count);
        write_items(&self.base_records, writer);
        assert(writer.bytes@ =~= old(writer).bytes@ + self.spec_bytes());
    }
}

impl Validate for BaseArray {
    open spec fn spec_errors(&self) -> Seq<ValidationError> {
        items_errors(self.base_records@, 0)
    }

    /// Reports what is found of each record.
    fn validate_impl(&self, ctx: &mut ValidationCtx) {
        validate_items(&self.base_records, ctx);
    }
}

/// Part of [LigatureAttach]
#[derive(Clone, PartialEq, Eq, Debug)]
pub struct ComponentRecord {
    /// Array of Anchor tables (one per class), ordered by class (may be
    /// NULL).
    pub ligature_anchor_offsets: Vec<Option<AnchorTable>>,
}

impl FontWrite for ComponentRecord {
    open spec fn writable(&self) -> bool {
        true
    }

    open spec fn spec_bytes(&self) -> Seq<u8> {
        open_offsets(self.ligature_anchor_offsets@.len())
    }

    open spec fn spec_offsets(&self, at: int) -> Seq<OffsetRecord> {
        table_offsets(self.ligature_anchor_offsets@, 0, at)
    }

    /// Writes the offsets to the anchor tables.
    fn write_into(&self, writer: &mut TableWriter) {
        write_offsets(&self.ligature_anchor_offsets, writer);
    }
}

impl Validate for ComponentRecord {
    open spec fn spec_errors(&self) -> Seq<ValidationError> {
        Seq::empty()
    }

    /// Finds nothing: each offset may refer to nothing.
    fn validate_impl(&self, ctx: &mut ValidationCtx) {
        assert(ctx.errors@ =~= old(ctx).errors@ + Seq::<ValidationError>::empty());
    }
}

/// Part of [LigatureArray]
#[derive(Clone, PartialEq, Eq, Debug)]
pub struct LigatureAttach {
    /// Array of Component records, ordered in writing direction.
    pub component_records: Vec<ComponentRecord>,
}

impl FontWrite for LigatureAttach {
    open spec fn writable(&self) -> bool {
        self.component_records@.len() <= u16::MAX
    }

    open spec fn spec_bytes(&self) -> Seq<u8> {
        u16_bytes(self.component_records@.len() as u16) + items_bytes(
            self.component_records@,
            0,
        )
    }

    open spec fn spec_offsets(&self, at: int) -> Seq<OffsetRecord> {
        items_offsets(self.component_records@, 0, at + 2)
    }

    /// Writes the number of records, then the records.
    fn write_into(&self, writer: &mut TableWriter) {
        let count = match array_len(&self.component_records) {
            Some(count) => count,
            None => 0,
        };
        writer.write_u16(count);
        write_items(&self.component_records, writer);
        assert(writer.bytes@ =~= old(writer).bytes@ + self.spec_bytes());
    }
}

impl Validate for LigatureAttach {
    open spec fn spec_errors(&self) -> Seq<ValidationError> {
        items_errors(self.component_records@, 0)
    }

    /// Reports what is found of each record.
    fn validate_impl(&self, ctx: &mut ValidationCtx) {
        validate_items(&self.component_records, ctx);
    }
}

/// Part of [MarkLigPosFormat1]
#[derive(Clone, PartialEq, Eq, Debug)]
pub struct LigatureArray {
    /// Array of LigatureAttach tables, ordered by ligatureCoverage index,
    /// each of which must be there.
    pub ligature_attach_offsets: Vec<Option<LigatureAttach>>,
}

impl FontWrite for LigatureArray {
    open spec fn writable(&self) -> bool {
        self.ligature_attach_offsets@.len() <= u16::MAX
    }

    open spec fn spec_bytes(&self) -> Seq<u8> {
        u16_bytes(self.ligature_attach_offsets@.len() as u16) + open_offsets(
            self.ligature_attach_offsets@.len(),
        )
    }

    open spec fn spec_offsets(&self, at: int) -> Seq<OffsetRecord> {
        table_offsets(self.ligature_attach_offsets@, 0, at + 2)
    }

    /// Writes the number of offsets, then the offsets.
    fn write_into(&self, writer: &mut TableWriter) {
        let count = match array_len(&self.ligature_attach_offsets) {
            Some(count) => count,
            None => 0,
        };
        writer.write_u16(count);
        write_offsets(&self.ligature_attach_offsets, writer);
        assert(writer.bytes@ =~= old(writer).bytes@ + self.spec_bytes());
    }
}

/// What a validation finds of the tables from index `i` on that are there.
pub open spec fn attach_errors(tables: Seq<Option<LigatureAttach>>, i: int) -> Seq<
    ValidationError,
>
    decreases tables.len() - i,
{
    if i < 0 || i >= tables.len() {
        Seq::empty()
    } else {
        (match tables[i] {
            Some(table) => table.spec_errors(),
            None => seq![
                (ValidationError {
                    table: "LigatureArray",
                    field: "ligature_attach_offsets",
                    message: null_offset_message(),
                }),
            ],
        }) + attach_errors(tables, i + 1)
    }
}

impl Validate for LigatureArray {
    open spec fn spec_errors(&self) -> Seq<ValidationError> {
        long_array(
            "LigatureArray",
            "ligature_attach_offsets",
            self.ligature_attach_offsets@.len(),
        ) + attach_errors(self.ligature_attach_offsets@, 0)
    }

    /// Reports an array with more offsets than 16 bits count, each offset
    /// that refers to nothing, and what is found of each table.
    fn validate_impl(&self, ctx: &mut ValidationCtx) {
        if self.ligature_attach_offsets.len() > 0xFFFF {
            ctx.report("LigatureArray", "ligature_attach_offsets", "array excedes max length");
        }
        let ghost head = ctx.errors@;
        assert(head =~= old(ctx).errors@ + long_array(
            "LigatureArray",
            "ligature_attach_offsets",
            self.ligature_attach_offsets@.len(),
        ));
        let mut i: usize = 0;
        while i < self.ligature_attach_offsets.len()
            invariant
                i <= self.ligature_attach_offsets@.len(),
                ctx.errors@ + attach_errors(self.ligature_attach_offsets@, i as int) == head
                    + attach_errors(self.ligature_attach_offsets@, 0),
            decreases self.ligature_attach_offsets@.len() - i,
        {
            let ghost before = ctx.errors@;
            match &self.ligature_attach_offsets[i] {
                Some(table) => table.validate_impl(ctx),
                None => ctx.report(
                    "LigatureArray",
                    "ligature_attach_offsets",
                    "offset field should not be null",
                ),
            }
            assert(before + attach_errors(self.ligature_attach_offsets@, i as int)
                =~= ctx.errors@ + attach_errors(self.ligature_attach_offsets@, i + 1));
            i += 1;
        }
        assert(ctx.errors@ + attach_errors(self.ligature_attach_offsets@, i as int)
            =~= ctx.errors@);
        assert(head + attach_errors(self.ligature_attach_offsets@, 0) =~= old(ctx).errors@
            + self.spec_errors());
    }
}

/// Part of [Mark2Array]
#[derive(Clone, PartialEq, Eq, Debug)]
pub struct Mark2Record {
    /// Array of Anchor tables (one per class), in class order (may be
    /// NULL).
    pub mark2_anchor_offsets: Vec<Option<AnchorTable>>,
}

impl FontWrite for Mark2Record {
    open spec fn writable(&self) -> bool {
        true
    }

    open spec fn spec_bytes(&self) -> Seq<u8> {
        open_offsets(self.mark2_anchor_offsets@.len())
    }

    open spec fn spec_offsets(&self, at: int) -> Seq<OffsetRecord> {
        table_offsets(self.mark2_anchor_offsets@, 0, at)
    }

    /// Writes the offsets to the anchor tables.
    fn write_into(&self, writer: &mut TableWriter) {
        write_offsets(&self.mark2_anchor_offsets, writer);
    }
}

impl Validate for Mark2Record {
    open spec fn spec_errors(&self) -> Seq<ValidationError> {
        Seq::empty()
    }

    /// Finds nothing: each offset may refer to nothing.
    fn validate_impl(&self, ctx: &mut ValidationCtx) {
        assert(ctx.errors@ =~= old(ctx).errors@ + Seq::<ValidationError>::empty());
    }
}

/// Part of [MarkMarkPosFormat1]
#[derive(Clone, PartialEq, Eq, Debug)]
pub struct Mark2Array {
    /// Array of Mark2Records, in Coverage order.
    pub mark2_records: Vec<Mark2Record>,
}

impl FontWrite for Mark2Array {
    open spec fn writable(&self) -> bool {
        self.mark2_records@.len() <= u16::MAX
    }

    open spec fn spec_bytes(&self) -> Seq<u8> {
        u16_bytes(self.mark2_records@.len() as u16) + items_bytes(self.mark2_records@, 0)
    }

    open spec fn spec_offsets(&self, at: int) -> Seq<OffsetRecord> {
        items_offsets(self.mark2_records@, 0, at + 2)
    }

    /// Writes the number of records, then the records.
    fn write_into(&self, writer: &mut TableWriter) {
        let count = match array_len(&self.mark2_records) {
            Some(count) => count,
            None => 0,
        };
        writer.write_u16(count);
        write_items(&self.mark2_records, writer);
        assert(writer.bytes@ =~= old(writer).bytes@ + self.spec_bytes());
    }
}

impl Validate for Mark2Array {
    open spec fn spec_errors(&self) -> Seq<ValidationError> {
        items_errors(self.mark2_records@, 0)
    }

    /// Reports what is found of each record.
    fn validate_impl(&self, ctx: &mut ValidationCtx) {
        validate_items(&self.mark2_records, ctx);
    }
}

} // verus!
