use glyph_load::gpos::{
    array_len, plus_one, write_items, write_offsets, AnchorFormat1, AnchorFormat2, AnchorFormat3,
    AnchorTable, BaseArray, BaseRecord, ComponentRecord, Device, EntryExitRecord, FontWrite,
    LigatureArray, LigatureAttach, Mark2Array, Mark2Record, MarkArray, MarkRecord, OffsetRecord,
    TableWriter, Validate, ValidationCtx, ValidationError,
};

fn anchor(x: i16, y: i16) -> AnchorTable {
    AnchorTable::Format1(AnchorFormat1 { x_coordinate: x, y_coordinate: y })
}

fn open(pos: usize, null: bool) -> OffsetRecord {
    OffsetRecord { pos, width: 2, null }
}

fn errors(table: &impl Validate) -> Vec<ValidationError> {
    let mut ctx = ValidationCtx::new();
    table.validate_impl(&mut ctx);
    ctx.errors
}

#[test]
fn anchor_format_1_is_format_and_coordinates() {
    let mut w = TableWriter::new();
    AnchorFormat1 { x_coordinate: 300, y_coordinate: -2 }.write_into(&mut w);
    assert_eq!(w.bytes, vec![0, 1, 0x01, 0x2C, 0xFF, 0xFE]);
    assert!(w.offsets.is_empty());
}

#[test]
fn anchor_format_2_adds_the_contour_point() {
    let mut w = TableWriter::new();
    AnchorFormat2 { x_coordinate: -32768, y_coordinate: 32767, anchor_point: 0xABCD }
        .write_into(&mut w);
    assert_eq!(w.bytes, vec![0, 2, 0x80, 0x00, 0x7F, 0xFF, 0xAB, 0xCD]);
    assert!(w.offsets.is_empty());
}

#[test]
fn anchor_format_3_leaves_two_offsets_open() {
    let mut w = TableWriter::new();
    w.write_u16(0xFFFF);
    let device = Device { start_size: 9, end_size: 10, delta_format: 1, delta_value: vec![0] };
    let anchor = AnchorFormat3 {
        x_coordinate: 1,
        y_coordinate: 2,
        x_device_offset: Some(device),
        y_device_offset: None,
    };
    AnchorTable::Format3(anchor.clone()).write_into(&mut w);
    assert_eq!(w.bytes, vec![0xFF, 0xFF, 0, 3, 0, 1, 0, 2, 0, 0, 0, 0]);
    assert_eq!(w.offsets, vec![open(8, false), open(10, true)]);
    assert!(errors(&anchor).is_empty());
    assert!(errors(&AnchorTable::Format3(anchor)).is_empty());
}

#[test]
fn mark_array_writes_count_and_records() {
    let array = MarkArray {
        mark_records: vec![
            MarkRecord { mark_class: 7, mark_anchor_offset: Some(anchor(0, 0)) },
            MarkRecord { mark_class: 0x0102, mark_anchor_offset: None },
        ],
    };
    let mut w = TableWriter::new();
    array.write_into(&mut w);
    assert_eq!(w.bytes, vec![0, 2, 0, 7, 0, 0, 1, 2, 0, 0]);
    assert_eq!(w.offsets, vec![open(4, false), open(8, true)]);
}

#[test]
fn validation_reports_missing_anchors() {
    let array = MarkArray {
        mark_records: vec![
            MarkRecord {
                mark_class: 7,
                mark_anchor_offset: Some(AnchorTable::Format2(AnchorFormat2 {
                    x_coordinate: 0,
                    y_coordinate: 0,
                    anchor_point: 1,
                })),
            },
            MarkRecord { mark_class: 1, mark_anchor_offset: None },
        ],
    };
    assert_eq!(
        errors(&array),
        vec![ValidationError {
            table: "MarkRecord",
            field: "mark_anchor_offset",
            message: "offset field should not be null",
        }]
    );
}

#[test]
fn validation_reports_an_array_that_is_too_long() {
    let record = MarkRecord { mark_class: 0, mark_anchor_offset: Some(anchor(0, 0)) };
    let array = MarkArray { mark_records: vec![record.clone(); 65536] };
    assert_eq!(
        errors(&array),
        vec![ValidationError {
            table: "MarkArray",
            field: "mark_records",
            message: "array excedes max length",
        }]
    );
    let array = MarkArray { mark_records: vec![record; 65535] };
    assert!(errors(&array).is_empty());
}

#[test]
fn array_len_and_plus_one_check_the_range() {
    assert_eq!(array_len(&vec![0u8; 3]), Some(3));
    assert_eq!(array_len(&vec![0u8; 65535]), Some(65535));
    assert_eq!(array_len(&vec![0u8; 65536]), None);
    assert_eq!(plus_one(&0), Some(1));
    assert_eq!(plus_one(&65534), Some(65535));
    assert_eq!(plus_one(&65535), None);
    assert_eq!(plus_one(&usize::MAX), None);
}

#[test]
fn entry_exit_record_is_two_offsets() {
    let record = EntryExitRecord { entry_anchor_offset: None, exit_anchor_offset: Some(anchor(1, 1)) };
    let mut w = TableWriter::new();
    w.write_u16(1);
    record.write_into(&mut w);
    assert_eq!(w.bytes, vec![0, 1, 0, 0, 0, 0]);
    assert_eq!(w.offsets, vec![open(2, true), open(4, false)]);
    assert!(errors(&record).is_empty());
}

#[test]
fn base_array_writes_count_and_the_offsets_of_each_record() {
    let array = BaseArray {
        base_records: vec![
            BaseRecord { base_anchor_offsets: vec![Some(anchor(1, 2)), None] },
            BaseRecord { base_anchor_offsets: vec![None, Some(anchor(3, 4))] },
        ],
    };
    let mut w = TableWriter::new();
    array.write_into(&mut w);
    assert_eq!(w.bytes, vec![0, 2, 0, 0, 0, 0, 0, 0, 0, 0]);
    assert_eq!(w.offsets, vec![open(2, false), open(4, true), open(6, true), open(8, false)]);
    assert!(errors(&array).is_empty());
    assert!(errors(&array.base_records[0]).is_empty());
}

#[test]
fn mark2_array_is_written_like_a_base_array() {
    let array = Mark2Array {
        mark2_records: vec![Mark2Record { mark2_anchor_offsets: vec![None, None, None] }],
    };
    let mut w = TableWriter::new();
    array.write_into(&mut w);
    assert_eq!(w.bytes, vec![0, 1, 0, 0, 0, 0, 0, 0]);
    assert_eq!(w.offsets, vec![open(2, true), open(4, true), open(6, true)]);
    assert!(errors(&array).is_empty());
    assert!(errors(&array.mark2_records[0]).is_empty());
}

fn attach(classes: usize) -> LigatureAttach {
    LigatureAttach {
        component_records: vec![
            ComponentRecord { ligature_anchor_offsets: vec![Some(anchor(0, 0)); classes] },
            ComponentRecord { ligature_anchor_offsets: vec![None; classes] },
        ],
    }
}

#[test]
fn ligature_attach_writes_count_and_records() {
    let table = attach(1);
    let mut w = TableWriter::new();
    table.write_into(&mut w);
    assert_eq!(w.bytes, vec![0, 2, 0, 0, 0, 0]);
    assert_eq!(w.offsets, vec![open(2, false), open(4, true)]);
    assert!(errors(&table).is_empty());
    assert!(errors(&table.component_records[1]).is_empty());
}

#[test]
fn ligature_array_needs_each_of_its_tables() {
    let array = LigatureArray { ligature_attach_offsets: vec![Some(attach(2)), None, None] };
    let mut w = TableWriter::new();
    array.write_into(&mut w);
    assert_eq!(w.bytes, vec![0, 3, 0, 0, 0, 0, 0, 0]);
    assert_eq!(w.offsets, vec![open(2, false), open(4, true), open(6, true)]);
    let missing = ValidationError {
        table: "LigatureArray",
        field: "ligature_attach_offsets",
        message: "offset field should not be null",
    };
    assert_eq!(errors(&array), vec![missing, missing]);
    let long = LigatureArray { ligature_attach_offsets: vec![Some(attach(0)); 65536] };
    assert_eq!(
        errors(&long),
        vec![ValidationError {
            table: "LigatureArray",
            field: "ligature_attach_offsets",
            message: "array excedes max length",
        }]
    );
}

#[test]
fn items_and_offsets_are_written_in_order() {
    let mut w = TableWriter::new();
    write_items(&vec![AnchorFormat1 { x_coordinate: 1, y_coordinate: 2 }; 2], &mut w);
    assert_eq!(w.bytes, vec![0, 1, 0, 1, 0, 2, 0, 1, 0, 1, 0, 2]);
    write_offsets(&vec![Some(1u8), None], &mut w);
    assert_eq!(w.bytes.len(), 16);
    assert_eq!(w.offsets, vec![open(12, false), open(14, true)]);
    let mut w = TableWriter::new();
    w.write_i16(-1);
    w.write_offset16(true);
    assert_eq!(w.bytes, vec![0xFF, 0xFF, 0, 0]);
    assert_eq!(w.offsets, vec![open(2, true)]);
    let mut ctx = ValidationCtx::new();
    ctx.report("A", "b", "c");
    assert_eq!(ctx.errors, vec![ValidationError { table: "A", field: "b", message: "c" }]);
}
