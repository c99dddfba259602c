use glyph_load::name::{LangTagRecord, Name, NameMarker, NameRecord, ReadError};

fn table(version: u16, records: &[[u16; 6]], tags: Option<&[[u16; 2]]>) -> Vec<u8> {
    let mut bytes = vec![];
    bytes.extend_from_slice(&version.to_be_bytes());
    bytes.extend_from_slice(&(records.len() as u16).to_be_bytes());
    bytes.extend_from_slice(&0x1234u16.to_be_bytes());
    for record in records {
        for field in record {
            bytes.extend_from_slice(&field.to_be_bytes());
        }
    }
    if let Some(tags) = tags {
        bytes.extend_from_slice(&(tags.len() as u16).to_be_bytes());
        for tag in tags {
            for field in tag {
                bytes.extend_from_slice(&field.to_be_bytes());
            }
        }
    }
    bytes
}

#[test]
fn version_0_table_has_header_and_records() {
    let bytes = table(0, &[[3, 1, 0x409, 4, 18, 0], [1, 0, 0, 6, 7, 0x0102]], None);
    let name = Name::read(&bytes).unwrap();
    assert_eq!(name.version(), 0);
    assert_eq!(name.count(), 2);
    assert_eq!(name.storage_offset().to_u32(), 0x1234);
    let records = name.name_record();
    assert_eq!(records.len(), 2);
    assert_eq!(records[0].platform_id(), 3);
    assert_eq!(records[0].encoding_id(), 1);
    assert_eq!(records[0].language_id(), 0x409);
    assert_eq!(records[0].name_id(), 4);
    assert_eq!(records[0].length(), 18);
    assert_eq!(records[0].string_offset().to_u32(), 0);
    assert_eq!(records[1].platform_id(), 1);
    assert_eq!(records[1].name_id(), 6);
    assert_eq!(records[1].length(), 7);
    assert_eq!(records[1].string_offset().to_u32(), 0x0102);
    assert_eq!(name.lang_tag_count(), None);
    assert_eq!(name.lang_tag_record(), None);
}

#[test]
fn version_1_table_has_language_tags() {
    let bytes = table(1, &[[0, 3, 0, 1, 2, 3]], Some(&[[10, 0x20], [0xFFFF, 0x8001]]));
    let name = Name::read(&bytes).unwrap();
    assert_eq!(name.version(), 1);
    assert_eq!(name.count(), 1);
    assert_eq!(name.lang_tag_count(), Some(2));
    let tags = name.lang_tag_record().unwrap();
    assert_eq!(tags.len(), 2);
    assert_eq!(tags[0].length(), 10);
    assert_eq!(tags[0].lang_tag_offset().to_u32(), 0x20);
    assert_eq!(tags[1].length(), 0xFFFF);
    assert_eq!(tags[1].lang_tag_offset().to_u32(), 0x8001);
}

#[test]
fn short_tables_are_out_of_bounds() {
    assert_eq!(Name::read(&[]).err(), Some(ReadError::OutOfBounds));
    assert_eq!(Name::read(&[0, 0, 0, 0, 0]).err(), Some(ReadError::OutOfBounds));
    // One record announced, none there.
    assert_eq!(Name::read(&[0, 0, 0, 1, 0, 6]).err(), Some(ReadError::OutOfBounds));
    let mut bytes = table(0, &[[1, 2, 3, 4, 5, 6]], None);
    assert!(Name::read(&bytes).is_ok());
    bytes.pop();
    assert_eq!(Name::read(&bytes).err(), Some(ReadError::OutOfBounds));
    // Version 1 needs the count of language tags.
    let bytes = table(1, &[], None);
    assert_eq!(NameMarker::parse(&bytes).err(), Some(ReadError::OutOfBounds));
    let mut bytes = table(1, &[], Some(&[[1, 2]]));
    assert!(NameMarker::parse(&bytes).is_ok());
    bytes.pop();
    assert_eq!(NameMarker::parse(&bytes).err(), Some(ReadError::OutOfBounds));
}

#[test]
fn empty_header_is_a_table() {
    let name = Name::read(&[0, 0, 0, 0, 0, 6]).unwrap();
    assert_eq!(name.count(), 0);
    assert!(name.name_record().is_empty());
    assert_eq!(name.storage_offset().to_u32(), 6);
}

#[test]
fn record_fields_are_big_endian() {
    let record = NameRecord {
        platform_id: [0x01, 0x02],
        encoding_id: [0, 0xFF],
        language_id: [0xFF, 0],
        name_id: [0, 0],
        length: [0xFF, 0xFF],
        string_offset: [0x80, 0x00],
    };
    assert_eq!(record.platform_id(), 0x0102);
    assert_eq!(record.encoding_id(), 0x00FF);
    assert_eq!(record.language_id(), 0xFF00);
    assert_eq!(record.name_id(), 0);
    assert_eq!(record.length(), 0xFFFF);
    assert_eq!(record.string_offset().to_u32(), 0x8000);
    let tag = LangTagRecord { length: [0, 5], lang_tag_offset: [1, 0] };
    assert_eq!(tag.length(), 5);
    assert_eq!(tag.lang_tag_offset().to_u32(), 256);
}
