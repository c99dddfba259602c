//! The naming table: a typed view of its bytes.

use crate::read::{be16, read_u16, u16_at};
use core::ops::Range;
use font_types::Offset16;
use vstd::prelude::*;

verus! {

/// The 16-bit offset of `font-types`, of which nothing is seen here.
#[verifier::external_type_specification]
#[verifier::external_body]
pub struct ExOffset16(Offset16);

/// The number that an offset stands for.
pub uninterp spec fn offset_raw(offset: Offset16) -> u16;

/// Calls `font_types::Offset16::new`, which keeps the number that it is
/// given. The contract claims that the offset made stands for `raw`.
#[verifier::external_body]
fn offset16(raw: u16) -> (offset: Offset16)
    ensures
        offset_raw(offset) == raw,
{
    Offset16::new(raw)
}

/// Why a table could not be read.
#[derive(Copy, Clone, PartialEq, Eq, Structural, Debug)]
pub enum ReadError {
    /// The table ends before one of its fields does.
    OutOfBounds,
    /// The font has no such table.
    TableIsMissing,
}

/// Bytes of a 16-bit field.
pub const U16_LEN: usize = 2;

/// Bytes of one name record.
pub const NAME_RECORD_LEN: usize = 12;

/// Bytes of one language-tag record.
pub const LANG_TAG_RECORD_LEN: usize = 4;

/// The position after the name records of the table `bytes`.
pub open spec fn records_end(bytes: Seq<u8>) -> int {
    6 + u16_at(bytes, 2) * 12
}

/// Holds when `bytes` hold a whole naming table: the header, the name
/// records that it counts and, from version 1 on, the count of language tags
/// and as many records of them.
pub open spec fn is_name_table(bytes: Seq<u8>) -> bool {
    &&& bytes.len() >= 6
    &&& bytes.len() >= records_end(bytes)
    &&& u16_at(bytes, 0) >= 1 ==> bytes.len() >= records_end(bytes) + 2 && bytes.len()
        >= records_end(bytes) + 2 + u16_at(bytes, records_end(bytes)) * 4
}

/// Part of [`Name`].
#[derive(Copy, Clone, PartialEq, Eq, Debug)]
pub struct LangTagRecord {
    /// Language-tag string length (in bytes)
    pub length: [u8; 2],
    /// Language-tag string offset from start of storage area (in
    /// bytes).
    pub lang_tag_offset: [u8; 2],
}

/// One name record.
#[derive(Copy, Clone, PartialEq, Eq, Debug)]
pub struct NameRecord {
    /// Platform ID.
    pub platform_id: [u8; 2],
    /// Platform-specific encoding ID.
    pub encoding_id: [u8; 2],
    /// Language ID.
    pub language_id: [u8; 2],
    /// Name ID.
    pub name_id: [u8; 2],
    /// String length (in bytes).
    pub length: [u8; 2],
    /// String offset from start of storage area (in bytes).
    pub string_offset: [u8; 2],
}

/// The number that a field of two bytes stands for.
pub open spec fn field_value(field: [u8; 2]) -> u16 {
    be16(field@[0], field@[1])
}

fn decode(field: &[u8; 2]) -> (r: u16)
    ensures
        r == field_value(*field),
{
    (field[0] as u16) * 256 + field[1] as u16
}

impl LangTagRecord {
    /// Language-tag string length (in bytes)
    pub fn length(&self) -> (r: u16)
        ensures
            r == field_value(self.length),
    {
        decode(&self.length)
    }

    /// Language-tag string offset from start of storage area (in
    /// bytes).
    pub fn lang_tag_offset(&self) -> (r: Offset16)
        ensures
            offset_raw(r) == field_value(self.lang_tag_offset),
    {
        offset16(decode(&self.lang_tag_offset))
    }
}

impl NameRecord {
    /// Platform ID.
    pub fn platform_id(&self) -> (r: u16)
        ensures
            r == field_value(self.platform_id),
    {
        decode(&self.platform_id)
    }

    /// Platform-specific encoding ID.
    pub fn encoding_id(&self) -> (r: u16)
        ensures
            r == field_value(self.encoding_id),
    {
        decode(&self.encoding_id)
    }

    /// Language ID.
    pub fn language_id(&self) -> (r: u16)
        ensures
            r == field_value(self.language_id),
    {
        decode(&self.language_id)
    }

    /// Name ID.
    pub fn name_id(&self) -> (r: u16)
        ensures
            r == field_value(self.name_id),
    {
        decode(&self.name_id)
    }

    /// String length (in bytes).
    pub fn length(&self) -> (r: u16)
        ensures
            r == field_value(self.length),
    {
        decode(&self.length)
    }

    /// String offset from start of storage area (in bytes).
    pub fn string_offset(&self) -> (r: Offset16)
        ensures
            offset_raw(r) == field_value(self.string_offset),
    {
        offset16(decode(&self.string_offset))
    }
}

/// The name record at position `pos` of `bytes`.
pub open spec fn name_record_at(bytes: Seq<u8>, pos: int) -> NameRecord {
    NameRecord {
        platform_id: [bytes[pos], bytes[pos + 1]],
        encoding_id: [bytes[pos + 2], bytes[pos + 3]],
        language_id: [bytes[pos + 4], bytes[pos + 5]],
        name_id: [bytes[pos + 6], bytes[pos + 7]],
        length: [bytes[pos + 8], bytes[pos + 9]],
        string_offset: [bytes[pos + 10], bytes[pos + 11]],
    }
}

/// The language-tag record at position `pos` of `bytes`.
pub open spec fn lang_tag_record_at(bytes: Seq<u8>, pos: int) -> LangTagRecord {
    LangTagRecord {
        length: [bytes[pos], bytes[pos + 1]],
        lang_tag_offset: [bytes[pos + 2], bytes[pos + 3]],
    }
}

/// Where the fields of a naming table lie: what reading its header found.
#[derive(Copy, Clone, PartialEq, Eq, Structural, Debug)]
pub struct NameMarker {
    name_record_byte_len: usize,
    lang_tag_count_byte_start: Option<usize>,
    lang_tag_record_byte_start: Option<usize>,
    lang_tag_record_byte_len: Option<usize>,
}

impl NameMarker {
    /// Holds when the marker is the one of the naming table `bytes`.
    pub closed spec fn marks(&self, bytes: Seq<u8>) -> bool {
        &&& is_name_table(bytes)
        &&& self.name_record_byte_len == u16_at(bytes, 2) * 12
        &&& if u16_at(bytes, 0) >= 1 {
            &&& self.lang_tag_count_byte_start == Some(records_end(bytes) as usize)
            &&& self.lang_tag_record_byte_start == Some((records_end(bytes) + 2) as usize)
            &&& self.lang_tag_record_byte_len == Some(
                (u16_at(bytes, records_end(bytes)) * 4) as usize,
            )
        } else {
            &&& self.lang_tag_count_byte_start.is_none()
            &&& self.lang_tag_record_byte_start.is_none()
            &&& self.lang_tag_record_byte_len.is_none()
        }
    }

    /// Reads the header of a naming table and finds where its fields lie.
    /// Fails where the table ends before one of them does.
    pub fn parse(data: &[u8]) -> (r: Result<NameMarker, ReadError>)
        ensures
            r.is_ok() <==> is_name_table(data@),
            r matches Ok(marker) ==> marker.marks(data@),
            r matches Err(e) ==> e == ReadError::OutOfBounds,
    {
        let len = data.len();
        if len < 6 {
            return Err(ReadError::OutOfBounds);
        }
        let version = read_u16(data, 0);
        let count = read_u16(data, 2);
        let name_record_byte_len = count as usize * NAME_RECORD_LEN;
        let mut position = 6 + name_record_byte_len;
        if len < position {
            return Err(ReadError::OutOfBounds);
        }
        if version < 1 {
            return Ok(
                NameMarker {
                    name_record_byte_len,
                    lang_tag_count_byte_start: None,
                    lang_tag_record_byte_start: None,
                    lang_tag_record_byte_len: None,
                },
            );
        }
        let lang_tag_count_byte_start = position;
        if len - position < U16_LEN {
            return Err(ReadError::OutOfBounds);
        }
        let lang_tag_count = read_u16(data, position);
        position = position + U16_LEN;
        let lang_tag_record_byte_len = lang_tag_count as usize * LANG_TAG_RECORD_LEN;
        if len - position < lang_tag_record_byte_len {
            return Err(ReadError::OutOfBounds);
        }
        Ok(
            NameMarker {
                name_record_byte_len,
                lang_tag_count_byte_start: Some(lang_tag_count_byte_start),
                lang_tag_record_byte_start: Some(position),
                lang_tag_record_byte_len: Some(lang_tag_record_byte_len),
            },
        )
    }

    fn version_byte_range(&self) -> (r: Range<usize>)
        ensures
            r.start == 0 && r.end == 2,
    {
        let start: usize = 0;
        start..start + U16_LEN
    }

    fn count_byte_range(&self) -> (r: Range<usize>)
        ensures
            r.start == 2 && r.end == 4,
    {
        let start = self.version_byte_range().end;
        start..start + U16_LEN
    }

    fn storage_offset_byte_range(&self) -> (r: Range<usize>)
        ensures
            r.start == 4 && r.end == 6,
    {
        let start = self.count_byte_range().end;
        start..start + U16_LEN
    }

    fn name_record_byte_range(&self, Ghost(bytes): Ghost<Seq<u8>>) -> (r: Range<usize>)
        requires
            self.marks(bytes),
        ensures
            r.start == 6 && r.end == records_end(bytes),
            r.end <= bytes.len(),
    {
        let start = self.storage_offset_byte_range().end;
        start..start + self.name_record_byte_len
    }

    fn lang_tag_count_byte_range(&self, Ghost(bytes): Ghost<Seq<u8>>) -> (r: Option<Range<usize>>)
        requires
            self.marks(bytes),
        ensures
            r.is_some() == (u16_at(bytes, 0) >= 1),
            r matches Some(range) ==> range.start == records_end(bytes) && range.end
                == records_end(bytes) + 2 && range.end <= bytes.len(),
    {
        match self.lang_tag_count_byte_start {
            Some(start) => Some(start..start + U16_LEN),
            None => None,
        }
    }

    fn lang_tag_record_byte_range(&self, Ghost(bytes): Ghost<Seq<u8>>) -> (r: Option<Range<usize>>)
        requires
            self.marks(bytes),
        ensures
            r.is_some() == (u16_at(bytes, 0) >= 1),
            r matches Some(range) ==> range.start == records_end(bytes) + 2 && range.end
                == records_end(bytes) + 2 + u16_at(bytes, records_end(bytes)) * 4 && range.end
                <= bytes.len(),
    {
        match (self.lang_tag_record_byte_start, self.lang_tag_record_byte_len) {
            (Some(start), Some(len)) => Some(start..start + len),
            _ => None,
        }
    }
}

/// [Naming table version 1](https://docs.microsoft.com/en-us/typography/opentype/spec/name#naming-table-version-1)
#[derive(Copy, Clone, Debug)]
pub struct Name<'a> {
    data: &'a [u8],
    shape: NameMarker,
}

impl<'a> Name<'a> {
    /// The bytes of the table.
    pub closed spec fn bytes(&self) -> Seq<u8> {
        self.data@
    }

    /// The view lies on a whole naming table.
    #[verifier::type_invariant]
    spec fn inv(&self) -> bool {
        self.shape.marks(self.data@)
    }

    /// Reads a naming table. Fails where the bytes end before one of the
    /// table's fields does.
    pub fn read(data: &'a [u8]) -> (r: Result<Self, ReadError>)
        ensures
            r.is_ok() <==> is_name_table(data@),
            r matches Ok(name) ==> name.bytes() == data@,
            r matches Err(e) ==> e == ReadError::OutOfBounds,
    {
        match NameMarker::parse(data) {
            Ok(shape) => Ok(Name { data, shape }),
            Err(e) => Err(e),
        }
    }

    /// Table version number (0 or 1)
    pub fn version(&self) -> (r: u16)
        ensures
            is_name_table(self.bytes()),
            r == u16_at(self.bytes(), 0),
    {
        proof {
            use_type_invariant(self);
        }
        let range = self.shape.version_byte_range();
        read_u16(self.data, range.start)
    }

    /// Number of name records.
    pub fn count(&self) -> (r: u16)
        ensures
            is_name_table(self.bytes()),
            r == u16_at(self.bytes(), 2),
    {
        proof {
            use_type_invariant(self);
        }
        let range = self.shape.count_byte_range();
        read_u16(self.data, range.start)
    }

    /// Offset to start of string storage (from start of table).
    pub fn storage_offset(&self) -> (r: Offset16)
        ensures
            is_name_table(self.bytes()),
            offset_raw(r) == u16_at(self.bytes(), 4),
    {
        proof {
            use_type_invariant(self);
        }
        let range = self.shape.storage_offset_byte_range();
        offset16(read_u16(self.data, range.start))
    }

    /// The name records where count is the number of records.
    pub fn name_record(&self) -> (r: Vec<NameRecord>)
        ensures
            is_name_table(self.bytes()),
            r@.len() == u16_at(self.bytes(), 2),
            forall|i: int|
                0 <= i < r@.len() ==> (#[trigger] r@[i]) == name_record_at(
                    self.bytes(),
                    6 + 12 * i,
                ),
    {
        proof {
            use_type_invariant(self);
        }
        let range = self.shape.name_record_byte_range(Ghost(self.data@));
        let mut records: Vec<NameRecord> = Vec::new();
        let mut pos = range.start;
        while pos < range.end
            invariant
                range.start == 6,
                range.end == records_end(self.data@),
                range.end <= self.data@.len(),
                pos == 6 + 12 * records@.len(),
                pos <= range.end,
                forall|i: int|
                    0 <= i < records@.len() ==> (#[trigger] records@[i]) == name_record_at(
                        self.data@,
                        6 + 12 * i,
                    ),
            decreases range.end - pos,
        {
            let d = self.data;
            let record = NameRecord {
                platform_id: [d[pos], d[pos + 1]],
                encoding_id: [d[pos + 2], d[pos + 3]],
                language_id: [d[pos + 4], d[pos + 5]],
                name_id: [d[pos + 6], d[pos + 7]],
                length: [d[pos + 8], d[pos + 9]],
                string_offset: [d[pos + 10], d[pos + 11]],
            };
            records.push(record);
            pos = pos + NAME_RECORD_LEN;
        }
        records
    }

    /// Number of language-tag records.
    pub fn lang_tag_count(&self) -> (r: Option<u16>)
        ensures
            is_name_table(self.bytes()),
            r == if u16_at(self.bytes(), 0) >= 1 {
                Some(u16_at(self.bytes(), records_end(self.bytes())))
            } else {
                None
            },
    {
        proof {
            use_type_invariant(self);
        }
        match self.shape.lang_tag_count_byte_range(Ghost(self.data@)) {
            Some(range) => Some(read_u16(self.data, range.start)),
            None => None,
        }
    }

    /// The language-tag records where langTagCount is the number of records.
    pub fn lang_tag_record(&self) -> (r: Option<Vec<LangTagRecord>>)
        ensures
            is_name_table(self.bytes()),
            r.is_some() == (u16_at(self.bytes(), 0) >= 1),
            r matches Some(records) ==> records@.len() == u16_at(
                self.bytes(),
                records_end(self.bytes()),
            ) && forall|i: int|
                0 <= i < records@.len() ==> (#[trigger] records@[i]) == lang_tag_record_at(
                    self.bytes(),
                    records_end(self.bytes()) + 2 + 4 * i,
                ),
    {
        proof {
            use_type_invariant(self);
        }
        let range = match self.shape.lang_tag_record_byte_range(Ghost(self.data@)) {
            Some(range) => range,
            None => {
                return None;
            },
        };
        let mut records: Vec<LangTagRecord> = Vec::new();
        let mut pos = range.start;
        while pos < range.end
            invariant
                range.start == records_end(self.data@) + 2,
                range.end == range.start + u16_at(self.data@, records_end(self.data@)) * 4,
                range.end <= self.data@.len(),
                pos == range.start + 4 * records@.len(),
                pos <= range.end,
                forall|i: int|
                    0 <= i < records@.len() ==> (#[trigger] records@[i]) == lang_tag_record_at(
                        self.data@,
                        range.start + 4 * i,
                    ),
            decreases range.end - pos,
        {
            let d = self.data;
            let record = LangTagRecord {
                length: [d[pos], d[pos + 1]],
                lang_tag_offset: [d[pos + 2], d[pos + 3]],
            };
            records.push(record);
            pos = pos + LANG_TAG_RECORD_LEN;
        }
        Some(records)
    }
}

} // verus!
