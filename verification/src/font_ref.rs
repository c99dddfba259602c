//! A font file: its table directory and the bytes of its tables.

use crate::read::{read_u16, read_u32, u16_at, u32_at};
use crate::table_provider::{tag_bytes, tag_raw, TableProvider};
use font_types::Tag;
use vstd::prelude::*;
use vstd::slice::slice_subrange;

verus! {

/// The version of a font with TrueType outlines.
pub const TT_SFNT_VERSION: u32 = 0x0001_0000;

/// The version of a font with CFF outlines.
pub const CFF_SFNT_VERSION: u32 = 0x4F54_544F;

/// Bytes of the header of the table directory.
pub const DIRECTORY_HEADER_LEN: usize = 12;

/// Bytes of one record of the table directory.
pub const TABLE_RECORD_LEN: usize = 16;

/// Holds when `bytes` start with a table directory of a known version that
/// is whole.
pub open spec fn is_font(bytes: Seq<u8>) -> bool {
    &&& bytes.len() >= DIRECTORY_HEADER_LEN
    &&& u32_at(bytes, 0) == TT_SFNT_VERSION || u32_at(bytes, 0) == CFF_SFNT_VERSION
    &&& bytes.len() >= DIRECTORY_HEADER_LEN + TABLE_RECORD_LEN * u16_at(bytes, 4)
}

/// Where record `i` of the table directory starts.
pub open spec fn record_pos(i: int) -> int {
    DIRECTORY_HEADER_LEN + TABLE_RECORD_LEN * i
}

/// The tag of record `i` of the table directory.
pub open spec fn record_tag(bytes: Seq<u8>, i: int) -> Seq<u8> {
    bytes.subrange(record_pos(i), record_pos(i) + 4)
}

/// The bytes of the table that record `i` of the table directory names:
/// nothing where the record gives no offset or the table leaves the font.
pub open spec fn record_data(bytes: Seq<u8>, i: int) -> Option<Seq<u8>> {
    let offset = u32_at(bytes, record_pos(i) + 8) as int;
    let length = u32_at(bytes, record_pos(i) + 12) as int;
    if offset != 0 && offset + length <= bytes.len() {
        Some(bytes.subrange(offset, offset + length))
    } else {
        None
    }
}

/// The table with the tag `tag`: that of the first record from `i` on that
/// bears the tag.
pub open spec fn table_from(bytes: Seq<u8>, tag: Seq<u8>, i: int) -> Option<Seq<u8>>
    decreases u16_at(bytes, 4) - i,
{
    if i < 0 || i >= u16_at(bytes, 4) {
        None
    } else if record_tag(bytes, i) == tag {
        record_data(bytes, i)
    } else {
        table_from(bytes, tag, i + 1)
    }
}

/// A font file.
#[derive(Copy, Clone, Debug)]
pub struct FontRef<'a> {
    data: &'a [u8],
}

impl<'a> FontRef<'a> {
    /// The bytes of the font.
    pub closed spec fn bytes(&self) -> Seq<u8> {
        self.data@
    }

    /// The font starts with a whole table directory.
    #[verifier::type_invariant]
    spec fn inv(&self) -> bool {
        is_font(self.data@)
    }

    /// The table with the tag `tag`, if the font has it.
    pub open spec fn spec_table(&self, tag: Seq<u8>) -> Option<Seq<u8>> {
        table_from(self.bytes(), tag, 0)
    }

    /// Takes `data` for a font. Fails where it does not start with a whole
    /// table directory of a known version.
    pub fn new(data: &'a [u8]) -> (r: Option<Self>)
        ensures
            r.is_some() == is_font(data@),
            r matches Some(font) ==> font.bytes() == data@,
    {
        let len = data.len();
        if len < DIRECTORY_HEADER_LEN {
            return None;
        }
        let version = read_u32(data, 0);
        if version != TT_SFNT_VERSION && version != CFF_SFNT_VERSION {
            return None;
        }
        let num_tables = read_u16(data, 4) as usize;
        if len - DIRECTORY_HEADER_LEN < TABLE_RECORD_LEN * num_tables {
            return None;
        }
        Some(FontRef { data })
    }

    /// The number of tables in the font.
    pub fn num_tables(&self) -> (n: u16)
        ensures
            is_font(self.bytes()),
            n == u16_at(self.bytes(), 4),
    {
        proof {
            use_type_invariant(self);
        }
        read_u16(self.data, 4)
    }

    /// Looks up the table with the four bytes `tag` for a tag.
    pub fn table(&self, tag: &[u8; 4]) -> (r: Option<&'a [u8]>)
        ensures
            match r {
                Some(data) => self.spec_table(tag@) == Some(data@),
                None => self.spec_table(tag@).is_none(),
            },
    {
        proof {
            use_type_invariant(self);
        }
        let data = self.data;
        let len = data.len();
        let n = read_u16(data, 4) as usize;
        let mut i: usize = 0;
        while i < n
            invariant
                i <= n,
                data@ == self.bytes(),
                n == u16_at(data@, 4),
                len == data@.len(),
                len >= DIRECTORY_HEADER_LEN + TABLE_RECORD_LEN * n,
                table_from(data@, tag@, 0) == table_from(data@, tag@, i as int),
            decreases n - i,
        {
            let pos = DIRECTORY_HEADER_LEN + TABLE_RECORD_LEN * i;
            let same = data[pos] == tag[0] && data[pos + 1] == tag[1] && data[pos + 2] == tag[2]
                && data[pos + 3] == tag[3];
            assert(same == (record_tag(data@, i as int) == tag@)) by {
                let t = record_tag(data@, i as int);
                if same {
                    assert(t =~= tag@);
                } else {
                    assert(t[0] == data@[pos as int] && t[1] == data@[pos + 1] && t[2] == data@[pos
                        + 2] && t[3] == data@[pos + 3]);
                }
            }
            if same {
                let offset = read_u32(data, pos + 8) as usize;
                let length = read_u32(data, pos + 12) as usize;
                if offset == 0 || offset > len || len - offset < length {
                    return None;
                }
                return Some(slice_subrange(data, offset, offset + length));
            }
            i += 1;
        }
        None
    }
}

impl<'a> TableProvider for FontRef<'a> {
    /// Looks up the table with the tag `tag`.
    fn data_for_tag(&self, tag: Tag) -> (data: Option<&[u8]>)
        ensures
            match data {
                Some(bytes) => self.spec_table(tag_raw(tag)) == Some(bytes@),
                None => self.spec_table(tag_raw(tag)).is_none(),
            },
    {
        let bytes = tag_bytes(tag);
        self.table(&bytes)
    }
}

} // verus!
