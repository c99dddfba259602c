//! a trait for things that can serve font tables

use crate::name::{Name, ReadError};
use font_types::Tag;
use vstd::prelude::*;

verus! {

/// The table tag of `font-types`, of which nothing is seen here.
#[verifier::external_type_specification]
#[verifier::external_body]
pub struct ExTag(Tag);

/// The four bytes that a tag stands for.
pub uninterp spec fn tag_raw(tag: Tag) -> Seq<u8>;

/// Holds when `bytes` are four bytes that make a tag: printable characters
/// that do not start with a space and have spaces at the end only.
pub open spec fn is_tag(bytes: Seq<u8>) -> bool {
    &&& bytes.len() == 4
    &&& bytes[0] != 0x20
    &&& forall|i: int| 0 <= i < 4 ==> 0x20 <= #[trigger] bytes[i] <= 0x7E
    &&& forall|i: int, j: int| 0 <= i < j < 4 && bytes[i] == 0x20 ==> bytes[j] == 0x20
}

/// Calls `font_types::Tag::new`, which keeps the bytes that it is given,
/// filled up with spaces to four, and panics where they do not make a tag.
/// The contract asks for four bytes that make a tag and claims that the tag
/// made stands for them.
#[verifier::external_body]
fn new_tag(bytes: &[u8; 4]) -> (tag: Tag)
    requires
        is_tag(bytes@),
    ensures
        tag_raw(tag) == bytes@,
{
    Tag::new(bytes)
}

/// Calls `font_types::Tag::to_be_bytes`, which hands out the four bytes of
/// the tag. The contract gives them the name `tag_raw(tag)`.
#[verifier::external_body]
pub(crate) fn tag_bytes(tag: Tag) -> (bytes: [u8; 4])
    ensures
        bytes@ == tag_raw(tag),
{
    tag.to_be_bytes()
}

/// The tables that this crate asks a font for.
#[derive(Copy, Clone, PartialEq, Eq, Structural, Debug)]
pub enum TableTag {
    Head,
    Maxp,
    Hhea,
    Hmtx,
    Loca,
    Glyf,
    Fpgm,
    Prep,
    Cvt,
    Name,
}

impl TableTag {
    /// The four bytes of the tag.
    pub open spec fn spec_bytes(&self) -> Seq<u8> {
        match self {
            TableTag::Head => seq![0x68u8, 0x65u8, 0x61u8, 0x64u8],
            TableTag::Maxp => seq![0x6Du8, 0x61u8, 0x78u8, 0x70u8],
            TableTag::Hhea => seq![0x68u8, 0x68u8, 0x65u8, 0x61u8],
            TableTag::Hmtx => seq![0x68u8, 0x6Du8, 0x74u8, 0x78u8],
            TableTag::Loca => seq![0x6Cu8, 0x6Fu8, 0x63u8, 0x61u8],
            TableTag::Glyf => seq![0x67u8, 0x6Cu8, 0x79u8, 0x66u8],
            TableTag::Fpgm => seq![0x66u8, 0x70u8, 0x67u8, 0x6Du8],
            TableTag::Prep => seq![0x70u8, 0x72u8, 0x65u8, 0x70u8],
            TableTag::Cvt => seq![0x63u8, 0x76u8, 0x74u8, 0x20u8],
            TableTag::Name => seq![0x6Eu8, 0x61u8, 0x6Du8, 0x65u8],
        }
    }

    /// The four bytes of the tag.
    pub fn bytes(&self) -> (bytes: [u8; 4])
        ensures
            bytes@ == self.spec_bytes(),
            is_tag(bytes@),
    {
        let bytes: [u8; 4] = match self {
            TableTag::Head => [0x68, 0x65, 0x61, 0x64],
            TableTag::Maxp => [0x6D, 0x61, 0x78, 0x70],
            TableTag::Hhea => [0x68, 0x68, 0x65, 0x61],
            TableTag::Hmtx => [0x68, 0x6D, 0x74, 0x78],
            TableTag::Loca => [0x6C, 0x6F, 0x63, 0x61],
            TableTag::Glyf => [0x67, 0x6C, 0x79, 0x66],
            TableTag::Fpgm => [0x66, 0x70, 0x67, 0x6D],
            TableTag::Prep => [0x70, 0x72, 0x65, 0x70],
            TableTag::Cvt => [0x63, 0x76, 0x74, 0x20],
            TableTag::Name => [0x6E, 0x61, 0x6D, 0x65],
        };
        assert(bytes@ =~= self.spec_bytes());
        bytes
    }

    /// The tag as `font-types` has it.
    pub fn tag(&self) -> (tag: Tag)
        ensures
            tag_raw(tag) == self.spec_bytes(),
    {
        let bytes = self.bytes();
        new_tag(&bytes)
    }
}

/// An interface for accessing tables from a font (or font-like object)
pub trait TableProvider {
    /// The bytes of the table with the tag `tag`, if the font has it.
    fn data_for_tag(&self, tag: Tag) -> (data: Option<&[u8]>);
}

/// The bytes of the table with the tag `tag`, or why there are none.
pub fn expect_data_for_tag<T: TableProvider>(font: &T, tag: Tag) -> (r: Result<&[u8], ReadError>)
    ensures
        r matches Err(e) ==> e == ReadError::TableIsMissing,
{
    expect_table(font.data_for_tag(tag))
}

/// Reads what came back for the naming table of a font.
pub fn read_name(data: Option<&[u8]>) -> (r: Result<Name<'_>, ReadError>)
    ensures
        match data {
            None => r == Err::<Name<'_>, ReadError>(ReadError::TableIsMissing),
            Some(bytes) => {
                &&& r.is_ok() == crate::name::is_name_table(bytes@)
                &&& r matches Ok(name) ==> name.bytes() == bytes@
                &&& r matches Err(e) ==> e == ReadError::OutOfBounds
            },
        },
{
    match data {
        None => Err(ReadError::TableIsMissing),
        Some(bytes) => Name::read(bytes),
    }
}

/// The naming table of a font: what [`read_name`] makes of the bytes that
/// the font serves for the tag of the naming table. Whatever the font
/// serves, a table that is handed out lies on a whole naming table.
pub fn name<T: TableProvider>(font: &T) -> (r: Result<Name<'_>, ReadError>)
    ensures
        r matches Ok(name) ==> crate::name::is_name_table(name.bytes()),
{
    read_name(font.data_for_tag(TableTag::Name.tag()))
}

/// Takes what a font served for a tag: the bytes where it served any, else
/// the error that the table is missing.
pub fn expect_table(data: Option<&[u8]>) -> (r: Result<&[u8], ReadError>)
    ensures
        r == match data {
            Some(bytes) => Ok::<&[u8], ReadError>(bytes),
            None => Err::<&[u8], ReadError>(ReadError::TableIsMissing),
        },
{
    match data {
        Some(bytes) => Ok(bytes),
        None => Err(ReadError::TableIsMissing),
    }
}

} // verus!
