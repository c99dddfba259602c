//! Decoding of TrueType glyph outlines into scaled point outlines, and
//! typed views of a few OpenType tables.

pub mod font_ref;
pub mod gpos;
pub mod name;
pub mod read;
pub mod table_provider;
pub mod tables;
pub mod truetype;
