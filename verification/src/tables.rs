//! The tables that loading a glyph needs, read from their bytes.

pub mod cvt;
pub mod glyf;
pub mod head;
pub mod hmtx;
pub mod loca;
pub mod maxp;
