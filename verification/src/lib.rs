//! A verified model of the libclang C interface: the numbering of cursor
//! and type kinds, the records libclang hands out, and what the library
//! computes from them.

pub mod cursor_kind;
pub mod location;
pub mod cxstring;
pub mod cursor;
pub mod cursor_type;
pub mod translation_unit;
