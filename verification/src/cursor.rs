//! Cursors: the nodes of a translation unit.

use vstd::prelude::*;
use crate::cursor_kind::CursorKind;

verus! {

/// A cursor as libclang packs it: its kind, a number and three handles.
#[derive(Clone, Copy, Debug, PartialEq, Eq, Structural)]
pub struct CXCursor {
    pub kind: u32,
    pub xdata: i32,
    pub data0: usize,
    pub data1: usize,
    pub data2: usize,
}

/// The cursor record of kind 0 that holds no data, ready for libclang to fill.
pub fn empty_cxcursor() -> (c: CXCursor)
    ensures
        c.kind == 0,
        c.xdata == 0,
        c.data0 == 0,
        c.data1 == 0,
        c.data2 == 0,
{
    CXCursor { kind: 0, xdata: 0, data0: 0, data1: 0, data2: 0 }
}

impl CXCursor {
    /// The kind of this cursor.
    pub fn kind(&self) -> (k: CursorKind)
        ensures
            k.value == self.kind,
    {
        CursorKind { value: self.kind }
    }
}

} // verus!
