//! The string record through which libclang hands out text.

use vstd::prelude::*;

verus! {

/// A string owned by libclang: a handle to its data (0 when there is none)
/// and libclang's private flags.
#[derive(Clone, Copy, Debug, PartialEq, Eq, Structural)]
pub struct CXString {
    pub data: usize,
    pub private_flags: u32,
}

/// The string record that holds no data, ready for libclang to fill.
pub fn empty_cxstring() -> (s: CXString)
    ensures
        s.data == 0,
        s.private_flags == 0,
{
    CXString { data: 0, private_flags: 0 }
}

} // verus!
