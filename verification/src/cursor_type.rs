//! Types: their kinds as libclang numbers them, and the type record.
#![allow(non_upper_case_globals)]

use vstd::prelude::*;

verus! {

/// An invalid type (where no type is available).
pub const CXType_Invalid: u32 = 0;

/// A type whose specific kind is not exposed.
pub const CXType_Unexposed: u32 = 1;

// Builtin types.
pub const CXType_Void: u32 = 2;
pub const CXType_Bool: u32 = 3;
pub const CXType_Char_U: u32 = 4;
pub const CXType_UChar: u32 = 5;
pub const CXType_Char16: u32 = 6;
pub const CXType_Char32: u32 = 7;
pub const CXType_UShort: u32 = 8;
pub const CXType_UInt: u32 = 9;
pub const CXType_ULong: u32 = 10;
pub const CXType_ULongLong: u32 = 11;
pub const CXType_UInt128: u32 = 12;
pub const CXType_Char_S: u32 = 13;
pub const CXType_SChar: u32 = 14;
pub const CXType_WChar: u32 = 15;
pub const CXType_Short: u32 = 16;
pub const CXType_Int: u32 = 17;
pub const CXType_Long: u32 = 18;
pub const CXType_LongLong: u32 = 19;
pub const CXType_Int128: u32 = 20;
pub const CXType_Float: u32 = 21;
pub const CXType_Double: u32 = 22;
pub const CXType_LongDouble: u32 = 23;
pub const CXType_NullPtr: u32 = 24;
pub const CXType_Overload: u32 = 25;
pub const CXType_Dependent: u32 = 26;
pub const CXType_ObjCId: u32 = 27;
pub const CXType_ObjCClass: u32 = 28;
pub const CXType_ObjCSel: u32 = 29;
pub const CXType_FirstBuiltin: u32 = 2;
pub const CXType_LastBuiltin: u32 = 29;

pub const CXType_Complex: u32 = 100;
pub const CXType_Pointer: u32 = 101;
pub const CXType_BlockPointer: u32 = 102;
pub const CXType_LValueReference: u32 = 103;
pub const CXType_RValueReference: u32 = 104;
pub const CXType_Record: u32 = 105;
pub const CXType_Enum: u32 = 106;
pub const CXType_Typedef: u32 = 107;
pub const CXType_ObjCInterface: u32 = 108;
pub const CXType_ObjCObjectPointer: u32 = 109;
pub const CXType_FunctionNoProto: u32 = 110;
pub const CXType_FunctionProto: u32 = 111;
pub const CXType_ConstantArray: u32 = 112;

/// The kind of a type, as libclang numbers it.
#[derive(Clone, Copy, Debug, PartialEq, Eq, Structural)]
pub struct TypeKind {
    pub value: u32,
}

impl TypeKind {
    /// The number of this kind.
    pub fn to_uint(&self) -> (r: u32)
        ensures
            r == self.value,
    {
        self.value
    }
}

/// A type as libclang packs it: its kind and two handles.
#[derive(Clone, Copy, Debug, PartialEq, Eq, Structural)]
pub struct CXType {
    pub kind: u32,
    pub data0: usize,
    pub data1: usize,
}

/// The type record of kind 0 that holds no data, ready for libclang to fill.
pub fn empty_cxtype() -> (t: CXType)
    ensures
        t.kind == 0,
        t.data0 == 0,
        t.data1 == 0,
{
    CXType { kind: 0, data0: 0, data1: 0 }
}

impl CXType {
    /// The kind of this type.
    pub fn kind(&self) -> (k: TypeKind)
        ensures
            k.value == self.kind,
    {
        TypeKind { value: self.kind }
    }
}

/// The size that libclang's signed answer `raw` gives as an unsigned 64-bit
/// number: `raw` itself when it is not negative, else `raw + 2^64` (libclang
/// answers -1 for a type that is not an array of known size).
pub fn array_size_from_raw(raw: i64) -> (n: u64)
    ensures
        raw >= 0 ==> n == raw,
        raw < 0 ==> n == raw + 0x1_0000_0000_0000_0000,
{
    if raw >= 0 {
        raw as u64
    } else {
        let below: i64 = -(raw + 1);
        u64::MAX - (below as u64)
    }
}

/// The truth of a C boolean answer of libclang: any value but 0 is true.
pub fn from_c_bool(flag: u32) -> (b: bool)
    ensures
        b == (flag != 0),
{
    flag != 0
}

/// The builtin kinds run from `void` to `SEL`.
pub proof fn lemma_builtin_bounds_name_kinds()
    ensures
        CXType_FirstBuiltin == CXType_Void,
        CXType_LastBuiltin == CXType_ObjCSel,
        CXType_Unexposed < CXType_FirstBuiltin,
        CXType_LastBuiltin < CXType_Complex,
{
}

} // verus!
