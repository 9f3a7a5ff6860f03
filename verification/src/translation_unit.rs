//! Options for parsing a translation unit, and the index that parses.
#![allow(non_upper_case_globals)]

use vstd::prelude::*;

verus! {

pub const CXTranslationUnit_None: u32 = 0x0;
pub const CXTranslationUnit_DetailedPreprocessingRecord: u32 = 0x01;
pub const CXTranslationUnit_Incomplete: u32 = 0x02;
pub const CXTranslationUnit_PrecompiledPreamble: u32 = 0x04;
pub const CXTranslationUnit_CacheCompletionResults: u32 = 0x08;
pub const CXTranslationUnit_CXXPrecompiledPreamble: u32 = 0x10;
pub const CXTranslationUnit_CXXChainedPCH: u32 = 0x20;
pub const CXTranslationUnit_NestedMacroExpansions: u32 = 0x40;
pub const CXTranslationUnit_NestedMacroInstantiations: u32 = 0x40;

/// The number by which libclang is told whether an index excludes
/// declarations from precompiled headers: 1 when it does, else 0.
pub fn exclude_declarations_flag(exclude: bool) -> (flag: i32)
    ensures
        flag == (if exclude { 1i32 } else { 0i32 }),
{
    if exclude {
        1
    } else {
        0
    }
}

/// Nested macro instantiations and nested macro expansions are one option
/// under two names.
pub proof fn lemma_nested_macro_alias()
    ensures
        CXTranslationUnit_NestedMacroInstantiations == CXTranslationUnit_NestedMacroExpansions,
{
}

} // verus!
