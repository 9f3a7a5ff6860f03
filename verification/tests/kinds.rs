use clang::cursor::{empty_cxcursor, CXCursor};
use clang::cursor_kind::{
    CursorKind, CXCursor_AnnotateAttr, CXCursor_CXXAccessSpecifier, CXCursor_CallExpr,
    CXCursor_CompoundStmt, CXCursor_DeclStmt, CXCursor_FunctionDecl, CXCursor_InclusionDirective,
    CXCursor_InvalidFile, CXCursor_MacroExpansion, CXCursor_MacroInstantiation,
    CXCursor_NullStmt, CXCursor_OverloadedDeclRef, CXCursor_SizeOfPackExpr,
    CXCursor_StructDecl, CXCursor_TranslationUnit, CXCursor_TypeRef, CXCursor_UnexposedAttr,
    CXCursor_UnexposedDecl, CXCursor_UnexposedExpr, CXCursor_UnexposedStmt,
};
use clang::cursor_type::{
    array_size_from_raw, empty_cxtype, from_c_bool, CXType, CXType_ConstantArray,
    CXType_FirstBuiltin, CXType_Int, CXType_LastBuiltin, CXType_ObjCSel, CXType_Void,
};
use clang::translation_unit::{
    exclude_declarations_flag, CXTranslationUnit_CXXChainedPCH,
    CXTranslationUnit_CXXPrecompiledPreamble, CXTranslationUnit_CacheCompletionResults,
    CXTranslationUnit_DetailedPreprocessingRecord, CXTranslationUnit_Incomplete,
    CXTranslationUnit_NestedMacroExpansions, CXTranslationUnit_NestedMacroInstantiations,
    CXTranslationUnit_None, CXTranslationUnit_PrecompiledPreamble,
};

fn categories(value: u32) -> Vec<&'static str> {
    let k = CursorKind { value };
    let mut v = Vec::new();
    if k.is_declaration() {
        v.push("declaration");
    }
    if k.is_reference() {
        v.push("reference");
    }
    if k.is_expression() {
        v.push("expression");
    }
    if k.is_statement() {
        v.push("statement");
    }
    if k.is_attribute() {
        v.push("attribute");
    }
    if k.is_invalid() {
        v.push("invalid");
    }
    if k.is_translation_unit() {
        v.push("translation unit");
    }
    if k.is_preprocessing() {
        v.push("preprocessing");
    }
    v
}

#[test]
fn named_kinds_fall_into_their_category() {
    assert_eq!(categories(CXCursor_StructDecl), vec!["declaration"]);
    assert_eq!(categories(CXCursor_FunctionDecl), vec!["declaration"]);
    assert_eq!(categories(CXCursor_CXXAccessSpecifier), vec!["declaration"]);
    assert_eq!(categories(CXCursor_TypeRef), vec!["reference"]);
    assert_eq!(categories(CXCursor_OverloadedDeclRef), vec!["reference"]);
    assert_eq!(categories(CXCursor_InvalidFile), vec!["invalid"]);
    assert_eq!(categories(CXCursor_CallExpr), vec!["expression"]);
    assert_eq!(categories(CXCursor_SizeOfPackExpr), vec!["expression"]);
    assert_eq!(categories(CXCursor_CompoundStmt), vec!["statement"]);
    assert_eq!(categories(CXCursor_NullStmt), vec!["statement"]);
    assert_eq!(categories(CXCursor_DeclStmt), vec!["statement"]);
    assert_eq!(categories(CXCursor_TranslationUnit), vec!["translation unit"]);
    assert_eq!(categories(CXCursor_AnnotateAttr), vec!["attribute"]);
    assert_eq!(categories(CXCursor_MacroExpansion), vec!["preprocessing"]);
    assert_eq!(categories(CXCursor_InclusionDirective), vec!["preprocessing"]);
}

#[test]
fn range_edges() {
    let empty: Vec<&str> = Vec::new();
    assert_eq!(categories(0), empty);
    assert_eq!(categories(1), vec!["declaration"]);
    assert_eq!(categories(39), vec!["declaration"]);
    assert_eq!(categories(40), vec!["reference"]);
    assert_eq!(categories(49), vec!["reference"]);
    assert_eq!(categories(50), empty);
    assert_eq!(categories(69), empty);
    assert_eq!(categories(70), vec!["invalid"]);
    assert_eq!(categories(73), vec!["invalid"]);
    assert_eq!(categories(74), empty);
    assert_eq!(categories(99), empty);
    assert_eq!(categories(100), vec!["expression"]);
    assert_eq!(categories(143), vec!["expression"]);
    assert_eq!(categories(144), empty);
    assert_eq!(categories(199), empty);
    assert_eq!(categories(200), vec!["statement"]);
    assert_eq!(categories(229), vec!["statement"]);
    assert_eq!(categories(231), vec!["statement"]);
    assert_eq!(categories(232), empty);
    assert_eq!(categories(299), empty);
    assert_eq!(categories(301), empty);
    assert_eq!(categories(399), empty);
    assert_eq!(categories(400), vec!["attribute"]);
    assert_eq!(categories(406), vec!["attribute"]);
    assert_eq!(categories(407), empty);
    assert_eq!(categories(499), empty);
    assert_eq!(categories(500), vec!["preprocessing"]);
    assert_eq!(categories(503), vec!["preprocessing"]);
    assert_eq!(categories(504), empty);
    assert_eq!(categories(u32::MAX), empty);
}

#[test]
fn no_kind_is_in_two_categories() {
    for value in 0..1000u32 {
        assert!(categories(value).len() <= 1, "kind {}", value);
    }
}

#[test]
fn unexposed_kinds() {
    for value in [
        CXCursor_UnexposedDecl,
        CXCursor_UnexposedExpr,
        CXCursor_UnexposedStmt,
        CXCursor_UnexposedAttr,
    ] {
        let k = CursorKind { value };
        assert!(k.is_unexposed());
        assert!(!k.is_exposed());
        assert_eq!(categories(value).len(), 1);
    }
    for value in [0, 2, 40, 101, 201, 300, 401, 500] {
        let k = CursorKind { value };
        assert!(!k.is_unexposed());
        assert!(k.is_exposed());
    }
}

#[test]
fn kind_numbers() {
    assert_eq!(CursorKind { value: 103 }.to_uint(), 103);
    assert_eq!(CXCursor_MacroInstantiation, CXCursor_MacroExpansion);
    assert_eq!(CXCursor_MacroExpansion, 502);
    let c = CXCursor { kind: CXCursor_CallExpr, xdata: 7, data0: 1, data1: 2, data2: 3 };
    assert_eq!(c.kind(), CursorKind { value: 103 });
    assert!(c.kind().is_expression());
    let t = CXType { kind: CXType_ConstantArray, data0: 4, data1: 5 };
    assert_eq!(t.kind().to_uint(), 112);
    assert_eq!(CXType_FirstBuiltin, CXType_Void);
    assert_eq!(CXType_LastBuiltin, CXType_ObjCSel);
    assert_eq!(CXType_Int, 17);
}

#[test]
fn empty_records() {
    let c = empty_cxcursor();
    assert_eq!(c, CXCursor { kind: 0, xdata: 0, data0: 0, data1: 0, data2: 0 });
    assert_eq!(categories(c.kind().to_uint()).len(), 0);
    assert!(c.kind().is_exposed());
    let t = empty_cxtype();
    assert_eq!(t, CXType { kind: 0, data0: 0, data1: 0 });
    assert_eq!(t.kind().to_uint(), 0);
}

#[test]
fn array_sizes() {
    assert_eq!(array_size_from_raw(0), 0);
    assert_eq!(array_size_from_raw(10), 10);
    assert_eq!(array_size_from_raw(i64::MAX), i64::MAX as u64);
    assert_eq!(array_size_from_raw(-1), u64::MAX);
    assert_eq!(array_size_from_raw(-2), u64::MAX - 1);
    assert_eq!(array_size_from_raw(i64::MIN), 1u64 << 63);
}

#[test]
fn c_booleans() {
    assert!(!from_c_bool(0));
    assert!(from_c_bool(1));
    assert!(from_c_bool(u32::MAX));
}

#[test]
fn translation_unit_options() {
    assert_eq!(exclude_declarations_flag(true), 1);
    assert_eq!(exclude_declarations_flag(false), 0);
    assert_eq!(CXTranslationUnit_None, 0);
    let flags = [
        CXTranslationUnit_DetailedPreprocessingRecord,
        CXTranslationUnit_Incomplete,
        CXTranslationUnit_PrecompiledPreamble,
        CXTranslationUnit_CacheCompletionResults,
        CXTranslationUnit_CXXPrecompiledPreamble,
        CXTranslationUnit_CXXChainedPCH,
        CXTranslationUnit_NestedMacroExpansions,
    ];
    for (i, a) in flags.iter().enumerate() {
        assert_eq!(a.count_ones(), 1);
        for b in flags.iter().skip(i + 1) {
            assert_eq!(a & b, 0);
        }
    }
    assert_eq!(CXTranslationUnit_NestedMacroInstantiations, CXTranslationUnit_NestedMacroExpansions);
}
