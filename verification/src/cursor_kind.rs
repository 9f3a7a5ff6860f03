//! Cursor kinds: the numbers libclang gives to the nodes of a translation
//! unit, and the categories (declaration, reference, expression, ...) that
//! consecutive ranges of those numbers form.
#![allow(non_upper_case_globals)]

use vstd::prelude::*;

verus! {

pub const CXCursor_UnexposedDecl: u32 = 1;
pub const CXCursor_StructDecl: u32 = 2;
pub const CXCursor_UnionDecl: u32 = 3;
pub const CXCursor_ClassDecl: u32 = 4;
pub const CXCursor_EnumDecl: u32 = 5;
pub const CXCursor_FieldDecl: u32 = 6;
pub const CXCursor_EnumConstantDecl: u32 = 7;
pub const CXCursor_FunctionDecl: u32 = 8;
pub const CXCursor_VarDecl: u32 = 9;
pub const CXCursor_ParmDecl: u32 = 10;
pub const CXCursor_ObjCInterfaceDecl: u32 = 11;
pub const CXCursor_ObjCCategoryDecl: u32 = 12;
pub const CXCursor_ObjCProtocolDecl: u32 = 13;
pub const CXCursor_ObjCPropertyDecl: u32 = 14;
pub const CXCursor_ObjCIvarDecl: u32 = 15;
pub const CXCursor_ObjCInstanceMethodDecl: u32 = 16;
pub const CXCursor_ObjCClassMethodDecl: u32 = 17;
pub const CXCursor_ObjCImplementationDecl: u32 = 18;
pub const CXCursor_ObjCCategoryImplDecl: u32 = 19;
pub const CXCursor_TypedefDecl: u32 = 20;
pub const CXCursor_CXXMethod: u32 = 21;
pub const CXCursor_Namespace: u32 = 22;
pub const CXCursor_LinkageSpec: u32 = 23;
pub const CXCursor_Constructor: u32 = 24;
pub const CXCursor_Destructor: u32 = 25;
pub const CXCursor_ConversionFunction: u32 = 26;
pub const CXCursor_TemplateTypeParameter: u32 = 27;
pub const CXCursor_NonTypeTemplateParameter: u32 = 28;
pub const CXCursor_TemplateTemplateParameter: u32 = 29;
pub const CXCursor_FunctionTemplate: u32 = 30;
pub const CXCursor_ClassTemplate: u32 = 31;
pub const CXCursor_ClassTemplatePartialSpecialization: u32 = 32;
pub const CXCursor_NamespaceAlias: u32 = 33;
pub const CXCursor_UsingDirective: u32 = 34;
pub const CXCursor_UsingDeclaration: u32 = 35;
pub const CXCursor_TypeAliasDecl: u32 = 36;
pub const CXCursor_ObjCSynthesizeDecl: u32 = 37;
pub const CXCursor_ObjCDynamicDecl: u32 = 38;
pub const CXCursor_CXXAccessSpecifier: u32 = 39;
pub const CXCursor_FirstDecl: u32 = 1;
pub const CXCursor_LastDecl: u32 = 39;

pub const CXCursor_FirstRef: u32 = 40;
pub const CXCursor_ObjCSuperClassRef: u32 = 40;
pub const CXCursor_ObjCProtocolRef: u32 = 41;
pub const CXCursor_ObjCClassRef: u32 = 42;
pub const CXCursor_TypeRef: u32 = 43;
pub const CXCursor_CXXBaseSpecifier: u32 = 44;
pub const CXCursor_TemplateRef: u32 = 45;
pub const CXCursor_NamespaceRef: u32 = 46;
pub const CXCursor_MemberRef: u32 = 47;
pub const CXCursor_LabelRef: u32 = 48;
pub const CXCursor_OverloadedDeclRef: u32 = 49;
pub const CXCursor_LastRef: u32 = 49;

pub const CXCursor_FirstInvalid: u32 = 70;
pub const CXCursor_InvalidFile: u32 = 70;
pub const CXCursor_NoDeclFound: u32 = 71;
pub const CXCursor_NotImplemented: u32 = 72;
pub const CXCursor_InvalidCode: u32 = 73;
pub const CXCursor_LastInvalid: u32 = 73;

pub const CXCursor_FirstExpr: u32 = 100;
pub const CXCursor_UnexposedExpr: u32 = 100;
pub const CXCursor_DeclRefExpr: u32 = 101;
pub const CXCursor_MemberRefExpr: u32 = 102;
pub const CXCursor_CallExpr: u32 = 103;
pub const CXCursor_ObjCMessageExpr: u32 = 104;
pub const CXCursor_BlockExpr: u32 = 105;
pub const CXCursor_IntegerLiteral: u32 = 106;
pub const CXCursor_FloatingLiteral: u32 = 107;
pub const CXCursor_ImaginaryLiteral: u32 = 108;
pub const CXCursor_StringLiteral: u32 = 109;
pub const CXCursor_CharacterLiteral: u32 = 110;
pub const CXCursor_ParenExpr: u32 = 111;
pub const CXCursor_UnaryOperator: u32 = 112;
pub const CXCursor_ArraySubscriptExpr: u32 = 113;
pub const CXCursor_BinaryOperator: u32 = 114;
pub const CXCursor_CompoundAssignOperator: u32 = 115;
pub const CXCursor_ConditionalOperator: u32 = 116;
pub const CXCursor_CStyleCastExpr: u32 = 117;
pub const CXCursor_CompoundLiteralExpr: u32 = 118;
pub const CXCursor_InitListExpr: u32 = 119;
pub const CXCursor_AddrLabelExpr: u32 = 120;
pub const CXCursor_StmtExpr: u32 = 121;
pub const CXCursor_GenericSelectionExpr: u32 = 122;
pub const CXCursor_GNUNullExpr: u32 = 123;
pub const CXCursor_CXXStaticCastExpr: u32 = 124;
pub const CXCursor_CXXDynamicCastExpr: u32 = 125;
pub const CXCursor_CXXReinterpretCastExpr: u32 = 126;
pub const CXCursor_CXXConstCastExpr: u32 = 127;
pub const CXCursor_CXXFunctionalCastExpr: u32 = 128;
pub const CXCursor_CXXTypeidExpr: u32 = 129;
pub const CXCursor_CXXBoolLiteralExpr: u32 = 130;
pub const CXCursor_CXXNullPtrLiteralExpr: u32 = 131;
pub const CXCursor_CXXThisExpr: u32 = 132;
pub const CXCursor_CXXThrowExpr: u32 = 133;
pub const CXCursor_CXXNewExpr: u32 = 134;
pub const CXCursor_CXXDeleteExpr: u32 = 135;
pub const CXCursor_UnaryExpr: u32 = 136;
pub const CXCursor_ObjCStringLiteral: u32 = 137;
pub const CXCursor_ObjCEncodeExpr: u32 = 138;
pub const CXCursor_ObjCSelectorExpr: u32 = 139;
pub const CXCursor_ObjCProtocolExpr: u32 = 140;
pub const CXCursor_ObjCBridgedCastExpr: u32 = 141;
pub const CXCursor_PackExpansionExpr: u32 = 142;
pub const CXCursor_SizeOfPackExpr: u32 = 143;
pub const CXCursor_LastExpr: u32 = 143;

pub const CXCursor_FirstStmt: u32 = 200;
pub const CXCursor_UnexposedStmt: u32 = 200;
pub const CXCursor_LabelStmt: u32 = 201;
pub const CXCursor_CompoundStmt: u32 = 202;
pub const CXCursor_CaseStmt: u32 = 203;
pub const CXCursor_DefaultStmt: u32 = 204;
pub const CXCursor_IfStmt: u32 = 205;
pub const CXCursor_SwitchStmt: u32 = 206;
pub const CXCursor_WhileStmt: u32 = 207;
pub const CXCursor_DoStmt: u32 = 208;
pub const CXCursor_ForStmt: u32 = 209;
pub const CXCursor_GotoStmt: u32 = 210;
pub const CXCursor_IndirectGotoStmt: u32 = 211;
pub const CXCursor_ContinueStmt: u32 = 212;
pub const CXCursor_BreakStmt: u32 = 213;
pub const CXCursor_ReturnStmt: u32 = 214;
pub const CXCursor_AsmStmt: u32 = 215;
pub const CXCursor_ObjCAtTryStmt: u32 = 216;
pub const CXCursor_ObjCAtCatchStmt: u32 = 217;
pub const CXCursor_ObjCAtFinallyStmt: u32 = 218;
pub const CXCursor_ObjCAtThrowStmt: u32 = 219;
pub const CXCursor_ObjCAtSynchronizedStmt: u32 = 220;
pub const CXCursor_ObjCAutoreleasePoolStmt: u32 = 221;
pub const CXCursor_ObjCForCollectionStmt: u32 = 222;
pub const CXCursor_CXXCatchStmt: u32 = 223;
pub const CXCursor_CXXTryStmt: u32 = 224;
pub const CXCursor_CXXForRangeStmt: u32 = 225;
pub const CXCursor_SEHTryStmt: u32 = 226;
pub const CXCursor_SEHExceptStmt: u32 = 227;
pub const CXCursor_SEHFinallyStmt: u32 = 228;
pub const CXCursor_NullStmt: u32 = 230;
pub const CXCursor_DeclStmt: u32 = 231;
pub const CXCursor_LastStmt: u32 = 231;

pub const CXCursor_TranslationUnit: u32 = 300;

pub const CXCursor_FirstAttr: u32 = 400;
pub const CXCursor_UnexposedAttr: u32 = 400;
pub const CXCursor_IBActionAttr: u32 = 401;
pub const CXCursor_IBOutletAttr: u32 = 402;
pub const CXCursor_IBOutletCollectionAttr: u32 = 403;
pub const CXCursor_CXXFinalAttr: u32 = 404;
pub const CXCursor_CXXOverrideAttr: u32 = 405;
pub const CXCursor_AnnotateAttr: u32 = 406;
pub const CXCursor_LastAttr: u32 = 406;

pub const CXCursor_PreprocessingDirective: u32 = 500;
pub const CXCursor_MacroDefinition: u32 = 501;
pub const CXCursor_MacroExpansion: u32 = 502;
pub const CXCursor_MacroInstantiation: u32 = 502;
pub const CXCursor_InclusionDirective: u32 = 503;
pub const CXCursor_FirstPreprocessing: u32 = 500;
pub const CXCursor_LastPreprocessing: u32 = 503;

/// The kind of a cursor, as libclang numbers it.
#[derive(Clone, Copy, Debug, PartialEq, Eq, Structural)]
pub struct CursorKind {
    pub value: u32,
}

/// `k` names a declaration.
pub open spec fn kind_is_declaration(k: u32) -> bool {
    CXCursor_FirstDecl <= k <= CXCursor_LastDecl
}

/// `k` names a reference.
pub open spec fn kind_is_reference(k: u32) -> bool {
    CXCursor_FirstRef <= k <= CXCursor_LastRef
}

/// `k` names an expression.
pub open spec fn kind_is_expression(k: u32) -> bool {
    CXCursor_FirstExpr <= k <= CXCursor_LastExpr
}

/// `k` names a statement.
pub open spec fn kind_is_statement(k: u32) -> bool {
    CXCursor_FirstStmt <= k <= CXCursor_LastStmt
}

/// `k` names an attribute.
pub open spec fn kind_is_attribute(k: u32) -> bool {
    CXCursor_FirstAttr <= k <= CXCursor_LastAttr
}

/// `k` names one of the invalid-cursor kinds.
pub open spec fn kind_is_invalid(k: u32) -> bool {
    CXCursor_FirstInvalid <= k <= CXCursor_LastInvalid
}

/// `k` names the translation unit itself.
pub open spec fn kind_is_translation_unit(k: u32) -> bool {
    k == CXCursor_TranslationUnit
}

/// `k` names a preprocessing entity.
pub open spec fn kind_is_preprocessing(k: u32) -> bool {
    CXCursor_FirstPreprocessing <= k <= CXCursor_LastPreprocessing
}

/// `k` is one of the kinds whose specific kind is not exposed.
pub open spec fn kind_is_unexposed(k: u32) -> bool {
    ||| k == CXCursor_UnexposedDecl
    ||| k == CXCursor_UnexposedExpr
    ||| k == CXCursor_UnexposedStmt
    ||| k == CXCursor_UnexposedAttr
}

/// How many of the eight categories `k` falls into.
pub open spec fn category_count(k: u32) -> nat {
    (if kind_is_declaration(k) { 1nat } else { 0nat })
        + (if kind_is_reference(k) { 1nat } else { 0nat })
        + (if kind_is_expression(k) { 1nat } else { 0nat })
        + (if kind_is_statement(k) { 1nat } else { 0nat })
        + (if kind_is_attribute(k) { 1nat } else { 0nat })
        + (if kind_is_invalid(k) { 1nat } else { 0nat })
        + (if kind_is_translation_unit(k) { 1nat } else { 0nat })
        + (if kind_is_preprocessing(k) { 1nat } else { 0nat })
}

impl CursorKind {
    /// The number of this kind.
    pub fn to_uint(&self) -> (r: u32)
        ensures
            r == self.value,
    {
        self.value
    }

    pub fn is_declaration(&self) -> (r: bool)
        ensures
            r == kind_is_declaration(self.value),
            r <==> (1 <= self.value <= 39),
    {
        CXCursor_FirstDecl <= self.value && self.value <= CXCursor_LastDecl
    }

    pub fn is_reference(&self) -> (r: bool)
        ensures
            r == kind_is_reference(self.value),
            r <==> (40 <= self.value <= 49),
    {
        CXCursor_FirstRef <= self.value && self.value <= CXCursor_LastRef
    }

    pub fn is_expression(&self) -> (r: bool)
        ensures
            r == kind_is_expression(self.value),
            r <==> (100 <= self.value <= 143),
    {
        CXCursor_FirstExpr <= self.value && self.value <= CXCursor_LastExpr
    }

    pub fn is_statement(&self) -> (r: bool)
        ensures
            r == kind_is_statement(self.value),
            r <==> (200 <= self.value <= 231),
    {
        CXCursor_FirstStmt <= self.value && self.value <= CXCursor_LastStmt
    }

    pub fn is_attribute(&self) -> (r: bool)
        ensures
            r == kind_is_attribute(self.value),
            r <==> (400 <= self.value <= 406),
    {
        CXCursor_FirstAttr <= self.value && self.value <= CXCursor_LastAttr
    }

    pub fn is_invalid(&self) -> (r: bool)
        ensures
            r == kind_is_invalid(self.value),
            r <==> (70 <= self.value <= 73),
    {
        CXCursor_FirstInvalid <= self.value && self.value <= CXCursor_LastInvalid
    }

    pub fn is_translation_unit(&self) -> (r: bool)
        ensures
            r == kind_is_translation_unit(self.value),
            r <==> (self.value == 300),
    {
        self.value == CXCursor_TranslationUnit
    }

    pub fn is_preprocessing(&self) -> (r: bool)
        ensures
            r == kind_is_preprocessing(self.value),
            r <==> (500 <= self.value <= 503),
    {
        CXCursor_FirstPreprocessing <= self.value && self.value <= CXCursor_LastPreprocessing
    }

    pub fn is_unexposed(&self) -> (r: bool)
        ensures
            r == kind_is_unexposed(self.value),
            r <==> (self.value == 1 || self.value == 100 || self.value == 200 || self.value == 400),
    {
        self.value == CXCursor_UnexposedDecl || self.value == CXCursor_UnexposedExpr
            || self.value == CXCursor_UnexposedStmt || self.value == CXCursor_UnexposedAttr
    }

    /// A kind is exposed exactly when it is not unexposed.
    pub fn is_exposed(&self) -> (r: bool)
        ensures
            r == !kind_is_unexposed(self.value),
            r <==> !(self.value == 1 || self.value == 100 || self.value == 200 || self.value == 400),
    {
        !self.is_unexposed()
    }
}

/// The categories are these ranges of kind numbers: declarations 1 to 39,
/// references 40 to 49, invalid kinds 70 to 73, expressions 100 to 143,
/// statements 200 to 231, the translation unit 300, attributes 400 to 406
/// and preprocessing entities 500 to 503; the unexposed kinds are 1, 100,
/// 200 and 400.
pub proof fn lemma_category_ranges(k: CursorKind)
    ensures
        kind_is_declaration(k.value) <==> 1 <= k.value <= 39,
        kind_is_reference(k.value) <==> 40 <= k.value <= 49,
        kind_is_invalid(k.value) <==> 70 <= k.value <= 73,
        kind_is_expression(k.value) <==> 100 <= k.value <= 143,
        kind_is_statement(k.value) <==> 200 <= k.value <= 231,
        kind_is_translation_unit(k.value) <==> k.value == 300,
        kind_is_attribute(k.value) <==> 400 <= k.value <= 406,
        kind_is_preprocessing(k.value) <==> 500 <= k.value <= 503,
        kind_is_unexposed(k.value) <==> (k.value == 1 || k.value == 100 || k.value == 200
            || k.value == 400),
{
}

/// No cursor kind falls into more than one of the categories declaration,
/// reference, expression, statement, attribute, invalid, translation unit
/// and preprocessing.
pub proof fn lemma_categories_exclusive(k: CursorKind)
    ensures
        category_count(k.value) <= 1,
{
}

/// Each unexposed kind opens the range of its category: the unexposed
/// declaration, expression, statement and attribute are the first
/// declaration, expression, statement and attribute kinds.
pub proof fn lemma_unexposed_kinds_open_their_ranges(k: CursorKind)
    ensures
        kind_is_unexposed(k.value) <==> {
            ||| k.value == CXCursor_FirstDecl && kind_is_declaration(k.value)
            ||| k.value == CXCursor_FirstExpr && kind_is_expression(k.value)
            ||| k.value == CXCursor_FirstStmt && kind_is_statement(k.value)
            ||| k.value == CXCursor_FirstAttr && kind_is_attribute(k.value)
        },
{
}

/// The bounds of each range are the kinds that the range starts and ends
/// with, and the ranges follow one another in increasing order.
pub proof fn lemma_range_bounds_name_kinds()
    ensures
        CXCursor_FirstDecl == CXCursor_UnexposedDecl,
        CXCursor_LastDecl == CXCursor_CXXAccessSpecifier,
        CXCursor_FirstRef == CXCursor_ObjCSuperClassRef,
        CXCursor_LastRef == CXCursor_OverloadedDeclRef,
        CXCursor_FirstInvalid == CXCursor_InvalidFile,
        CXCursor_LastInvalid == CXCursor_InvalidCode,
        CXCursor_FirstExpr == CXCursor_UnexposedExpr,
        CXCursor_LastExpr == CXCursor_SizeOfPackExpr,
        CXCursor_FirstStmt == CXCursor_UnexposedStmt,
        CXCursor_LastStmt == CXCursor_DeclStmt,
        CXCursor_FirstAttr == CXCursor_UnexposedAttr,
        CXCursor_LastAttr == CXCursor_AnnotateAttr,
        CXCursor_MacroInstantiation == CXCursor_MacroExpansion,
        CXCursor_FirstPreprocessing == CXCursor_PreprocessingDirective,
        CXCursor_LastPreprocessing == CXCursor_InclusionDirective,
        CXCursor_LastDecl < CXCursor_FirstRef,
        CXCursor_LastRef < CXCursor_FirstInvalid,
        CXCursor_LastInvalid < CXCursor_FirstExpr,
        CXCursor_LastExpr < CXCursor_FirstStmt,
        CXCursor_LastStmt < CXCursor_TranslationUnit,
        CXCursor_TranslationUnit < CXCursor_FirstAttr,
        CXCursor_LastAttr < CXCursor_FirstPreprocessing,
{
}

} // verus!
