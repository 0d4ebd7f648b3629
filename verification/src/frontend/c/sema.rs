#![allow(non_snake_case)]
#![allow(non_camel_case_types)]
#![allow(non_upper_case_globals)]

use vstd::prelude::*;
use crate::compiler::strings::str_eq;
use crate::ir::entry_graph::SymbolLikeness;

verus! {

/// A symbol declared in C source.
pub enum Symbol {
    function(Function),
    variable(Variable),
    typeDefinition(TypeDefinition),
    structure(Struct),
    union(Union),
    enumeration(Enum),
    macroDefintion(MacroDefinition),
}

/// What a type declaration looks like, as a symbol.
pub open spec fn spec_type_decl_likeness(decl: TypeDecl) -> SymbolLikeness
    decreases decl,
{
    match decl {
        TypeDecl::function(_) => SymbolLikeness::Function,
        TypeDecl::enumeration(_) => SymbolLikeness::Enumeration,
        TypeDecl::structure(_) | TypeDecl::union(_) => SymbolLikeness::Structure,
        TypeDecl::pointer(pointer) => spec_type_decl_likeness(*pointer.pointeeType.decl),
        _ => SymbolLikeness::Statement,
    }
}

/// What a symbol looks like: a function, a variable, a constant, a structure, ...
pub open spec fn spec_symbol_likeness(symbol: Symbol) -> SymbolLikeness {
    match symbol {
        Symbol::function(_) => SymbolLikeness::Function,
        Symbol::variable(_) => SymbolLikeness::Variable,
        Symbol::typeDefinition(definition) => spec_type_decl_likeness(*definition.originalType.decl),
        Symbol::structure(_) | Symbol::union(_) => SymbolLikeness::Structure,
        Symbol::enumeration(_) => SymbolLikeness::Enumeration,
        Symbol::macroDefintion(definition) => if definition.parameters.len() == 0 {
            SymbolLikeness::Constant
        } else {
            SymbolLikeness::Function
        },
    }
}

impl Symbol {
    pub fn likeness(&self) -> (r: SymbolLikeness)
        ensures
            r == spec_symbol_likeness(*self),
    {
        match self {
            Symbol::function(_) => SymbolLikeness::Function,
            Symbol::variable(_) => SymbolLikeness::Variable,
            Symbol::typeDefinition(definition) => definition.originalType.decl.likeness(),
            Symbol::structure(_) | Symbol::union(_) => SymbolLikeness::Structure,
            Symbol::enumeration(_) => SymbolLikeness::Enumeration,
            Symbol::macroDefintion(definition) => if definition.parameters.len() == 0 {
                SymbolLikeness::Constant
            } else {
                SymbolLikeness::Function
            },
        }
    }
}

impl TypeDecl {
    pub fn likeness(&self) -> (r: SymbolLikeness)
        ensures
            r == spec_type_decl_likeness(*self),
        decreases self,
    {
        match self {
            TypeDecl::function(_) => SymbolLikeness::Function,
            TypeDecl::enumeration(_) => SymbolLikeness::Enumeration,
            TypeDecl::structure(_) | TypeDecl::union(_) => SymbolLikeness::Structure,
            TypeDecl::pointer(pointer) => pointer.pointeeType.decl.likeness(),
            _ => SymbolLikeness::Statement,
        }
    }
}

#[derive(Clone)]
pub struct TranslationUnit {
    pub includes: Vec<IncludedHeader>,
}

#[derive(Clone)]
pub enum IncludedHeader {
    system(String),
    local(String),
}

pub type Statements = String;

pub type Expression = String;

pub type RawSpelling = String;

pub type Identifier = String;

#[derive(Clone)]
pub struct PreprocessorCall {
    /// Name
    pub directive: RawSpelling,
    pub arguments: Vec<RawSpelling>,
}

#[derive(Clone)]
pub struct MacroDefinition {
    pub name: Identifier,
    pub parameters: Vec<Parameter<Identifier>>,
    pub value: Option<RawSpelling>,
}

/// Storage class of a declaration.
#[derive(Clone, Copy, Debug, PartialEq, Eq, Structural)]
pub enum Storage {
    external,
    static_,
    register,
    inline,
    threadLocal,
}

/// Declaration modifier
pub enum Modifier {
    /// Storage class modifier
    storage(Storage),
    /// Old-school, non-standard `__attribute__` or `__attribute`
    attribute(Attribute),
    /// C++20 `[[prefix:attribute]]` attribute syntax
    standardAttribute(StandardAttribute),
    /// Microsoft-specifc modifiers
    msSpecificModifier(MSDeclModifier),
}

#[derive(Clone)]
pub enum MSDeclModifier {
    /// `__declspec` modifier
    declspec(Identifier),
}

#[derive(Clone)]
pub enum DeclarationQualifier {
    /// Constant expression, applies to variables and functions
    constexpr,
    /// Suppresses warnings, applies to variable/function
    extension,
    /// Align as, applies to variable
    alignas(Expression),
}

#[derive(Clone, Copy, Debug, PartialEq, Eq, Structural)]
pub enum PointerQualifier {
    /// Not null, applies to pointers only
    nonnull,
    /// May be null, applies to pointers only
    nullable,
    /// Only reference to the pointee for the duration of access to this pointer
    restrict,
}

#[derive(Clone, Copy, Debug, PartialEq, Eq, Structural)]
pub enum FunctionQualifier {
    /// Function does not return, applies to functions only (not function pointers)
    noreturn,
}

#[derive(Clone, Copy, Debug, PartialEq, Eq, Structural)]
pub enum ArrayQualifier {
    /// Passed array pointer has at least `N` elements
    static_,
    /// Only reference to the pointee for the duration of access to this pointer
    restrict,
}

#[derive(Clone, Copy, Debug, PartialEq, Eq, Structural)]
pub enum TypeQualifier {
    /// Immutable value, applies to types
    const_,
    /// Value might change unexpectedly, applies to types
    volatile,
    /// Atomic value, applies to types
    atomic,
}

#[derive(Clone)]
pub struct Attribute {
    pub arguments: Vec<RawSpelling>,
}

#[derive(Clone)]
pub struct StandardAttribute {
    pub prefix: Option<Identifier>,
    pub name: Identifier,
    pub arguments: Vec<RawSpelling>,
}

#[derive(Clone, Copy, Debug, PartialEq, Eq, Structural)]
pub enum AssemblyFlavor {
    volatile,
    inline,
    goto,
}

/// `asm(), __asm(), or __asm__()`
#[derive(Clone)]
pub struct InlineAssembly {
    pub flavors: Vec<AssemblyFlavor>,
    pub arguments: Expression,
}

pub enum TypeDecl {
    structure(Struct),
    union(Union),
    enumeration(Enum),
    pointer(Pointer),
    function(Function),
    array(Array),
    macroCall(Expression),
    named(NamedType, Vec<SizeModifier>),
}

#[derive(Clone)]
pub enum NamedType {
    custom(Identifier),
    primitive(PrimitiveType),
}

#[derive(Clone, Copy, Debug, PartialEq, Eq, Structural)]
pub enum SizeModifier {
    signed,
    unsigned,
    long,
    short,
}

pub struct CType {
    pub decl: Box<TypeDecl>,
    pub qualifiers: Vec<TypeQualifier>,
}

#[derive(Clone, Copy, Debug, PartialEq, Eq, Structural)]
pub enum PrimitiveType {
    bool,
    char,
    int_,
    float,
    double,
    void,
    size,
    ssize,
    ptrdiff,
    intptr,
    uintptr,
    charptr,
    nullptr,
    maxAlign,
    int8,
    int16,
    int32,
    int64,
    uint8,
    uint16,
    uint32,
    uint64,
    char8,
    char16,
    char32,
    char64,
}

pub struct Array {
    pub count: Option<Expression>,
    pub elementType: CType,
    pub qualifiers: Vec<ArrayQualifier>,
}

#[derive(Clone)]
pub enum MSPointerModifier {
    unaligned,
    restrict,
    unsigned,
    signed,
    /// `__based`
    based(Vec<RawSpelling>),
}

pub struct Pointer {
    pub msSpecificModifiers: Vec<MSPointerModifier>,
    pub qualifiers: Vec<PointerQualifier>,
    pub pointeeType: CType,
}

pub struct TypeDefinition {
    pub qualifiers: Vec<DeclarationQualifier>,
    pub name: Identifier,
    pub originalType: CType,
    pub attributes: Vec<Attribute>,
}

#[derive(Clone)]
pub enum AttachedExpression {
    bitWidth(Expression),
    value(Expression),
}

pub struct Variable {
    pub modifiers: Vec<Modifier>,
    pub qualifiers: Vec<DeclarationQualifier>,
    pub cType: CType,
    pub identifier: Option<Identifier>,
    pub attachedExpression: Option<AttachedExpression>,
}

pub struct Container {
    pub name: Option<Identifier>,
    pub attributes: Vec<Attribute>,
    pub msSpecificModifiers: Vec<MSDeclModifier>,
    pub members: Vec<Variable>,
}

pub type Struct = Container;

pub type Union = Container;

#[derive(Clone)]
pub struct EnumCase {
    pub name: Identifier,
    pub value: Option<Expression>,
}

pub struct Enum {
    pub name: Option<Identifier>,
    pub attributes: Vec<Attribute>,
    pub underlyingType: Option<PrimitiveType>,
    pub cases: Vec<EnumCase>,
}

#[derive(Clone)]
pub enum Parameter<R> {
    variadic(Option<Identifier>),
    regular(R),
}

#[derive(Clone, Copy, Debug, PartialEq, Eq, Structural)]
pub enum MSCallModifier {
    cdecl,
    clrcall,
    stdcall,
    fastcall,
    thiscall,
    vectorcall,
}

pub struct Function {
    /// Declaration modifiers
    pub modifiers: Vec<Modifier>,
    pub functionQualifiers: Vec<FunctionQualifier>,
    pub declQualifiers: Vec<DeclarationQualifier>,
    /// Type specifier
    pub returnType: CType,
    pub msSpecifcModifiers: Vec<MSCallModifier>,
    pub parameters: Vec<Parameter<Variable>>,
    pub inlineAssembly: Option<InlineAssembly>,
    /// Function name, may be anonymous if used inside a variable
    pub name: Option<Identifier>,
}

/// Which Microsoft pointer modifier a keyword spells: 0 unaligned, 1 restrict, 2 unsigned,
/// 3 signed, 4 based.
pub open spec fn spec_ms_pointer_keyword(s: Seq<char>) -> Option<u8> {
    if s == "_unaligned"@ || s == "__unaligned"@ {
        Some(0)
    } else if s == "__restrict"@ {
        Some(1)
    } else if s == "__uptr"@ {
        Some(2)
    } else if s == "__sptr"@ {
        Some(3)
    } else if s == "__based"@ {
        Some(4)
    } else {
        None
    }
}

/// Which Microsoft pointer modifier a tree-sitter node kind stands for, numbered as above.
pub open spec fn spec_ms_pointer_node_kind(s: Seq<char>) -> Option<u8> {
    if s == "ms_unaligned_ptr_modifier"@ {
        Some(0)
    } else if s == "ms_restrict_modifier"@ {
        Some(1)
    } else if s == "ms_unsigned_ptr_modifier"@ {
        Some(2)
    } else if s == "ms_signed_ptr_modifier"@ {
        Some(3)
    } else {
        None
    }
}

/// Whether a modifier is the one numbered `code` above (`based` with no arguments for 4).
pub open spec fn ms_pointer_modifier_is(m: MSPointerModifier, code: u8) -> bool {
    match m {
        MSPointerModifier::unaligned => code == 0,
        MSPointerModifier::restrict => code == 1,
        MSPointerModifier::unsigned => code == 2,
        MSPointerModifier::signed => code == 3,
        MSPointerModifier::based(args) => code == 4 && args@.len() == 0,
    }
}

impl MSPointerModifier {
    /// The Microsoft pointer modifier spelled by a keyword.
    pub fn from_str(rawValue: &str) -> (r: Option<Self>)
        ensures
            match spec_ms_pointer_keyword(rawValue@) {
                Some(code) => r is Some && ms_pointer_modifier_is(r->Some_0, code),
                None => r is None,
            },
    {
        if str_eq(rawValue, "_unaligned") || str_eq(rawValue, "__unaligned") {
            Some(MSPointerModifier::unaligned)
        } else if str_eq(rawValue, "__restrict") {
            Some(MSPointerModifier::restrict)
        } else if str_eq(rawValue, "__uptr") {
            Some(MSPointerModifier::unsigned)
        } else if str_eq(rawValue, "__sptr") {
            Some(MSPointerModifier::signed)
        } else if str_eq(rawValue, "__based") {
            Some(MSPointerModifier::based(Vec::with_capacity(0)))
        } else {
            None
        }
    }

    /// The Microsoft pointer modifier that a tree-sitter node kind stands for.
    pub fn from_ast_name(astName: &str) -> (r: Option<Self>)
        ensures
            match spec_ms_pointer_node_kind(astName@) {
                Some(code) => r is Some && ms_pointer_modifier_is(r->Some_0, code),
                None => r is None,
            },
    {
        if str_eq(astName, "ms_unaligned_ptr_modifier") {
            Some(MSPointerModifier::unaligned)
        } else if str_eq(astName, "ms_restrict_modifier") {
            Some(MSPointerModifier::restrict)
        } else if str_eq(astName, "ms_unsigned_ptr_modifier") {
            Some(MSPointerModifier::unsigned)
        } else if str_eq(astName, "ms_signed_ptr_modifier") {
            Some(MSPointerModifier::signed)
        } else {
            None
        }
    }
}

/// The storage class that a keyword spells.
pub open spec fn spec_storage_of(s: Seq<char>) -> Option<Storage> {
    if s == "extern"@ {
        Some(Storage::external)
    } else if s == "static"@ {
        Some(Storage::static_)
    } else if s == "register"@ {
        Some(Storage::register)
    } else if s == "inline"@ || s == "__forceinline"@ || s == "__inline__"@ || s == "__inline"@ {
        Some(Storage::inline)
    } else if s == "thread_local"@ || s == "__thread"@ {
        Some(Storage::threadLocal)
    } else {
        None
    }
}

impl Storage {
    /// The storage class that a keyword spells.
    pub fn from_str(s: &str) -> (r: Option<Self>)
        ensures
            r == spec_storage_of(s@),
    {
        if str_eq(s, "extern") {
            Some(Storage::external)
        } else if str_eq(s, "static") {
            Some(Storage::static_)
        } else if str_eq(s, "register") {
            Some(Storage::register)
        } else if str_eq(s, "inline") || str_eq(s, "__forceinline") || str_eq(s, "__inline__") || str_eq(s, "__inline") {
            Some(Storage::inline)
        } else if str_eq(s, "thread_local") || str_eq(s, "__thread") {
            Some(Storage::threadLocal)
        } else {
            None
        }
    }
}

/// The pointer qualifier that a keyword spells.
pub open spec fn spec_pointer_qualifier_of(s: Seq<char>) -> Option<PointerQualifier> {
    if s == "_Nonnull"@ {
        Some(PointerQualifier::nonnull)
    } else if s == "_Nullable"@ {
        Some(PointerQualifier::nullable)
    } else if s == "restrict"@ {
        Some(PointerQualifier::restrict)
    } else {
        None
    }
}

impl PointerQualifier {
    /// The pointer qualifier that a keyword spells.
    pub fn from_str(s: &str) -> (r: Option<Self>)
        ensures
            r == spec_pointer_qualifier_of(s@),
    {
        if str_eq(s, "_Nonnull") {
            Some(PointerQualifier::nonnull)
        } else if str_eq(s, "_Nullable") {
            Some(PointerQualifier::nullable)
        } else if str_eq(s, "restrict") {
            Some(PointerQualifier::restrict)
        } else {
            None
        }
    }
}

/// The function qualifier that a keyword spells.
pub open spec fn spec_function_qualifier_of(s: Seq<char>) -> Option<FunctionQualifier> {
    if s == "_Noreturn"@ {
        Some(FunctionQualifier::noreturn)
    } else {
        None
    }
}

impl FunctionQualifier {
    /// The function qualifier that a keyword spells.
    pub fn from_str(s: &str) -> (r: Option<Self>)
        ensures
            r == spec_function_qualifier_of(s@),
    {
        if str_eq(s, "_Noreturn") {
            Some(FunctionQualifier::noreturn)
        } else {
            None
        }
    }
}

/// The array qualifier that a keyword spells.
pub open spec fn spec_array_qualifier_of(s: Seq<char>) -> Option<ArrayQualifier> {
    if s == "static"@ {
        Some(ArrayQualifier::static_)
    } else if s == "restrict"@ {
        Some(ArrayQualifier::restrict)
    } else {
        None
    }
}

impl ArrayQualifier {
    /// The array qualifier that a keyword spells.
    pub fn from_str(s: &str) -> (r: Option<Self>)
        ensures
            r == spec_array_qualifier_of(s@),
    {
        if str_eq(s, "static") {
            Some(ArrayQualifier::static_)
        } else if str_eq(s, "restrict") {
            Some(ArrayQualifier::restrict)
        } else {
            None
        }
    }
}

/// The type qualifier that a keyword spells.
pub open spec fn spec_type_qualifier_of(s: Seq<char>) -> Option<TypeQualifier> {
    if s == "const"@ {
        Some(TypeQualifier::const_)
    } else if s == "volatile"@ {
        Some(TypeQualifier::volatile)
    } else if s == "_Atomic"@ {
        Some(TypeQualifier::atomic)
    } else {
        None
    }
}

impl TypeQualifier {
    /// The type qualifier that a keyword spells.
    pub fn from_str(s: &str) -> (r: Option<Self>)
        ensures
            r == spec_type_qualifier_of(s@),
    {
        if str_eq(s, "const") {
            Some(TypeQualifier::const_)
        } else if str_eq(s, "volatile") {
            Some(TypeQualifier::volatile)
        } else if str_eq(s, "_Atomic") {
            Some(TypeQualifier::atomic)
        } else {
            None
        }
    }
}

/// The size modifier that a keyword spells.
pub open spec fn spec_size_modifier_of(s: Seq<char>) -> Option<SizeModifier> {
    if s == "signed"@ {
        Some(SizeModifier::signed)
    } else if s == "unsigned"@ {
        Some(SizeModifier::unsigned)
    } else if s == "long"@ {
        Some(SizeModifier::long)
    } else if s == "short"@ {
        Some(SizeModifier::short)
    } else {
        None
    }
}

impl SizeModifier {
    /// The size modifier that a keyword spells.
    pub fn from_str(s: &str) -> (r: Option<Self>)
        ensures
            r == spec_size_modifier_of(s@),
    {
        if str_eq(s, "signed") {
            Some(SizeModifier::signed)
        } else if str_eq(s, "unsigned") {
            Some(SizeModifier::unsigned)
        } else if str_eq(s, "long") {
            Some(SizeModifier::long)
        } else if str_eq(s, "short") {
            Some(SizeModifier::short)
        } else {
            None
        }
    }
}

/// The primitive type that a keyword spells.
pub open spec fn spec_primitive_type_of(s: Seq<char>) -> Option<PrimitiveType> {
    if s == "bool"@ {
        Some(PrimitiveType::bool)
    } else if s == "char"@ {
        Some(PrimitiveType::char)
    } else if s == "int"@ {
        Some(PrimitiveType::int_)
    } else if s == "float"@ {
        Some(PrimitiveType::float)
    } else if s == "double"@ {
        Some(PrimitiveType::double)
    } else if s == "void"@ {
        Some(PrimitiveType::void)
    } else if s == "size_t"@ {
        Some(PrimitiveType::size)
    } else if s == "ssize_t"@ {
        Some(PrimitiveType::ssize)
    } else if s == "ptrdiff_t"@ {
        Some(PrimitiveType::ptrdiff)
    } else if s == "intptr_t"@ {
        Some(PrimitiveType::intptr)
    } else if s == "uintptr_t"@ {
        Some(PrimitiveType::uintptr)
    } else if s == "charptr_t"@ {
        Some(PrimitiveType::charptr)
    } else if s == "nullptr_t"@ {
        Some(PrimitiveType::nullptr)
    } else if s == "max_align_t"@ {
        Some(PrimitiveType::maxAlign)
    } else if s == "int8_t"@ {
        Some(PrimitiveType::int8)
    } else if s == "int16_t"@ {
        Some(PrimitiveType::int16)
    } else if s == "int32_t"@ {
        Some(PrimitiveType::int32)
    } else if s == "int64_t"@ {
        Some(PrimitiveType::int64)
    } else if s == "uint8_t"@ {
        Some(PrimitiveType::uint8)
    } else if s == "uint16_t"@ {
        Some(PrimitiveType::uint16)
    } else if s == "uint32_t"@ {
        Some(PrimitiveType::uint32)
    } else if s == "uint64_t"@ {
        Some(PrimitiveType::uint64)
    } else if s == "char8_t"@ {
        Some(PrimitiveType::char8)
    } else if s == "char16_t"@ {
        Some(PrimitiveType::char16)
    } else if s == "char32_t"@ {
        Some(PrimitiveType::char32)
    } else if s == "char64_t"@ {
        Some(PrimitiveType::char64)
    } else {
        None
    }
}

impl PrimitiveType {
    /// The primitive type that a keyword spells.
    pub fn from_str(s: &str) -> (r: Option<Self>)
        ensures
            r == spec_primitive_type_of(s@),
    {
        if str_eq(s, "bool") {
            Some(PrimitiveType::bool)
        } else if str_eq(s, "char") {
            Some(PrimitiveType::char)
        } else if str_eq(s, "int") {
            Some(PrimitiveType::int_)
        } else if str_eq(s, "float") {
            Some(PrimitiveType::float)
        } else if str_eq(s, "double") {
            Some(PrimitiveType::double)
        } else if str_eq(s, "void") {
            Some(PrimitiveType::void)
        } else if str_eq(s, "size_t") {
            Some(PrimitiveType::size)
        } else if str_eq(s, "ssize_t") {
            Some(PrimitiveType::ssize)
        } else if str_eq(s, "ptrdiff_t") {
            Some(PrimitiveType::ptrdiff)
        } else if str_eq(s, "intptr_t") {
            Some(PrimitiveType::intptr)
        } else if str_eq(s, "uintptr_t") {
            Some(PrimitiveType::uintptr)
        } else if str_eq(s, "charptr_t") {
            Some(PrimitiveType::charptr)
        } else if str_eq(s, "nullptr_t") {
            Some(PrimitiveType::nullptr)
        } else if str_eq(s, "max_align_t") {
            Some(PrimitiveType::maxAlign)
        } else if str_eq(s, "int8_t") {
            Some(PrimitiveType::int8)
        } else if str_eq(s, "int16_t") {
            Some(PrimitiveType::int16)
        } else if str_eq(s, "int32_t") {
            Some(PrimitiveType::int32)
        } else if str_eq(s, "int64_t") {
            Some(PrimitiveType::int64)
        } else if str_eq(s, "uint8_t") {
            Some(PrimitiveType::uint8)
        } else if str_eq(s, "uint16_t") {
            Some(PrimitiveType::uint16)
        } else if str_eq(s, "uint32_t") {
            Some(PrimitiveType::uint32)
        } else if str_eq(s, "uint64_t") {
            Some(PrimitiveType::uint64)
        } else if str_eq(s, "char8_t") {
            Some(PrimitiveType::char8)
        } else if str_eq(s, "char16_t") {
            Some(PrimitiveType::char16)
        } else if str_eq(s, "char32_t") {
            Some(PrimitiveType::char32)
        } else if str_eq(s, "char64_t") {
            Some(PrimitiveType::char64)
        } else {
            None
        }
    }
}

/// The Microsoft calling convention that a keyword spells.
pub open spec fn spec_ms_call_modifier_of(s: Seq<char>) -> Option<MSCallModifier> {
    if s == "__cdecl"@ {
        Some(MSCallModifier::cdecl)
    } else if s == "__clrcall"@ {
        Some(MSCallModifier::clrcall)
    } else if s == "__stdcall"@ {
        Some(MSCallModifier::stdcall)
    } else if s == "__fastcall"@ {
        Some(MSCallModifier::fastcall)
    } else if s == "__thiscall"@ {
        Some(MSCallModifier::thiscall)
    } else if s == "__vectorcall"@ {
        Some(MSCallModifier::vectorcall)
    } else {
        None
    }
}

impl MSCallModifier {
    /// The Microsoft calling convention that a keyword spells.
    pub fn from_str(s: &str) -> (r: Option<Self>)
        ensures
            r == spec_ms_call_modifier_of(s@),
    {
        if str_eq(s, "__cdecl") {
            Some(MSCallModifier::cdecl)
        } else if str_eq(s, "__clrcall") {
            Some(MSCallModifier::clrcall)
        } else if str_eq(s, "__stdcall") {
            Some(MSCallModifier::stdcall)
        } else if str_eq(s, "__fastcall") {
            Some(MSCallModifier::fastcall)
        } else if str_eq(s, "__thiscall") {
            Some(MSCallModifier::thiscall)
        } else if str_eq(s, "__vectorcall") {
            Some(MSCallModifier::vectorcall)
        } else {
            None
        }
    }
}

} // verus!
