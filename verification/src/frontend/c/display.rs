#![allow(non_snake_case)]

use vstd::prelude::*;
use crate::frontend::c::sema::{
    ArrayQualifier, AssemblyFlavor, Attribute, CType, Container, DeclarationQualifier, Enum, EnumCase,
    FunctionQualifier, Function, MacroDefinition, MSCallModifier, MSDeclModifier, MSPointerModifier, Modifier,
    NamedType, Parameter, PointerQualifier, PrimitiveType, SizeModifier, StandardAttribute, Storage, Symbol,
    TypeDecl, TypeDefinition, TypeQualifier, Variable, AttachedExpression, Pointer, Array, PreprocessorCall,
    TranslationUnit,
};
use crate::frontend::c::views::texts;
use crate::frontend::c::sema::{ms_pointer_modifier_is, spec_ms_pointer_keyword, spec_storage_of, spec_pointer_qualifier_of, spec_function_qualifier_of, spec_array_qualifier_of, spec_type_qualifier_of, spec_size_modifier_of, spec_primitive_type_of, spec_ms_call_modifier_of};

verus! {

// The text of C symbols, as the compiler prints them.

/// The keyword that spells a storage.
pub open spec fn storage_text(x: Storage) -> Seq<char> {
    match x {
        Storage::external => "extern"@,
        Storage::static_ => "static"@,
        Storage::register => "register"@,
        Storage::inline => "inline"@,
        Storage::threadLocal => "thread_local"@,
    }
}

/// Printing a storage class and reading the keyword back gives the same storage class: each
/// storage class is read from the keyword it is printed as.
pub proof fn law_storage_reads_back(x: Storage)
    ensures
        spec_storage_of(storage_text(x)) == Some(x),
{
    reveal_strlit("extern");
    reveal_strlit("static");
    reveal_strlit("register");
    reveal_strlit("inline");
    reveal_strlit("__forceinline");
    reveal_strlit("__inline__");
    reveal_strlit("__inline");
    reveal_strlit("thread_local");
    reveal_strlit("__thread");
    match x {
        Storage::external => {  },
        Storage::static_ => { assert("static"@ != "extern"@) by { assert("static"@[0] != "extern"@[0]); } },
        Storage::register => { assert("register"@ != "extern"@) by { assert("register"@.len() != "extern"@.len()); } assert("register"@ != "static"@) by { assert("register"@.len() != "static"@.len()); } },
        Storage::inline => { assert("inline"@ != "extern"@) by { assert("inline"@[0] != "extern"@[0]); } assert("inline"@ != "static"@) by { assert("inline"@[0] != "static"@[0]); } assert("inline"@ != "register"@) by { assert("inline"@.len() != "register"@.len()); } },
        Storage::threadLocal => { assert("thread_local"@ != "extern"@) by { assert("thread_local"@.len() != "extern"@.len()); } assert("thread_local"@ != "static"@) by { assert("thread_local"@.len() != "static"@.len()); } assert("thread_local"@ != "register"@) by { assert("thread_local"@.len() != "register"@.len()); } assert("thread_local"@ != "inline"@) by { assert("thread_local"@.len() != "inline"@.len()); } assert("thread_local"@ != "__forceinline"@) by { assert("thread_local"@.len() != "__forceinline"@.len()); } assert("thread_local"@ != "__inline__"@) by { assert("thread_local"@.len() != "__inline__"@.len()); } assert("thread_local"@ != "__inline"@) by { assert("thread_local"@.len() != "__inline"@.len()); } },
    }
}

impl Storage {
    /// The keyword that spells it.
    pub fn as_str(&self) -> (r: &'static str)
        ensures
            r@ == storage_text(*self),
    {
        match self {
            Storage::external => "extern",
            Storage::static_ => "static",
            Storage::register => "register",
            Storage::inline => "inline",
            Storage::threadLocal => "thread_local",
        }
    }
}

/// The keyword that spells a pointer qualifier.
pub open spec fn pointer_qualifier_text(x: PointerQualifier) -> Seq<char> {
    match x {
        PointerQualifier::nonnull => "_Nonnull"@,
        PointerQualifier::nullable => "_Nullable"@,
        PointerQualifier::restrict => "restrict"@,
    }
}

impl PointerQualifier {
    /// The keyword that spells it.
    pub fn as_str(&self) -> (r: &'static str)
        ensures
            r@ == pointer_qualifier_text(*self),
    {
        match self {
            PointerQualifier::nonnull => "_Nonnull",
            PointerQualifier::nullable => "_Nullable",
            PointerQualifier::restrict => "restrict",
        }
    }
}

/// The keyword that spells a function qualifier.
pub open spec fn function_qualifier_text(x: FunctionQualifier) -> Seq<char> {
    match x {
        FunctionQualifier::noreturn => "_Noreturn"@,
    }
}

impl FunctionQualifier {
    /// The keyword that spells it.
    pub fn as_str(&self) -> (r: &'static str)
        ensures
            r@ == function_qualifier_text(*self),
    {
        match self {
            FunctionQualifier::noreturn => "_Noreturn",
        }
    }
}

/// The keyword that spells a array qualifier.
pub open spec fn array_qualifier_text(x: ArrayQualifier) -> Seq<char> {
    match x {
        ArrayQualifier::static_ => "static"@,
        ArrayQualifier::restrict => "restrict"@,
    }
}

impl ArrayQualifier {
    /// The keyword that spells it.
    pub fn as_str(&self) -> (r: &'static str)
        ensures
            r@ == array_qualifier_text(*self),
    {
        match self {
            ArrayQualifier::static_ => "static",
            ArrayQualifier::restrict => "restrict",
        }
    }
}

/// The keyword that spells a type qualifier.
pub open spec fn type_qualifier_text(x: TypeQualifier) -> Seq<char> {
    match x {
        TypeQualifier::const_ => "const"@,
        TypeQualifier::volatile => "volatile"@,
        TypeQualifier::atomic => "_Atomic"@,
    }
}

impl TypeQualifier {
    /// The keyword that spells it.
    pub fn as_str(&self) -> (r: &'static str)
        ensures
            r@ == type_qualifier_text(*self),
    {
        match self {
            TypeQualifier::const_ => "const",
            TypeQualifier::volatile => "volatile",
            TypeQualifier::atomic => "_Atomic",
        }
    }
}

/// The keyword that spells a size modifier.
pub open spec fn size_modifier_text(x: SizeModifier) -> Seq<char> {
    match x {
        SizeModifier::signed => "signed"@,
        SizeModifier::unsigned => "unsigned"@,
        SizeModifier::long => "long"@,
        SizeModifier::short => "short"@,
    }
}

impl SizeModifier {
    /// The keyword that spells it.
    pub fn as_str(&self) -> (r: &'static str)
        ensures
            r@ == size_modifier_text(*self),
    {
        match self {
            SizeModifier::signed => "signed",
            SizeModifier::unsigned => "unsigned",
            SizeModifier::long => "long",
            SizeModifier::short => "short",
        }
    }
}

/// The keyword that spells a ms call modifier.
pub open spec fn ms_call_modifier_text(x: MSCallModifier) -> Seq<char> {
    match x {
        MSCallModifier::cdecl => "__cdecl"@,
        MSCallModifier::clrcall => "__clrcall"@,
        MSCallModifier::stdcall => "__stdcall"@,
        MSCallModifier::fastcall => "__fastcall"@,
        MSCallModifier::thiscall => "__thiscall"@,
        MSCallModifier::vectorcall => "__vectorcall"@,
    }
}

impl MSCallModifier {
    /// The keyword that spells it.
    pub fn as_str(&self) -> (r: &'static str)
        ensures
            r@ == ms_call_modifier_text(*self),
    {
        match self {
            MSCallModifier::cdecl => "__cdecl",
            MSCallModifier::clrcall => "__clrcall",
            MSCallModifier::stdcall => "__stdcall",
            MSCallModifier::fastcall => "__fastcall",
            MSCallModifier::thiscall => "__thiscall",
            MSCallModifier::vectorcall => "__vectorcall",
        }
    }
}

/// The keyword that spells a primitive type.
pub open spec fn primitive_type_text(x: PrimitiveType) -> Seq<char> {
    match x {
        PrimitiveType::bool => "bool"@,
        PrimitiveType::char => "char"@,
        PrimitiveType::int_ => "int"@,
        PrimitiveType::float => "float"@,
        PrimitiveType::double => "double"@,
        PrimitiveType::void => "void"@,
        PrimitiveType::size => "size_t"@,
        PrimitiveType::ssize => "ssize_t"@,
        PrimitiveType::ptrdiff => "ptrdiff_t"@,
        PrimitiveType::intptr => "intptr_t"@,
        PrimitiveType::uintptr => "uintptr_t"@,
        PrimitiveType::charptr => "charptr_t"@,
        PrimitiveType::nullptr => "nullptr_t"@,
        PrimitiveType::maxAlign => "max_align_t"@,
        PrimitiveType::int8 => "int8_t"@,
        PrimitiveType::int16 => "int16_t"@,
        PrimitiveType::int32 => "int32_t"@,
        PrimitiveType::int64 => "int64_t"@,
        PrimitiveType::uint8 => "uint8_t"@,
        PrimitiveType::uint16 => "uint16_t"@,
        PrimitiveType::uint32 => "uint32_t"@,
        PrimitiveType::uint64 => "uint64_t"@,
        PrimitiveType::char8 => "char8_t"@,
        PrimitiveType::char16 => "char16_t"@,
        PrimitiveType::char32 => "char32_t"@,
        PrimitiveType::char64 => "char64_t"@,
    }
}

impl PrimitiveType {
    /// The keyword that spells it.
    pub fn as_str(&self) -> (r: &'static str)
        ensures
            r@ == primitive_type_text(*self),
    {
        match self {
            PrimitiveType::bool => "bool",
            PrimitiveType::char => "char",
            PrimitiveType::int_ => "int",
            PrimitiveType::float => "float",
            PrimitiveType::double => "double",
            PrimitiveType::void => "void",
            PrimitiveType::size => "size_t",
            PrimitiveType::ssize => "ssize_t",
            PrimitiveType::ptrdiff => "ptrdiff_t",
            PrimitiveType::intptr => "intptr_t",
            PrimitiveType::uintptr => "uintptr_t",
            PrimitiveType::charptr => "charptr_t",
            PrimitiveType::nullptr => "nullptr_t",
            PrimitiveType::maxAlign => "max_align_t",
            PrimitiveType::int8 => "int8_t",
            PrimitiveType::int16 => "int16_t",
            PrimitiveType::int32 => "int32_t",
            PrimitiveType::int64 => "int64_t",
            PrimitiveType::uint8 => "uint8_t",
            PrimitiveType::uint16 => "uint16_t",
            PrimitiveType::uint32 => "uint32_t",
            PrimitiveType::uint64 => "uint64_t",
            PrimitiveType::char8 => "char8_t",
            PrimitiveType::char16 => "char16_t",
            PrimitiveType::char32 => "char32_t",
            PrimitiveType::char64 => "char64_t",
        }
    }
}

/// The keyword that spells a assembly flavor.
pub open spec fn assembly_flavor_text(x: AssemblyFlavor) -> Seq<char> {
    match x {
        AssemblyFlavor::volatile => "volatile"@,
        AssemblyFlavor::inline => "inline"@,
        AssemblyFlavor::goto => "goto"@,
    }
}

impl AssemblyFlavor {
    /// The keyword that spells it.
    pub fn as_str(&self) -> (r: &'static str)
        ensures
            r@ == assembly_flavor_text(*self),
    {
        match self {
            AssemblyFlavor::volatile => "volatile",
            AssemblyFlavor::inline => "inline",
            AssemblyFlavor::goto => "goto",
        }
    }
}

/// Items joined by a separator.
pub open spec fn joined(items: Seq<Seq<char>>, sep: Seq<char>) -> Seq<char>
    decreases items.len(),
{
    if items.len() == 0 {
        Seq::empty()
    } else if items.len() == 1 {
        items[0]
    } else {
        joined(items.drop_last(), sep) + sep + items.last()
    }
}

/// Items joined by a separator, between a prefix and a suffix; nothing at all where there are
/// no items.
pub open spec fn listed(items: Seq<Seq<char>>, sep: Seq<char>, prefix: Seq<char>, suffix: Seq<char>) -> Seq<char> {
    if items.len() == 0 {
        Seq::empty()
    } else {
        prefix + joined(items, sep) + suffix
    }
}

/// Items joined by a separator, between a prefix and a suffix; nothing at all where there are
/// no items.
pub fn fmt_separated_list(items: &Vec<String>, separator: &str, prefix: &str, suffix: &str) -> (r: String)
    ensures
        r@ == listed(texts(items@), separator@, prefix@, suffix@),
{
    if items.len() == 0 {
        return String::new();
    }
    let mut r = String::from_str(prefix);
    r.append(items[0].as_str());
    let mut k: usize = 1;
    proof {
        assert(texts(items@).take(1) =~= seq![items@[0]@]);
        assert(joined(texts(items@).take(1), separator@) == items@[0]@);
    }
    while k < items.len()
        invariant
            1 <= k <= items@.len(),
            r@ == prefix@ + joined(texts(items@).take(k as int), separator@),
        decreases items.len() - k,
    {
        proof {
            assert(texts(items@).take(k + 1).drop_last() =~= texts(items@).take(k as int));
            assert(texts(items@).take(k + 1).last() == items@[k as int]@);
        }
        r.append(separator);
        r.append(items[k].as_str());
        k = k + 1;
    }
    proof {
        assert(texts(items@).take(items@.len() as int) =~= texts(items@));
    }
    r.append(suffix);
    r
}

/// `s` followed by `t`.
fn append(s: String, t: &str) -> (r: String)
    ensures
        r@ == s@ + t@,
{
    let mut s = s;
    s.append(t);
    s
}

pub open spec fn opt_or(o: Option<String>, d: Seq<char>) -> Seq<char> {
    match o {
        Some(s) => s@,
        None => d,
    }
}

fn text_or<'a>(o: &'a Option<String>, d: &'a str) -> (r: &'a str)
    ensures
        r@ == opt_or(*o, d@),
{
    match o {
        Some(s) => s.as_str(),
        None => d,
    }
}

pub open spec fn attribute_text(a: Attribute) -> Seq<char> {
    "__attribute__(("@ + joined(texts(a.arguments@), ", "@) + "))"@
}

pub open spec fn standard_attribute_text(a: StandardAttribute) -> Seq<char> {
    "[["@ + (match a.prefix {
        Some(p) => p@ + "::"@,
        None => Seq::empty(),
    }) + a.name@ + "]]"@
}

pub open spec fn ms_decl_modifier_text(m: MSDeclModifier) -> Seq<char> {
    match m {
        MSDeclModifier::declspec(id) => "__declspec("@ + id@ + ")"@,
    }
}

pub open spec fn modifier_text(m: Modifier) -> Seq<char> {
    match m {
        Modifier::attribute(a) => attribute_text(a),
        Modifier::standardAttribute(a) => standard_attribute_text(a),
        Modifier::storage(s) => storage_text(s),
        Modifier::msSpecificModifier(d) => ms_decl_modifier_text(d),
    }
}

pub open spec fn declaration_qualifier_text(q: DeclarationQualifier) -> Seq<char> {
    match q {
        DeclarationQualifier::constexpr => "constexpr"@,
        DeclarationQualifier::extension => "__extension__"@,
        DeclarationQualifier::alignas(e) => "alignas("@ + e@ + ")"@,
    }
}

pub open spec fn ms_pointer_modifier_text(m: MSPointerModifier) -> Seq<char> {
    match m {
        MSPointerModifier::unaligned => "__unaligned"@,
        MSPointerModifier::restrict => "__restrict"@,
        MSPointerModifier::unsigned => "__uptr"@,
        MSPointerModifier::signed => "__sptr"@,
        MSPointerModifier::based(args) => "__based("@ + joined(texts(args@), ", "@) + ")"@,
    }
}

pub open spec fn named_type_text(n: NamedType) -> Seq<char> {
    match n {
        NamedType::custom(id) => id@,
        NamedType::primitive(p) => primitive_type_text(p),
    }
}

pub open spec fn enum_case_text(c: EnumCase) -> Seq<char> {
    c.name@ + match c.value {
        Some(v) => " = "@ + v@,
        None => Seq::empty(),
    }
}

pub open spec fn enum_text(e: Enum) -> Seq<char> {
    "union "@ + opt_or(e.name, "<anon>"@) + " {"@
        + listed(e.cases@.map_values(|c: EnumCase| enum_case_text(c)), "; "@, " "@, " "@) + "}"@
}

pub open spec fn ctype_text(t: CType) -> Seq<char>
    decreases t,
{
    listed(t.qualifiers@.map_values(|q: TypeQualifier| type_qualifier_text(q)), " "@, Seq::empty(), " "@)
        + type_decl_text(*t.decl)
}

pub open spec fn type_decl_text(d: TypeDecl) -> Seq<char>
    decreases d,
{
    match d {
        TypeDecl::array(a) => array_text(a),
        TypeDecl::enumeration(e) => enum_text(e),
        TypeDecl::structure(c) => "struct "@ + container_text(c),
        TypeDecl::union(c) => "union "@ + container_text(c),
        TypeDecl::function(f) => function_text(f),
        TypeDecl::pointer(p) => pointer_text(p),
        TypeDecl::macroCall(e) => e@,
        TypeDecl::named(n, sized) =>
            listed(sized@.map_values(|m: SizeModifier| size_modifier_text(m)), " "@, Seq::empty(), " "@) + named_type_text(n),
    }
}

pub open spec fn array_text(a: Array) -> Seq<char>
    decreases a,
{
    "["@ + listed(a.qualifiers@.map_values(|q: ArrayQualifier| array_qualifier_text(q)), " "@, Seq::empty(), " "@)
        + (match a.count {
            Some(c) => c@ + " x "@,
            None => Seq::empty(),
        })
        + ctype_text(a.elementType) + "]"@
}

/// The text of an array reads from its end: `]` closes it, the element type's text comes just
/// before, and where the array has a count, the count and ` x ` come just before that; it opens
/// with `[`. So two arrays that differ only in their counts print differently.
pub proof fn law_array_text_shows_count_and_element(a: Array)
    ensures
        ({
            let t = array_text(a);
            let e = ctype_text(a.elementType);
            &&& t.len() >= e.len() + 2
            &&& t[0] == '['
            &&& t.last() == ']'
            &&& t.subrange(t.len() - 1 - e.len(), t.len() - 1) == e
            &&& (a.count matches Some(c) ==> t.len() >= e.len() + c@.len() + 5
                && t.subrange(t.len() - 1 - e.len() - 3 - c@.len(), t.len() - 1 - e.len()) == c@ + " x "@)
        }),
{
    reveal_strlit("[");
    reveal_strlit("]");
    reveal_strlit(" x ");
    let q = listed(a.qualifiers@.map_values(|q: ArrayQualifier| array_qualifier_text(q)), " "@, Seq::empty(), " "@);
    let e = ctype_text(a.elementType);
    let t = array_text(a);
    match a.count {
        Some(c) => {
            let mid = c@ + " x "@;
            assert(t =~= "["@ + q + mid + e + "]"@);
            assert(t.subrange(t.len() - 1 - e.len(), t.len() - 1) =~= e);
            assert(t.subrange(t.len() - 1 - e.len() - 3 - c@.len(), t.len() - 1 - e.len()) =~= mid);
        },
        None => {
            assert(t =~= "["@ + q + Seq::empty() + e + "]"@);
            assert(t.subrange(t.len() - 1 - e.len(), t.len() - 1) =~= e);
        },
    }
}

pub open spec fn pointer_text(p: Pointer) -> Seq<char>
    decreases p,
{
    listed(p.msSpecificModifiers@.map_values(|m: MSPointerModifier| ms_pointer_modifier_text(m)), " "@, Seq::empty(), " "@)
        + listed(p.qualifiers@.map_values(|q: PointerQualifier| pointer_qualifier_text(q)), " "@, Seq::empty(), " "@)
        + "Pointer<"@ + ctype_text(p.pointeeType) + ">"@
}

/// The text of a pointer ends with `Pointer<`, the pointee's text and `>`, after its modifiers and
/// qualifiers.
pub proof fn law_pointer_text_shows_pointee(p: Pointer)
    ensures
        ({
            let t = pointer_text(p);
            let e = ctype_text(p.pointeeType);
            &&& t.len() >= e.len() + 9
            &&& t.subrange(t.len() - e.len() - 9, t.len() as int) == "Pointer<"@ + e + ">"@
        }),
{
    reveal_strlit("Pointer<");
    reveal_strlit(">");
    let m = listed(p.msSpecificModifiers@.map_values(|m: MSPointerModifier| ms_pointer_modifier_text(m)), " "@, Seq::empty(), " "@);
    let q = listed(p.qualifiers@.map_values(|q: PointerQualifier| pointer_qualifier_text(q)), " "@, Seq::empty(), " "@);
    let e = ctype_text(p.pointeeType);
    let t = pointer_text(p);
    assert(t =~= m + q + ("Pointer<"@ + e + ">"@));
    assert(t.subrange(t.len() - e.len() - 9, t.len() as int) =~= "Pointer<"@ + e + ">"@);
}

pub open spec fn container_text(c: Container) -> Seq<char>
    decreases c,
{
    opt_or(c.name, "<anon>"@) + " {"@ + listed(variable_texts(c.members@), "; "@, " "@, " "@) + "}"@
}

pub open spec fn variable_texts(v: Seq<Variable>) -> Seq<Seq<char>>
    decreases v,
{
    if v.len() == 0 {
        Seq::empty()
    } else {
        variable_texts(v.drop_last()).push(variable_text(v.last()))
    }
}

pub open spec fn variable_text(v: Variable) -> Seq<char>
    decreases v,
{
    listed(v.modifiers@.map_values(|m: Modifier| modifier_text(m)), " "@, Seq::empty(), " "@)
        + listed(v.qualifiers@.map_values(|q: DeclarationQualifier| declaration_qualifier_text(q)), " "@, Seq::empty(), " "@)
        + "var "@ + opt_or(v.identifier, "_"@) + ": "@ + ctype_text(v.cType)
        + match v.attachedExpression {
            Some(AttachedExpression::value(e)) => " = "@ + e@,
            Some(AttachedExpression::bitWidth(e)) => " : ("@ + e@ + " bits)"@,
            None => Seq::empty(),
        }
}

pub open spec fn function_text(f: Function) -> Seq<char>
    decreases f,
{
    listed(f.modifiers@.map_values(|m: Modifier| modifier_text(m)), " "@, Seq::empty(), " "@)
        + listed(f.declQualifiers@.map_values(|q: DeclarationQualifier| declaration_qualifier_text(q)), " "@, Seq::empty(), " "@)
        + listed(f.functionQualifiers@.map_values(|q: FunctionQualifier| function_qualifier_text(q)), " "@, Seq::empty(), " "@)
        + opt_or(f.name, Seq::empty()) + "("@ + listed(parameter_texts(f.parameters@), ", "@, Seq::empty(), Seq::empty())
        + ") -> "@ + ctype_text(f.returnType)
}

pub open spec fn parameter_texts(v: Seq<Parameter<Variable>>) -> Seq<Seq<char>>
    decreases v,
{
    if v.len() == 0 {
        Seq::empty()
    } else {
        parameter_texts(v.drop_last()).push(parameter_text(v.last()))
    }
}

pub open spec fn parameter_text(p: Parameter<Variable>) -> Seq<char>
    decreases p,
{
    match p {
        Parameter::regular(v) => variable_text(v),
        Parameter::variadic(id) => opt_or(id, Seq::empty()) + "..."@,
    }
}

pub open spec fn type_definition_text(t: TypeDefinition) -> Seq<char> {
    t.name@ + " := "@
        + listed(t.qualifiers@.map_values(|q: DeclarationQualifier| declaration_qualifier_text(q)), " "@, Seq::empty(), " "@)
        + ctype_text(t.originalType)
        + listed(t.attributes@.map_values(|a: Attribute| attribute_text(a)), " "@, " "@, Seq::empty())
}

pub open spec fn macro_parameter_text(p: Parameter<String>) -> Seq<char> {
    match p {
        Parameter::regular(id) => id@,
        Parameter::variadic(id) => opt_or(id, Seq::empty()) + "..."@,
    }
}

pub open spec fn macro_definition_text(m: MacroDefinition) -> Seq<char> {
    "#define "@ + m.name@ + if m.parameters@.len() == 0 {
        Seq::empty()
    } else {
        "("@ + listed(m.parameters@.map_values(|p: Parameter<String>| macro_parameter_text(p)), ", "@, Seq::empty(), Seq::empty())
            + ")"@ + match m.value {
                Some(v) => " "@ + v@,
                None => Seq::empty(),
            }
    }
}

pub open spec fn preprocessor_call_text(c: PreprocessorCall) -> Seq<char> {
    c.directive@ + listed(texts(c.arguments@), ", "@, "("@, ")"@)
}

pub open spec fn symbol_text(s: Symbol) -> Seq<char> {
    match s {
        Symbol::function(f) => function_text(f),
        Symbol::variable(v) => variable_text(v),
        Symbol::typeDefinition(t) => type_definition_text(t),
        Symbol::structure(c) => "struct "@ + container_text(c),
        Symbol::union(c) => "union "@ + container_text(c),
        Symbol::enumeration(e) => enum_text(e),
        Symbol::macroDefintion(m) => macro_definition_text(m),
    }
}


/// Items joined by a separator.
pub fn join_strings(items: &Vec<String>, separator: &str) -> (r: String)
    ensures
        r@ == joined(texts(items@), separator@),
{
    let r = fmt_separated_list(items, separator, "", "");
    proof {
        reveal_strlit("");
        if items@.len() > 0 {
            assert(r@ =~= joined(texts(items@), separator@));
        }
    }
    r
}

/// A symbol part that has a text of its own.
pub trait Spelled {
    spec fn spelled(&self) -> Seq<char>;

    fn spell(&self) -> (r: String)
        ensures
            r@ == self.spelled(),
    ;
}

/// The texts of the items, in order.
pub fn spell_all<T: Spelled>(items: &Vec<T>) -> (r: Vec<String>)
    ensures
        texts(r@) == items@.map_values(|x: T| x.spelled()),
{
    let mut r: Vec<String> = Vec::new();
    let mut k: usize = 0;
    while k < items.len()
        invariant
            k <= items@.len(),
            texts(r@) == items@.take(k as int).map_values(|x: T| x.spelled()),
        decreases items.len() - k,
    {
        let s = items[k].spell();
        let ghost before = r@;
        r.push(s);
        proof {
            assert(items@.take(k + 1).map_values(|x: T| x.spelled())
                =~= items@.take(k as int).map_values(|x: T| x.spelled()).push(items@[k as int].spelled()));
            assert(texts(r@) =~= texts(before).push(s@));
        }
        k = k + 1;
    }
    proof {
        assert(items@.take(items@.len() as int) =~= items@);
    }
    r
}

impl Spelled for TypeQualifier {
    open spec fn spelled(&self) -> Seq<char> {
        type_qualifier_text(*self)
    }

    fn spell(&self) -> (r: String) {
        String::from_str(self.as_str())
    }
}

impl Spelled for ArrayQualifier {
    open spec fn spelled(&self) -> Seq<char> {
        array_qualifier_text(*self)
    }

    fn spell(&self) -> (r: String) {
        String::from_str(self.as_str())
    }
}

impl Spelled for SizeModifier {
    open spec fn spelled(&self) -> Seq<char> {
        size_modifier_text(*self)
    }

    fn spell(&self) -> (r: String) {
        String::from_str(self.as_str())
    }
}

impl Spelled for PointerQualifier {
    open spec fn spelled(&self) -> Seq<char> {
        pointer_qualifier_text(*self)
    }

    fn spell(&self) -> (r: String) {
        String::from_str(self.as_str())
    }
}

impl Spelled for FunctionQualifier {
    open spec fn spelled(&self) -> Seq<char> {
        function_qualifier_text(*self)
    }

    fn spell(&self) -> (r: String) {
        String::from_str(self.as_str())
    }
}

impl Spelled for Attribute {
    open spec fn spelled(&self) -> Seq<char> {
        attribute_text(*self)
    }

    fn spell(&self) -> (r: String) {
        self.to_string()
    }
}

impl Spelled for Modifier {
    open spec fn spelled(&self) -> Seq<char> {
        modifier_text(*self)
    }

    fn spell(&self) -> (r: String) {
        self.to_string()
    }
}

impl Spelled for DeclarationQualifier {
    open spec fn spelled(&self) -> Seq<char> {
        declaration_qualifier_text(*self)
    }

    fn spell(&self) -> (r: String) {
        self.to_string()
    }
}

impl Spelled for MSPointerModifier {
    open spec fn spelled(&self) -> Seq<char> {
        ms_pointer_modifier_text(*self)
    }

    fn spell(&self) -> (r: String) {
        self.to_string()
    }
}

impl Spelled for EnumCase {
    open spec fn spelled(&self) -> Seq<char> {
        enum_case_text(*self)
    }

    fn spell(&self) -> (r: String) {
        self.to_string()
    }
}

impl Spelled for Parameter<String> {
    open spec fn spelled(&self) -> Seq<char> {
        macro_parameter_text(*self)
    }

    fn spell(&self) -> (r: String) {
        macro_parameter_string(self)
    }
}

fn macro_parameter_string(p: &Parameter<String>) -> (r: String)
    ensures
        r@ == macro_parameter_text(*p),
{
    match p {
        Parameter::regular(id) => String::from_str(id.as_str()),
        Parameter::variadic(id) => {
            proof {
                reveal_strlit("");
            }
            append(String::from_str(text_or(id, "")), "...")
        },
    }
}

impl Attribute {
    /// `__attribute__((..))` with the arguments.
    pub fn to_string(&self) -> (r: String)
        ensures
            r@ == attribute_text(*self),
    {
        let r = append(String::from_str("__attribute__(("), join_strings(&self.arguments, ", ").as_str());
        append(r, "))")
    }
}

impl StandardAttribute {
    /// `[[prefix::name]]`.
    pub fn to_string(&self) -> (r: String)
        ensures
            r@ == standard_attribute_text(*self),
    {
        let mut r = String::from_str("[[");
        match &self.prefix {
            Some(p) => {
                r.append(p.as_str());
                r.append("::");
            },
            None => {},
        }
        r.append(self.name.as_str());
        r.append("]]");
        r
    }
}

impl MSDeclModifier {
    /// `__declspec(..)`.
    pub fn to_string(&self) -> (r: String)
        ensures
            r@ == ms_decl_modifier_text(*self),
    {
        match self {
            MSDeclModifier::declspec(id) => append(append(String::from_str("__declspec("), id.as_str()), ")"),
        }
    }
}

impl Modifier {
    /// The text of the modifier.
    pub fn to_string(&self) -> (r: String)
        ensures
            r@ == modifier_text(*self),
    {
        match self {
            Modifier::attribute(a) => a.to_string(),
            Modifier::standardAttribute(a) => a.to_string(),
            Modifier::storage(s) => String::from_str(s.as_str()),
            Modifier::msSpecificModifier(d) => d.to_string(),
        }
    }
}

impl DeclarationQualifier {
    /// The text of the qualifier.
    pub fn to_string(&self) -> (r: String)
        ensures
            r@ == declaration_qualifier_text(*self),
    {
        match self {
            DeclarationQualifier::constexpr => String::from_str("constexpr"),
            DeclarationQualifier::extension => String::from_str("__extension__"),
            DeclarationQualifier::alignas(e) => append(append(String::from_str("alignas("), e.as_str()), ")"),
        }
    }
}

impl MSPointerModifier {
    /// The text of the modifier.
    pub fn to_string(&self) -> (r: String)
        ensures
            r@ == ms_pointer_modifier_text(*self),
    {
        match self {
            MSPointerModifier::unaligned => String::from_str("__unaligned"),
            MSPointerModifier::restrict => String::from_str("__restrict"),
            MSPointerModifier::unsigned => String::from_str("__uptr"),
            MSPointerModifier::signed => String::from_str("__sptr"),
            MSPointerModifier::based(args) => {
                let r = append(String::from_str("__based("), join_strings(args, ", ").as_str());
                append(r, ")")
            },
        }
    }
}

impl NamedType {
    /// The name, or the primitive's keyword.
    pub fn to_string(&self) -> (r: String)
        ensures
            r@ == named_type_text(*self),
    {
        match self {
            NamedType::custom(id) => id.clone(),
            NamedType::primitive(p) => String::from_str(p.as_str()),
        }
    }
}

impl EnumCase {
    /// `name` or `name = value`.
    pub fn to_string(&self) -> (r: String)
        ensures
            r@ == enum_case_text(*self),
    {
        let mut r = self.name.clone();
        match &self.value {
            Some(v) => {
                r.append(" = ");
                r.append(v.as_str());
            },
            None => {},
        }
        r
    }
}

impl Enum {
    /// The name and the cases.
    pub fn to_string(&self) -> (r: String)
        ensures
            r@ == enum_text(*self),
    {
        let cases = spell_all(&self.cases);
        proof {
            assert(self.cases@.map_values(|x: EnumCase| x.spelled())
                =~= self.cases@.map_values(|c: EnumCase| enum_case_text(c)));
        }
        let mut r = String::from_str("union ");
        r.append(text_or(&self.name, "<anon>"));
        r.append(" {");
        r.append(fmt_separated_list(&cases, "; ", " ", " ").as_str());
        r.append("}");
        r
    }
}

impl PreprocessorCall {
    /// The directive and its arguments.
    pub fn to_string(&self) -> (r: String)
        ensures
            r@ == preprocessor_call_text(*self),
    {
        append(self.directive.clone(), fmt_separated_list(&self.arguments, ", ", "(", ")").as_str())
    }
}

impl TranslationUnit {
    /// A translation unit shows no contents.
    pub fn to_string(&self) -> (r: String)
        ensures
            r@ == "<translation unit>"@,
    {
        String::from_str("<translation unit>")
    }
}

impl MacroDefinition {
    /// `#define name(parameters) value`.
    pub fn to_string(&self) -> (r: String)
        ensures
            r@ == macro_definition_text(*self),
    {
        let mut r = String::from_str("#define ");
        r.append(self.name.as_str());
        if self.parameters.len() > 0 {
            let ps = spell_all(&self.parameters);
            proof {
                assert(self.parameters@.map_values(|x: Parameter<String>| x.spelled())
                    =~= self.parameters@.map_values(|p: Parameter<String>| macro_parameter_text(p)));
            }
            r.append("(");
            r.append(fmt_separated_list(&ps, ", ", "", "").as_str());
            r.append(")");
            match &self.value {
                Some(v) => {
                    r.append(" ");
                    r.append(v.as_str());
                },
                None => {},
            }
            proof {
                reveal_strlit("");
            }
            assert(r@ =~= macro_definition_text(*self));
        } else {
            assert(r@ =~= macro_definition_text(*self));
        }
        r
    }
}


/// The texts of the items, joined by a separator between a prefix and a suffix.
pub fn listed_string<T: Spelled>(items: &Vec<T>, separator: &str, prefix: &str, suffix: &str) -> (r: String)
    ensures
        r@ == listed(items@.map_values(|x: T| x.spelled()), separator@, prefix@, suffix@),
{
    let t = spell_all(items);
    fmt_separated_list(&t, separator, prefix, suffix)
}

impl CType {
    /// The qualifiers, then the declared type.
    pub fn to_string(&self) -> (r: String)
        ensures
            r@ == ctype_text(*self),
        decreases self,
    {
        let q = listed_string(&self.qualifiers, " ", "", " ");
        proof {
            reveal_strlit("");
            assert(self.qualifiers@.map_values(|x: TypeQualifier| x.spelled())
                =~= self.qualifiers@.map_values(|q: TypeQualifier| type_qualifier_text(q)));
        }
        let d = self.decl.to_string();
        append(q, d.as_str())
    }
}

impl TypeDecl {
    /// The text of the declared type.
    pub fn to_string(&self) -> (r: String)
        ensures
            r@ == type_decl_text(*self),
        decreases self,
    {
        match self {
            TypeDecl::array(a) => a.to_string(),
            TypeDecl::enumeration(e) => e.to_string(),
            TypeDecl::structure(c) => append(String::from_str("struct "), c.to_string().as_str()),
            TypeDecl::union(c) => append(String::from_str("union "), c.to_string().as_str()),
            TypeDecl::function(f) => f.to_string(),
            TypeDecl::pointer(p) => p.to_string(),
            TypeDecl::macroCall(e) => String::from_str(e.as_str()),
            TypeDecl::named(n, sized) => {
                let q = listed_string(sized, " ", "", " ");
                proof {
                    reveal_strlit("");
                    assert(sized@.map_values(|x: SizeModifier| x.spelled())
                        =~= sized@.map_values(|m: SizeModifier| size_modifier_text(m)));
                }
                append(q, n.to_string().as_str())
            },
        }
    }
}

impl Array {
    /// `[qualifiers count x element]`.
    pub fn to_string(&self) -> (r: String)
        ensures
            r@ == array_text(*self),
        decreases self,
    {
        let q = listed_string(&self.qualifiers, " ", "", " ");
        proof {
            reveal_strlit("");
            assert(self.qualifiers@.map_values(|x: ArrayQualifier| x.spelled())
                =~= self.qualifiers@.map_values(|q: ArrayQualifier| array_qualifier_text(q)));
        }
        let mut r = String::from_str("[");
        r.append(q.as_str());
        match &self.count {
            Some(c) => {
                r.append(c.as_str());
                r.append(" x ");
            },
            None => {},
        }
        let e = self.elementType.to_string();
        r.append(e.as_str());
        r.append("]");
        proof {
            assert(r@ =~= array_text(*self));
        }
        r
    }
}

impl Pointer {
    /// The modifiers and qualifiers, then `Pointer<pointee>`.
    pub fn to_string(&self) -> (r: String)
        ensures
            r@ == pointer_text(*self),
        decreases self,
    {
        let m = listed_string(&self.msSpecificModifiers, " ", "", " ");
        let q = listed_string(&self.qualifiers, " ", "", " ");
        proof {
            reveal_strlit("");
            assert(self.msSpecificModifiers@.map_values(|x: MSPointerModifier| x.spelled())
                =~= self.msSpecificModifiers@.map_values(|m: MSPointerModifier| ms_pointer_modifier_text(m)));
            assert(self.qualifiers@.map_values(|x: PointerQualifier| x.spelled())
                =~= self.qualifiers@.map_values(|q: PointerQualifier| pointer_qualifier_text(q)));
        }
        let mut r = m;
        r.append(q.as_str());
        r.append("Pointer<");
        let t = self.pointeeType.to_string();
        r.append(t.as_str());
        r.append(">");
        proof {
            assert(r@ =~= pointer_text(*self));
        }
        r
    }
}

/// The texts of the variables, in order.
fn variable_strings(v: &Vec<Variable>) -> (r: Vec<String>)
    ensures
        texts(r@) == variable_texts(v@),
    decreases v,
{
    let mut r: Vec<String> = Vec::new();
    let mut k: usize = 0;
    while k < v.len()
        invariant
            k <= v@.len(),
            texts(r@) == variable_texts(v@.take(k as int)),
        decreases v.len() - k,
    {
        let s = v[k].to_string();
        let ghost before = r@;
        r.push(s);
        proof {
            assert(v@.take(k + 1).drop_last() =~= v@.take(k as int));
            assert(texts(r@) =~= texts(before).push(s@));
        }
        k = k + 1;
    }
    proof {
        assert(v@.take(v@.len() as int) =~= v@);
    }
    r
}

impl Container {
    /// The name and the members.
    pub fn to_string(&self) -> (r: String)
        ensures
            r@ == container_text(*self),
        decreases self,
    {
        let members = variable_strings(&self.members);
        let mut r = String::from_str(text_or(&self.name, "<anon>"));
        r.append(" {");
        r.append(fmt_separated_list(&members, "; ", " ", " ").as_str());
        r.append("}");
        r
    }
}

impl Variable {
    /// The modifiers and qualifiers, then `var name: type` and what is attached.
    pub fn to_string(&self) -> (r: String)
        ensures
            r@ == variable_text(*self),
        decreases self,
    {
        let m = listed_string(&self.modifiers, " ", "", " ");
        let q = listed_string(&self.qualifiers, " ", "", " ");
        proof {
            reveal_strlit("");
            assert(self.modifiers@.map_values(|x: Modifier| x.spelled())
                =~= self.modifiers@.map_values(|m: Modifier| modifier_text(m)));
            assert(self.qualifiers@.map_values(|x: DeclarationQualifier| x.spelled())
                =~= self.qualifiers@.map_values(|q: DeclarationQualifier| declaration_qualifier_text(q)));
        }
        let mut r = m;
        r.append(q.as_str());
        r.append("var ");
        r.append(text_or(&self.identifier, "_"));
        r.append(": ");
        let t = self.cType.to_string();
        r.append(t.as_str());
        match &self.attachedExpression {
            Some(AttachedExpression::value(e)) => {
                r.append(" = ");
                r.append(e.as_str());
            },
            Some(AttachedExpression::bitWidth(e)) => {
                r.append(" : (");
                r.append(e.as_str());
                r.append(" bits)");
            },
            None => {},
        }
        proof {
            assert(r@ =~= variable_text(*self));
        }
        r
    }
}

/// The text of a parameter.
pub fn parameter_string(p: &Parameter<Variable>) -> (r: String)
    ensures
        r@ == parameter_text(*p),
    decreases p,
{
    match p {
        Parameter::regular(v) => v.to_string(),
        Parameter::variadic(id) => {
            proof {
                reveal_strlit("");
            }
            append(String::from_str(text_or(id, "")), "...")
        },
    }
}

/// The texts of the parameters, in order.
fn parameter_strings(v: &Vec<Parameter<Variable>>) -> (r: Vec<String>)
    ensures
        texts(r@) == parameter_texts(v@),
    decreases v,
{
    let mut r: Vec<String> = Vec::new();
    let mut k: usize = 0;
    while k < v.len()
        invariant
            k <= v@.len(),
            texts(r@) == parameter_texts(v@.take(k as int)),
        decreases v.len() - k,
    {
        let s = parameter_string(&v[k]);
        let ghost before = r@;
        r.push(s);
        proof {
            assert(v@.take(k + 1).drop_last() =~= v@.take(k as int));
            assert(texts(r@) =~= texts(before).push(s@));
        }
        k = k + 1;
    }
    proof {
        assert(v@.take(v@.len() as int) =~= v@);
    }
    r
}

impl Function {
    /// The modifiers and qualifiers, then `name(parameters) -> return type`.
    pub fn to_string(&self) -> (r: String)
        ensures
            r@ == function_text(*self),
        decreases self,
    {
        let m = listed_string(&self.modifiers, " ", "", " ");
        let d = listed_string(&self.declQualifiers, " ", "", " ");
        let q = listed_string(&self.functionQualifiers, " ", "", " ");
        proof {
            reveal_strlit("");
            assert(self.modifiers@.map_values(|x: Modifier| x.spelled())
                =~= self.modifiers@.map_values(|m: Modifier| modifier_text(m)));
            assert(self.declQualifiers@.map_values(|x: DeclarationQualifier| x.spelled())
                =~= self.declQualifiers@.map_values(|q: DeclarationQualifier| declaration_qualifier_text(q)));
            assert(self.functionQualifiers@.map_values(|x: FunctionQualifier| x.spelled())
                =~= self.functionQualifiers@.map_values(|q: FunctionQualifier| function_qualifier_text(q)));
        }
        let ps = parameter_strings(&self.parameters);
        let mut r = m;
        r.append(d.as_str());
        r.append(q.as_str());
        r.append(text_or(&self.name, ""));
        r.append("(");
        r.append(fmt_separated_list(&ps, ", ", "", "").as_str());
        r.append(") -> ");
        let t = self.returnType.to_string();
        r.append(t.as_str());
        proof {
            assert(r@ =~= function_text(*self));
        }
        r
    }
}

impl TypeDefinition {
    /// `name := qualifiers type attributes`.
    pub fn to_string(&self) -> (r: String)
        ensures
            r@ == type_definition_text(*self),
    {
        let q = listed_string(&self.qualifiers, " ", "", " ");
        let a = listed_string(&self.attributes, " ", " ", "");
        proof {
            reveal_strlit("");
            assert(self.qualifiers@.map_values(|x: DeclarationQualifier| x.spelled())
                =~= self.qualifiers@.map_values(|q: DeclarationQualifier| declaration_qualifier_text(q)));
            assert(self.attributes@.map_values(|x: Attribute| x.spelled())
                =~= self.attributes@.map_values(|a: Attribute| attribute_text(a)));
        }
        let mut r = String::from_str(self.name.as_str());
        r.append(" := ");
        r.append(q.as_str());
        let t = self.originalType.to_string();
        r.append(t.as_str());
        r.append(a.as_str());
        proof {
            assert(r@ =~= type_definition_text(*self));
        }
        r
    }
}

impl Symbol {
    /// The text of the symbol.
    pub fn to_string(&self) -> (r: String)
        ensures
            r@ == symbol_text(*self),
    {
        match self {
            Symbol::function(f) => f.to_string(),
            Symbol::variable(v) => v.to_string(),
            Symbol::typeDefinition(t) => t.to_string(),
            Symbol::structure(c) => append(String::from_str("struct "), c.to_string().as_str()),
            Symbol::union(c) => append(String::from_str("union "), c.to_string().as_str()),
            Symbol::enumeration(e) => e.to_string(),
            Symbol::macroDefintion(m) => m.to_string(),
        }
    }
}


/// The spelling of a Microsoft pointer modifier other than `__based` (whose spelling carries
/// its arguments) reads back, as a keyword, as the same modifier.
pub proof fn law_ms_pointer_modifier_reads_back(m: MSPointerModifier)
    requires
        !(m is based),
    ensures
        spec_ms_pointer_keyword(ms_pointer_modifier_text(m)) matches Some(code) && ms_pointer_modifier_is(m, code),
{
    reveal_strlit("_unaligned");
    reveal_strlit("__unaligned");
    reveal_strlit("__restrict");
    reveal_strlit("__uptr");
    reveal_strlit("__sptr");
    reveal_strlit("__based");
    assert("__restrict"@[2] != "_unaligned"@[2] && "__restrict"@[2] != "__unaligned"@[2]);
    assert("__uptr"@.len() != "_unaligned"@.len() && "__uptr"@.len() != "__unaligned"@.len() && "__uptr"@.len() != "__restrict"@.len());
    assert("__sptr"@.len() != "_unaligned"@.len() && "__sptr"@.len() != "__unaligned"@.len() && "__sptr"@.len() != "__restrict"@.len());
    assert("__sptr"@[2] != "__uptr"@[2]);
}


/// Printing a pointer qualifier and reading the keyword back gives the same pointer qualifier.
pub proof fn law_pointer_qualifier_reads_back(x: PointerQualifier)
    ensures
        spec_pointer_qualifier_of(pointer_qualifier_text(x)) == Some(x),
{
    reveal_strlit("_Nonnull");
    reveal_strlit("_Nullable");
    reveal_strlit("restrict");
    match x {
        PointerQualifier::nonnull => {  },
        PointerQualifier::nullable => { assert("_Nullable"@ != "_Nonnull"@) by { assert("_Nullable"@.len() != "_Nonnull"@.len()); } },
        PointerQualifier::restrict => { assert("restrict"@ != "_Nonnull"@) by { assert("restrict"@[0] != "_Nonnull"@[0]); } assert("restrict"@ != "_Nullable"@) by { assert("restrict"@.len() != "_Nullable"@.len()); } },
    }
}

/// Printing a function qualifier and reading the keyword back gives the same function qualifier.
pub proof fn law_function_qualifier_reads_back(x: FunctionQualifier)
    ensures
        spec_function_qualifier_of(function_qualifier_text(x)) == Some(x),
{
    reveal_strlit("_Noreturn");
    match x {
        FunctionQualifier::noreturn => {  },
    }
}

/// Printing a array qualifier and reading the keyword back gives the same array qualifier.
pub proof fn law_array_qualifier_reads_back(x: ArrayQualifier)
    ensures
        spec_array_qualifier_of(array_qualifier_text(x)) == Some(x),
{
    reveal_strlit("static");
    reveal_strlit("restrict");
    match x {
        ArrayQualifier::static_ => {  },
        ArrayQualifier::restrict => { assert("restrict"@ != "static"@) by { assert("restrict"@.len() != "static"@.len()); } },
    }
}

/// Printing a type qualifier and reading the keyword back gives the same type qualifier.
pub proof fn law_type_qualifier_reads_back(x: TypeQualifier)
    ensures
        spec_type_qualifier_of(type_qualifier_text(x)) == Some(x),
{
    reveal_strlit("const");
    reveal_strlit("volatile");
    reveal_strlit("_Atomic");
    match x {
        TypeQualifier::const_ => {  },
        TypeQualifier::volatile => { assert("volatile"@ != "const"@) by { assert("volatile"@.len() != "const"@.len()); } },
        TypeQualifier::atomic => { assert("_Atomic"@ != "const"@) by { assert("_Atomic"@.len() != "const"@.len()); } assert("_Atomic"@ != "volatile"@) by { assert("_Atomic"@.len() != "volatile"@.len()); } },
    }
}

/// Printing a size modifier and reading the keyword back gives the same size modifier.
pub proof fn law_size_modifier_reads_back(x: SizeModifier)
    ensures
        spec_size_modifier_of(size_modifier_text(x)) == Some(x),
{
    reveal_strlit("signed");
    reveal_strlit("unsigned");
    reveal_strlit("long");
    reveal_strlit("short");
    match x {
        SizeModifier::signed => {  },
        SizeModifier::unsigned => { assert("unsigned"@ != "signed"@) by { assert("unsigned"@.len() != "signed"@.len()); } },
        SizeModifier::long => { assert("long"@ != "signed"@) by { assert("long"@.len() != "signed"@.len()); } assert("long"@ != "unsigned"@) by { assert("long"@.len() != "unsigned"@.len()); } },
        SizeModifier::short => { assert("short"@ != "signed"@) by { assert("short"@.len() != "signed"@.len()); } assert("short"@ != "unsigned"@) by { assert("short"@.len() != "unsigned"@.len()); } assert("short"@ != "long"@) by { assert("short"@.len() != "long"@.len()); } },
    }
}

/// Printing a primitive type and reading the keyword back gives the same primitive type.
pub proof fn law_primitive_type_reads_back(x: PrimitiveType)
    ensures
        spec_primitive_type_of(primitive_type_text(x)) == Some(x),
{
    reveal_strlit("bool");
    reveal_strlit("char");
    reveal_strlit("int");
    reveal_strlit("float");
    reveal_strlit("double");
    reveal_strlit("void");
    reveal_strlit("size_t");
    reveal_strlit("ssize_t");
    reveal_strlit("ptrdiff_t");
    reveal_strlit("intptr_t");
    reveal_strlit("uintptr_t");
    reveal_strlit("charptr_t");
    reveal_strlit("nullptr_t");
    reveal_strlit("max_align_t");
    reveal_strlit("int8_t");
    reveal_strlit("int16_t");
    reveal_strlit("int32_t");
    reveal_strlit("int64_t");
    reveal_strlit("uint8_t");
    reveal_strlit("uint16_t");
    reveal_strlit("uint32_t");
    reveal_strlit("uint64_t");
    reveal_strlit("char8_t");
    reveal_strlit("char16_t");
    reveal_strlit("char32_t");
    reveal_strlit("char64_t");
    match x {
        PrimitiveType::bool => {  },
        PrimitiveType::char => { assert("char"@ != "bool"@) by { assert("char"@[0] != "bool"@[0]); } },
        PrimitiveType::int_ => { assert("int"@ != "bool"@) by { assert("int"@.len() != "bool"@.len()); } assert("int"@ != "char"@) by { assert("int"@.len() != "char"@.len()); } },
        PrimitiveType::float => { assert("float"@ != "bool"@) by { assert("float"@.len() != "bool"@.len()); } assert("float"@ != "char"@) by { assert("float"@.len() != "char"@.len()); } assert("float"@ != "int"@) by { assert("float"@.len() != "int"@.len()); } },
        PrimitiveType::double => { assert("double"@ != "bool"@) by { assert("double"@.len() != "bool"@.len()); } assert("double"@ != "char"@) by { assert("double"@.len() != "char"@.len()); } assert("double"@ != "int"@) by { assert("double"@.len() != "int"@.len()); } assert("double"@ != "float"@) by { assert("double"@.len() != "float"@.len()); } },
        PrimitiveType::void => { assert("void"@ != "bool"@) by { assert("void"@[0] != "bool"@[0]); } assert("void"@ != "char"@) by { assert("void"@[0] != "char"@[0]); } assert("void"@ != "int"@) by { assert("void"@.len() != "int"@.len()); } assert("void"@ != "float"@) by { assert("void"@.len() != "float"@.len()); } assert("void"@ != "double"@) by { assert("void"@.len() != "double"@.len()); } },
        PrimitiveType::size => { assert("size_t"@ != "bool"@) by { assert("size_t"@.len() != "bool"@.len()); } assert("size_t"@ != "char"@) by { assert("size_t"@.len() != "char"@.len()); } assert("size_t"@ != "int"@) by { assert("size_t"@.len() != "int"@.len()); } assert("size_t"@ != "float"@) by { assert("size_t"@.len() != "float"@.len()); } assert("size_t"@ != "double"@) by { assert("size_t"@[0] != "double"@[0]); } assert("size_t"@ != "void"@) by { assert("size_t"@.len() != "void"@.len()); } },
        PrimitiveType::ssize => { assert("ssize_t"@ != "bool"@) by { assert("ssize_t"@.len() != "bool"@.len()); } assert("ssize_t"@ != "char"@) by { assert("ssize_t"@.len() != "char"@.len()); } assert("ssize_t"@ != "int"@) by { assert("ssize_t"@.len() != "int"@.len()); } assert("ssize_t"@ != "float"@) by { assert("ssize_t"@.len() != "float"@.len()); } assert("ssize_t"@ != "double"@) by { assert("ssize_t"@.len() != "double"@.len()); } assert("ssize_t"@ != "void"@) by { assert("ssize_t"@.len() != "void"@.len()); } assert("ssize_t"@ != "size_t"@) by { assert("ssize_t"@.len() != "size_t"@.len()); } },
        PrimitiveType::ptrdiff => { assert("ptrdiff_t"@ != "bool"@) by { assert("ptrdiff_t"@.len() != "bool"@.len()); } assert("ptrdiff_t"@ != "char"@) by { assert("ptrdiff_t"@.len() != "char"@.len()); } assert("ptrdiff_t"@ != "int"@) by { assert("ptrdiff_t"@.len() != "int"@.len()); } assert("ptrdiff_t"@ != "float"@) by { assert("ptrdiff_t"@.len() != "float"@.len()); } assert("ptrdiff_t"@ != "double"@) by { assert("ptrdiff_t"@.len() != "double"@.len()); } assert("ptrdiff_t"@ != "void"@) by { assert("ptrdiff_t"@.len() != "void"@.len()); } assert("ptrdiff_t"@ != "size_t"@) by { assert("ptrdiff_t"@.len() != "size_t"@.len()); } assert("ptrdiff_t"@ != "ssize_t"@) by { assert("ptrdiff_t"@.len() != "ssize_t"@.len()); } },
        PrimitiveType::intptr => { assert("intptr_t"@ != "bool"@) by { assert("intptr_t"@.len() != "bool"@.len()); } assert("intptr_t"@ != "char"@) by { assert("intptr_t"@.len() != "char"@.len()); } assert("intptr_t"@ != "int"@) by { assert("intptr_t"@.len() != "int"@.len()); } assert("intptr_t"@ != "float"@) by { assert("intptr_t"@.len() != "float"@.len()); } assert("intptr_t"@ != "double"@) by { assert("intptr_t"@.len() != "double"@.len()); } assert("intptr_t"@ != "void"@) by { assert("intptr_t"@.len() != "void"@.len()); } assert("intptr_t"@ != "size_t"@) by { assert("intptr_t"@.len() != "size_t"@.len()); } assert("intptr_t"@ != "ssize_t"@) by { assert("intptr_t"@.len() != "ssize_t"@.len()); } assert("intptr_t"@ != "ptrdiff_t"@) by { assert("intptr_t"@.len() != "ptrdiff_t"@.len()); } },
        PrimitiveType::uintptr => { assert("uintptr_t"@ != "bool"@) by { assert("uintptr_t"@.len() != "bool"@.len()); } assert("uintptr_t"@ != "char"@) by { assert("uintptr_t"@.len() != "char"@.len()); } assert("uintptr_t"@ != "int"@) by { assert("uintptr_t"@.len() != "int"@.len()); } assert("uintptr_t"@ != "float"@) by { assert("uintptr_t"@.len() != "float"@.len()); } assert("uintptr_t"@ != "double"@) by { assert("uintptr_t"@.len() != "double"@.len()); } assert("uintptr_t"@ != "void"@) by { assert("uintptr_t"@.len() != "void"@.len()); } assert("uintptr_t"@ != "size_t"@) by { assert("uintptr_t"@.len() != "size_t"@.len()); } assert("uintptr_t"@ != "ssize_t"@) by { assert("uintptr_t"@.len() != "ssize_t"@.len()); } assert("uintptr_t"@ != "ptrdiff_t"@) by { assert("uintptr_t"@[0] != "ptrdiff_t"@[0]); } assert("uintptr_t"@ != "intptr_t"@) by { assert("uintptr_t"@.len() != "intptr_t"@.len()); } },
        PrimitiveType::charptr => { assert("charptr_t"@ != "bool"@) by { assert("charptr_t"@.len() != "bool"@.len()); } assert("charptr_t"@ != "char"@) by { assert("charptr_t"@.len() != "char"@.len()); } assert("charptr_t"@ != "int"@) by { assert("charptr_t"@.len() != "int"@.len()); } assert("charptr_t"@ != "float"@) by { assert("charptr_t"@.len() != "float"@.len()); } assert("charptr_t"@ != "double"@) by { assert("charptr_t"@.len() != "double"@.len()); } assert("charptr_t"@ != "void"@) by { assert("charptr_t"@.len() != "void"@.len()); } assert("charptr_t"@ != "size_t"@) by { assert("charptr_t"@.len() != "size_t"@.len()); } assert("charptr_t"@ != "ssize_t"@) by { assert("charptr_t"@.len() != "ssize_t"@.len()); } assert("charptr_t"@ != "ptrdiff_t"@) by { assert("charptr_t"@[0] != "ptrdiff_t"@[0]); } assert("charptr_t"@ != "intptr_t"@) by { assert("charptr_t"@.len() != "intptr_t"@.len()); } assert("charptr_t"@ != "uintptr_t"@) by { assert("charptr_t"@[0] != "uintptr_t"@[0]); } },
        PrimitiveType::nullptr => { assert("nullptr_t"@ != "bool"@) by { assert("nullptr_t"@.len() != "bool"@.len()); } assert("nullptr_t"@ != "char"@) by { assert("nullptr_t"@.len() != "char"@.len()); } assert("nullptr_t"@ != "int"@) by { assert("nullptr_t"@.len() != "int"@.len()); } assert("nullptr_t"@ != "float"@) by { assert("nullptr_t"@.len() != "float"@.len()); } assert("nullptr_t"@ != "double"@) by { assert("nullptr_t"@.len() != "double"@.len()); } assert("nullptr_t"@ != "void"@) by { assert("nullptr_t"@.len() != "void"@.len()); } assert("nullptr_t"@ != "size_t"@) by { assert("nullptr_t"@.len() != "size_t"@.len()); } assert("nullptr_t"@ != "ssize_t"@) by { assert("nullptr_t"@.len() != "ssize_t"@.len()); } assert("nullptr_t"@ != "ptrdiff_t"@) by { assert("nullptr_t"@[0] != "ptrdiff_t"@[0]); } assert("nullptr_t"@ != "intptr_t"@) by { assert("nullptr_t"@.len() != "intptr_t"@.len()); } assert("nullptr_t"@ != "uintptr_t"@) by { assert("nullptr_t"@[0] != "uintptr_t"@[0]); } assert("nullptr_t"@ != "charptr_t"@) by { assert("nullptr_t"@[0] != "charptr_t"@[0]); } },
        PrimitiveType::maxAlign => { assert("max_align_t"@ != "bool"@) by { assert("max_align_t"@.len() != "bool"@.len()); } assert("max_align_t"@ != "char"@) by { assert("max_align_t"@.len() != "char"@.len()); } assert("max_align_t"@ != "int"@) by { assert("max_align_t"@.len() != "int"@.len()); } assert("max_align_t"@ != "float"@) by { assert("max_align_t"@.len() != "float"@.len()); } assert("max_align_t"@ != "double"@) by { assert("max_align_t"@.len() != "double"@.len()); } assert("max_align_t"@ != "void"@) by { assert("max_align_t"@.len() != "void"@.len()); } assert("max_align_t"@ != "size_t"@) by { assert("max_align_t"@.len() != "size_t"@.len()); } assert("max_align_t"@ != "ssize_t"@) by { assert("max_align_t"@.len() != "ssize_t"@.len()); } assert("max_align_t"@ != "ptrdiff_t"@) by { assert("max_align_t"@.len() != "ptrdiff_t"@.len()); } assert("max_align_t"@ != "intptr_t"@) by { assert("max_align_t"@.len() != "intptr_t"@.len()); } assert("max_align_t"@ != "uintptr_t"@) by { assert("max_align_t"@.len() != "uintptr_t"@.len()); } assert("max_align_t"@ != "charptr_t"@) by { assert("max_align_t"@.len() != "charptr_t"@.len()); } assert("max_align_t"@ != "nullptr_t"@) by { assert("max_align_t"@.len() != "nullptr_t"@.len()); } },
        PrimitiveType::int8 => { assert("int8_t"@ != "bool"@) by { assert("int8_t"@.len() != "bool"@.len()); } assert("int8_t"@ != "char"@) by { assert("int8_t"@.len() != "char"@.len()); } assert("int8_t"@ != "int"@) by { assert("int8_t"@.len() != "int"@.len()); } assert("int8_t"@ != "float"@) by { assert("int8_t"@.len() != "float"@.len()); } assert("int8_t"@ != "double"@) by { assert("int8_t"@[0] != "double"@[0]); } assert("int8_t"@ != "void"@) by { assert("int8_t"@.len() != "void"@.len()); } assert("int8_t"@ != "size_t"@) by { assert("int8_t"@[0] != "size_t"@[0]); } assert("int8_t"@ != "ssize_t"@) by { assert("int8_t"@.len() != "ssize_t"@.len()); } assert("int8_t"@ != "ptrdiff_t"@) by { assert("int8_t"@.len() != "ptrdiff_t"@.len()); } assert("int8_t"@ != "intptr_t"@) by { assert("int8_t"@.len() != "intptr_t"@.len()); } assert("int8_t"@ != "uintptr_t"@) by { assert("int8_t"@.len() != "uintptr_t"@.len()); } assert("int8_t"@ != "charptr_t"@) by { assert("int8_t"@.len() != "charptr_t"@.len()); } assert("int8_t"@ != "nullptr_t"@) by { assert("int8_t"@.len() != "nullptr_t"@.len()); } assert("int8_t"@ != "max_align_t"@) by { assert("int8_t"@.len() != "max_align_t"@.len()); } },
        PrimitiveType::int16 => { assert("int16_t"@ != "bool"@) by { assert("int16_t"@.len() != "bool"@.len()); } assert("int16_t"@ != "char"@) by { assert("int16_t"@.len() != "char"@.len()); } assert("int16_t"@ != "int"@) by { assert("int16_t"@.len() != "int"@.len()); } assert("int16_t"@ != "float"@) by { assert("int16_t"@.len() != "float"@.len()); } assert("int16_t"@ != "double"@) by { assert("int16_t"@.len() != "double"@.len()); } assert("int16_t"@ != "void"@) by { assert("int16_t"@.len() != "void"@.len()); } assert("int16_t"@ != "size_t"@) by { assert("int16_t"@.len() != "size_t"@.len()); } assert("int16_t"@ != "ssize_t"@) by { assert("int16_t"@[0] != "ssize_t"@[0]); } assert("int16_t"@ != "ptrdiff_t"@) by { assert("int16_t"@.len() != "ptrdiff_t"@.len()); } assert("int16_t"@ != "intptr_t"@) by { assert("int16_t"@.len() != "intptr_t"@.len()); } assert("int16_t"@ != "uintptr_t"@) by { assert("int16_t"@.len() != "uintptr_t"@.len()); } assert("int16_t"@ != "charptr_t"@) by { assert("int16_t"@.len() != "charptr_t"@.len()); } assert("int16_t"@ != "nullptr_t"@) by { assert("int16_t"@.len() != "nullptr_t"@.len()); } assert("int16_t"@ != "max_align_t"@) by { assert("int16_t"@.len() != "max_align_t"@.len()); } assert("int16_t"@ != "int8_t"@) by { assert("int16_t"@.len() != "int8_t"@.len()); } },
        PrimitiveType::int32 => { assert("int32_t"@ != "bool"@) by { assert("int32_t"@.len() != "bool"@.len()); } assert("int32_t"@ != "char"@) by { assert("int32_t"@.len() != "char"@.len()); } assert("int32_t"@ != "int"@) by { assert("int32_t"@.len() != "int"@.len()); } assert("int32_t"@ != "float"@) by { assert("int32_t"@.len() != "float"@.len()); } assert("int32_t"@ != "double"@) by { assert("int32_t"@.len() != "double"@.len()); } assert("int32_t"@ != "void"@) by { assert("int32_t"@.len() != "void"@.len()); } assert("int32_t"@ != "size_t"@) by { assert("int32_t"@.len() != "size_t"@.len()); } assert("int32_t"@ != "ssize_t"@) by { assert("int32_t"@[0] != "ssize_t"@[0]); } assert("int32_t"@ != "ptrdiff_t"@) by { assert("int32_t"@.len() != "ptrdiff_t"@.len()); } assert("int32_t"@ != "intptr_t"@) by { assert("int32_t"@.len() != "intptr_t"@.len()); } assert("int32_t"@ != "uintptr_t"@) by { assert("int32_t"@.len() != "uintptr_t"@.len()); } assert("int32_t"@ != "charptr_t"@) by { assert("int32_t"@.len() != "charptr_t"@.len()); } assert("int32_t"@ != "nullptr_t"@) by { assert("int32_t"@.len() != "nullptr_t"@.len()); } assert("int32_t"@ != "max_align_t"@) by { assert("int32_t"@.len() != "max_align_t"@.len()); } assert("int32_t"@ != "int8_t"@) by { assert("int32_t"@.len() != "int8_t"@.len()); } assert("int32_t"@ != "int16_t"@) by { assert("int32_t"@[3] != "int16_t"@[3]); } },
        PrimitiveType::int64 => { assert("int64_t"@ != "bool"@) by { assert("int64_t"@.len() != "bool"@.len()); } assert("int64_t"@ != "char"@) by { assert("int64_t"@.len() != "char"@.len()); } assert("int64_t"@ != "int"@) by { assert("int64_t"@.len() != "int"@.len()); } assert("int64_t"@ != "float"@) by { assert("int64_t"@.len() != "float"@.len()); } assert("int64_t"@ != "double"@) by { assert("int64_t"@.len() != "double"@.len()); } assert("int64_t"@ != "void"@) by { assert("int64_t"@.len() != "void"@.len()); } assert("int64_t"@ != "size_t"@) by { assert("int64_t"@.len() != "size_t"@.len()); } assert("int64_t"@ != "ssize_t"@) by { assert("int64_t"@[0] != "ssize_t"@[0]); } assert("int64_t"@ != "ptrdiff_t"@) by { assert("int64_t"@.len() != "ptrdiff_t"@.len()); } assert("int64_t"@ != "intptr_t"@) by { assert("int64_t"@.len() != "intptr_t"@.len()); } assert("int64_t"@ != "uintptr_t"@) by { assert("int64_t"@.len() != "uintptr_t"@.len()); } assert("int64_t"@ != "charptr_t"@) by { assert("int64_t"@.len() != "charptr_t"@.len()); } assert("int64_t"@ != "nullptr_t"@) by { assert("int64_t"@.len() != "nullptr_t"@.len()); } assert("int64_t"@ != "max_align_t"@) by { assert("int64_t"@.len() != "max_align_t"@.len()); } assert("int64_t"@ != "int8_t"@) by { assert("int64_t"@.len() != "int8_t"@.len()); } assert("int64_t"@ != "int16_t"@) by { assert("int64_t"@[3] != "int16_t"@[3]); } assert("int64_t"@ != "int32_t"@) by { assert("int64_t"@[3] != "int32_t"@[3]); } },
        PrimitiveType::uint8 => { assert("uint8_t"@ != "bool"@) by { assert("uint8_t"@.len() != "bool"@.len()); } assert("uint8_t"@ != "char"@) by { assert("uint8_t"@.len() != "char"@.len()); } assert("uint8_t"@ != "int"@) by { assert("uint8_t"@.len() != "int"@.len()); } assert("uint8_t"@ != "float"@) by { assert("uint8_t"@.len() != "float"@.len()); } assert("uint8_t"@ != "double"@) by { assert("uint8_t"@.len() != "double"@.len()); } assert("uint8_t"@ != "void"@) by { assert("uint8_t"@.len() != "void"@.len()); } assert("uint8_t"@ != "size_t"@) by { assert("uint8_t"@.len() != "size_t"@.len()); } assert("uint8_t"@ != "ssize_t"@) by { assert("uint8_t"@[0] != "ssize_t"@[0]); } assert("uint8_t"@ != "ptrdiff_t"@) by { assert("uint8_t"@.len() != "ptrdiff_t"@.len()); } assert("uint8_t"@ != "intptr_t"@) by { assert("uint8_t"@.len() != "intptr_t"@.len()); } assert("uint8_t"@ != "uintptr_t"@) by { assert("uint8_t"@.len() != "uintptr_t"@.len()); } assert("uint8_t"@ != "charptr_t"@) by { assert("uint8_t"@.len() != "charptr_t"@.len()); } assert("uint8_t"@ != "nullptr_t"@) by { assert("uint8_t"@.len() != "nullptr_t"@.len()); } assert("uint8_t"@ != "max_align_t"@) by { assert("uint8_t"@.len() != "max_align_t"@.len()); } assert("uint8_t"@ != "int8_t"@) by { assert("uint8_t"@.len() != "int8_t"@.len()); } assert("uint8_t"@ != "int16_t"@) by { assert("uint8_t"@[0] != "int16_t"@[0]); } assert("uint8_t"@ != "int32_t"@) by { assert("uint8_t"@[0] != "int32_t"@[0]); } assert("uint8_t"@ != "int64_t"@) by { assert("uint8_t"@[0] != "int64_t"@[0]); } },
        PrimitiveType::uint16 => { assert("uint16_t"@ != "bool"@) by { assert("uint16_t"@.len() != "bool"@.len()); } assert("uint16_t"@ != "char"@) by { assert("uint16_t"@.len() != "char"@.len()); } assert("uint16_t"@ != "int"@) by { assert("uint16_t"@.len() != "int"@.len()); } assert("uint16_t"@ != "float"@) by { assert("uint16_t"@.len() != "float"@.len()); } assert("uint16_t"@ != "double"@) by { assert("uint16_t"@.len() != "double"@.len()); } assert("uint16_t"@ != "void"@) by { assert("uint16_t"@.len() != "void"@.len()); } assert("uint16_t"@ != "size_t"@) by { assert("uint16_t"@.len() != "size_t"@.len()); } assert("uint16_t"@ != "ssize_t"@) by { assert("uint16_t"@.len() != "ssize_t"@.len()); } assert("uint16_t"@ != "ptrdiff_t"@) by { assert("uint16_t"@.len() != "ptrdiff_t"@.len()); } assert("uint16_t"@ != "intptr_t"@) by { assert("uint16_t"@[0] != "intptr_t"@[0]); } assert("uint16_t"@ != "uintptr_t"@) by { assert("uint16_t"@.len() != "uintptr_t"@.len()); } assert("uint16_t"@ != "charptr_t"@) by { assert("uint16_t"@.len() != "charptr_t"@.len()); } assert("uint16_t"@ != "nullptr_t"@) by { assert("uint16_t"@.len() != "nullptr_t"@.len()); } assert("uint16_t"@ != "max_align_t"@) by { assert("uint16_t"@.len() != "max_align_t"@.len()); } assert("uint16_t"@ != "int8_t"@) by { assert("uint16_t"@.len() != "int8_t"@.len()); } assert("uint16_t"@ != "int16_t"@) by { assert("uint16_t"@.len() != "int16_t"@.len()); } assert("uint16_t"@ != "int32_t"@) by { assert("uint16_t"@.len() != "int32_t"@.len()); } assert("uint16_t"@ != "int64_t"@) by { assert("uint16_t"@.len() != "int64_t"@.len()); } assert("uint16_t"@ != "uint8_t"@) by { assert("uint16_t"@.len() != "uint8_t"@.len()); } },
        PrimitiveType::uint32 => { assert("uint32_t"@ != "bool"@) by { assert("uint32_t"@.len() != "bool"@.len()); } assert("uint32_t"@ != "char"@) by { assert("uint32_t"@.len() != "char"@.len()); } assert("uint32_t"@ != "int"@) by { assert("uint32_t"@.len() != "int"@.len()); } assert("uint32_t"@ != "float"@) by { assert("uint32_t"@.len() != "float"@.len()); } assert("uint32_t"@ != "double"@) by { assert("uint32_t"@.len() != "double"@.len()); } assert("uint32_t"@ != "void"@) by { assert("uint32_t"@.len() != "void"@.len()); } assert("uint32_t"@ != "size_t"@) by { assert("uint32_t"@.len() != "size_t"@.len()); } assert("uint32_t"@ != "ssize_t"@) by { assert("uint32_t"@.len() != "ssize_t"@.len()); } assert("uint32_t"@ != "ptrdiff_t"@) by { assert("uint32_t"@.len() != "ptrdiff_t"@.len()); } assert("uint32_t"@ != "intptr_t"@) by { assert("uint32_t"@[0] != "intptr_t"@[0]); } assert("uint32_t"@ != "uintptr_t"@) by { assert("uint32_t"@.len() != "uintptr_t"@.len()); } assert("uint32_t"@ != "charptr_t"@) by { assert("uint32_t"@.len() != "charptr_t"@.len()); } assert("uint32_t"@ != "nullptr_t"@) by { assert("uint32_t"@.len() != "nullptr_t"@.len()); } assert("uint32_t"@ != "max_align_t"@) by { assert("uint32_t"@.len() != "max_align_t"@.len()); } assert("uint32_t"@ != "int8_t"@) by { assert("uint32_t"@.len() != "int8_t"@.len()); } assert("uint32_t"@ != "int16_t"@) by { assert("uint32_t"@.len() != "int16_t"@.len()); } assert("uint32_t"@ != "int32_t"@) by { assert("uint32_t"@.len() != "int32_t"@.len()); } assert("uint32_t"@ != "int64_t"@) by { assert("uint32_t"@.len() != "int64_t"@.len()); } assert("uint32_t"@ != "uint8_t"@) by { assert("uint32_t"@.len() != "uint8_t"@.len()); } assert("uint32_t"@ != "uint16_t"@) by { assert("uint32_t"@[4] != "uint16_t"@[4]); } },
        PrimitiveType::uint64 => { assert("uint64_t"@ != "bool"@) by { assert("uint64_t"@.len() != "bool"@.len()); } assert("uint64_t"@ != "char"@) by { assert("uint64_t"@.len() != "char"@.len()); } assert("uint64_t"@ != "int"@) by { assert("uint64_t"@.len() != "int"@.len()); } assert("uint64_t"@ != "float"@) by { assert("uint64_t"@.len() != "float"@.len()); } assert("uint64_t"@ != "double"@) by { assert("uint64_t"@.len() != "double"@.len()); } assert("uint64_t"@ != "void"@) by { assert("uint64_t"@.len() != "void"@.len()); } assert("uint64_t"@ != "size_t"@) by { assert("uint64_t"@.len() != "size_t"@.len()); } assert("uint64_t"@ != "ssize_t"@) by { assert("uint64_t"@.len() != "ssize_t"@.len()); } assert("uint64_t"@ != "ptrdiff_t"@) by { assert("uint64_t"@.len() != "ptrdiff_t"@.len()); } assert("uint64_t"@ != "intptr_t"@) by { assert("uint64_t"@[0] != "intptr_t"@[0]); } assert("uint64_t"@ != "uintptr_t"@) by { assert("uint64_t"@.len() != "uintptr_t"@.len()); } assert("uint64_t"@ != "charptr_t"@) by { assert("uint64_t"@.len() != "charptr_t"@.len()); } assert("uint64_t"@ != "nullptr_t"@) by { assert("uint64_t"@.len() != "nullptr_t"@.len()); } assert("uint64_t"@ != "max_align_t"@) by { assert("uint64_t"@.len() != "max_align_t"@.len()); } assert("uint64_t"@ != "int8_t"@) by { assert("uint64_t"@.len() != "int8_t"@.len()); } assert("uint64_t"@ != "int16_t"@) by { assert("uint64_t"@.len() != "int16_t"@.len()); } assert("uint64_t"@ != "int32_t"@) by { assert("uint64_t"@.len() != "int32_t"@.len()); } assert("uint64_t"@ != "int64_t"@) by { assert("uint64_t"@.len() != "int64_t"@.len()); } assert("uint64_t"@ != "uint8_t"@) by { assert("uint64_t"@.len() != "uint8_t"@.len()); } assert("uint64_t"@ != "uint16_t"@) by { assert("uint64_t"@[4] != "uint16_t"@[4]); } assert("uint64_t"@ != "uint32_t"@) by { assert("uint64_t"@[4] != "uint32_t"@[4]); } },
        PrimitiveType::char8 => { assert("char8_t"@ != "bool"@) by { assert("char8_t"@.len() != "bool"@.len()); } assert("char8_t"@ != "char"@) by { assert("char8_t"@.len() != "char"@.len()); } assert("char8_t"@ != "int"@) by { assert("char8_t"@.len() != "int"@.len()); } assert("char8_t"@ != "float"@) by { assert("char8_t"@.len() != "float"@.len()); } assert("char8_t"@ != "double"@) by { assert("char8_t"@.len() != "double"@.len()); } assert("char8_t"@ != "void"@) by { assert("char8_t"@.len() != "void"@.len()); } assert("char8_t"@ != "size_t"@) by { assert("char8_t"@.len() != "size_t"@.len()); } assert("char8_t"@ != "ssize_t"@) by { assert("char8_t"@[0] != "ssize_t"@[0]); } assert("char8_t"@ != "ptrdiff_t"@) by { assert("char8_t"@.len() != "ptrdiff_t"@.len()); } assert("char8_t"@ != "intptr_t"@) by { assert("char8_t"@.len() != "intptr_t"@.len()); } assert("char8_t"@ != "uintptr_t"@) by { assert("char8_t"@.len() != "uintptr_t"@.len()); } assert("char8_t"@ != "charptr_t"@) by { assert("char8_t"@.len() != "charptr_t"@.len()); } assert("char8_t"@ != "nullptr_t"@) by { assert("char8_t"@.len() != "nullptr_t"@.len()); } assert("char8_t"@ != "max_align_t"@) by { assert("char8_t"@.len() != "max_align_t"@.len()); } assert("char8_t"@ != "int8_t"@) by { assert("char8_t"@.len() != "int8_t"@.len()); } assert("char8_t"@ != "int16_t"@) by { assert("char8_t"@[0] != "int16_t"@[0]); } assert("char8_t"@ != "int32_t"@) by { assert("char8_t"@[0] != "int32_t"@[0]); } assert("char8_t"@ != "int64_t"@) by { assert("char8_t"@[0] != "int64_t"@[0]); } assert("char8_t"@ != "uint8_t"@) by { assert("char8_t"@[0] != "uint8_t"@[0]); } assert("char8_t"@ != "uint16_t"@) by { assert("char8_t"@.len() != "uint16_t"@.len()); } assert("char8_t"@ != "uint32_t"@) by { assert("char8_t"@.len() != "uint32_t"@.len()); } assert("char8_t"@ != "uint64_t"@) by { assert("char8_t"@.len() != "uint64_t"@.len()); } },
        PrimitiveType::char16 => { assert("char16_t"@ != "bool"@) by { assert("char16_t"@.len() != "bool"@.len()); } assert("char16_t"@ != "char"@) by { assert("char16_t"@.len() != "char"@.len()); } assert("char16_t"@ != "int"@) by { assert("char16_t"@.len() != "int"@.len()); } assert("char16_t"@ != "float"@) by { assert("char16_t"@.len() != "float"@.len()); } assert("char16_t"@ != "double"@) by { assert("char16_t"@.len() != "double"@.len()); } assert("char16_t"@ != "void"@) by { assert("char16_t"@.len() != "void"@.len()); } assert("char16_t"@ != "size_t"@) by { assert("char16_t"@.len() != "size_t"@.len()); } assert("char16_t"@ != "ssize_t"@) by { assert("char16_t"@.len() != "ssize_t"@.len()); } assert("char16_t"@ != "ptrdiff_t"@) by { assert("char16_t"@.len() != "ptrdiff_t"@.len()); } assert("char16_t"@ != "intptr_t"@) by { assert("char16_t"@[0] != "intptr_t"@[0]); } assert("char16_t"@ != "uintptr_t"@) by { assert("char16_t"@.len() != "uintptr_t"@.len()); } assert("char16_t"@ != "charptr_t"@) by { assert("char16_t"@.len() != "charptr_t"@.len()); } assert("char16_t"@ != "nullptr_t"@) by { assert("char16_t"@.len() != "nullptr_t"@.len()); } assert("char16_t"@ != "max_align_t"@) by { assert("char16_t"@.len() != "max_align_t"@.len()); } assert("char16_t"@ != "int8_t"@) by { assert("char16_t"@.len() != "int8_t"@.len()); } assert("char16_t"@ != "int16_t"@) by { assert("char16_t"@.len() != "int16_t"@.len()); } assert("char16_t"@ != "int32_t"@) by { assert("char16_t"@.len() != "int32_t"@.len()); } assert("char16_t"@ != "int64_t"@) by { assert("char16_t"@.len() != "int64_t"@.len()); } assert("char16_t"@ != "uint8_t"@) by { assert("char16_t"@.len() != "uint8_t"@.len()); } assert("char16_t"@ != "uint16_t"@) by { assert("char16_t"@[0] != "uint16_t"@[0]); } assert("char16_t"@ != "uint32_t"@) by { assert("char16_t"@[0] != "uint32_t"@[0]); } assert("char16_t"@ != "uint64_t"@) by { assert("char16_t"@[0] != "uint64_t"@[0]); } assert("char16_t"@ != "char8_t"@) by { assert("char16_t"@.len() != "char8_t"@.len()); } },
        PrimitiveType::char32 => { assert("char32_t"@ != "bool"@) by { assert("char32_t"@.len() != "bool"@.len()); } assert("char32_t"@ != "char"@) by { assert("char32_t"@.len() != "char"@.len()); } assert("char32_t"@ != "int"@) by { assert("char32_t"@.len() != "int"@.len()); } assert("char32_t"@ != "float"@) by { assert("char32_t"@.len() != "float"@.len()); } assert("char32_t"@ != "double"@) by { assert("char32_t"@.len() != "double"@.len()); } assert("char32_t"@ != "void"@) by { assert("char32_t"@.len() != "void"@.len()); } assert("char32_t"@ != "size_t"@) by { assert("char32_t"@.len() != "size_t"@.len()); } assert("char32_t"@ != "ssize_t"@) by { assert("char32_t"@.len() != "ssize_t"@.len()); } assert("char32_t"@ != "ptrdiff_t"@) by { assert("char32_t"@.len() != "ptrdiff_t"@.len()); } assert("char32_t"@ != "intptr_t"@) by { assert("char32_t"@[0] != "intptr_t"@[0]); } assert("char32_t"@ != "uintptr_t"@) by { assert("char32_t"@.len() != "uintptr_t"@.len()); } assert("char32_t"@ != "charptr_t"@) by { assert("char32_t"@.len() != "charptr_t"@.len()); } assert("char32_t"@ != "nullptr_t"@) by { assert("char32_t"@.len() != "nullptr_t"@.len()); } assert("char32_t"@ != "max_align_t"@) by { assert("char32_t"@.len() != "max_align_t"@.len()); } assert("char32_t"@ != "int8_t"@) by { assert("char32_t"@.len() != "int8_t"@.len()); } assert("char32_t"@ != "int16_t"@) by { assert("char32_t"@.len() != "int16_t"@.len()); } assert("char32_t"@ != "int32_t"@) by { assert("char32_t"@.len() != "int32_t"@.len()); } assert("char32_t"@ != "int64_t"@) by { assert("char32_t"@.len() != "int64_t"@.len()); } assert("char32_t"@ != "uint8_t"@) by { assert("char32_t"@.len() != "uint8_t"@.len()); } assert("char32_t"@ != "uint16_t"@) by { assert("char32_t"@[0] != "uint16_t"@[0]); } assert("char32_t"@ != "uint32_t"@) by { assert("char32_t"@[0] != "uint32_t"@[0]); } assert("char32_t"@ != "uint64_t"@) by { assert("char32_t"@[0] != "uint64_t"@[0]); } assert("char32_t"@ != "char8_t"@) by { assert("char32_t"@.len() != "char8_t"@.len()); } assert("char32_t"@ != "char16_t"@) by { assert("char32_t"@[4] != "char16_t"@[4]); } },
        PrimitiveType::char64 => { assert("char64_t"@ != "bool"@) by { assert("char64_t"@.len() != "bool"@.len()); } assert("char64_t"@ != "char"@) by { assert("char64_t"@.len() != "char"@.len()); } assert("char64_t"@ != "int"@) by { assert("char64_t"@.len() != "int"@.len()); } assert("char64_t"@ != "float"@) by { assert("char64_t"@.len() != "float"@.len()); } assert("char64_t"@ != "double"@) by { assert("char64_t"@.len() != "double"@.len()); } assert("char64_t"@ != "void"@) by { assert("char64_t"@.len() != "void"@.len()); } assert("char64_t"@ != "size_t"@) by { assert("char64_t"@.len() != "size_t"@.len()); } assert("char64_t"@ != "ssize_t"@) by { assert("char64_t"@.len() != "ssize_t"@.len()); } assert("char64_t"@ != "ptrdiff_t"@) by { assert("char64_t"@.len() != "ptrdiff_t"@.len()); } assert("char64_t"@ != "intptr_t"@) by { assert("char64_t"@[0] != "intptr_t"@[0]); } assert("char64_t"@ != "uintptr_t"@) by { assert("char64_t"@.len() != "uintptr_t"@.len()); } assert("char64_t"@ != "charptr_t"@) by { assert("char64_t"@.len() != "charptr_t"@.len()); } assert("char64_t"@ != "nullptr_t"@) by { assert("char64_t"@.len() != "nullptr_t"@.len()); } assert("char64_t"@ != "max_align_t"@) by { assert("char64_t"@.len() != "max_align_t"@.len()); } assert("char64_t"@ != "int8_t"@) by { assert("char64_t"@.len() != "int8_t"@.len()); } assert("char64_t"@ != "int16_t"@) by { assert("char64_t"@.len() != "int16_t"@.len()); } assert("char64_t"@ != "int32_t"@) by { assert("char64_t"@.len() != "int32_t"@.len()); } assert("char64_t"@ != "int64_t"@) by { assert("char64_t"@.len() != "int64_t"@.len()); } assert("char64_t"@ != "uint8_t"@) by { assert("char64_t"@.len() != "uint8_t"@.len()); } assert("char64_t"@ != "uint16_t"@) by { assert("char64_t"@[0] != "uint16_t"@[0]); } assert("char64_t"@ != "uint32_t"@) by { assert("char64_t"@[0] != "uint32_t"@[0]); } assert("char64_t"@ != "uint64_t"@) by { assert("char64_t"@[0] != "uint64_t"@[0]); } assert("char64_t"@ != "char8_t"@) by { assert("char64_t"@.len() != "char8_t"@.len()); } assert("char64_t"@ != "char16_t"@) by { assert("char64_t"@[4] != "char16_t"@[4]); } assert("char64_t"@ != "char32_t"@) by { assert("char64_t"@[4] != "char32_t"@[4]); } },
    }
}

/// Printing a Microsoft calling convention and reading the keyword back gives the same Microsoft calling convention.
pub proof fn law_ms_call_modifier_reads_back(x: MSCallModifier)
    ensures
        spec_ms_call_modifier_of(ms_call_modifier_text(x)) == Some(x),
{
    reveal_strlit("__cdecl");
    reveal_strlit("__clrcall");
    reveal_strlit("__stdcall");
    reveal_strlit("__fastcall");
    reveal_strlit("__thiscall");
    reveal_strlit("__vectorcall");
    match x {
        MSCallModifier::cdecl => {  },
        MSCallModifier::clrcall => { assert("__clrcall"@ != "__cdecl"@) by { assert("__clrcall"@.len() != "__cdecl"@.len()); } },
        MSCallModifier::stdcall => { assert("__stdcall"@ != "__cdecl"@) by { assert("__stdcall"@.len() != "__cdecl"@.len()); } assert("__stdcall"@ != "__clrcall"@) by { assert("__stdcall"@[2] != "__clrcall"@[2]); } },
        MSCallModifier::fastcall => { assert("__fastcall"@ != "__cdecl"@) by { assert("__fastcall"@.len() != "__cdecl"@.len()); } assert("__fastcall"@ != "__clrcall"@) by { assert("__fastcall"@.len() != "__clrcall"@.len()); } assert("__fastcall"@ != "__stdcall"@) by { assert("__fastcall"@.len() != "__stdcall"@.len()); } },
        MSCallModifier::thiscall => { assert("__thiscall"@ != "__cdecl"@) by { assert("__thiscall"@.len() != "__cdecl"@.len()); } assert("__thiscall"@ != "__clrcall"@) by { assert("__thiscall"@.len() != "__clrcall"@.len()); } assert("__thiscall"@ != "__stdcall"@) by { assert("__thiscall"@.len() != "__stdcall"@.len()); } assert("__thiscall"@ != "__fastcall"@) by { assert("__thiscall"@[2] != "__fastcall"@[2]); } },
        MSCallModifier::vectorcall => { assert("__vectorcall"@ != "__cdecl"@) by { assert("__vectorcall"@.len() != "__cdecl"@.len()); } assert("__vectorcall"@ != "__clrcall"@) by { assert("__vectorcall"@.len() != "__clrcall"@.len()); } assert("__vectorcall"@ != "__stdcall"@) by { assert("__vectorcall"@.len() != "__stdcall"@.len()); } assert("__vectorcall"@ != "__fastcall"@) by { assert("__vectorcall"@.len() != "__fastcall"@.len()); } assert("__vectorcall"@ != "__thiscall"@) by { assert("__vectorcall"@.len() != "__thiscall"@.len()); } },
    }
}

} // verus!
