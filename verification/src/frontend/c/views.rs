#![allow(non_snake_case)]
#![allow(non_camel_case_types)]

use vstd::prelude::*;
use crate::frontend::c::sema::{
    ArrayQualifier, Attribute, CType, Container, DeclarationQualifier, Enum, FunctionQualifier,
    MSCallModifier, MSDeclModifier, MSPointerModifier, Modifier, NamedType, Parameter,
    PointerQualifier, PrimitiveType, SizeModifier, StandardAttribute, Storage, Symbol, TypeDecl,
    TypeQualifier, Variable, AttachedExpression, EnumCase, MacroDefinition, TypeDefinition, Function,
    Pointer, Array,
};

verus! {

// The symbols of C declarations as mathematical values: text as character sequences, lists as
// sequences.

pub enum ModifierV {
    storage(Storage),
    attribute(Seq<Seq<char>>),
    standardAttribute(Option<Seq<char>>, Seq<char>, Seq<Seq<char>>),
    msSpecificModifier(Seq<char>),
}

pub enum DeclQualifierV {
    constexpr,
    extension,
    alignas(Seq<char>),
}

pub enum MSPointerModifierV {
    unaligned,
    restrict,
    unsigned,
    signed,
    based(Seq<Seq<char>>),
}

pub enum AttachedV {
    bitWidth(Seq<char>),
    value(Seq<char>),
}

pub enum NamedTypeV {
    custom(Seq<char>),
    primitive(PrimitiveType),
}

pub struct CTypeV {
    pub decl: Box<TypeDeclV>,
    pub qualifiers: Seq<TypeQualifier>,
}

pub enum TypeDeclV {
    structure(ContainerV),
    union(ContainerV),
    enumeration(EnumV),
    pointer(PointerV),
    function(FunctionV),
    array(ArrayV),
    macroCall(Seq<char>),
    named(NamedTypeV, Seq<SizeModifier>),
}

pub struct ContainerV {
    pub name: Option<Seq<char>>,
    pub attributes: Seq<Seq<Seq<char>>>,
    pub msSpecificModifiers: Seq<Seq<char>>,
    pub members: Seq<VariableV>,
}

pub struct EnumV {
    pub name: Option<Seq<char>>,
    pub attributes: Seq<Seq<Seq<char>>>,
    pub underlyingType: Option<PrimitiveType>,
    pub cases: Seq<(Seq<char>, Option<Seq<char>>)>,
}

pub struct PointerV {
    pub msSpecificModifiers: Seq<MSPointerModifierV>,
    pub qualifiers: Seq<PointerQualifier>,
    pub pointeeType: CTypeV,
}

pub struct ArrayV {
    pub count: Option<Seq<char>>,
    pub elementType: CTypeV,
    pub qualifiers: Seq<ArrayQualifier>,
}

pub struct FunctionV {
    pub modifiers: Seq<ModifierV>,
    pub functionQualifiers: Seq<FunctionQualifier>,
    pub declQualifiers: Seq<DeclQualifierV>,
    pub returnType: CTypeV,
    pub msSpecifcModifiers: Seq<MSCallModifier>,
    pub parameters: Seq<ParameterV>,
    pub hasInlineAssembly: bool,
    pub name: Option<Seq<char>>,
}

pub enum ParameterV {
    variadic(Option<Seq<char>>),
    regular(VariableV),
}

pub struct VariableV {
    pub modifiers: Seq<ModifierV>,
    pub qualifiers: Seq<DeclQualifierV>,
    pub cType: CTypeV,
    pub identifier: Option<Seq<char>>,
    pub attachedExpression: Option<AttachedV>,
}

pub struct TypeDefinitionV {
    pub qualifiers: Seq<DeclQualifierV>,
    pub name: Seq<char>,
    pub originalType: CTypeV,
    pub attributes: Seq<Seq<Seq<char>>>,
}

pub enum MacroParameterV {
    variadic(Option<Seq<char>>),
    regular(Seq<char>),
}

pub struct MacroDefinitionV {
    pub name: Seq<char>,
    pub parameters: Seq<MacroParameterV>,
    pub value: Option<Seq<char>>,
}

pub enum SymbolV {
    function(FunctionV),
    variable(VariableV),
    typeDefinition(TypeDefinitionV),
    structure(ContainerV),
    union(ContainerV),
    enumeration(EnumV),
    macroDefintion(MacroDefinitionV),
}

pub open spec fn opt_text(o: Option<String>) -> Option<Seq<char>> {
    match o {
        Some(s) => Some(s@),
        None => None,
    }
}

pub open spec fn texts(v: Seq<String>) -> Seq<Seq<char>> {
    v.map_values(|s: String| s@)
}

pub open spec fn attribute_view(a: Attribute) -> Seq<Seq<char>> {
    texts(a.arguments@)
}

pub open spec fn attributes_view(v: Seq<Attribute>) -> Seq<Seq<Seq<char>>> {
    v.map_values(|a: Attribute| attribute_view(a))
}

pub open spec fn modifier_view(m: Modifier) -> ModifierV {
    match m {
        Modifier::storage(s) => ModifierV::storage(s),
        Modifier::attribute(a) => ModifierV::attribute(attribute_view(a)),
        Modifier::standardAttribute(a) => ModifierV::standardAttribute(opt_text(a.prefix), a.name@, texts(a.arguments@)),
        Modifier::msSpecificModifier(MSDeclModifier::declspec(s)) => ModifierV::msSpecificModifier(s@),
    }
}

pub open spec fn modifiers_view(v: Seq<Modifier>) -> Seq<ModifierV> {
    v.map_values(|m: Modifier| modifier_view(m))
}

pub open spec fn decl_qualifier_view(q: DeclarationQualifier) -> DeclQualifierV {
    match q {
        DeclarationQualifier::constexpr => DeclQualifierV::constexpr,
        DeclarationQualifier::extension => DeclQualifierV::extension,
        DeclarationQualifier::alignas(e) => DeclQualifierV::alignas(e@),
    }
}

pub open spec fn decl_qualifiers_view(v: Seq<DeclarationQualifier>) -> Seq<DeclQualifierV> {
    v.map_values(|q: DeclarationQualifier| decl_qualifier_view(q))
}

pub open spec fn ms_pointer_modifier_view(m: MSPointerModifier) -> MSPointerModifierV {
    match m {
        MSPointerModifier::unaligned => MSPointerModifierV::unaligned,
        MSPointerModifier::restrict => MSPointerModifierV::restrict,
        MSPointerModifier::unsigned => MSPointerModifierV::unsigned,
        MSPointerModifier::signed => MSPointerModifierV::signed,
        MSPointerModifier::based(args) => MSPointerModifierV::based(texts(args@)),
    }
}

pub open spec fn attached_view(a: Option<AttachedExpression>) -> Option<AttachedV> {
    match a {
        Some(AttachedExpression::bitWidth(e)) => Some(AttachedV::bitWidth(e@)),
        Some(AttachedExpression::value(e)) => Some(AttachedV::value(e@)),
        None => None,
    }
}

pub open spec fn named_type_view(n: NamedType) -> NamedTypeV {
    match n {
        NamedType::custom(s) => NamedTypeV::custom(s@),
        NamedType::primitive(p) => NamedTypeV::primitive(p),
    }
}

pub open spec fn enum_case_view(c: EnumCase) -> (Seq<char>, Option<Seq<char>>) {
    (c.name@, opt_text(c.value))
}

pub open spec fn enum_view(e: Enum) -> EnumV {
    EnumV {
        name: opt_text(e.name),
        attributes: attributes_view(e.attributes@),
        underlyingType: e.underlyingType,
        cases: e.cases@.map_values(|c: EnumCase| enum_case_view(c)),
    }
}

pub open spec fn ctype_view(t: CType) -> CTypeV
    decreases t,
{
    CTypeV { decl: Box::new(type_decl_view(*t.decl)), qualifiers: t.qualifiers@ }
}

pub open spec fn type_decl_view(d: TypeDecl) -> TypeDeclV
    decreases d,
{
    match d {
        TypeDecl::structure(c) => TypeDeclV::structure(container_view(c)),
        TypeDecl::union(c) => TypeDeclV::union(container_view(c)),
        TypeDecl::enumeration(e) => TypeDeclV::enumeration(enum_view(e)),
        TypeDecl::pointer(p) => TypeDeclV::pointer(PointerV {
            msSpecificModifiers: p.msSpecificModifiers@.map_values(|m: MSPointerModifier| ms_pointer_modifier_view(m)),
            qualifiers: p.qualifiers@,
            pointeeType: ctype_view(p.pointeeType),
        }),
        TypeDecl::function(f) => TypeDeclV::function(function_view(f)),
        TypeDecl::array(a) => TypeDeclV::array(ArrayV {
            count: opt_text(a.count),
            elementType: ctype_view(a.elementType),
            qualifiers: a.qualifiers@,
        }),
        TypeDecl::macroCall(e) => TypeDeclV::macroCall(e@),
        TypeDecl::named(n, sized) => TypeDeclV::named(named_type_view(n), sized@),
    }
}

pub open spec fn container_view(c: Container) -> ContainerV
    decreases c,
{
    ContainerV {
        name: opt_text(c.name),
        attributes: attributes_view(c.attributes@),
        msSpecificModifiers: c.msSpecificModifiers@.map_values(|m: MSDeclModifier| match m {
            MSDeclModifier::declspec(s) => s@,
        }),
        members: variables_view(c.members@),
    }
}

pub open spec fn variables_view(v: Seq<Variable>) -> Seq<VariableV>
    decreases v,
{
    if v.len() == 0 {
        Seq::empty()
    } else {
        variables_view(v.drop_last()).push(variable_view(v.last()))
    }
}

pub open spec fn variable_view(v: Variable) -> VariableV
    decreases v,
{
    VariableV {
        modifiers: modifiers_view(v.modifiers@),
        qualifiers: decl_qualifiers_view(v.qualifiers@),
        cType: ctype_view(v.cType),
        identifier: opt_text(v.identifier),
        attachedExpression: attached_view(v.attachedExpression),
    }
}

pub open spec fn function_view(f: Function) -> FunctionV
    decreases f,
{
    FunctionV {
        modifiers: modifiers_view(f.modifiers@),
        functionQualifiers: f.functionQualifiers@,
        declQualifiers: decl_qualifiers_view(f.declQualifiers@),
        returnType: ctype_view(f.returnType),
        msSpecifcModifiers: f.msSpecifcModifiers@,
        parameters: parameters_view(f.parameters@),
        hasInlineAssembly: f.inlineAssembly is Some,
        name: opt_text(f.name),
    }
}

pub open spec fn parameters_view(v: Seq<Parameter<Variable>>) -> Seq<ParameterV>
    decreases v,
{
    if v.len() == 0 {
        Seq::empty()
    } else {
        parameters_view(v.drop_last()).push(parameter_view(v.last()))
    }
}

pub open spec fn parameter_view(p: Parameter<Variable>) -> ParameterV
    decreases p,
{
    match p {
        Parameter::variadic(n) => ParameterV::variadic(opt_text(n)),
        Parameter::regular(r) => ParameterV::regular(variable_view(r)),
    }
}

pub open spec fn type_definition_view(t: TypeDefinition) -> TypeDefinitionV {
    TypeDefinitionV {
        qualifiers: decl_qualifiers_view(t.qualifiers@),
        name: t.name@,
        originalType: ctype_view(t.originalType),
        attributes: attributes_view(t.attributes@),
    }
}

pub open spec fn macro_parameter_view(p: Parameter<String>) -> MacroParameterV {
    match p {
        Parameter::variadic(n) => MacroParameterV::variadic(opt_text(n)),
        Parameter::regular(r) => MacroParameterV::regular(r@),
    }
}

pub open spec fn macro_definition_view(m: MacroDefinition) -> MacroDefinitionV {
    MacroDefinitionV {
        name: m.name@,
        parameters: m.parameters@.map_values(|p: Parameter<String>| macro_parameter_view(p)),
        value: opt_text(m.value),
    }
}

pub open spec fn symbol_view(s: Symbol) -> SymbolV {
    match s {
        Symbol::function(f) => SymbolV::function(function_view(f)),
        Symbol::variable(v) => SymbolV::variable(variable_view(v)),
        Symbol::typeDefinition(t) => SymbolV::typeDefinition(type_definition_view(t)),
        Symbol::structure(c) => SymbolV::structure(container_view(c)),
        Symbol::union(c) => SymbolV::union(container_view(c)),
        Symbol::enumeration(e) => SymbolV::enumeration(enum_view(e)),
        Symbol::macroDefintion(m) => SymbolV::macroDefintion(macro_definition_view(m)),
    }
}

} // verus!
