#![allow(non_snake_case)]

use vstd::prelude::*;
use crate::compiler::strings::Location;
use crate::frontend::c::sema::{
    spec_function_qualifier_of, spec_ms_pointer_node_kind, spec_pointer_qualifier_of,
    spec_array_qualifier_of, spec_primitive_type_of, spec_size_modifier_of, spec_storage_of,
    spec_type_qualifier_of, spec_ms_call_modifier_of, EnumCase, IncludedHeader, Symbol,
    TypeQualifier, FunctionQualifier, PointerQualifier, ArrayQualifier, MSCallModifier, PrimitiveType,
};
use crate::frontend::c::sema_gen::{
    count_named, define_value, eval_pp, field_index, named_index, PPOutcome, ReportMessage,
    SemaGenError, SyntaxNode,
};
use crate::frontend::c::views::{
    AttachedV, ContainerV, CTypeV, DeclQualifierV, EnumV, FunctionV, MacroDefinitionV,
    MacroParameterV, ModifierV, MSPointerModifierV, ParameterV, SymbolV, TypeDeclV,
    TypeDefinitionV, VariableV, NamedTypeV, PointerV, ArrayV, symbol_view, enum_case_view,
};

verus! {

/// A problem reported while reading, with where it stands when that is known.
#[derive(Debug)]
pub struct Report {
    pub message: ReportMessage,
    pub location: Option<Location>,
}

/// What reading a C syntax tree hands on, in order, to whoever records its symbols.
pub enum Recorded {
    Include(IncludedHeader),
    Symbol(Symbol, Location),
    EnumerationCase(EnumCase, Location),
    /// The text of a documentation comment and its style.
    Comment(String, String, Location),
}

pub enum RecordedV {
    /// Whether the header is a system header, and its path.
    Include(bool, Seq<char>),
    Symbol(SymbolV, Location),
    EnumerationCase(Seq<char>, Option<Seq<char>>, Location),
    Comment(Seq<char>, Seq<char>, Location),
}

pub open spec fn recorded_view(r: Recorded) -> RecordedV {
    match r {
        Recorded::Include(IncludedHeader::system(p)) => RecordedV::Include(true, p@),
        Recorded::Include(IncludedHeader::local(p)) => RecordedV::Include(false, p@),
        Recorded::Symbol(s, l) => RecordedV::Symbol(symbol_view(s), l),
        Recorded::EnumerationCase(c, l) => RecordedV::EnumerationCase(enum_case_view(c).0, enum_case_view(c).1, l),
        Recorded::Comment(t, s, l) => RecordedV::Comment(t@, s@, l),
    }
}

pub open spec fn records_view(v: Seq<Recorded>) -> Seq<RecordedV> {
    v.map_values(|r: Recorded| recorded_view(r))
}

/// What reading a part of a syntax tree gives, what it records and what it reports; or that
/// reading it does not come to an end (`stuck`: it loops or panics).
pub struct Walk<T> {
    pub value: T,
    pub records: Seq<RecordedV>,
    pub diags: Seq<Report>,
    pub stuck: bool,
}

pub open spec fn done<T>(value: T, records: Seq<RecordedV>, diags: Seq<Report>) -> Walk<T> {
    Walk { value, records, diags, stuck: false }
}

pub open spec fn stuck<T>() -> Walk<T> {
    Walk { value: arbitrary(), records: Seq::empty(), diags: Seq::empty(), stuck: true }
}

/// A problem at a location.
pub open spec fn at(message: ReportMessage, location: Location) -> Report {
    Report { message, location: Some(location) }
}

/// A problem without a location.
pub open spec fn unlocated(message: ReportMessage) -> Report {
    Report { message, location: None }
}

/// An error at a location.
pub open spec fn err(message: ReportMessage, location: Location) -> SemaGenError {
    SemaGenError { message, location }
}

/// A located error, as reported.
pub open spec fn reported(e: SemaGenError) -> Report {
    Report { message: e.message, location: Some(e.location) }
}

pub open spec fn child_at(n: SyntaxNode, i: int) -> SyntaxNode {
    n.children@[i].1
}

pub open spec fn field(n: SyntaxNode, f: Seq<char>) -> Option<int> {
    field_index(n.children@, f)
}

/// The text of the child in a field, if there is one.
pub open spec fn field_text(n: SyntaxNode, f: Seq<char>) -> Option<Seq<char>> {
    match field(n, f) {
        Some(i) => Some(child_at(n, i).text@),
        None => None,
    }
}

/// Node kinds that start with `comment:` stand for documentation comments; the rest names
/// their style.
pub open spec fn is_comment_kind(k: Seq<char>) -> bool {
    k.len() >= 8 && k.take(8) == "comment:"@
}

pub open spec fn ends_with(s: Seq<char>, t: Seq<char>) -> bool {
    s.len() >= t.len() && s.skip(s.len() - t.len()) == t
}

pub proof fn lemma_child_smaller(n: SyntaxNode, i: int)
    requires
        0 <= i < n.children@.len(),
    ensures
        decreases_to!(n => n.children@[i].1),
{
    assert(decreases_to!(n => n.children));
    assert(decreases_to!(n.children => n.children@));
    assert(decreases_to!(n.children@ => n.children@[i]));
    assert(decreases_to!(n.children@[i] => n.children@[i].1));
}

// ---------------------------------------------------------------------------------------------
// Leaves: arguments, attributes, containers, enumerations, macros

/// The texts of the named children, from the `k`-th child on, after `acc`.
pub open spec fn named_texts(n: SyntaxNode, k: int, acc: Seq<Seq<char>>) -> Seq<Seq<char>>
    decreases n.children@.len() - k,
{
    if 0 <= k < n.children@.len() {
        let c = child_at(n, k);
        named_texts(n, k + 1, if c.named { acc.push(c.text@) } else { acc })
    } else {
        acc
    }
}

/// The arguments of an argument list: the texts of its named children.
pub open spec fn args_of(list: SyntaxNode) -> Seq<Seq<char>> {
    named_texts(list, 0, Seq::empty())
}

/// The attributes and `__declspec` modifiers among the named children of a `struct` or
/// `union`, from the `k`-th child on.
pub open spec fn container_mods(n: SyntaxNode, k: int, attrs: Seq<Seq<Seq<char>>>, ms: Seq<Seq<char>>, d: Seq<Report>)
    -> (Seq<Seq<Seq<char>>>, Seq<Seq<char>>, Seq<Report>)
    decreases n.children@.len() - k,
{
    if 0 <= k < n.children@.len() {
        let c = child_at(n, k);
        if c.named && c.kind@ == "attribute_specifier"@ {
            match named_index(c.children@, 0) {
                Some(j) => container_mods(n, k + 1, attrs.push(args_of(child_at(c, j))), ms, d),
                None => container_mods(n, k + 1, attrs, ms, d.push(at(ReportMessage::UnknownAttributeSpecifier, c.range))),
            }
        } else if c.named && c.kind@ == "ms_declspec_modifier"@ {
            match named_index(c.children@, 0) {
                Some(j) => container_mods(n, k + 1, attrs, ms.push(child_at(c, j).text@), d),
                None => container_mods(n, k + 1, attrs, ms, d.push(at(ReportMessage::MissingDeclSpecModifierContent, c.range))),
            }
        } else {
            container_mods(n, k + 1, attrs, ms, d)
        }
    } else {
        (attrs, ms, d)
    }
}

/// A `struct` or `union` without its members, and where its body stands; or, where it has
/// neither name nor body, the error.
pub open spec fn container_head(n: SyntaxNode) -> (Result<(ContainerV, Option<int>), SemaGenError>, Seq<Report>) {
    let (attrs, ms, d) = container_mods(n, 0, Seq::empty(), Seq::empty(), Seq::empty());
    let name = field_text(n, "name"@);
    let body = field(n, "body"@);
    if name is None && body is None {
        (Err(err(ReportMessage::UnnamedEmptyType("struct"), n.range)), d)
    } else {
        (Ok((ContainerV { name, attributes: attrs, msSpecificModifiers: ms, members: Seq::empty() }, body)), d)
    }
}

/// The attributes among the named children of an `enum`, from the `k`-th child on.
pub open spec fn enum_attrs(n: SyntaxNode, k: int, attrs: Seq<Seq<Seq<char>>>, d: Seq<Report>) -> (Seq<Seq<Seq<char>>>, Seq<Report>)
    decreases n.children@.len() - k,
{
    if 0 <= k < n.children@.len() {
        let c = child_at(n, k);
        if c.named && c.kind@ == "attribute_specifier"@ {
            match named_index(c.children@, 0) {
                Some(j) => enum_attrs(n, k + 1, attrs.push(args_of(child_at(c, j))), d),
                None => enum_attrs(n, k + 1, attrs, d.push(at(ReportMessage::MissingArgumentList, c.range))),
            }
        } else {
            enum_attrs(n, k + 1, attrs, d)
        }
    } else {
        (attrs, d)
    }
}

/// An `enum` without its cases, and where its body stands; or, where it has neither name nor
/// body, the error.
pub open spec fn enum_head(n: SyntaxNode) -> (Result<(EnumV, Option<int>), SemaGenError>, Seq<Report>) {
    let (attrs, d0) = enum_attrs(n, 0, Seq::empty(), Seq::empty());
    let name = field_text(n, "name"@);
    let (underlying, d) = match field(n, "underlying_Type"@) {
        Some(i) => match spec_primitive_type_of(child_at(n, i).text@) {
            Some(u) => (Some(u), d0),
            None => (None, d0.push(at(ReportMessage::UnknownUnderlyingEnumType(child_at(n, i).text), child_at(n, i).range))),
        },
        None => (None, d0),
    };
    let body = field(n, "body"@);
    if name is None && body is None {
        (Err(err(ReportMessage::UnnamedEmptyType("struct"), n.range)), d)
    } else {
        (Ok((EnumV { name, attributes: attrs, underlyingType: underlying, cases: Seq::empty() }, body)), d)
    }
}

/// What the items of an enumerator list record and report, from the `k`-th child on.
pub open spec fn enum_items(n: SyntaxNode, k: int, rec: Seq<RecordedV>, d: Seq<Report>) -> (Seq<RecordedV>, Seq<Report>)
    decreases n.children@.len() - k,
{
    if 0 <= k < n.children@.len() {
        let c = child_at(n, k);
        if !c.named {
            enum_items(n, k + 1, rec, d)
        } else if c.kind@ == "enumerator"@ {
            match field(c, "name"@) {
                None => enum_items(n, k + 1, rec, d.push(at(ReportMessage::MissingEnumCaseName, c.range))),
                Some(i) => enum_items(n, k + 1,
                    rec.push(RecordedV::EnumerationCase(child_at(c, i).text@, field_text(c, "value"@), c.range)), d),
            }
        } else if c.kind@ == "preproc_call"@ {
            enum_items(n, k + 1, rec, d.push(at(ReportMessage::PreprocessorCallIngored("enum case decl list"), c.range)))
        } else if c.kind@ == "comment"@ {
            enum_items(n, k + 1, rec, d)
        } else if is_comment_kind(c.kind@) {
            enum_items(n, k + 1, rec.push(RecordedV::Comment(c.text@, c.kind@.skip(8), c.range)), d)
        } else {
            enum_items(n, k + 1, rec, d)
        }
    } else {
        (rec, d)
    }
}

/// The parameters of a macro definition, from the `k`-th child of its parameter list on:
/// identifiers and `...`; other children are reported.
pub open spec fn macro_params(owner: SyntaxNode, n: SyntaxNode, k: int, ps: Seq<MacroParameterV>, d: Seq<Report>)
    -> (Seq<MacroParameterV>, Seq<Report>)
    decreases n.children@.len() - k,
{
    if 0 <= k < n.children@.len() {
        let c = child_at(n, k);
        let unknown = at(ReportMessage::UnknownChildNode(owner.kind, c.kind), c.range);
        if c.named {
            if c.kind@ == "identifier"@ {
                macro_params(owner, n, k + 1, ps.push(MacroParameterV::regular(c.text@)), d)
            } else {
                macro_params(owner, n, k + 1, ps, d.push(unknown))
            }
        } else if c.text@ == "..."@ {
            macro_params(owner, n, k + 1, ps.push(MacroParameterV::variadic(None)), d)
        } else {
            macro_params(owner, n, k + 1, ps, d.push(unknown))
        }
    } else {
        (ps, d)
    }
}

/// What a macro definition records: the macro, unless it is a header guard that is ignored.
pub open spec fn spec_macro_definition(ignore_header_guards: bool, n: SyntaxNode) -> Walk<Result<(), SemaGenError>> {
    match field(n, "name"@) {
        None => done(Err(err(ReportMessage::PreprocessorMissingIdentifier, n.range)), Seq::empty(), Seq::empty()),
        Some(i) => {
            let name = child_at(n, i).text@;
            if ignore_header_guards && ends_with(name, "_H"@) {
                done(Ok(()), Seq::empty(), Seq::empty())
            } else {
                let (ps, d) = match field(n, "parameters"@) {
                    Some(p) => macro_params(n, child_at(n, p), 0, Seq::empty(), Seq::empty()),
                    None => (Seq::empty(), Seq::empty()),
                };
                let m = MacroDefinitionV { name, parameters: ps, value: field_text(n, "value"@) };
                done(Ok(()), seq![RecordedV::Symbol(SymbolV::macroDefintion(m), n.range)], d)
            }
        },
    }
}

/// The declaration qualifier that a `type_qualifier` node spells.
pub open spec fn spec_declaration_qualifier(n: SyntaxNode) -> Result<DeclQualifierV, SemaGenError> {
    if n.children@.len() == 0 {
        Err(err(ReportMessage::MissingTypeQualifierChild, n.range))
    } else if child_at(n, 0).named && child_at(n, 0).kind@ == "alignas_qualifier"@ {
        Ok(DeclQualifierV::alignas(Seq::empty()))
    } else if n.text@ == "constexpr"@ {
        Ok(DeclQualifierV::constexpr)
    } else if n.text@ == "__extension__"@ {
        Ok(DeclQualifierV::extension)
    } else {
        Err(err(ReportMessage::UnknownDeclQualifier(n.text), child_at(n, 0).range))
    }
}

// ---------------------------------------------------------------------------------------------
// Declarations: types, declarators, parameters and fields, read by mutual recursion

/// The declaration specifiers collected from the children of a declaration, the positions of
/// its declarators, and its type.
pub struct DeclHead {
    pub modifiers: Seq<ModifierV>,
    pub typeQualifiers: Seq<TypeQualifier>,
    pub declQualifiers: Seq<DeclQualifierV>,
    pub functionQualifiers: Seq<FunctionQualifier>,
    pub declarators: Seq<int>,
    pub declaredType: Option<CTypeV>,
}

/// Reports put in front of what a reading reports.
pub open spec fn prefixed<T>(d: Seq<Report>, w: Walk<T>) -> Walk<T> {
    Walk { value: w.value, records: w.records, diags: d + w.diags, stuck: w.stuck }
}

/// The variables among recorded symbols: the members of a `struct` or `union`.
pub open spec fn member_variables(rs: Seq<RecordedV>) -> Seq<VariableV>
    decreases rs.len(),
{
    if rs.len() == 0 {
        Seq::empty()
    } else {
        let m = member_variables(rs.drop_last());
        match rs.last() {
            RecordedV::Symbol(SymbolV::variable(v), _) => m.push(v),
            _ => m,
        }
    }
}

/// The enumeration cases among what was recorded.
pub open spec fn enum_cases(rs: Seq<RecordedV>) -> Seq<(Seq<char>, Option<Seq<char>>)>
    decreases rs.len(),
{
    if rs.len() == 0 {
        Seq::empty()
    } else {
        let m = enum_cases(rs.drop_last());
        match rs.last() {
            RecordedV::EnumerationCase(n, v, _) => m.push((n, v)),
            _ => m,
        }
    }
}

/// The `__attribute__` attributes among modifiers.
pub open spec fn attributes_of(ms: Seq<ModifierV>) -> Seq<Seq<Seq<char>>>
    decreases ms.len(),
{
    if ms.len() == 0 {
        Seq::empty()
    } else {
        let a = attributes_of(ms.drop_last());
        match ms.last() {
            ModifierV::attribute(x) => a.push(x),
            _ => a,
        }
    }
}

/// A `struct` or `union` type with its members.
pub open spec fn container_type(is_struct: bool, c: ContainerV, members: Seq<VariableV>, quals: Seq<TypeQualifier>) -> CTypeV {
    let c2 = ContainerV { name: c.name, attributes: c.attributes, msSpecificModifiers: c.msSpecificModifiers, members };
    CTypeV {
        decl: Box::new(if is_struct { TypeDeclV::structure(c2) } else { TypeDeclV::union(c2) }),
        qualifiers: quals,
    }
}

/// A named type without size modifiers.
pub open spec fn named_type(n: NamedTypeV, quals: Seq<TypeQualifier>) -> CTypeV {
    CTypeV { decl: Box::new(TypeDeclV::named(n, Seq::empty())), qualifiers: quals }
}

/// The qualifiers and size modifiers of a `sized_type_specifier`, from the `k`-th child on,
/// added to the type `t`.
pub open spec fn sized_items(n: SyntaxNode, k: int, t: CTypeV, d: Seq<Report>) -> (CTypeV, Seq<Report>)
    decreases n.children@.len() - k,
{
    if 0 <= k < n.children@.len() {
        let c = child_at(n, k);
        if c.named {
            if c.kind@ == "type_qualifier"@ {
                match spec_type_qualifier_of(c.text@) {
                    Some(q) => sized_items(n, k + 1, CTypeV { decl: t.decl, qualifiers: t.qualifiers.push(q) }, d),
                    None => sized_items(n, k + 1, t, d.push(at(ReportMessage::InapplicablePointerQualifier(c.text), c.range))),
                }
            } else {
                sized_items(n, k + 1, t, d)
            }
        } else {
            match spec_size_modifier_of(c.text@) {
                Some(m) => match *t.decl {
                    TypeDeclV::named(nt, mods) => sized_items(n, k + 1,
                        CTypeV { decl: Box::new(TypeDeclV::named(nt, mods.push(m))), qualifiers: t.qualifiers }, d),
                    _ => sized_items(n, k + 1, t, d),
                },
                None => sized_items(n, k + 1, t, d.push(at(ReportMessage::UnexpectedQualifier(c.text, c.kind), c.range))),
            }
        }
    } else {
        (t, d)
    }
}

/// The type that a type specifier node denotes, with the given qualifiers.
pub open spec fn spec_type_from_ast(n: SyntaxNode, quals: Seq<TypeQualifier>) -> Walk<Result<CTypeV, SemaGenError>>
    decreases n, 3int, 0int,
{
    let k = n.kind@;
    if k == "struct_specifier"@ || k == "union_specifier"@ {
        let (h, d) = container_head(n);
        match h {
            Err(e) => done(Err(e), Seq::empty(), d),
            Ok((c, None)) => done(Ok(container_type(k == "struct_specifier"@, c, Seq::empty(), quals)), Seq::empty(), d),
            Ok((c, Some(b))) => if 0 <= b < n.children@.len() {
                proof { lemma_child_smaller(n, b); }
                let f = spec_field_items(child_at(n, b), 0, Seq::empty(), d);
                if f.stuck {
                    stuck()
                } else {
                    done(Ok(container_type(k == "struct_specifier"@, c, member_variables(f.records), quals)), Seq::empty(), f.diags)
                }
            } else {
                stuck()
            },
        }
    } else if k == "enum_specifier"@ {
        let (h, d) = enum_head(n);
        match h {
            Err(e) => done(Err(e), Seq::empty(), d),
            Ok((e, body)) => {
                let (cases, d2) = match body {
                    Some(b) => if 0 <= b < n.children@.len() {
                        let (rs, d2) = enum_items(child_at(n, b), 0, Seq::empty(), d);
                        (enum_cases(rs), d2)
                    } else {
                        (Seq::empty(), d)
                    },
                    None => (Seq::empty(), d),
                };
                let e2 = EnumV { name: e.name, attributes: e.attributes, underlyingType: e.underlyingType, cases };
                done(Ok(CTypeV { decl: Box::new(TypeDeclV::enumeration(e2)), qualifiers: quals }), Seq::empty(), d2)
            },
        }
    } else if k == "primitive_type"@ {
        match spec_primitive_type_of(n.text@) {
            Some(p) => done(Ok(named_type(NamedTypeV::primitive(p), quals)), Seq::empty(), Seq::empty()),
            None => done(Err(err(ReportMessage::UnknownPrimitiveType(n.text), n.range)), Seq::empty(), Seq::empty()),
        }
    } else if k == "identifier"@ || k == "type_identifier"@ {
        done(Ok(named_type(NamedTypeV::custom(n.text@), quals)), Seq::empty(), Seq::empty())
    } else if k == "sized_type_specifier"@ {
        let t0 = match field(n, "type"@) {
            Some(i) => if 0 <= i < n.children@.len() {
                proof { lemma_child_smaller(n, i); }
                spec_type_from_ast(child_at(n, i), quals)
            } else {
                stuck()
            },
            None => done(Ok(named_type(NamedTypeV::primitive(PrimitiveType::int_), Seq::empty())), Seq::empty(), Seq::empty()),
        };
        if t0.stuck {
            stuck()
        } else {
            match t0.value {
                Err(e) => done(Err(e), Seq::empty(), t0.diags),
                Ok(t) => {
                    let (t2, d2) = sized_items(n, 0, t, t0.diags);
                    done(Ok(t2), Seq::empty(), d2)
                },
            }
        }
    } else {
        done(Err(err(ReportMessage::UnknownDeclarator(n.kind), n.range)), Seq::empty(), Seq::empty())
    }
}

/// What the items of a field declaration list record and report, from the `k`-th child on.
pub open spec fn spec_field_items(n: SyntaxNode, k: int, rec: Seq<RecordedV>, d: Seq<Report>) -> Walk<()>
    decreases n, 0int, n.children@.len() - k,
{
    if 0 <= k < n.children@.len() {
        let c = child_at(n, k);
        if !c.named {
            spec_field_items(n, k + 1, rec, d)
        } else if c.kind@ == "field_declaration"@ {
            proof { lemma_child_smaller(n, k); }
            let w = spec_visit_decl(c, false);
            if w.stuck {
                stuck()
            } else {
                match w.value {
                    Ok(()) => spec_field_items(n, k + 1, rec + w.records, d + w.diags),
                    Err(e) => spec_field_items(n, k + 1, rec, (d + w.diags).push(reported(e))),
                }
            }
        } else if c.kind@ == "preproc_call"@ {
            spec_field_items(n, k + 1, rec, d.push(at(ReportMessage::PreprocessorCallIngored("in decl list"), c.range)))
        } else if c.kind@ == "comment"@ {
            spec_field_items(n, k + 1, rec, d)
        } else if is_comment_kind(c.kind@) {
            spec_field_items(n, k + 1, rec.push(RecordedV::Comment(c.text@, c.kind@.skip(8), c.range)), d)
        } else {
            spec_field_items(n, k + 1, rec, d.push(at(ReportMessage::UnknownFieldDeclListItem(c.kind), c.range)))
        }
    } else {
        done((), rec, d)
    }
}

/// The declaration specifiers, declarators and type among the children of a declaration, from
/// the `i`-th child on.
pub open spec fn decl_items(n: SyntaxNode, i: int, h: DeclHead, d: Seq<Report>) -> Walk<Result<DeclHead, SemaGenError>>
    decreases n, 2int, n.children@.len() - i,
{
    if 0 <= i < n.children@.len() {
        let c = child_at(n, i);
        match n.children@[i].0 {
            Some(f) => if f@ == "declarator"@ {
                decl_items(n, i + 1, DeclHead { declarators: h.declarators.push(i), ..h }, d)
            } else if f@ == "type"@ {
                if h.declaredType is Some {
                    done(Err(err(ReportMessage::DuplicateTypes, c.range)), Seq::empty(), d)
                } else {
                    proof { lemma_child_smaller(n, i); }
                    let t = spec_type_from_ast(c, Seq::empty());
                    if t.stuck {
                        stuck()
                    } else {
                        match t.value {
                            Err(e) => done(Err(e), Seq::empty(), d + t.diags),
                            Ok(tv) => decl_items(n, i + 1, DeclHead { declaredType: Some(tv), ..h }, d + t.diags),
                        }
                    }
                }
            } else {
                decl_items(n, i + 1, h, d)
            },
            None => if !c.named {
                decl_items(n, i + 1, h, d)
            } else if c.kind@ == "storage_class_specifier"@ {
                match spec_storage_of(c.text@) {
                    Some(st) => decl_items(n, i + 1, DeclHead { modifiers: h.modifiers.push(ModifierV::storage(st)), ..h }, d),
                    None => decl_items(n, i + 1, h, d),
                }
            } else if c.kind@ == "attribute_specifier"@ {
                match named_index(c.children@, 0) {
                    Some(j) => decl_items(n, i + 1,
                        DeclHead { modifiers: h.modifiers.push(ModifierV::attribute(args_of(child_at(c, j)))), ..h }, d),
                    None => decl_items(n, i + 1, h, d.push(at(ReportMessage::UnknownAttributeSpecifier, c.range))),
                }
            } else if c.kind@ == "type_qualifier"@ {
                match spec_type_qualifier_of(c.text@) {
                    Some(q) => decl_items(n, i + 1, DeclHead { typeQualifiers: h.typeQualifiers.push(q), ..h }, d),
                    None => match spec_declaration_qualifier(c) {
                        Ok(q) => decl_items(n, i + 1, DeclHead { declQualifiers: h.declQualifiers.push(q), ..h }, d),
                        Err(_) => match spec_function_qualifier_of(c.text@) {
                            Some(q) => decl_items(n, i + 1, DeclHead { functionQualifiers: h.functionQualifiers.push(q), ..h }, d),
                            None => decl_items(n, i + 1, h, d.push(unlocated(ReportMessage::InapplicableQualifier(c.text)))),
                        },
                    },
                }
            } else {
                decl_items(n, i + 1, h, d)
            },
        }
    } else {
        done(Ok(h), Seq::empty(), d)
    }
}

/// The Microsoft calling conventions among the declarators, from the `j`-th on.
pub open spec fn ms_call_mods(n: SyntaxNode, ds: Seq<int>, j: int, ms: Seq<MSCallModifier>, d: Seq<Report>)
    -> (Seq<MSCallModifier>, Seq<Report>)
    decreases ds.len() - j,
{
    if 0 <= j < ds.len() {
        if 0 <= ds[j] < n.children@.len() && child_at(n, ds[j]).kind@ == "ms_call_modifier"@ {
            let c = child_at(n, ds[j]);
            match spec_ms_call_modifier_of(c.text@) {
                Some(m) => ms_call_mods(n, ds, j + 1, ms.push(m), d),
                None => ms_call_mods(n, ds, j + 1, ms, d.push(at(ReportMessage::UnknownCallModifier(c.text), c.range))),
            }
        } else {
            ms_call_mods(n, ds, j + 1, ms, d)
        }
    } else {
        (ms, d)
    }
}

/// What a declaration records: a symbol for each of its declarators.
/// What a declaration specifies before its children are read: `__extension__` in front of a
/// type definition.
pub open spec fn decl_start(n: SyntaxNode, is_typedef: bool) -> DeclHead {
    let q0 = if is_typedef && n.children@.len() > 0 && child_at(n, 0).text@ == "__extension__"@ {
        seq![DeclQualifierV::extension]
    } else {
        Seq::empty()
    };
    DeclHead {
        modifiers: Seq::empty(),
        typeQualifiers: Seq::empty(),
        declQualifiers: q0,
        functionQualifiers: Seq::empty(),
        declarators: Seq::empty(),
        declaredType: None,
    }
}

pub open spec fn spec_visit_decl(n: SyntaxNode, is_typedef: bool) -> Walk<Result<(), SemaGenError>>
    decreases n, 3int, 0int,
{
    let w = decl_items(n, 0, decl_start(n, is_typedef), Seq::empty());
    if w.stuck {
        stuck()
    } else {
        match w.value {
            Err(e) => done(Err(e), Seq::empty(), w.diags),
            Ok(h) => match h.declaredType {
                None => done(Err(err(ReportMessage::DeclMissingType(n.kind), n.range)), Seq::empty(), w.diags),
                Some(t) => {
                    let ty = CTypeV { decl: t.decl, qualifiers: h.typeQualifiers };
                    if h.declarators.len() == 0 {
                        let v = VariableV {
                            modifiers: h.modifiers,
                            qualifiers: h.declQualifiers,
                            cType: ty,
                            identifier: None,
                            attachedExpression: None,
                        };
                        done(Ok(()), seq![RecordedV::Symbol(SymbolV::variable(v), n.range)],
                            w.diags.push(unlocated(ReportMessage::MissingAnyDeclarators(n.kind))))
                    } else {
                        let (ms, d1) = ms_call_mods(n, h.declarators, 0, Seq::empty(), w.diags);
                        spec_declarators(n, is_typedef, h, ty, ms, 0, Seq::empty(), d1)
                    }
                },
            },
        }
    }
}

/// The symbols of the declarators of a declaration, from the `j`-th on.
pub open spec fn spec_declarators(n: SyntaxNode, is_typedef: bool, h: DeclHead, ty: CTypeV, ms: Seq<MSCallModifier>,
    j: int, rec: Seq<RecordedV>, d: Seq<Report>) -> Walk<Result<(), SemaGenError>>
    decreases n, 1int, h.declarators.len() - j,
{
    if 0 <= j < h.declarators.len() {
        let i = h.declarators[j];
        if 0 <= i < n.children@.len() {
            let dn = child_at(n, i);
            let sibling = if i + 1 < n.children@.len() { Some(child_at(n, i + 1)) } else { None };
            proof { lemma_child_smaller(n, i); }
            let s = spec_symbol_from_declarator(dn, sibling, h.modifiers, h.functionQualifiers, h.declQualifiers, ms, ty, is_typedef);
            if s.stuck {
                stuck()
            } else {
                match s.value {
                    Ok(sym) => spec_declarators(n, is_typedef, h, ty, ms, j + 1, rec.push(RecordedV::Symbol(sym, n.range)), d + s.diags),
                    Err(e) => spec_declarators(n, is_typedef, h, ty, ms, j + 1, rec,
                        (d + s.diags).push(Report { message: ReportMessage::SemGenFailed(dn.kind, Box::new(e)), location: Some(e.location) })),
                }
            }
        } else {
            stuck()
        }
    } else {
        done(Ok(()), rec, d)
    }
}

/// The symbol that a declarator declares, given what its declaration specifies and the node
/// that follows it (a bit field clause gives a variable its width).
pub open spec fn spec_symbol_from_declarator(dn: SyntaxNode, sibling: Option<SyntaxNode>, mods: Seq<ModifierV>,
    fq: Seq<FunctionQualifier>, dq: Seq<DeclQualifierV>, ms: Seq<MSCallModifier>, ty: CTypeV, is_typedef: bool)
    -> Walk<Result<SymbolV, SemaGenError>>
    decreases dn, 4int, 0int,
{
    let (att, d0) = match sibling {
        Some(s) => if s.kind@ == "bitfield_clause"@ {
            match named_index(s.children@, 0) {
                Some(j) => (Some(AttachedV::bitWidth(child_at(s, j).text@)), Seq::empty()),
                None => (None, seq![at(ReportMessage::MissingBitfieldClauseExpr, s.range)]),
            }
        } else {
            (None, Seq::empty())
        },
        None => (None, Seq::empty()),
    };
    prefixed(d0, spec_declarator_chain(dn, dn.range, mods, fq, dq, ms, ty, is_typedef, att))
}

/// Where a chain of declarators ends without an identifier: an anonymous variable, or, in a
/// type definition, an error.
pub open spec fn anonymous_end(range: Location, mods: Seq<ModifierV>, dq: Seq<DeclQualifierV>, ty: CTypeV,
    is_typedef: bool, att: Option<AttachedV>) -> Walk<Result<SymbolV, SemaGenError>>
{
    if is_typedef {
        done(Err(err(ReportMessage::MissingTypedefIdentifier, range)), Seq::empty(), Seq::empty())
    } else {
        done(Ok(SymbolV::variable(VariableV { modifiers: mods, qualifiers: dq, cType: ty, identifier: None, attachedExpression: att })),
            Seq::empty(), Seq::empty())
    }
}

/// The first named child of a kind, from the `k`-th child on.
pub open spec fn first_named_of_kind(n: SyntaxNode, k: int, kind: Seq<char>) -> Option<int>
    decreases n.children@.len() - k,
{
    if 0 <= k < n.children@.len() {
        if child_at(n, k).named && child_at(n, k).kind@ == kind {
            Some(k)
        } else {
            first_named_of_kind(n, k + 1, kind)
        }
    } else {
        None
    }
}

/// The standard attributes of one `attribute_declaration`, from its `k`-th child on.
pub open spec fn attribute_items(n: SyntaxNode, k: int, mods: Seq<ModifierV>) -> Result<Seq<ModifierV>, SemaGenError>
    decreases n.children@.len() - k,
{
    if 0 <= k < n.children@.len() {
        let a = child_at(n, k);
        if a.kind@ == "attribute"@ {
            match field(a, "name"@) {
                None => Err(err(ReportMessage::MissingStandardAttributeIdentifier, a.range)),
                Some(ni) => {
                    let args = match first_named_of_kind(a, 0, "argument_list"@) {
                        Some(li) => args_of(child_at(a, li)),
                        None => Seq::empty(),
                    };
                    attribute_items(n, k + 1,
                        mods.push(ModifierV::standardAttribute(field_text(a, "prefix"@), child_at(a, ni).text@, args)))
                },
            }
        } else {
            attribute_items(n, k + 1, mods)
        }
    } else {
        Ok(mods)
    }
}

/// The standard attributes of an `attributed_declarator`, from its `k`-th child on.
pub open spec fn standard_attributes(n: SyntaxNode, k: int, mods: Seq<ModifierV>) -> Result<Seq<ModifierV>, SemaGenError>
    decreases n.children@.len() - k,
{
    if 0 <= k < n.children@.len() {
        let c = child_at(n, k);
        if c.kind@ == "attribute_declaration"@ {
            match attribute_items(c, 0, mods) {
                Ok(m2) => standard_attributes(n, k + 1, m2),
                Err(e) => Err(e),
            }
        } else {
            standard_attributes(n, k + 1, mods)
        }
    } else {
        Ok(mods)
    }
}

/// The qualifiers behind a `*`, from the `k`-th child on.
pub open spec fn pointer_items(n: SyntaxNode, k: int, tq: Seq<TypeQualifier>, pq: Seq<PointerQualifier>, d: Seq<Report>)
    -> (Seq<TypeQualifier>, Seq<PointerQualifier>, Seq<Report>)
    decreases n.children@.len() - k,
{
    if 0 <= k < n.children@.len() {
        let c = child_at(n, k);
        if c.kind@ == "type_qualifier"@ {
            match spec_type_qualifier_of(c.text@) {
                Some(q) => pointer_items(n, k + 1, tq.push(q), pq, d),
                None => match spec_pointer_qualifier_of(c.text@) {
                    Some(q) => pointer_items(n, k + 1, tq, pq.push(q), d),
                    None => pointer_items(n, k + 1, tq, pq, d.push(at(ReportMessage::InapplicablePointerQualifier(c.text), c.range))),
                },
            }
        } else {
            pointer_items(n, k + 1, tq, pq, d)
        }
    } else {
        (tq, pq, d)
    }
}

/// The Microsoft pointer modifier numbered as `from_ast_name` numbers them.
pub open spec fn ms_pointer_code_view(code: u8) -> MSPointerModifierV {
    if code == 0 {
        MSPointerModifierV::unaligned
    } else if code == 1 {
        MSPointerModifierV::restrict
    } else if code == 2 {
        MSPointerModifierV::unsigned
    } else {
        MSPointerModifierV::signed
    }
}

/// The Microsoft pointer modifiers among the `ms_pointer_modifier` children whose text names
/// one, from the `k`-th child on.
pub open spec fn ms_pointer_items(n: SyntaxNode, k: int, m: Seq<MSPointerModifierV>) -> Seq<MSPointerModifierV>
    decreases n.children@.len() - k,
{
    if 0 <= k < n.children@.len() {
        let c = child_at(n, k);
        if c.kind@ == "ms_pointer_modifier"@ {
            match spec_ms_pointer_node_kind(c.text@) {
                Some(code) => ms_pointer_items(n, k + 1, m.push(ms_pointer_code_view(code))),
                None => ms_pointer_items(n, k + 1, m),
            }
        } else {
            ms_pointer_items(n, k + 1, m)
        }
    } else {
        m
    }
}

/// The qualifiers in array brackets, from the `k`-th child on.
pub open spec fn array_items(n: SyntaxNode, k: int, tq: Seq<TypeQualifier>, aq: Seq<ArrayQualifier>, d: Seq<Report>)
    -> (Seq<TypeQualifier>, Seq<ArrayQualifier>, Seq<Report>)
    decreases n.children@.len() - k,
{
    if 0 <= k < n.children@.len() {
        let c = child_at(n, k);
        if c.kind@ == "type_qualifier"@ {
            match spec_type_qualifier_of(c.text@) {
                Some(q) => array_items(n, k + 1, tq.push(q), aq, d),
                None => match spec_array_qualifier_of(c.text@) {
                    Some(q) => array_items(n, k + 1, tq, aq.push(q), d),
                    None => array_items(n, k + 1, tq, aq, d.push(at(ReportMessage::InapplicableQualifier(c.text), c.range))),
                },
            }
        } else {
            array_items(n, k + 1, tq, aq, d)
        }
    } else {
        (tq, aq, d)
    }
}

/// Goes on along the chain of declarators into the child in the field `declarator`, if there
/// is one, with the reports so far in front.
pub open spec fn chain_next(cur: SyntaxNode, range: Location, mods: Seq<ModifierV>, fq: Seq<FunctionQualifier>,
    dq: Seq<DeclQualifierV>, ms: Seq<MSCallModifier>, ty: CTypeV, is_typedef: bool, att: Option<AttachedV>,
    d: Seq<Report>) -> Walk<Result<SymbolV, SemaGenError>>
    decreases cur, 2int, 0int,
{
    match field(cur, "declarator"@) {
        Some(x) => if 0 <= x < cur.children@.len() {
            proof { lemma_child_smaller(cur, x); }
            prefixed(d, spec_declarator_chain(child_at(cur, x), range, mods, fq, dq, ms, ty, is_typedef, att))
        } else {
            stuck()
        },
        None => prefixed(d, anonymous_end(range, mods, dq, ty, is_typedef, att)),
    }
}

/// What a chain of declarators declares, walked from `cur` inwards, given the type and the
/// modifiers collected so far; `range` is that of the outermost declarator.
pub open spec fn spec_declarator_chain(cur: SyntaxNode, range: Location, mods: Seq<ModifierV>, fq: Seq<FunctionQualifier>,
    dq: Seq<DeclQualifierV>, ms: Seq<MSCallModifier>, ty: CTypeV, is_typedef: bool, att: Option<AttachedV>)
    -> Walk<Result<SymbolV, SemaGenError>>
    decreases cur, 3int, 0int,
{
    let k = cur.kind@;
    let len = cur.children@.len();
    if k == "init_declarator"@ {
        match field(cur, "declarator"@) {
            None => done(Err(err(ReportMessage::MissingInnerDeclarator(cur.kind), cur.range)), Seq::empty(), Seq::empty()),
            Some(x) => if att is Some {
                let d = if att matches Some(AttachedV::bitWidth(_)) {
                    seq![at(ReportMessage::InitializerAndBitfieldClause, cur.range)]
                } else {
                    Seq::empty()
                };
                done(Err(err(ReportMessage::DuplicateInitializer, cur.range)), Seq::empty(), d)
            } else {
                match field(cur, "value"@) {
                    None => done(Err(err(ReportMessage::MissingValue(cur.kind), cur.range)), Seq::empty(), Seq::empty()),
                    Some(v) => if 0 <= x < len {
                        proof { lemma_child_smaller(cur, x); }
                        spec_declarator_chain(child_at(cur, x), range, mods, fq, dq, ms, ty, is_typedef,
                            Some(AttachedV::value(child_at(cur, v).text@)))
                    } else {
                        stuck()
                    },
                }
            },
        }
    } else if k == "attributed_declarator"@ {
        if len == 0 {
            done(Err(err(ReportMessage::MissingInnerDeclarator(cur.kind), cur.range)), Seq::empty(), Seq::empty())
        } else {
            match standard_attributes(cur, 0, mods) {
                Err(e) => done(Err(e), Seq::empty(), Seq::empty()),
                Ok(m2) => {
                    proof { lemma_child_smaller(cur, 0); }
                    spec_declarator_chain(child_at(cur, 0), range, m2, fq, dq, ms, ty, is_typedef, att)
                },
            }
        }
    } else if k == "pointer_declarator"@ || k == "abstract_pointer_declarator"@ {
        let (tq, pq, d1) = pointer_items(cur, 0, Seq::empty(), Seq::empty(), Seq::empty());
        let m0 = ms_pointer_items(cur, 0, Seq::empty());
        let based = len > 0 && child_at(cur, 0).kind@ == "ms_based_modifier"@;
        let first = child_at(cur, 0);
        if based && first.children@.len() < 2 {
            done(Err(err(ReportMessage::MissingArgumentList, first.range)), Seq::empty(), d1)
        } else if based && child_at(first, 1).kind@ != "argument_list"@ {
            stuck()
        } else {
            let m1 = if based { m0.push(MSPointerModifierV::based(args_of(child_at(first, 1)))) } else { m0 };
            let ty2 = CTypeV {
                decl: Box::new(TypeDeclV::pointer(PointerV { msSpecificModifiers: m1, qualifiers: pq, pointeeType: ty })),
                qualifiers: tq,
            };
            chain_next(cur, range, mods, fq, dq, ms, ty2, is_typedef, att, d1)
        }
    } else if k == "array_declarator"@ || k == "abstract_array_declarator"@ {
        let (tq, aq, d1) = array_items(cur, 0, Seq::empty(), Seq::empty(), Seq::empty());
        let ty2 = CTypeV {
            decl: Box::new(TypeDeclV::array(ArrayV { count: field_text(cur, "size"@), elementType: ty, qualifiers: aq })),
            qualifiers: tq,
        };
        chain_next(cur, range, mods, fq, dq, ms, ty2, is_typedef, att, d1)
    } else if k == "parenthesized_declarator"@ || k == "abstract_parenthesized_declarator"@ {
        let cnt = count_named(cur.children@);
        if cnt == 0 {
            done(Err(err(ReportMessage::MissingInnerDeclarator(cur.kind), cur.range)), Seq::empty(), Seq::empty())
        } else {
            match named_index(cur.children@, cnt - 1) {
                Some(x) => if 0 <= x < len {
                    proof { lemma_child_smaller(cur, x); }
                    spec_declarator_chain(child_at(cur, x), range, mods, fq, dq, ms, ty, is_typedef, att)
                } else {
                    stuck()
                },
                None => stuck(),
            }
        }
    } else if k == "function_declarator"@ || k == "abstract_function_declarator"@ {
        let p = match field(cur, "parameters"@) {
            Some(l) => if 0 <= l < len {
                proof { lemma_child_smaller(cur, l); }
                spec_parameters(child_at(cur, l), 0, Seq::empty(), Seq::empty())
            } else {
                stuck()
            },
            None => done(Seq::empty(), Seq::empty(), Seq::empty()),
        };
        if p.stuck {
            stuck()
        } else {
            let f = FunctionV {
                modifiers: mods,
                functionQualifiers: fq,
                declQualifiers: dq,
                returnType: ty,
                msSpecifcModifiers: ms,
                parameters: p.value,
                hasInlineAssembly: false,
                name: None,
            };
            let ty2 = CTypeV { decl: Box::new(TypeDeclV::function(f)), qualifiers: Seq::empty() };
            chain_next(cur, range, mods, fq, dq, ms, ty2, is_typedef, att, p.diags)
        }
    } else if k == "identifier"@ || k == "field_identifier"@ || k == "type_identifier"@ {
        if !is_typedef && k == "type_identifier"@ {
            stuck()
        } else {
            let id = cur.text@;
            match *ty.decl {
                TypeDeclV::function(f) => done(Ok(SymbolV::function(FunctionV { name: Some(id), ..f })), Seq::empty(), Seq::empty()),
                _ => if is_typedef {
                    done(Ok(SymbolV::typeDefinition(TypeDefinitionV {
                        qualifiers: dq,
                        name: id,
                        originalType: ty,
                        attributes: attributes_of(mods),
                    })), Seq::empty(), Seq::empty())
                } else {
                    done(Ok(SymbolV::variable(VariableV {
                        modifiers: mods,
                        qualifiers: dq,
                        cType: ty,
                        identifier: Some(id),
                        attachedExpression: att,
                    })), Seq::empty(), Seq::empty())
                },
            }
        }
    } else {
        done(Err(err(ReportMessage::UnknownDeclarator(cur.kind), cur.range)), Seq::empty(), Seq::empty())
    }
}

/// The parameters of a parameter list, from the `k`-th child on: each `parameter_declaration`
/// that reads as a parameter; the others are reported.
pub open spec fn spec_parameters(n: SyntaxNode, k: int, ps: Seq<ParameterV>, d: Seq<Report>) -> Walk<Seq<ParameterV>>
    decreases n, 0int, n.children@.len() - k,
{
    if 0 <= k < n.children@.len() {
        let c = child_at(n, k);
        if c.kind@ == "parameter_declaration"@ {
            proof { lemma_child_smaller(n, k); }
            let w = spec_parameter_from_ast(c);
            if w.stuck {
                stuck()
            } else {
                match w.value {
                    Ok(p) => spec_parameters(n, k + 1, ps.push(p), d + w.diags),
                    Err(e) => spec_parameters(n, k + 1, ps, (d + w.diags).push(reported(e))),
                }
            }
        } else {
            spec_parameters(n, k + 1, ps, d)
        }
    } else {
        done(ps, Seq::empty(), d)
    }
}

/// The parameter that a parameter declaration declares: exactly one variable.
pub open spec fn spec_parameter_from_ast(p: SyntaxNode) -> Walk<Result<ParameterV, SemaGenError>>
    decreases p, 4int, 0int,
{
    if p.kind@ == "parameter_declaration"@ {
        let w = spec_visit_decl(p, false);
        if w.stuck {
            stuck()
        } else {
            match w.value {
                Err(e) => done(Err(e), Seq::empty(), w.diags),
                Ok(()) => {
                    let weird = done(Err(err(ReportMessage::WeirdFunctionParameter, p.range)), Seq::empty(), w.diags);
                    if w.records.len() == 1 {
                        match w.records[0] {
                            RecordedV::Symbol(SymbolV::variable(v), _) => done(Ok(ParameterV::regular(v)), Seq::empty(), w.diags),
                            _ => weird,
                        }
                    } else {
                        weird
                    }
                },
            }
        }
    } else if p.kind@ == "variadic_parameter"@ {
        done(Ok(ParameterV::variadic(None)), Seq::empty(), Seq::empty())
    } else {
        done(Err(err(ReportMessage::UnsupportedFunctionParameterDecl(p.kind), p.range)), Seq::empty(), Seq::empty())
    }
}

// ---------------------------------------------------------------------------------------------
// Translation units: the top level and conditional preprocessor content

/// Whether a system header path can be taken out of its angle brackets: it has at least two
/// characters, and the first and the last are ASCII.
pub open spec fn system_path_ok(t: Seq<char>) -> bool {
    t.len() >= 2 && (t[0] as u32) < 128 && (t[t.len() - 1] as u32) < 128
}

/// What a `struct`, `union` or `enum` at the top level records and reports: the type without
/// members, then what its body holds.
pub open spec fn top_level_type(c: SyntaxNode, rec: Seq<RecordedV>, d: Seq<Report>) -> Walk<()> {
    let k = c.kind@;
    if k == "enum_specifier"@ {
        match enum_head(c) {
            (Err(e), hd) => done((), rec, (d + hd).push(unlocated(ReportMessage::SemGenFailed(c.kind, Box::new(e))))),
            (Ok((e, body)), hd) => {
                let rec1 = rec.push(RecordedV::Symbol(SymbolV::enumeration(e), c.range));
                match body {
                    Some(b) => if 0 <= b < c.children@.len() {
                        let (r2, d2) = enum_items(child_at(c, b), 0, rec1, d + hd);
                        done((), r2, d2)
                    } else {
                        stuck()
                    },
                    None => done((), rec1, d + hd),
                }
            },
        }
    } else {
        match container_head(c) {
            (Err(e), hd) => done((), rec, (d + hd).push(unlocated(ReportMessage::SemGenFailed(c.kind, Box::new(e))))),
            (Ok((ct, body)), hd) => {
                let sym = if k == "struct_specifier"@ { SymbolV::structure(ct) } else { SymbolV::union(ct) };
                let rec1 = rec.push(RecordedV::Symbol(sym, c.range));
                match body {
                    Some(b) => if 0 <= b < c.children@.len() {
                        spec_field_items(child_at(c, b), 0, rec1, d + hd)
                    } else {
                        stuck()
                    },
                    None => done((), rec1, d + hd),
                }
            },
        }
    }
}

/// What the children of a node record and report as top-level declarations, from the `k`-th
/// child on.
pub open spec fn spec_scope_items(defines: Seq<(String, isize)>, ignore_guards: bool, n: SyntaxNode, k: int,
    rec: Seq<RecordedV>, d: Seq<Report>) -> Walk<()>
    decreases n, 0int, n.children@.len() - k,
{
    if 0 <= k < n.children@.len() {
        let c = child_at(n, k);
        let kind = c.kind@;
        proof { lemma_child_smaller(n, k); }
        let step: Walk<()> = if !c.named {
            done((), rec, d.push(at(ReportMessage::ScopeChildIngored(c.kind), c.range)))
        } else if kind == "preproc_include"@ {
            match field(c, "path"@) {
                None => done((), rec, d.push(at(ReportMessage::PreprocessorMissingIncludePath, c.range))),
                Some(pi) => {
                    let path = child_at(c, pi);
                    if path.kind@ == "system_lib_string"@ {
                        if system_path_ok(path.text@) {
                            done((), rec.push(RecordedV::Include(true, path.text@.subrange(1, path.text@.len() - 1))), d)
                        } else {
                            stuck()
                        }
                    } else if path.kind@ == "string_literal"@ {
                        if path.children@.len() < 2 {
                            done((), rec, d.push(at(ReportMessage::PreprocessorMissingIncludePathLocal, path.range)))
                        } else {
                            done((), rec.push(RecordedV::Include(false, child_at(path, 1).text@)), d)
                        }
                    } else {
                        done((), rec, d)
                    }
                },
            }
        } else if kind == "preproc_if"@ || kind == "preproc_ifdef"@ {
            let w = if kind == "preproc_if"@ {
                spec_conditional_content(defines, ignore_guards, c)
            } else {
                spec_if_defined_content(defines, ignore_guards, c)
            };
            if w.stuck {
                stuck()
            } else {
                match w.value {
                    Ok(()) => done((), rec + w.records, d + w.diags),
                    Err(e) => done((), rec + w.records, (d + w.diags).push(
                        unlocated(ReportMessage::ConditionalPreprocessorContentResolvingFailure(c.kind, Box::new(e))))),
                }
            }
        } else if kind == "preproc_def"@ || kind == "preproc_function_def"@ || kind == "declaration"@
            || kind == "function_definition"@ || kind == "type_definition"@ {
            let w = if kind == "preproc_def"@ || kind == "preproc_function_def"@ {
                spec_macro_definition(ignore_guards, c)
            } else {
                spec_visit_decl(c, kind == "type_definition"@)
            };
            if w.stuck {
                stuck()
            } else {
                match w.value {
                    Ok(()) => done((), rec + w.records, d + w.diags),
                    Err(e) => done((), rec + w.records, (d + w.diags).push(unlocated(ReportMessage::SemGenFailed(c.kind, Box::new(e))))),
                }
            }
        } else if kind == "struct_specifier"@ || kind == "union_specifier"@ || kind == "enum_specifier"@ {
            top_level_type(c, rec, d)
        } else if kind == "comment"@ {
            done((), rec, d)
        } else if is_comment_kind(kind) {
            done((), rec.push(RecordedV::Comment(c.text@, kind.skip(8), c.range)), d)
        } else {
            done((), rec, d)
        };
        if step.stuck {
            stuck()
        } else {
            spec_scope_items(defines, ignore_guards, n, k + 1, step.records, step.diags)
        }
    } else {
        done((), rec, d)
    }
}

/// What the children of a node record and report as top-level declarations.
pub open spec fn spec_gen_sema(defines: Seq<(String, isize)>, ignore_guards: bool, n: SyntaxNode) -> Walk<()>
    decreases n, 1int, 0int,
{
    spec_scope_items(defines, ignore_guards, n, 0, Seq::empty(), Seq::empty())
}

/// What the named children of a conditional branch record and report, all but the first (the
/// condition) and but nested `#elif` and `#else`, from the `k`-th child on.
pub open spec fn spec_branch_items(defines: Seq<(String, isize)>, ignore_guards: bool, n: SyntaxNode, k: int,
    seen_first: bool, rec: Seq<RecordedV>, d: Seq<Report>) -> Walk<()>
    decreases n, 1int, n.children@.len() - k,
{
    if 0 <= k < n.children@.len() {
        let c = child_at(n, k);
        if !c.named {
            spec_branch_items(defines, ignore_guards, n, k + 1, seen_first, rec, d)
        } else if !seen_first || c.kind@ == "preproc_elif"@ || c.kind@ == "preproc_else"@ {
            spec_branch_items(defines, ignore_guards, n, k + 1, true, rec, d)
        } else {
            proof { lemma_child_smaller(n, k); }
            let g = spec_gen_sema(defines, ignore_guards, c);
            if g.stuck {
                stuck()
            } else {
                spec_branch_items(defines, ignore_guards, n, k + 1, true, rec + g.records, d + g.diags)
            }
        }
    } else {
        done((), rec, d)
    }
}

/// What a `#if` or `#elif` records and reports: the branch whose condition holds, or else the
/// alternative.
pub open spec fn spec_conditional_content(defines: Seq<(String, isize)>, ignore_guards: bool, n: SyntaxNode)
    -> Walk<Result<(), SemaGenError>>
    decreases n, 2int, 0int,
{
    match field(n, "condition"@) {
        None => done(Err(err(ReportMessage::MissingCondition, n.range)), Seq::empty(), Seq::empty()),
        Some(ci) => if 0 <= ci < n.children@.len() {
            match eval_pp(defines, child_at(n, ci)) {
                PPOutcome::Panic => stuck(),
                PPOutcome::Failure(m, l) => done(Err(SemaGenError { message: m, location: l }), Seq::empty(), Seq::empty()),
                PPOutcome::Value(v) => {
                    let branch = spec_branch_items(defines, ignore_guards, n, 0, false, Seq::empty(), Seq::empty());
                    let taken = Walk { value: Ok(()), records: branch.records, diags: branch.diags, stuck: branch.stuck };
                    if v != 0 {
                        taken
                    } else {
                        match field(n, "alternative"@) {
                            None => done(Ok(()), Seq::empty(), Seq::empty()),
                            Some(ai) => if 0 <= ai < n.children@.len() {
                                let alt = child_at(n, ai);
                                if alt.kind@ == "preproc_elif"@ {
                                    proof { lemma_child_smaller(n, ai); }
                                    spec_conditional_content(defines, ignore_guards, alt)
                                } else if alt.kind@ == "preproc_else"@ {
                                    taken
                                } else {
                                    done(Err(err(ReportMessage::MissingAlternative(alt.kind), alt.range)), Seq::empty(), Seq::empty())
                                }
                            } else {
                                stuck()
                            },
                        }
                    }
                },
            }
        } else {
            stuck()
        },
    }
}

/// What a `#ifdef` or `#ifndef` records and reports: its content where the condition holds,
/// and otherwise that it was left out.
pub open spec fn spec_if_defined_content(defines: Seq<(String, isize)>, ignore_guards: bool, n: SyntaxNode)
    -> Walk<Result<(), SemaGenError>>
    decreases n, 2int, 0int,
{
    if n.children@.len() == 0 {
        done(Err(err(ReportMessage::MissingDirective, n.range)), Seq::empty(), Seq::empty())
    } else {
        let directive = child_at(n, 0);
        let s = directive.text@;
        match field(n, "name"@) {
            None => done(Err(err(ReportMessage::PreprocessorMissingIdentifier, directive.range)), Seq::empty(), Seq::empty()),
            Some(ni) => {
                let id = child_at(n, ni);
                let defined = define_value(defines, id.text@) is Some;
                let (met, d0) = if ends_with(s, "ifdef"@) {
                    (defined, Seq::empty())
                } else if ends_with(s, "ifndef"@) {
                    (!defined, Seq::empty())
                } else {
                    (defined, seq![at(ReportMessage::UnknownConditionalPreprocessorDirective(directive.text), id.range)])
                };
                if met {
                    let g = spec_gen_sema(defines, ignore_guards, n);
                    Walk { value: Ok(()), records: g.records, diags: d0 + g.diags, stuck: g.stuck }
                } else {
                    done(Ok(()), Seq::empty(),
                        d0.push(at(ReportMessage::UnsatisfiedPreprocessorCondition(directive.text, id.text), directive.range)))
                }
            },
        }
    }
}


/// An `#if` or `#elif` reads its branch exactly where its condition is true: with a true
/// condition it records what its branch records; with a false one and no alternative it records
/// nothing and succeeds.
pub proof fn law_conditional_branch_follows_condition(defines: Seq<(String, isize)>, ignore_guards: bool, n: SyntaxNode, ci: int, v: int)
    requires
        field(n, "condition"@) == Some(ci),
        0 <= ci < n.children@.len(),
        eval_pp(defines, child_at(n, ci)) == PPOutcome::Value(v),
    ensures
        v != 0 ==> spec_conditional_content(defines, ignore_guards, n).records
            == spec_branch_items(defines, ignore_guards, n, 0, false, Seq::empty(), Seq::empty()).records,
        v == 0 && field(n, "alternative"@) is None ==> spec_conditional_content(defines, ignore_guards, n).records.len() == 0
            && spec_conditional_content(defines, ignore_guards, n).value is Ok,
{
}

/// An `#ifdef` reads its content exactly where its name is defined, and an `#ifndef` exactly where
/// it is not; where it does not, nothing is recorded.
pub proof fn law_if_defined_follows_defines(defines: Seq<(String, isize)>, ignore_guards: bool, n: SyntaxNode, ni: int)
    requires
        n.children@.len() > 0,
        field(n, "name"@) == Some(ni),
    ensures
        ({
            let directive = child_at(n, 0).text@;
            let defined = exists|i: int| 0 <= i < defines.len() && (#[trigger] defines[i]).0@ == child_at(n, ni).text@;
            let w = spec_if_defined_content(defines, ignore_guards, n);
            &&& (ends_with(directive, "ifdef"@) ==> (defined ==> w.records == spec_gen_sema(defines, ignore_guards, n).records)
                && (!defined ==> w.records.len() == 0))
            &&& (ends_with(directive, "ifndef"@) && !ends_with(directive, "ifdef"@)
                ==> (!defined ==> w.records == spec_gen_sema(defines, ignore_guards, n).records)
                && (defined ==> w.records.len() == 0))
        }),
{
    crate::frontend::c::sema_gen::law_define_lookup(defines, child_at(n, ni).text@);
}

/// The symbols of declarators are read one by one: reading them never fails as a whole.
pub proof fn lemma_declarators_ok(n: SyntaxNode, is_typedef: bool, h: DeclHead, ty: CTypeV, ms: Seq<MSCallModifier>,
    j: int, rec: Seq<RecordedV>, d: Seq<Report>)
    ensures
        !spec_declarators(n, is_typedef, h, ty, ms, j, rec, d).stuck ==> spec_declarators(n, is_typedef, h, ty, ms, j, rec, d).value is Ok,
    decreases h.declarators.len() - j,
{
    if 0 <= j < h.declarators.len() {
        let i = h.declarators[j];
        if 0 <= i < n.children@.len() {
            let dn = child_at(n, i);
            let sibling = if i + 1 < n.children@.len() { Some(child_at(n, i + 1)) } else { None };
            let s = spec_symbol_from_declarator(dn, sibling, h.modifiers, h.functionQualifiers, h.declQualifiers, ms, ty, is_typedef);
            if !s.stuck {
                match s.value {
                    Ok(sym) => lemma_declarators_ok(n, is_typedef, h, ty, ms, j + 1, rec.push(RecordedV::Symbol(sym, n.range)), d + s.diags),
                    Err(e) => lemma_declarators_ok(n, is_typedef, h, ty, ms, j + 1, rec,
                        (d + s.diags).push(Report { message: ReportMessage::SemGenFailed(dn.kind, Box::new(e)), location: Some(e.location) })),
                }
            }
        }
    }
}

/// A declaration that cannot be read records nothing.
pub proof fn lemma_visit_decl_err_records(n: SyntaxNode, is_typedef: bool)
    ensures
        !spec_visit_decl(n, is_typedef).stuck && spec_visit_decl(n, is_typedef).value is Err
            ==> spec_visit_decl(n, is_typedef).records == Seq::<RecordedV>::empty(),
{
    let w = decl_items(n, 0, decl_start(n, is_typedef), Seq::empty());
    if !w.stuck {
        match w.value {
            Ok(h) => match h.declaredType {
                Some(t) => {
                    if h.declarators.len() != 0 {
                        let ty = CTypeV { decl: t.decl, qualifiers: h.typeQualifiers };
                        let (ms, d1) = ms_call_mods(n, h.declarators, 0, Seq::empty(), w.diags);
                        lemma_declarators_ok(n, is_typedef, h, ty, ms, 0, Seq::empty(), d1);
                    }
                },
                None => {},
            },
            Err(_) => {},
        }
    }
}


/// Going on along a chain of declarators does not depend on what was reported before.
pub proof fn lemma_chain_next_prefix(cur: SyntaxNode, range: Location, mods: Seq<ModifierV>, fq: Seq<FunctionQualifier>,
    dq: Seq<DeclQualifierV>, ms: Seq<MSCallModifier>, ty: CTypeV, is_typedef: bool, att: Option<AttachedV>, d: Seq<Report>)
    ensures
        chain_next(cur, range, mods, fq, dq, ms, ty, is_typedef, att, d).stuck
            == chain_next(cur, range, mods, fq, dq, ms, ty, is_typedef, att, Seq::empty()).stuck,
        chain_next(cur, range, mods, fq, dq, ms, ty, is_typedef, att, d).value
            == chain_next(cur, range, mods, fq, dq, ms, ty, is_typedef, att, Seq::empty()).value,
        !chain_next(cur, range, mods, fq, dq, ms, ty, is_typedef, att, d).stuck ==>
            chain_next(cur, range, mods, fq, dq, ms, ty, is_typedef, att, d).diags
                == d + chain_next(cur, range, mods, fq, dq, ms, ty, is_typedef, att, Seq::empty()).diags,
{
    let e = Seq::<Report>::empty();
    match field(cur, "declarator"@) {
        Some(x) => if 0 <= x < cur.children@.len() {
            let w = spec_declarator_chain(child_at(cur, x), range, mods, fq, dq, ms, ty, is_typedef, att);
            assert(e + w.diags =~= w.diags);
        },
        None => {
            let w = anonymous_end(range, mods, dq, ty, is_typedef, att);
            assert(e + w.diags =~= w.diags);
        },
    }
}

} // verus!
