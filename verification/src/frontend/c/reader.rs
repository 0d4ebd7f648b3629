#![allow(non_snake_case)]

use vstd::prelude::*;
use vstd::string::StrSliceExecFns;
use crate::compiler::strings::str_eq;
use crate::frontend::c::sema::{
    Attribute, Container, DeclarationQualifier, Enum, EnumCase, MacroDefinition, MSDeclModifier,
    Parameter, PrimitiveType, Symbol, Modifier, StandardAttribute, CType, TypeDecl, NamedType,
    TypeQualifier, FunctionQualifier, MSCallModifier, SizeModifier, Variable, PointerQualifier,
    ArrayQualifier, MSPointerModifier, AttachedExpression, Function, Pointer, Array, TypeDefinition,
    Storage, IncludedHeader,
};
use crate::frontend::c::sema_gen::{
    ASTWalker, ReportMessage, SemaGenError, SyntaxNode, lemma_field_index, lemma_named_index, field_index,
    named_index, count_named,
};
use crate::frontend::c::views::{
    attributes_view, container_view, enum_view, texts, macro_definition_view, macro_parameter_view,
    decl_qualifier_view, DeclQualifierV, attribute_view, modifier_view, modifiers_view,
    decl_qualifiers_view, ctype_view, variables_view, enum_case_view, NamedTypeV, symbol_view,
    variable_view, parameters_view, attached_view, ms_pointer_modifier_view, function_view,
    CTypeV, ModifierV, parameter_view, type_decl_view, ContainerV, TypeDeclV, VariableV, ArrayV,
    FunctionV, PointerV, SymbolV,
};
use crate::frontend::c::walker::{
    args_of, at, child_at, container_head, container_mods, enum_attrs, enum_head, enum_items,
    ends_with, is_comment_kind, macro_params, named_texts, records_view, recorded_view, Recorded,
    RecordedV, Report, spec_declaration_qualifier, spec_macro_definition, field, field_text,
    attributes_of, member_variables, enum_cases, spec_type_from_ast, spec_field_items, spec_visit_decl,
    lemma_child_smaller, named_type, sized_items, reported, DeclHead, decl_items, ms_call_mods,
    spec_declarators, spec_symbol_from_declarator, spec_declarator_chain, spec_parameters,
    spec_parameter_from_ast, unlocated, anonymous_end, standard_attributes, attribute_items,
    first_named_of_kind, pointer_items, ms_pointer_items, array_items, ms_pointer_code_view, err, decl_start,
    container_type, top_level_type, spec_scope_items, spec_gen_sema, spec_branch_items,
    spec_conditional_content, spec_if_defined_content, system_path_ok,
};

verus! {

/// The style of a documentation comment node, if its kind names one: what follows `comment:`.
pub fn comment_style(kind: &str) -> (r: Option<&str>)
    ensures
        r is Some <==> is_comment_kind(kind@),
        r matches Some(s) ==> s@ == kind@.skip(8),
{
    proof {
        reveal_strlit("comment:");
    }
    let n = kind.unicode_len();
    if n >= 8 && str_eq(kind.substring_char(0, 8), "comment:") {
        assert(kind@.subrange(0, 8) =~= kind@.take(8));
        assert(kind@.subrange(8, n as int) =~= kind@.skip(8));
        Some(kind.substring_char(8, n))
    } else {
        proof {
            if n >= 8 {
                assert(kind@.subrange(0, 8) =~= kind@.take(8));
            }
        }
        None
    }
}

/// Whether `s` ends with `t`.
pub fn str_ends_with(s: &str, t: &str) -> (r: bool)
    ensures
        r == ends_with(s@, t@),
{
    let n = s.unicode_len();
    let m = t.unicode_len();
    if m <= n {
        assert(s@.subrange(n - m, n as int) =~= s@.skip(n - m));
        str_eq(s.substring_char(n - m, n), t)
    } else {
        false
    }
}

/// The text of the child in a field, if there is one.
fn field_string(n: &SyntaxNode, f: &str) -> (r: Option<String>)
    ensures
        match r {
            Some(s) => field_text(*n, f@) == Some(s@),
            None => field_text(*n, f@) is None,
        },
{
    proof {
        lemma_field_index(n.children@, f@);
    }
    match n.child_by_field_name(f) {
        Some(c) => Some(c.text.clone()),
        None => None,
    }
}

/// A located problem, as reported.
fn report_at(message: ReportMessage, location: crate::compiler::strings::Location) -> (r: Report)
    ensures
        r == at(message, location),
{
    Report { message, location: Some(location) }
}

// ---------------------------------------------------------------------------------------------
// Copies: each declarator of a declaration gets its own copy of what the declaration specifies.

/// A copy of a list of texts.
fn copy_strings(v: &Vec<String>) -> (r: Vec<String>)
    ensures
        texts(r@) == texts(v@),
{
    let mut r: Vec<String> = Vec::new();
    let mut k: usize = 0;
    while k < v.len()
        invariant
            k <= v@.len(),
            r@.len() == k,
            forall|i: int| 0 <= i < k ==> r@[i]@ == v@[i]@,
        decreases v.len() - k,
    {
        let s = v[k].clone();
        r.push(s);
        k = k + 1;
    }
    assert(texts(r@) =~= texts(v@));
    r
}

/// A copy of a list of `Copy` values.
fn copy_values<T: Copy>(v: &Vec<T>) -> (r: Vec<T>)
    ensures
        r@ == v@,
{
    let mut r: Vec<T> = Vec::new();
    let mut k: usize = 0;
    while k < v.len()
        invariant
            k <= v@.len(),
            r@ == v@.take(k as int),
        decreases v.len() - k,
    {
        let x = v[k];
        r.push(x);
        assert(r@ =~= v@.take(k + 1));
        k = k + 1;
    }
    assert(v@.take(v@.len() as int) =~= v@);
    r
}

/// A copy of an attribute.
fn copy_attribute(a: &Attribute) -> (r: Attribute)
    ensures
        attribute_view(r) == attribute_view(*a),
{
    Attribute { arguments: copy_strings(&a.arguments) }
}

/// A copy of a modifier.
fn copy_modifier(m: &Modifier) -> (r: Modifier)
    ensures
        modifier_view(r) == modifier_view(*m),
{
    match m {
        Modifier::storage(s) => Modifier::storage(*s),
        Modifier::attribute(a) => Modifier::attribute(copy_attribute(a)),
        Modifier::standardAttribute(a) => Modifier::standardAttribute(StandardAttribute {
            prefix: match &a.prefix {
                Some(p) => Some(p.clone()),
                None => None,
            },
            name: a.name.clone(),
            arguments: copy_strings(&a.arguments),
        }),
        Modifier::msSpecificModifier(MSDeclModifier::declspec(s)) => Modifier::msSpecificModifier(MSDeclModifier::declspec(s.clone())),
    }
}

/// A copy of a list of modifiers.
fn copy_modifiers(v: &Vec<Modifier>) -> (r: Vec<Modifier>)
    ensures
        modifiers_view(r@) == modifiers_view(v@),
{
    let mut r: Vec<Modifier> = Vec::new();
    let mut k: usize = 0;
    while k < v.len()
        invariant
            k <= v@.len(),
            r@.len() == k,
            forall|i: int| 0 <= i < k ==> modifier_view(r@[i]) == modifier_view(v@[i]),
        decreases v.len() - k,
    {
        let m = copy_modifier(&v[k]);
        r.push(m);
        k = k + 1;
    }
    assert(modifiers_view(r@) =~= modifiers_view(v@));
    r
}

/// A copy of a list of declaration qualifiers.
fn copy_decl_qualifiers(v: &Vec<DeclarationQualifier>) -> (r: Vec<DeclarationQualifier>)
    ensures
        decl_qualifiers_view(r@) == decl_qualifiers_view(v@),
{
    let mut r: Vec<DeclarationQualifier> = Vec::new();
    let mut k: usize = 0;
    while k < v.len()
        invariant
            k <= v@.len(),
            r@.len() == k,
            forall|i: int| 0 <= i < k ==> decl_qualifier_view(r@[i]) == decl_qualifier_view(v@[i]),
        decreases v.len() - k,
    {
        let q = match &v[k] {
            DeclarationQualifier::constexpr => DeclarationQualifier::constexpr,
            DeclarationQualifier::extension => DeclarationQualifier::extension,
            DeclarationQualifier::alignas(e) => DeclarationQualifier::alignas(e.clone()),
        };
        r.push(q);
        k = k + 1;
    }
    assert(decl_qualifiers_view(r@) =~= decl_qualifiers_view(v@));
    r
}

/// The `__attribute__` attributes among modifiers, copied.
fn attributes_among(v: &Vec<Modifier>) -> (r: Vec<Attribute>)
    ensures
        attributes_view(r@) == attributes_of(modifiers_view(v@)),
{
    let mut r: Vec<Attribute> = Vec::new();
    let mut k: usize = 0;
    assert(attributes_view(r@) =~= attributes_of(modifiers_view(v@.take(0))));
    while k < v.len()
        invariant
            k <= v@.len(),
            attributes_view(r@) == attributes_of(modifiers_view(v@.take(k as int))),
        decreases v.len() - k,
    {
        assert(modifiers_view(v@.take(k + 1)).drop_last() =~= modifiers_view(v@.take(k as int)));
        match &v[k] {
            Modifier::attribute(a) => {
                let c = copy_attribute(a);
                assert(attributes_view(r@.push(c)) =~= attributes_view(r@).push(attribute_view(*a)));
                r.push(c);
            },
            _ => {},
        }
        k = k + 1;
    }
    assert(v@.take(v@.len() as int) =~= v@);
    r
}

/// The optional node, by value.
pub open spec fn opt_node(o: Option<&SyntaxNode>) -> Option<SyntaxNode> {
    match o {
        Some(n) => Some(*n),
        None => None,
    }
}

proof fn lemma_member_variables_concat(a: Seq<RecordedV>, b: Seq<RecordedV>)
    ensures
        member_variables(a + b) == member_variables(a) + member_variables(b),
    decreases b.len(),
{
    if b.len() == 0 {
        assert(a + b =~= a);
        assert(member_variables(a) + member_variables(b) =~= member_variables(a));
    } else {
        assert((a + b).drop_last() =~= a + b.drop_last());
        lemma_member_variables_concat(a, b.drop_last());
        assert(member_variables(a + b) =~= member_variables(a) + member_variables(b));
    }
}

proof fn lemma_enum_cases_concat(a: Seq<RecordedV>, b: Seq<RecordedV>)
    ensures
        enum_cases(a + b) == enum_cases(a) + enum_cases(b),
    decreases b.len(),
{
    if b.len() == 0 {
        assert(a + b =~= a);
        assert(enum_cases(a) + enum_cases(b) =~= enum_cases(a));
    } else {
        assert((a + b).drop_last() =~= a + b.drop_last());
        lemma_enum_cases_concat(a, b.drop_last());
        assert(enum_cases(a + b) =~= enum_cases(a) + enum_cases(b));
    }
}

proof fn lemma_enum_items_shift(n: SyntaxNode, k: int, r: Seq<RecordedV>, d: Seq<Report>)
    ensures
        enum_items(n, k, r, d).0 == r + enum_items(n, k, Seq::empty(), Seq::empty()).0,
        enum_items(n, k, r, d).1 == d + enum_items(n, k, Seq::empty(), Seq::empty()).1,
    decreases n.children@.len() - k,
{
    let e = Seq::<RecordedV>::empty();
    let f = Seq::<Report>::empty();
    if 0 <= k < n.children@.len() {
        let c = child_at(n, k);
        let e1 = enum_items(n, k + 1, e, f);
        if !c.named {
            lemma_enum_items_shift(n, k + 1, r, d);
        } else if c.kind@ == "enumerator"@ {
            match field(c, "name"@) {
                None => {
                    let x = at(ReportMessage::MissingEnumCaseName, c.range);
                    lemma_enum_items_shift(n, k + 1, r, d.push(x));
                    lemma_enum_items_shift(n, k + 1, e, f.push(x));
                    assert(d.push(x) + e1.1 =~= d + (f.push(x) + e1.1));
                    assert(e + e1.0 =~= e1.0);
                },
                Some(i) => {
                    let x = RecordedV::EnumerationCase(child_at(c, i).text@, field_text(c, "value"@), c.range);
                    lemma_enum_items_shift(n, k + 1, r.push(x), d);
                    lemma_enum_items_shift(n, k + 1, e.push(x), f);
                    assert(r.push(x) + e1.0 =~= r + (e.push(x) + e1.0));
                    assert(f + e1.1 =~= e1.1);
                },
            }
        } else if c.kind@ == "preproc_call"@ {
            let x = at(ReportMessage::PreprocessorCallIngored("enum case decl list"), c.range);
            lemma_enum_items_shift(n, k + 1, r, d.push(x));
            lemma_enum_items_shift(n, k + 1, e, f.push(x));
            assert(d.push(x) + e1.1 =~= d + (f.push(x) + e1.1));
            assert(e + e1.0 =~= e1.0);
        } else if c.kind@ == "comment"@ {
            lemma_enum_items_shift(n, k + 1, r, d);
        } else if is_comment_kind(c.kind@) {
            let x = RecordedV::Comment(c.text@, c.kind@.skip(8), c.range);
            lemma_enum_items_shift(n, k + 1, r.push(x), d);
            lemma_enum_items_shift(n, k + 1, e.push(x), f);
            assert(r.push(x) + e1.0 =~= r + (e.push(x) + e1.0));
            assert(f + e1.1 =~= e1.1);
        } else {
            lemma_enum_items_shift(n, k + 1, r, d);
        }
    } else {
        assert(r + e =~= r);
        assert(d + f =~= d);
    }
}

proof fn lemma_field_items_shift(n: SyntaxNode, k: int, r: Seq<RecordedV>, d: Seq<Report>)
    ensures
        spec_field_items(n, k, r, d).stuck == spec_field_items(n, k, Seq::empty(), Seq::empty()).stuck,
        !spec_field_items(n, k, r, d).stuck ==> spec_field_items(n, k, r, d).records
            == r + spec_field_items(n, k, Seq::empty(), Seq::empty()).records,
        !spec_field_items(n, k, r, d).stuck ==> spec_field_items(n, k, r, d).diags
            == d + spec_field_items(n, k, Seq::empty(), Seq::empty()).diags,
    decreases n.children@.len() - k,
{
    let e = Seq::<RecordedV>::empty();
    let f = Seq::<Report>::empty();
    if 0 <= k < n.children@.len() {
        let c = child_at(n, k);
        let w1 = spec_field_items(n, k + 1, e, f);
        if !c.named {
            lemma_field_items_shift(n, k + 1, r, d);
        } else if c.kind@ == "field_declaration"@ {
            let w = spec_visit_decl(c, false);
            if !w.stuck {
                match w.value {
                    Ok(()) => {
                        lemma_field_items_shift(n, k + 1, r + w.records, d + w.diags);
                        lemma_field_items_shift(n, k + 1, e + w.records, f + w.diags);
                        assert((r + w.records) + w1.records =~= r + ((e + w.records) + w1.records));
                        assert((d + w.diags) + w1.diags =~= d + ((f + w.diags) + w1.diags));
                    },
                    Err(x) => {
                        lemma_field_items_shift(n, k + 1, r, (d + w.diags).push(reported(x)));
                        lemma_field_items_shift(n, k + 1, e, (f + w.diags).push(reported(x)));
                        assert((d + w.diags).push(reported(x)) + w1.diags =~= d + ((f + w.diags).push(reported(x)) + w1.diags));
                        assert(r + w1.records =~= r + (e + w1.records));
                    },
                }
            }
        } else if c.kind@ == "preproc_call"@ {
            let x = at(ReportMessage::PreprocessorCallIngored("in decl list"), c.range);
            lemma_field_items_shift(n, k + 1, r, d.push(x));
            lemma_field_items_shift(n, k + 1, e, f.push(x));
            assert(d.push(x) + w1.diags =~= d + (f.push(x) + w1.diags));
            assert(r + w1.records =~= r + (e + w1.records));
        } else if c.kind@ == "comment"@ {
            lemma_field_items_shift(n, k + 1, r, d);
        } else if is_comment_kind(c.kind@) {
            let x = RecordedV::Comment(c.text@, c.kind@.skip(8), c.range);
            lemma_field_items_shift(n, k + 1, r.push(x), d);
            lemma_field_items_shift(n, k + 1, e.push(x), f);
            assert(r.push(x) + w1.records =~= r + (e.push(x) + w1.records));
            assert(d + w1.diags =~= d + (f + w1.diags));
        } else {
            let x = at(ReportMessage::UnknownFieldDeclListItem(c.kind), c.range);
            lemma_field_items_shift(n, k + 1, r, d.push(x));
            lemma_field_items_shift(n, k + 1, e, f.push(x));
            assert(d.push(x) + w1.diags =~= d + (f.push(x) + w1.diags));
            assert(r + w1.records =~= r + (e + w1.records));
        }
    } else {
        assert(r + e =~= r);
        assert(d + f =~= d);
    }
}

/// The declaration head that the specifiers collected so far make up.
pub open spec fn head_view(mods: Seq<Modifier>, tq: Seq<TypeQualifier>, dq: Seq<DeclarationQualifier>,
    fq: Seq<FunctionQualifier>, ds: Seq<usize>, t: Option<CType>) -> DeclHead
{
    DeclHead {
        modifiers: modifiers_view(mods),
        typeQualifiers: tq,
        declQualifiers: decl_qualifiers_view(dq),
        functionQualifiers: fq,
        declarators: ds.map_values(|x: usize| x as int),
        declaredType: match t {
            Some(t) => Some(ctype_view(t)),
            None => None,
        },
    }
}

/// The variables among recorded symbols, in order.
fn variables_among(rec: Vec<Recorded>) -> (r: Vec<Variable>)
    ensures
        variables_view(r@) == member_variables(records_view(rec@)),
{
    let mut rest = rec;
    let mut r: Vec<Variable> = Vec::new();
    proof {
        assert(records_view(rest@) =~= Seq::<RecordedV>::empty() + records_view(rest@));
        assert(variables_view(r@) =~= member_variables(Seq::<RecordedV>::empty()));
    }
    let ghost done_part: Seq<RecordedV> = Seq::empty();
    while rest.len() > 0
        invariant
            records_view(rec@) == done_part + records_view(rest@),
            variables_view(r@) == member_variables(done_part),
        decreases rest.len(),
    {
        let ghost before = rest@;
        let item = rest.remove(0);
        proof {
            let x = recorded_view(item);
            assert(records_view(before) =~= seq![x] + records_view(rest@)) by {
                assert(before =~= seq![item] + rest@);
            }
            lemma_member_variables_concat(done_part, seq![x]);
            assert(seq![x].drop_last() =~= Seq::<RecordedV>::empty());
            assert(done_part + records_view(before) =~= (done_part + seq![x]) + records_view(rest@));
            done_part = done_part + seq![x];
        }
        let ghost xv = recorded_view(item);
        match item {
            Recorded::Symbol(Symbol::variable(v), _) => {
                proof {
                    assert(r@.push(v).drop_last() =~= r@);
                    assert(member_variables(seq![xv]) =~= seq![variable_view(v)]) by {
                        assert(member_variables(Seq::<RecordedV>::empty()) =~= Seq::empty());
                    }
                }
                r.push(v);
            },
            _ => {
                proof {
                    assert(member_variables(seq![xv]) =~= Seq::empty()) by {
                        assert(member_variables(Seq::<RecordedV>::empty()) =~= Seq::empty());
                    }
                }
            },
        }
    }
    proof {
        assert(done_part + records_view(rest@) =~= done_part);
    }
    r
}

/// The enumeration cases among what was recorded, in order.
fn cases_among(rec: Vec<Recorded>) -> (r: Vec<EnumCase>)
    ensures
        r@.map_values(|c: EnumCase| enum_case_view(c)) == enum_cases(records_view(rec@)),
{
    let mut rest = rec;
    let mut r: Vec<EnumCase> = Vec::new();
    proof {
        assert(records_view(rest@) =~= Seq::<RecordedV>::empty() + records_view(rest@));
        assert(r@.map_values(|c: EnumCase| enum_case_view(c)) =~= enum_cases(Seq::<RecordedV>::empty()));
    }
    let ghost done_part: Seq<RecordedV> = Seq::empty();
    while rest.len() > 0
        invariant
            records_view(rec@) == done_part + records_view(rest@),
            r@.map_values(|c: EnumCase| enum_case_view(c)) == enum_cases(done_part),
        decreases rest.len(),
    {
        let ghost before = rest@;
        let item = rest.remove(0);
        proof {
            let x = recorded_view(item);
            assert(records_view(before) =~= seq![x] + records_view(rest@)) by {
                assert(before =~= seq![item] + rest@);
            }
            lemma_enum_cases_concat(done_part, seq![x]);
            assert(seq![x].drop_last() =~= Seq::<RecordedV>::empty());
            assert(done_part + records_view(before) =~= (done_part + seq![x]) + records_view(rest@));
            done_part = done_part + seq![x];
        }
        let ghost xv = recorded_view(item);
        match item {
            Recorded::EnumerationCase(c, _) => {
                proof {
                    assert(r@.push(c).map_values(|c: EnumCase| enum_case_view(c))
                        =~= r@.map_values(|c: EnumCase| enum_case_view(c)).push(enum_case_view(c)));
                    assert(enum_cases(seq![xv]) =~= seq![enum_case_view(c)]) by {
                        assert(enum_cases(Seq::<RecordedV>::empty()) =~= Seq::empty());
                    }
                }
                r.push(c);
            },
            _ => {
                proof {
                    assert(enum_cases(seq![xv]) =~= Seq::empty()) by {
                        assert(enum_cases(Seq::<RecordedV>::empty()) =~= Seq::empty());
                    }
                }
            },
        }
    }
    proof {
        assert(done_part + records_view(rest@) =~= done_part);
    }
    r
}

proof fn lemma_top_level_type_shift(c: SyntaxNode, r: Seq<RecordedV>, d: Seq<Report>)
    ensures
        top_level_type(c, r, d).stuck == top_level_type(c, Seq::empty(), Seq::empty()).stuck,
        !top_level_type(c, r, d).stuck ==> top_level_type(c, r, d).records
            == r + top_level_type(c, Seq::empty(), Seq::empty()).records,
        !top_level_type(c, r, d).stuck ==> top_level_type(c, r, d).diags
            == d + top_level_type(c, Seq::empty(), Seq::empty()).diags,
{
    let e = Seq::<RecordedV>::empty();
    let f = Seq::<Report>::empty();
    let k = c.kind@;
    if k == "enum_specifier"@ {
        match enum_head(c) {
            (Err(x), hd) => {
                let rep = unlocated(ReportMessage::SemGenFailed(c.kind, Box::new(x)));
                assert((d + hd).push(rep) =~= d + (f + hd).push(rep));
                assert(r =~= r + e);
            },
            (Ok((ev, body)), hd) => {
                let item = RecordedV::Symbol(SymbolV::enumeration(ev), c.range);
                match body {
                    Some(b) => if 0 <= b < c.children@.len() {
                        let n = child_at(c, b);
                        lemma_enum_items_shift(n, 0, r.push(item), d + hd);
                        lemma_enum_items_shift(n, 0, e.push(item), f + hd);
                        let w = enum_items(n, 0, e, f);
                        assert(r.push(item) + w.0 =~= r + (e.push(item) + w.0));
                        assert((d + hd) + w.1 =~= d + ((f + hd) + w.1));
                    },
                    None => {
                        assert(r.push(item) =~= r + e.push(item));
                        assert(d + hd =~= d + (f + hd));
                    },
                }
            },
        }
    } else {
        match container_head(c) {
            (Err(x), hd) => {
                let rep = unlocated(ReportMessage::SemGenFailed(c.kind, Box::new(x)));
                assert((d + hd).push(rep) =~= d + (f + hd).push(rep));
                assert(r =~= r + e);
            },
            (Ok((ct, body)), hd) => {
                let sym = if k == "struct_specifier"@ { SymbolV::structure(ct) } else { SymbolV::union(ct) };
                let item = RecordedV::Symbol(sym, c.range);
                match body {
                    Some(b) => if 0 <= b < c.children@.len() {
                        let n = child_at(c, b);
                        lemma_field_items_shift(n, 0, r.push(item), d + hd);
                        lemma_field_items_shift(n, 0, e.push(item), f + hd);
                        let w = spec_field_items(n, 0, e, f);
                        assert(r.push(item) + w.records =~= r + (e.push(item) + w.records));
                        assert((d + hd) + w.diags =~= d + ((f + hd) + w.diags));
                    },
                    None => {
                        assert(r.push(item) =~= r + e.push(item));
                        assert(d + hd =~= d + (f + hd));
                    },
                }
            },
        }
    }
}

impl<'a> ASTWalker<'a> {
    /// The arguments of an argument list: the texts of its named children.
    pub fn args_from_ast(argument_list: &SyntaxNode) -> (r: Vec<String>)
        ensures
            texts(r@) == args_of(*argument_list),
    {
        let mut r: Vec<String> = Vec::new();
        let mut k: usize = 0;
        assert(texts(r@) =~= Seq::empty());
        while k < argument_list.children.len()
            invariant
                k <= argument_list.children@.len(),
                named_texts(*argument_list, 0, Seq::empty()) == named_texts(*argument_list, k as int, texts(r@)),
            decreases argument_list.children.len() - k,
        {
            let c = &argument_list.children[k].1;
            if c.named {
                let s = c.text.clone();
                assert(texts(r@.push(s)) =~= texts(r@).push(s@));
                r.push(s);
            }
            k = k + 1;
        }
        r
    }

    /// A `struct` or `union` without its members, and its body if it has one; the error where
    /// it has neither name nor body.
    pub fn containerFromAST<'b>(&self, ast: &'b SyntaxNode, diags: &mut Vec<Report>)
        -> (r: Result<(Container, Option<&'b SyntaxNode>), SemaGenError>)
        ensures
            final(diags)@ == old(diags)@ + container_head(*ast).1,
            match (container_head(*ast).0, r) {
                (Err(e), Err(e2)) => e2 == e,
                (Ok((cv, body)), Ok((c, b))) => container_view(c) == cv && b == (match body {
                    Some(i) => Some(&ast.children@[i].1),
                    None => None,
                }),
                _ => false,
            },
    {
        let mut attributes: Vec<Attribute> = Vec::new();
        let mut ms: Vec<MSDeclModifier> = Vec::new();
        let ghost mut d: Seq<Report> = Seq::empty();
        let mut k: usize = 0;
        proof {
            assert(attributes_view(attributes@) =~= Seq::empty());
            assert(ms@.map_values(|m: MSDeclModifier| match m { MSDeclModifier::declspec(s) => s@ }) =~= Seq::empty());
            assert(diags@ =~= old(diags)@ + d);
        }
        while k < ast.children.len()
            invariant
                k <= ast.children@.len(),
                diags@ == old(diags)@ + d,
                container_mods(*ast, 0, Seq::empty(), Seq::empty(), Seq::empty())
                    == container_mods(*ast, k as int, attributes_view(attributes@),
                        ms@.map_values(|m: MSDeclModifier| match m { MSDeclModifier::declspec(s) => s@ }), d),
            decreases ast.children.len() - k,
        {
            let c = &ast.children[k].1;
            proof {
                lemma_named_index(c.children@, 0);
            }
            if c.named && str_eq(c.kind.as_str(), "attribute_specifier") {
                match c.named_child(0) {
                    Some(list) => {
                        let a = Attribute { arguments: Self::args_from_ast(list) };
                        assert(attributes_view(attributes@.push(a)) =~= attributes_view(attributes@).push(args_of(*list)));
                        attributes.push(a);
                    },
                    None => {
                        let rep = report_at(ReportMessage::UnknownAttributeSpecifier, c.range);
                        diags.push(rep);
                        proof { d = d.push(rep); }
                    },
                }
            } else if c.named && str_eq(c.kind.as_str(), "ms_declspec_modifier") {
                match c.named_child(0) {
                    Some(identifier) => {
                        let m = MSDeclModifier::declspec(identifier.text.clone());
                        assert(ms@.push(m).map_values(|m: MSDeclModifier| match m { MSDeclModifier::declspec(s) => s@ })
                            =~= ms@.map_values(|m: MSDeclModifier| match m { MSDeclModifier::declspec(s) => s@ }).push(identifier.text@));
                        ms.push(m);
                    },
                    None => {
                        let rep = report_at(ReportMessage::MissingDeclSpecModifierContent, c.range);
                        diags.push(rep);
                        proof { d = d.push(rep); }
                    },
                }
            }
            k = k + 1;
        }
        proof {
            lemma_field_index(ast.children@, "name"@);
            lemma_field_index(ast.children@, "body"@);
        }
        let name = field_string(ast, "name");
        let body = ast.child_by_field_name("body");
        if name.is_none() && body.is_none() {
            return Err(SemaGenError { message: ReportMessage::UnnamedEmptyType("struct"), location: ast.range });
        }
        let c = Container { name, attributes, msSpecificModifiers: ms, members: Vec::new() };
        assert(crate::frontend::c::views::variables_view(c.members@) =~= Seq::empty());
        Ok((c, body))
    }

    /// An `enum` without its cases, and its body if it has one; the error where it has neither
    /// name nor body.
    pub fn enumerationFromAST<'b>(&self, ast: &'b SyntaxNode, diags: &mut Vec<Report>)
        -> (r: Result<(Enum, Option<&'b SyntaxNode>), SemaGenError>)
        ensures
            final(diags)@ == old(diags)@ + enum_head(*ast).1,
            match (enum_head(*ast).0, r) {
                (Err(e), Err(e2)) => e2 == e,
                (Ok((ev, body)), Ok((e, b))) => enum_view(e) == ev && b == (match body {
                    Some(i) => Some(&ast.children@[i].1),
                    None => None,
                }),
                _ => false,
            },
    {
        let mut attributes: Vec<Attribute> = Vec::new();
        let ghost mut d: Seq<Report> = Seq::empty();
        let mut k: usize = 0;
        proof {
            assert(attributes_view(attributes@) =~= Seq::empty());
            assert(diags@ =~= old(diags)@ + d);
        }
        while k < ast.children.len()
            invariant
                k <= ast.children@.len(),
                diags@ == old(diags)@ + d,
                enum_attrs(*ast, 0, Seq::empty(), Seq::empty()) == enum_attrs(*ast, k as int, attributes_view(attributes@), d),
            decreases ast.children.len() - k,
        {
            let c = &ast.children[k].1;
            proof {
                lemma_named_index(c.children@, 0);
            }
            if c.named && str_eq(c.kind.as_str(), "attribute_specifier") {
                match c.named_child(0) {
                    Some(list) => {
                        let a = Attribute { arguments: Self::args_from_ast(list) };
                        assert(attributes_view(attributes@.push(a)) =~= attributes_view(attributes@).push(args_of(*list)));
                        attributes.push(a);
                    },
                    None => {
                        let rep = report_at(ReportMessage::MissingArgumentList, c.range);
                        diags.push(rep);
                        proof { d = d.push(rep); }
                    },
                }
            }
            k = k + 1;
        }
        proof {
            lemma_field_index(ast.children@, "name"@);
            lemma_field_index(ast.children@, "body"@);
            lemma_field_index(ast.children@, "underlying_Type"@);
        }
        let name = field_string(ast, "name");
        let mut underlying: Option<PrimitiveType> = None;
        match ast.child_by_field_name("underlying_Type") {
            Some(t) => match PrimitiveType::from_str(t.text.as_str()) {
                Some(u) => { underlying = Some(u); },
                None => {
                    let rep = report_at(ReportMessage::UnknownUnderlyingEnumType(t.text.clone()), t.range);
                    diags.push(rep);
                    proof { d = d.push(rep); }
                },
            },
            None => {},
        }
        let body = ast.child_by_field_name("body");
        if name.is_none() && body.is_none() {
            return Err(SemaGenError { message: ReportMessage::UnnamedEmptyType("struct"), location: ast.range });
        }
        let e = Enum { name, attributes, underlyingType: underlying, cases: Vec::new() };
        assert(e.cases@.map_values(|c: EnumCase| crate::frontend::c::views::enum_case_view(c)) =~= Seq::empty());
        Ok((e, body))
    }

    /// Records the cases and documentation comments of an enumerator list, and reports what
    /// it cannot read.
    pub fn visit_enum_decl_list(&self, ast: &SyntaxNode, rec: &mut Vec<Recorded>, diags: &mut Vec<Report>)
        ensures
            records_view(final(rec)@) == records_view(old(rec)@) + enum_items(*ast, 0, Seq::empty(), Seq::empty()).0,
            final(diags)@ == old(diags)@ + enum_items(*ast, 0, Seq::empty(), Seq::empty()).1,
    {
        let ghost mut r: Seq<RecordedV> = Seq::empty();
        let ghost mut d: Seq<Report> = Seq::empty();
        let mut k: usize = 0;
        proof {
            assert(diags@ =~= old(diags)@ + d);
            assert(records_view(rec@) =~= records_view(old(rec)@) + r);
        }
        while k < ast.children.len()
            invariant
                k <= ast.children@.len(),
                diags@ == old(diags)@ + d,
                records_view(rec@) == records_view(old(rec)@) + r,
                enum_items(*ast, 0, Seq::empty(), Seq::empty()) == enum_items(*ast, k as int, r, d),
            decreases ast.children.len() - k,
        {
            let c = &ast.children[k].1;
            if c.named {
                let kind = c.kind.as_str();
                if str_eq(kind, "enumerator") {
                    proof {
                        lemma_field_index(c.children@, "name"@);
                    }
                    match c.child_by_field_name("name") {
                        None => {
                            let rep = report_at(ReportMessage::MissingEnumCaseName, c.range);
                            diags.push(rep);
                            proof { d = d.push(rep); }
                        },
                        Some(name) => {
                            let case = EnumCase { name: name.text.clone(), value: field_string(c, "value") };
                            let item = Recorded::EnumerationCase(case, c.range);
                            proof {
                                assert(records_view(rec@.push(item)) =~= records_view(rec@).push(recorded_view(item)));
                                r = r.push(recorded_view(item));
                            }
                            rec.push(item);
                        },
                    }
                } else if str_eq(kind, "preproc_call") {
                    let rep = report_at(ReportMessage::PreprocessorCallIngored("enum case decl list"), c.range);
                    diags.push(rep);
                    proof { d = d.push(rep); }
                } else if str_eq(kind, "comment") {
                } else {
                    match comment_style(kind) {
                        Some(style) => {
                            let item = Recorded::Comment(c.text.clone(), String::from_str(style), c.range);
                            proof {
                                assert(records_view(rec@.push(item)) =~= records_view(rec@).push(recorded_view(item)));
                                r = r.push(recorded_view(item));
                            }
                            rec.push(item);
                        },
                        None => {},
                    }
                }
            }
            k = k + 1;
        }
    }

    /// Records a macro definition, unless it is a header guard that is ignored; reports the
    /// parameters it cannot read.
    pub fn symbolizeMacroDefintion(&self, ast: &SyntaxNode, rec: &mut Vec<Recorded>, diags: &mut Vec<Report>)
        -> (r: Result<(), SemaGenError>)
        ensures
            r == spec_macro_definition(self.config.ingore_header_guard_defines, *ast).value,
            records_view(final(rec)@) == records_view(old(rec)@) + spec_macro_definition(self.config.ingore_header_guard_defines, *ast).records,
            final(diags)@ == old(diags)@ + spec_macro_definition(self.config.ingore_header_guard_defines, *ast).diags,
    {
        proof {
            lemma_field_index(ast.children@, "name"@);
            lemma_field_index(ast.children@, "parameters"@);
            assert(records_view(old(rec)@) + Seq::<RecordedV>::empty() =~= records_view(old(rec)@));
            assert(old(diags)@ + Seq::<Report>::empty() =~= old(diags)@);
        }
        let name = match ast.child_by_field_name("name") {
            Some(n) => n,
            None => {
                return Err(SemaGenError { message: ReportMessage::PreprocessorMissingIdentifier, location: ast.range });
            },
        };
        if self.config.ingore_header_guard_defines && str_ends_with(name.text.as_str(), "_H") {
            proof { reveal_strlit("_H"); }
            return Ok(());
        }
        proof { reveal_strlit("_H"); }
        let mut parameters: Vec<Parameter<String>> = Vec::new();
        let ghost mut d: Seq<Report> = Seq::empty();
        match ast.child_by_field_name("parameters") {
            Some(params) => {
                let mut k: usize = 0;
                proof {
                    assert(parameters@.map_values(|p: Parameter<String>| macro_parameter_view(p)) =~= Seq::empty());
                    assert(diags@ =~= old(diags)@ + d);
                }
                while k < params.children.len()
                    invariant
                        k <= params.children@.len(),
                        diags@ == old(diags)@ + d,
                        macro_params(*ast, *params, 0, Seq::empty(), Seq::empty())
                            == macro_params(*ast, *params, k as int, parameters@.map_values(|p: Parameter<String>| macro_parameter_view(p)), d),
                    decreases params.children.len() - k,
                {
                    let c = &params.children[k].1;
                    proof { reveal_strlit("..."); reveal_strlit("identifier"); }
                    if c.named {
                        if str_eq(c.kind.as_str(), "identifier") {
                            let p = Parameter::regular(c.text.clone());
                            assert(parameters@.push(p).map_values(|p: Parameter<String>| macro_parameter_view(p)) =~= parameters@.map_values(|p: Parameter<String>| macro_parameter_view(p)).push(macro_parameter_view(p)));
                            parameters.push(p);
                        } else {
                            let rep = report_at(ReportMessage::UnknownChildNode(ast.kind.clone(), c.kind.clone()), c.range);
                            diags.push(rep);
                            proof { d = d.push(rep); }
                        }
                    } else if str_eq(c.text.as_str(), "...") {
                        let p = Parameter::variadic(None);
                        assert(parameters@.push(p).map_values(|p: Parameter<String>| macro_parameter_view(p)) =~= parameters@.map_values(|p: Parameter<String>| macro_parameter_view(p)).push(macro_parameter_view(p)));
                        parameters.push(p);
                    } else {
                        let rep = report_at(ReportMessage::UnknownChildNode(ast.kind.clone(), c.kind.clone()), c.range);
                        diags.push(rep);
                        proof { d = d.push(rep); }
                    }
                    k = k + 1;
                }
            },
            None => {
                proof {
                    assert(parameters@.map_values(|p: Parameter<String>| macro_parameter_view(p)) =~= Seq::empty());
                    assert(diags@ =~= old(diags)@ + d);
                }
            },
        }
        let m = MacroDefinition { name: name.text.clone(), parameters, value: field_string(ast, "value") };
        let item = Recorded::Symbol(Symbol::macroDefintion(m), ast.range);
        proof {
            assert(macro_definition_view(m).parameters =~= parameters@.map_values(|p: Parameter<String>| macro_parameter_view(p)));
            assert(records_view(rec@.push(item)) =~= records_view(rec@).push(recorded_view(item)));
        }
        rec.push(item);
        Ok(())
    }

    /// The declaration qualifier that a `type_qualifier` node spells.
    fn declaration_fromAST(&self, ast: &SyntaxNode) -> (r: Result<DeclarationQualifier, SemaGenError>)
        ensures
            match (spec_declaration_qualifier(*ast), r) {
                (Ok(qv), Ok(q)) => decl_qualifier_view(q) == qv,
                (Err(e), Err(e2)) => e2 == e,
                _ => false,
            },
    {
        if ast.children.len() == 0 {
            return Err(SemaGenError { message: ReportMessage::MissingTypeQualifierChild, location: ast.range });
        }
        let child = &ast.children[0].1;
        if child.named && str_eq(child.kind.as_str(), "alignas_qualifier") {
            let q = DeclarationQualifier::alignas(String::new());
            Ok(q)
        } else if str_eq(ast.text.as_str(), "constexpr") {
            Ok(DeclarationQualifier::constexpr)
        } else if str_eq(ast.text.as_str(), "__extension__") {
            Ok(DeclarationQualifier::extension)
        } else {
            Err(SemaGenError { message: ReportMessage::UnknownDeclQualifier(ast.text.clone()), location: child.range })
        }
    }

    /// The type that a type specifier node denotes, with the given qualifiers.
    #[verifier::rlimit(60)]
    #[verifier::spinoff_prover]
    pub fn type_from_ast(&self, ast: &SyntaxNode, qualifiers: Vec<TypeQualifier>, diags: &mut Vec<Report>)
        -> (r: Result<CType, SemaGenError>)
        requires
            !spec_type_from_ast(*ast, qualifiers@).stuck,
        ensures
            final(diags)@ == old(diags)@ + spec_type_from_ast(*ast, qualifiers@).diags,
            match (spec_type_from_ast(*ast, qualifiers@).value, r) {
                (Ok(tv), Ok(t)) => ctype_view(t) == tv,
                (Err(e), Err(e2)) => e2 == e,
                _ => false,
            },
        decreases *ast, 3int, 0int,
    {
        let kind = ast.kind.as_str();
        let is_struct = str_eq(kind, "struct_specifier");
        let ghost d_start = diags@;
        if is_struct || str_eq(kind, "union_specifier") {
            let (mut container, body) = match self.containerFromAST(ast, diags) {
                Ok(x) => x,
                Err(e) => { return Err(e); },
            };
            let ghost hd = container_head(*ast).1;
            let ghost cv = container_head(*ast).0->Ok_0.0;
            let ghost mut members: Seq<VariableV> = Seq::empty();
            let ghost mut dd: Seq<Report> = hd;
            match body {
                None => {},
                Some(b) => {
                    proof {
                        lemma_field_index(ast.children@, "body"@);
                        let bi = field_index(ast.children@, "body"@)->Some_0;
                        lemma_child_smaller(*ast, bi);
                        lemma_field_items_shift(*b, 0, Seq::empty(), hd);
                    }
                    let ghost w0 = spec_field_items(*b, 0, Seq::empty(), Seq::empty());
                    let mut rec: Vec<Recorded> = Vec::new();
                    self.visit_field_decl_list(b, &mut rec, diags);
                    proof {
                        assert(records_view(Seq::<Recorded>::empty()) =~= Seq::empty());
                        assert(Seq::<RecordedV>::empty() + w0.records =~= w0.records);
                        assert(d_start + hd + w0.diags =~= d_start + (hd + w0.diags));
                        members = member_variables(w0.records);
                        dd = hd + w0.diags;
                    }
                    container.members = variables_among(rec);
                },
            }
            proof {
                assert(container_view(container) == ContainerV {
                    name: cv.name,
                    attributes: cv.attributes,
                    msSpecificModifiers: cv.msSpecificModifiers,
                    members: variables_view(container.members@),
                });
            }
            let decl = if is_struct { TypeDecl::structure(container) } else { TypeDecl::union(container) };
            let t = CType { decl: Box::new(decl), qualifiers };
            proof {
                assert(type_decl_view(*t.decl) == (if is_struct {
                    TypeDeclV::structure(container_view(container))
                } else {
                    TypeDeclV::union(container_view(container))
                }));
                assert(ctype_view(t) =~~= container_type(is_struct, cv, members, qualifiers@));
                assert(diags@ == d_start + dd);
            }
            Ok(t)
        } else if str_eq(kind, "enum_specifier") {
            let (mut e, body) = match self.enumerationFromAST(ast, diags) {
                Ok(x) => x,
                Err(err) => { return Err(err); },
            };
            let ghost hd = enum_head(*ast).1;
            let ghost ev = enum_head(*ast).0->Ok_0.0;
            let ghost mut cases: Seq<(Seq<char>, Option<Seq<char>>)> = Seq::empty();
            let ghost mut dd: Seq<Report> = hd;
            match body {
                None => {},
                Some(b) => {
                    proof {
                        lemma_field_index(ast.children@, "body"@);
                        lemma_enum_items_shift(*b, 0, Seq::empty(), hd);
                    }
                    let ghost w0 = enum_items(*b, 0, Seq::empty(), Seq::empty());
                    let mut rec: Vec<Recorded> = Vec::new();
                    self.visit_enum_decl_list(b, &mut rec, diags);
                    proof {
                        assert(records_view(Seq::<Recorded>::empty()) =~= Seq::empty());
                        assert(Seq::<RecordedV>::empty() + w0.0 =~= w0.0);
                        assert(d_start + hd + w0.1 =~= d_start + (hd + w0.1));
                        cases = enum_cases(w0.0);
                        dd = hd + w0.1;
                    }
                    e.cases = cases_among(rec);
                },
            }
            proof {
                assert(e.cases@.map_values(|c: EnumCase| enum_case_view(c)) =~= cases);
            }
            let t = CType { decl: Box::new(TypeDecl::enumeration(e)), qualifiers };
            proof {
                assert(type_decl_view(*t.decl) == TypeDeclV::enumeration(enum_view(e)));
                assert(diags@ == d_start + dd);
            }
            Ok(t)
        } else if str_eq(kind, "primitive_type") {
            proof {
                assert(old(diags)@ + Seq::<Report>::empty() =~= old(diags)@);
            }
            match PrimitiveType::from_str(ast.text.as_str()) {
                Some(p) => {
                    let t = CType { decl: Box::new(TypeDecl::named(NamedType::primitive(p), Vec::new())), qualifiers };
                    assert(ctype_view(t) =~~= named_type(NamedTypeV::primitive(p), qualifiers@));
                    Ok(t)
                },
                None => Err(SemaGenError { message: ReportMessage::UnknownPrimitiveType(ast.text.clone()), location: ast.range }),
            }
        } else if str_eq(kind, "identifier") || str_eq(kind, "type_identifier") {
            proof {
                assert(old(diags)@ + Seq::<Report>::empty() =~= old(diags)@);
            }
            let t = CType { decl: Box::new(TypeDecl::named(NamedType::custom(ast.text.clone()), Vec::new())), qualifiers };
            assert(ctype_view(t) =~~= named_type(NamedTypeV::custom(ast.text@), qualifiers@));
            Ok(t)
        } else if str_eq(kind, "sized_type_specifier") {
            proof {
                lemma_field_index(ast.children@, "type"@);
            }
            let mut t = match ast.child_by_field_name("type") {
                Some(inner) => {
                    proof {
                        lemma_child_smaller(*ast, field_index(ast.children@, "type"@)->Some_0);
                    }
                    match self.type_from_ast(inner, qualifiers, diags) {
                        Ok(t) => t,
                        Err(e) => { return Err(e); },
                    }
                },
                None => {
                    let t = CType { decl: Box::new(TypeDecl::named(NamedType::primitive(PrimitiveType::int_), Vec::new())), qualifiers: Vec::new() };
                    assert(ctype_view(t) =~~= named_type(NamedTypeV::primitive(PrimitiveType::int_), Seq::empty()));
                    assert(diags@ =~= old(diags)@ + Seq::<Report>::empty());
                    t
                },
            };
            let ghost t0s = match field(*ast, "type"@) {
                Some(i) => spec_type_from_ast(child_at(*ast, i), qualifiers@),
                None => crate::frontend::c::walker::done(
                    Ok(named_type(NamedTypeV::primitive(PrimitiveType::int_), Seq::empty())), Seq::empty(), Seq::empty()),
            };
            let ghost t0v = ctype_view(t);
            let ghost d0 = t0s.diags;
            let ghost mut d = d0;
            proof {
                assert(t0s.value == Ok::<CTypeV, SemaGenError>(t0v));
                assert(diags@ =~= old(diags)@ + d);
            }
            let mut k: usize = 0;
            while k < ast.children.len()
                invariant
                    k <= ast.children@.len(),
                    diags@ == old(diags)@ + d,
                    sized_items(*ast, 0, t0v, d0) == sized_items(*ast, k as int, ctype_view(t), d),
                decreases ast.children.len() - k,
            {
                let c = &ast.children[k].1;
                if c.named {
                    if str_eq(c.kind.as_str(), "type_qualifier") {
                        match TypeQualifier::from_str(c.text.as_str()) {
                            Some(q) => {
                                t.qualifiers.push(q);
                            },
                            None => {
                                let rep = report_at(ReportMessage::InapplicablePointerQualifier(c.text.clone()), c.range);
                                diags.push(rep);
                                proof { d = d.push(rep); }
                            },
                        }
                    }
                } else {
                    match SizeModifier::from_str(c.text.as_str()) {
                        Some(m) => {
                            let CType { decl, qualifiers: tq } = t;
                            let inner = *decl;
                            t = match inner {
                                TypeDecl::named(nt, mut mods) => {
                                    mods.push(m);
                                    CType { decl: Box::new(TypeDecl::named(nt, mods)), qualifiers: tq }
                                },
                                other => CType { decl: Box::new(other), qualifiers: tq },
                            };
                        },
                        None => {
                            let rep = report_at(ReportMessage::UnexpectedQualifier(c.text.clone(), c.kind.clone()), c.range);
                            diags.push(rep);
                            proof { d = d.push(rep); }
                        },
                    }
                }
                k = k + 1;
            }
            proof {
                let (t2, d2) = sized_items(*ast, 0, t0v, d0);
                assert(t2 == ctype_view(t));
                assert(d2 == d);
                assert(spec_type_from_ast(*ast, qualifiers@).value == Ok::<CTypeV, SemaGenError>(t2));
                assert(spec_type_from_ast(*ast, qualifiers@).diags == d2);
            }
            Ok(t)
        } else {
            proof {
                assert(old(diags)@ + Seq::<Report>::empty() =~= old(diags)@);
            }
            Err(SemaGenError { message: ReportMessage::UnknownDeclarator(ast.kind.clone()), location: ast.range })
        }
    }

    /// Records the members and documentation comments of a field declaration list, and reports
    /// what it cannot read.
    pub fn visit_field_decl_list(&self, ast: &SyntaxNode, rec: &mut Vec<Recorded>, diags: &mut Vec<Report>)
        requires
            !spec_field_items(*ast, 0, Seq::empty(), Seq::empty()).stuck,
        ensures
            records_view(final(rec)@) == records_view(old(rec)@) + spec_field_items(*ast, 0, Seq::empty(), Seq::empty()).records,
            final(diags)@ == old(diags)@ + spec_field_items(*ast, 0, Seq::empty(), Seq::empty()).diags,
        decreases *ast, 1int, 0int,
    {
        let ghost mut r: Seq<RecordedV> = Seq::empty();
        let ghost mut d: Seq<Report> = Seq::empty();
        proof {
            assert(diags@ =~= old(diags)@ + d);
            assert(records_view(rec@) =~= records_view(old(rec)@) + r);
        }
        let mut k: usize = 0;
        while k < ast.children.len()
            invariant
                k <= ast.children@.len(),
                diags@ == old(diags)@ + d,
                records_view(rec@) == records_view(old(rec)@) + r,
                spec_field_items(*ast, 0, Seq::empty(), Seq::empty()) == spec_field_items(*ast, k as int, r, d),
                !spec_field_items(*ast, 0, Seq::empty(), Seq::empty()).stuck,
            decreases ast.children.len() - k,
        {
            let c = &ast.children[k].1;
            if c.named {
                let kind = c.kind.as_str();
                if str_eq(kind, "field_declaration") {
                    proof {
                        lemma_child_smaller(*ast, k as int);
                    }
                    let ghost w = spec_visit_decl(*c, false);
                    proof {
                        crate::frontend::c::walker::lemma_visit_decl_err_records(*c, false);
                    }
                    match self.visit_decl(c, false, rec, diags) {
                        Ok(()) => {
                            proof {
                                assert(records_view(old(rec)@) + r + w.records =~= records_view(old(rec)@) + (r + w.records));
                                assert(old(diags)@ + d + w.diags =~= old(diags)@ + (d + w.diags));
                                r = r + w.records;
                                d = d + w.diags;
                            }
                        },
                        Err(e) => {
                            let rep = Report { message: e.message, location: Some(e.location) };
                            diags.push(rep);
                            proof {
                                assert(w.records =~= Seq::<RecordedV>::empty());
                                assert(records_view(old(rec)@) + r + w.records =~= records_view(old(rec)@) + r);
                                assert((old(diags)@ + d + w.diags).push(rep) =~= old(diags)@ + (d + w.diags).push(rep));
                                d = (d + w.diags).push(rep);
                            }
                        },
                    }
                } else if str_eq(kind, "preproc_call") {
                    let rep = report_at(ReportMessage::PreprocessorCallIngored("in decl list"), c.range);
                    diags.push(rep);
                    proof { d = d.push(rep); }
                } else if str_eq(kind, "comment") {
                } else {
                    match comment_style(kind) {
                        Some(style) => {
                            let item = Recorded::Comment(c.text.clone(), String::from_str(style), c.range);
                            proof {
                                assert(records_view(rec@.push(item)) =~= records_view(rec@).push(recorded_view(item)));
                                r = r.push(recorded_view(item));
                            }
                            rec.push(item);
                        },
                        None => {
                            let rep = report_at(ReportMessage::UnknownFieldDeclListItem(c.kind.clone()), c.range);
                            diags.push(rep);
                            proof { d = d.push(rep); }
                        },
                    }
                }
            }
            k = k + 1;
        }
    }

    /// Records a symbol for each declarator of a declaration (a type definition where
    /// `isTypeDefinition`), and reports the declarators it cannot read.
    #[verifier::rlimit(60)]
    #[verifier::spinoff_prover]
    pub fn visit_decl(&self, ast: &SyntaxNode, isTypeDefinition: bool, rec: &mut Vec<Recorded>, diags: &mut Vec<Report>)
        -> (r: Result<(), SemaGenError>)
        requires
            !spec_visit_decl(*ast, isTypeDefinition).stuck,
        ensures
            r == spec_visit_decl(*ast, isTypeDefinition).value,
            records_view(final(rec)@) == records_view(old(rec)@) + spec_visit_decl(*ast, isTypeDefinition).records,
            final(diags)@ == old(diags)@ + spec_visit_decl(*ast, isTypeDefinition).diags,
        decreases *ast, 3int, 0int,
    {
        let td = isTypeDefinition;
        let mut modifiers: Vec<Modifier> = Vec::new();
        let mut typeQualifiers: Vec<TypeQualifier> = Vec::new();
        let mut declarationQualifiers: Vec<DeclarationQualifier> = Vec::new();
        let mut functionQualifiers: Vec<FunctionQualifier> = Vec::new();
        let mut declarators: Vec<usize> = Vec::new();
        let mut declared: Option<CType> = None;
        let mut type_index: usize = 0;
        if td && ast.children.len() > 0 && str_eq(ast.children[0].1.text.as_str(), "__extension__") {
            declarationQualifiers.push(DeclarationQualifier::extension);
        }
        let ghost h0 = head_view(modifiers@, typeQualifiers@, declarationQualifiers@, functionQualifiers@, declarators@, declared);
        proof {
            assert(h0.modifiers =~= Seq::empty());
            assert(h0.declarators =~= Seq::empty());
            if td && ast.children@.len() > 0 && child_at(*ast, 0).text@ == "__extension__"@ {
                assert(h0.declQualifiers =~= seq![DeclQualifierV::extension]);
            } else {
                assert(h0.declQualifiers =~= Seq::empty());
            }
            assert(h0 == decl_start(*ast, td));
        }
        let ghost mut d: Seq<Report> = Seq::empty();
        proof {
            assert(diags@ =~= old(diags)@ + d);
        }
        let mut i: usize = 0;
        while i < ast.children.len()
            invariant
                i <= ast.children@.len(),
                td == isTypeDefinition,
                h0 == decl_start(*ast, td),
                diags@ == old(diags)@ + d,
                rec@ == old(rec)@,
                decl_items(*ast, 0, h0, Seq::empty()) == decl_items(*ast, i as int,
                    head_view(modifiers@, typeQualifiers@, declarationQualifiers@, functionQualifiers@, declarators@, declared), d),
                !decl_items(*ast, 0, h0, Seq::empty()).stuck,
                declared matches Some(t) ==> type_index < ast.children@.len()
                    && !spec_type_from_ast(ast.children@[type_index as int].1, Seq::empty()).stuck
                    && spec_type_from_ast(ast.children@[type_index as int].1, Seq::empty()).value == Ok::<CTypeV, SemaGenError>(ctype_view(t)),
                forall|j: int| 0 <= j < declarators@.len() ==> declarators@[j] < ast.children@.len(),
            decreases ast.children.len() - i,
        {
            let c = &ast.children[i].1;
            let ghost h = head_view(modifiers@, typeQualifiers@, declarationQualifiers@, functionQualifiers@, declarators@, declared);
            match &ast.children[i].0 {
                Some(f) => {
                    if str_eq(f.as_str(), "declarator") {
                        declarators.push(i);
                        proof {
                            assert(declarators@.map_values(|x: usize| x as int) =~= h.declarators.push(i as int));
                        }
                    } else if str_eq(f.as_str(), "type") {
                        if declared.is_some() {
                            proof {
                                assert(records_view(rec@) =~= records_view(old(rec)@) + Seq::<RecordedV>::empty());
                            }
                            return Err(SemaGenError { message: ReportMessage::DuplicateTypes, location: c.range });
                        }
                        proof {
                            lemma_child_smaller(*ast, i as int);
                        }
                        let ghost t = spec_type_from_ast(*c, Seq::empty());
                        match self.type_from_ast(c, Vec::new(), diags) {
                            Ok(ty) => {
                                declared = Some(ty);
                                type_index = i;
                                proof {
                                    assert(old(diags)@ + d + t.diags =~= old(diags)@ + (d + t.diags));
                                    d = d + t.diags;
                                }
                            },
                            Err(e) => {
                                proof {
                                    assert(old(diags)@ + d + t.diags =~= old(diags)@ + (d + t.diags));
                                    assert(records_view(rec@) =~= records_view(old(rec)@) + Seq::<RecordedV>::empty());
                                }
                                return Err(e);
                            },
                        }
                    }
                },
                None => {
                    if c.named {
                        let kind = c.kind.as_str();
                        if str_eq(kind, "storage_class_specifier") {
                            match Storage::from_str(c.text.as_str()) {
                                Some(st) => {
                                    let m = Modifier::storage(st);
                                    assert(modifiers_view(modifiers@.push(m)) =~= h.modifiers.push(ModifierV::storage(st)));
                                    modifiers.push(m);
                                },
                                None => {},
                            }
                        } else if str_eq(kind, "attribute_specifier") {
                            proof {
                                lemma_named_index(c.children@, 0);
                            }
                            match c.named_child(0) {
                                Some(list) => {
                                    let m = Modifier::attribute(Attribute { arguments: Self::args_from_ast(list) });
                                    assert(modifiers_view(modifiers@.push(m)) =~= h.modifiers.push(ModifierV::attribute(args_of(*list))));
                                    modifiers.push(m);
                                },
                                None => {
                                    let rep = report_at(ReportMessage::UnknownAttributeSpecifier, c.range);
                                    diags.push(rep);
                                    proof { d = d.push(rep); }
                                },
                            }
                        } else if str_eq(kind, "type_qualifier") {
                            match TypeQualifier::from_str(c.text.as_str()) {
                                Some(q) => {
                                    typeQualifiers.push(q);
                                },
                                None => match self.declaration_fromAST(c) {
                                    Ok(q) => {
                                        assert(decl_qualifiers_view(declarationQualifiers@.push(q))
                                            =~= h.declQualifiers.push(decl_qualifier_view(q)));
                                        declarationQualifiers.push(q);
                                    },
                                    Err(_) => match FunctionQualifier::from_str(c.text.as_str()) {
                                        Some(q) => {
                                            functionQualifiers.push(q);
                                        },
                                        None => {
                                            let rep = Report { message: ReportMessage::InapplicableQualifier(c.text.clone()), location: None };
                                            diags.push(rep);
                                            proof { d = d.push(rep); }
                                        },
                                    },
                                },
                            }
                        }
                    }
                },
            }
            i = i + 1;
        }
        let mut t = match declared {
            Some(t) => t,
            None => {
                proof {
                    assert(records_view(rec@) =~= records_view(old(rec)@) + Seq::<RecordedV>::empty());
                }
                return Err(SemaGenError { message: ReportMessage::DeclMissingType(ast.kind.clone()), location: ast.range });
            },
        };
        let ghost h = head_view(modifiers@, typeQualifiers@, declarationQualifiers@, functionQualifiers@, declarators@, Some(t));
        let ghost t0v = ctype_view(t);
        let ghost tyv = CTypeV { decl: ctype_view(t).decl, qualifiers: typeQualifiers@ };
        if declarators.len() == 0 {
            t.qualifiers = typeQualifiers;
            let v = Variable {
                modifiers,
                qualifiers: declarationQualifiers,
                cType: t,
                identifier: None,
                attachedExpression: None,
            };
            let item = Recorded::Symbol(Symbol::variable(v), ast.range);
            proof {
                assert(h.declarators =~= Seq::empty());
                assert(records_view(rec@.push(item)) =~= records_view(old(rec)@) + seq![recorded_view(item)]);
            }
            rec.push(item);
            let rep = Report { message: ReportMessage::MissingAnyDeclarators(ast.kind.clone()), location: None };
            diags.push(rep);
            return Ok(());
        }
        // The Microsoft calling conventions among the declarators.
        let mut ms: Vec<MSCallModifier> = Vec::new();
        let ghost dw = d;
        let mut j: usize = 0;
        while j < declarators.len()
            invariant
                j <= declarators@.len(),
                diags@ == old(diags)@ + d,
                forall|x: int| 0 <= x < declarators@.len() ==> declarators@[x] < ast.children@.len(),
                h.declarators == declarators@.map_values(|x: usize| x as int),
                ms_call_mods(*ast, h.declarators, 0, Seq::empty(), dw) == ms_call_mods(*ast, h.declarators, j as int, ms@, d),
            decreases declarators.len() - j,
        {
            let dn = &ast.children[declarators[j]].1;
            if str_eq(dn.kind.as_str(), "ms_call_modifier") {
                match MSCallModifier::from_str(dn.text.as_str()) {
                    Some(m) => {
                        ms.push(m);
                    },
                    None => {
                        let rep = report_at(ReportMessage::UnknownCallModifier(dn.text.clone()), dn.range);
                        diags.push(rep);
                        proof { d = d.push(rep); }
                    },
                }
            }
            j = j + 1;
        }
        // A symbol for each declarator, each with its own copy of the declared type: reading the
        // type again gives the same type.
        let ghost d1 = d;
        let ghost mut r: Seq<RecordedV> = Seq::empty();
        proof {
            assert(records_view(rec@) =~= records_view(old(rec)@) + r);
        }
        let mut j: usize = 0;
        while j < declarators.len()
            invariant
                j <= declarators@.len(),
                diags@ == old(diags)@ + d,
                records_view(rec@) == records_view(old(rec)@) + r,
                forall|x: int| 0 <= x < declarators@.len() ==> declarators@[x] < ast.children@.len(),
                h.declarators == declarators@.map_values(|x: usize| x as int),
                h.modifiers == modifiers_view(modifiers@),
                h.functionQualifiers == functionQualifiers@,
                h.declQualifiers == decl_qualifiers_view(declarationQualifiers@),
                type_index < ast.children@.len(),
                !spec_type_from_ast(ast.children@[type_index as int].1, Seq::empty()).stuck,
                spec_type_from_ast(ast.children@[type_index as int].1, Seq::empty()).value == Ok::<CTypeV, SemaGenError>(t0v),
                tyv == (CTypeV { decl: t0v.decl, qualifiers: typeQualifiers@ }),
                spec_declarators(*ast, td, h, tyv, ms@, 0, Seq::empty(), d1)
                    == spec_declarators(*ast, td, h, tyv, ms@, j as int, r, d),
                !spec_declarators(*ast, td, h, tyv, ms@, 0, Seq::empty(), d1).stuck,
            decreases declarators.len() - j,
        {
            let i = declarators[j];
            assert(declarators@[j as int] < ast.children@.len());
            let n = ast.children.len();
            assert(i < n);
            let dn = &ast.children[i].1;
            let sibling = if i + 1 < n { Some(&ast.children[i + 1].1) } else { None };
            let tn = &ast.children[type_index].1;
            proof {
                lemma_child_smaller(*ast, type_index as int);
                lemma_child_smaller(*ast, i as int);
            }
            let mut scratch: Vec<Report> = Vec::new();
            let again = match self.type_from_ast(tn, Vec::new(), &mut scratch) {
                Ok(x) => x,
                Err(_) => vstd::pervasive::unreached(),
            };
            let ty = CType { decl: again.decl, qualifiers: copy_values(&typeQualifiers) };
            let mods = copy_modifiers(&modifiers);
            let ghost s = spec_symbol_from_declarator(*dn, opt_node(sibling), h.modifiers, h.functionQualifiers,
                h.declQualifiers, ms@, tyv, td);
            assert(ctype_view(ty) == tyv);
            match self.symbolFromDeclarator(dn, sibling, mods, &functionQualifiers, &declarationQualifiers, &ms, ty, td, diags) {
                Ok(sym) => {
                    let item = Recorded::Symbol(sym, ast.range);
                    proof {
                        assert(records_view(rec@.push(item)) =~= records_view(rec@).push(recorded_view(item)));
                        assert(records_view(rec@.push(item)) =~= records_view(old(rec)@) + r.push(recorded_view(item)));
                        assert(old(diags)@ + d + s.diags =~= old(diags)@ + (d + s.diags));
                        r = r.push(recorded_view(item));
                        d = d + s.diags;
                    }
                    rec.push(item);
                },
                Err(e) => {
                    let loc = e.location;
                    let rep = Report { message: ReportMessage::SemGenFailed(dn.kind.clone(), Box::new(e)), location: Some(loc) };
                    proof {
                        assert((old(diags)@ + d + s.diags).push(rep) =~= old(diags)@ + (d + s.diags).push(rep));
                        d = (d + s.diags).push(rep);
                    }
                    diags.push(rep);
                },
            }
            j = j + 1;
        }
        Ok(())
    }

    /// The symbol that a declarator declares, given what its declaration specifies and the node
    /// that follows it.
    fn symbolFromDeclarator(&self, declarator: &SyntaxNode, sibling: Option<&SyntaxNode>, modifiers: Vec<Modifier>,
        functionQualifiers: &Vec<FunctionQualifier>, declarationQualifiers: &Vec<DeclarationQualifier>,
        msCallModifiers: &Vec<MSCallModifier>, _type: CType, isTypeDefinition: bool, diags: &mut Vec<Report>)
        -> (r: Result<Symbol, SemaGenError>)
        requires
            !spec_symbol_from_declarator(*declarator, opt_node(sibling), modifiers_view(modifiers@), functionQualifiers@,
                decl_qualifiers_view(declarationQualifiers@), msCallModifiers@, ctype_view(_type), isTypeDefinition).stuck,
        ensures
            final(diags)@ == old(diags)@ + spec_symbol_from_declarator(*declarator, opt_node(sibling), modifiers_view(modifiers@),
                functionQualifiers@, decl_qualifiers_view(declarationQualifiers@), msCallModifiers@, ctype_view(_type),
                isTypeDefinition).diags,
            match (spec_symbol_from_declarator(*declarator, opt_node(sibling), modifiers_view(modifiers@), functionQualifiers@,
                decl_qualifiers_view(declarationQualifiers@), msCallModifiers@, ctype_view(_type), isTypeDefinition).value, r) {
                (Ok(sv), Ok(s)) => symbol_view(s) == sv,
                (Err(e), Err(e2)) => e2 == e,
                _ => false,
            },
        decreases *declarator, 4int, 0int,
    {
        let mut attached: Option<AttachedExpression> = None;
        let ghost mut d0: Seq<Report> = Seq::empty();
        match sibling {
            Some(sib) => {
                if str_eq(sib.kind.as_str(), "bitfield_clause") {
                    proof {
                        lemma_named_index(sib.children@, 0);
                    }
                    match sib.named_child(0) {
                        Some(expr) => {
                            attached = Some(AttachedExpression::bitWidth(expr.text.clone()));
                        },
                        None => {
                            let rep = report_at(ReportMessage::MissingBitfieldClauseExpr, sib.range);
                            diags.push(rep);
                            proof { d0 = seq![rep]; }
                        },
                    }
                }
            },
            None => {},
        }
        proof {
            assert(diags@ =~= old(diags)@ + d0);
        }
        let r = self.declarator_chain(declarator, declarator.range, modifiers, functionQualifiers, declarationQualifiers,
            msCallModifiers, _type, isTypeDefinition, attached, diags);
        proof {
            let w = spec_declarator_chain(*declarator, declarator.range, modifiers_view(modifiers@), functionQualifiers@,
                decl_qualifiers_view(declarationQualifiers@), msCallModifiers@, ctype_view(_type), isTypeDefinition,
                attached_view(attached));
            assert(old(diags)@ + d0 + w.diags =~= old(diags)@ + (d0 + w.diags));
        }
        r
    }

    /// The standard attributes of an `attributed_declarator`, added to `mods`.
    fn standard_attributes_of(cur: &SyntaxNode, initial: Vec<Modifier>) -> (r: Result<Vec<Modifier>, SemaGenError>)
        ensures
            match (standard_attributes(*cur, 0, modifiers_view(initial@)), r) {
                (Ok(mv), Ok(m)) => modifiers_view(m@) == mv,
                (Err(e), Err(e2)) => e2 == e,
                _ => false,
            },
    {
        let ghost m0 = modifiers_view(initial@);
        let mut mods = initial;
        let mut k: usize = 0;
        while k < cur.children.len()
            invariant
                k <= cur.children@.len(),
                m0 == modifiers_view(initial@),
                standard_attributes(*cur, 0, m0) == standard_attributes(*cur, k as int, modifiers_view(mods@)),
            decreases cur.children.len() - k,
        {
            let c = &cur.children[k].1;
            if str_eq(c.kind.as_str(), "attribute_declaration") {
                mods = match Self::attribute_items_of(c, mods) {
                    Ok(m) => m,
                    Err(e) => { return Err(e); },
                };
            }
            k = k + 1;
        }
        Ok(mods)
    }

    /// The standard attributes of one `attribute_declaration`, added to `mods`.
    fn attribute_items_of(decl: &SyntaxNode, initial: Vec<Modifier>) -> (r: Result<Vec<Modifier>, SemaGenError>)
        ensures
            match (attribute_items(*decl, 0, modifiers_view(initial@)), r) {
                (Ok(mv), Ok(m)) => modifiers_view(m@) == mv,
                (Err(e), Err(e2)) => e2 == e,
                _ => false,
            },
    {
        let ghost m0 = modifiers_view(initial@);
        let mut mods = initial;
        let mut k: usize = 0;
        while k < decl.children.len()
            invariant
                k <= decl.children@.len(),
                m0 == modifiers_view(initial@),
                attribute_items(*decl, 0, m0) == attribute_items(*decl, k as int, modifiers_view(mods@)),
            decreases decl.children.len() - k,
        {
            let a = &decl.children[k].1;
            if str_eq(a.kind.as_str(), "attribute") {
                proof {
                    lemma_field_index(a.children@, "name"@);
                }
                let name = match a.child_by_field_name("name") {
                    Some(n) => n,
                    None => {
                        return Err(SemaGenError { message: ReportMessage::MissingStandardAttributeIdentifier, location: a.range });
                    },
                };
                let arguments = match Self::first_named_child_of_kind(a, "argument_list") {
                    Some(list) => Self::args_from_ast(list),
                    None => {
                        let v: Vec<String> = Vec::new();
                        assert(texts(v@) =~= Seq::empty());
                        v
                    },
                };
                let m = Modifier::standardAttribute(StandardAttribute {
                    prefix: field_string(a, "prefix"),
                    name: name.text.clone(),
                    arguments,
                });
                assert(modifiers_view(mods@.push(m)) =~= modifiers_view(mods@).push(modifier_view(m)));
                mods.push(m);
            }
            k = k + 1;
        }
        Ok(mods)
    }

    /// The first named child of a kind.
    fn first_named_child_of_kind<'b>(n: &'b SyntaxNode, kind: &str) -> (r: Option<&'b SyntaxNode>)
        ensures
            r == (match first_named_of_kind(*n, 0, kind@) {
                Some(i) => Some(&n.children@[i].1),
                None => None,
            }),
            first_named_of_kind(*n, 0, kind@) matches Some(i) ==> 0 <= i < n.children@.len(),
    {
        let mut k: usize = 0;
        while k < n.children.len()
            invariant
                k <= n.children@.len(),
                first_named_of_kind(*n, 0, kind@) == first_named_of_kind(*n, k as int, kind@),
            decreases n.children.len() - k,
        {
            let c = &n.children[k].1;
            if c.named && str_eq(c.kind.as_str(), kind) {
                return Some(c);
            }
            k = k + 1;
        }
        None
    }

    /// The type and pointer qualifiers behind a `*`; the others are reported.
    fn pointer_qualifiers(cur: &SyntaxNode, diags: &mut Vec<Report>) -> (r: (Vec<TypeQualifier>, Vec<PointerQualifier>))
        ensures
            r.0@ == pointer_items(*cur, 0, Seq::empty(), Seq::empty(), Seq::empty()).0,
            r.1@ == pointer_items(*cur, 0, Seq::empty(), Seq::empty(), Seq::empty()).1,
            final(diags)@ == old(diags)@ + pointer_items(*cur, 0, Seq::empty(), Seq::empty(), Seq::empty()).2,
    {
        let mut tq: Vec<TypeQualifier> = Vec::new();
        let mut pq: Vec<PointerQualifier> = Vec::new();
        let ghost mut d: Seq<Report> = Seq::empty();
        proof {
            assert(diags@ =~= old(diags)@ + d);
        }
        let mut k: usize = 0;
        while k < cur.children.len()
            invariant
                k <= cur.children@.len(),
                diags@ == old(diags)@ + d,
                pointer_items(*cur, 0, Seq::empty(), Seq::empty(), Seq::empty()) == pointer_items(*cur, k as int, tq@, pq@, d),
            decreases cur.children.len() - k,
        {
            let c = &cur.children[k].1;
            if str_eq(c.kind.as_str(), "type_qualifier") {
                match TypeQualifier::from_str(c.text.as_str()) {
                    Some(q) => { tq.push(q); },
                    None => match PointerQualifier::from_str(c.text.as_str()) {
                        Some(q) => { pq.push(q); },
                        None => {
                            let rep = report_at(ReportMessage::InapplicablePointerQualifier(c.text.clone()), c.range);
                            diags.push(rep);
                            proof { d = d.push(rep); }
                        },
                    },
                }
            }
            k = k + 1;
        }
        (tq, pq)
    }

    /// The Microsoft pointer modifiers among the `ms_pointer_modifier` children whose text
    /// names one.
    fn ms_pointer_modifiers(cur: &SyntaxNode) -> (r: Vec<MSPointerModifier>)
        ensures
            r@.map_values(|m: MSPointerModifier| ms_pointer_modifier_view(m)) == ms_pointer_items(*cur, 0, Seq::empty()),
    {
        let mut r: Vec<MSPointerModifier> = Vec::new();
        let mut k: usize = 0;
        assert(r@.map_values(|m: MSPointerModifier| ms_pointer_modifier_view(m)) =~= Seq::empty());
        while k < cur.children.len()
            invariant
                k <= cur.children@.len(),
                ms_pointer_items(*cur, 0, Seq::empty())
                    == ms_pointer_items(*cur, k as int, r@.map_values(|m: MSPointerModifier| ms_pointer_modifier_view(m))),
            decreases cur.children.len() - k,
        {
            let c = &cur.children[k].1;
            if str_eq(c.kind.as_str(), "ms_pointer_modifier") {
                match MSPointerModifier::from_ast_name(c.text.as_str()) {
                    Some(m) => {
                        assert(r@.push(m).map_values(|m: MSPointerModifier| ms_pointer_modifier_view(m))
                            =~= r@.map_values(|m: MSPointerModifier| ms_pointer_modifier_view(m)).push(ms_pointer_modifier_view(m)));
                        r.push(m);
                    },
                    None => {},
                }
            }
            k = k + 1;
        }
        r
    }

    /// The type and array qualifiers in array brackets; the others are reported.
    fn array_qualifiers(cur: &SyntaxNode, diags: &mut Vec<Report>) -> (r: (Vec<TypeQualifier>, Vec<ArrayQualifier>))
        ensures
            r.0@ == array_items(*cur, 0, Seq::empty(), Seq::empty(), Seq::empty()).0,
            r.1@ == array_items(*cur, 0, Seq::empty(), Seq::empty(), Seq::empty()).1,
            final(diags)@ == old(diags)@ + array_items(*cur, 0, Seq::empty(), Seq::empty(), Seq::empty()).2,
    {
        let mut tq: Vec<TypeQualifier> = Vec::new();
        let mut aq: Vec<ArrayQualifier> = Vec::new();
        let ghost mut d: Seq<Report> = Seq::empty();
        proof {
            assert(diags@ =~= old(diags)@ + d);
        }
        let mut k: usize = 0;
        while k < cur.children.len()
            invariant
                k <= cur.children@.len(),
                diags@ == old(diags)@ + d,
                array_items(*cur, 0, Seq::empty(), Seq::empty(), Seq::empty()) == array_items(*cur, k as int, tq@, aq@, d),
            decreases cur.children.len() - k,
        {
            let c = &cur.children[k].1;
            if str_eq(c.kind.as_str(), "type_qualifier") {
                match TypeQualifier::from_str(c.text.as_str()) {
                    Some(q) => { tq.push(q); },
                    None => match ArrayQualifier::from_str(c.text.as_str()) {
                        Some(q) => { aq.push(q); },
                        None => {
                            let rep = report_at(ReportMessage::InapplicableQualifier(c.text.clone()), c.range);
                            diags.push(rep);
                            proof { d = d.push(rep); }
                        },
                    },
                }
            }
            k = k + 1;
        }
        (tq, aq)
    }

    /// The number of named children.
    fn named_count(n: &SyntaxNode) -> (r: usize)
        ensures
            r as int == count_named(n.children@),
    {
        let mut k: usize = 0;
        let mut c: usize = 0;
        assert(n.children@.take(0) =~= Seq::<(Option<String>, SyntaxNode)>::empty());
        while k < n.children.len()
            invariant
                k <= n.children@.len(),
                c <= k,
                c as int == count_named(n.children@.take(k as int)),
            decreases n.children.len() - k,
        {
            assert(n.children@.take(k + 1).drop_last() =~= n.children@.take(k as int));
            if n.children[k].1.named {
                c = c + 1;
            }
            k = k + 1;
        }
        assert(n.children@.take(n.children@.len() as int) =~= n.children@);
        c
    }

    /// Where a chain of declarators ends without an identifier: an anonymous variable, or, in a
    /// type definition, an error.
    fn anonymous_symbol(range: crate::compiler::strings::Location, mods: Vec<Modifier>, dq: &Vec<DeclarationQualifier>,
        ty: CType, td: bool, att: Option<AttachedExpression>) -> (r: Result<Symbol, SemaGenError>)
        ensures
            match (anonymous_end(range, modifiers_view(mods@), decl_qualifiers_view(dq@), ctype_view(ty), td, attached_view(att)).value, r) {
                (Ok(sv), Ok(s)) => symbol_view(s) == sv,
                (Err(e), Err(e2)) => e2 == e,
                _ => false,
            },
    {
        if td {
            Err(SemaGenError { message: ReportMessage::MissingTypedefIdentifier, location: range })
        } else {
            Ok(Symbol::variable(Variable {
                modifiers: mods,
                qualifiers: copy_decl_qualifiers(dq),
                cType: ty,
                identifier: None,
                attachedExpression: att,
            }))
        }
    }

    /// Goes on along the chain of declarators into the child in the field `declarator`, if
    /// there is one.
    fn chain_next(&self, cur: &SyntaxNode, range: crate::compiler::strings::Location, mods: Vec<Modifier>,
        fq: &Vec<FunctionQualifier>, dq: &Vec<DeclarationQualifier>, ms: &Vec<MSCallModifier>, ty: CType, td: bool,
        att: Option<AttachedExpression>, diags: &mut Vec<Report>) -> (r: Result<Symbol, SemaGenError>)
        requires
            !crate::frontend::c::walker::chain_next(*cur, range, modifiers_view(mods@), fq@, decl_qualifiers_view(dq@), ms@,
                ctype_view(ty), td, attached_view(att), Seq::empty()).stuck,
        ensures
            final(diags)@ == old(diags)@ + crate::frontend::c::walker::chain_next(*cur, range, modifiers_view(mods@), fq@,
                decl_qualifiers_view(dq@), ms@, ctype_view(ty), td, attached_view(att), Seq::empty()).diags,
            match (crate::frontend::c::walker::chain_next(*cur, range, modifiers_view(mods@), fq@, decl_qualifiers_view(dq@),
                ms@, ctype_view(ty), td, attached_view(att), Seq::empty()).value, r) {
                (Ok(sv), Ok(s)) => symbol_view(s) == sv,
                (Err(e), Err(e2)) => e2 == e,
                _ => false,
            },
        decreases *cur, 2int, 0int,
    {
        proof {
            lemma_field_index(cur.children@, "declarator"@);
        }
        match cur.child_by_field_name("declarator") {
            Some(next) => {
                proof {
                    lemma_child_smaller(*cur, field_index(cur.children@, "declarator"@)->Some_0);
                    let w = spec_declarator_chain(*next, range, modifiers_view(mods@), fq@, decl_qualifiers_view(dq@), ms@,
                        ctype_view(ty), td, attached_view(att));
                    assert(Seq::<Report>::empty() + w.diags =~= w.diags);
                }
                self.declarator_chain(next, range, mods, fq, dq, ms, ty, td, att, diags)
            },
            None => {
                proof {
                    assert(old(diags)@ + (Seq::<Report>::empty() + Seq::<Report>::empty()) =~= old(diags)@);
                }
                Self::anonymous_symbol(range, mods, dq, ty, td, att)
            },
        }
    }

    /// What a chain of declarators declares, walked from `cur` inwards, given the type and the
    /// modifiers collected so far; `range` is that of the outermost declarator.
    fn declarator_chain(&self, cur: &SyntaxNode, range: crate::compiler::strings::Location, mods: Vec<Modifier>,
        fq: &Vec<FunctionQualifier>, dq: &Vec<DeclarationQualifier>, ms: &Vec<MSCallModifier>, ty: CType, td: bool,
        att: Option<AttachedExpression>, diags: &mut Vec<Report>) -> (r: Result<Symbol, SemaGenError>)
        requires
            !spec_declarator_chain(*cur, range, modifiers_view(mods@), fq@, decl_qualifiers_view(dq@), ms@, ctype_view(ty),
                td, attached_view(att)).stuck,
        ensures
            final(diags)@ == old(diags)@ + spec_declarator_chain(*cur, range, modifiers_view(mods@), fq@,
                decl_qualifiers_view(dq@), ms@, ctype_view(ty), td, attached_view(att)).diags,
            match (spec_declarator_chain(*cur, range, modifiers_view(mods@), fq@, decl_qualifiers_view(dq@), ms@,
                ctype_view(ty), td, attached_view(att)).value, r) {
                (Ok(sv), Ok(s)) => symbol_view(s) == sv,
                (Err(e), Err(e2)) => e2 == e,
                _ => false,
            },
        decreases *cur, 3int, 0int,
    {
        let kind = cur.kind.as_str();
        proof {
            assert(old(diags)@ + Seq::<Report>::empty() =~= old(diags)@);
        }
        if str_eq(kind, "init_declarator") {
            proof {
                lemma_field_index(cur.children@, "declarator"@);
                lemma_field_index(cur.children@, "value"@);
            }
            let next = match cur.child_by_field_name("declarator") {
                Some(n) => n,
                None => {
                    return Err(SemaGenError { message: ReportMessage::MissingInnerDeclarator(cur.kind.clone()), location: cur.range });
                },
            };
            if att.is_some() {
                match att {
                    Some(AttachedExpression::bitWidth(_)) => {
                        diags.push(report_at(ReportMessage::InitializerAndBitfieldClause, cur.range));
                    },
                    _ => {},
                }
                return Err(SemaGenError { message: ReportMessage::DuplicateInitializer, location: cur.range });
            }
            let value = match cur.child_by_field_name("value") {
                Some(v) => v,
                None => {
                    return Err(SemaGenError { message: ReportMessage::MissingValue(cur.kind.clone()), location: cur.range });
                },
            };
            proof {
                lemma_child_smaller(*cur, field_index(cur.children@, "declarator"@)->Some_0);
            }
            self.declarator_chain(next, range, mods, fq, dq, ms, ty, td, Some(AttachedExpression::value(value.text.clone())), diags)
        } else if str_eq(kind, "attributed_declarator") {
            if cur.children.len() == 0 {
                return Err(SemaGenError { message: ReportMessage::MissingInnerDeclarator(cur.kind.clone()), location: cur.range });
            }
            let m2 = match Self::standard_attributes_of(cur, mods) {
                Ok(m) => m,
                Err(e) => { return Err(e); },
            };
            proof {
                lemma_child_smaller(*cur, 0);
            }
            self.declarator_chain(&cur.children[0].1, range, m2, fq, dq, ms, ty, td, att, diags)
        } else if str_eq(kind, "pointer_declarator") || str_eq(kind, "abstract_pointer_declarator") {
            let (tq, pq) = Self::pointer_qualifiers(cur, diags);
            let ghost d1 = pointer_items(*cur, 0, Seq::empty(), Seq::empty(), Seq::empty()).2;
            let mut msm = Self::ms_pointer_modifiers(cur);
            if cur.children.len() > 0 && str_eq(cur.children[0].1.kind.as_str(), "ms_based_modifier") {
                let first = &cur.children[0].1;
                if first.children.len() < 2 {
                    return Err(SemaGenError { message: ReportMessage::MissingArgumentList, location: first.range });
                }
                let args = &first.children[1].1;
                if !str_eq(args.kind.as_str(), "argument_list") {
                    return vstd::pervasive::unreached();
                }
                let m = MSPointerModifier::based(Self::args_from_ast(args));
                assert(msm@.push(m).map_values(|m: MSPointerModifier| ms_pointer_modifier_view(m))
                    =~= msm@.map_values(|m: MSPointerModifier| ms_pointer_modifier_view(m)).push(ms_pointer_modifier_view(m)));
                msm.push(m);
            }
            let ghost tyv = ctype_view(ty);
            let ghost mv = msm@.map_values(|m: MSPointerModifier| ms_pointer_modifier_view(m));
            let ty2 = CType {
                decl: Box::new(TypeDecl::pointer(Pointer { msSpecificModifiers: msm, qualifiers: pq, pointeeType: ty })),
                qualifiers: tq,
            };
            proof {
                assert(type_decl_view(*ty2.decl) == TypeDeclV::pointer(PointerV {
                    msSpecificModifiers: mv, qualifiers: pq@, pointeeType: tyv }));
                assert(ctype_view(ty2) == CTypeV {
                    decl: Box::new(TypeDeclV::pointer(PointerV { msSpecificModifiers: mv, qualifiers: pq@, pointeeType: tyv })),
                    qualifiers: tq@,
                });
            }
            proof {
                crate::frontend::c::walker::lemma_chain_next_prefix(*cur, range, modifiers_view(mods@), fq@,
                    decl_qualifiers_view(dq@), ms@, ctype_view(ty2), td, attached_view(att), d1);
                assert(spec_declarator_chain(*cur, range, modifiers_view(mods@), fq@, decl_qualifiers_view(dq@), ms@,
                    tyv, td, attached_view(att)) == crate::frontend::c::walker::chain_next(*cur, range, modifiers_view(mods@),
                    fq@, decl_qualifiers_view(dq@), ms@, ctype_view(ty2), td, attached_view(att), d1));
            }
            proof {
                crate::frontend::c::walker::lemma_chain_next_prefix(*cur, range, modifiers_view(mods@), fq@,
                    decl_qualifiers_view(dq@), ms@, ctype_view(ty2), td, attached_view(att), d1);
            }
            let r = self.chain_next(cur, range, mods, fq, dq, ms, ty2, td, att, diags);
            proof {
                let w = crate::frontend::c::walker::chain_next(*cur, range, modifiers_view(mods@), fq@, decl_qualifiers_view(dq@),
                    ms@, ctype_view(ty2), td, attached_view(att), Seq::empty());
                let w1 = crate::frontend::c::walker::chain_next(*cur, range, modifiers_view(mods@), fq@, decl_qualifiers_view(dq@),
                    ms@, ctype_view(ty2), td, attached_view(att), d1);
                assert(w1.diags =~= d1 + w.diags);
                assert(old(diags)@ + d1 + w.diags =~= old(diags)@ + w1.diags);
            }
            r
        } else if str_eq(kind, "array_declarator") || str_eq(kind, "abstract_array_declarator") {
            let (tq, aq) = Self::array_qualifiers(cur, diags);
            let ghost d1 = array_items(*cur, 0, Seq::empty(), Seq::empty(), Seq::empty()).2;
            let count = field_string(cur, "size");
            let ghost tyv = ctype_view(ty);
            let ty2 = CType {
                decl: Box::new(TypeDecl::array(Array { count, elementType: ty, qualifiers: aq })),
                qualifiers: tq,
            };
            proof {
                assert(type_decl_view(*ty2.decl) == TypeDeclV::array(ArrayV {
                    count: field_text(*cur, "size"@), elementType: tyv, qualifiers: aq@ }));
                assert(ctype_view(ty2) == CTypeV {
                    decl: Box::new(TypeDeclV::array(ArrayV { count: field_text(*cur, "size"@), elementType: tyv, qualifiers: aq@ })),
                    qualifiers: tq@,
                });
            }
            proof {
                crate::frontend::c::walker::lemma_chain_next_prefix(*cur, range, modifiers_view(mods@), fq@,
                    decl_qualifiers_view(dq@), ms@, ctype_view(ty2), td, attached_view(att), d1);
            }
            let r = self.chain_next(cur, range, mods, fq, dq, ms, ty2, td, att, diags);
            proof {
                let w = crate::frontend::c::walker::chain_next(*cur, range, modifiers_view(mods@), fq@, decl_qualifiers_view(dq@),
                    ms@, ctype_view(ty2), td, attached_view(att), Seq::empty());
                let w1 = crate::frontend::c::walker::chain_next(*cur, range, modifiers_view(mods@), fq@, decl_qualifiers_view(dq@),
                    ms@, ctype_view(ty2), td, attached_view(att), d1);
                assert(w1.diags =~= d1 + w.diags);
                assert(old(diags)@ + d1 + w.diags =~= old(diags)@ + w1.diags);
            }
            r
        } else if str_eq(kind, "parenthesized_declarator") || str_eq(kind, "abstract_parenthesized_declarator") {
            let cnt = Self::named_count(cur);
            if cnt == 0 {
                return Err(SemaGenError { message: ReportMessage::MissingInnerDeclarator(cur.kind.clone()), location: cur.range });
            }
            proof {
                lemma_named_index(cur.children@, cnt - 1);
            }
            match cur.named_child(cnt - 1) {
                Some(next) => {
                    proof {
                        lemma_child_smaller(*cur, named_index(cur.children@, cnt - 1)->Some_0);
                    }
                    self.declarator_chain(next, range, mods, fq, dq, ms, ty, td, att, diags)
                },
                None => vstd::pervasive::unreached(),
            }
        } else if str_eq(kind, "function_declarator") || str_eq(kind, "abstract_function_declarator") {
            proof {
                lemma_field_index(cur.children@, "parameters"@);
            }
            let ghost mut d1: Seq<Report> = Seq::empty();
            let parameters = match cur.child_by_field_name("parameters") {
                Some(list) => {
                    proof {
                        lemma_child_smaller(*cur, field_index(cur.children@, "parameters"@)->Some_0);
                        d1 = spec_parameters(*list, 0, Seq::empty(), Seq::empty()).diags;
                    }
                    self.parameters_from_list(list, diags)
                },
                None => {
                    let v: Vec<Parameter<Variable>> = Vec::new();
                    assert(parameters_view(v@) =~= Seq::empty());
                    v
                },
            };
            let f = Function {
                modifiers: copy_modifiers(&mods),
                functionQualifiers: copy_values(fq),
                declQualifiers: copy_decl_qualifiers(dq),
                returnType: ty,
                msSpecifcModifiers: copy_values(ms),
                parameters,
                inlineAssembly: None,
                name: None,
            };
            let ghost fv = FunctionV {
                modifiers: modifiers_view(mods@),
                functionQualifiers: fq@,
                declQualifiers: decl_qualifiers_view(dq@),
                returnType: ctype_view(ty),
                msSpecifcModifiers: ms@,
                parameters: parameters_view(f.parameters@),
                hasInlineAssembly: false,
                name: None,
            };
            proof {
                assert(function_view(f) == fv);
            }
            let ty2 = CType { decl: Box::new(TypeDecl::function(f)), qualifiers: Vec::new() };
            proof {
                assert(type_decl_view(*ty2.decl) == TypeDeclV::function(fv));
                assert(ctype_view(ty2) == CTypeV { decl: Box::new(TypeDeclV::function(fv)), qualifiers: Seq::empty() });
                crate::frontend::c::walker::lemma_chain_next_prefix(*cur, range, modifiers_view(mods@), fq@,
                    decl_qualifiers_view(dq@), ms@, ctype_view(ty2), td, attached_view(att), d1);
            }
            proof {
                crate::frontend::c::walker::lemma_chain_next_prefix(*cur, range, modifiers_view(mods@), fq@,
                    decl_qualifiers_view(dq@), ms@, ctype_view(ty2), td, attached_view(att), d1);
            }
            let r = self.chain_next(cur, range, mods, fq, dq, ms, ty2, td, att, diags);
            proof {
                let w = crate::frontend::c::walker::chain_next(*cur, range, modifiers_view(mods@), fq@, decl_qualifiers_view(dq@),
                    ms@, ctype_view(ty2), td, attached_view(att), Seq::empty());
                let w1 = crate::frontend::c::walker::chain_next(*cur, range, modifiers_view(mods@), fq@, decl_qualifiers_view(dq@),
                    ms@, ctype_view(ty2), td, attached_view(att), d1);
                assert(w1.diags =~= d1 + w.diags);
                assert(old(diags)@ + d1 + w.diags =~= old(diags)@ + w1.diags);
            }
            r
        } else if str_eq(kind, "identifier") || str_eq(kind, "field_identifier") || str_eq(kind, "type_identifier") {
            if !td && str_eq(kind, "type_identifier") {
                return vstd::pervasive::unreached();
            }
            let id = cur.text.clone();
            let ghost tyv = ctype_view(ty);
            proof {
                assert(tyv.decl == Box::new(type_decl_view(*ty.decl)));
            }
            let CType { decl, qualifiers } = ty;
            match *decl {
                TypeDecl::function(f) => {
                    let ghost fv = function_view(f);
                    proof {
                        assert(type_decl_view(TypeDecl::function(f)) == TypeDeclV::function(fv));
                    }
                    let mut f = f;
                    f.name = Some(id);
                    proof {
                        assert(function_view(f) == FunctionV { name: Some(cur.text@), ..fv });
                    }
                    Ok(Symbol::function(f))
                },
                other => {
                    proof {
                        assert(!(type_decl_view(other) is function)) by {
                            match other {
                                TypeDecl::function(_) => {},
                                _ => {},
                            }
                        }
                    }
                    let ty = CType { decl: Box::new(other), qualifiers };
                    assert(ctype_view(ty) == tyv);
                    if td {
                        Ok(Symbol::typeDefinition(TypeDefinition {
                            qualifiers: copy_decl_qualifiers(dq),
                            name: id,
                            originalType: ty,
                            attributes: attributes_among(&mods),
                        }))
                    } else {
                        Ok(Symbol::variable(Variable {
                            modifiers: mods,
                            qualifiers: copy_decl_qualifiers(dq),
                            cType: ty,
                            identifier: Some(id),
                            attachedExpression: att,
                        }))
                    }
                },
            }
        } else {
            Err(SemaGenError { message: ReportMessage::UnknownDeclarator(cur.kind.clone()), location: cur.range })
        }
    }

    /// The parameters of a parameter list: each `parameter_declaration` that reads as a
    /// parameter; the others are reported.
    fn parameters_from_list(&self, list: &SyntaxNode, diags: &mut Vec<Report>) -> (r: Vec<Parameter<Variable>>)
        requires
            !spec_parameters(*list, 0, Seq::empty(), Seq::empty()).stuck,
        ensures
            parameters_view(r@) == spec_parameters(*list, 0, Seq::empty(), Seq::empty()).value,
            final(diags)@ == old(diags)@ + spec_parameters(*list, 0, Seq::empty(), Seq::empty()).diags,
        decreases *list, 1int, 0int,
    {
        let mut r: Vec<Parameter<Variable>> = Vec::new();
        let ghost mut d: Seq<Report> = Seq::empty();
        proof {
            assert(diags@ =~= old(diags)@ + d);
            assert(parameters_view(r@) =~= Seq::empty());
        }
        let mut k: usize = 0;
        while k < list.children.len()
            invariant
                k <= list.children@.len(),
                diags@ == old(diags)@ + d,
                spec_parameters(*list, 0, Seq::empty(), Seq::empty()) == spec_parameters(*list, k as int, parameters_view(r@), d),
                !spec_parameters(*list, 0, Seq::empty(), Seq::empty()).stuck,
            decreases list.children.len() - k,
        {
            let c = &list.children[k].1;
            if str_eq(c.kind.as_str(), "parameter_declaration") {
                proof {
                    lemma_child_smaller(*list, k as int);
                }
                let ghost w = spec_parameter_from_ast(*c);
                match self.parameter_from_ast(c, diags) {
                    Ok(p) => {
                        proof {
                            assert(r@.push(p).drop_last() =~= r@);
                            assert(old(diags)@ + d + w.diags =~= old(diags)@ + (d + w.diags));
                            d = d + w.diags;
                        }
                        r.push(p);
                    },
                    Err(e) => {
                        let rep = Report { message: e.message, location: Some(e.location) };
                        diags.push(rep);
                        proof {
                            assert((old(diags)@ + d + w.diags).push(rep) =~= old(diags)@ + (d + w.diags).push(rep));
                            d = (d + w.diags).push(rep);
                        }
                    },
                }
            }
            k = k + 1;
        }
        r
    }

    /// The parameter that a parameter declaration declares: exactly one variable.
    fn parameter_from_ast(&self, ast: &SyntaxNode, diags: &mut Vec<Report>) -> (r: Result<Parameter<Variable>, SemaGenError>)
        requires
            !spec_parameter_from_ast(*ast).stuck,
        ensures
            final(diags)@ == old(diags)@ + spec_parameter_from_ast(*ast).diags,
            match (spec_parameter_from_ast(*ast).value, r) {
                (Ok(pv), Ok(p)) => parameter_view(p) == pv,
                (Err(e), Err(e2)) => e2 == e,
                _ => false,
            },
        decreases *ast, 4int, 0int,
    {
        let kind = ast.kind.as_str();
        if str_eq(kind, "parameter_declaration") {
            let mut symbols: Vec<Recorded> = Vec::new();
            let ghost w = spec_visit_decl(*ast, false);
            match self.visit_decl(ast, false, &mut symbols, diags) {
                Ok(()) => {},
                Err(e) => { return Err(e); },
            }
            proof {
                assert(records_view(symbols@) =~= w.records) by {
                    assert(records_view(Seq::<Recorded>::empty()) =~= Seq::empty());
                    assert(Seq::<RecordedV>::empty() + w.records =~= w.records);
                }
            }
            if symbols.len() != 1 {
                return Err(SemaGenError { message: ReportMessage::WeirdFunctionParameter, location: ast.range });
            }
            proof {
                assert(records_view(symbols@)[0] == recorded_view(symbols@[0]));
            }
            let item = symbols.pop();
            match item {
                Some(Recorded::Symbol(Symbol::variable(v), _)) => {
                    Ok(Parameter::regular(v))
                },
                _ => Err(SemaGenError { message: ReportMessage::WeirdFunctionParameter, location: ast.range }),
            }
        } else if str_eq(kind, "variadic_parameter") {
            proof {
                assert(old(diags)@ + Seq::<Report>::empty() =~= old(diags)@);
            }
            Ok(Parameter::variadic(None))
        } else {
            proof {
                assert(old(diags)@ + Seq::<Report>::empty() =~= old(diags)@);
            }
            Err(SemaGenError { message: ReportMessage::UnsupportedFunctionParameterDecl(ast.kind.clone()), location: ast.range })
        }
    }

    /// Records a `struct`, `union` or `enum` at the top level, without its members or cases,
    /// then what its body holds.
    fn symbolize_top_level_type(&self, c: &SyntaxNode, rec: &mut Vec<Recorded>, diags: &mut Vec<Report>)
        requires
            !top_level_type(*c, Seq::empty(), Seq::empty()).stuck,
        ensures
            records_view(final(rec)@) == records_view(old(rec)@) + top_level_type(*c, Seq::empty(), Seq::empty()).records,
            final(diags)@ == old(diags)@ + top_level_type(*c, Seq::empty(), Seq::empty()).diags,
    {
        let ghost e = Seq::<RecordedV>::empty();
        let ghost f = Seq::<Report>::empty();
        if str_eq(c.kind.as_str(), "enum_specifier") {
            let ghost hd = enum_head(*c).1;
            match self.enumerationFromAST(c, diags) {
                Err(x) => {
                    let rep = Report { message: ReportMessage::SemGenFailed(c.kind.clone(), Box::new(x)), location: None };
                    proof {
                        assert((old(diags)@ + hd).push(rep) =~= old(diags)@ + (f + hd).push(rep));
                        assert(records_view(rec@) =~= records_view(old(rec)@) + Seq::<RecordedV>::empty());
                    }
                    diags.push(rep);
                },
                Ok((en, body)) => {
                    let item = Recorded::Symbol(Symbol::enumeration(en), c.range);
                    proof {
                        assert(records_view(rec@.push(item)) =~= records_view(old(rec)@) + e.push(recorded_view(item)));
                    }
                    rec.push(item);
                    match body {
                        Some(b) => {
                            proof {
                                lemma_field_index(c.children@, "body"@);
                                lemma_enum_items_shift(*b, 0, e.push(recorded_view(item)), f + hd);
                            }
                            let ghost w = enum_items(*b, 0, Seq::empty(), Seq::empty());
                            let ghost r1 = rec@;
                            let ghost d1 = diags@;
                            self.visit_enum_decl_list(b, rec, diags);
                            proof {
                                assert(records_view(old(rec)@) + e.push(recorded_view(item)) + w.0
                                    =~= records_view(old(rec)@) + (e.push(recorded_view(item)) + w.0));
                                assert(old(diags)@ + hd + w.1 =~= old(diags)@ + ((f + hd) + w.1));
                            }
                        },
                        None => {
                            proof {
                                assert(old(diags)@ + hd =~= old(diags)@ + (f + hd));
                            }
                        },
                    }
                },
            }
        } else {
            let ghost hd = container_head(*c).1;
            let is_struct = str_eq(c.kind.as_str(), "struct_specifier");
            match self.containerFromAST(c, diags) {
                Err(x) => {
                    let rep = Report { message: ReportMessage::SemGenFailed(c.kind.clone(), Box::new(x)), location: None };
                    proof {
                        assert((old(diags)@ + hd).push(rep) =~= old(diags)@ + (f + hd).push(rep));
                        assert(records_view(rec@) =~= records_view(old(rec)@) + Seq::<RecordedV>::empty());
                    }
                    diags.push(rep);
                },
                Ok((ct, body)) => {
                    let sym = if is_struct { Symbol::structure(ct) } else { Symbol::union(ct) };
                    let item = Recorded::Symbol(sym, c.range);
                    proof {
                        assert(records_view(rec@.push(item)) =~= records_view(old(rec)@) + e.push(recorded_view(item)));
                    }
                    rec.push(item);
                    match body {
                        Some(b) => {
                            proof {
                                lemma_field_index(c.children@, "body"@);
                                lemma_field_items_shift(*b, 0, e.push(recorded_view(item)), f + hd);
                            }
                            let ghost w = spec_field_items(*b, 0, Seq::empty(), Seq::empty());
                            self.visit_field_decl_list(b, rec, diags);
                            proof {
                                assert(records_view(old(rec)@) + e.push(recorded_view(item)) + w.records
                                    =~= records_view(old(rec)@) + (e.push(recorded_view(item)) + w.records));
                                assert(old(diags)@ + hd + w.diags =~= old(diags)@ + ((f + hd) + w.diags));
                            }
                        },
                        None => {
                            proof {
                                assert(old(diags)@ + hd =~= old(diags)@ + (f + hd));
                            }
                        },
                    }
                },
            }
        }
    }

    /// Records what the children of a node declare at the top level, and reports what it
    /// cannot read.
    pub fn gen_sema(&self, ast: &SyntaxNode, rec: &mut Vec<Recorded>, diags: &mut Vec<Report>)
        requires
            !spec_gen_sema(self.config.preprocessor_defines@, self.config.ingore_header_guard_defines, *ast).stuck,
        ensures
            records_view(final(rec)@) == records_view(old(rec)@)
                + spec_gen_sema(self.config.preprocessor_defines@, self.config.ingore_header_guard_defines, *ast).records,
            final(diags)@ == old(diags)@
                + spec_gen_sema(self.config.preprocessor_defines@, self.config.ingore_header_guard_defines, *ast).diags,
        decreases *ast, 1int, 0int,
    {
        let ghost defines = self.config.preprocessor_defines@;
        let ghost guards = self.config.ingore_header_guard_defines;
        let ghost mut r: Seq<RecordedV> = Seq::empty();
        let ghost mut d: Seq<Report> = Seq::empty();
        proof {
            assert(diags@ =~= old(diags)@ + d);
            assert(records_view(rec@) =~= records_view(old(rec)@) + r);
        }
        let mut k: usize = 0;
        while k < ast.children.len()
            invariant
                k <= ast.children@.len(),
                defines == self.config.preprocessor_defines@,
                guards == self.config.ingore_header_guard_defines,
                diags@ == old(diags)@ + d,
                records_view(rec@) == records_view(old(rec)@) + r,
                spec_scope_items(defines, guards, *ast, 0, Seq::empty(), Seq::empty())
                    == spec_scope_items(defines, guards, *ast, k as int, r, d),
                !spec_scope_items(defines, guards, *ast, 0, Seq::empty(), Seq::empty()).stuck,
            decreases ast.children.len() - k,
        {
            let c = &ast.children[k].1;
            proof {
                lemma_child_smaller(*ast, k as int);
            }
            let kind = c.kind.as_str();
            if !c.named {
                let rep = report_at(ReportMessage::ScopeChildIngored(c.kind.clone()), c.range);
                diags.push(rep);
                proof { d = d.push(rep); }
            } else if str_eq(kind, "preproc_include") {
                proof {
                    lemma_field_index(c.children@, "path"@);
                }
                match c.child_by_field_name("path") {
                    None => {
                        let rep = report_at(ReportMessage::PreprocessorMissingIncludePath, c.range);
                        diags.push(rep);
                        proof { d = d.push(rep); }
                    },
                    Some(path) => {
                        if str_eq(path.kind.as_str(), "system_lib_string") {
                            let n = path.text.as_str().unicode_len();
                            let inner = path.text.as_str().substring_char(1, n - 1);
                            let item = Recorded::Include(IncludedHeader::system(String::from_str(inner)));
                            proof {
                                assert(records_view(rec@.push(item)) =~= records_view(rec@).push(recorded_view(item)));
                                assert(records_view(old(rec)@) + r + seq![recorded_view(item)]
                                    =~= records_view(old(rec)@) + r.push(recorded_view(item)));
                                r = r.push(recorded_view(item));
                            }
                            rec.push(item);
                        } else if str_eq(path.kind.as_str(), "string_literal") {
                            if path.children.len() < 2 {
                                let rep = report_at(ReportMessage::PreprocessorMissingIncludePathLocal, path.range);
                                diags.push(rep);
                                proof { d = d.push(rep); }
                            } else {
                                let item = Recorded::Include(IncludedHeader::local(path.children[1].1.text.clone()));
                                proof {
                                    assert(records_view(rec@.push(item)) =~= records_view(rec@).push(recorded_view(item)));
                                    r = r.push(recorded_view(item));
                                }
                                rec.push(item);
                            }
                        }
                    },
                }
            } else if str_eq(kind, "preproc_if") || str_eq(kind, "preproc_ifdef") {
                let is_if = str_eq(kind, "preproc_if");
                let ghost w = if is_if {
                    spec_conditional_content(defines, guards, *c)
                } else {
                    spec_if_defined_content(defines, guards, *c)
                };
                let result = if is_if {
                    self.symbolizePreprocessorConditionalContent(c, rec, diags)
                } else {
                    self.symbolizePreprocessorIfDefinedConditionalContent(c, rec, diags)
                };
                proof {
                    assert(records_view(old(rec)@) + r + w.records =~= records_view(old(rec)@) + (r + w.records));
                    assert(old(diags)@ + d + w.diags =~= old(diags)@ + (d + w.diags));
                    r = r + w.records;
                    d = d + w.diags;
                }
                match result {
                    Ok(()) => {},
                    Err(e) => {
                        let rep = Report {
                            message: ReportMessage::ConditionalPreprocessorContentResolvingFailure(c.kind.clone(), Box::new(e)),
                            location: None,
                        };
                        diags.push(rep);
                        proof { d = d.push(rep); }
                    },
                }
            } else if str_eq(kind, "preproc_def") || str_eq(kind, "preproc_function_def") || str_eq(kind, "declaration")
                || str_eq(kind, "function_definition") || str_eq(kind, "type_definition") {
                let is_macro = str_eq(kind, "preproc_def") || str_eq(kind, "preproc_function_def");
                let is_typedef = str_eq(kind, "type_definition");
                let ghost w = if is_macro {
                    spec_macro_definition(guards, *c)
                } else {
                    spec_visit_decl(*c, is_typedef)
                };
                let result = if is_macro {
                    self.symbolizeMacroDefintion(c, rec, diags)
                } else {
                    self.visit_decl(c, is_typedef, rec, diags)
                };
                proof {
                    assert(records_view(old(rec)@) + r + w.records =~= records_view(old(rec)@) + (r + w.records));
                    assert(old(diags)@ + d + w.diags =~= old(diags)@ + (d + w.diags));
                    r = r + w.records;
                    d = d + w.diags;
                }
                match result {
                    Ok(()) => {},
                    Err(e) => {
                        let rep = Report { message: ReportMessage::SemGenFailed(c.kind.clone(), Box::new(e)), location: None };
                        diags.push(rep);
                        proof { d = d.push(rep); }
                    },
                }
            } else if str_eq(kind, "struct_specifier") || str_eq(kind, "union_specifier") || str_eq(kind, "enum_specifier") {
                proof {
                    lemma_top_level_type_shift(*c, r, d);
                }
                let ghost w = top_level_type(*c, Seq::empty(), Seq::empty());
                self.symbolize_top_level_type(c, rec, diags);
                proof {
                    assert(records_view(old(rec)@) + r + w.records =~= records_view(old(rec)@) + (r + w.records));
                    assert(old(diags)@ + d + w.diags =~= old(diags)@ + (d + w.diags));
                    r = r + w.records;
                    d = d + w.diags;
                }
            } else if str_eq(kind, "comment") {
            } else {
                match comment_style(kind) {
                    Some(style) => {
                        let item = Recorded::Comment(c.text.clone(), String::from_str(style), c.range);
                        proof {
                            assert(records_view(rec@.push(item)) =~= records_view(rec@).push(recorded_view(item)));
                            r = r.push(recorded_view(item));
                        }
                        rec.push(item);
                    },
                    None => {},
                }
            }
            k = k + 1;
        }
    }

    /// Records what the branch of a conditional holds: its named children but the first (the
    /// condition) and but nested `#elif` and `#else`.
    fn symbolizePreprocessorConditionalBranch(&self, ast: &SyntaxNode, rec: &mut Vec<Recorded>, diags: &mut Vec<Report>)
        requires
            !spec_branch_items(self.config.preprocessor_defines@, self.config.ingore_header_guard_defines, *ast, 0, false,
                Seq::empty(), Seq::empty()).stuck,
        ensures
            records_view(final(rec)@) == records_view(old(rec)@) + spec_branch_items(self.config.preprocessor_defines@,
                self.config.ingore_header_guard_defines, *ast, 0, false, Seq::empty(), Seq::empty()).records,
            final(diags)@ == old(diags)@ + spec_branch_items(self.config.preprocessor_defines@,
                self.config.ingore_header_guard_defines, *ast, 0, false, Seq::empty(), Seq::empty()).diags,
        decreases *ast, 1int, 1int,
    {
        let ghost defines = self.config.preprocessor_defines@;
        let ghost guards = self.config.ingore_header_guard_defines;
        let ghost mut r: Seq<RecordedV> = Seq::empty();
        let ghost mut d: Seq<Report> = Seq::empty();
        proof {
            assert(diags@ =~= old(diags)@ + d);
            assert(records_view(rec@) =~= records_view(old(rec)@) + r);
        }
        let mut seen_first = false;
        let mut k: usize = 0;
        while k < ast.children.len()
            invariant
                k <= ast.children@.len(),
                defines == self.config.preprocessor_defines@,
                guards == self.config.ingore_header_guard_defines,
                diags@ == old(diags)@ + d,
                records_view(rec@) == records_view(old(rec)@) + r,
                spec_branch_items(defines, guards, *ast, 0, false, Seq::empty(), Seq::empty())
                    == spec_branch_items(defines, guards, *ast, k as int, seen_first, r, d),
                !spec_branch_items(defines, guards, *ast, 0, false, Seq::empty(), Seq::empty()).stuck,
            decreases ast.children.len() - k,
        {
            let c = &ast.children[k].1;
            if c.named {
                if !seen_first || str_eq(c.kind.as_str(), "preproc_elif") || str_eq(c.kind.as_str(), "preproc_else") {
                    seen_first = true;
                } else {
                    proof {
                        lemma_child_smaller(*ast, k as int);
                    }
                    let ghost g = spec_gen_sema(defines, guards, *c);
                    self.gen_sema(c, rec, diags);
                    proof {
                        assert(records_view(old(rec)@) + r + g.records =~= records_view(old(rec)@) + (r + g.records));
                        assert(old(diags)@ + d + g.diags =~= old(diags)@ + (d + g.diags));
                        r = r + g.records;
                        d = d + g.diags;
                    }
                }
            }
            k = k + 1;
        }
    }

    /// Records what a `#if` or `#elif` holds: the branch whose condition holds, or else the
    /// alternative.
    pub fn symbolizePreprocessorConditionalContent(&self, ast: &SyntaxNode, rec: &mut Vec<Recorded>, diags: &mut Vec<Report>)
        -> (r: Result<(), SemaGenError>)
        requires
            !spec_conditional_content(self.config.preprocessor_defines@, self.config.ingore_header_guard_defines, *ast).stuck,
        ensures
            r == spec_conditional_content(self.config.preprocessor_defines@, self.config.ingore_header_guard_defines, *ast).value,
            records_view(final(rec)@) == records_view(old(rec)@) + spec_conditional_content(self.config.preprocessor_defines@,
                self.config.ingore_header_guard_defines, *ast).records,
            final(diags)@ == old(diags)@ + spec_conditional_content(self.config.preprocessor_defines@,
                self.config.ingore_header_guard_defines, *ast).diags,
        decreases *ast, 2int, 0int,
    {
        proof {
            lemma_field_index(ast.children@, "condition"@);
            lemma_field_index(ast.children@, "alternative"@);
            assert(records_view(old(rec)@) + Seq::<RecordedV>::empty() =~= records_view(old(rec)@));
            assert(old(diags)@ + Seq::<Report>::empty() =~= old(diags)@);
        }
        let condition = match ast.child_by_field_name("condition") {
            Some(c) => c,
            None => { return Err(SemaGenError { message: ReportMessage::MissingCondition, location: ast.range }); },
        };
        let v = match self.evaluatePreprocessorExpression(condition) {
            Ok(v) => v,
            Err(e) => { return Err(e); },
        };
        if v != 0 {
            self.symbolizePreprocessorConditionalBranch(ast, rec, diags);
            return Ok(());
        }
        match ast.child_by_field_name("alternative") {
            None => Ok(()),
            Some(alternative) => {
                if str_eq(alternative.kind.as_str(), "preproc_elif") {
                    proof {
                        lemma_child_smaller(*ast, field_index(ast.children@, "alternative"@)->Some_0);
                    }
                    self.symbolizePreprocessorConditionalContent(alternative, rec, diags)
                } else if str_eq(alternative.kind.as_str(), "preproc_else") {
                    self.symbolizePreprocessorConditionalBranch(ast, rec, diags);
                    Ok(())
                } else {
                    Err(SemaGenError { message: ReportMessage::MissingAlternative(alternative.kind.clone()), location: alternative.range })
                }
            },
        }
    }

    /// Records what a `#ifdef` or `#ifndef` holds where its condition holds, and reports
    /// otherwise that it was left out.
    pub fn symbolizePreprocessorIfDefinedConditionalContent(&self, ast: &SyntaxNode, rec: &mut Vec<Recorded>,
        diags: &mut Vec<Report>) -> (r: Result<(), SemaGenError>)
        requires
            !spec_if_defined_content(self.config.preprocessor_defines@, self.config.ingore_header_guard_defines, *ast).stuck,
        ensures
            r == spec_if_defined_content(self.config.preprocessor_defines@, self.config.ingore_header_guard_defines, *ast).value,
            records_view(final(rec)@) == records_view(old(rec)@) + spec_if_defined_content(self.config.preprocessor_defines@,
                self.config.ingore_header_guard_defines, *ast).records,
            final(diags)@ == old(diags)@ + spec_if_defined_content(self.config.preprocessor_defines@,
                self.config.ingore_header_guard_defines, *ast).diags,
        decreases *ast, 2int, 0int,
    {
        proof {
            lemma_field_index(ast.children@, "name"@);
            assert(records_view(old(rec)@) + Seq::<RecordedV>::empty() =~= records_view(old(rec)@));
            assert(old(diags)@ + Seq::<Report>::empty() =~= old(diags)@);
        }
        if ast.children.len() == 0 {
            return Err(SemaGenError { message: ReportMessage::MissingDirective, location: ast.range });
        }
        let directive = &ast.children[0].1;
        let s = directive.text.as_str();
        let name = match ast.child_by_field_name("name") {
            Some(n) => n,
            None => { return Err(SemaGenError { message: ReportMessage::PreprocessorMissingIdentifier, location: directive.range }); },
        };
        let defined = crate::frontend::c::sema_gen::lookup_define(&self.config.preprocessor_defines, name.text.as_str()).is_some();
        let ghost mut d0: Seq<Report> = Seq::empty();
        let met = if str_ends_with(s, "ifdef") {
            defined
        } else if str_ends_with(s, "ifndef") {
            !defined
        } else {
            let rep = report_at(ReportMessage::UnknownConditionalPreprocessorDirective(directive.text.clone()), name.range);
            diags.push(rep);
            proof { d0 = seq![rep]; }
            defined
        };
        proof {
            assert(diags@ =~= old(diags)@ + d0);
        }
        if met {
            let ghost g = spec_gen_sema(self.config.preprocessor_defines@, self.config.ingore_header_guard_defines, *ast);
            self.gen_sema(ast, rec, diags);
            proof {
                assert(old(diags)@ + d0 + g.diags =~= old(diags)@ + (d0 + g.diags));
            }
            Ok(())
        } else {
            let rep = report_at(ReportMessage::UnsatisfiedPreprocessorCondition(directive.text.clone(), name.text.clone()), directive.range);
            diags.push(rep);
            proof {
                assert(records_view(rec@) =~= records_view(old(rec)@) + Seq::<RecordedV>::empty());
            }
            Ok(())
        }
    }
}

} // verus!
