use vstd::prelude::*;
use crate::compiler::strings::CowStr;
use crate::frontend::actions::{Action, Script};
use crate::frontend::arguments::{analyze_from, components_from, template_view, Parameter, Template};
use vstd::utf8::encode_utf8;
use crate::frontend::doxygen::directive::{
    ArgumentSyntax, AttachmentSyntax, DirectiveSyntax, DoxygenAttachedParameter, DoxygenBuiltin,
    DoxygenDelimitedParameters, DoxygenDirective, DoxygenParameters, DoxygenWhitespaceSeparatedParameters,
    EnclosingDelimiters,
};

verus! {

/// The syntax of a predefined directive with that many whitespace-separated arguments: nested
/// and inline use allowed, arguments in curly braces or square brackets after the name, and the
/// attached text, if any, reaching to the next interruption or to the end of the line.
pub open spec fn spec_predefined_syntax(total: u8, attached: bool, until_interrupt: bool) -> DirectiveSyntax {
    DirectiveSyntax {
        allow_nesting: true,
        allow_inline: true,
        interrupts_paragraph: until_interrupt && attached,
        argument_syntax: ArgumentSyntax::DelimitedSuffix(EnclosingDelimiters { curly_braces: true, square_brackets: true }),
        attachment_syntax: if attached {
            if until_interrupt {
                AttachmentSyntax::UntilInterrupt(total)
            } else {
                AttachmentSyntax::UntilNewline(total)
            }
        } else {
            AttachmentSyntax::OnlyWhitespaceSeparated(total)
        },
    }
}

impl<'a> DoxygenDirective<'a> {
    /// A directive of the given parameters and script, written in the syntax that its parameters
    /// call for.
    pub fn predefined(
        delimited_arguments: DoxygenDelimitedParameters<'static>,
        required_whitespace_arguments: Vec<&'static str>,
        optional_whitespace_arguments: Vec<&'static str>,
        attachment: Option<DoxygenAttachedParameter<'static>>,
        attaches_until_interrupt: bool,
        script: Script<'a, DoxygenBuiltin>,
    ) -> (r: Self)
        requires
            required_whitespace_arguments@.len() + optional_whitespace_arguments@.len() < 255,
        ensures
            r.parameters.delimited == delimited_arguments,
            r.parameters.whitespace_separated.required@ == required_whitespace_arguments@,
            r.parameters.whitespace_separated.optional@ == optional_whitespace_arguments@,
            r.parameters.attached == attachment,
            r.script@ == script@,
            r.syntax == spec_predefined_syntax(
                (required_whitespace_arguments@.len() + optional_whitespace_arguments@.len()) as u8,
                attachment is Some,
                attaches_until_interrupt,
            ),
    {
        let total = required_whitespace_arguments.len() + optional_whitespace_arguments.len();
        let total_u8 = total as u8;
        let attached = attachment.is_some();
        let attachment_syntax = if attached {
            if attaches_until_interrupt {
                AttachmentSyntax::UntilInterrupt(total_u8)
            } else {
                AttachmentSyntax::UntilNewline(total_u8)
            }
        } else {
            AttachmentSyntax::OnlyWhitespaceSeparated(total_u8)
        };
        DoxygenDirective {
            parameters: DoxygenParameters {
                delimited: delimited_arguments,
                whitespace_separated: DoxygenWhitespaceSeparatedParameters {
                    required: required_whitespace_arguments,
                    optional: optional_whitespace_arguments,
                },
                attached: attachment,
            },
            syntax: DirectiveSyntax {
                allow_nesting: true,
                allow_inline: true,
                interrupts_paragraph: attaches_until_interrupt && attached,
                argument_syntax: ArgumentSyntax::DelimitedSuffix(EnclosingDelimiters { curly_braces: true, square_brackets: true }),
                attachment_syntax,
            },
            script,
        }
    }
}

/// The names of the built-in directives.
pub open spec fn spec_builtin_names() -> Seq<Seq<char>> {
    seq!["param"@]
}

/// The built-in directives, by name: `param`, with `in`, `out` and `inout` as keywords, a
/// required name, an optional dash and a required description up to the next interruption.
pub fn builtins() -> (r: Vec<(String, DoxygenDirective<'static>)>)
    ensures
        r@.map_values(|e: (String, DoxygenDirective<'static>)| e.0@) == spec_builtin_names(),
        crate::compiler::strings::names_unique(r@),
        r@[0].1.parameters.delimited matches DoxygenDelimitedParameters::KeywordModifiers(k)
            && k@ == seq!["in", "out", "inout"],
        r@[0].1.parameters.whitespace_separated.required@ == seq!["name"],
        r@[0].1.parameters.whitespace_separated.optional@ == seq!["'-'"],
        r@[0].1.parameters.attached == Some(DoxygenAttachedParameter { name: "description", required: true }),
        r@[0].1.script@.len() == 0,
        r@[0].1.syntax == spec_predefined_syntax(2, true, true),
{
    let param = DoxygenDirective::predefined(
        DoxygenDelimitedParameters::KeywordModifiers(vec!["in", "out", "inout"]),
        vec!["name"],
        vec!["'-'"],
        Some(DoxygenAttachedParameter { name: "description", required: true }),
        true,
        Vec::new(),
    );
    let r = vec![(String::from_str("param"), param)];
    assert(r@.map_values(|e: (String, DoxygenDirective<'static>)| e.0@) =~= spec_builtin_names());
    r
}

/// The delimited parameters of a directive, with sequences for its lists.
#[verifier::ext_equal]
pub enum DelimitedV {
    NoArguments,
    KeywordModifiers(Seq<&'static str>),
    PositionalArguments(Seq<&'static str>, usize, usize),
    Options(char, Seq<(&'static str, bool)>),
}

pub open spec fn delimited_view(d: DoxygenDelimitedParameters<'static>) -> DelimitedV {
    match d {
        DoxygenDelimitedParameters::NoArguments => DelimitedV::NoArguments,
        DoxygenDelimitedParameters::KeywordModifiers(k) => DelimitedV::KeywordModifiers(k@),
        DoxygenDelimitedParameters::PositionalArguments(n, m, o) => DelimitedV::PositionalArguments(n@, m, o),
        DoxygenDelimitedParameters::Options(c, o) => DelimitedV::Options(c, o@),
    }
}

/// A directive with sequences for its lists: its parameters, its syntax and its script.
#[verifier::ext_equal]
pub struct DirectiveV {
    pub delimited: DelimitedV,
    pub required: Seq<&'static str>,
    pub optional: Seq<&'static str>,
    pub attached: Option<DoxygenAttachedParameter<'static>>,
    pub syntax: DirectiveSyntax,
    pub script: Seq<Action<'static, DoxygenBuiltin>>,
}

pub open spec fn directive_view(d: DoxygenDirective<'static>) -> DirectiveV {
    DirectiveV {
        delimited: delimited_view(d.parameters.delimited),
        required: d.parameters.whitespace_separated.required@,
        optional: d.parameters.whitespace_separated.optional@,
        attached: d.parameters.attached,
        syntax: d.syntax,
        script: d.script@,
    }
}

/// The directive that `DoxygenDirective::predefined` makes of these parameters and script.
pub open spec fn predefined_spec(
    delimited: DelimitedV,
    required: Seq<&'static str>,
    optional: Seq<&'static str>,
    attached: Option<DoxygenAttachedParameter<'static>>,
    until_interrupt: bool,
    script: Seq<Action<'static, DoxygenBuiltin>>,
) -> DirectiveV {
    DirectiveV {
        delimited,
        required,
        optional,
        attached,
        syntax: spec_predefined_syntax((required.len() + optional.len()) as u8, attached is Some, until_interrupt),
        script,
    }
}

/// A table of directives with sequences for its lists.
pub open spec fn table_view(v: Seq<(&'static str, DoxygenDirective<'static>)>) -> Seq<(&'static str, DirectiveV)> {
    v.map_values(|e: (&'static str, DoxygenDirective<'static>)| (e.0, directive_view(e.1)))
}


/// The predefined directives from `addtogroup` to `extends`.
pub open spec fn predefined_table_1() -> Seq<(&'static str, DirectiveV)> {
    seq![
        ("addtogroup", predefined_spec(DelimitedV::NoArguments, seq!["id"], seq![], Some(DoxygenAttachedParameter { name: "title", required: false }), false, seq![Action::CreateEntry { id: Parameter::Variable(CowStr::Borrowed("id")), title: Parameter::Variable(CowStr::Borrowed("title")), content: Parameter::Constant(None) }, Action::PushScope { name: Parameter::Variable(CowStr::Borrowed("id")) }, Action::SetEntry { entry_id: Parameter::Variable(CowStr::Borrowed("id")) }])),
        ("weakgroup", predefined_spec(DelimitedV::NoArguments, seq!["name"], seq!["title"], None, false, seq![Action::CreateEntry { id: Parameter::Variable(CowStr::Borrowed("id")), title: Parameter::Variable(CowStr::Borrowed("title")), content: Parameter::Constant(None) }, Action::PushScope { name: Parameter::Variable(CowStr::Borrowed("id")) }, Action::SetEntry { entry_id: Parameter::Variable(CowStr::Borrowed("id")) }])),
        ("defgroup", predefined_spec(DelimitedV::NoArguments, seq!["name"], seq![], Some(DoxygenAttachedParameter { name: "title", required: true }), false, seq![Action::CreateEntry { id: Parameter::Variable(CowStr::Borrowed("id")), title: Parameter::Variable(CowStr::Borrowed("title")), content: Parameter::Constant(None) }, Action::PushScope { name: Parameter::Variable(CowStr::Borrowed("id")) }, Action::SetEntry { entry_id: Parameter::Variable(CowStr::Borrowed("id")) }])),
        ("page", predefined_spec(DelimitedV::NoArguments, seq!["id"], seq!["title"], None, false, seq![Action::CreateEntry { id: Parameter::Variable(CowStr::Borrowed("id")), title: Parameter::Variable(CowStr::Borrowed("title")), content: Parameter::Constant(None) }, Action::PushScope { name: Parameter::Variable(CowStr::Borrowed("id")) }, Action::SetEntry { entry_id: Parameter::Variable(CowStr::Borrowed("id")) }, Action::SetRole { role: Parameter::Constant(CowStr::Borrowed("article")) }])),
        ("mainpage", predefined_spec(DelimitedV::NoArguments, seq![], seq!["title"], None, false, seq![Action::CreateEntry { id: Parameter::Variable(CowStr::Borrowed("id")), title: Parameter::Variable(CowStr::Borrowed("title")), content: Parameter::Constant(None) }, Action::PushScope { name: Parameter::Variable(CowStr::Borrowed("id")) }, Action::SetEntry { entry_id: Parameter::Variable(CowStr::Borrowed("id")) }, Action::SetRole { role: Parameter::Constant(CowStr::Borrowed("article")) }, Action::SetRootEntry])),
        ("subpage", predefined_spec(DelimitedV::NoArguments, seq!["id"], seq![], None, false, seq![Action::AddMembership { entry_id: Parameter::Variable(CowStr::Borrowed("id")) }, Action::InsertReference { entry_id: Parameter::Variable(CowStr::Borrowed("id")) }])),
        ("brief", predefined_spec(DelimitedV::NoArguments, seq![], seq![], Some(DoxygenAttachedParameter { name: "description", required: true }), true, seq![Action::SetAbstract { content: Parameter::Variable(CowStr::Borrowed("description")) }])),
        ("ingroup", predefined_spec(DelimitedV::NoArguments, seq!["id"], seq![], None, false, seq![Action::AddMembership { entry_id: Parameter::Variable(CowStr::Borrowed("id")) }])),
        ("memberof", predefined_spec(DelimitedV::NoArguments, seq!["id"], seq![], None, false, seq![Action::AddMembership { entry_id: Parameter::Variable(CowStr::Borrowed("id")) }])),
        ("extends", predefined_spec(DelimitedV::NoArguments, seq!["id"], seq![], None, false, seq![Action::AddRelationship { kind: Parameter::Constant(crate::ir::Relationship(CowStr::Borrowed("api.extends"))), entry_id: Parameter::Variable(CowStr::Borrowed("id")) }])),
    ]
}


/// Appends the predefined directives from `addtogroup` to `extends`.
fn predefined_1(out: &mut Vec<(&'static str, DoxygenDirective<'static>)>)
    ensures
        table_view(final(out)@) =~~= table_view(old(out)@) + predefined_table_1(),
{
    let ghost before = out@;
    out.push(("addtogroup", DoxygenDirective::predefined(
        DoxygenDelimitedParameters::NoArguments,
        vec!["id"],
        vec![],
        Some(DoxygenAttachedParameter { name: "title", required: false }),
        false,
        vec![
            Action::CreateEntry { id: Parameter::Variable(CowStr::Borrowed("id")), title: Parameter::Variable(CowStr::Borrowed("title")), content: Parameter::Constant(None) },
            Action::PushScope { name: Parameter::Variable(CowStr::Borrowed("id")) },
            Action::SetEntry { entry_id: Parameter::Variable(CowStr::Borrowed("id")) },
        ],
    )));
    out.push(("weakgroup", DoxygenDirective::predefined(
        DoxygenDelimitedParameters::NoArguments,
        vec!["name"],
        vec!["title"],
        None,
        false,
        vec![
            Action::CreateEntry { id: Parameter::Variable(CowStr::Borrowed("id")), title: Parameter::Variable(CowStr::Borrowed("title")), content: Parameter::Constant(None) },
            Action::PushScope { name: Parameter::Variable(CowStr::Borrowed("id")) },
            Action::SetEntry { entry_id: Parameter::Variable(CowStr::Borrowed("id")) },
        ],
    )));
    out.push(("defgroup", DoxygenDirective::predefined(
        DoxygenDelimitedParameters::NoArguments,
        vec!["name"],
        vec![],
        Some(DoxygenAttachedParameter { name: "title", required: true }),
        false,
        vec![
            Action::CreateEntry { id: Parameter::Variable(CowStr::Borrowed("id")), title: Parameter::Variable(CowStr::Borrowed("title")), content: Parameter::Constant(None) },
            Action::PushScope { name: Parameter::Variable(CowStr::Borrowed("id")) },
            Action::SetEntry { entry_id: Parameter::Variable(CowStr::Borrowed("id")) },
        ],
    )));
    out.push(("page", DoxygenDirective::predefined(
        DoxygenDelimitedParameters::NoArguments,
        vec!["id"],
        vec!["title"],
        None,
        false,
        vec![
            Action::CreateEntry { id: Parameter::Variable(CowStr::Borrowed("id")), title: Parameter::Variable(CowStr::Borrowed("title")), content: Parameter::Constant(None) },
            Action::PushScope { name: Parameter::Variable(CowStr::Borrowed("id")) },
            Action::SetEntry { entry_id: Parameter::Variable(CowStr::Borrowed("id")) },
            Action::SetRole { role: Parameter::Constant(CowStr::Borrowed("article")) },
        ],
    )));
    out.push(("mainpage", DoxygenDirective::predefined(
        DoxygenDelimitedParameters::NoArguments,
        vec![],
        vec!["title"],
        None,
        false,
        vec![
            Action::CreateEntry { id: Parameter::Variable(CowStr::Borrowed("id")), title: Parameter::Variable(CowStr::Borrowed("title")), content: Parameter::Constant(None) },
            Action::PushScope { name: Parameter::Variable(CowStr::Borrowed("id")) },
            Action::SetEntry { entry_id: Parameter::Variable(CowStr::Borrowed("id")) },
            Action::SetRole { role: Parameter::Constant(CowStr::Borrowed("article")) },
            Action::SetRootEntry,
        ],
    )));
    out.push(("subpage", DoxygenDirective::predefined(
        DoxygenDelimitedParameters::NoArguments,
        vec!["id"],
        vec![],
        None,
        false,
        vec![
            Action::AddMembership { entry_id: Parameter::Variable(CowStr::Borrowed("id")) },
            Action::InsertReference { entry_id: Parameter::Variable(CowStr::Borrowed("id")) },
        ],
    )));
    out.push(("brief", DoxygenDirective::predefined(
        DoxygenDelimitedParameters::NoArguments,
        vec![],
        vec![],
        Some(DoxygenAttachedParameter { name: "description", required: true }),
        true,
        vec![
            Action::SetAbstract { content: Parameter::Variable(CowStr::Borrowed("description")) },
        ],
    )));
    out.push(("ingroup", DoxygenDirective::predefined(
        DoxygenDelimitedParameters::NoArguments,
        vec!["id"],
        vec![],
        None,
        false,
        vec![
            Action::AddMembership { entry_id: Parameter::Variable(CowStr::Borrowed("id")) },
        ],
    )));
    out.push(("memberof", DoxygenDirective::predefined(
        DoxygenDelimitedParameters::NoArguments,
        vec!["id"],
        vec![],
        None,
        false,
        vec![
            Action::AddMembership { entry_id: Parameter::Variable(CowStr::Borrowed("id")) },
        ],
    )));
    out.push(("extends", DoxygenDirective::predefined(
        DoxygenDelimitedParameters::NoArguments,
        vec!["id"],
        vec![],
        None,
        false,
        vec![
            Action::AddRelationship { kind: Parameter::Constant(crate::ir::Relationship::predefined("api.extends")), entry_id: Parameter::Variable(CowStr::Borrowed("id")) },
        ],
    )));
    assert(table_view(out@) =~~= table_view(before) + predefined_table_1());
}


/// The predefined directives from `implements` to `static`.
pub open spec fn predefined_table_2() -> Seq<(&'static str, DirectiveV)> {
    seq![
        ("implements", predefined_spec(DelimitedV::NoArguments, seq!["id"], seq![], None, false, seq![Action::AddRelationship { kind: Parameter::Constant(crate::ir::Relationship(CowStr::Borrowed("api.implements"))), entry_id: Parameter::Variable(CowStr::Borrowed("id")) }])),
        ("relates", predefined_spec(DelimitedV::NoArguments, seq!["id"], seq![], None, false, seq![Action::AddRelationship { kind: Parameter::Constant(crate::ir::Relationship(CowStr::Borrowed(""))), entry_id: Parameter::Variable(CowStr::Borrowed("id")) }])),
        ("related", predefined_spec(DelimitedV::NoArguments, seq!["id"], seq![], None, false, seq![Action::AddRelationship { kind: Parameter::Constant(crate::ir::Relationship(CowStr::Borrowed("rel"))), entry_id: Parameter::Variable(CowStr::Borrowed("id")) }])),
        ("relatesalso", predefined_spec(DelimitedV::NoArguments, seq!["id"], seq![], None, false, seq![Action::AddRelationship { kind: Parameter::Constant(crate::ir::Relationship(CowStr::Borrowed("rel"))), entry_id: Parameter::Variable(CowStr::Borrowed("id")) }])),
        ("relatedalso", predefined_spec(DelimitedV::NoArguments, seq!["identifier_node"], seq![], None, false, seq![Action::AddRelationship { kind: Parameter::Constant(crate::ir::Relationship(CowStr::Borrowed("rel"))), entry_id: Parameter::Variable(CowStr::Borrowed("id")) }])),
        ("protected", predefined_spec(DelimitedV::NoArguments, seq![], seq![], None, false, seq![Action::AddAttribute { key: Parameter::Constant(CowStr::Borrowed("api.visibility")), value: Parameter::Constant(crate::ir::Value::String(CowStr::Borrowed("protected"))) }])),
        ("public", predefined_spec(DelimitedV::NoArguments, seq![], seq![], None, false, seq![Action::AddAttribute { key: Parameter::Constant(CowStr::Borrowed("api.visibility")), value: Parameter::Constant(crate::ir::Value::String(CowStr::Borrowed("public"))) }])),
        ("private", predefined_spec(DelimitedV::NoArguments, seq![], seq![], None, false, seq![Action::AddAttribute { key: Parameter::Constant(CowStr::Borrowed("api.visibility")), value: Parameter::Constant(crate::ir::Value::String(CowStr::Borrowed("private"))) }])),
        ("qualifier", predefined_spec(DelimitedV::NoArguments, seq!["label"], seq![], None, false, seq![Action::AddAttribute { key: Parameter::Variable(CowStr::Borrowed("label")), value: Parameter::Constant(crate::ir::Value::Void) }])),
        ("static", predefined_spec(DelimitedV::NoArguments, seq![], seq![], None, false, seq![Action::AddAttribute { key: Parameter::Variable(CowStr::Borrowed("api.instance-member")), value: Parameter::Constant(crate::ir::Value::Boolean(false)) }])),
    ]
}


/// Appends the predefined directives from `implements` to `static`.
fn predefined_2(out: &mut Vec<(&'static str, DoxygenDirective<'static>)>)
    ensures
        table_view(final(out)@) =~~= table_view(old(out)@) + predefined_table_2(),
{
    let ghost before = out@;
    out.push(("implements", DoxygenDirective::predefined(
        DoxygenDelimitedParameters::NoArguments,
        vec!["id"],
        vec![],
        None,
        false,
        vec![
            Action::AddRelationship { kind: Parameter::Constant(crate::ir::Relationship::predefined("api.implements")), entry_id: Parameter::Variable(CowStr::Borrowed("id")) },
        ],
    )));
    out.push(("relates", DoxygenDirective::predefined(
        DoxygenDelimitedParameters::NoArguments,
        vec!["id"],
        vec![],
        None,
        false,
        vec![
            Action::AddRelationship { kind: Parameter::Constant(crate::ir::Relationship::predefined("")), entry_id: Parameter::Variable(CowStr::Borrowed("id")) },
        ],
    )));
    out.push(("related", DoxygenDirective::predefined(
        DoxygenDelimitedParameters::NoArguments,
        vec!["id"],
        vec![],
        None,
        false,
        vec![
            Action::AddRelationship { kind: Parameter::Constant(crate::ir::Relationship::related()), entry_id: Parameter::Variable(CowStr::Borrowed("id")) },
        ],
    )));
    out.push(("relatesalso", DoxygenDirective::predefined(
        DoxygenDelimitedParameters::NoArguments,
        vec!["id"],
        vec![],
        None,
        false,
        vec![
            Action::AddRelationship { kind: Parameter::Constant(crate::ir::Relationship::related()), entry_id: Parameter::Variable(CowStr::Borrowed("id")) },
        ],
    )));
    out.push(("relatedalso", DoxygenDirective::predefined(
        DoxygenDelimitedParameters::NoArguments,
        vec!["identifier_node"],
        vec![],
        None,
        false,
        vec![
            Action::AddRelationship { kind: Parameter::Constant(crate::ir::Relationship::related()), entry_id: Parameter::Variable(CowStr::Borrowed("id")) },
        ],
    )));
    out.push(("protected", DoxygenDirective::predefined(
        DoxygenDelimitedParameters::NoArguments,
        vec![],
        vec![],
        None,
        false,
        vec![
            Action::AddAttribute { key: Parameter::Constant(CowStr::Borrowed("api.visibility")), value: Parameter::Constant(crate::ir::Value::String(CowStr::Borrowed("protected"))) },
        ],
    )));
    out.push(("public", DoxygenDirective::predefined(
        DoxygenDelimitedParameters::NoArguments,
        vec![],
        vec![],
        None,
        false,
        vec![
            Action::AddAttribute { key: Parameter::Constant(CowStr::Borrowed("api.visibility")), value: Parameter::Constant(crate::ir::Value::String(CowStr::Borrowed("public"))) },
        ],
    )));
    out.push(("private", DoxygenDirective::predefined(
        DoxygenDelimitedParameters::NoArguments,
        vec![],
        vec![],
        None,
        false,
        vec![
            Action::AddAttribute { key: Parameter::Constant(CowStr::Borrowed("api.visibility")), value: Parameter::Constant(crate::ir::Value::String(CowStr::Borrowed("private"))) },
        ],
    )));
    out.push(("qualifier", DoxygenDirective::predefined(
        DoxygenDelimitedParameters::NoArguments,
        vec!["label"],
        vec![],
        None,
        false,
        vec![
            Action::AddAttribute { key: Parameter::Variable(CowStr::Borrowed("label")), value: Parameter::Constant(crate::ir::Value::Void) },
        ],
    )));
    out.push(("static", DoxygenDirective::predefined(
        DoxygenDelimitedParameters::NoArguments,
        vec![],
        vec![],
        None,
        false,
        vec![
            Action::AddAttribute { key: Parameter::Variable(CowStr::Borrowed("api.instance-member")), value: Parameter::Constant(crate::ir::Value::Boolean(false)) },
        ],
    )));
    assert(table_view(out@) =~~= table_view(before) + predefined_table_2());
}


/// The predefined directives from `deprecated` to `showrefby`.
pub open spec fn predefined_table_3() -> Seq<(&'static str, DirectiveV)> {
    seq![
        ("deprecated", predefined_spec(DelimitedV::NoArguments, seq![], seq![], Some(DoxygenAttachedParameter { name: "description", required: true }), true, seq![Action::AddAttribute { key: Parameter::Variable(CowStr::Borrowed("api.availability.deprecated")), value: Parameter::Constant(crate::ir::Value::Boolean(true)) }])),
        ("name", predefined_spec(DelimitedV::NoArguments, seq![], seq!["title"], None, false, seq![Action::PushScope { name: Parameter::Constant(Some(CowStr::Borrowed("doxy.name"))) }, Action::CreateMemberSection { title: Parameter::Variable(CowStr::Borrowed("title")), content: Parameter::Constant(None) }])),
        ("{", predefined_spec(DelimitedV::NoArguments, seq![], seq![], None, false, seq![Action::SetScopeBoundary { beyond_comment: Parameter::Constant(true) }])),
        ("}", predefined_spec(DelimitedV::NoArguments, seq![], seq![], None, false, seq![Action::PopScope { name: Parameter::Constant(None) }])),
        ("internal", predefined_spec(DelimitedV::NoArguments, seq![], seq![], None, false, seq![Action::PushScope { name: Parameter::Constant(Some(CowStr::Borrowed("doxy.internal"))) }, Action::ApplyAttribute { key: Parameter::Constant(CowStr::Borrowed("api.visbility")), value: Parameter::Constant(crate::ir::Value::String(CowStr::Borrowed("internal"))) }])),
        ("endinternal", predefined_spec(DelimitedV::NoArguments, seq![], seq![], None, false, seq![Action::PopScope { name: Parameter::Constant(Some(CowStr::Borrowed("doxy.internal"))) }])),
        ("publicsection", predefined_spec(DelimitedV::NoArguments, seq![], seq![], None, false, seq![Action::PushScope { name: Parameter::Constant(Some(CowStr::Borrowed("doxy.publicsection"))) }, Action::SetScopeBoundary { beyond_comment: Parameter::Constant(true) }, Action::ApplyAttribute { key: Parameter::Constant(CowStr::Borrowed("api.visbility")), value: Parameter::Constant(crate::ir::Value::String(CowStr::Borrowed("public"))) }])),
        ("protectedsection", predefined_spec(DelimitedV::NoArguments, seq![], seq![], None, false, seq![Action::PushScope { name: Parameter::Constant(Some(CowStr::Borrowed("doxy.protectedsection"))) }, Action::SetScopeBoundary { beyond_comment: Parameter::Constant(true) }, Action::ApplyAttribute { key: Parameter::Constant(CowStr::Borrowed("api.visbility")), value: Parameter::Constant(crate::ir::Value::String(CowStr::Borrowed("protected"))) }])),
        ("privatesection", predefined_spec(DelimitedV::NoArguments, seq![], seq![], None, false, seq![Action::PushScope { name: Parameter::Constant(Some(CowStr::Borrowed("doxy.privatesection"))) }, Action::SetScopeBoundary { beyond_comment: Parameter::Constant(true) }, Action::ApplyAttribute { key: Parameter::Constant(CowStr::Borrowed("api.visbility")), value: Parameter::Constant(crate::ir::Value::String(CowStr::Borrowed("private"))) }])),
        ("showrefby", predefined_spec(DelimitedV::NoArguments, seq![], seq![], None, false, seq![])),
    ]
}


/// Appends the predefined directives from `deprecated` to `showrefby`.
fn predefined_3(out: &mut Vec<(&'static str, DoxygenDirective<'static>)>)
    ensures
        table_view(final(out)@) =~~= table_view(old(out)@) + predefined_table_3(),
{
    let ghost before = out@;
    out.push(("deprecated", DoxygenDirective::predefined(
        DoxygenDelimitedParameters::NoArguments,
        vec![],
        vec![],
        Some(DoxygenAttachedParameter { name: "description", required: true }),
        true,
        vec![
            Action::AddAttribute { key: Parameter::Variable(CowStr::Borrowed("api.availability.deprecated")), value: Parameter::Constant(crate::ir::Value::Boolean(true)) },
        ],
    )));
    out.push(("name", DoxygenDirective::predefined(
        DoxygenDelimitedParameters::NoArguments,
        vec![],
        vec!["title"],
        None,
        false,
        vec![
            Action::PushScope { name: Parameter::Constant(Some(CowStr::Borrowed("doxy.name"))) },
            Action::CreateMemberSection { title: Parameter::Variable(CowStr::Borrowed("title")), content: Parameter::Constant(None) },
        ],
    )));
    out.push(("{", DoxygenDirective::predefined(
        DoxygenDelimitedParameters::NoArguments,
        vec![],
        vec![],
        None,
        false,
        vec![
            Action::SetScopeBoundary { beyond_comment: Parameter::Constant(true) },
        ],
    )));
    out.push(("}", DoxygenDirective::predefined(
        DoxygenDelimitedParameters::NoArguments,
        vec![],
        vec![],
        None,
        false,
        vec![
            Action::PopScope { name: Parameter::Constant(None) },
        ],
    )));
    out.push(("internal", DoxygenDirective::predefined(
        DoxygenDelimitedParameters::NoArguments,
        vec![],
        vec![],
        None,
        false,
        vec![
            Action::PushScope { name: Parameter::Constant(Some(CowStr::Borrowed("doxy.internal"))) },
            Action::ApplyAttribute { key: Parameter::Constant(CowStr::Borrowed("api.visbility")), value: Parameter::Constant(crate::ir::Value::String(CowStr::Borrowed("internal"))) },
        ],
    )));
    out.push(("endinternal", DoxygenDirective::predefined(
        DoxygenDelimitedParameters::NoArguments,
        vec![],
        vec![],
        None,
        false,
        vec![
            Action::PopScope { name: Parameter::Constant(Some(CowStr::Borrowed("doxy.internal"))) },
        ],
    )));
    out.push(("publicsection", DoxygenDirective::predefined(
        DoxygenDelimitedParameters::NoArguments,
        vec![],
        vec![],
        None,
        false,
        vec![
            Action::PushScope { name: Parameter::Constant(Some(CowStr::Borrowed("doxy.publicsection"))) },
            Action::SetScopeBoundary { beyond_comment: Parameter::Constant(true) },
            Action::ApplyAttribute { key: Parameter::Constant(CowStr::Borrowed("api.visbility")), value: Parameter::Constant(crate::ir::Value::String(CowStr::Borrowed("public"))) },
        ],
    )));
    out.push(("protectedsection", DoxygenDirective::predefined(
        DoxygenDelimitedParameters::NoArguments,
        vec![],
        vec![],
        None,
        false,
        vec![
            Action::PushScope { name: Parameter::Constant(Some(CowStr::Borrowed("doxy.protectedsection"))) },
            Action::SetScopeBoundary { beyond_comment: Parameter::Constant(true) },
            Action::ApplyAttribute { key: Parameter::Constant(CowStr::Borrowed("api.visbility")), value: Parameter::Constant(crate::ir::Value::String(CowStr::Borrowed("protected"))) },
        ],
    )));
    out.push(("privatesection", DoxygenDirective::predefined(
        DoxygenDelimitedParameters::NoArguments,
        vec![],
        vec![],
        None,
        false,
        vec![
            Action::PushScope { name: Parameter::Constant(Some(CowStr::Borrowed("doxy.privatesection"))) },
            Action::SetScopeBoundary { beyond_comment: Parameter::Constant(true) },
            Action::ApplyAttribute { key: Parameter::Constant(CowStr::Borrowed("api.visbility")), value: Parameter::Constant(crate::ir::Value::String(CowStr::Borrowed("private"))) },
        ],
    )));
    out.push(("showrefby", DoxygenDirective::predefined(
        DoxygenDelimitedParameters::NoArguments,
        vec![],
        vec![],
        None,
        false,
        vec![],
    )));
    assert(table_view(out@) =~~= table_view(before) + predefined_table_3());
}


/// The predefined directives from `hiderefby` to `concept`.
pub open spec fn predefined_table_4() -> Seq<(&'static str, DirectiveV)> {
    seq![
        ("hiderefby", predefined_spec(DelimitedV::NoArguments, seq![], seq![], None, false, seq![])),
        ("showrefs", predefined_spec(DelimitedV::NoArguments, seq![], seq![], None, false, seq![])),
        ("hiderefs", predefined_spec(DelimitedV::NoArguments, seq![], seq![], None, false, seq![])),
        ("showinlinesource", predefined_spec(DelimitedV::NoArguments, seq![], seq![], None, false, seq![Action::Diagnose { level: Parameter::Constant(crate::ir::DiagnosticLevel::Error), message: Parameter::Constant(CowStr::Borrowed("Capturing function source not supported")) }])),
        ("hideinlinesource", predefined_spec(DelimitedV::NoArguments, seq![], seq![], None, false, seq![Action::Diagnose { level: Parameter::Constant(crate::ir::DiagnosticLevel::Error), message: Parameter::Constant(CowStr::Borrowed("Capturing function source not supported")) }])),
        ("showenumvalues", predefined_spec(DelimitedV::NoArguments, seq![], seq![], None, false, seq![Action::SetDisplayOption { name: Parameter::Constant(CowStr::Borrowed("signature.enum.value")), value: Parameter::Constant(crate::ir::Value::Boolean(true)) }])),
        ("hideenumvalues", predefined_spec(DelimitedV::NoArguments, seq![], seq![], None, false, seq![Action::SetDisplayOption { name: Parameter::Constant(CowStr::Borrowed("signature.enum.value")), value: Parameter::Constant(crate::ir::Value::Boolean(false)) }])),
        ("category", predefined_spec(DelimitedV::NoArguments, seq!["name"], seq!["file", "header"], None, false, seq![])),
        ("class", predefined_spec(DelimitedV::NoArguments, seq!["name"], seq!["file", "header"], None, false, seq![])),
        ("concept", predefined_spec(DelimitedV::NoArguments, seq!["name"], seq![], None, false, seq![])),
    ]
}


/// Appends the predefined directives from `hiderefby` to `concept`.
fn predefined_4(out: &mut Vec<(&'static str, DoxygenDirective<'static>)>)
    ensures
        table_view(final(out)@) =~~= table_view(old(out)@) + predefined_table_4(),
{
    let ghost before = out@;
    out.push(("hiderefby", DoxygenDirective::predefined(
        DoxygenDelimitedParameters::NoArguments,
        vec![],
        vec![],
        None,
        false,
        vec![],
    )));
    out.push(("showrefs", DoxygenDirective::predefined(
        DoxygenDelimitedParameters::NoArguments,
        vec![],
        vec![],
        None,
        false,
        vec![],
    )));
    out.push(("hiderefs", DoxygenDirective::predefined(
        DoxygenDelimitedParameters::NoArguments,
        vec![],
        vec![],
        None,
        false,
        vec![],
    )));
    out.push(("showinlinesource", DoxygenDirective::predefined(
        DoxygenDelimitedParameters::NoArguments,
        vec![],
        vec![],
        None,
        false,
        vec![
            Action::Diagnose { level: Parameter::Constant(crate::ir::DiagnosticLevel::Error), message: Parameter::Constant(CowStr::Borrowed("Capturing function source not supported")) },
        ],
    )));
    out.push(("hideinlinesource", DoxygenDirective::predefined(
        DoxygenDelimitedParameters::NoArguments,
        vec![],
        vec![],
        None,
        false,
        vec![
            Action::Diagnose { level: Parameter::Constant(crate::ir::DiagnosticLevel::Error), message: Parameter::Constant(CowStr::Borrowed("Capturing function source not supported")) },
        ],
    )));
    out.push(("showenumvalues", DoxygenDirective::predefined(
        DoxygenDelimitedParameters::NoArguments,
        vec![],
        vec![],
        None,
        false,
        vec![
            Action::SetDisplayOption { name: Parameter::Constant(CowStr::Borrowed("signature.enum.value")), value: Parameter::Constant(crate::ir::Value::Boolean(true)) },
        ],
    )));
    out.push(("hideenumvalues", DoxygenDirective::predefined(
        DoxygenDelimitedParameters::NoArguments,
        vec![],
        vec![],
        None,
        false,
        vec![
            Action::SetDisplayOption { name: Parameter::Constant(CowStr::Borrowed("signature.enum.value")), value: Parameter::Constant(crate::ir::Value::Boolean(false)) },
        ],
    )));
    out.push(("category", DoxygenDirective::predefined(
        DoxygenDelimitedParameters::NoArguments,
        vec!["name"],
        vec!["file", "header"],
        None,
        false,
        vec![],
    )));
    out.push(("class", DoxygenDirective::predefined(
        DoxygenDelimitedParameters::NoArguments,
        vec!["name"],
        vec!["file", "header"],
        None,
        false,
        vec![],
    )));
    out.push(("concept", DoxygenDirective::predefined(
        DoxygenDelimitedParameters::NoArguments,
        vec!["name"],
        vec![],
        None,
        false,
        vec![],
    )));
    assert(table_view(out@) =~~= table_view(before) + predefined_table_4());
}


/// The predefined directives from `def` to `module`.
pub open spec fn predefined_table_5() -> Seq<(&'static str, DirectiveV)> {
    seq![
        ("def", predefined_spec(DelimitedV::NoArguments, seq!["name"], seq![], None, false, seq![])),
        ("dir", predefined_spec(DelimitedV::NoArguments, seq![], seq!["path"], None, false, seq![])),
        ("enum", predefined_spec(DelimitedV::NoArguments, seq!["name"], seq![], None, false, seq![])),
        ("example", predefined_spec(DelimitedV::Options('\0', seq![("lineno", false)]), seq!["filename"], seq![], None, false, seq![])),
        ("fn", predefined_spec(DelimitedV::NoArguments, seq![], seq![], Some(DoxygenAttachedParameter { name: "declaration", required: true }), false, seq![])),
        ("headerfile", predefined_spec(DelimitedV::NoArguments, seq!["file"], seq!["name"], None, false, seq![])),
        ("hideinitializer", predefined_spec(DelimitedV::NoArguments, seq![], seq![], None, false, seq![])),
        ("idlexcept", predefined_spec(DelimitedV::NoArguments, seq!["name"], seq![], None, false, seq![])),
        ("interface", predefined_spec(DelimitedV::NoArguments, seq!["name"], seq!["file", "header"], None, false, seq![])),
        ("module", predefined_spec(DelimitedV::NoArguments, seq!["name"], seq![], None, false, seq![])),
    ]
}


/// Appends the predefined directives from `def` to `module`.
fn predefined_5(out: &mut Vec<(&'static str, DoxygenDirective<'static>)>)
    ensures
        table_view(final(out)@) =~~= table_view(old(out)@) + predefined_table_5(),
{
    let ghost before = out@;
    out.push(("def", DoxygenDirective::predefined(
        DoxygenDelimitedParameters::NoArguments,
        vec!["name"],
        vec![],
        None,
        false,
        vec![],
    )));
    out.push(("dir", DoxygenDirective::predefined(
        DoxygenDelimitedParameters::NoArguments,
        vec![],
        vec!["path"],
        None,
        false,
        vec![],
    )));
    out.push(("enum", DoxygenDirective::predefined(
        DoxygenDelimitedParameters::NoArguments,
        vec!["name"],
        vec![],
        None,
        false,
        vec![],
    )));
    out.push(("example", DoxygenDirective::predefined(
        DoxygenDelimitedParameters::Options('\0', vec![("lineno", false)]),
        vec!["filename"],
        vec![],
        None,
        false,
        vec![],
    )));
    out.push(("fn", DoxygenDirective::predefined(
        DoxygenDelimitedParameters::NoArguments,
        vec![],
        vec![],
        Some(DoxygenAttachedParameter { name: "declaration", required: true }),
        false,
        vec![],
    )));
    out.push(("headerfile", DoxygenDirective::predefined(
        DoxygenDelimitedParameters::NoArguments,
        vec!["file"],
        vec!["name"],
        None,
        false,
        vec![],
    )));
    out.push(("hideinitializer", DoxygenDirective::predefined(
        DoxygenDelimitedParameters::NoArguments,
        vec![],
        vec![],
        None,
        false,
        vec![],
    )));
    out.push(("idlexcept", DoxygenDirective::predefined(
        DoxygenDelimitedParameters::NoArguments,
        vec!["name"],
        vec![],
        None,
        false,
        vec![],
    )));
    out.push(("interface", DoxygenDirective::predefined(
        DoxygenDelimitedParameters::NoArguments,
        vec!["name"],
        vec!["file", "header"],
        None,
        false,
        vec![],
    )));
    out.push(("module", DoxygenDirective::predefined(
        DoxygenDelimitedParameters::NoArguments,
        vec!["name"],
        vec![],
        None,
        false,
        vec![],
    )));
    assert(table_view(out@) =~~= table_view(before) + predefined_table_5());
}


/// The predefined directives from `namespace` to `struct`.
pub open spec fn predefined_table_6() -> Seq<(&'static str, DirectiveV)> {
    seq![
        ("namespace", predefined_spec(DelimitedV::NoArguments, seq!["name"], seq![], None, false, seq![])),
        ("nosubgrouping", predefined_spec(DelimitedV::NoArguments, seq![], seq![], None, false, seq![])),
        ("overload", predefined_spec(DelimitedV::NoArguments, seq![], seq!["declaration"], None, false, seq![])),
        ("package", predefined_spec(DelimitedV::NoArguments, seq!["name"], seq![], None, false, seq![])),
        ("property", predefined_spec(DelimitedV::NoArguments, seq![], seq![], Some(DoxygenAttachedParameter { name: "declaration", required: true }), false, seq![])),
        ("protocol", predefined_spec(DelimitedV::NoArguments, seq!["name"], seq!["file", "header"], None, false, seq![])),
        ("pure", predefined_spec(DelimitedV::NoArguments, seq![], seq![], None, false, seq![])),
        ("requirement", predefined_spec(DelimitedV::NoArguments, seq!["id"], seq!["title"], None, false, seq![])),
        ("showinitializer", predefined_spec(DelimitedV::NoArguments, seq![], seq![], None, false, seq![])),
        ("struct", predefined_spec(DelimitedV::NoArguments, seq!["name"], seq!["file", "header"], None, false, seq![])),
    ]
}


/// Appends the predefined directives from `namespace` to `struct`.
fn predefined_6(out: &mut Vec<(&'static str, DoxygenDirective<'static>)>)
    ensures
        table_view(final(out)@) =~~= table_view(old(out)@) + predefined_table_6(),
{
    let ghost before = out@;
    out.push(("namespace", DoxygenDirective::predefined(
        DoxygenDelimitedParameters::NoArguments,
        vec!["name"],
        vec![],
        None,
        false,
        vec![],
    )));
    out.push(("nosubgrouping", DoxygenDirective::predefined(
        DoxygenDelimitedParameters::NoArguments,
        vec![],
        vec![],
        None,
        false,
        vec![],
    )));
    out.push(("overload", DoxygenDirective::predefined(
        DoxygenDelimitedParameters::NoArguments,
        vec![],
        vec!["declaration"],
        None,
        false,
        vec![],
    )));
    out.push(("package", DoxygenDirective::predefined(
        DoxygenDelimitedParameters::NoArguments,
        vec!["name"],
        vec![],
        None,
        false,
        vec![],
    )));
    out.push(("property", DoxygenDirective::predefined(
        DoxygenDelimitedParameters::NoArguments,
        vec![],
        vec![],
        Some(DoxygenAttachedParameter { name: "declaration", required: true }),
        false,
        vec![],
    )));
    out.push(("protocol", DoxygenDirective::predefined(
        DoxygenDelimitedParameters::NoArguments,
        vec!["name"],
        vec!["file", "header"],
        None,
        false,
        vec![],
    )));
    out.push(("pure", DoxygenDirective::predefined(
        DoxygenDelimitedParameters::NoArguments,
        vec![],
        vec![],
        None,
        false,
        vec![],
    )));
    out.push(("requirement", DoxygenDirective::predefined(
        DoxygenDelimitedParameters::NoArguments,
        vec!["id"],
        vec!["title"],
        None,
        false,
        vec![],
    )));
    out.push(("showinitializer", DoxygenDirective::predefined(
        DoxygenDelimitedParameters::NoArguments,
        vec![],
        vec![],
        None,
        false,
        vec![],
    )));
    out.push(("struct", DoxygenDirective::predefined(
        DoxygenDelimitedParameters::NoArguments,
        vec!["name"],
        vec!["file", "header"],
        None,
        false,
        vec![],
    )));
    assert(table_view(out@) =~~= table_view(before) + predefined_table_6());
}


/// The predefined directives from `typedef` to `noop`.
pub open spec fn predefined_table_7() -> Seq<(&'static str, DirectiveV)> {
    seq![
        ("typedef", predefined_spec(DelimitedV::NoArguments, seq![], seq![], Some(DoxygenAttachedParameter { name: "declaration", required: true }), false, seq![])),
        ("union", predefined_spec(DelimitedV::NoArguments, seq!["name"], seq!["file", "header"], None, false, seq![])),
        ("var", predefined_spec(DelimitedV::NoArguments, seq![], seq![], Some(DoxygenAttachedParameter { name: "declaration", required: true }), false, seq![])),
        ("vhdlflow", predefined_spec(DelimitedV::NoArguments, seq![], seq!["title"], None, false, seq![])),
        ("cond", predefined_spec(DelimitedV::NoArguments, seq![], seq!["label"], None, false, seq![])),
        ("copyright", predefined_spec(DelimitedV::NoArguments, seq![], seq![], Some(DoxygenAttachedParameter { name: "description", required: true }), true, seq![])),
        ("date", predefined_spec(DelimitedV::NoArguments, seq![], seq![], Some(DoxygenAttachedParameter { name: "description", required: true }), true, seq![])),
        ("showdate", predefined_spec(DelimitedV::NoArguments, seq!["format"], seq!["datetime"], None, false, seq![])),
        ("details", predefined_spec(DelimitedV::NoArguments, seq![], seq![], Some(DoxygenAttachedParameter { name: "description", required: true }), true, seq![])),
        ("noop", predefined_spec(DelimitedV::NoArguments, seq![], seq![], Some(DoxygenAttachedParameter { name: "body", required: true }), true, seq![])),
    ]
}


/// Appends the predefined directives from `typedef` to `noop`.
fn predefined_7(out: &mut Vec<(&'static str, DoxygenDirective<'static>)>)
    ensures
        table_view(final(out)@) =~~= table_view(old(out)@) + predefined_table_7(),
{
    let ghost before = out@;
    out.push(("typedef", DoxygenDirective::predefined(
        DoxygenDelimitedParameters::NoArguments,
        vec![],
        vec![],
        Some(DoxygenAttachedParameter { name: "declaration", required: true }),
        false,
        vec![],
    )));
    out.push(("union", DoxygenDirective::predefined(
        DoxygenDelimitedParameters::NoArguments,
        vec!["name"],
        vec!["file", "header"],
        None,
        false,
        vec![],
    )));
    out.push(("var", DoxygenDirective::predefined(
        DoxygenDelimitedParameters::NoArguments,
        vec![],
        vec![],
        Some(DoxygenAttachedParameter { name: "declaration", required: true }),
        false,
        vec![],
    )));
    out.push(("vhdlflow", DoxygenDirective::predefined(
        DoxygenDelimitedParameters::NoArguments,
        vec![],
        vec!["title"],
        None,
        false,
        vec![],
    )));
    out.push(("cond", DoxygenDirective::predefined(
        DoxygenDelimitedParameters::NoArguments,
        vec![],
        vec!["label"],
        None,
        false,
        vec![],
    )));
    out.push(("copyright", DoxygenDirective::predefined(
        DoxygenDelimitedParameters::NoArguments,
        vec![],
        vec![],
        Some(DoxygenAttachedParameter { name: "description", required: true }),
        true,
        vec![],
    )));
    out.push(("date", DoxygenDirective::predefined(
        DoxygenDelimitedParameters::NoArguments,
        vec![],
        vec![],
        Some(DoxygenAttachedParameter { name: "description", required: true }),
        true,
        vec![],
    )));
    out.push(("showdate", DoxygenDirective::predefined(
        DoxygenDelimitedParameters::NoArguments,
        vec!["format"],
        vec!["datetime"],
        None,
        false,
        vec![],
    )));
    out.push(("details", DoxygenDirective::predefined(
        DoxygenDelimitedParameters::NoArguments,
        vec![],
        vec![],
        Some(DoxygenAttachedParameter { name: "description", required: true }),
        true,
        vec![],
    )));
    out.push(("noop", DoxygenDirective::predefined(
        DoxygenDelimitedParameters::NoArguments,
        vec![],
        vec![],
        Some(DoxygenAttachedParameter { name: "body", required: true }),
        true,
        vec![],
    )));
    assert(table_view(out@) =~~= table_view(before) + predefined_table_7());
}


/// The predefined directives from `raisewarning` to `parblock`.
pub open spec fn predefined_table_8() -> Seq<(&'static str, DirectiveV)> {
    seq![
        ("raisewarning", predefined_spec(DelimitedV::NoArguments, seq![], seq![], Some(DoxygenAttachedParameter { name: "warning", required: true }), false, seq![Action::Diagnose { level: Parameter::Constant(crate::ir::DiagnosticLevel::Warning), message: Parameter::Variable(CowStr::Borrowed("warning")) }])),
        ("else", predefined_spec(DelimitedV::NoArguments, seq![], seq![], None, false, seq![])),
        ("elseif", predefined_spec(DelimitedV::NoArguments, seq!["label"], seq![], None, false, seq![])),
        ("endcond", predefined_spec(DelimitedV::NoArguments, seq![], seq![], None, false, seq![])),
        ("endif", predefined_spec(DelimitedV::NoArguments, seq![], seq![], None, false, seq![])),
        ("exception", predefined_spec(DelimitedV::NoArguments, seq!["exception"], seq![], Some(DoxygenAttachedParameter { name: "description", required: true }), true, seq![])),
        ("if", predefined_spec(DelimitedV::NoArguments, seq!["label"], seq![], None, false, seq![])),
        ("ifnot", predefined_spec(DelimitedV::NoArguments, seq!["label"], seq![], None, false, seq![])),
        ("invariant", predefined_spec(DelimitedV::NoArguments, seq![], seq![], Some(DoxygenAttachedParameter { name: "description", required: true }), true, seq![])),
        ("parblock", predefined_spec(DelimitedV::NoArguments, seq![], seq![], None, false, seq![Action::Diagnose { level: Parameter::Constant(crate::ir::DiagnosticLevel::Error), message: Parameter::Constant(CowStr::Borrowed("parblock is not supported")) }])),
    ]
}


/// Appends the predefined directives from `raisewarning` to `parblock`.
fn predefined_8(out: &mut Vec<(&'static str, DoxygenDirective<'static>)>)
    ensures
        table_view(final(out)@) =~~= table_view(old(out)@) + predefined_table_8(),
{
    let ghost before = out@;
    out.push(("raisewarning", DoxygenDirective::predefined(
        DoxygenDelimitedParameters::NoArguments,
        vec![],
        vec![],
        Some(DoxygenAttachedParameter { name: "warning", required: true }),
        false,
        vec![
            Action::Diagnose { level: Parameter::Constant(crate::ir::DiagnosticLevel::Warning), message: Parameter::Variable(CowStr::Borrowed("warning")) },
        ],
    )));
    out.push(("else", DoxygenDirective::predefined(
        DoxygenDelimitedParameters::NoArguments,
        vec![],
        vec![],
        None,
        false,
        vec![],
    )));
    out.push(("elseif", DoxygenDirective::predefined(
        DoxygenDelimitedParameters::NoArguments,
        vec!["label"],
        vec![],
        None,
        false,
        vec![],
    )));
    out.push(("endcond", DoxygenDirective::predefined(
        DoxygenDelimitedParameters::NoArguments,
        vec![],
        vec![],
        None,
        false,
        vec![],
    )));
    out.push(("endif", DoxygenDirective::predefined(
        DoxygenDelimitedParameters::NoArguments,
        vec![],
        vec![],
        None,
        false,
        vec![],
    )));
    out.push(("exception", DoxygenDirective::predefined(
        DoxygenDelimitedParameters::NoArguments,
        vec!["exception"],
        vec![],
        Some(DoxygenAttachedParameter { name: "description", required: true }),
        true,
        vec![],
    )));
    out.push(("if", DoxygenDirective::predefined(
        DoxygenDelimitedParameters::NoArguments,
        vec!["label"],
        vec![],
        None,
        false,
        vec![],
    )));
    out.push(("ifnot", DoxygenDirective::predefined(
        DoxygenDelimitedParameters::NoArguments,
        vec!["label"],
        vec![],
        None,
        false,
        vec![],
    )));
    out.push(("invariant", DoxygenDirective::predefined(
        DoxygenDelimitedParameters::NoArguments,
        vec![],
        vec![],
        Some(DoxygenAttachedParameter { name: "description", required: true }),
        true,
        vec![],
    )));
    out.push(("parblock", DoxygenDirective::predefined(
        DoxygenDelimitedParameters::NoArguments,
        vec![],
        vec![],
        None,
        false,
        vec![
            Action::Diagnose { level: Parameter::Constant(crate::ir::DiagnosticLevel::Error), message: Parameter::Constant(CowStr::Borrowed("parblock is not supported")) },
        ],
    )));
    assert(table_view(out@) =~~= table_view(before) + predefined_table_8());
}


/// The predefined directives from `endparblock` to `anchor`.
pub open spec fn predefined_table_9() -> Seq<(&'static str, DirectiveV)> {
    seq![
        ("endparblock", predefined_spec(DelimitedV::NoArguments, seq![], seq![], None, false, seq![Action::Diagnose { level: Parameter::Constant(crate::ir::DiagnosticLevel::Error), message: Parameter::Constant(CowStr::Borrowed("parblock is not supported")) }])),
        ("sa", predefined_spec(DelimitedV::NoArguments, seq![], seq![], Some(DoxygenAttachedParameter { name: "references", required: true }), true, seq![])),
        ("see", predefined_spec(DelimitedV::NoArguments, seq![], seq![], Some(DoxygenAttachedParameter { name: "references", required: true }), true, seq![])),
        ("short", predefined_spec(DelimitedV::NoArguments, seq![], seq![], Some(DoxygenAttachedParameter { name: "description", required: true }), true, seq![])),
        ("since", predefined_spec(DelimitedV::NoArguments, seq![], seq![], Some(DoxygenAttachedParameter { name: "description", required: true }), true, seq![])),
        ("test", predefined_spec(DelimitedV::NoArguments, seq![], seq![], Some(DoxygenAttachedParameter { name: "description", required: true }), true, seq![])),
        ("version", predefined_spec(DelimitedV::NoArguments, seq![], seq![], Some(DoxygenAttachedParameter { name: "version", required: true }), true, seq![])),
        ("xrefitem", predefined_spec(DelimitedV::NoArguments, seq!["key", "heading", "title"], seq![], Some(DoxygenAttachedParameter { name: "body", required: true }), true, seq![])),
        ("addindex", predefined_spec(DelimitedV::NoArguments, seq![], seq![], Some(DoxygenAttachedParameter { name: "body", required: true }), false, seq![])),
        ("anchor", predefined_spec(DelimitedV::NoArguments, seq!["name"], seq![], None, false, seq![])),
    ]
}


/// Appends the predefined directives from `endparblock` to `anchor`.
fn predefined_9(out: &mut Vec<(&'static str, DoxygenDirective<'static>)>)
    ensures
        table_view(final(out)@) =~~= table_view(old(out)@) + predefined_table_9(),
{
    let ghost before = out@;
    out.push(("endparblock", DoxygenDirective::predefined(
        DoxygenDelimitedParameters::NoArguments,
        vec![],
        vec![],
        None,
        false,
        vec![
            Action::Diagnose { level: Parameter::Constant(crate::ir::DiagnosticLevel::Error), message: Parameter::Constant(CowStr::Borrowed("parblock is not supported")) },
        ],
    )));
    out.push(("sa", DoxygenDirective::predefined(
        DoxygenDelimitedParameters::NoArguments,
        vec![],
        vec![],
        Some(DoxygenAttachedParameter { name: "references", required: true }),
        true,
        vec![],
    )));
    out.push(("see", DoxygenDirective::predefined(
        DoxygenDelimitedParameters::NoArguments,
        vec![],
        vec![],
        Some(DoxygenAttachedParameter { name: "references", required: true }),
        true,
        vec![],
    )));
    out.push(("short", DoxygenDirective::predefined(
        DoxygenDelimitedParameters::NoArguments,
        vec![],
        vec![],
        Some(DoxygenAttachedParameter { name: "description", required: true }),
        true,
        vec![],
    )));
    out.push(("since", DoxygenDirective::predefined(
        DoxygenDelimitedParameters::NoArguments,
        vec![],
        vec![],
        Some(DoxygenAttachedParameter { name: "description", required: true }),
        true,
        vec![],
    )));
    out.push(("test", DoxygenDirective::predefined(
        DoxygenDelimitedParameters::NoArguments,
        vec![],
        vec![],
        Some(DoxygenAttachedParameter { name: "description", required: true }),
        true,
        vec![],
    )));
    out.push(("version", DoxygenDirective::predefined(
        DoxygenDelimitedParameters::NoArguments,
        vec![],
        vec![],
        Some(DoxygenAttachedParameter { name: "version", required: true }),
        true,
        vec![],
    )));
    out.push(("xrefitem", DoxygenDirective::predefined(
        DoxygenDelimitedParameters::NoArguments,
        vec!["key", "heading", "title"],
        vec![],
        Some(DoxygenAttachedParameter { name: "body", required: true }),
        true,
        vec![],
    )));
    out.push(("addindex", DoxygenDirective::predefined(
        DoxygenDelimitedParameters::NoArguments,
        vec![],
        vec![],
        Some(DoxygenAttachedParameter { name: "body", required: true }),
        false,
        vec![],
    )));
    out.push(("anchor", DoxygenDirective::predefined(
        DoxygenDelimitedParameters::NoArguments,
        vec!["name"],
        vec![],
        None,
        false,
        vec![],
    )));
    assert(table_view(out@) =~~= table_view(before) + predefined_table_9());
}


/// The predefined directives from `cite` to `tableofcontents`.
pub open spec fn predefined_table_10() -> Seq<(&'static str, DirectiveV)> {
    seq![
        ("cite", predefined_spec(DelimitedV::Options('\0', seq![("number", false), ("shortauthor", false), ("year", false), ("nopar", false), ("nocite", false)]), seq!["label"], seq![], None, false, seq![])),
        ("endlink", predefined_spec(DelimitedV::NoArguments, seq![], seq![], None, false, seq![])),
        ("link", predefined_spec(DelimitedV::NoArguments, seq!["object"], seq![], None, false, seq![])),
        ("ref", predefined_spec(DelimitedV::NoArguments, seq!["id"], seq![], None, false, seq![Action::InsertReference { entry_id: Parameter::Variable(CowStr::Borrowed("id")) }])),
        ("refitem", predefined_spec(DelimitedV::NoArguments, seq!["name"], seq![], None, false, seq![])),
        ("satisfies", predefined_spec(DelimitedV::NoArguments, seq!["id"], seq!["description"], None, false, seq![Action::AddRelationship { kind: Parameter::Constant(crate::ir::Relationship(CowStr::Borrowed("doxy.satisfies"))), entry_id: Parameter::Variable(CowStr::Borrowed("id")) }])),
        ("verifies", predefined_spec(DelimitedV::NoArguments, seq!["id"], seq!["description"], None, false, seq![Action::AddRelationship { kind: Parameter::Constant(crate::ir::Relationship(CowStr::Borrowed("doxy.verifies"))), entry_id: Parameter::Variable(CowStr::Borrowed("id")) }])),
        ("secreflist", predefined_spec(DelimitedV::NoArguments, seq![], seq![], None, false, seq![])),
        ("endsecreflist", predefined_spec(DelimitedV::NoArguments, seq![], seq![], None, false, seq![])),
        ("tableofcontents", predefined_spec(DelimitedV::Options(':', seq![("HTML", true), ("LaTeX", true), ("XML", true), ("DocBook", true)]), seq![], seq![], None, false, seq![])),
    ]
}


/// Appends the predefined directives from `cite` to `tableofcontents`.
fn predefined_10(out: &mut Vec<(&'static str, DoxygenDirective<'static>)>)
    ensures
        table_view(final(out)@) =~~= table_view(old(out)@) + predefined_table_10(),
{
    let ghost before = out@;
    out.push(("cite", DoxygenDirective::predefined(
        DoxygenDelimitedParameters::Options('\0', vec![("number", false), ("shortauthor", false), ("year", false), ("nopar", false), ("nocite", false)]),
        vec!["label"],
        vec![],
        None,
        false,
        vec![],
    )));
    out.push(("endlink", DoxygenDirective::predefined(
        DoxygenDelimitedParameters::NoArguments,
        vec![],
        vec![],
        None,
        false,
        vec![],
    )));
    out.push(("link", DoxygenDirective::predefined(
        DoxygenDelimitedParameters::NoArguments,
        vec!["object"],
        vec![],
        None,
        false,
        vec![],
    )));
    out.push(("ref", DoxygenDirective::predefined(
        DoxygenDelimitedParameters::NoArguments,
        vec!["id"],
        vec![],
        None,
        false,
        vec![
            Action::InsertReference { entry_id: Parameter::Variable(CowStr::Borrowed("id")) },
        ],
    )));
    out.push(("refitem", DoxygenDirective::predefined(
        DoxygenDelimitedParameters::NoArguments,
        vec!["name"],
        vec![],
        None,
        false,
        vec![],
    )));
    out.push(("satisfies", DoxygenDirective::predefined(
        DoxygenDelimitedParameters::NoArguments,
        vec!["id"],
        vec!["description"],
        None,
        false,
        vec![
            Action::AddRelationship { kind: Parameter::Constant(crate::ir::Relationship::predefined("doxy.satisfies")), entry_id: Parameter::Variable(CowStr::Borrowed("id")) },
        ],
    )));
    out.push(("verifies", DoxygenDirective::predefined(
        DoxygenDelimitedParameters::NoArguments,
        vec!["id"],
        vec!["description"],
        None,
        false,
        vec![
            Action::AddRelationship { kind: Parameter::Constant(crate::ir::Relationship::predefined("doxy.verifies")), entry_id: Parameter::Variable(CowStr::Borrowed("id")) },
        ],
    )));
    out.push(("secreflist", DoxygenDirective::predefined(
        DoxygenDelimitedParameters::NoArguments,
        vec![],
        vec![],
        None,
        false,
        vec![],
    )));
    out.push(("endsecreflist", DoxygenDirective::predefined(
        DoxygenDelimitedParameters::NoArguments,
        vec![],
        vec![],
        None,
        false,
        vec![],
    )));
    out.push(("tableofcontents", DoxygenDirective::predefined(
        DoxygenDelimitedParameters::Options(':', vec![("HTML", true), ("LaTeX", true), ("XML", true), ("DocBook", true)]),
        vec![],
        vec![],
        None,
        false,
        vec![],
    )));
    assert(table_view(out@) =~~= table_view(before) + predefined_table_10());
}


/// The predefined directives from `section` to `includedoc`.
pub open spec fn predefined_table_11() -> Seq<(&'static str, DirectiveV)> {
    seq![
        ("section", predefined_spec(DelimitedV::NoArguments, seq!["id"], seq!["title"], None, false, seq![Action::InsertHeadline { id: Parameter::Variable(CowStr::Borrowed("id")), level: Parameter::Constant(2u8), content: Parameter::Variable(CowStr::Borrowed("title")) }])),
        ("subsection", predefined_spec(DelimitedV::NoArguments, seq!["name"], seq!["title"], None, false, seq![Action::InsertHeadline { id: Parameter::Variable(CowStr::Borrowed("id")), level: Parameter::Constant(3u8), content: Parameter::Variable(CowStr::Borrowed("title")) }])),
        ("subsubsection", predefined_spec(DelimitedV::NoArguments, seq!["name"], seq!["title"], None, false, seq![Action::InsertHeadline { id: Parameter::Variable(CowStr::Borrowed("id")), level: Parameter::Constant(4u8), content: Parameter::Variable(CowStr::Borrowed("title")) }])),
        ("paragraph", predefined_spec(DelimitedV::NoArguments, seq!["name"], seq!["title"], None, false, seq![])),
        ("subparagraph", predefined_spec(DelimitedV::NoArguments, seq!["name"], seq!["title"], None, false, seq![])),
        ("subsubparagraph", predefined_spec(DelimitedV::NoArguments, seq!["name"], seq!["title"], None, false, seq![])),
        ("dontinclude", predefined_spec(DelimitedV::Options('\0', seq![("lineno", false), ("strip", false), ("nostrip", false)]), seq!["file"], seq![], None, false, seq![])),
        ("include", predefined_spec(DelimitedV::Options('=', seq![("lineno", false), ("doc", false), ("local", false), ("strip", false), ("nostrip", false), ("raise", true), ("prefix", true)]), seq!["file"], seq![], None, false, seq![])),
        ("includelineno", predefined_spec(DelimitedV::NoArguments, seq!["file"], seq![], None, false, seq![])),
        ("includedoc", predefined_spec(DelimitedV::Options('=', seq![("raise", true), ("prefix", true)]), seq!["file"], seq![], None, false, seq![])),
    ]
}


/// Appends the predefined directives from `section` to `includedoc`.
fn predefined_11(out: &mut Vec<(&'static str, DoxygenDirective<'static>)>)
    ensures
        table_view(final(out)@) =~~= table_view(old(out)@) + predefined_table_11(),
{
    let ghost before = out@;
    out.push(("section", DoxygenDirective::predefined(
        DoxygenDelimitedParameters::NoArguments,
        vec!["id"],
        vec!["title"],
        None,
        false,
        vec![
            Action::InsertHeadline { id: Parameter::Variable(CowStr::Borrowed("id")), level: Parameter::Constant(2u8), content: Parameter::Variable(CowStr::Borrowed("title")) },
        ],
    )));
    out.push(("subsection", DoxygenDirective::predefined(
        DoxygenDelimitedParameters::NoArguments,
        vec!["name"],
        vec!["title"],
        None,
        false,
        vec![
            Action::InsertHeadline { id: Parameter::Variable(CowStr::Borrowed("id")), level: Parameter::Constant(3u8), content: Parameter::Variable(CowStr::Borrowed("title")) },
        ],
    )));
    out.push(("subsubsection", DoxygenDirective::predefined(
        DoxygenDelimitedParameters::NoArguments,
        vec!["name"],
        vec!["title"],
        None,
        false,
        vec![
            Action::InsertHeadline { id: Parameter::Variable(CowStr::Borrowed("id")), level: Parameter::Constant(4u8), content: Parameter::Variable(CowStr::Borrowed("title")) },
        ],
    )));
    out.push(("paragraph", DoxygenDirective::predefined(
        DoxygenDelimitedParameters::NoArguments,
        vec!["name"],
        vec!["title"],
        None,
        false,
        vec![],
    )));
    out.push(("subparagraph", DoxygenDirective::predefined(
        DoxygenDelimitedParameters::NoArguments,
        vec!["name"],
        vec!["title"],
        None,
        false,
        vec![],
    )));
    out.push(("subsubparagraph", DoxygenDirective::predefined(
        DoxygenDelimitedParameters::NoArguments,
        vec!["name"],
        vec!["title"],
        None,
        false,
        vec![],
    )));
    out.push(("dontinclude", DoxygenDirective::predefined(
        DoxygenDelimitedParameters::Options('\0', vec![("lineno", false), ("strip", false), ("nostrip", false)]),
        vec!["file"],
        vec![],
        None,
        false,
        vec![],
    )));
    out.push(("include", DoxygenDirective::predefined(
        DoxygenDelimitedParameters::Options('=', vec![("lineno", false), ("doc", false), ("local", false), ("strip", false), ("nostrip", false), ("raise", true), ("prefix", true)]),
        vec!["file"],
        vec![],
        None,
        false,
        vec![],
    )));
    out.push(("includelineno", DoxygenDirective::predefined(
        DoxygenDelimitedParameters::NoArguments,
        vec!["file"],
        vec![],
        None,
        false,
        vec![],
    )));
    out.push(("includedoc", DoxygenDirective::predefined(
        DoxygenDelimitedParameters::Options('=', vec![("raise", true), ("prefix", true)]),
        vec!["file"],
        vec![],
        None,
        false,
        vec![],
    )));
    assert(table_view(out@) =~~= table_view(before) + predefined_table_11());
}


/// The predefined directives from `line` to `copydetails`.
pub open spec fn predefined_table_12() -> Seq<(&'static str, DirectiveV)> {
    seq![
        ("line", predefined_spec(DelimitedV::NoArguments, seq![], seq![], Some(DoxygenAttachedParameter { name: "pattern", required: true }), true, seq![])),
        ("skip", predefined_spec(DelimitedV::NoArguments, seq![], seq![], Some(DoxygenAttachedParameter { name: "pattern", required: true }), true, seq![])),
        ("skipline", predefined_spec(DelimitedV::NoArguments, seq![], seq![], Some(DoxygenAttachedParameter { name: "pattern", required: true }), true, seq![])),
        ("snippet", predefined_spec(DelimitedV::Options('=', seq![("lineno", false), ("trimleft", false), ("doc", false), ("local", false), ("strip", false), ("nostrip", false), ("raise", true), ("prefix", true)]), seq!["file", "id"], seq![], None, false, seq![])),
        ("snippetlineno", predefined_spec(DelimitedV::NoArguments, seq!["file", "id"], seq![], None, false, seq![])),
        ("snippetdoc", predefined_spec(DelimitedV::Options('=', seq![("raise", true), ("prefix", true)]), seq!["file", "id"], seq![], None, false, seq![])),
        ("until", predefined_spec(DelimitedV::NoArguments, seq![], seq![], Some(DoxygenAttachedParameter { name: "pattern", required: true }), true, seq![])),
        ("copydoc", predefined_spec(DelimitedV::NoArguments, seq!["id"], seq![], None, false, seq![])),
        ("copybrief", predefined_spec(DelimitedV::NoArguments, seq!["id"], seq![], None, false, seq![])),
        ("copydetails", predefined_spec(DelimitedV::NoArguments, seq!["id"], seq![], None, false, seq![])),
    ]
}


/// Appends the predefined directives from `line` to `copydetails`.
fn predefined_12(out: &mut Vec<(&'static str, DoxygenDirective<'static>)>)
    ensures
        table_view(final(out)@) =~~= table_view(old(out)@) + predefined_table_12(),
{
    let ghost before = out@;
    out.push(("line", DoxygenDirective::predefined(
        DoxygenDelimitedParameters::NoArguments,
        vec![],
        vec![],
        Some(DoxygenAttachedParameter { name: "pattern", required: true }),
        true,
        vec![],
    )));
    out.push(("skip", DoxygenDirective::predefined(
        DoxygenDelimitedParameters::NoArguments,
        vec![],
        vec![],
        Some(DoxygenAttachedParameter { name: "pattern", required: true }),
        true,
        vec![],
    )));
    out.push(("skipline", DoxygenDirective::predefined(
        DoxygenDelimitedParameters::NoArguments,
        vec![],
        vec![],
        Some(DoxygenAttachedParameter { name: "pattern", required: true }),
        true,
        vec![],
    )));
    out.push(("snippet", DoxygenDirective::predefined(
        DoxygenDelimitedParameters::Options('=', vec![("lineno", false), ("trimleft", false), ("doc", false), ("local", false), ("strip", false), ("nostrip", false), ("raise", true), ("prefix", true)]),
        vec!["file", "id"],
        vec![],
        None,
        false,
        vec![],
    )));
    out.push(("snippetlineno", DoxygenDirective::predefined(
        DoxygenDelimitedParameters::NoArguments,
        vec!["file", "id"],
        vec![],
        None,
        false,
        vec![],
    )));
    out.push(("snippetdoc", DoxygenDirective::predefined(
        DoxygenDelimitedParameters::Options('=', vec![("raise", true), ("prefix", true)]),
        vec!["file", "id"],
        vec![],
        None,
        false,
        vec![],
    )));
    out.push(("until", DoxygenDirective::predefined(
        DoxygenDelimitedParameters::NoArguments,
        vec![],
        vec![],
        Some(DoxygenAttachedParameter { name: "pattern", required: true }),
        true,
        vec![],
    )));
    out.push(("copydoc", DoxygenDirective::predefined(
        DoxygenDelimitedParameters::NoArguments,
        vec!["id"],
        vec![],
        None,
        false,
        vec![],
    )));
    out.push(("copybrief", DoxygenDirective::predefined(
        DoxygenDelimitedParameters::NoArguments,
        vec!["id"],
        vec![],
        None,
        false,
        vec![],
    )));
    out.push(("copydetails", DoxygenDirective::predefined(
        DoxygenDelimitedParameters::NoArguments,
        vec!["id"],
        vec![],
        None,
        false,
        vec![],
    )));
    assert(table_view(out@) =~~= table_view(before) + predefined_table_12());
}


/// The predefined directives from `dot` to `endmermaid`.
pub open spec fn predefined_table_13() -> Seq<(&'static str, DirectiveV)> {
    seq![
        ("dot", predefined_spec(DelimitedV::NoArguments, seq![], seq!["caption", "size"], None, false, seq![])),
        ("msc", predefined_spec(DelimitedV::NoArguments, seq![], seq!["caption", "size"], None, false, seq![])),
        ("mermaid", predefined_spec(DelimitedV::NoArguments, seq![], seq!["caption", "size"], None, false, seq![])),
        ("startuml", predefined_spec(DelimitedV::NoArguments, seq![], seq!["caption", "size"], None, false, seq![])),
        ("dotfile", predefined_spec(DelimitedV::NoArguments, seq!["file"], seq!["caption", "size"], None, false, seq![])),
        ("mscfile", predefined_spec(DelimitedV::NoArguments, seq!["file"], seq!["caption", "size"], None, false, seq![])),
        ("diafile", predefined_spec(DelimitedV::NoArguments, seq!["file"], seq!["caption", "size"], None, false, seq![])),
        ("enddot", predefined_spec(DelimitedV::NoArguments, seq![], seq![], None, false, seq![])),
        ("endmsc", predefined_spec(DelimitedV::NoArguments, seq![], seq![], None, false, seq![])),
        ("endmermaid", predefined_spec(DelimitedV::NoArguments, seq![], seq![], None, false, seq![])),
    ]
}


/// Appends the predefined directives from `dot` to `endmermaid`.
fn predefined_13(out: &mut Vec<(&'static str, DoxygenDirective<'static>)>)
    ensures
        table_view(final(out)@) =~~= table_view(old(out)@) + predefined_table_13(),
{
    let ghost before = out@;
    out.push(("dot", DoxygenDirective::predefined(
        DoxygenDelimitedParameters::NoArguments,
        vec![],
        vec!["caption", "size"],
        None,
        false,
        vec![],
    )));
    out.push(("msc", DoxygenDirective::predefined(
        DoxygenDelimitedParameters::NoArguments,
        vec![],
        vec!["caption", "size"],
        None,
        false,
        vec![],
    )));
    out.push(("mermaid", DoxygenDirective::predefined(
        DoxygenDelimitedParameters::NoArguments,
        vec![],
        vec!["caption", "size"],
        None,
        false,
        vec![],
    )));
    out.push(("startuml", DoxygenDirective::predefined(
        DoxygenDelimitedParameters::NoArguments,
        vec![],
        vec!["caption", "size"],
        None,
        false,
        vec![],
    )));
    out.push(("dotfile", DoxygenDirective::predefined(
        DoxygenDelimitedParameters::NoArguments,
        vec!["file"],
        vec!["caption", "size"],
        None,
        false,
        vec![],
    )));
    out.push(("mscfile", DoxygenDirective::predefined(
        DoxygenDelimitedParameters::NoArguments,
        vec!["file"],
        vec!["caption", "size"],
        None,
        false,
        vec![],
    )));
    out.push(("diafile", DoxygenDirective::predefined(
        DoxygenDelimitedParameters::NoArguments,
        vec!["file"],
        vec!["caption", "size"],
        None,
        false,
        vec![],
    )));
    out.push(("enddot", DoxygenDirective::predefined(
        DoxygenDelimitedParameters::NoArguments,
        vec![],
        vec![],
        None,
        false,
        vec![],
    )));
    out.push(("endmsc", DoxygenDirective::predefined(
        DoxygenDelimitedParameters::NoArguments,
        vec![],
        vec![],
        None,
        false,
        vec![],
    )));
    out.push(("endmermaid", DoxygenDirective::predefined(
        DoxygenDelimitedParameters::NoArguments,
        vec![],
        vec![],
        None,
        false,
        vec![],
    )));
    assert(table_view(out@) =~~= table_view(before) + predefined_table_13());
}


/// The predefined directives from `enduml` to `retval`.
pub open spec fn predefined_table_14() -> Seq<(&'static str, DirectiveV)> {
    seq![
        ("enduml", predefined_spec(DelimitedV::NoArguments, seq![], seq![], None, false, seq![])),
        ("mermaidfile", predefined_spec(DelimitedV::NoArguments, seq!["file"], seq!["caption", "size"], None, false, seq![])),
        ("plantumlfile", predefined_spec(DelimitedV::NoArguments, seq!["file"], seq!["caption", "size"], None, false, seq![])),
        ("tparam", predefined_spec(DelimitedV::NoArguments, seq!["name"], seq![], Some(DoxygenAttachedParameter { name: "description", required: true }), true, seq![Action::AddSectionItem { kind: Parameter::Constant(crate::ir::CharacteristicSection(CowStr::Borrowed("arg"))), value: Parameter::Variable(CowStr::Borrowed("name")), description: Parameter::Variable(CowStr::Borrowed("description")) }])),
        ("post", predefined_spec(DelimitedV::NoArguments, seq![], seq![], Some(DoxygenAttachedParameter { name: "description", required: true }), true, seq![Action::AddSectionItem { kind: Parameter::Constant(crate::ir::CharacteristicSection(CowStr::Borrowed("c.post"))), value: Parameter::Variable(CowStr::Borrowed("name")), description: Parameter::Variable(CowStr::Borrowed("description")) }])),
        ("pre", predefined_spec(DelimitedV::NoArguments, seq![], seq![], Some(DoxygenAttachedParameter { name: "description", required: true }), true, seq![Action::AddSectionItem { kind: Parameter::Constant(crate::ir::CharacteristicSection(CowStr::Borrowed("c.pre"))), value: Parameter::Variable(CowStr::Borrowed("name")), description: Parameter::Variable(CowStr::Borrowed("description")) }])),
        ("result", predefined_spec(DelimitedV::NoArguments, seq![], seq![], Some(DoxygenAttachedParameter { name: "description", required: true }), true, seq![Action::AddSectionItem { kind: Parameter::Constant(crate::ir::CharacteristicSection(CowStr::Borrowed("ret"))), value: Parameter::Variable(CowStr::Borrowed("name")), description: Parameter::Variable(CowStr::Borrowed("description")) }])),
        ("return", predefined_spec(DelimitedV::NoArguments, seq![], seq![], Some(DoxygenAttachedParameter { name: "description", required: true }), true, seq![Action::AddSectionItem { kind: Parameter::Constant(crate::ir::CharacteristicSection(CowStr::Borrowed("c.pre"))), value: Parameter::Variable(CowStr::Borrowed("name")), description: Parameter::Variable(CowStr::Borrowed("description")) }])),
        ("returns", predefined_spec(DelimitedV::NoArguments, seq![], seq![], Some(DoxygenAttachedParameter { name: "description", required: true }), true, seq![Action::SetSectionAbstract { kind: Parameter::Constant(crate::ir::CharacteristicSection(CowStr::Borrowed("ret"))), content: Parameter::Variable(CowStr::Borrowed("description")) }])),
        ("retval", predefined_spec(DelimitedV::NoArguments, seq!["value"], seq![], Some(DoxygenAttachedParameter { name: "description", required: true }), true, seq![Action::AddSectionItem { kind: Parameter::Constant(crate::ir::CharacteristicSection(CowStr::Borrowed("ret"))), value: Parameter::Variable(CowStr::Borrowed("value")), description: Parameter::Variable(CowStr::Borrowed("description")) }])),
    ]
}


/// Appends the predefined directives from `enduml` to `retval`.
fn predefined_14(out: &mut Vec<(&'static str, DoxygenDirective<'static>)>)
    ensures
        table_view(final(out)@) =~~= table_view(old(out)@) + predefined_table_14(),
{
    let ghost before = out@;
    out.push(("enduml", DoxygenDirective::predefined(
        DoxygenDelimitedParameters::NoArguments,
        vec![],
        vec![],
        None,
        false,
        vec![],
    )));
    out.push(("mermaidfile", DoxygenDirective::predefined(
        DoxygenDelimitedParameters::NoArguments,
        vec!["file"],
        vec!["caption", "size"],
        None,
        false,
        vec![],
    )));
    out.push(("plantumlfile", DoxygenDirective::predefined(
        DoxygenDelimitedParameters::NoArguments,
        vec!["file"],
        vec!["caption", "size"],
        None,
        false,
        vec![],
    )));
    out.push(("tparam", DoxygenDirective::predefined(
        DoxygenDelimitedParameters::NoArguments,
        vec!["name"],
        vec![],
        Some(DoxygenAttachedParameter { name: "description", required: true }),
        true,
        vec![
            Action::AddSectionItem { kind: Parameter::Constant(crate::ir::CharacteristicSection::predefined("arg")), value: Parameter::Variable(CowStr::Borrowed("name")), description: Parameter::Variable(CowStr::Borrowed("description")) },
        ],
    )));
    out.push(("post", DoxygenDirective::predefined(
        DoxygenDelimitedParameters::NoArguments,
        vec![],
        vec![],
        Some(DoxygenAttachedParameter { name: "description", required: true }),
        true,
        vec![
            Action::AddSectionItem { kind: Parameter::Constant(crate::ir::CharacteristicSection::predefined("c.post")), value: Parameter::Variable(CowStr::Borrowed("name")), description: Parameter::Variable(CowStr::Borrowed("description")) },
        ],
    )));
    out.push(("pre", DoxygenDirective::predefined(
        DoxygenDelimitedParameters::NoArguments,
        vec![],
        vec![],
        Some(DoxygenAttachedParameter { name: "description", required: true }),
        true,
        vec![
            Action::AddSectionItem { kind: Parameter::Constant(crate::ir::CharacteristicSection::predefined("c.pre")), value: Parameter::Variable(CowStr::Borrowed("name")), description: Parameter::Variable(CowStr::Borrowed("description")) },
        ],
    )));
    out.push(("result", DoxygenDirective::predefined(
        DoxygenDelimitedParameters::NoArguments,
        vec![],
        vec![],
        Some(DoxygenAttachedParameter { name: "description", required: true }),
        true,
        vec![
            Action::AddSectionItem { kind: Parameter::Constant(crate::ir::CharacteristicSection::predefined("ret")), value: Parameter::Variable(CowStr::Borrowed("name")), description: Parameter::Variable(CowStr::Borrowed("description")) },
        ],
    )));
    out.push(("return", DoxygenDirective::predefined(
        DoxygenDelimitedParameters::NoArguments,
        vec![],
        vec![],
        Some(DoxygenAttachedParameter { name: "description", required: true }),
        true,
        vec![
            Action::AddSectionItem { kind: Parameter::Constant(crate::ir::CharacteristicSection::predefined("c.pre")), value: Parameter::Variable(CowStr::Borrowed("name")), description: Parameter::Variable(CowStr::Borrowed("description")) },
        ],
    )));
    out.push(("returns", DoxygenDirective::predefined(
        DoxygenDelimitedParameters::NoArguments,
        vec![],
        vec![],
        Some(DoxygenAttachedParameter { name: "description", required: true }),
        true,
        vec![
            Action::SetSectionAbstract { kind: Parameter::Constant(crate::ir::CharacteristicSection::predefined("ret")), content: Parameter::Variable(CowStr::Borrowed("description")) },
        ],
    )));
    out.push(("retval", DoxygenDirective::predefined(
        DoxygenDelimitedParameters::NoArguments,
        vec!["value"],
        vec![],
        Some(DoxygenAttachedParameter { name: "description", required: true }),
        true,
        vec![
            Action::AddSectionItem { kind: Parameter::Constant(crate::ir::CharacteristicSection::predefined("ret")), value: Parameter::Variable(CowStr::Borrowed("value")), description: Parameter::Variable(CowStr::Borrowed("description")) },
        ],
    )));
    assert(table_view(out@) =~~= table_view(before) + predefined_table_14());
}


/// The predefined directives from `throw` to `remarks`.
pub open spec fn predefined_table_15() -> Seq<(&'static str, DirectiveV)> {
    seq![
        ("throw", predefined_spec(DelimitedV::NoArguments, seq!["exception"], seq![], Some(DoxygenAttachedParameter { name: "description", required: true }), true, seq![Action::AddSectionItem { kind: Parameter::Constant(crate::ir::CharacteristicSection(CowStr::Borrowed("err"))), value: Parameter::Variable(CowStr::Borrowed("exception")), description: Parameter::Variable(CowStr::Borrowed("description")) }])),
        ("param", predefined_spec(DelimitedV::KeywordModifiers(seq!["in", "out", "inout"]), seq!["name"], seq!["'-'"], Some(DoxygenAttachedParameter { name: "description", required: true }), true, seq![Action::AddSectionItem { kind: Parameter::Constant(crate::ir::CharacteristicSection(CowStr::Borrowed("arg"))), value: Parameter::Variable(CowStr::Borrowed("name")), description: Parameter::Variable(CowStr::Borrowed("description")) }])),
        ("bug", predefined_spec(DelimitedV::NoArguments, seq![], seq![], Some(DoxygenAttachedParameter { name: "description", required: true }), true, seq![Action::AddSectionItem { kind: Parameter::Constant(crate::ir::CharacteristicSection(CowStr::Borrowed("issue"))), value: Parameter::Variable(CowStr::Borrowed("name")), description: Parameter::Variable(CowStr::Borrowed("description")) }])),
        ("throws", predefined_spec(DelimitedV::NoArguments, seq!["exception"], seq![], Some(DoxygenAttachedParameter { name: "description", required: true }), true, seq![Action::AddSectionItem { kind: Parameter::Constant(crate::ir::CharacteristicSection(CowStr::Borrowed("err"))), value: Parameter::Variable(CowStr::Borrowed("exception")), description: Parameter::Variable(CowStr::Borrowed("description")) }])),
        ("todo", predefined_spec(DelimitedV::NoArguments, seq![], seq![], Some(DoxygenAttachedParameter { name: "description", required: true }), true, seq![Action::AddSectionItem { kind: Parameter::Constant(crate::ir::CharacteristicSection(CowStr::Borrowed("todo"))), value: Parameter::Variable(CowStr::Borrowed("...")), description: Parameter::Variable(CowStr::Borrowed("description")) }])),
        ("note", predefined_spec(DelimitedV::NoArguments, seq![], seq![], Some(DoxygenAttachedParameter { name: "body", required: true }), true, seq![Action::InsertAdmonition { contents: Parameter::Variable(CowStr::Borrowed("body")), kind: Parameter::Constant(crate::ir::AdmonitionKind::Note) }])),
        ("important", predefined_spec(DelimitedV::NoArguments, seq![], seq![], Some(DoxygenAttachedParameter { name: "body", required: true }), true, seq![Action::InsertAdmonition { contents: Parameter::Variable(CowStr::Borrowed("body")), kind: Parameter::Constant(crate::ir::AdmonitionKind::Important) }])),
        ("warning", predefined_spec(DelimitedV::NoArguments, seq![], seq![], Some(DoxygenAttachedParameter { name: "body", required: true }), true, seq![])),
        ("remark", predefined_spec(DelimitedV::NoArguments, seq![], seq![], Some(DoxygenAttachedParameter { name: "body", required: true }), true, seq![Action::InsertAdmonition { contents: Parameter::Variable(CowStr::Borrowed("body")), kind: Parameter::Constant(crate::ir::AdmonitionKind::Tip) }])),
        ("remarks", predefined_spec(DelimitedV::NoArguments, seq![], seq![], Some(DoxygenAttachedParameter { name: "body", required: true }), true, seq![Action::InsertAdmonition { contents: Parameter::Variable(CowStr::Borrowed("body")), kind: Parameter::Constant(crate::ir::AdmonitionKind::Tip) }])),
    ]
}


/// Appends the predefined directives from `throw` to `remarks`.
fn predefined_15(out: &mut Vec<(&'static str, DoxygenDirective<'static>)>)
    ensures
        table_view(final(out)@) =~~= table_view(old(out)@) + predefined_table_15(),
{
    let ghost before = out@;
    out.push(("throw", DoxygenDirective::predefined(
        DoxygenDelimitedParameters::NoArguments,
        vec!["exception"],
        vec![],
        Some(DoxygenAttachedParameter { name: "description", required: true }),
        true,
        vec![
            Action::AddSectionItem { kind: Parameter::Constant(crate::ir::CharacteristicSection::predefined("err")), value: Parameter::Variable(CowStr::Borrowed("exception")), description: Parameter::Variable(CowStr::Borrowed("description")) },
        ],
    )));
    out.push(("param", DoxygenDirective::predefined(
        DoxygenDelimitedParameters::KeywordModifiers(vec!["in", "out", "inout"]),
        vec!["name"],
        vec!["'-'"],
        Some(DoxygenAttachedParameter { name: "description", required: true }),
        true,
        vec![
            Action::AddSectionItem { kind: Parameter::Constant(crate::ir::CharacteristicSection::predefined("arg")), value: Parameter::Variable(CowStr::Borrowed("name")), description: Parameter::Variable(CowStr::Borrowed("description")) },
        ],
    )));
    out.push(("bug", DoxygenDirective::predefined(
        DoxygenDelimitedParameters::NoArguments,
        vec![],
        vec![],
        Some(DoxygenAttachedParameter { name: "description", required: true }),
        true,
        vec![
            Action::AddSectionItem { kind: Parameter::Constant(crate::ir::CharacteristicSection::predefined("issue")), value: Parameter::Variable(CowStr::Borrowed("name")), description: Parameter::Variable(CowStr::Borrowed("description")) },
        ],
    )));
    out.push(("throws", DoxygenDirective::predefined(
        DoxygenDelimitedParameters::NoArguments,
        vec!["exception"],
        vec![],
        Some(DoxygenAttachedParameter { name: "description", required: true }),
        true,
        vec![
            Action::AddSectionItem { kind: Parameter::Constant(crate::ir::CharacteristicSection::predefined("err")), value: Parameter::Variable(CowStr::Borrowed("exception")), description: Parameter::Variable(CowStr::Borrowed("description")) },
        ],
    )));
    out.push(("todo", DoxygenDirective::predefined(
        DoxygenDelimitedParameters::NoArguments,
        vec![],
        vec![],
        Some(DoxygenAttachedParameter { name: "description", required: true }),
        true,
        vec![
            Action::AddSectionItem { kind: Parameter::Constant(crate::ir::CharacteristicSection::predefined("todo")), value: Parameter::Variable(CowStr::Borrowed("...")), description: Parameter::Variable(CowStr::Borrowed("description")) },
        ],
    )));
    out.push(("note", DoxygenDirective::predefined(
        DoxygenDelimitedParameters::NoArguments,
        vec![],
        vec![],
        Some(DoxygenAttachedParameter { name: "body", required: true }),
        true,
        vec![
            Action::InsertAdmonition { contents: Parameter::Variable(CowStr::Borrowed("body")), kind: Parameter::Constant(crate::ir::AdmonitionKind::Note) },
        ],
    )));
    out.push(("important", DoxygenDirective::predefined(
        DoxygenDelimitedParameters::NoArguments,
        vec![],
        vec![],
        Some(DoxygenAttachedParameter { name: "body", required: true }),
        true,
        vec![
            Action::InsertAdmonition { contents: Parameter::Variable(CowStr::Borrowed("body")), kind: Parameter::Constant(crate::ir::AdmonitionKind::Important) },
        ],
    )));
    out.push(("warning", DoxygenDirective::predefined(
        DoxygenDelimitedParameters::NoArguments,
        vec![],
        vec![],
        Some(DoxygenAttachedParameter { name: "body", required: true }),
        true,
        vec![],
    )));
    out.push(("remark", DoxygenDirective::predefined(
        DoxygenDelimitedParameters::NoArguments,
        vec![],
        vec![],
        Some(DoxygenAttachedParameter { name: "body", required: true }),
        true,
        vec![
            Action::InsertAdmonition { contents: Parameter::Variable(CowStr::Borrowed("body")), kind: Parameter::Constant(crate::ir::AdmonitionKind::Tip) },
        ],
    )));
    out.push(("remarks", DoxygenDirective::predefined(
        DoxygenDelimitedParameters::NoArguments,
        vec![],
        vec![],
        Some(DoxygenAttachedParameter { name: "body", required: true }),
        true,
        vec![
            Action::InsertAdmonition { contents: Parameter::Variable(CowStr::Borrowed("body")), kind: Parameter::Constant(crate::ir::AdmonitionKind::Tip) },
        ],
    )));
    assert(table_view(out@) =~~= table_view(before) + predefined_table_15());
}


/// The predefined directives from `attention` to `arg`.
pub open spec fn predefined_table_16() -> Seq<(&'static str, DirectiveV)> {
    seq![
        ("attention", predefined_spec(DelimitedV::NoArguments, seq![], seq![], Some(DoxygenAttachedParameter { name: "body", required: true }), true, seq![Action::InsertAdmonition { contents: Parameter::Variable(CowStr::Borrowed("body")), kind: Parameter::Constant(crate::ir::AdmonitionKind::Caution) }])),
        ("par", predefined_spec(DelimitedV::NoArguments, seq![], seq![], Some(DoxygenAttachedParameter { name: "body", required: true }), true, seq![Action::InsertAdmonition { contents: Parameter::Variable(CowStr::Borrowed("body")), kind: Parameter::Constant(crate::ir::AdmonitionKind::Note) }])),
        ("verbinclude", predefined_spec(DelimitedV::NoArguments, seq!["file"], seq![], None, false, seq![Action::InsertSnippet { source: Parameter::Variable(CowStr::Borrowed("file")), language: Parameter::Constant(None), snippet: Parameter::Constant(None) }])),
        ("verbatim", predefined_spec(DelimitedV::NoArguments, seq![], seq![], None, false, seq![Action::StartCodeBlock { language: Parameter::Constant(None) }, Action::Diagnose { level: Parameter::Constant(crate::ir::DiagnosticLevel::Warning), message: Parameter::Constant(CowStr::Borrowed("Use mardown backticks (```) to start code block instead")) }])),
        ("endverbatim", predefined_spec(DelimitedV::NoArguments, seq![], seq![], None, false, seq![Action::EndCodeBlock {  }, Action::Diagnose { level: Parameter::Constant(crate::ir::DiagnosticLevel::Warning), message: Parameter::Constant(CowStr::Borrowed("Use mardown backticks (```) to end code block instead")) }])),
        ("code", predefined_spec(DelimitedV::NoArguments, seq![], seq!["language"], None, false, seq![Action::StartCodeBlock { language: Parameter::Variable(CowStr::Borrowed("language")) }, Action::Diagnose { level: Parameter::Constant(crate::ir::DiagnosticLevel::Warning), message: Parameter::Constant(CowStr::Borrowed("Use mardown backticks (```) to start code block instead")) }])),
        ("endcode", predefined_spec(DelimitedV::NoArguments, seq![], seq![], None, false, seq![Action::EndCodeBlock {  }, Action::Diagnose { level: Parameter::Constant(crate::ir::DiagnosticLevel::Warning), message: Parameter::Constant(CowStr::Borrowed("Use mardown backticks (```) to end code block instead")) }])),
        ("image", predefined_spec(DelimitedV::Options(':', seq![("inline", false), ("anchor", true)]), seq!["format", "file"], seq!["caption", "size"], None, false, seq![Action::PushScope { name: Parameter::Constant(Some(CowStr::Borrowed("doxy.image"))) }, Action::AddAllowedOutputBackend { allowed: Parameter::Variable(CowStr::Borrowed("format")) }, Action::InsertImage { image_source: Parameter::Variable(CowStr::Borrowed("file")), caption: Parameter::Variable(CowStr::Borrowed("caption")), inline: Parameter::Variable(CowStr::Borrowed("inline")), id: Parameter::Variable(CowStr::Borrowed("anchor")) }, Action::PopScope { name: Parameter::Constant(Some(CowStr::Borrowed("doxy.image"))) }])),
        ("li", predefined_spec(DelimitedV::NoArguments, seq![], seq![], Some(DoxygenAttachedParameter { name: "body", required: true }), true, seq![Action::InsertListItem { style: Parameter::Constant(crate::ir::rich_text::ListStyle::Unordered), content: Parameter::Variable(CowStr::Borrowed("body")) }, Action::Diagnose { level: Parameter::Constant(crate::ir::DiagnosticLevel::Warning), message: Parameter::Constant(CowStr::Borrowed("Use mardown list items (- ...) for list items")) }])),
        ("arg", predefined_spec(DelimitedV::NoArguments, seq![], seq![], Some(DoxygenAttachedParameter { name: "body", required: true }), true, seq![Action::InsertListItem { style: Parameter::Constant(crate::ir::rich_text::ListStyle::Unordered), content: Parameter::Variable(CowStr::Borrowed("body")) }, Action::Diagnose { level: Parameter::Constant(crate::ir::DiagnosticLevel::Warning), message: Parameter::Constant(CowStr::Borrowed("Use mardown list items (- ...) for list items")) }])),
    ]
}


/// Appends the predefined directives from `attention` to `arg`.
fn predefined_16(out: &mut Vec<(&'static str, DoxygenDirective<'static>)>)
    ensures
        table_view(final(out)@) =~~= table_view(old(out)@) + predefined_table_16(),
{
    let ghost before = out@;
    out.push(("attention", DoxygenDirective::predefined(
        DoxygenDelimitedParameters::NoArguments,
        vec![],
        vec![],
        Some(DoxygenAttachedParameter { name: "body", required: true }),
        true,
        vec![
            Action::InsertAdmonition { contents: Parameter::Variable(CowStr::Borrowed("body")), kind: Parameter::Constant(crate::ir::AdmonitionKind::Caution) },
        ],
    )));
    out.push(("par", DoxygenDirective::predefined(
        DoxygenDelimitedParameters::NoArguments,
        vec![],
        vec![],
        Some(DoxygenAttachedParameter { name: "body", required: true }),
        true,
        vec![
            Action::InsertAdmonition { contents: Parameter::Variable(CowStr::Borrowed("body")), kind: Parameter::Constant(crate::ir::AdmonitionKind::Note) },
        ],
    )));
    out.push(("verbinclude", DoxygenDirective::predefined(
        DoxygenDelimitedParameters::NoArguments,
        vec!["file"],
        vec![],
        None,
        false,
        vec![
            Action::InsertSnippet { source: Parameter::Variable(CowStr::Borrowed("file")), language: Parameter::Constant(None), snippet: Parameter::Constant(None) },
        ],
    )));
    out.push(("verbatim", DoxygenDirective::predefined(
        DoxygenDelimitedParameters::NoArguments,
        vec![],
        vec![],
        None,
        false,
        vec![
            Action::StartCodeBlock { language: Parameter::Constant(None) },
            Action::Diagnose { level: Parameter::Constant(crate::ir::DiagnosticLevel::Warning), message: Parameter::Constant(CowStr::Borrowed("Use mardown backticks (```) to start code block instead")) },
        ],
    )));
    out.push(("endverbatim", DoxygenDirective::predefined(
        DoxygenDelimitedParameters::NoArguments,
        vec![],
        vec![],
        None,
        false,
        vec![
            Action::EndCodeBlock {  },
            Action::Diagnose { level: Parameter::Constant(crate::ir::DiagnosticLevel::Warning), message: Parameter::Constant(CowStr::Borrowed("Use mardown backticks (```) to end code block instead")) },
        ],
    )));
    out.push(("code", DoxygenDirective::predefined(
        DoxygenDelimitedParameters::NoArguments,
        vec![],
        vec!["language"],
        None,
        false,
        vec![
            Action::StartCodeBlock { language: Parameter::Variable(CowStr::Borrowed("language")) },
            Action::Diagnose { level: Parameter::Constant(crate::ir::DiagnosticLevel::Warning), message: Parameter::Constant(CowStr::Borrowed("Use mardown backticks (```) to start code block instead")) },
        ],
    )));
    out.push(("endcode", DoxygenDirective::predefined(
        DoxygenDelimitedParameters::NoArguments,
        vec![],
        vec![],
        None,
        false,
        vec![
            Action::EndCodeBlock {  },
            Action::Diagnose { level: Parameter::Constant(crate::ir::DiagnosticLevel::Warning), message: Parameter::Constant(CowStr::Borrowed("Use mardown backticks (```) to end code block instead")) },
        ],
    )));
    out.push(("image", DoxygenDirective::predefined(
        DoxygenDelimitedParameters::Options(':', vec![("inline", false), ("anchor", true)]),
        vec!["format", "file"],
        vec!["caption", "size"],
        None,
        false,
        vec![
            Action::PushScope { name: Parameter::Constant(Some(CowStr::Borrowed("doxy.image"))) },
            Action::AddAllowedOutputBackend { allowed: Parameter::Variable(CowStr::Borrowed("format")) },
            Action::InsertImage { image_source: Parameter::Variable(CowStr::Borrowed("file")), caption: Parameter::Variable(CowStr::Borrowed("caption")), inline: Parameter::Variable(CowStr::Borrowed("inline")), id: Parameter::Variable(CowStr::Borrowed("anchor")) },
            Action::PopScope { name: Parameter::Constant(Some(CowStr::Borrowed("doxy.image"))) },
        ],
    )));
    out.push(("li", DoxygenDirective::predefined(
        DoxygenDelimitedParameters::NoArguments,
        vec![],
        vec![],
        Some(DoxygenAttachedParameter { name: "body", required: true }),
        true,
        vec![
            Action::InsertListItem { style: Parameter::Constant(crate::ir::rich_text::ListStyle::Unordered), content: Parameter::Variable(CowStr::Borrowed("body")) },
            Action::Diagnose { level: Parameter::Constant(crate::ir::DiagnosticLevel::Warning), message: Parameter::Constant(CowStr::Borrowed("Use mardown list items (- ...) for list items")) },
        ],
    )));
    out.push(("arg", DoxygenDirective::predefined(
        DoxygenDelimitedParameters::NoArguments,
        vec![],
        vec![],
        Some(DoxygenAttachedParameter { name: "body", required: true }),
        true,
        vec![
            Action::InsertListItem { style: Parameter::Constant(crate::ir::rich_text::ListStyle::Unordered), content: Parameter::Variable(CowStr::Borrowed("body")) },
            Action::Diagnose { level: Parameter::Constant(crate::ir::DiagnosticLevel::Warning), message: Parameter::Constant(CowStr::Borrowed("Use mardown list items (- ...) for list items")) },
        ],
    )));
    assert(table_view(out@) =~~= table_view(before) + predefined_table_16());
}


/// The predefined directives from `p` to `htmlinclude`.
pub open spec fn predefined_table_17() -> Seq<(&'static str, DirectiveV)> {
    seq![
        ("p", predefined_spec(DelimitedV::NoArguments, seq!["codeword"], seq![], None, false, seq![Action::InsertCode { language: Parameter::Constant(None), content: Parameter::Variable(CowStr::Borrowed("codeword")) }])),
        ("c", predefined_spec(DelimitedV::NoArguments, seq!["codeword"], seq![], None, false, seq![Action::InsertCode { language: Parameter::Constant(None), content: Parameter::Variable(CowStr::Borrowed("codeword")) }])),
        ("b", predefined_spec(DelimitedV::NoArguments, seq!["word"], seq![], None, false, seq![Action::InsertStyled { text: Parameter::Variable(CowStr::Borrowed("word")), style: Parameter::Constant(crate::ir::rich_text::InlineTextStyle::Bold) }])),
        ("em", predefined_spec(DelimitedV::NoArguments, seq!["word"], seq![], None, false, seq![Action::InsertStyled { text: Parameter::Variable(CowStr::Borrowed("word")), style: Parameter::Constant(crate::ir::rich_text::InlineTextStyle::Emphasized) }])),
        ("e", predefined_spec(DelimitedV::NoArguments, seq!["word"], seq![], None, false, seq![Action::InsertStyled { text: Parameter::Variable(CowStr::Borrowed("word")), style: Parameter::Constant(crate::ir::rich_text::InlineTextStyle::Emphasized) }])),
        ("a", predefined_spec(DelimitedV::NoArguments, seq!["word"], seq![], None, false, seq![Action::InsertStyled { text: Parameter::Variable(CowStr::Borrowed("word")), style: Parameter::Constant(crate::ir::rich_text::InlineTextStyle::Emphasized) }])),
        ("emoji", predefined_spec(DelimitedV::NoArguments, seq!["name"], seq![], None, false, seq![Action::InsertEmoji { name: Parameter::Variable(CowStr::Borrowed("name")) }])),
        ("htmlonly", predefined_spec(DelimitedV::KeywordModifiers(seq!["block"]), seq![], seq![], None, false, seq![Action::SetParameter { argument: Parameter::Constant(CowStr::Borrowed("format")), value: Parameter::Constant(crate::ir::Value::String(CowStr::Borrowed("html"))) }, Action::Script(CowStr::Borrowed("doxygen.verbatim-into-output.start"))])),
        ("endhtmlonly", predefined_spec(DelimitedV::NoArguments, seq![], seq![], None, false, seq![Action::SetParameter { argument: Parameter::Constant(CowStr::Borrowed("format")), value: Parameter::Constant(crate::ir::Value::String(CowStr::Borrowed("html"))) }, Action::Script(CowStr::Borrowed("doxygen.verbatim-into-output.end"))])),
        ("htmlinclude", predefined_spec(DelimitedV::KeywordModifiers(seq!["block"]), seq!["file"], seq![], None, false, seq![Action::SetParameter { argument: Parameter::Constant(CowStr::Borrowed("format")), value: Parameter::Constant(crate::ir::Value::String(CowStr::Borrowed("html"))) }, Action::Script(CowStr::Borrowed("doxygen.verbatim-into-output.start")), Action::EmbedFromFile { language: Parameter::Constant(Some(crate::ir::Language::HTML)), source: Parameter::Variable(CowStr::Borrowed("file")) }, Action::Script(CowStr::Borrowed("doxygen.verbatim-into-output.end"))])),
    ]
}


/// Appends the predefined directives from `p` to `htmlinclude`.
fn predefined_17(out: &mut Vec<(&'static str, DoxygenDirective<'static>)>)
    ensures
        table_view(final(out)@) =~~= table_view(old(out)@) + predefined_table_17(),
{
    let ghost before = out@;
    out.push(("p", DoxygenDirective::predefined(
        DoxygenDelimitedParameters::NoArguments,
        vec!["codeword"],
        vec![],
        None,
        false,
        vec![
            Action::InsertCode { language: Parameter::Constant(None), content: Parameter::Variable(CowStr::Borrowed("codeword")) },
        ],
    )));
    out.push(("c", DoxygenDirective::predefined(
        DoxygenDelimitedParameters::NoArguments,
        vec!["codeword"],
        vec![],
        None,
        false,
        vec![
            Action::InsertCode { language: Parameter::Constant(None), content: Parameter::Variable(CowStr::Borrowed("codeword")) },
        ],
    )));
    out.push(("b", DoxygenDirective::predefined(
        DoxygenDelimitedParameters::NoArguments,
        vec!["word"],
        vec![],
        None,
        false,
        vec![
            Action::InsertStyled { text: Parameter::Variable(CowStr::Borrowed("word")), style: Parameter::Constant(crate::ir::rich_text::InlineTextStyle::Bold) },
        ],
    )));
    out.push(("em", DoxygenDirective::predefined(
        DoxygenDelimitedParameters::NoArguments,
        vec!["word"],
        vec![],
        None,
        false,
        vec![
            Action::InsertStyled { text: Parameter::Variable(CowStr::Borrowed("word")), style: Parameter::Constant(crate::ir::rich_text::InlineTextStyle::Emphasized) },
        ],
    )));
    out.push(("e", DoxygenDirective::predefined(
        DoxygenDelimitedParameters::NoArguments,
        vec!["word"],
        vec![],
        None,
        false,
        vec![
            Action::InsertStyled { text: Parameter::Variable(CowStr::Borrowed("word")), style: Parameter::Constant(crate::ir::rich_text::InlineTextStyle::Emphasized) },
        ],
    )));
    out.push(("a", DoxygenDirective::predefined(
        DoxygenDelimitedParameters::NoArguments,
        vec!["word"],
        vec![],
        None,
        false,
        vec![
            Action::InsertStyled { text: Parameter::Variable(CowStr::Borrowed("word")), style: Parameter::Constant(crate::ir::rich_text::InlineTextStyle::Emphasized) },
        ],
    )));
    out.push(("emoji", DoxygenDirective::predefined(
        DoxygenDelimitedParameters::NoArguments,
        vec!["name"],
        vec![],
        None,
        false,
        vec![
            Action::InsertEmoji { name: Parameter::Variable(CowStr::Borrowed("name")) },
        ],
    )));
    out.push(("htmlonly", DoxygenDirective::predefined(
        DoxygenDelimitedParameters::KeywordModifiers(vec!["block"]),
        vec![],
        vec![],
        None,
        false,
        vec![
            Action::SetParameter { argument: Parameter::Constant(CowStr::Borrowed("format")), value: Parameter::Constant(crate::ir::Value::String(CowStr::Borrowed("html"))) },
            Action::Script(CowStr::Borrowed("doxygen.verbatim-into-output.start")),
        ],
    )));
    out.push(("endhtmlonly", DoxygenDirective::predefined(
        DoxygenDelimitedParameters::NoArguments,
        vec![],
        vec![],
        None,
        false,
        vec![
            Action::SetParameter { argument: Parameter::Constant(CowStr::Borrowed("format")), value: Parameter::Constant(crate::ir::Value::String(CowStr::Borrowed("html"))) },
            Action::Script(CowStr::Borrowed("doxygen.verbatim-into-output.end")),
        ],
    )));
    out.push(("htmlinclude", DoxygenDirective::predefined(
        DoxygenDelimitedParameters::KeywordModifiers(vec!["block"]),
        vec!["file"],
        vec![],
        None,
        false,
        vec![
            Action::SetParameter { argument: Parameter::Constant(CowStr::Borrowed("format")), value: Parameter::Constant(crate::ir::Value::String(CowStr::Borrowed("html"))) },
            Action::Script(CowStr::Borrowed("doxygen.verbatim-into-output.start")),
            Action::EmbedFromFile { language: Parameter::Constant(Some(crate::ir::Language::HTML)), source: Parameter::Variable(CowStr::Borrowed("file")) },
            Action::Script(CowStr::Borrowed("doxygen.verbatim-into-output.end")),
        ],
    )));
    assert(table_view(out@) =~~= table_view(before) + predefined_table_17());
}


/// The predefined directives from `docbookonly` to `docbookinclude`.
pub open spec fn predefined_table_18() -> Seq<(&'static str, DirectiveV)> {
    seq![
        ("docbookonly", predefined_spec(DelimitedV::NoArguments, seq![], seq![], None, false, seq![])),
        ("enddocbookonly", predefined_spec(DelimitedV::NoArguments, seq![], seq![], None, false, seq![])),
        ("latexonly", predefined_spec(DelimitedV::NoArguments, seq![], seq![], None, false, seq![])),
        ("endlatexonly", predefined_spec(DelimitedV::NoArguments, seq![], seq![], None, false, seq![Action::PopScope { name: Parameter::Constant(Some(CowStr::Borrowed("doxy.latexonly"))) }, Action::PushScope { name: Parameter::Constant(Some(CowStr::Borrowed("doxy.latexonly.xml"))) }, Action::SetScopeLanguage { language: Parameter::Constant(crate::ir::Language::XML) }, Action::AddAllowedOutputBackend { allowed: Parameter::Constant(crate::backend::Format::DoxyXML) }, Action::Embed { language: Parameter::Constant(Some(crate::ir::Language::XML)), content: Parameter::Constant(CowStr::Borrowed("</latexonly>")) }, Action::PopScope { name: Parameter::Constant(Some(CowStr::Borrowed("doxy.latexonly.xml"))) }])),
        ("manonly", predefined_spec(DelimitedV::NoArguments, seq![], seq![], None, false, seq![])),
        ("endmanonly", predefined_spec(DelimitedV::NoArguments, seq![], seq![], None, false, seq![])),
        ("latexinclude", predefined_spec(DelimitedV::NoArguments, seq!["file"], seq![], None, false, seq![Action::SetParameter { argument: Parameter::Constant(CowStr::Borrowed("format")), value: Parameter::Constant(crate::ir::Value::String(CowStr::Borrowed("latex"))) }, Action::Script(CowStr::Borrowed("doxygen.verbatim-into-output.start")), Action::EmbedFromFile { language: Parameter::Constant(Some(crate::ir::Language::HTML)), source: Parameter::Variable(CowStr::Borrowed("file")) }, Action::Script(CowStr::Borrowed("doxygen.verbatim-into-output.end"))])),
        ("rtfinclude", predefined_spec(DelimitedV::NoArguments, seq!["file"], seq![], None, false, seq![Action::SetParameter { argument: Parameter::Constant(CowStr::Borrowed("format")), value: Parameter::Constant(crate::ir::Value::String(CowStr::Borrowed("rtf"))) }, Action::Script(CowStr::Borrowed("doxygen.verbatim-into-output.start")), Action::EmbedFromFile { language: Parameter::Constant(Some(crate::ir::Language::RTF)), source: Parameter::Variable(CowStr::Borrowed("file")) }, Action::Script(CowStr::Borrowed("doxygen.verbatim-into-output.end"))])),
        ("maninclude", predefined_spec(DelimitedV::NoArguments, seq!["file"], seq![], None, false, seq![Action::SetParameter { argument: Parameter::Constant(CowStr::Borrowed("format")), value: Parameter::Constant(crate::ir::Value::String(CowStr::Borrowed("man"))) }, Action::Script(CowStr::Borrowed("doxygen.verbatim-into-output.start")), Action::EmbedFromFile { language: Parameter::Constant(Some(crate::ir::Language::ManPages)), source: Parameter::Variable(CowStr::Borrowed("file")) }, Action::Script(CowStr::Borrowed("doxygen.verbatim-into-output.end"))])),
        ("docbookinclude", predefined_spec(DelimitedV::NoArguments, seq!["file"], seq![], None, false, seq![Action::SetParameter { argument: Parameter::Constant(CowStr::Borrowed("format")), value: Parameter::Constant(crate::ir::Value::String(CowStr::Borrowed("docbook"))) }, Action::Script(CowStr::Borrowed("doxygen.verbatim-into-output.start")), Action::EmbedFromFile { language: Parameter::Constant(Some(crate::ir::Language::DocBook)), source: Parameter::Variable(CowStr::Borrowed("file")) }, Action::Script(CowStr::Borrowed("doxygen.verbatim-into-output.end"))])),
    ]
}


/// Appends the predefined directives from `docbookonly` to `docbookinclude`.
fn predefined_18(out: &mut Vec<(&'static str, DoxygenDirective<'static>)>)
    ensures
        table_view(final(out)@) =~~= table_view(old(out)@) + predefined_table_18(),
{
    let ghost before = out@;
    out.push(("docbookonly", DoxygenDirective::predefined(
        DoxygenDelimitedParameters::NoArguments,
        vec![],
        vec![],
        None,
        false,
        vec![],
    )));
    out.push(("enddocbookonly", DoxygenDirective::predefined(
        DoxygenDelimitedParameters::NoArguments,
        vec![],
        vec![],
        None,
        false,
        vec![],
    )));
    out.push(("latexonly", DoxygenDirective::predefined(
        DoxygenDelimitedParameters::NoArguments,
        vec![],
        vec![],
        None,
        false,
        vec![],
    )));
    out.push(("endlatexonly", DoxygenDirective::predefined(
        DoxygenDelimitedParameters::NoArguments,
        vec![],
        vec![],
        None,
        false,
        vec![
            Action::PopScope { name: Parameter::Constant(Some(CowStr::Borrowed("doxy.latexonly"))) },
            Action::PushScope { name: Parameter::Constant(Some(CowStr::Borrowed("doxy.latexonly.xml"))) },
            Action::SetScopeLanguage { language: Parameter::Constant(crate::ir::Language::XML) },
            Action::AddAllowedOutputBackend { allowed: Parameter::Constant(crate::backend::Format::DoxyXML) },
            Action::Embed { language: Parameter::Constant(Some(crate::ir::Language::XML)), content: Parameter::Constant(CowStr::Borrowed("</latexonly>")) },
            Action::PopScope { name: Parameter::Constant(Some(CowStr::Borrowed("doxy.latexonly.xml"))) },
        ],
    )));
    out.push(("manonly", DoxygenDirective::predefined(
        DoxygenDelimitedParameters::NoArguments,
        vec![],
        vec![],
        None,
        false,
        vec![],
    )));
    out.push(("endmanonly", DoxygenDirective::predefined(
        DoxygenDelimitedParameters::NoArguments,
        vec![],
        vec![],
        None,
        false,
        vec![],
    )));
    out.push(("latexinclude", DoxygenDirective::predefined(
        DoxygenDelimitedParameters::NoArguments,
        vec!["file"],
        vec![],
        None,
        false,
        vec![
            Action::SetParameter { argument: Parameter::Constant(CowStr::Borrowed("format")), value: Parameter::Constant(crate::ir::Value::String(CowStr::Borrowed("latex"))) },
            Action::Script(CowStr::Borrowed("doxygen.verbatim-into-output.start")),
            Action::EmbedFromFile { language: Parameter::Constant(Some(crate::ir::Language::HTML)), source: Parameter::Variable(CowStr::Borrowed("file")) },
            Action::Script(CowStr::Borrowed("doxygen.verbatim-into-output.end")),
        ],
    )));
    out.push(("rtfinclude", DoxygenDirective::predefined(
        DoxygenDelimitedParameters::NoArguments,
        vec!["file"],
        vec![],
        None,
        false,
        vec![
            Action::SetParameter { argument: Parameter::Constant(CowStr::Borrowed("format")), value: Parameter::Constant(crate::ir::Value::String(CowStr::Borrowed("rtf"))) },
            Action::Script(CowStr::Borrowed("doxygen.verbatim-into-output.start")),
            Action::EmbedFromFile { language: Parameter::Constant(Some(crate::ir::Language::RTF)), source: Parameter::Variable(CowStr::Borrowed("file")) },
            Action::Script(CowStr::Borrowed("doxygen.verbatim-into-output.end")),
        ],
    )));
    out.push(("maninclude", DoxygenDirective::predefined(
        DoxygenDelimitedParameters::NoArguments,
        vec!["file"],
        vec![],
        None,
        false,
        vec![
            Action::SetParameter { argument: Parameter::Constant(CowStr::Borrowed("format")), value: Parameter::Constant(crate::ir::Value::String(CowStr::Borrowed("man"))) },
            Action::Script(CowStr::Borrowed("doxygen.verbatim-into-output.start")),
            Action::EmbedFromFile { language: Parameter::Constant(Some(crate::ir::Language::ManPages)), source: Parameter::Variable(CowStr::Borrowed("file")) },
            Action::Script(CowStr::Borrowed("doxygen.verbatim-into-output.end")),
        ],
    )));
    out.push(("docbookinclude", DoxygenDirective::predefined(
        DoxygenDelimitedParameters::NoArguments,
        vec!["file"],
        vec![],
        None,
        false,
        vec![
            Action::SetParameter { argument: Parameter::Constant(CowStr::Borrowed("format")), value: Parameter::Constant(crate::ir::Value::String(CowStr::Borrowed("docbook"))) },
            Action::Script(CowStr::Borrowed("doxygen.verbatim-into-output.start")),
            Action::EmbedFromFile { language: Parameter::Constant(Some(crate::ir::Language::DocBook)), source: Parameter::Variable(CowStr::Borrowed("file")) },
            Action::Script(CowStr::Borrowed("doxygen.verbatim-into-output.end")),
        ],
    )));
    assert(table_view(out@) =~~= table_view(before) + predefined_table_18());
}


/// The predefined directives from `rtfonly` to `callgraph`.
pub open spec fn predefined_table_19() -> Seq<(&'static str, DirectiveV)> {
    seq![
        ("rtfonly", predefined_spec(DelimitedV::NoArguments, seq![], seq![], None, false, seq![])),
        ("endrtfonly", predefined_spec(DelimitedV::NoArguments, seq![], seq![], None, false, seq![])),
        ("xmlonly", predefined_spec(DelimitedV::NoArguments, seq![], seq![], None, false, seq![Action::PushScope { name: Parameter::Constant(Some(CowStr::Borrowed("doxy.xmlonly"))) }, Action::SetScopeLanguage { language: Parameter::Constant(crate::ir::Language::XML) }, Action::AddAllowedOutputBackend { allowed: Parameter::Constant(crate::backend::Format::DoxyXML) }])),
        ("endxmlonly", predefined_spec(DelimitedV::NoArguments, seq![], seq![], None, false, seq![Action::PopScope { name: Parameter::Constant(Some(CowStr::Borrowed("doxy.xmlonly"))) }])),
        ("xmlinclude", predefined_spec(DelimitedV::NoArguments, seq!["file"], seq![], None, false, seq![Action::PushScope { name: Parameter::Constant(Some(CowStr::Borrowed("doxy.xmlonly"))) }, Action::SetScopeLanguage { language: Parameter::Constant(crate::ir::Language::XML) }, Action::AddAllowedOutputBackend { allowed: Parameter::Constant(crate::backend::Format::DoxyXML) }, Action::EmbedFromFile { language: Parameter::Constant(Some(crate::ir::Language::XML)), source: Parameter::Variable(CowStr::Borrowed("file")) }, Action::PopScope { name: Parameter::Constant(Some(CowStr::Borrowed("doxy.xmlonly"))) }])),
        ("doxyconfig", predefined_spec(DelimitedV::NoArguments, seq!["option"], seq![], None, false, seq![Action::Builtin(DoxygenBuiltin::Doxyconfig)])),
        ("file", predefined_spec(DelimitedV::NoArguments, seq![], seq!["name"], None, false, seq![Action::Builtin(DoxygenBuiltin::File)])),
        ("fileinfo", predefined_spec(DelimitedV::Options('\0', seq![("name", false), ("extension", false), ("filename", false), ("directory", false), ("full", false)]), seq![], seq![], None, false, seq![Action::Builtin(DoxygenBuiltin::FileInfo)])),
        ("lineinfo", predefined_spec(DelimitedV::NoArguments, seq![], seq![], None, false, seq![Action::Builtin(DoxygenBuiltin::LineInfo)])),
        ("callgraph", predefined_spec(DelimitedV::NoArguments, seq![], seq![], None, false, seq![Action::Diagnose { level: Parameter::Constant(crate::ir::DiagnosticLevel::Error), message: Parameter::Constant(CowStr::Borrowed("Call graphs are not supported")) }])),
    ]
}


/// Appends the predefined directives from `rtfonly` to `callgraph`.
fn predefined_19(out: &mut Vec<(&'static str, DoxygenDirective<'static>)>)
    ensures
        table_view(final(out)@) =~~= table_view(old(out)@) + predefined_table_19(),
{
    let ghost before = out@;
    out.push(("rtfonly", DoxygenDirective::predefined(
        DoxygenDelimitedParameters::NoArguments,
        vec![],
        vec![],
        None,
        false,
        vec![],
    )));
    out.push(("endrtfonly", DoxygenDirective::predefined(
        DoxygenDelimitedParameters::NoArguments,
        vec![],
        vec![],
        None,
        false,
        vec![],
    )));
    out.push(("xmlonly", DoxygenDirective::predefined(
        DoxygenDelimitedParameters::NoArguments,
        vec![],
        vec![],
        None,
        false,
        vec![
            Action::PushScope { name: Parameter::Constant(Some(CowStr::Borrowed("doxy.xmlonly"))) },
            Action::SetScopeLanguage { language: Parameter::Constant(crate::ir::Language::XML) },
            Action::AddAllowedOutputBackend { allowed: Parameter::Constant(crate::backend::Format::DoxyXML) },
        ],
    )));
    out.push(("endxmlonly", DoxygenDirective::predefined(
        DoxygenDelimitedParameters::NoArguments,
        vec![],
        vec![],
        None,
        false,
        vec![
            Action::PopScope { name: Parameter::Constant(Some(CowStr::Borrowed("doxy.xmlonly"))) },
        ],
    )));
    out.push(("xmlinclude", DoxygenDirective::predefined(
        DoxygenDelimitedParameters::NoArguments,
        vec!["file"],
        vec![],
        None,
        false,
        vec![
            Action::PushScope { name: Parameter::Constant(Some(CowStr::Borrowed("doxy.xmlonly"))) },
            Action::SetScopeLanguage { language: Parameter::Constant(crate::ir::Language::XML) },
            Action::AddAllowedOutputBackend { allowed: Parameter::Constant(crate::backend::Format::DoxyXML) },
            Action::EmbedFromFile { language: Parameter::Constant(Some(crate::ir::Language::XML)), source: Parameter::Variable(CowStr::Borrowed("file")) },
            Action::PopScope { name: Parameter::Constant(Some(CowStr::Borrowed("doxy.xmlonly"))) },
        ],
    )));
    out.push(("doxyconfig", DoxygenDirective::predefined(
        DoxygenDelimitedParameters::NoArguments,
        vec!["option"],
        vec![],
        None,
        false,
        vec![
            Action::Builtin(DoxygenBuiltin::Doxyconfig),
        ],
    )));
    out.push(("file", DoxygenDirective::predefined(
        DoxygenDelimitedParameters::NoArguments,
        vec![],
        vec!["name"],
        None,
        false,
        vec![
            Action::Builtin(DoxygenBuiltin::File),
        ],
    )));
    out.push(("fileinfo", DoxygenDirective::predefined(
        DoxygenDelimitedParameters::Options('\0', vec![("name", false), ("extension", false), ("filename", false), ("directory", false), ("full", false)]),
        vec![],
        vec![],
        None,
        false,
        vec![
            Action::Builtin(DoxygenBuiltin::FileInfo),
        ],
    )));
    out.push(("lineinfo", DoxygenDirective::predefined(
        DoxygenDelimitedParameters::NoArguments,
        vec![],
        vec![],
        None,
        false,
        vec![
            Action::Builtin(DoxygenBuiltin::LineInfo),
        ],
    )));
    out.push(("callgraph", DoxygenDirective::predefined(
        DoxygenDelimitedParameters::NoArguments,
        vec![],
        vec![],
        None,
        false,
        vec![
            Action::Diagnose { level: Parameter::Constant(crate::ir::DiagnosticLevel::Error), message: Parameter::Constant(CowStr::Borrowed("Call graphs are not supported")) },
        ],
    )));
    assert(table_view(out@) =~~= table_view(before) + predefined_table_19());
}


/// The predefined directives from `hidecallgraph` to `collaborationgraph`.
pub open spec fn predefined_table_20() -> Seq<(&'static str, DirectiveV)> {
    seq![
        ("hidecallgraph", predefined_spec(DelimitedV::NoArguments, seq![], seq![], None, false, seq![Action::Diagnose { level: Parameter::Constant(crate::ir::DiagnosticLevel::Error), message: Parameter::Constant(CowStr::Borrowed("Call graphs are not supported")) }])),
        ("callergraph", predefined_spec(DelimitedV::NoArguments, seq![], seq![], None, false, seq![Action::Diagnose { level: Parameter::Constant(crate::ir::DiagnosticLevel::Error), message: Parameter::Constant(CowStr::Borrowed("Call graphs are not supported")) }])),
        ("hidecallergraph", predefined_spec(DelimitedV::NoArguments, seq![], seq![], None, false, seq![Action::Diagnose { level: Parameter::Constant(crate::ir::DiagnosticLevel::Error), message: Parameter::Constant(CowStr::Borrowed("Call graphs are not supported")) }])),
        ("includegraph", predefined_spec(DelimitedV::NoArguments, seq![], seq![], None, false, seq![Action::Diagnose { level: Parameter::Constant(crate::ir::DiagnosticLevel::Error), message: Parameter::Constant(CowStr::Borrowed("Include graphs are not supported")) }])),
        ("hideincludegraph", predefined_spec(DelimitedV::NoArguments, seq![], seq![], None, false, seq![Action::Diagnose { level: Parameter::Constant(crate::ir::DiagnosticLevel::Error), message: Parameter::Constant(CowStr::Borrowed("Include graphs are not supported")) }])),
        ("includedbygraph", predefined_spec(DelimitedV::NoArguments, seq![], seq![], None, false, seq![Action::Diagnose { level: Parameter::Constant(crate::ir::DiagnosticLevel::Error), message: Parameter::Constant(CowStr::Borrowed("Include graphs are not supported")) }])),
        ("hideincludedbygraph", predefined_spec(DelimitedV::NoArguments, seq![], seq![], None, false, seq![Action::Diagnose { level: Parameter::Constant(crate::ir::DiagnosticLevel::Error), message: Parameter::Constant(CowStr::Borrowed("Include graphs are not supported")) }])),
        ("directorygraph", predefined_spec(DelimitedV::NoArguments, seq![], seq![], None, false, seq![Action::Diagnose { level: Parameter::Constant(crate::ir::DiagnosticLevel::Error), message: Parameter::Constant(CowStr::Borrowed("Directory graphs are not supported")) }])),
        ("hidedirectorygraph", predefined_spec(DelimitedV::NoArguments, seq![], seq![], None, false, seq![Action::Diagnose { level: Parameter::Constant(crate::ir::DiagnosticLevel::Error), message: Parameter::Constant(CowStr::Borrowed("Directory graphs are not supported")) }])),
        ("collaborationgraph", predefined_spec(DelimitedV::NoArguments, seq![], seq![], None, false, seq![Action::Diagnose { level: Parameter::Constant(crate::ir::DiagnosticLevel::Error), message: Parameter::Constant(CowStr::Borrowed("Callaboration graphs are not implemented yet")) }])),
    ]
}


/// Appends the predefined directives from `hidecallgraph` to `collaborationgraph`.
fn predefined_20(out: &mut Vec<(&'static str, DoxygenDirective<'static>)>)
    ensures
        table_view(final(out)@) =~~= table_view(old(out)@) + predefined_table_20(),
{
    let ghost before = out@;
    out.push(("hidecallgraph", DoxygenDirective::predefined(
        DoxygenDelimitedParameters::NoArguments,
        vec![],
        vec![],
        None,
        false,
        vec![
            Action::Diagnose { level: Parameter::Constant(crate::ir::DiagnosticLevel::Error), message: Parameter::Constant(CowStr::Borrowed("Call graphs are not supported")) },
        ],
    )));
    out.push(("callergraph", DoxygenDirective::predefined(
        DoxygenDelimitedParameters::NoArguments,
        vec![],
        vec![],
        None,
        false,
        vec![
            Action::Diagnose { level: Parameter::Constant(crate::ir::DiagnosticLevel::Error), message: Parameter::Constant(CowStr::Borrowed("Call graphs are not supported")) },
        ],
    )));
    out.push(("hidecallergraph", DoxygenDirective::predefined(
        DoxygenDelimitedParameters::NoArguments,
        vec![],
        vec![],
        None,
        false,
        vec![
            Action::Diagnose { level: Parameter::Constant(crate::ir::DiagnosticLevel::Error), message: Parameter::Constant(CowStr::Borrowed("Call graphs are not supported")) },
        ],
    )));
    out.push(("includegraph", DoxygenDirective::predefined(
        DoxygenDelimitedParameters::NoArguments,
        vec![],
        vec![],
        None,
        false,
        vec![
            Action::Diagnose { level: Parameter::Constant(crate::ir::DiagnosticLevel::Error), message: Parameter::Constant(CowStr::Borrowed("Include graphs are not supported")) },
        ],
    )));
    out.push(("hideincludegraph", DoxygenDirective::predefined(
        DoxygenDelimitedParameters::NoArguments,
        vec![],
        vec![],
        None,
        false,
        vec![
            Action::Diagnose { level: Parameter::Constant(crate::ir::DiagnosticLevel::Error), message: Parameter::Constant(CowStr::Borrowed("Include graphs are not supported")) },
        ],
    )));
    out.push(("includedbygraph", DoxygenDirective::predefined(
        DoxygenDelimitedParameters::NoArguments,
        vec![],
        vec![],
        None,
        false,
        vec![
            Action::Diagnose { level: Parameter::Constant(crate::ir::DiagnosticLevel::Error), message: Parameter::Constant(CowStr::Borrowed("Include graphs are not supported")) },
        ],
    )));
    out.push(("hideincludedbygraph", DoxygenDirective::predefined(
        DoxygenDelimitedParameters::NoArguments,
        vec![],
        vec![],
        None,
        false,
        vec![
            Action::Diagnose { level: Parameter::Constant(crate::ir::DiagnosticLevel::Error), message: Parameter::Constant(CowStr::Borrowed("Include graphs are not supported")) },
        ],
    )));
    out.push(("directorygraph", DoxygenDirective::predefined(
        DoxygenDelimitedParameters::NoArguments,
        vec![],
        vec![],
        None,
        false,
        vec![
            Action::Diagnose { level: Parameter::Constant(crate::ir::DiagnosticLevel::Error), message: Parameter::Constant(CowStr::Borrowed("Directory graphs are not supported")) },
        ],
    )));
    out.push(("hidedirectorygraph", DoxygenDirective::predefined(
        DoxygenDelimitedParameters::NoArguments,
        vec![],
        vec![],
        None,
        false,
        vec![
            Action::Diagnose { level: Parameter::Constant(crate::ir::DiagnosticLevel::Error), message: Parameter::Constant(CowStr::Borrowed("Directory graphs are not supported")) },
        ],
    )));
    out.push(("collaborationgraph", DoxygenDirective::predefined(
        DoxygenDelimitedParameters::NoArguments,
        vec![],
        vec![],
        None,
        false,
        vec![
            Action::Diagnose { level: Parameter::Constant(crate::ir::DiagnosticLevel::Error), message: Parameter::Constant(CowStr::Borrowed("Callaboration graphs are not implemented yet")) },
        ],
    )));
    assert(table_view(out@) =~~= table_view(before) + predefined_table_20());
}


/// The predefined directives from `hidecollaborationgraph` to `hidegroupgraph`.
pub open spec fn predefined_table_21() -> Seq<(&'static str, DirectiveV)> {
    seq![
        ("hidecollaborationgraph", predefined_spec(DelimitedV::NoArguments, seq![], seq![], None, false, seq![Action::Diagnose { level: Parameter::Constant(crate::ir::DiagnosticLevel::Error), message: Parameter::Constant(CowStr::Borrowed("Callaboration graphs are not implemented yet")) }])),
        ("inheritancegraph", predefined_spec(DelimitedV::Options('\0', seq![("YES", false), ("NO", false)]), seq![], seq![], None, false, seq![Action::Diagnose { level: Parameter::Constant(crate::ir::DiagnosticLevel::Error), message: Parameter::Constant(CowStr::Borrowed("Inheritance graphs are not implemented yet")) }])),
        ("hideinheritancegraph", predefined_spec(DelimitedV::NoArguments, seq![], seq![], None, false, seq![Action::Diagnose { level: Parameter::Constant(crate::ir::DiagnosticLevel::Error), message: Parameter::Constant(CowStr::Borrowed("Inheritance graphs are not implemented yet")) }])),
        ("groupgraph", predefined_spec(DelimitedV::NoArguments, seq![], seq![], None, false, seq![Action::Diagnose { level: Parameter::Constant(crate::ir::DiagnosticLevel::Error), message: Parameter::Constant(CowStr::Borrowed("Group graphs are not implemented yet")) }])),
        ("hidegroupgraph", predefined_spec(DelimitedV::NoArguments, seq![], seq![], None, false, seq![Action::Diagnose { level: Parameter::Constant(crate::ir::DiagnosticLevel::Error), message: Parameter::Constant(CowStr::Borrowed("Group graphs are not implemented yet")) }])),
    ]
}


/// Appends the predefined directives from `hidecollaborationgraph` to `hidegroupgraph`.
fn predefined_21(out: &mut Vec<(&'static str, DoxygenDirective<'static>)>)
    ensures
        table_view(final(out)@) =~~= table_view(old(out)@) + predefined_table_21(),
{
    let ghost before = out@;
    out.push(("hidecollaborationgraph", DoxygenDirective::predefined(
        DoxygenDelimitedParameters::NoArguments,
        vec![],
        vec![],
        None,
        false,
        vec![
            Action::Diagnose { level: Parameter::Constant(crate::ir::DiagnosticLevel::Error), message: Parameter::Constant(CowStr::Borrowed("Callaboration graphs are not implemented yet")) },
        ],
    )));
    out.push(("inheritancegraph", DoxygenDirective::predefined(
        DoxygenDelimitedParameters::Options('\0', vec![("YES", false), ("NO", false)]),
        vec![],
        vec![],
        None,
        false,
        vec![
            Action::Diagnose { level: Parameter::Constant(crate::ir::DiagnosticLevel::Error), message: Parameter::Constant(CowStr::Borrowed("Inheritance graphs are not implemented yet")) },
        ],
    )));
    out.push(("hideinheritancegraph", DoxygenDirective::predefined(
        DoxygenDelimitedParameters::NoArguments,
        vec![],
        vec![],
        None,
        false,
        vec![
            Action::Diagnose { level: Parameter::Constant(crate::ir::DiagnosticLevel::Error), message: Parameter::Constant(CowStr::Borrowed("Inheritance graphs are not implemented yet")) },
        ],
    )));
    out.push(("groupgraph", DoxygenDirective::predefined(
        DoxygenDelimitedParameters::NoArguments,
        vec![],
        vec![],
        None,
        false,
        vec![
            Action::Diagnose { level: Parameter::Constant(crate::ir::DiagnosticLevel::Error), message: Parameter::Constant(CowStr::Borrowed("Group graphs are not implemented yet")) },
        ],
    )));
    out.push(("hidegroupgraph", DoxygenDirective::predefined(
        DoxygenDelimitedParameters::NoArguments,
        vec![],
        vec![],
        None,
        false,
        vec![
            Action::Diagnose { level: Parameter::Constant(crate::ir::DiagnosticLevel::Error), message: Parameter::Constant(CowStr::Borrowed("Group graphs are not implemented yet")) },
        ],
    )));
    assert(table_view(out@) =~~= table_view(before) + predefined_table_21());
}


/// The table of predefined directives, in order.
pub open spec fn spec_predefined_table() -> Seq<(&'static str, DirectiveV)> {
    predefined_table_1()
        + predefined_table_2()
        + predefined_table_3()
        + predefined_table_4()
        + predefined_table_5()
        + predefined_table_6()
        + predefined_table_7()
        + predefined_table_8()
        + predefined_table_9()
        + predefined_table_10()
        + predefined_table_11()
        + predefined_table_12()
        + predefined_table_13()
        + predefined_table_14()
        + predefined_table_15()
        + predefined_table_16()
        + predefined_table_17()
        + predefined_table_18()
        + predefined_table_19()
        + predefined_table_20()
        + predefined_table_21()
}

/// The table of predefined Doxygen directives: for each name, its delimited, whitespace-separated
/// and attached parameters, its syntax and the script it runs, as `spec_predefined_table` lists
/// them.
pub fn _predefined() -> (r: Vec<(&'static str, DoxygenDirective<'static>)>)
    ensures
        table_view(r@) =~~= spec_predefined_table(),
{
    let mut r: Vec<(&'static str, DoxygenDirective<'static>)> = Vec::new();
    assert(table_view(r@) =~~= Seq::<(&'static str, DirectiveV)>::empty());
    predefined_1(&mut r);
    predefined_2(&mut r);
    predefined_3(&mut r);
    predefined_4(&mut r);
    predefined_5(&mut r);
    predefined_6(&mut r);
    predefined_7(&mut r);
    predefined_8(&mut r);
    predefined_9(&mut r);
    predefined_10(&mut r);
    predefined_11(&mut r);
    predefined_12(&mut r);
    predefined_13(&mut r);
    predefined_14(&mut r);
    predefined_15(&mut r);
    predefined_16(&mut r);
    predefined_17(&mut r);
    predefined_18(&mut r);
    predefined_19(&mut r);
    predefined_20(&mut r);
    predefined_21(&mut r);
    r
}

/// The template written in a literal, with `$` as the sign of a slot.
fn template_of(s: &'static str) -> (r: Template<'static>)
    ensures
        template_view(r) == components_from(s@, '$', 0, 0),
        r.capacity == analyze_from(s@, '$', 0, 0).1,
{
    let bytes = s.as_bytes();
    assert(bytes@.len() == encode_utf8(s@).len());
    let _ = bytes.len();
    let a = Template::_analyze(s, Template::sign());
    let parts = Template::_parse_template(s, Template::sign());
    Template::_from_components(parts, a.1)
}

/// The names of the scripts that predefined directives call.
pub open spec fn spec_script_names() -> Seq<Seq<char>> {
    seq!["doxygen.verbatim-into-output.start"@, "doxygen.verbatim-into-output.end"@]
}

/// The scripts that predefined directives call by name: the start and the end of verbatim output
/// in a given format.
pub fn _scripts() -> (r: Vec<(&'static str, Script<'static, DoxygenDirective<'static>>)>)
    ensures
        r@.map_values(|e: (&'static str, Script<'static, DoxygenDirective<'static>>)| e.0@) == spec_script_names(),
        r@[0].1@.len() == 9,
        r@[1].1@.len() == 6,
{
    let start: Script<'static, DoxygenDirective<'static>> = vec![
        Action::PushScope { name: Parameter::Template(template_of("doxy.formatonly.$format")) },
        Action::PushScope { name: Parameter::Constant(Some(CowStr::Borrowed("doxy.formatonly.xml"))) },
        Action::SetScopeLanguage { language: Parameter::Constant(crate::ir::Language::XML) },
        Action::AddAllowedOutputBackend { allowed: Parameter::Constant(crate::backend::Format::DoxyXML) },
        Action::Embed { language: Parameter::Constant(Some(crate::ir::Language::XML)), content: Parameter::Template(template_of("<${format}only>")) },
        Action::PopScope { name: Parameter::Constant(Some(CowStr::Borrowed("doxy.formatonly.xml"))) },
        Action::SetScopeLanguage { language: Parameter::Variable(CowStr::Borrowed("format")) },
        Action::AddAllowedOutputBackend { allowed: Parameter::Variable(CowStr::Borrowed("format")) },
        Action::AddAllowedOutputBackend { allowed: Parameter::Constant(crate::backend::Format::DoxyXML) },
    ];
    let end: Script<'static, DoxygenDirective<'static>> = vec![
        Action::PopScope { name: Parameter::Template(template_of("doxy.${format}only")) },
        Action::PushScope { name: Parameter::Constant(Some(CowStr::Borrowed("doxy.formatonly.xml"))) },
        Action::SetScopeLanguage { language: Parameter::Constant(crate::ir::Language::XML) },
        Action::AddAllowedOutputBackend { allowed: Parameter::Constant(crate::backend::Format::DoxyXML) },
        Action::Embed { language: Parameter::Constant(Some(crate::ir::Language::XML)), content: Parameter::Template(template_of("</${format}only>")) },
        Action::PopScope { name: Parameter::Constant(Some(CowStr::Borrowed("doxy.formatonly.xml"))) },
    ];
    let r = vec![("doxygen.verbatim-into-output.start", start), ("doxygen.verbatim-into-output.end", end)];
    assert(r@.map_values(|e: (&'static str, Script<'static, DoxygenDirective<'static>>)| e.0@) =~= spec_script_names());
    r
}

} // verus!
