use argon::compiler::strings::CowStr;
use argon::frontend::actions::{execute_action, Action, ActionError};
use argon::frontend::arguments::{ArgumentValueError, Arguments, Parameter};
use argon::frontend::doxygen::directive::DoxygenBuiltin;
use argon::ir::rich_text::{RichText, RichTextRepresentation};
use argon::ir::entry_graph::{
    CharacteristicSection, Relationship, Attribute, AttributeAppearance, AttributeID, AttributeLookupError, Attributes, EntryGraph,
    EntryLookupError, Role, RoleID, RoleLookupError, Roles, Value, ValueType,
};

fn constant(s: &'static str) -> Parameter<CowStr<'static>> {
    Parameter::Constant(CowStr::Borrowed(s))
}

fn graph() -> EntryGraph {
    let roles = Roles::from(vec![
        ("group".to_string(), Role { label: "Group".to_string(), inlining_behavior: None }),
        ("function".to_string(), Role { label: "Function".to_string(), inlining_behavior: None }),
    ]);
    let attribute = |repeatable: bool| Attribute {
        label: "Label".to_string(),
        repeatable,
        value_type: ValueType::String,
        appearance: AttributeAppearance::Annotation,
        description: None,
    };
    let attributes = Attributes::from(vec![
        ("since".to_string(), attribute(false)),
        ("see".to_string(), attribute(true)),
    ]);
    let mut g = EntryGraph::new(roles, attributes);
    g.add_entry("group", "Group".to_string());
    g.add_entry("fn", "Function".to_string());
    g
}

fn string_values(g: &EntryGraph, entry: usize, id: AttributeID) -> Vec<String> {
    g.entries[entry].1.attributes.get_attributes(id).iter().map(|v| match v {
        Value::String(s) => s.as_str().to_string(),
        _ => panic!("not a string"),
    }).collect()
}

#[test]
fn set_role_assigns_the_registered_role() {
    let mut g = graph();
    let args = Arguments::default();
    let action: Action<'static, DoxygenBuiltin> = Action::SetRole { role: constant("function") };
    assert!(execute_action(&mut g, Some(1), &action, &args).is_ok());
    assert_eq!(Some(g.entries[1].1.role), g.roles.id_for_key("function"));
    assert_eq!(g.entries[0].1.role, RoleID(0, 0, 0));
}

#[test]
fn set_role_refuses_an_unknown_key_and_a_missing_argument() {
    let mut g = graph();
    let args = Arguments::default();
    let unknown: Action<'static, DoxygenBuiltin> = Action::SetRole { role: constant("nope") };
    let r = execute_action(&mut g, Some(1), &unknown, &args);
    assert!(matches!(r, Err(ActionError::RoleLookupFailure(RoleLookupError::UnknownRoleKey(k))) if k == "nope"));
    let missing: Action<'static, DoxygenBuiltin> = Action::SetRole { role: Parameter::Variable(CowStr::Borrowed("role")) };
    let r = execute_action(&mut g, Some(1), &missing, &args);
    assert!(matches!(r, Err(ActionError::ArgumentValueFailure(ArgumentValueError::Missing(n))) if n == "role"));
    let known: Action<'static, DoxygenBuiltin> = Action::SetRole { role: constant("group") };
    assert!(matches!(execute_action(&mut g, None, &known, &args), Err(ActionError::NoCurrentEntry(_))));
}

#[test]
fn attributes_are_set_or_added_by_repeatability() {
    let mut g = graph();
    let args = Arguments::default();
    let since = g.attributes.id_for_key("since").unwrap();
    let see = g.attributes.id_for_key("see").unwrap();
    for v in ["1.0", "2.0"] {
        let a: Action<'static, DoxygenBuiltin> = Action::AddAttribute {
            key: constant("since"),
            value: Parameter::Constant(Value::String(CowStr::Borrowed(v))),
        };
        assert!(execute_action(&mut g, Some(1), &a, &args).is_ok());
        let b: Action<'static, DoxygenBuiltin> = Action::AddAttribute {
            key: constant("see"),
            value: Parameter::Constant(Value::String(CowStr::Borrowed(v))),
        };
        assert!(execute_action(&mut g, Some(1), &b, &args).is_ok());
    }
    assert_eq!(string_values(&g, 1, since), vec!["2.0".to_string()]);
    assert_eq!(string_values(&g, 1, see), vec!["1.0".to_string(), "2.0".to_string()]);
    assert_eq!(g.entries[0].1.attributes.0.len(), 0);
    let unknown: Action<'static, DoxygenBuiltin> = Action::AddAttribute {
        key: constant("author"),
        value: Parameter::Constant(Value::Void),
    };
    let r = execute_action(&mut g, Some(1), &unknown, &args);
    assert!(matches!(r, Err(ActionError::AttributeLookupFailure(AttributeLookupError::UnknownAttributeKey(k))) if k == "author"));
}

#[test]
fn the_first_membership_makes_the_owner() {
    let mut g = graph();
    g.add_entry("other", "Other".to_string());
    let args = Arguments::default();
    let join = |id: &'static str| -> Action<'static, DoxygenBuiltin> { Action::AddMembership { entry_id: constant(id) } };
    assert!(execute_action(&mut g, Some(1), &join("group"), &args).is_ok());
    assert!(execute_action(&mut g, Some(1), &join("other"), &args).is_ok());
    let edges: Vec<(usize, usize, String)> = g.relationships.raw_edges().iter()
        .map(|e| (e.source().index(), e.target().index(), e.weight.0.to_string()))
        .collect();
    assert_eq!(edges, vec![
        (1, 0, "owns".to_string()),
        (0, 1, "member".to_string()),
        (2, 1, "member".to_string()),
    ]);
    let r = execute_action(&mut g, Some(1), &join("nowhere"), &args);
    assert!(matches!(r, Err(ActionError::EntryLookupFailure(EntryLookupError::UnknownEntryID(k))) if k == "nowhere"));
    assert_eq!(g.relationships.edge_count(), 3);
}

#[test]
fn the_current_entry_becomes_the_root() {
    let mut g = graph();
    let args = Arguments::default();
    let a: Action<'static, DoxygenBuiltin> = Action::SetRootEntry;
    assert!(matches!(execute_action(&mut g, None, &a, &args), Err(ActionError::NoCurrentEntry(_))));
    assert_eq!(g.root, "root.default");
    assert!(execute_action(&mut g, Some(1), &a, &args).is_ok());
    assert_eq!(g.root, "fn");
}

#[test]
fn other_actions_are_unsupported_here() {
    let mut g = graph();
    let args = Arguments::default();
    let a: Action<'static, DoxygenBuiltin> = Action::Builtin(DoxygenBuiltin::File);
    assert!(matches!(execute_action(&mut g, Some(1), &a, &args), Err(ActionError::UnsupportedAction("builtin"))));
    let b: Action<'static, DoxygenBuiltin> = Action::EndCodeBlock {};
    assert!(matches!(execute_action(&mut g, Some(1), &b, &args), Err(ActionError::UnsupportedAction("block.code.end"))));
}

#[test]
fn create_entry_adds_an_entry_with_its_content() {
    let mut g = graph();
    let args = Arguments::default();
    let a: Action<'static, DoxygenBuiltin> = Action::CreateEntry {
        id: constant("page"),
        title: constant("A page"),
        content: Parameter::Constant(Some(RichText::from_str("Hello", RichTextRepresentation::CommonMark))),
    };
    assert!(execute_action(&mut g, None, &a, &args).is_ok());
    assert_eq!(g.entries.len(), 3);
    assert_eq!(g.entries[2].0, "page");
    assert_eq!(g.entries[2].1.title, "A page");
    assert_eq!(g.entries[2].1.description.as_ref().unwrap().to_string(), "Hello");
    assert_eq!(g.relationships.node_count(), 3);
    let missing: Action<'static, DoxygenBuiltin> = Action::CreateEntry {
        id: Parameter::Variable(CowStr::Borrowed("id")),
        title: constant("T"),
        content: Parameter::Constant(None),
    };
    let r = execute_action(&mut g, None, &missing, &args);
    assert!(matches!(r, Err(ActionError::ArgumentValueFailure(ArgumentValueError::Missing(n))) if n == "id"));
    assert_eq!(g.entries.len(), 3);
}

#[test]
fn member_sections_and_abstracts_go_to_the_current_entry() {
    let mut g = graph();
    let args = Arguments::default();
    let section: Action<'static, DoxygenBuiltin> = Action::CreateMemberSection {
        title: constant("Functions"),
        content: Parameter::Constant(None),
    };
    assert!(execute_action(&mut g, Some(0), &section, &args).is_ok());
    assert_eq!(g.entries[0].1.member_sections.len(), 1);
    assert_eq!(g.entries[0].1.member_sections[0].title, "Functions");
    let abstract_: Action<'static, DoxygenBuiltin> = Action::SetAbstract {
        content: Parameter::Constant(RichText::from_str("Short", RichTextRepresentation::CommonMark)),
    };
    assert!(execute_action(&mut g, Some(1), &abstract_, &args).is_ok());
    assert_eq!(g.entries[1].1.abstract_.as_ref().unwrap().to_string(), "Short");
    assert!(g.entries[0].1.abstract_.is_none());
    assert!(matches!(execute_action(&mut g, None, &abstract_, &args), Err(ActionError::NoCurrentEntry(_))));
}

#[test]
fn relationships_are_added_by_kind() {
    let mut g = graph();
    let args = Arguments::default();
    let a: Action<'static, DoxygenBuiltin> = Action::AddRelationship {
        kind: Parameter::Constant(Relationship::from_str("see-also")),
        entry_id: constant("group"),
    };
    assert!(execute_action(&mut g, Some(1), &a, &args).is_ok());
    let edges: Vec<(usize, usize, String)> = g.relationships.raw_edges().iter()
        .map(|e| (e.source().index(), e.target().index(), e.weight.0.to_string()))
        .collect();
    assert_eq!(edges, vec![(1, 0, "see-also".to_string())]);
    let missing: Action<'static, DoxygenBuiltin> = Action::AddRelationship {
        kind: Parameter::Variable(CowStr::Borrowed("kind")),
        entry_id: constant("group"),
    };
    let r = execute_action(&mut g, Some(1), &missing, &args);
    assert!(matches!(r, Err(ActionError::ArgumentValueFailure(ArgumentValueError::Missing(n))) if n == "kind"));
}

#[test]
fn section_items_resolve_their_kind() {
    let mut g = graph();
    let args = Arguments::default();
    let a: Action<'static, DoxygenBuiltin> = Action::AddSectionItem {
        kind: Parameter::Constant(CharacteristicSection::from_str("params")),
        value: Parameter::Constant(RichText::from_str("x", RichTextRepresentation::CommonMark)),
        description: Parameter::Constant(RichText::from_str("the x", RichTextRepresentation::CommonMark)),
    };
    assert!(execute_action(&mut g, Some(1), &a, &args).is_ok());
    let b: Action<'static, DoxygenBuiltin> = Action::AddSectionItem {
        kind: Parameter::Variable(CowStr::Borrowed("kind")),
        value: Parameter::Constant(RichText::from_str("x", RichTextRepresentation::CommonMark)),
        description: Parameter::Constant(RichText::from_str("the x", RichTextRepresentation::CommonMark)),
    };
    assert!(matches!(execute_action(&mut g, Some(1), &b, &args), Err(ActionError::ArgumentValueFailure(_))));
}
