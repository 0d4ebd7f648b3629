use argon::ir::entry_graph::{
    language_artifact_from_extension, ArtifactLikeness, Attribute, AttributeAppearance, AttributeID,
    AttributeValues, Attributes, Entry, EntryGraph, InliningBehavior, Relationship, Role, RoleID,
    Roles, SymbolLikeness, Value, ValueType,
};
use argon::ir::rich_text::{
    AdmonitionKind, CommonMark, LinkExtractionError, MarkupEvent, MarkupTag, MarkupTagEnd, RichText,
    RichTextRepresentation,
};
use argon::ir::{DiagnosticLevel, Language};
use argon::compiler::strings::CowStr;

fn role(label: &str) -> Role {
    Role { label: label.to_string(), inlining_behavior: None }
}

fn attribute(label: &str) -> Attribute {
    Attribute {
        label: label.to_string(),
        repeatable: false,
        value_type: ValueType::String,
        appearance: AttributeAppearance::Annotation,
        description: None,
    }
}

#[test]
fn languages_parse_from_their_names() {
    assert_eq!(Language::from_str("c"), Some(Language::C));
    assert_eq!(Language::from_str("cpp"), Some(Language::CPlusPlus));
    assert_eq!(Language::from_str("rs"), Some(Language::Rust));
    assert_eq!(Language::from_str("COBOL"), None);
    assert_eq!(Language::C.code(), 1);
    assert_eq!(Language::Markdown.code(), 14);
    assert_eq!(DiagnosticLevel::from_str("warning"), Some(DiagnosticLevel::Warning));
    assert_eq!(DiagnosticLevel::from_str("fatal"), None);
}

#[test]
fn role_ids_from_extensions() {
    assert_eq!(language_artifact_from_extension("h").map(|(l, _)| l), Some(Language::C));
    assert!(matches!(language_artifact_from_extension("json"), Some((Language::JSON, ArtifactLikeness::HumanReadableData))));
    assert_eq!(language_artifact_from_extension("txt").is_none(), true);
    assert_eq!(RoleID::from_extension("c"), RoleID(1, 1, 2));
    assert_eq!(RoleID::from_extension("hpp"), RoleID(2, 2, 2));
    assert_eq!(RoleID::from_extension("txt"), RoleID(0, 0, 2));
    assert_eq!(RoleID::symbol(Language::C, SymbolLikeness::Function), RoleID(1, 1, 1));
    assert_eq!(RoleID::group(), RoleID(0, 0, 0));
}

#[test]
fn roles_take_the_last_pair_of_a_key() {
    let roles = Roles::from(vec![
        ("func".to_string(), role("Function")),
        ("type".to_string(), Role { label: "Type".to_string(), inlining_behavior: Some(InliningBehavior { ordered: true }) }),
        ("func".to_string(), role("Function again")),
    ]);
    assert_eq!(roles.id_for_key("func"), Some(RoleID(0, 0, 4)));
    assert_eq!(roles.get_by_key("func").unwrap().label, "Function again");
    assert_eq!(roles.get_by_id(RoleID(0, 0, 2)).unwrap().label, "Function");
    assert_eq!(roles.key_for_id(RoleID(0, 0, 3)), Some("type"));
    assert_eq!(roles.key_for_id(RoleID(0, 0, 9)), None);
    assert!(roles.get_by_key("type").unwrap().inline());
    assert!(roles.get_by_key("none").is_none());
}

#[test]
fn attributes_are_numbered_in_order() {
    let attributes = Attributes::from(vec![
        ("since".to_string(), attribute("Since")),
        ("author".to_string(), attribute("Author")),
    ]);
    assert_eq!(attributes.id_for_key("author"), Some(AttributeID(1)));
    assert_eq!(attributes.get_by_key("since").unwrap().label, "Since");
    assert_eq!(attributes.get_by_id(AttributeID(1)).unwrap().label, "Author");
    assert_eq!(attributes.key_for_id(AttributeID(0)), Some("since"));
    assert!(attributes.get_by_id(AttributeID(2)).is_none());
}

fn text(v: &Value) -> String {
    match v {
        Value::String(s) => s.as_str().to_string(),
        _ => panic!("not a string"),
    }
}

#[test]
fn set_attribute_replaces_the_first_value_and_add_appends() {
    let mut values = AttributeValues::default();
    let a = AttributeID(0);
    let b = AttributeID(1);
    values.add_attribute(a, Value::String(CowStr::Borrowed("one")));
    values.add_attribute(b, Value::String(CowStr::Borrowed("other")));
    values.add_attribute(a, Value::String(CowStr::Borrowed("two")));
    values.set_attribute(a, Value::String(CowStr::Borrowed("three")));
    assert_eq!(text(&values.get_attribute(a).unwrap()), "three");
    let all: Vec<String> = values.get_attributes(a).iter().map(text).collect();
    assert_eq!(all, vec!["three".to_string(), "two".to_string()]);
    assert_eq!(text(&values.get_attribute(b).unwrap()), "other");
    values.set_attribute(AttributeID(5), Value::Boolean(true));
    assert!(matches!(values.get_attribute(AttributeID(5)), Some(Value::Boolean(true))));
    assert!(values.get_attribute(AttributeID(7)).is_none());
}

fn graph() -> EntryGraph {
    EntryGraph::new(Roles::default(), Attributes::default())
}

#[test]
fn entries_are_added_found_and_replaced() {
    let mut g = graph();
    g.add_entry("a", "A".to_string()).assign_role(RoleID(0, 0, 2));
    g.add_entry("b", "B".to_string());
    assert_eq!(g.get_entry("a").unwrap().title, "A");
    assert_eq!(g.get_entry("a").unwrap().role, RoleID(0, 0, 2));
    assert_eq!(g.get_entry("a").unwrap().graph_id, Some(0));
    assert!(g.get_entry("c").is_none());
    g.add_entry("a", "A2".to_string());
    assert_eq!(g.get_entry("a").unwrap().title, "A2");
    assert_eq!(g.get_entry("a").unwrap().graph_id, Some(2));
    assert_eq!(g.get_entry("a").unwrap().role, RoleID(0, 0, 0));
    g.get_entry_mut("b").unwrap().title = "B2".to_string();
    assert_eq!(g.get_entry("b").unwrap().title, "B2");
    assert_eq!(g.relationships.node_count(), 3);
    g.set_root("b".to_string());
    assert_eq!(g.root, "b");
}

fn linked(title: &str, node: usize) -> Entry {
    let mut e = Entry::named(title.to_string());
    e.graph_id = Some(node);
    e
}

#[test]
fn first_membership_makes_ownership() {
    let mut g = graph();
    g.add_entry("group", "Group".to_string());
    g.add_entry("other", "Other".to_string());
    g.add_entry("member", "Member".to_string());
    let group = linked("Group", 0);
    let other = linked("Other", 1);
    let member = linked("Member", 2);
    g.add_membership(&member, &group);
    g.add_membership(&member, &other);
    let edges: Vec<(usize, usize, String)> = g.relationships.raw_edges().iter()
        .map(|e| (e.source().index(), e.target().index(), e.weight.0.to_string()))
        .collect();
    assert_eq!(edges, vec![
        (2, 0, "owns".to_string()),
        (0, 2, "member".to_string()),
        (1, 2, "member".to_string()),
    ]);
    g.add_relationship(&group, &other, Relationship::related());
    assert_eq!(g.relationships.edge_count(), 4);
}

#[test]
fn entry_changes_keep_the_rest() {
    let mut e = Entry::named("T".to_string());
    e.add_member_section("Functions".to_string(), None);
    assert_eq!(e.member_sections.len(), 1);
    assert_eq!(e.member_sections[0].title, "Functions");
    e.set_abstract(RichText::from_str("short", RichTextRepresentation::CommonMark));
    assert_eq!(e.abstract_.as_ref().unwrap().to_string(), "short");
    assert!(e.can_add_member(RoleID(1, 1, 1)));
    assert_eq!(Relationship::owner().0.as_str(), "owns");
    assert_eq!(Relationship::from_str("x"), Relationship(CowStr::Owned("x".to_string())));
}

fn link(url: &str, title: &str) -> MarkupEvent {
    MarkupEvent::Start(MarkupTag::Link { dest_url: url.to_string(), title: title.to_string(), id: String::new() })
}

#[test]
fn a_link_is_taken_out_of_markup() {
    let md = CommonMark::new(vec![
        MarkupEvent::Text("see ".to_string()),
        link("https://example.com/a", "Example"),
        MarkupEvent::Text("here".to_string()),
        MarkupEvent::End(MarkupTagEnd::Link),
    ]);
    let (url, title) = md.link().unwrap();
    assert_eq!(url.as_str(), "https://example.com/a");
    assert_eq!(title.as_str(), "Example");
    assert_eq!(md.to_string(), "see here");
    assert!(matches!(CommonMark::new(vec![]).link(), Err(LinkExtractionError::MissingLink)));
    let two = CommonMark::new(vec![link("https://a.org", ""), link("https://b.org", "")]);
    assert!(matches!(two.link(), Err(LinkExtractionError::TooManyLinks)));
    let bad = CommonMark::new(vec![link("not a url", "")]);
    assert!(matches!(bad.link(), Err(LinkExtractionError::MalformedURI(_))));
}

#[test]
fn rich_text_becomes_an_admonition() {
    let t = RichText::from_str("careful", RichTextRepresentation::CommonMark)
        .into_admonition(AdmonitionKind::Warning);
    assert_eq!(t.to_string(), "careful");
    assert!(RichText::empty(RichTextRepresentation::CommonMark).to_string().is_empty());
}

fn shout(s: &str) -> Result<CowStr<'static>, String> {
    if s == "stop" {
        Err(format!("cannot map '{s}'"))
    } else {
        Ok(CowStr::Owned(s.to_uppercase()))
    }
}

#[test]
fn texts_of_markup_are_mapped_in_order() {
    let md = CommonMark::new(vec![
        MarkupEvent::Start(MarkupTag::Link {
            dest_url: "https://a".to_string(),
            title: "t".to_string(),
            id: String::new(),
        }),
        MarkupEvent::Text("here".to_string()),
        MarkupEvent::End(MarkupTagEnd::Link),
        MarkupEvent::SoftBreak,
        MarkupEvent::Code("x".to_string()),
    ]);
    let mapped = md.try_map_text(shout).expect("mapped");
    assert_eq!(mapped.0.len(), 5);
    assert!(matches!(&mapped.0[0], MarkupEvent::Start(MarkupTag::Link { dest_url, title, .. })
        if dest_url == "HTTPS://A" && title == "T"));
    assert!(matches!(&mapped.0[1], MarkupEvent::Text(t) if t == "HERE"));
    assert!(matches!(&mapped.0[2], MarkupEvent::End(MarkupTagEnd::Link)));
    assert!(matches!(&mapped.0[3], MarkupEvent::SoftBreak));
    assert!(matches!(&mapped.0[4], MarkupEvent::Code(t) if t == "X"));

    let rich = RichText::common_mark(CommonMark::new(vec![
        MarkupEvent::Text("go".to_string()),
        MarkupEvent::Text("stop".to_string()),
    ]));
    assert!(matches!(rich.try_map_text(shout), Err(e) if e == "cannot map 'stop'"));
    let ok = RichText::common_mark(CommonMark::new(vec![MarkupEvent::Text("go".to_string())]));
    assert_eq!(ok.try_map_text(shout).expect("mapped").str().as_str(), "GO");
}

#[test]
fn text_events_are_listed_in_order() {
    let md = CommonMark::new(vec![
        MarkupEvent::Text("a".to_string()),
        MarkupEvent::Code("b".to_string()),
        MarkupEvent::SoftBreak,
        MarkupEvent::Text("c".to_string()),
    ]);
    assert_eq!(md._text(), vec!["a", "c"]);
}
