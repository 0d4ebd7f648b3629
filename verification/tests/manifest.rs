use argon::compiler::diagnostics::Severity;
use argon::compiler::strings::Encoding;
use argon::driver::manifest::{
    DocAction, DocActionParameter, DocAttribute, DocAttributeAppearance, DocCSettings, DocDialect,
    DocDoxygenBuiltinAction, DocDoxygenDirective, DocDoxygenParameter, DocDoxygenParameterLength,
    DocDoxygenSettings, DocHTMLSettings, DocLanguage, DocManifest, DocModel, DocProduct,
    DocProductFormat, DocRole, DocScript, DocScriptSpecification, DocTarget, DocValueType,
    ManifestError, DocInliningBehavior, parameter_variable, rich_text_from_markdown,
};
use argon::ir::rich_text::{MarkupEvent, MarkupTag, MarkupTagEnd};
use argon::ir;

fn target(name: Option<&str>, files: &[&str]) -> DocTarget {
    DocTarget {
        name: name.map(|n| n.to_string()),
        files: files.iter().map(|f| f.to_string()).collect(),
        encoding: Encoding::UTF8,
        language: Some(DocLanguage::C { settings: DocCSettings::default() }),
        dialect: DocDialect::Doxygen { settings: DocDoxygenSettings::default() },
    }
}

fn product(name: &str, targets: Option<Vec<&str>>) -> DocProduct {
    DocProduct {
        name: name.to_string(),
        targets: targets.map(|t| t.iter().map(|s| s.to_string()).collect()),
        format: DocProductFormat::MostlyStaticButPrettyHTML { settings: DocHTMLSettings::default() },
    }
}

fn attribute(id: &str) -> DocAttribute {
    DocAttribute {
        id: id.to_string(),
        label: format!("{id} label"),
        value_type: DocValueType::default(),
        repeatable: false,
        appearance: DocAttributeAppearance::default(),
        description: None,
    }
}

fn role(id: &str, assoc: &[&str]) -> DocRole {
    DocRole {
        id: id.to_string(),
        label: format!("{id} label"),
        inlining_behavior: None,
        associated_attributes: assoc.iter().map(|s| s.to_string()).collect(),
    }
}

fn manifest(targets: Vec<DocTarget>, products: Vec<DocProduct>) -> DocManifest {
    DocManifest {
        targets,
        products,
        model: DocModel::default(),
        scripts: vec![],
    }
}

fn messages(diags: &[ManifestError]) -> Vec<String> {
    diags.iter().map(|d| d.message()).collect()
}

#[test]
fn single_target_without_files_only_warns() {
    let m = manifest(vec![target(None, &[])], vec![product("html", None)]);
    let mut diags = vec![];
    assert!(m.proofread(&mut diags));
    assert_eq!(messages(&diags), vec!["Target '0' does not contain any files".to_string()]);
    assert_eq!(diags[0].severity(), Severity::Warning);
}

#[test]
fn several_targets_need_unique_names() {
    let m = manifest(
        vec![target(Some("a"), &["x.h"]), target(None, &["y.h"]), target(Some("a"), &["z.h"])],
        vec![],
    );
    let mut diags = vec![];
    assert!(!m.proofread(&mut diags));
    assert_eq!(
        messages(&diags),
        vec![
            "Target at index 1 must have a name because multiple target exists".to_string(),
            "Duplicate targets with name 'a'".to_string(),
        ]
    );
    assert!(diags.iter().all(|d| d.severity() == Severity::Error));
}

#[test]
fn products_must_list_targets_when_several_exist() {
    let m = manifest(
        vec![target(Some("a"), &["x.h"]), target(Some("b"), &["y.h"])],
        vec![product("p", None), product("q", Some(vec![])), product("p", Some(vec!["a"]))],
    );
    let mut diags = vec![];
    assert!(!m.proofread(&mut diags));
    assert_eq!(
        messages(&diags),
        vec![
            "Product 'p' must specify targets because multiple targets exist".to_string(),
            "Product 'q' has no targets".to_string(),
            "Duplicate products with name 'p'".to_string(),
        ]
    );
}

#[test]
fn an_empty_target_list_alone_keeps_the_manifest_valid() {
    let m = manifest(
        vec![target(Some("a"), &["x.h"]), target(Some("b"), &["y.h"])],
        vec![product("q", Some(vec![]))],
    );
    let mut diags = vec![];
    assert!(m.proofread(&mut diags));
    assert_eq!(messages(&diags), vec!["Product 'q' has no targets".to_string()]);
}

#[test]
fn single_target_products_need_no_target_list() {
    let m = manifest(vec![target(Some("a"), &["x.h"])], vec![product("p", None), product("p", None)]);
    let mut diags = vec![];
    assert!(m.proofread(&mut diags));
    assert!(diags.is_empty());
}

#[test]
fn model_identifiers_must_be_unique_and_associations_defined() {
    let mut m = manifest(vec![target(Some("a"), &["x.h"])], vec![]);
    m.scripts = vec![
        DocScript { name: "s".into(), actions: vec![] },
        DocScript { name: "s".into(), actions: vec![] },
    ];
    m.model.attributes = vec![attribute("since"), attribute("since"), attribute("author")];
    m.model.roles = vec![role("func", &["since", "missing"]), role("func", &[])];
    let mut diags = vec![];
    assert!(!m.proofread(&mut diags));
    assert_eq!(
        messages(&diags),
        vec![
            "Duplicate script with name 's'".to_string(),
            "Duplicate attribute with identifier 'since'".to_string(),
            "Undefined attribute 'missing' associated with role 'func'".to_string(),
            "Duplicate role with identifier 'func'".to_string(),
        ]
    );
}

fn param(name: &str, length: DocDoxygenParameterLength) -> DocDoxygenParameter {
    DocDoxygenParameter { name: name.to_string(), length }
}

fn directive(name: &str, params: Vec<DocDoxygenParameter>, script: DocScriptSpecification) -> DocDoxygenDirective {
    DocDoxygenDirective { name: name.to_string(), parameters: params, script }
}

#[test]
fn directive_names_are_checked() {
    let mut diags = vec![];
    let d = directive("param", vec![], DocScriptSpecification::Anonymous(vec![]));
    assert!(!d.proofread(0, &[], &mut diags));
    let d = directive("bad-name", vec![], DocScriptSpecification::Anonymous(vec![]));
    assert!(!d.proofread(1, &[], &mut diags));
    let d = directive("note2", vec![], DocScriptSpecification::Anonymous(vec![]));
    assert!(d.proofread(2, &[], &mut diags));
    assert_eq!(
        messages(&diags),
        vec![
            "Doxygen directive name 'param' is reserved by built-in directive".to_string(),
            "Doxygen directive name 'bad-name' is invalid, only A-Z, a-z, and 0-9 allowed".to_string(),
        ]
    );
}

#[test]
fn directive_parameters_are_unique_and_long_ones_trail() {
    let mut diags = vec![];
    let d = directive(
        "custom",
        vec![param("a", DocDoxygenParameterLength::Word), param("a", DocDoxygenParameterLength::Word), param("text", DocDoxygenParameterLength::Line), param("b", DocDoxygenParameterLength::Word), param("rest", DocDoxygenParameterLength::Paragraph), param("more", DocDoxygenParameterLength::Line)],
        DocScriptSpecification::Anonymous(vec![]),
    );
    assert!(!d.proofread(0, &[], &mut diags));
    assert_eq!(
        messages(&diags),
        vec![
            "Doxygen directive parameter 'a' defined multiple times".to_string(),
            "Doxygen directive word-long parameter 'b' must not occur after line-long or paragraph-long parameter".to_string(),
            "Doxygen directive parameter 'rest' must be trailing and there must not be more than one line-long or paragraph-long parameter".to_string(),
            "Doxygen directive parameter 'more' must be trailing and there must not be more than one line-long or paragraph-long parameter".to_string(),
        ]
    );
}

#[test]
fn directive_scripts_resolve_and_reference_parameters() {
    let scripts = vec![DocScript {
        name: "make".into(),
        actions: vec![DocAction::CreateEntry {
            id: DocActionParameter::Variable("id".into()),
            title: DocActionParameter::Variable("title".into()),
            content: DocActionParameter::Constant(None),
            continue_content: true,
        }],
    }];
    let mut diags = vec![];
    let d = directive(
        "entry",
        vec![param("id", DocDoxygenParameterLength::Word)],
        DocScriptSpecification::Named("make".into()),
    );
    assert!(!d.proofread(0, &scripts, &mut diags));
    let d = directive("other", vec![], DocScriptSpecification::Named("nowhere".into()));
    assert!(!d.proofread(1, &scripts, &mut diags));
    let d = directive(
        "full",
        vec![param("id", DocDoxygenParameterLength::Word), param("title", DocDoxygenParameterLength::Line)],
        DocScriptSpecification::Named("make".into()),
    );
    assert!(d.proofread(2, &scripts, &mut diags));
    assert_eq!(
        messages(&diags),
        vec![
            "Parameter 'title' referenced in 'entry' action in script for 'entry' directive is not a defined parameter in 'entry'".to_string(),
            "Script 'nowhere' definition is missing".to_string(),
        ]
    );
}

#[test]
fn action_variables_and_ids() {
    let a = DocAction::AddAttribute {
        key: DocActionParameter::Variable("k".into()),
        value: DocActionParameter::Variable("v".into()),
    };
    assert_eq!(a.variables(), vec!["k", "v"]);
    assert_eq!(a.id(), "entry.attributes.add");
    let b = DocAction::DoxygenBuiltin { builtin: DocDoxygenBuiltinAction::LineInfo };
    assert!(b.variables().is_empty());
    assert_eq!(b.id(), "builtin.doxygen.lineinfo");
    let c = DocAction::SetRole { role: DocActionParameter::Constant("func".into()) };
    assert!(c.variables().is_empty());
    assert_eq!(DocActionParameter::<String>::Variable("x".into()).as_variable(), Some("x"));
}

#[test]
fn model_roles_and_attributes_become_registries() {
    let mut m = manifest(vec![], vec![]);
    m.model.roles = vec![role("func", &[]), role("type", &[])];
    m.model.roles[1].inlining_behavior = Some(DocInliningBehavior { ordered: true });
    m.model.attributes = vec![attribute("since"), attribute("author")];
    let roles = m.roles();
    assert_eq!(roles.id_for_key("type"), Some(ir::RoleID(0, 0, 3)));
    assert_eq!(roles.get_by_key("func").map(|r| r.label.clone()), Some("func label".to_string()));
    assert!(roles.get_by_key("type").unwrap().inline());
    let attributes = m.attributes();
    assert_eq!(attributes.id_for_key("author"), Some(ir::entry_graph::AttributeID(1)));
    assert_eq!(attributes.key_for_id(ir::entry_graph::AttributeID(0)), Some("since"));
}

#[test]
fn manifest_targets_are_named_by_position_where_unnamed() {
    let m = manifest(vec![target(None, &["a.h"]), target(Some("lib"), &["b.h", "c.h"])], vec![]);
    let targets = m.targets();
    assert_eq!(targets.len(), 2);
    assert_eq!(targets[0].name, "0");
    assert_eq!(targets[1].name, "lib");
    assert_eq!(targets[1].files, vec!["b.h".to_string(), "c.h".to_string()]);
    assert_eq!(targets[0].language, Some(ir::Language::C));
    assert_eq!(targets[0].dialect_config.doxygen.directives[0].0, "param");
}

#[test]
fn html_settings_defaults() {
    let s = DocHTMLSettings::default();
    assert!(s.beautify_paths);
    assert_eq!(s.output_path, ".build/doc/html");
    let c = DocCSettings::default();
    assert!(c.transform_fptrs && c.ignore_header_defines && !c.decay_arrays);
}

#[test]
fn manifest_rich_text_is_read_as_commonmark() {
    let r = rich_text_from_markdown("# Title\n\nSome *text*");
    assert_eq!(r.source, "# Title\n\nSome *text*");
    let events = &r.inner.0;
    assert_eq!(events.len(), 9);
    assert!(matches!(&events[0], MarkupEvent::Start(MarkupTag::Heading { level: 1, id: None })));
    assert!(matches!(&events[1], MarkupEvent::Text(t) if t == "Title"));
    assert!(matches!(&events[2], MarkupEvent::End(MarkupTagEnd::Heading(1))));
    assert!(matches!(&events[3], MarkupEvent::Start(MarkupTag::Paragraph)));
    assert!(matches!(&events[5], MarkupEvent::Start(MarkupTag::Emphasis)));
    assert!(matches!(&events[6], MarkupEvent::Text(t) if t == "text"));
}

#[test]
fn manifest_rich_text_leaves_out_what_it_does_not_model() {
    let r = rich_text_from_markdown("| a |\n|---|\n| b |\n");
    let texts: Vec<&str> = r.inner.0.iter().filter_map(|e| match e {
        MarkupEvent::Text(t) => Some(t.as_str()),
        _ => None,
    }).collect();
    assert_eq!(texts, vec!["a", "b"]);
    assert!(r.inner.0.iter().all(|e| matches!(e, MarkupEvent::Text(_))));
}

#[test]
fn action_parameters_name_variables_with_a_dollar() {
    assert_eq!(parameter_variable("$name"), Some("name"));
    assert_eq!(parameter_variable("$"), Some(""));
    assert_eq!(parameter_variable("name"), None);
    assert_eq!(parameter_variable(""), None);
}
