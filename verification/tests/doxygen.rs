use argon::compiler::diagnostics::MinimalLocation;
use argon::frontend::actions::Action;
use argon::frontend::doxygen::directive::{AttachmentSyntax, DoxygenDelimitedParameters};
use argon::frontend::arguments::{Parameter, TemplateComponent};
use argon::frontend::doxygen::predefined::{_predefined, _scripts, builtins};
use argon::frontend::doxygen::{record_directive, DoxygenError, DoxygenSettings};
use argon::ir::rich_text::MarkupEvent;
use tree_sitter::Point;

fn loc() -> MinimalLocation {
    MinimalLocation {
        start_point: Point { row: 3, column: 4 },
        start_offset: None,
        end_offset: None,
        end_point: None,
    }
}

fn settings() -> DoxygenSettings {
    DoxygenSettings { directives: builtins() }
}

#[test]
fn unknown_directive_is_reported() {
    let s = settings();
    let values: Vec<String> = vec![];
    let mut diags = Vec::new();
    let r = record_directive(&s, "brief", &values, None, 0, vec![], true, loc(), &mut diags);
    assert!(r.is_none());
    assert_eq!(diags.len(), 1);
    assert!(matches!(&diags[0].0, DoxygenError::UnknownCommand(n) if n == "brief"));
    assert_eq!((diags[0].1.start_point.row, diags[0].1.start_point.column), (3, 4));
}

#[test]
fn param_with_keyword_and_description() {
    let s = settings();
    let values = vec!["in".to_string()];
    let mut diags = Vec::new();
    let attachment = vec![MarkupEvent::Text("the input".to_string())];
    let r = record_directive(&s, "param", &values, Some((b'[', b']')), 1, attachment, true, loc(), &mut diags);
    let args = r.expect("bound");
    assert!(args.has("in"));
    assert!(!args.has("out"));
    // The built-in `param` has no script yet: evaluating it reports that.
    assert_eq!(diags.len(), 1);
    assert!(matches!(&diags[0].0, DoxygenError::UnimplementedDirective(n) if n == "param"));
}

#[test]
fn param_with_unknown_keyword_and_no_name() {
    let s = settings();
    let values = vec!["sideways".to_string()];
    let mut diags = Vec::new();
    let r = record_directive(&s, "param", &values, Some((b'[', b']')), 0, vec![], true, loc(), &mut diags);
    assert!(r.is_none());
    assert_eq!(diags.len(), 2);
    assert!(matches!(&diags[0].0, DoxygenError::UnknownArgument(n, v) if n == "param" && v == "sideways"));
    assert!(matches!(&diags[1].0, DoxygenError::MissingArguments(n, 1, 0) if n == "param"));
}

#[test]
fn param_with_wrong_delimiters() {
    let s = settings();
    let values = vec!["in".to_string()];
    let mut diags = Vec::new();
    let r = record_directive(&s, "param", &values, Some((b'{', b'}')), 1, vec![], true, loc(), &mut diags);
    assert!(r.is_none());
    assert_eq!(diags.len(), 1);
    assert!(matches!(&diags[0].0, DoxygenError::MismatchingArgumentDelimiters(n, '[', ']', '{', '}') if n == "param"));
}

#[test]
fn param_missing_description() {
    let s = settings();
    let values: Vec<String> = vec![];
    let mut diags = Vec::new();
    let r = record_directive(&s, "param", &values, Some((b'[', b']')), 1, vec![], true, loc(), &mut diags);
    let args = r.expect("bound with an empty description");
    assert!(args.has("description"));
    assert_eq!(diags.len(), 2);
    assert!(matches!(&diags[0].0, DoxygenError::MissingArguments2(n, names) if n == "param" && names == &vec!["description".to_string()]));
    assert!(matches!(&diags[1].0, DoxygenError::UnimplementedDirective(n) if n == "param"));
}

#[test]
fn directive_of_an_unclosed_paragraph_is_not_recorded() {
    let s = settings();
    let values: Vec<String> = vec![];
    let mut diags = Vec::new();
    let attachment = vec![MarkupEvent::Text("the input".to_string())];
    let r = record_directive(&s, "param", &values, Some((b'[', b']')), 1, attachment, false, loc(), &mut diags);
    assert!(r.is_none());
    assert!(diags.is_empty());
}

#[test]
fn predefined_table_lists_the_doxygen_directives() {
    let table = _predefined();
    assert_eq!(table.len(), 205);
    assert_eq!(table[0].0, "addtogroup");
    let names: Vec<&str> = table.iter().map(|e| e.0).collect();
    let mut sorted = names.clone();
    sorted.sort();
    sorted.dedup();
    assert_eq!(sorted.len(), names.len());

    let brief = &table.iter().find(|e| e.0 == "brief").expect("brief").1;
    assert!(matches!(&brief.parameters.attached, Some(a) if a.name == "description" && a.required));
    assert!(brief.syntax.interrupts_paragraph);
    assert!(matches!(brief.syntax.attachment_syntax, AttachmentSyntax::UntilInterrupt(0)));
    assert_eq!(brief.script.len(), 1);
    assert!(matches!(&brief.script[0], Action::SetAbstract { .. }));

    let mainpage = &table.iter().find(|e| e.0 == "mainpage").expect("mainpage").1;
    assert_eq!(mainpage.parameters.whitespace_separated.optional, vec!["title"]);
    assert!(matches!(mainpage.script.last(), Some(Action::SetRootEntry)));

    let example = &table.iter().find(|e| e.0 == "example").expect("example").1;
    assert!(matches!(&example.parameters.delimited, DoxygenDelimitedParameters::Options('\0', o) if o == &vec![("lineno", false)]));
}

#[test]
fn verbatim_scripts_open_and_close_format_scopes() {
    let scripts = _scripts();
    assert_eq!(scripts.len(), 2);
    assert_eq!(scripts[0].0, "doxygen.verbatim-into-output.start");
    assert_eq!(scripts[1].0, "doxygen.verbatim-into-output.end");
    assert_eq!(scripts[0].1.len(), 9);
    match &scripts[0].1[0] {
        Action::PushScope { name: Parameter::Template(t) } => {
            assert_eq!(t.components.len(), 2);
            assert!(matches!(&t.components[0], TemplateComponent::Literal(s) if s.as_str() == "doxy.formatonly."));
            assert!(matches!(&t.components[1], TemplateComponent::Slot(s) if s.as_str() == "format"));
            assert_eq!(t.capacity, 16);
        }
        _ => panic!("a templated scope expected"),
    }
    assert!(matches!(&scripts[1].1[0], Action::PopScope { name: Parameter::Template(_) }));
}
