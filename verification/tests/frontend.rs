use argon::compiler::diagnostics::MinimalLocation;
use argon::compiler::strings::CowStr;
use argon::frontend::actions::Action;
use argon::frontend::arguments::{
    ArgumentValue, ArgumentValueError, Arguments, Parameter, Template, TemplateComponent,
};
use argon::frontend::c::sema_gen::{ASTWalker, Config, ReportMessage, SyntaxNode};
use argon::frontend::cmark_comment::{externally_scan_line, options_from_prefix, CommentOptions};
use argon::frontend::doxygen::directive::{DoxygenBuiltin, DoxygenDelimitedParameters};
use argon::frontend::doxygen::predefined::builtins;
use argon::compiler::diagnostics::Severity;
use tree_sitter::{Point, Range};

fn loc() -> MinimalLocation {
    MinimalLocation {
        start_point: Point { row: 0, column: 0 },
        start_offset: None,
        end_offset: None,
        end_point: None,
    }
}

fn parts(t: &[TemplateComponent]) -> Vec<(bool, String)> {
    t.iter()
        .map(|c| match c {
            TemplateComponent::Slot(s) => (true, s.as_str().to_string()),
            TemplateComponent::Literal(s) => (false, s.as_str().to_string()),
        })
        .collect()
}

#[test]
fn templates_are_analyzed_and_parsed() {
    assert_eq!(Template::_analyze("doxy.formatonly.$format", '$'), (2, 16));
    assert_eq!(Template::_analyze("$name", '$'), (1, 0));
    assert_eq!(Template::_analyze("plain", '$'), (1, 5));
    assert_eq!(Template::_analyze("</${format}only>", '$'), (3, 7));
    assert_eq!(
        parts(&Template::_parse_template("a$x-b$y", '$')),
        vec![(false, "a".to_string()), (true, "x".to_string()), (false, "-b".to_string()), (true, "y".to_string())]
    );
    assert_eq!(parts(&Template::_parse_template("", '$')), vec![]);
}

#[test]
fn arguments_fill_templates() {
    let mut args = Arguments::default();
    args.add("format", ArgumentValue::PlainText(CowStr::Borrowed("html")), loc());
    args.add("format", ArgumentValue::PlainText(CowStr::Borrowed("xml")), loc());
    args.add("empty", ArgumentValue::Void, loc());
    assert!(args.has("format") && !args.has("other") && !args.is_empty());
    assert_eq!(args.get("format").unwrap().value.str().as_str(), "html");
    let t = Template::_from_components(Template::_parse_template("doxy.$format.only", '$'), 14);
    let r: Result<CowStr, ArgumentValueError<()>> = args.materialize_template(&t);
    assert_eq!(r.unwrap().as_str(), "doxy.html.only");
    let missing = Template::_from_components(Template::_parse_template("$nothing", '$'), 0);
    let r: Result<CowStr, ArgumentValueError<()>> = args.materialize_template(&missing);
    assert!(matches!(r, Err(ArgumentValueError::Missing(n)) if n == "nothing"));
    let r: Result<CowStr, ArgumentValueError<()>> = args.materialize_str("x $format y");
    assert_eq!(r.unwrap().as_str(), "x html y");
    let r: Result<CowStr, ArgumentValueError<()>> = args.materialize_str("$format");
    assert_eq!(r.unwrap().as_str(), "$format");
    let taken = args.take("format").unwrap();
    assert_eq!(taken.value.str().as_str(), "html");
    assert_eq!(args.get("format").unwrap().value.str().as_str(), "xml");
}

#[test]
fn parameters_resolve_against_arguments() {
    let mut args = Arguments::default();
    args.add("id", ArgumentValue::PlainText(CowStr::Borrowed("entry.one")), loc());
    let p: Parameter<CowStr> = Parameter::Variable(CowStr::Borrowed("id"));
    let r: Result<CowStr, ArgumentValueError<()>> = args.resolve_str(&p);
    assert_eq!(r.unwrap().as_str(), "entry.one");
    let p: Parameter<CowStr> = Parameter::Variable(CowStr::Borrowed("title"));
    let r: Result<CowStr, ArgumentValueError<()>> = args.resolve_str(&p);
    assert!(matches!(r, Err(ArgumentValueError::Missing(n)) if n == "title"));
    let p: Parameter<CowStr> = Parameter::VariableDefault(CowStr::Borrowed("title"), CowStr::Borrowed("Untitled"));
    let r: Result<CowStr, ArgumentValueError<()>> = args.resolve_str(&p);
    assert_eq!(r.unwrap().as_str(), "Untitled");
    let p: Parameter<CowStr> = Parameter::Constant(CowStr::Borrowed("fixed"));
    let r: Result<CowStr, ArgumentValueError<()>> = args.resolve_str(&p);
    assert_eq!(r.unwrap().as_str(), "fixed");
}

#[test]
fn comment_prefixes_give_options() {
    let o = options_from_prefix("///<");
    assert!(o.line_comment && o.extra_angled_bracket && !o.inline_comment && !o.uses_exclamation_mark);
    let o = options_from_prefix("/*!");
    assert!(o.inline_comment && o.uses_exclamation_mark);
    assert_eq!(options_from_prefix("#"), CommentOptions { line_comment: false, inline_comment: false, uses_exclamation_mark: false, extra_angled_bracket: false });
}

#[test]
fn comment_markers_are_scanned() {
    let line = options_from_prefix("///");
    assert_eq!(externally_scan_line(b"  /// text", line), 6);
    assert_eq!(externally_scan_line(b"// text", line), 3);
    assert_eq!(externally_scan_line(b"//", line), 0);
    assert_eq!(externally_scan_line(b"# text", line), 0);
    assert_eq!(externally_scan_line(b"    ", line), 0);
    let angled = options_from_prefix("///<");
    assert_eq!(externally_scan_line(b"///< text", angled), 5);
    let block = options_from_prefix("/**");
    assert_eq!(externally_scan_line(b" * text", block), 3);
    assert_eq!(externally_scan_line(b"text", block), 0);
    assert_eq!(externally_scan_line(b"/** text", block), 1);
    let none = options_from_prefix("");
    assert_eq!(externally_scan_line(b"\tx", none), 1);
}

fn range() -> Range {
    Range { start_byte: 0, end_byte: 0, start_point: Point { row: 0, column: 0 }, end_point: Point { row: 0, column: 0 } }
}

fn leaf(kind: &str, text: &str) -> SyntaxNode {
    SyntaxNode { kind: kind.to_string(), named: true, text: text.to_string(), range: range(), children: vec![] }
}

fn token(text: &str) -> SyntaxNode {
    SyntaxNode { kind: text.to_string(), named: false, text: text.to_string(), range: range(), children: vec![] }
}

fn binary(left: SyntaxNode, op: &str, right: SyntaxNode) -> SyntaxNode {
    SyntaxNode {
        kind: "binary_expression".to_string(),
        named: true,
        text: String::new(),
        range: range(),
        children: vec![
            (Some("left".to_string()), left),
            (Some("operator".to_string()), token(op)),
            (Some("right".to_string()), right),
        ],
    }
}

#[test]
fn preprocessor_conditions_are_evaluated() {
    let config = Config::default();
    let walker = ASTWalker::new(&config);
    assert_eq!(walker.evaluatePreprocessorExpression(&leaf("identifier", "DOXYGEN")).ok(), Some(1));
    assert_eq!(walker.evaluatePreprocessorExpression(&leaf("identifier", "UNDEFINED")).ok(), Some(0));
    assert_eq!(walker.evaluatePreprocessorExpression(&leaf("number_literal", "-42")).ok(), Some(-42));
    let sum = binary(leaf("number_literal", "7"), "/", leaf("number_literal", "-2"));
    assert_eq!(walker.evaluatePreprocessorExpression(&sum).ok(), Some(-3));
    let rem = binary(leaf("number_literal", "-7"), "%", leaf("number_literal", "2"));
    assert_eq!(walker.evaluatePreprocessorExpression(&rem).ok(), Some(-1));
    let cmp = binary(leaf("number_literal", "3"), "==", leaf("number_literal", "3"));
    assert_eq!(walker.evaluatePreprocessorExpression(&cmp).ok(), Some(3));
    let or = binary(leaf("identifier", "DOXYGEN"), "||", leaf("number_literal", "0"));
    assert_eq!(walker.evaluatePreprocessorExpression(&or).ok(), Some(1));
    let shift = binary(leaf("number_literal", "1"), "<<", leaf("number_literal", "4"));
    assert_eq!(walker.evaluatePreprocessorExpression(&shift).ok(), Some(16));
    let bad = binary(leaf("number_literal", "1"), "??", leaf("number_literal", "4"));
    assert!(matches!(walker.evaluatePreprocessorExpression(&bad), Err(e) if matches!(&e.message, ReportMessage::UnknownBinaryOperator(o) if o == "??")));
    let hex = leaf("number_literal", "0x10");
    assert!(matches!(walker.evaluatePreprocessorExpression(&hex), Err(e) if matches!(e.message, ReportMessage::InvalidNumberLiteral)));
    let unknown = leaf("string_literal", "\"x\"");
    assert!(walker.evaluatePreprocessorExpression(&unknown).is_err());
    let defined = SyntaxNode {
        kind: "preproc_defined".to_string(),
        named: true,
        text: "defined(DOXYGEN)".to_string(),
        range: range(),
        children: vec![(None, token("defined")), (None, leaf("identifier", "DOXYGEN"))],
    };
    assert_eq!(walker.evaluatePreprocessorExpression(&defined).ok(), Some(1));
    let not = SyntaxNode {
        kind: "unary_expression".to_string(),
        named: true,
        text: "!X".to_string(),
        range: range(),
        children: vec![(Some("operator".to_string()), token("!")), (Some("argument".to_string()), leaf("identifier", "X"))],
    };
    assert_eq!(walker.evaluatePreprocessorExpression(&not).ok(), Some(1));
    let chars = SyntaxNode {
        kind: "char_literal".to_string(),
        named: true,
        text: "'A'".to_string(),
        range: range(),
        children: vec![(None, token("'")), (None, leaf("character", "A")), (None, token("'"))],
    };
    assert_eq!(walker.evaluatePreprocessorExpression(&chars).ok(), Some(65));
    assert_eq!(ReportMessage::UnsatisfiedPreprocessorCondition("#ifdef".into(), "x".into()).severity(), Severity::Info);
    assert_eq!(ReportMessage::ScopeChildIngored("x".into()).severity(), Severity::Warning);
    assert_eq!(ReportMessage::MissingOperand.severity(), Severity::Error);
}

#[test]
fn builtin_directives_and_delimiters() {
    let b = builtins();
    assert_eq!(b.len(), 1);
    assert_eq!(b[0].0, "param");
    assert_eq!(b[0].1.parameters.delimited.delimiters(), Some((b'[', b']')));
    assert_eq!(b[0].1.parameters.whitespace_separated.required, vec!["name"]);
    assert_eq!(DoxygenDelimitedParameters::NoArguments.delimiters(), None);
    assert_eq!(DoxygenDelimitedParameters::PositionalArguments(vec!["a"], 1, 0).delimiters(), Some((b'{', b'}')));
}

#[test]
fn actions_have_identifiers() {
    let a: Action<DoxygenBuiltin> = Action::SetRootEntry;
    assert_eq!(a.id(), "graph.root.set");
    let b: Action<DoxygenBuiltin> = Action::Builtin(DoxygenBuiltin::File);
    assert_eq!(b.id(), "builtin");
    let c: Action<DoxygenBuiltin> = Action::PushScope { name: Parameter::Constant(None) };
    assert_eq!(c.id(), "scope.push");
}

#[test]
fn analysis_counts_parsed_components() {
    for s in ["a$x-b$y", "$name", "plain", "", "x$", "$a$b"] {
        assert_eq!(Template::_analyze(s, '$').0, Template::_parse_template(s, '$').len(), "{s}");
    }
}
