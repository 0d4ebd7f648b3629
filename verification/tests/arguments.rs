use argon::compiler::diagnostics::{MinimalLocation, VersionError, VersionErrorKind};
use argon::compiler::strings::CowStr;
use argon::frontend::arguments::{
    Argument, ArgumentParseError, ArgumentValue, ArgumentValueError, Arguments, Parameter, Template,
    TemplateComponent,
};
use argon::ir::Language;
use argon::ir::entry_graph::{Value, ValueType};
use argon::ir::rich_text::{
    CommonMark, LinkExtractionError, MarkupEvent, MarkupTag, MarkupTagEnd, RichText,
};
use tree_sitter::Point;

type Converted = Result<Value<'static>, ArgumentValueError<()>>;

fn loc() -> MinimalLocation {
    MinimalLocation {
        start_point: Point { row: 2, column: 4 },
        start_offset: Some(10),
        end_offset: Some(10),
        end_point: None,
    }
}

fn plain(s: &'static str) -> ArgumentValue<'static> {
    ArgumentValue::PlainText(CowStr::Borrowed(s))
}

fn link_text(url: &str, title: &str) -> RichText {
    RichText::common_mark(CommonMark::new(vec![
        MarkupEvent::Start(MarkupTag::Link {
            dest_url: url.to_string(),
            title: title.to_string(),
            id: String::new(),
        }),
        MarkupEvent::Text("here".to_string()),
        MarkupEvent::End(MarkupTagEnd::Link),
    ]))
}

#[test]
fn booleans_strings_and_void() {
    let r: Converted = ArgumentValue::Void.convert(ValueType::Boolean, None, None);
    assert!(matches!(r, Ok(Value::Boolean(true))));
    let r: Converted = plain("abc").convert(ValueType::String, None, None);
    assert!(matches!(r, Ok(Value::String(s)) if s.as_str() == "abc"));
    let r: Converted = plain("abc").convert(ValueType::Void, None, None);
    assert!(matches!(r, Ok(Value::Void)));
    let r: Converted = plain("abc").convert(ValueType::RichText, None, None);
    match r {
        Ok(Value::RichText(t)) => {
            assert_eq!(t.str().as_str(), "abc");
        }
        _ => panic!("rich text expected"),
    }
}

#[test]
fn integers_are_parsed() {
    let r: Converted = plain("-42").convert(ValueType::SignedInteger, None, Some(loc()));
    assert!(matches!(r, Ok(Value::SignedInteger(-42))));
    let r: Converted = plain("+42").convert(ValueType::UnsignedInteger, None, Some(loc()));
    assert!(matches!(r, Ok(Value::UnsignedInteger(42))));
    let r: Converted = plain("-42").convert(ValueType::UnsignedInteger, None, Some(loc()));
    assert!(matches!(r, Err(ArgumentValueError::ParsingIntegerFailed(_, Some(l))) if l.start_point.column == 4));
    let r: Converted = plain(" 7").convert(ValueType::SignedInteger, None, None);
    assert!(matches!(r, Err(ArgumentValueError::ParsingIntegerFailed(_, None))));
}

#[test]
fn uris_are_parsed() {
    let r: Converted = plain("https://example.com/a").convert(ValueType::URI, None, None);
    assert!(matches!(r, Ok(Value::URI(u)) if u.as_str() == "https://example.com/a"));
    let r: Converted = plain("not a uri").convert(ValueType::URI, None, Some(loc()));
    assert!(matches!(r, Err(ArgumentValueError::ParsingURIFailed(_, Some(_)))));
}

#[test]
fn links_come_from_rich_text() {
    let r: Converted = ArgumentValue::RichText(link_text("https://example.com", "Example"))
        .convert(ValueType::Link, None, None);
    assert!(matches!(r, Ok(Value::Link(u, t)) if u.as_str() == "https://example.com/" && t.as_str() == "Example"));
    let r: Converted = plain("https://example.com").convert(ValueType::Link, None, None);
    assert!(matches!(r, Err(ArgumentValueError::LinkExtractionError(LinkExtractionError::MissingLink))));
    let r: Converted = ArgumentValue::RichText(link_text("no uri", "x")).convert(ValueType::Link, None, None);
    assert!(matches!(r, Err(ArgumentValueError::LinkExtractionError(LinkExtractionError::MalformedURI(_)))));
}

#[test]
fn versions_are_read_leniently() {
    let r: Converted = plain("1.2").convert(ValueType::Version, None, Some(loc()));
    assert!(matches!(r, Ok(Value::Version(v)) if v.major == 1 && v.minor == 2 && v.patch == 0));
    let r: Converted = plain("1!").convert(ValueType::Version, None, Some(loc()));
    match r {
        Err(ArgumentValueError::ParsingVersionFailed(e, Some(l))) => {
            assert_eq!(e.0, VersionErrorKind::UnexpectedInput);
            assert_eq!(e.1, "!");
            assert_eq!(e.message(), "Unexpected token '!'");
            assert_eq!(l.start_point.column, 5);
            assert_eq!(l.start_offset, Some(11));
            assert_eq!(l.end_offset, Some(12));
        }
        _ => panic!("version error expected"),
    }
}

#[test]
fn version_error_messages() {
    let e = VersionError(VersionErrorKind::MissingMinorNumber, String::new());
    assert_eq!(e.message(), "missing minor version component");
    let e = VersionError(VersionErrorKind::NumberOverflow, "99999999999999999999".to_string());
    assert_eq!(e.message(), "value '99999999999999999999' overflows when stored in 64-bit integer");
}

#[test]
fn arguments_convert_with_their_location() {
    let a = Argument { name: "n", value: plain("x"), location: loc() };
    let r: Converted = a.convert(ValueType::UnsignedInteger, None);
    assert!(matches!(r, Err(ArgumentValueError::ParsingIntegerFailed(_, Some(l))) if l.start_point.row == 2));
}

fn arguments() -> Arguments<'static> {
    let mut args = Arguments::default();
    args.add("count", plain("12"), loc());
    args.add("bad", plain("twelve"), loc());
    args
}

#[test]
fn parameters_resolve_to_converted_values() {
    let args = arguments();
    let r: Converted = args.resolve_converted(&Parameter::Variable(CowStr::Borrowed("count")), ValueType::UnsignedInteger);
    assert!(matches!(r, Ok(Value::UnsignedInteger(12))));
    let r: Converted = args.resolve_converted(&Parameter::Variable(CowStr::Borrowed("none")), ValueType::UnsignedInteger);
    assert!(matches!(r, Err(ArgumentValueError::Missing(n)) if n == "none"));
    let r: Converted = args.resolve_converted(&Parameter::Constant(Value::Boolean(false)), ValueType::Boolean);
    assert!(matches!(r, Ok(Value::Boolean(false))));
    let r: Converted = args.resolve_converted(
        &Parameter::VariableDefault(CowStr::Borrowed("none"), Value::UnsignedInteger(3)),
        ValueType::UnsignedInteger,
    );
    assert!(matches!(r, Ok(Value::UnsignedInteger(3))));
    let t = Template::_from_components(
        vec![TemplateComponent::Literal(CowStr::Borrowed("1")), TemplateComponent::Slot(CowStr::Borrowed("count"))],
        1,
    );
    let r: Converted = args.resolve_converted(&Parameter::Template(t), ValueType::SignedInteger);
    assert!(matches!(r, Ok(Value::SignedInteger(112))));
}

#[test]
fn optional_parameters_resolve_to_nothing_where_arguments_are_missing() {
    let args = arguments();
    let r: Result<Option<Value>, ArgumentValueError<()>> =
        args.resolve_converted_optional(&Parameter::Variable(CowStr::Borrowed("none")), ValueType::UnsignedInteger);
    assert!(matches!(r, Ok(None)));
    let r: Result<Option<Value>, ArgumentValueError<()>> =
        args.resolve_converted_optional(&Parameter::Variable(CowStr::Borrowed("bad")), ValueType::UnsignedInteger);
    assert!(matches!(r, Err(ArgumentValueError::ParsingIntegerFailed(_, Some(_)))));
    let t = Template::_from_components(vec![TemplateComponent::Slot(CowStr::Borrowed("none"))], 0);
    let r: Result<Option<Value>, ArgumentValueError<()>> =
        args.resolve_converted_optional(&Parameter::Template(t), ValueType::String);
    assert!(matches!(r, Ok(None)));
    let r = args.resolve_rich_text_optional(&Parameter::Variable(CowStr::Borrowed("none")), None);
    assert!(r.is_none());
    let r = args.resolve_rich_text_optional(&Parameter::Variable(CowStr::Borrowed("count")), None);
    assert_eq!(r.expect("rich text").str().as_str(), "12");
}

#[test]
fn parameters_resolve_to_parsed_values() {
    let mut args = Arguments::default();
    args.add("language", plain("rust"), loc());
    args.add("flag", plain("yes"), loc());
    let r: Result<Language, ArgumentValueError<ArgumentParseError>> =
        args.resolve_parsed(&Parameter::Variable(CowStr::Borrowed("language")));
    assert!(matches!(r, Ok(Language::Rust)));
    let r: Result<bool, ArgumentValueError<ArgumentParseError>> =
        args.resolve_parsed(&Parameter::Variable(CowStr::Borrowed("flag")));
    assert!(matches!(r, Err(ArgumentValueError::ParsingFailed(ArgumentParseError::VariantNotFound, Some(_)))));
    let r: Result<bool, ArgumentValueError<ArgumentParseError>> =
        args.resolve_parsed(&Parameter::VariableDefault(CowStr::Borrowed("none"), true));
    assert!(matches!(r, Ok(true)));
    let t = Template::_from_components(vec![TemplateComponent::Literal(CowStr::Borrowed("false"))], 5);
    let r: Result<bool, ArgumentValueError<ArgumentParseError>> = args.resolve_parsed(&Parameter::Template(t));
    assert!(matches!(r, Ok(false)));
    let r: Result<Language, ArgumentValueError<ArgumentParseError>> =
        args.resolve_parsed(&Parameter::Variable(CowStr::Borrowed("none")));
    assert!(matches!(r, Err(ArgumentValueError::Missing(n)) if n == "none"));
}
