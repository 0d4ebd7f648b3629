use argon::compiler::strings::{Encoding, Endianness};
use argon::frontend::c::source::{parse_source, SourceError};
use argon::frontend::c::reader::comment_style;
use argon::frontend::c::sema::{
    AttachedExpression, IncludedHeader, NamedType, Parameter, PrimitiveType, SizeModifier, Storage,
    Symbol, TypeDecl, TypeQualifier,
};
use argon::frontend::c::sema_gen::{ASTWalker, Config, ReportMessage, SyntaxNode};
use argon::frontend::c::walker::{Recorded, Report};
use tree_sitter::{Point, Range};

fn range(n: usize) -> Range {
    Range {
        start_byte: n,
        end_byte: n + 1,
        start_point: Point { row: n, column: 0 },
        end_point: Point { row: n, column: 1 },
    }
}

fn node(kind: &str, text: &str, children: Vec<(Option<&str>, SyntaxNode)>) -> SyntaxNode {
    SyntaxNode {
        kind: kind.to_string(),
        named: true,
        text: text.to_string(),
        range: range(0),
        children: children.into_iter().map(|(f, n)| (f.map(|s| s.to_string()), n)).collect(),
    }
}

fn leaf(kind: &str, text: &str) -> SyntaxNode {
    node(kind, text, vec![])
}

fn token(text: &str) -> SyntaxNode {
    SyntaxNode { kind: text.to_string(), named: false, text: text.to_string(), range: range(0), children: vec![] }
}

fn walk(unit: &SyntaxNode, config: &Config) -> (Vec<Recorded>, Vec<Report>) {
    let walker = ASTWalker::new(config);
    let mut rec = Vec::new();
    let mut diags = Vec::new();
    walker.gen_sema(unit, &mut rec, &mut diags);
    (rec, diags)
}

fn unit(children: Vec<SyntaxNode>) -> SyntaxNode {
    node("translation_unit", "", children.into_iter().map(|c| (None, c)).collect())
}

#[test]
fn plain_variable_declaration() {
    // static int x;
    let decl = node("declaration", "static int x;", vec![
        (None, leaf("storage_class_specifier", "static")),
        (Some("type"), leaf("primitive_type", "int")),
        (Some("declarator"), leaf("identifier", "x")),
        (None, token(";")),
    ]);
    let (rec, diags) = walk(&unit(vec![decl]), &Config::default());
    assert!(diags.is_empty());
    assert_eq!(rec.len(), 1);
    match &rec[0] {
        Recorded::Symbol(Symbol::variable(v), _) => {
            assert_eq!(v.identifier.as_deref(), Some("x"));
            assert_eq!(v.modifiers.len(), 1);
            assert!(matches!(v.modifiers[0], argon::frontend::c::sema::Modifier::storage(Storage::static_)));
            assert!(matches!(*v.cType.decl, TypeDecl::named(NamedType::primitive(PrimitiveType::int_), _)));
            assert!(v.attachedExpression.is_none());
        },
        _ => panic!("expected a variable"),
    }
}

#[test]
fn function_declaration_with_parameters() {
    // void f(const char *s, ...);
    let param = node("parameter_declaration", "const char *s", vec![
        (None, leaf("type_qualifier", "const")),
        (Some("type"), leaf("primitive_type", "char")),
        (Some("declarator"), node("pointer_declarator", "*s", vec![
            (None, token("*")),
            (Some("declarator"), leaf("identifier", "s")),
        ])),
    ]);
    let list = node("parameter_list", "(const char *s, ...)", vec![
        (None, token("(")),
        (None, param),
        (None, token(",")),
        (None, leaf("variadic_parameter", "...")),
        (None, token(")")),
    ]);
    let decl = node("declaration", "void f(const char *s, ...);", vec![
        (Some("type"), leaf("primitive_type", "void")),
        (Some("declarator"), node("function_declarator", "f(const char *s, ...)", vec![
            (Some("declarator"), leaf("identifier", "f")),
            (Some("parameters"), list),
        ])),
        (None, token(";")),
    ]);
    let (rec, diags) = walk(&unit(vec![decl]), &Config::default());
    assert!(diags.is_empty());
    assert_eq!(rec.len(), 1);
    match &rec[0] {
        Recorded::Symbol(Symbol::function(f), _) => {
            assert_eq!(f.name.as_deref(), Some("f"));
            assert!(matches!(*f.returnType.decl, TypeDecl::named(NamedType::primitive(PrimitiveType::void), _)));
            // Only parameter declarations are read: the variadic parameter is left out.
            assert_eq!(f.parameters.len(), 1);
            match &f.parameters[0] {
                Parameter::regular(p) => {
                    assert_eq!(p.identifier.as_deref(), Some("s"));
                    match &*p.cType.decl {
                        TypeDecl::pointer(ptr) => {
                            assert!(matches!(*ptr.pointeeType.decl, TypeDecl::named(NamedType::primitive(PrimitiveType::char), _)));
                            assert!(matches!(ptr.pointeeType.qualifiers[..], [TypeQualifier::const_]));
                        },
                        _ => panic!("expected a pointer"),
                    }
                },
                _ => panic!("expected a regular parameter"),
            }
        },
        _ => panic!("expected a function"),
    }
}

#[test]
fn initializer_and_sized_type() {
    // unsigned long n = 3, m;
    let decl = node("declaration", "unsigned long n = 3, m;", vec![
        (Some("type"), node("sized_type_specifier", "unsigned long", vec![(None, token("unsigned")), (None, token("long"))])),
        (Some("declarator"), node("init_declarator", "n = 3", vec![
            (Some("declarator"), leaf("identifier", "n")),
            (None, token("=")),
            (Some("value"), leaf("number_literal", "3")),
        ])),
        (None, token(",")),
        (Some("declarator"), leaf("identifier", "m")),
        (None, token(";")),
    ]);
    let (rec, diags) = walk(&unit(vec![decl]), &Config::default());
    assert!(diags.is_empty());
    assert_eq!(rec.len(), 2);
    for (i, (name, value)) in [("n", Some("3")), ("m", None)].iter().enumerate() {
        match &rec[i] {
            Recorded::Symbol(Symbol::variable(v), _) => {
                assert_eq!(v.identifier.as_deref(), Some(*name));
                match &*v.cType.decl {
                    TypeDecl::named(NamedType::primitive(PrimitiveType::int_), mods) => {
                        assert!(matches!(mods[..], [SizeModifier::unsigned, SizeModifier::long]));
                    },
                    _ => panic!("expected a sized int"),
                }
                match (&v.attachedExpression, value) {
                    (Some(AttachedExpression::value(e)), Some(x)) => assert_eq!(e, x),
                    (None, None) => {},
                    _ => panic!("unexpected initializer"),
                }
            },
            _ => panic!("expected a variable"),
        }
    }
}

#[test]
fn typedef_of_struct_with_members() {
    // typedef struct point { int x; } point_t;
    let field = node("field_declaration", "int x;", vec![
        (Some("type"), leaf("primitive_type", "int")),
        (Some("declarator"), leaf("field_identifier", "x")),
        (None, token(";")),
    ]);
    let body = node("field_declaration_list", "{ int x; }", vec![(None, token("{")), (None, field), (None, token("}"))]);
    let spec = node("struct_specifier", "struct point { int x; }", vec![
        (None, token("struct")),
        (Some("name"), leaf("type_identifier", "point")),
        (Some("body"), body),
    ]);
    let def = node("type_definition", "typedef struct point { int x; } point_t;", vec![
        (None, token("typedef")),
        (Some("type"), spec),
        (Some("declarator"), leaf("type_identifier", "point_t")),
        (None, token(";")),
    ]);
    let (rec, diags) = walk(&unit(vec![def]), &Config::default());
    assert!(diags.is_empty());
    assert_eq!(rec.len(), 1);
    match &rec[0] {
        Recorded::Symbol(Symbol::typeDefinition(t), _) => {
            assert_eq!(t.name, "point_t");
            match &*t.originalType.decl {
                TypeDecl::structure(c) => {
                    assert_eq!(c.name.as_deref(), Some("point"));
                    assert_eq!(c.members.len(), 1);
                    assert_eq!(c.members[0].identifier.as_deref(), Some("x"));
                },
                _ => panic!("expected a struct"),
            }
        },
        _ => panic!("expected a type definition"),
    }
}

#[test]
fn includes_macros_and_comments() {
    let system = node("preproc_include", "#include <stdio.h>", vec![
        (None, token("#include")),
        (Some("path"), leaf("system_lib_string", "<stdio.h>")),
    ]);
    let local = node("preproc_include", "#include \"a.h\"", vec![
        (None, token("#include")),
        (Some("path"), node("string_literal", "\"a.h\"", vec![(None, token("\"")), (None, leaf("string_content", "a.h")), (None, token("\""))])),
    ]);
    let guard = node("preproc_def", "#define A_H", vec![(None, token("#define")), (Some("name"), leaf("identifier", "A_H"))]);
    let max = node("preproc_function_def", "#define MAX(a, b) b", vec![
        (None, token("#define")),
        (Some("name"), leaf("identifier", "MAX")),
        (Some("parameters"), node("preproc_params", "(a, b)", vec![
            (None, token("(")), (None, leaf("identifier", "a")), (None, token(",")), (None, leaf("identifier", "b")), (None, token(")")),
        ])),
        (Some("value"), leaf("preproc_arg", "b")),
    ]);
    let doc = leaf("comment:doxygen", "/** docs */");
    let (rec, diags) = walk(&unit(vec![system, local, guard, max, doc]), &Config::default());
    assert_eq!(rec.len(), 4);
    assert!(matches!(&rec[0], Recorded::Include(IncludedHeader::system(p)) if p == "stdio.h"));
    assert!(matches!(&rec[1], Recorded::Include(IncludedHeader::local(p)) if p == "a.h"));
    match &rec[2] {
        Recorded::Symbol(Symbol::macroDefintion(m), _) => {
            assert_eq!(m.name, "MAX");
            assert_eq!(m.parameters.len(), 2);
            assert_eq!(m.value.as_deref(), Some("b"));
        },
        _ => panic!("expected a macro"),
    }
    assert!(matches!(&rec[3], Recorded::Comment(t, s, _) if t == "/** docs */" && s == "doxygen"));
    // The tokens of the parameter list are reported as unknown children.
    assert_eq!(diags.len(), 3);
    assert!(diags.iter().all(|d| matches!(&d.message, ReportMessage::UnknownChildNode(_, _))));
}

#[test]
fn ifdef_follows_the_defines() {
    let inner = node("declaration", "int y;", vec![
        (Some("type"), leaf("primitive_type", "int")),
        (Some("declarator"), leaf("identifier", "y")),
    ]);
    let ifdef = |directive: &str, name: &str| node("preproc_ifdef", "", vec![
        (None, token(directive)),
        (Some("name"), leaf("identifier", name)),
        (None, inner_clone(&inner)),
        (None, token("#endif")),
    ]);
    // DOXYGEN is defined by default: the content is read as a scope, whose tokens are reported.
    let (rec, diags) = walk(&unit(vec![ifdef("#ifdef", "DOXYGEN")]), &Config::default());
    assert_eq!(rec.len(), 1);
    assert!(matches!(&rec[0], Recorded::Symbol(Symbol::variable(v), _) if v.identifier.as_deref() == Some("y")));
    assert_eq!(diags.len(), 2);
    assert!(matches!(&diags[0].message, ReportMessage::ScopeChildIngored(k) if k == "#ifdef"));
    assert!(matches!(&diags[1].message, ReportMessage::ScopeChildIngored(k) if k == "#endif"));
    // An undefined name leaves the content out, and says so.
    let (rec, diags) = walk(&unit(vec![ifdef("#ifdef", "OTHER")]), &Config::default());
    assert_eq!(rec.len(), 0);
    assert_eq!(diags.len(), 1);
    assert!(matches!(&diags[0].message, ReportMessage::UnsatisfiedPreprocessorCondition(d, n) if d == "#ifdef" && n == "OTHER"));
    // `#ifndef` turns the condition round.
    let (rec, diags) = walk(&unit(vec![ifdef("#ifndef", "OTHER")]), &Config::default());
    assert_eq!(rec.len(), 1);
    assert!(!diags.iter().any(|d| matches!(&d.message, ReportMessage::UnsatisfiedPreprocessorCondition(_, _))));
}

fn inner_clone(n: &SyntaxNode) -> SyntaxNode {
    SyntaxNode {
        kind: n.kind.clone(),
        named: n.named,
        text: n.text.clone(),
        range: n.range,
        children: n.children.iter().map(|(f, c)| (f.clone(), inner_clone(c))).collect(),
    }
}

#[test]
fn declaration_without_type_is_reported() {
    let decl = node("declaration", "x;", vec![(Some("declarator"), leaf("identifier", "x")), (None, token(";"))]);
    let (rec, diags) = walk(&unit(vec![decl]), &Config::default());
    assert!(rec.is_empty());
    assert_eq!(diags.len(), 1);
    match &diags[0].message {
        ReportMessage::SemGenFailed(kind, e) => {
            assert_eq!(kind, "declaration");
            assert!(matches!(&e.message, ReportMessage::DeclMissingType(k) if k == "declaration"));
        },
        _ => panic!("expected a failure"),
    }
    assert!(diags[0].location.is_none());
}

#[test]
fn unknown_declarator_is_reported_with_its_location() {
    let decl = node("declaration", "int @;", vec![
        (Some("type"), leaf("primitive_type", "int")),
        (Some("declarator"), leaf("mystery_declarator", "@")),
    ]);
    let (rec, diags) = walk(&unit(vec![decl]), &Config::default());
    assert!(rec.is_empty());
    assert_eq!(diags.len(), 1);
    assert!(matches!(&diags[0].message, ReportMessage::SemGenFailed(k, e)
        if k == "mystery_declarator" && matches!(&e.message, ReportMessage::UnknownDeclarator(d) if d == "mystery_declarator")));
    assert_eq!(diags[0].location, Some(range(0)));
}

#[test]
fn comment_styles() {
    assert_eq!(comment_style("comment:doxygen"), Some("doxygen"));
    assert_eq!(comment_style("comment"), None);
    assert_eq!(comment_style("commentary"), None);
}

#[test]
fn c_sources_are_decoded_and_parsed() {
    let tree = parse_source(Encoding::UTF8, b"int f(void);").expect("parsed");
    assert_eq!(tree.kind, "translation_unit");
    assert_eq!(tree.text, "int f(void);");
    assert_eq!(tree.children.len(), 1);
    assert_eq!(tree.children[0].1.kind, "declaration");
    let utf16: Vec<u8> = "int x;".encode_utf16().flat_map(|u| u.to_le_bytes()).collect();
    let tree = parse_source(Encoding::UTF16(Endianness::LittleEndian), &utf16).expect("parsed");
    assert_eq!(tree.text, "int x;");
    assert!(matches!(parse_source(Encoding::UTF8, &[0xff, 0xfe, 0x00]), Err(SourceError::Undecodable)));
}

#[test]
fn walker_reads_a_parsed_declaration() {
    let tree = parse_source(Encoding::UTF8, b"int answer(void);").expect("parsed");
    let config = Config::default();
    let walker = ASTWalker::new(&config);
    let mut records = Vec::new();
    let mut reports: Vec<Report> = Vec::new();
    walker.gen_sema(&tree, &mut records, &mut reports);
    assert!(records.iter().any(|r| matches!(r, Recorded::Symbol(Symbol::function(_), _))));
}
