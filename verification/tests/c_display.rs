use argon::compiler::diagnostics::EditorLocation;
use argon::frontend::c::display::fmt_separated_list;
use argon::frontend::c::walker::Recorded;
use argon::frontend::c::CFrontend;
use argon::frontend::SymbolCommentIngestingFrontend;
use argon::ir;
use argon::frontend::c::sema::{
    AttachedExpression, CType, Container, Enum, EnumCase, Function, IncludedHeader, MacroDefinition, Modifier,
    NamedType, Parameter, Pointer, PointerQualifier, PrimitiveType, SizeModifier, Storage, Symbol,
    TypeDecl, TypeQualifier, Variable,
};

fn int_type() -> CType {
    CType {
        decl: Box::new(TypeDecl::named(NamedType::primitive(PrimitiveType::int_), vec![])),
        qualifiers: vec![],
    }
}

fn variable(name: Option<&str>, c_type: CType) -> Variable {
    Variable {
        modifiers: vec![],
        qualifiers: vec![],
        cType: c_type,
        identifier: name.map(|s| s.to_string()),
        attachedExpression: None,
    }
}

#[test]
fn separated_list_between_prefix_and_suffix() {
    let items = vec!["a".to_string(), "b".to_string(), "c".to_string()];
    assert_eq!(fmt_separated_list(&items, ", ", "(", ")"), "(a, b, c)");
    assert_eq!(fmt_separated_list(&vec![], ", ", "(", ")"), "");
}

#[test]
fn plain_variable() {
    let v = variable(Some("x"), int_type());
    assert_eq!(v.to_string(), "var x: int");
}

#[test]
fn qualified_variable_with_bit_width() {
    let mut v = variable(None, CType {
        decl: Box::new(TypeDecl::named(
            NamedType::primitive(PrimitiveType::int_),
            vec![SizeModifier::unsigned],
        )),
        qualifiers: vec![TypeQualifier::const_],
    });
    v.modifiers = vec![Modifier::storage(Storage::static_)];
    v.attachedExpression = Some(AttachedExpression::bitWidth("3".to_string()));
    assert_eq!(v.to_string(), "static var _: const unsigned int : (3 bits)");
}

#[test]
fn function_with_variadic_parameters() {
    let f = Function {
        modifiers: vec![],
        functionQualifiers: vec![],
        declQualifiers: vec![],
        returnType: CType {
            decl: Box::new(TypeDecl::pointer(Pointer {
                msSpecificModifiers: vec![],
                qualifiers: vec![PointerQualifier::restrict],
                pointeeType: CType {
                    decl: Box::new(TypeDecl::named(NamedType::custom("FILE".to_string()), vec![])),
                    qualifiers: vec![],
                },
            })),
            qualifiers: vec![],
        },
        msSpecifcModifiers: vec![],
        parameters: vec![
            Parameter::regular(variable(Some("fmt"), int_type())),
            Parameter::variadic(None),
        ],
        inlineAssembly: None,
        name: Some("open".to_string()),
    };
    assert_eq!(f.to_string(), "open(var fmt: int, ...) -> restrict Pointer<FILE>");
    assert_eq!(
        Symbol::function(f).to_string(),
        "open(var fmt: int, ...) -> restrict Pointer<FILE>"
    );
}

#[test]
fn structure_and_enumeration() {
    let s = Symbol::structure(Container {
        name: Some("point".to_string()),
        attributes: vec![],
        msSpecificModifiers: vec![],
        members: vec![variable(Some("x"), int_type()), variable(Some("y"), int_type())],
    });
    assert_eq!(s.to_string(), "struct point { var x: int; var y: int }");
    let e = Enum {
        name: None,
        attributes: vec![],
        underlyingType: None,
        cases: vec![
            EnumCase { name: "A".to_string(), value: Some("1".to_string()) },
            EnumCase { name: "B".to_string(), value: None },
        ],
    };
    assert_eq!(e.to_string(), "union <anon> { A = 1; B }");
}

#[test]
fn macro_definitions() {
    let with_parameters = MacroDefinition {
        name: "MAX".to_string(),
        parameters: vec![
            Parameter::regular("a".to_string()),
            Parameter::variadic(Some("rest".to_string())),
        ],
        value: Some("a".to_string()),
    };
    assert_eq!(with_parameters.to_string(), "#define MAX(a, rest...) a");
    let without = MacroDefinition { name: "ON".to_string(), parameters: vec![], value: Some("1".to_string()) };
    assert_eq!(without.to_string(), "#define ON");
}

struct Collector {
    symbols: Vec<String>,
    comments: Vec<(String, String)>,
}

impl SymbolCommentIngestingFrontend for Collector {
    fn enter_symbol_scope(&mut self) {}

    fn leave_symbol_scope(&mut self) {}

    fn record_comment<L: EditorLocation>(&mut self, text: &str, prefix: &str, _location: &L) {
        self.comments.push((text.to_string(), prefix.to_string()));
    }

    fn record_symbol<L: EditorLocation>(&mut self, symbol: ir::entry_graph::Symbol, _location: &L) {
        match symbol {
            ir::entry_graph::Symbol::c(s) => self.symbols.push(s.to_string()),
            _ => {}
        }
    }
}

fn range() -> tree_sitter::Range {
    tree_sitter::Range {
        start_byte: 0,
        end_byte: 1,
        start_point: tree_sitter::Point { row: 0, column: 0 },
        end_point: tree_sitter::Point { row: 0, column: 1 },
    }
}

#[test]
fn frontend_takes_symbols_and_comments_in_order() {
    let mut f = CFrontend(Collector { symbols: vec![], comments: vec![] });
    f.ingest(vec![
        Recorded::Comment("/// first".to_string(), "doc".to_string(), range()),
        Recorded::Include(IncludedHeader::system("stdio.h".to_string())),
        Recorded::Symbol(Symbol::variable(variable(Some("x"), int_type())), range()),
        Recorded::EnumerationCase(EnumCase { name: "A".to_string(), value: None }, range()),
        Recorded::Comment("/// second".to_string(), "doc".to_string(), range()),
    ]);
    assert_eq!(f.0.symbols, vec!["var x: int".to_string()]);
    assert_eq!(
        f.0.comments,
        vec![("/// first".to_string(), "doc".to_string()), ("/// second".to_string(), "doc".to_string())]
    );
}
