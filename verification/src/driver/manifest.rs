use vstd::prelude::*;
use std::path::PathBuf;
use crate::backend;
use crate::compiler::diagnostics::{Diagnostic, EditorLocation, Severity};
use crate::compiler::strings::{self, concat3, decimal, decimal_string, str_eq, Encoding};
use crate::ir;
use crate::ir::rich_text::{CommonMark, RichTextRepresentation};
use crate::frontend::doxygen::predefined::{builtins, spec_builtin_names};

verus! {

/// The manifest versions this library reads, by major, minor and patch number.
pub fn supported_manifest_versions() -> (r: Vec<(u64, u64, u64)>)
    ensures
        r@ == seq![(1u64, 0u64, 0u64)],
{
    vec![(1, 0, 0)]
}

/// Whether a manifest of that major version can be read.
pub fn is_supported_manifest_major(major: u64) -> (r: bool)
    ensures
        r == (major == 1),
{
    major == 1
}

/// How entries inline their members.
#[derive(Clone, Copy, Debug, PartialEq, Eq, Structural)]
pub struct DocInliningBehavior {
    pub ordered: bool,
}

impl From<DocInliningBehavior> for ir::InliningBehavior {
    fn from(b: DocInliningBehavior) -> (r: Self) {
        ir::InliningBehavior { ordered: b.ordered }
    }
}

impl vstd::std_specs::convert::FromSpecImpl<DocInliningBehavior> for ir::InliningBehavior {
    open spec fn obeys_from_spec() -> bool {
        true
    }

    open spec fn from_spec(b: DocInliningBehavior) -> Self {
        ir::InliningBehavior { ordered: b.ordered }
    }
}

/// A role that entries can have.
#[derive(Clone, Debug)]
pub struct DocRole {
    pub id: String,
    pub label: String,
    pub inlining_behavior: Option<DocInliningBehavior>,
    pub associated_attributes: Vec<String>,
}

/// The inlining behaviour of the model, as the entry graph holds it.
pub open spec fn ir_inlining(b: Option<DocInliningBehavior>) -> Option<ir::InliningBehavior> {
    match b {
        Some(b) => Some(ir::InliningBehavior { ordered: b.ordered }),
        None => None,
    }
}

impl From<DocRole> for ir::Role {
    fn from(r: DocRole) -> (out: Self) {
        ir::Role {
            label: r.label,
            inlining_behavior: match r.inlining_behavior {
                Some(b) => Some(ir::InliningBehavior { ordered: b.ordered }),
                None => None,
            },
        }
    }
}

impl vstd::std_specs::convert::FromSpecImpl<DocRole> for ir::Role {
    open spec fn obeys_from_spec() -> bool {
        true
    }

    open spec fn from_spec(r: DocRole) -> Self {
        ir::Role { label: r.label, inlining_behavior: ir_inlining(r.inlining_behavior) }
    }
}

/// The type of an attribute's values.
#[derive(Clone, Copy, Debug, PartialEq, Eq, Structural)]
pub enum DocValueType {
    RichText,
    String,
    Integer,
    UnsignedInteger,
    Link,
    URI,
    Boolean,
    Version,
    Reference,
}

impl Default for DocValueType {
    fn default() -> (r: Self)
        ensures
            r == DocValueType::String,
    {
        DocValueType::String
    }
}

/// The value type of the entry graph that a manifest value type stands for.
pub open spec fn spec_ir_value_type(t: DocValueType) -> ir::ValueType {
    match t {
        DocValueType::String => ir::ValueType::String,
        DocValueType::Integer => ir::ValueType::SignedInteger,
        DocValueType::UnsignedInteger => ir::ValueType::UnsignedInteger,
        DocValueType::Link => ir::ValueType::Link,
        DocValueType::Boolean => ir::ValueType::Boolean,
        DocValueType::RichText => ir::ValueType::RichText,
        DocValueType::URI => ir::ValueType::URI,
        DocValueType::Version => ir::ValueType::Version,
        DocValueType::Reference => ir::ValueType::Void,
    }
}

impl DocValueType {
    /// The value type of the entry graph that this type stands for.
    pub fn to_ir(self) -> (r: ir::ValueType)
        ensures
            r == spec_ir_value_type(self),
    {
        match self {
            DocValueType::String => ir::ValueType::String,
            DocValueType::Integer => ir::ValueType::SignedInteger,
            DocValueType::UnsignedInteger => ir::ValueType::UnsignedInteger,
            DocValueType::Link => ir::ValueType::Link,
            DocValueType::Boolean => ir::ValueType::Boolean,
            DocValueType::RichText => ir::ValueType::RichText,
            DocValueType::URI => ir::ValueType::URI,
            DocValueType::Version => ir::ValueType::Version,
            DocValueType::Reference => ir::ValueType::Void,
        }
    }
}

/// Where an attribute shows.
#[derive(Clone, Copy, Debug, PartialEq, Eq, Structural)]
pub enum DocAttributeAppearance {
    Modifier,
    Annotation,
    Caption,
    Admonition,
    Hidden,
}

impl Default for DocAttributeAppearance {
    fn default() -> (r: Self)
        ensures
            r == DocAttributeAppearance::Annotation,
    {
        DocAttributeAppearance::Annotation
    }
}

/// The appearance of the entry graph that a manifest appearance stands for.
pub open spec fn spec_ir_appearance(a: DocAttributeAppearance) -> ir::AttributeAppearance {
    match a {
        DocAttributeAppearance::Modifier => ir::AttributeAppearance::Modifier,
        DocAttributeAppearance::Annotation => ir::AttributeAppearance::Annotation,
        DocAttributeAppearance::Caption => ir::AttributeAppearance::Caption,
        DocAttributeAppearance::Admonition => ir::AttributeAppearance::Admonition,
        DocAttributeAppearance::Hidden => ir::AttributeAppearance::Hidden,
    }
}

impl DocAttributeAppearance {
    /// The appearance of the entry graph that this appearance stands for.
    pub fn to_ir(self) -> (r: ir::AttributeAppearance)
        ensures
            r == spec_ir_appearance(self),
    {
        match self {
            DocAttributeAppearance::Modifier => ir::AttributeAppearance::Modifier,
            DocAttributeAppearance::Annotation => ir::AttributeAppearance::Annotation,
            DocAttributeAppearance::Caption => ir::AttributeAppearance::Caption,
            DocAttributeAppearance::Admonition => ir::AttributeAppearance::Admonition,
            DocAttributeAppearance::Hidden => ir::AttributeAppearance::Hidden,
        }
    }
}

/// An attribute that entries can have.
#[derive(Clone, Debug)]
pub struct DocAttribute {
    pub id: String,
    pub label: String,
    pub value_type: DocValueType,
    pub repeatable: bool,
    pub appearance: DocAttributeAppearance,
    pub description: Option<String>,
}

impl DocAttribute {
    /// The attribute as the entry graph holds it; its description becomes plain rich text.
    pub fn into_ir(self) -> (r: ir::Attribute)
        ensures
            r.label@ == self.label@,
            r.value_type == spec_ir_value_type(self.value_type),
            r.repeatable == self.repeatable,
            r.appearance == spec_ir_appearance(self.appearance),
            r.description is Some <==> self.description is Some,
            self.description matches Some(d) ==> (r.description matches Some(t)
                && t.dialect is None && t.events().len() == 1
                && (t.events()[0] matches ir::rich_text::MarkupEvent::Text(s) && s@ == d@)),
    {
        let description = match &self.description {
            Some(d) => Some(ir::RichText::from_str(d.as_str(), RichTextRepresentation::CommonMark)),
            None => None,
        };
        ir::Attribute {
            label: self.label,
            value_type: self.value_type.to_ir(),
            repeatable: self.repeatable,
            appearance: self.appearance.to_ir(),
            description,
        }
    }
}

/// The attributes and roles of a manifest.
#[derive(Clone, Debug)]
pub struct DocModel {
    pub attributes: Vec<DocAttribute>,
    pub roles: Vec<DocRole>,
}

impl Default for DocModel {
    fn default() -> (r: Self)
        ensures
            r.attributes@.len() == 0,
            r.roles@.len() == 0,
    {
        DocModel { attributes: Vec::new(), roles: Vec::new() }
    }
}

/// Settings of the C language.
#[derive(Clone, Debug)]
pub struct DocCSettings {
    pub decay_arrays: bool,
    pub transform_fptrs: bool,
    pub ignore_header_defines: bool,
    pub defines: Vec<(String, isize)>,
}

impl Default for DocCSettings {
    fn default() -> (r: Self)
        ensures
            !r.decay_arrays,
            r.transform_fptrs,
            r.ignore_header_defines,
            r.defines@.len() == 0,
    {
        DocCSettings { decay_arrays: false, transform_fptrs: true, ignore_header_defines: true, defines: Vec::new() }
    }
}

/// The programming language of a target.
#[derive(Clone, Debug)]
pub enum DocLanguage {
    C { settings: DocCSettings },
}

impl DocLanguage {
    pub fn to_ir(&self) -> (r: ir::Language)
        ensures
            r == ir::Language::C,
    {
        match self {
            DocLanguage::C { .. } => ir::Language::C,
        }
    }
}

/// How much text a parameter of a directive takes.
#[derive(Clone, Copy, Debug, PartialEq, Eq, Structural)]
pub enum DocDoxygenParameterLength {
    Word,
    Line,
    Paragraph,
}

impl Default for DocDoxygenParameterLength {
    fn default() -> (r: Self)
        ensures
            r == DocDoxygenParameterLength::Word,
    {
        DocDoxygenParameterLength::Word
    }
}

/// A parameter of a custom directive.
#[derive(Clone, Debug)]
pub struct DocDoxygenParameter {
    pub name: String,
    pub length: DocDoxygenParameterLength,
}

/// A custom Doxygen directive.
#[derive(Clone, Debug)]
pub struct DocDoxygenDirective {
    pub name: String,
    pub parameters: Vec<DocDoxygenParameter>,
    pub script: DocScriptSpecification,
}

/// Settings of the Doxygen dialect.
#[derive(Clone, Debug)]
pub struct DocDoxygenSettings {
    pub directives: Vec<DocDoxygenDirective>,
}

impl Default for DocDoxygenSettings {
    fn default() -> (r: Self)
        ensures
            r.directives@.len() == 0,
    {
        DocDoxygenSettings { directives: Vec::new() }
    }
}

/// The documentation dialect of a target.
#[derive(Clone, Debug)]
pub enum DocDialect {
    Doxygen { settings: DocDoxygenSettings },
}

impl DocDialect {
    pub fn to_ir(&self) -> (r: ir::Dialect)
        ensures
            r == ir::Dialect::Doxygen,
    {
        match self {
            DocDialect::Doxygen { .. } => ir::Dialect::Doxygen,
        }
    }

    /// The dialect's name.
    pub fn as_str(&self) -> (r: &'static str)
        ensures
            r@ == "doxygen"@,
    {
        "doxygen"
    }
}

/// A set of source files documented in one dialect.
#[derive(Clone, Debug)]
pub struct DocTarget {
    pub name: Option<String>,
    pub files: Vec<String>,
    pub encoding: Encoding,
    pub language: Option<DocLanguage>,
    pub dialect: DocDialect,
}

/// Settings of the HTML output.
#[derive(Clone, Debug)]
pub struct DocHTMLTheme {}

impl Default for DocHTMLTheme {
    fn default() -> (r: Self) {
        DocHTMLTheme {}
    }
}

/// Settings of the HTML output.
#[derive(Clone, Debug)]
pub struct DocHTMLSettings {
    pub always_index_html: bool,
    pub beautify_paths: bool,
    pub template_path: Option<PathBuf>,
    pub output_path: String,
    pub theme: DocHTMLTheme,
}

impl DocHTMLSettings {
    /// Where HTML goes unless the manifest says otherwise.
    pub fn default_output_path() -> (r: String)
        ensures
            r@ == ".build/doc/html"@,
    {
        String::from_str(".build/doc/html")
    }
}

impl Default for DocHTMLSettings {
    fn default() -> (r: Self)
        ensures
            !r.always_index_html,
            r.beautify_paths,
            r.template_path is None,
            r.output_path@ == ".build/doc/html"@,
    {
        DocHTMLSettings {
            always_index_html: false,
            beautify_paths: true,
            template_path: None,
            output_path: DocHTMLSettings::default_output_path(),
            theme: DocHTMLTheme {},
        }
    }
}

/// The output format of a product.
#[derive(Clone, Debug)]
pub enum DocProductFormat {
    MostlyStaticButPrettyHTML { settings: DocHTMLSettings },
}

impl DocProductFormat {
    /// The format's name.
    pub fn as_str(&self) -> (r: &'static str)
        ensures
            r@ == "html"@,
    {
        "html"
    }
}

/// An output built from targets.
#[derive(Clone, Debug)]
pub struct DocProduct {
    pub name: String,
    pub targets: Option<Vec<String>>,
    pub format: DocProductFormat,
}

/// The variable a string of an action parameter names: the text after a leading `$`; a string
/// without one is a value.
pub fn parameter_variable(s: &str) -> (r: Option<&str>)
    ensures
        s@.len() > 0 && s@[0] == '$' ==> (r matches Some(n) && n@ == s@.drop_first()),
        !(s@.len() > 0 && s@[0] == '$') ==> r is None,
{
    let n = s.unicode_len();
    if n > 0 && s.get_char(0) == '$' {
        let name = s.substring_char(1, n);
        assert(name@ =~= s@.drop_first());
        Some(name)
    } else {
        None
    }
}

/// Rich text in a manifest: the parsed markup and the text it was read from.
#[derive(Clone, Debug)]
pub struct RichText {
    pub inner: CommonMark,
    pub source: String,
}

/// The CommonMark extensions that rich text in a manifest is read with: tables (bit 1),
/// strikethrough (3), smart punctuation (5), math (10), GitHub-style block quotes (11),
/// definition lists (12), superscript (13) and subscript (14).
pub const MANIFEST_CMARK_OPTIONS: u32 = (1u32 << 1) | (1u32 << 3) | (1u32 << 5) | (1u32 << 10) | (1u32 << 11) | (1u32 << 12) | (1u32 << 13) | (1u32 << 14);

/// Rich text of a manifest read from its text: the CommonMark events of the text with the
/// manifest's extensions, those the library models, in order, and the text itself.
pub fn rich_text_from_markdown(text: &str) -> (r: RichText)
    ensures
        r.source@ == text@,
        r.inner.0@ == crate::ir::cmark::present_events(crate::ir::cmark::cmark_events(text@, MANIFEST_CMARK_OPTIONS)),
{
    let items = crate::ir::cmark::parse_cmark(text, MANIFEST_CMARK_OPTIONS);
    let events = crate::ir::cmark::take_present_events(items);
    RichText { inner: CommonMark(events), source: String::from_str(text) }
}

/// The built-in actions of the Doxygen dialect.
#[derive(Clone, Copy, Debug, PartialEq, Eq, Structural)]
pub enum DocDoxygenBuiltinAction {
    FileInfo,
    LineInfo,
    File,
}

/// The name a manifest gives a built-in action.
pub open spec fn spec_builtin_action_name(b: DocDoxygenBuiltinAction) -> Seq<char> {
    match b {
        DocDoxygenBuiltinAction::FileInfo => "builtin.doxygen.fileinfo"@,
        DocDoxygenBuiltinAction::LineInfo => "builtin.doxygen.lineinfo"@,
        DocDoxygenBuiltinAction::File => "builtin.doxygen.file"@,
    }
}

/// The default of a boolean field that defaults to true.
pub fn _true() -> (r: bool)
    ensures
        r,
{
    true
}

/// A parameter of an action: the name of a variable (written `$name`) or a constant.
#[derive(Clone, Debug)]
pub enum DocActionParameter<T> {
    Variable(String),
    Constant(T),
}

/// The variable a parameter names, if it names one.
pub open spec fn spec_param_variable<T>(p: DocActionParameter<T>) -> Seq<Seq<char>> {
    match p {
        DocActionParameter::Variable(name) => seq![name@],
        DocActionParameter::Constant(_) => seq![],
    }
}

impl<T> DocActionParameter<T> {
    /// The name of the variable, where the parameter is one.
    pub fn as_variable(&self) -> (r: Option<&str>)
        ensures
            match self {
                DocActionParameter::Variable(name) => r matches Some(s) && s@ == name@,
                DocActionParameter::Constant(_) => r is None,
            },
    {
        match self {
            DocActionParameter::Variable(name) => Some(name.as_str()),
            DocActionParameter::Constant(_) => None,
        }
    }
}

/// Values that may name a variable of an action: a parameter names one where it is a variable;
/// plain settings name none.
pub trait ExtractVar {
    spec fn named_variable(&self) -> Option<Seq<char>>;

    fn extract(&self) -> (r: Option<&str>)
        ensures
            match r {
                Some(s) => self.named_variable() == Some(s@),
                None => self.named_variable() is None,
            },
    ;
}

impl<T> ExtractVar for DocActionParameter<T> {
    open spec fn named_variable(&self) -> Option<Seq<char>> {
        match self {
            DocActionParameter::Variable(name) => Some(name@),
            DocActionParameter::Constant(_) => None,
        }
    }

    fn extract(&self) -> (r: Option<&str>) {
        self.as_variable()
    }
}

impl ExtractVar for bool {
    open spec fn named_variable(&self) -> Option<Seq<char>> {
        None
    }

    fn extract(&self) -> (r: Option<&str>) {
        None
    }
}

impl ExtractVar for crate::backend::Format {
    open spec fn named_variable(&self) -> Option<Seq<char>> {
        None
    }

    fn extract(&self) -> (r: Option<&str>) {
        None
    }
}

impl ExtractVar for DocDoxygenBuiltinAction {
    open spec fn named_variable(&self) -> Option<Seq<char>> {
        None
    }

    fn extract(&self) -> (r: Option<&str>) {
        None
    }
}

impl<T: ExtractVar> ExtractVar for Option<T> {
    open spec fn named_variable(&self) -> Option<Seq<char>> {
        match self {
            Some(v) => v.named_variable(),
            None => None,
        }
    }

    fn extract(&self) -> (r: Option<&str>) {
        match self {
            Some(v) => v.extract(),
            None => None,
        }
    }
}

/// Adds the variable a parameter names to a list of variables.
fn push_variable<'a, T>(out: &mut Vec<&'a str>, p: &'a DocActionParameter<T>)
    ensures
        final(out)@.map_values(|s: &str| s@) == old(out)@.map_values(|s: &str| s@) + spec_param_variable(*p),
{
    let ghost before = out@;
    match p.as_variable() {
        Some(v) => {
            out.push(v);
            assert(out@.map_values(|s: &str| s@) =~= before.map_values(|s: &str| s@) + spec_param_variable(*p));
        },
        None => {
            assert(out@.map_values(|s: &str| s@) =~= before.map_values(|s: &str| s@) + spec_param_variable(*p));
        },
    }
}

/// A value of an attribute, as a manifest writes it.
#[derive(Clone, Debug)]
pub enum DocValue {
    RichText(RichText),
    String(String),
    Link(url::Url, String),
    URI(url::Url),
    SignedInteger(isize),
    UnsignedInteger(usize),
    Boolean(bool),
    Version(semver::Version),
    Entry(String),
}

/// What a directive's script does, step by step.
#[derive(Clone, Debug)]
pub enum DocAction {
    CreateEntry {
        id: DocActionParameter<String>,
        title: DocActionParameter<String>,
        content: DocActionParameter<Option<RichText>>,
        continue_content: bool,
    },
    CreateMemberSection {
        title: DocActionParameter<String>,
        content: DocActionParameter<Option<RichText>>,
        continue_content: bool,
    },
    Teleport {
        entry_id: DocActionParameter<String>,
        content: DocActionParameter<Option<RichText>>,
        continue_content: bool,
    },
    AddMembership { entry_id: DocActionParameter<String> },
    SetAbstract { content: DocActionParameter<RichText> },
    AddAttribute { key: DocActionParameter<String>, value: DocActionParameter<DocValue> },
    SetRole { role: DocActionParameter<String> },
    SetRootEntry { a: bool },
    AddSymbol { raw: DocActionParameter<String>, language: DocActionParameter<ir::Language> },
    SetSymbolHeading { content: DocActionParameter<String> },
    SetSymbolHelp { content: DocActionParameter<RichText> },
    AssignSymbol { entry_id: DocActionParameter<String> },
    InsertAdmonition { contents: DocActionParameter<RichText>, kind: DocActionParameter<ir::AdmonitionKind> },
    InsertText { text: DocActionParameter<String> },
    Insert {
        format: Option<backend::Format>,
        content: DocActionParameter<Option<RichText>>,
        continue_content: bool,
    },
    InsertFile { format: Option<backend::Format>, file: DocActionParameter<PathBuf> },
    InsertReference { entry_id: DocActionParameter<String> },
    DoxygenBuiltin { builtin: DocDoxygenBuiltinAction },
}

/// The variables an action's parameters name, in the order of its fields.
pub open spec fn spec_action_variables(a: DocAction) -> Seq<Seq<char>> {
    match a {
        DocAction::CreateEntry { id, title, content, .. } =>
            spec_param_variable(id) + spec_param_variable(title) + spec_param_variable(content),
        DocAction::CreateMemberSection { title, content, .. } =>
            spec_param_variable(title) + spec_param_variable(content),
        DocAction::Teleport { entry_id, content, .. } =>
            spec_param_variable(entry_id) + spec_param_variable(content),
        DocAction::AddMembership { entry_id } => spec_param_variable(entry_id),
        DocAction::SetAbstract { content } => spec_param_variable(content),
        DocAction::AddAttribute { key, value } => spec_param_variable(key) + spec_param_variable(value),
        DocAction::SetRole { role } => spec_param_variable(role),
        DocAction::SetRootEntry { .. } => seq![],
        DocAction::AddSymbol { raw, language } => spec_param_variable(raw) + spec_param_variable(language),
        DocAction::SetSymbolHeading { content } => spec_param_variable(content),
        DocAction::SetSymbolHelp { content } => spec_param_variable(content),
        DocAction::AssignSymbol { entry_id } => spec_param_variable(entry_id),
        DocAction::InsertAdmonition { contents, kind } => spec_param_variable(contents) + spec_param_variable(kind),
        DocAction::InsertText { text } => spec_param_variable(text),
        DocAction::Insert { content, .. } => spec_param_variable(content),
        DocAction::InsertFile { file, .. } => spec_param_variable(file),
        DocAction::InsertReference { entry_id } => spec_param_variable(entry_id),
        DocAction::DoxygenBuiltin { .. } => seq![],
    }
}

/// The name a manifest gives an action.
pub open spec fn spec_action_id(a: DocAction) -> Seq<char> {
    match a {
        DocAction::CreateEntry { .. } => "entry"@,
        DocAction::CreateMemberSection { .. } => "section"@,
        DocAction::Teleport { .. } => "scope.teleport"@,
        DocAction::AddMembership { .. } => "entry.memberships.add"@,
        DocAction::SetAbstract { .. } => "entry.abstract.set"@,
        DocAction::AddAttribute { .. } => "entry.attributes.add"@,
        DocAction::SetRole { .. } => "entry.role.set"@,
        DocAction::SetRootEntry { .. } => "graph.root.set"@,
        DocAction::AddSymbol { .. } => "symbol"@,
        DocAction::SetSymbolHeading { .. } => "symbol.heading.set"@,
        DocAction::SetSymbolHelp { .. } => "symbol.help.set"@,
        DocAction::AssignSymbol { .. } => "symbol.attach"@,
        DocAction::InsertAdmonition { .. } => "markup.admonition"@,
        DocAction::InsertText { .. } => "markup.text"@,
        DocAction::Insert { .. } => "markup.block"@,
        DocAction::InsertFile { .. } => "markup.include"@,
        DocAction::InsertReference { .. } => "markup.link"@,
        DocAction::DoxygenBuiltin { builtin } => spec_builtin_action_name(builtin),
    }
}

impl DocAction {
    /// The variables the action's parameters name, in the order of its fields.
    pub fn variables(&self) -> (r: Vec<&str>)
        ensures
            r@.map_values(|s: &str| s@) == spec_action_variables(*self),
    {
        let mut out: Vec<&str> = Vec::new();
        proof {
            assert(out@.map_values(|s: &str| s@) =~= Seq::<Seq<char>>::empty());
        }
        match self {
            DocAction::CreateEntry { id, title, content, .. } => {
                push_variable(&mut out, id);
                push_variable(&mut out, title);
                push_variable(&mut out, content);
            },
            DocAction::CreateMemberSection { title, content, .. } => {
                push_variable(&mut out, title);
                push_variable(&mut out, content);
            },
            DocAction::Teleport { entry_id, content, .. } => {
                push_variable(&mut out, entry_id);
                push_variable(&mut out, content);
            },
            DocAction::AddMembership { entry_id } => push_variable(&mut out, entry_id),
            DocAction::SetAbstract { content } => push_variable(&mut out, content),
            DocAction::AddAttribute { key, value } => {
                push_variable(&mut out, key);
                push_variable(&mut out, value);
            },
            DocAction::SetRole { role } => push_variable(&mut out, role),
            DocAction::SetRootEntry { .. } => {},
            DocAction::AddSymbol { raw, language } => {
                push_variable(&mut out, raw);
                push_variable(&mut out, language);
            },
            DocAction::SetSymbolHeading { content } => push_variable(&mut out, content),
            DocAction::SetSymbolHelp { content } => push_variable(&mut out, content),
            DocAction::AssignSymbol { entry_id } => push_variable(&mut out, entry_id),
            DocAction::InsertAdmonition { contents, kind } => {
                push_variable(&mut out, contents);
                push_variable(&mut out, kind);
            },
            DocAction::InsertText { text } => push_variable(&mut out, text),
            DocAction::Insert { content, .. } => push_variable(&mut out, content),
            DocAction::InsertFile { file, .. } => push_variable(&mut out, file),
            DocAction::InsertReference { entry_id } => push_variable(&mut out, entry_id),
            DocAction::DoxygenBuiltin { .. } => {},
        }
        out
    }

    /// The name a manifest gives the action.
    pub fn id(&self) -> (r: &'static str)
        ensures
            r@ == spec_action_id(*self),
    {
        match self {
            DocAction::CreateEntry { .. } => "entry",
            DocAction::CreateMemberSection { .. } => "section",
            DocAction::Teleport { .. } => "scope.teleport",
            DocAction::AddMembership { .. } => "entry.memberships.add",
            DocAction::SetAbstract { .. } => "entry.abstract.set",
            DocAction::AddAttribute { .. } => "entry.attributes.add",
            DocAction::SetRole { .. } => "entry.role.set",
            DocAction::SetRootEntry { .. } => "graph.root.set",
            DocAction::AddSymbol { .. } => "symbol",
            DocAction::SetSymbolHeading { .. } => "symbol.heading.set",
            DocAction::SetSymbolHelp { .. } => "symbol.help.set",
            DocAction::AssignSymbol { .. } => "symbol.attach",
            DocAction::InsertAdmonition { .. } => "markup.admonition",
            DocAction::InsertText { .. } => "markup.text",
            DocAction::Insert { .. } => "markup.block",
            DocAction::InsertFile { .. } => "markup.include",
            DocAction::InsertReference { .. } => "markup.link",
            DocAction::DoxygenBuiltin { builtin } => match builtin {
                DocDoxygenBuiltinAction::FileInfo => "builtin.doxygen.fileinfo",
                DocDoxygenBuiltinAction::LineInfo => "builtin.doxygen.lineinfo",
                DocDoxygenBuiltinAction::File => "builtin.doxygen.file",
            },
        }
    }
}

/// The script of a directive: the name of a script of the manifest, or the actions themselves.
#[derive(Clone, Debug)]
pub enum DocScriptSpecification {
    Named(String),
    Anonymous(Vec<DocAction>),
}

/// A named script.
#[derive(Clone, Debug)]
pub struct DocScript {
    pub name: String,
    pub actions: Vec<DocAction>,
}

/// A documentation manifest.
#[derive(Clone, Debug)]
pub struct DocManifest {
    pub targets: Vec<DocTarget>,
    pub products: Vec<DocProduct>,
    pub model: DocModel,
    pub scripts: Vec<DocScript>,
}

/// A problem in a manifest.
#[derive(Clone, Debug)]
pub enum ManifestError {
    UnsupportedDialect(DocDialect, String),
    UnsupportedFormat(DocProductFormat, String),
    DanglingTargetReference(String, String),
    MissingTargetName(usize),
    DuplicateTargetName(String),
    DuplicateProductName(String),
    DuplicateScriptName(String),
    DuplicateAtributeID(String),
    DuplicateRoleID(String),
    UnknownAssociatedRoleAttribute(String, String),
    MissingTargetsInProduct(String),
    EmptyTargetList(String),
    EmptyFileList(String),
    ReservedDoxygenDirectiveName(String),
    InvalidDoxygenDirectiveName(String),
    DuplicateDoxygenDirectiveParameter(String),
    DoxygenWordParameterAfterLineOrParagraph(String),
    NonUniqueTrailingLineOrParagraphDoxygenDirectiveParameter(String),
    MissingScript(String),
    UndefinedArgumentReferenceInScript(String, String, String),
}

/// A problem in a manifest, by its kind and the text it names.
pub enum ManifestErrorView {
    UnsupportedDialect(Seq<char>, Seq<char>),
    UnsupportedFormat(Seq<char>, Seq<char>),
    DanglingTargetReference(Seq<char>, Seq<char>),
    MissingTargetName(nat),
    DuplicateTargetName(Seq<char>),
    DuplicateProductName(Seq<char>),
    DuplicateScriptName(Seq<char>),
    DuplicateAtributeID(Seq<char>),
    DuplicateRoleID(Seq<char>),
    UnknownAssociatedRoleAttribute(Seq<char>, Seq<char>),
    MissingTargetsInProduct(Seq<char>),
    EmptyTargetList(Seq<char>),
    EmptyFileList(Seq<char>),
    ReservedDoxygenDirectiveName(Seq<char>),
    InvalidDoxygenDirectiveName(Seq<char>),
    DuplicateDoxygenDirectiveParameter(Seq<char>),
    DoxygenWordParameterAfterLineOrParagraph(Seq<char>),
    NonUniqueTrailingLineOrParagraphDoxygenDirectiveParameter(Seq<char>),
    MissingScript(Seq<char>),
    UndefinedArgumentReferenceInScript(Seq<char>, Seq<char>, Seq<char>),
}

impl View for ManifestError {
    type V = ManifestErrorView;

    open spec fn view(&self) -> ManifestErrorView {
        match self {
            ManifestError::UnsupportedDialect(_, t) => ManifestErrorView::UnsupportedDialect("doxygen"@, t@),
            ManifestError::UnsupportedFormat(_, p) => ManifestErrorView::UnsupportedFormat("html"@, p@),
            ManifestError::DanglingTargetReference(a, b) => ManifestErrorView::DanglingTargetReference(a@, b@),
            ManifestError::MissingTargetName(ix) => ManifestErrorView::MissingTargetName(*ix as nat),
            ManifestError::DuplicateTargetName(a) => ManifestErrorView::DuplicateTargetName(a@),
            ManifestError::DuplicateProductName(a) => ManifestErrorView::DuplicateProductName(a@),
            ManifestError::DuplicateScriptName(a) => ManifestErrorView::DuplicateScriptName(a@),
            ManifestError::DuplicateAtributeID(a) => ManifestErrorView::DuplicateAtributeID(a@),
            ManifestError::DuplicateRoleID(a) => ManifestErrorView::DuplicateRoleID(a@),
            ManifestError::UnknownAssociatedRoleAttribute(a, b) => ManifestErrorView::UnknownAssociatedRoleAttribute(a@, b@),
            ManifestError::MissingTargetsInProduct(a) => ManifestErrorView::MissingTargetsInProduct(a@),
            ManifestError::EmptyTargetList(a) => ManifestErrorView::EmptyTargetList(a@),
            ManifestError::EmptyFileList(a) => ManifestErrorView::EmptyFileList(a@),
            ManifestError::ReservedDoxygenDirectiveName(a) => ManifestErrorView::ReservedDoxygenDirectiveName(a@),
            ManifestError::InvalidDoxygenDirectiveName(a) => ManifestErrorView::InvalidDoxygenDirectiveName(a@),
            ManifestError::DuplicateDoxygenDirectiveParameter(a) => ManifestErrorView::DuplicateDoxygenDirectiveParameter(a@),
            ManifestError::DoxygenWordParameterAfterLineOrParagraph(a) => ManifestErrorView::DoxygenWordParameterAfterLineOrParagraph(a@),
            ManifestError::NonUniqueTrailingLineOrParagraphDoxygenDirectiveParameter(a) =>
                ManifestErrorView::NonUniqueTrailingLineOrParagraphDoxygenDirectiveParameter(a@),
            ManifestError::MissingScript(a) => ManifestErrorView::MissingScript(a@),
            ManifestError::UndefinedArgumentReferenceInScript(a, b, c) => ManifestErrorView::UndefinedArgumentReferenceInScript(a@, b@, c@),
        }
    }
}

/// How grave a manifest problem is: an empty list of targets or files is a warning, the rest are
/// errors.
pub open spec fn spec_manifest_error_severity(e: ManifestErrorView) -> Severity {
    match e {
        ManifestErrorView::EmptyTargetList(_) | ManifestErrorView::EmptyFileList(_) => Severity::Warning,
        _ => Severity::Error,
    }
}

/// Whether none of the problems is an error.
pub open spec fn no_errors(diags: Seq<ManifestErrorView>) -> bool {
    forall|k: int| 0 <= k < diags.len() ==> spec_manifest_error_severity(#[trigger] diags[k]) != Severity::Error
}

/// The message of a manifest problem.
pub open spec fn spec_manifest_error_message(e: ManifestErrorView) -> Seq<char> {
    match e {
        ManifestErrorView::UnsupportedDialect(d, t) =>
            "The "@ + d + " dialect specified in target "@ + t + " is not supported"@,
        ManifestErrorView::UnsupportedFormat(f, p) =>
            "The "@ + f + " output format specified in product "@ + p + " is not supported"@,
        ManifestErrorView::DanglingTargetReference(t, p) =>
            "The target '"@ + t + "' reference in product '"@ + p + "' does not exist"@,
        ManifestErrorView::MissingTargetName(ix) =>
            "Target at index "@ + decimal(ix) + " must have a name because multiple target exists"@,
        ManifestErrorView::DuplicateTargetName(n) => "Duplicate targets with name '"@ + n + "'"@,
        ManifestErrorView::DuplicateProductName(n) => "Duplicate products with name '"@ + n + "'"@,
        ManifestErrorView::DuplicateScriptName(n) => "Duplicate script with name '"@ + n + "'"@,
        ManifestErrorView::DuplicateAtributeID(n) => "Duplicate attribute with identifier '"@ + n + "'"@,
        ManifestErrorView::DuplicateRoleID(n) => "Duplicate role with identifier '"@ + n + "'"@,
        ManifestErrorView::UnknownAssociatedRoleAttribute(a, r) =>
            "Undefined attribute '"@ + a + "' associated with role '"@ + r + "'"@,
        ManifestErrorView::MissingTargetsInProduct(p) =>
            "Product '"@ + p + "' must specify targets because multiple targets exist"@,
        ManifestErrorView::EmptyTargetList(p) => "Product '"@ + p + "' has no targets"@,
        ManifestErrorView::EmptyFileList(t) => "Target '"@ + t + "' does not contain any files"@,
        ManifestErrorView::ReservedDoxygenDirectiveName(n) =>
            "Doxygen directive name '"@ + n + "' is reserved by built-in directive"@,
        ManifestErrorView::InvalidDoxygenDirectiveName(n) =>
            "Doxygen directive name '"@ + n + "' is invalid, only A-Z, a-z, and 0-9 allowed"@,
        ManifestErrorView::DuplicateDoxygenDirectiveParameter(n) =>
            "Doxygen directive parameter '"@ + n + "' defined multiple times"@,
        ManifestErrorView::DoxygenWordParameterAfterLineOrParagraph(n) =>
            "Doxygen directive word-long parameter '"@ + n + "' must not occur after line-long or paragraph-long parameter"@,
        ManifestErrorView::NonUniqueTrailingLineOrParagraphDoxygenDirectiveParameter(n) =>
            "Doxygen directive parameter '"@ + n + "' must be trailing and there must not be more than one line-long or paragraph-long parameter"@,
        ManifestErrorView::MissingScript(n) => "Script '"@ + n + "' definition is missing"@,
        ManifestErrorView::UndefinedArgumentReferenceInScript(p, a, d) =>
            "Parameter '"@ + p + "' referenced in '"@ + a + "' action in script for '"@ + d
                + "' directive is not a defined parameter in '"@ + d + "'"@,
    }
}

/// Concatenates five string pieces.
fn concat5(a: &str, b: &str, c: &str, d: &str, e: &str) -> (r: String)
    ensures
        r@ == a@ + b@ + c@ + d@ + e@,
{
    let mut s = concat3(a, b, c);
    s.append(d);
    s.append(e);
    s
}

impl ManifestError {
    /// How grave the problem is.
    pub fn severity(&self) -> (r: Severity)
        ensures
            r == spec_manifest_error_severity(self@),
    {
        match self {
            ManifestError::EmptyTargetList(_) | ManifestError::EmptyFileList(_) => Severity::Warning,
            _ => Severity::Error,
        }
    }

    /// The message that describes the problem.
    pub fn message(&self) -> (r: String)
        ensures
            r@ == spec_manifest_error_message(self@),
    {
        match self {
            ManifestError::UnsupportedDialect(d, t) =>
                concat5("The ", d.as_str(), " dialect specified in target ", t.as_str(), " is not supported"),
            ManifestError::UnsupportedFormat(f, p) =>
                concat5("The ", f.as_str(), " output format specified in product ", p.as_str(), " is not supported"),
            ManifestError::DanglingTargetReference(t, p) =>
                concat5("The target '", t.as_str(), "' reference in product '", p.as_str(), "' does not exist"),
            ManifestError::MissingTargetName(ix) => {
                let n = decimal_string(*ix);
                concat3("Target at index ", n.as_str(), " must have a name because multiple target exists")
            },
            ManifestError::DuplicateTargetName(n) => concat3("Duplicate targets with name '", n.as_str(), "'"),
            ManifestError::DuplicateProductName(n) => concat3("Duplicate products with name '", n.as_str(), "'"),
            ManifestError::DuplicateScriptName(n) => concat3("Duplicate script with name '", n.as_str(), "'"),
            ManifestError::DuplicateAtributeID(n) => concat3("Duplicate attribute with identifier '", n.as_str(), "'"),
            ManifestError::DuplicateRoleID(n) => concat3("Duplicate role with identifier '", n.as_str(), "'"),
            ManifestError::UnknownAssociatedRoleAttribute(a, r) =>
                concat5("Undefined attribute '", a.as_str(), "' associated with role '", r.as_str(), "'"),
            ManifestError::MissingTargetsInProduct(p) =>
                concat3("Product '", p.as_str(), "' must specify targets because multiple targets exist"),
            ManifestError::EmptyTargetList(p) => concat3("Product '", p.as_str(), "' has no targets"),
            ManifestError::EmptyFileList(t) => concat3("Target '", t.as_str(), "' does not contain any files"),
            ManifestError::ReservedDoxygenDirectiveName(n) =>
                concat3("Doxygen directive name '", n.as_str(), "' is reserved by built-in directive"),
            ManifestError::InvalidDoxygenDirectiveName(n) =>
                concat3("Doxygen directive name '", n.as_str(), "' is invalid, only A-Z, a-z, and 0-9 allowed"),
            ManifestError::DuplicateDoxygenDirectiveParameter(n) =>
                concat3("Doxygen directive parameter '", n.as_str(), "' defined multiple times"),
            ManifestError::DoxygenWordParameterAfterLineOrParagraph(n) =>
                concat3("Doxygen directive word-long parameter '", n.as_str(),
                    "' must not occur after line-long or paragraph-long parameter"),
            ManifestError::NonUniqueTrailingLineOrParagraphDoxygenDirectiveParameter(n) =>
                concat3("Doxygen directive parameter '", n.as_str(),
                    "' must be trailing and there must not be more than one line-long or paragraph-long parameter"),
            ManifestError::MissingScript(n) => concat3("Script '", n.as_str(), "' definition is missing"),
            ManifestError::UndefinedArgumentReferenceInScript(p, a, d) => {
                let mut s = concat5("Parameter '", p.as_str(), "' referenced in '", a.as_str(), "' action in script for '");
                s.append(d.as_str());
                s.append("' directive is not a defined parameter in '");
                s.append(d.as_str());
                s.append("'");
                s
            },
        }
    }
}

impl<L: EditorLocation> Diagnostic<L> for ManifestError {
    fn severity(&self) -> (r: Severity)
        ensures
            r == spec_manifest_error_severity(self@),
    {
        ManifestError::severity(self)
    }
}

/// The problems of a list, by their views.
pub open spec fn views(d: Seq<ManifestError>) -> Seq<ManifestErrorView> {
    d.map_values(|e: ManifestError| e@)
}

/// The characters of each string.
pub open spec fn string_views(v: Seq<String>) -> Seq<Seq<char>> {
    v.map_values(|s: String| s@)
}

proof fn lemma_no_errors_concat(a: Seq<ManifestErrorView>, b: Seq<ManifestErrorView>)
    ensures
        no_errors(a + b) == (no_errors(a) && no_errors(b)),
{
    if no_errors(a) && no_errors(b) {
        assert forall|k: int| 0 <= k < (a + b).len() implies spec_manifest_error_severity(#[trigger] (a + b)[k]) != Severity::Error by {
            if k >= a.len() {
                assert((a + b)[k] == b[k - a.len()]);
            }
        }
    }
    if no_errors(a + b) {
        assert forall|k: int| 0 <= k < a.len() implies spec_manifest_error_severity(#[trigger] a[k]) != Severity::Error by {
            assert((a + b)[k] == a[k]);
        }
        assert forall|k: int| 0 <= k < b.len() implies spec_manifest_error_severity(#[trigger] b[k]) != Severity::Error by {
            assert((a + b)[k + a.len()] == b[k]);
        }
    }
}

/// Adds a problem to a list.
fn report(diags: &mut Vec<ManifestError>, e: ManifestError)
    ensures
        views(final(diags)@) == views(old(diags)@).push(e@),
{
    diags.push(e);
    assert(views(diags@) =~= views(old(diags)@).push(e@));
}

/// Whether a string is among a list of strings.
fn contains_str(seen: &Vec<String>, s: &str) -> (r: bool)
    ensures
        r == string_views(seen@).contains(s@),
{
    let mut k: usize = 0;
    while k < seen.len()
        invariant
            k <= seen@.len(),
            forall|j: int| 0 <= j < k ==> (#[trigger] seen@[j])@ != s@,
        decreases seen.len() - k,
    {
        if str_eq(seen[k].as_str(), s) {
            assert(string_views(seen@)[k as int] == s@);
            return true;
        }
        k = k + 1;
    }
    proof {
        if string_views(seen@).contains(s@) {
            let j = choose|j: int| 0 <= j < string_views(seen@).len() && string_views(seen@)[j] == s@;
            assert(seen@[j]@ == s@);
        }
    }
    false
}

/// Adds a string to a list of strings.
fn remember(seen: &mut Vec<String>, s: &str)
    ensures
        string_views(final(seen)@) == string_views(old(seen)@).push(s@),
{
    seen.push(String::from_str(s));
    assert(string_views(seen@) =~= string_views(old(seen)@).push(s@));
}

/// The name a target goes by in messages: its name, or else its position.
pub open spec fn target_label(t: DocTarget, ix: nat) -> Seq<char> {
    match t.name {
        Some(n) => n@,
        None => decimal(ix),
    }
}

/// The problems of one target: a warning where it lists no files.
pub open spec fn target_diagnostics(t: DocTarget, ix: nat) -> Seq<ManifestErrorView> {
    if t.files@.len() == 0 {
        seq![ManifestErrorView::EmptyFileList(target_label(t, ix))]
    } else {
        seq![]
    }
}

/// The names of the named targets, in order.
pub open spec fn named_targets(ts: Seq<DocTarget>) -> Seq<Seq<char>>
    decreases ts.len(),
{
    if ts.len() == 0 {
        seq![]
    } else {
        let before = named_targets(ts.drop_last());
        match ts.last().name {
            Some(n) => before.push(n@),
            None => before,
        }
    }
}

/// The problems of the targets of a manifest; where the manifest has several targets (`many`),
/// each must have a name of its own.
pub open spec fn target_phase(ts: Seq<DocTarget>, many: bool) -> Seq<ManifestErrorView>
    decreases ts.len(),
{
    if ts.len() == 0 {
        seq![]
    } else {
        let ix = (ts.len() - 1) as nat;
        let t = ts.last();
        let before = ts.drop_last();
        let naming = if many {
            match t.name {
                Some(n) => if named_targets(before).contains(n@) {
                    seq![ManifestErrorView::DuplicateTargetName(n@)]
                } else {
                    seq![]
                },
                None => seq![ManifestErrorView::MissingTargetName(ix)],
            }
        } else {
            seq![]
        };
        target_phase(before, many) + target_diagnostics(t, ix) + naming
    }
}

/// The problems of the products of a manifest; where the manifest has several targets (`many`),
/// product names must be unique and each product must list its targets.
pub open spec fn product_phase(ps: Seq<DocProduct>, many: bool) -> Seq<ManifestErrorView>
    decreases ps.len(),
{
    if ps.len() == 0 {
        seq![]
    } else {
        let p = ps.last();
        let before = ps.drop_last();
        let checks = if many {
            let dup = if before.map_values(|q: DocProduct| q.name@).contains(p.name@) {
                seq![ManifestErrorView::DuplicateProductName(p.name@)]
            } else {
                seq![]
            };
            let listed = match p.targets {
                None => seq![ManifestErrorView::MissingTargetsInProduct(p.name@)],
                Some(ts) => if ts@.len() == 0 {
                    seq![ManifestErrorView::EmptyTargetList(p.name@)]
                } else {
                    seq![]
                },
            };
            dup + listed
        } else {
            seq![]
        };
        product_phase(before, many) + checks
    }
}

/// The names that occur earlier in the list, at each later occurrence.
pub open spec fn repeated(names: Seq<Seq<char>>) -> Seq<Seq<char>>
    decreases names.len(),
{
    if names.len() == 0 {
        seq![]
    } else if names.drop_last().contains(names.last()) {
        repeated(names.drop_last()).push(names.last())
    } else {
        repeated(names.drop_last())
    }
}

/// The associated attributes of a role that no attribute of the model defines.
pub open spec fn unknown_associated(assocs: Seq<Seq<char>>, ids: Seq<Seq<char>>, role: Seq<char>) -> Seq<ManifestErrorView>
    decreases assocs.len(),
{
    if assocs.len() == 0 {
        seq![]
    } else {
        let before = unknown_associated(assocs.drop_last(), ids, role);
        if ids.contains(assocs.last()) {
            before
        } else {
            before.push(ManifestErrorView::UnknownAssociatedRoleAttribute(assocs.last(), role))
        }
    }
}

/// The problems of the roles of a model: repeated identifiers and undefined associated
/// attributes.
pub open spec fn role_phase(rs: Seq<DocRole>, ids: Seq<Seq<char>>) -> Seq<ManifestErrorView>
    decreases rs.len(),
{
    if rs.len() == 0 {
        seq![]
    } else {
        let r = rs.last();
        let before = rs.drop_last();
        let dup = if before.map_values(|q: DocRole| q.id@).contains(r.id@) {
            seq![ManifestErrorView::DuplicateRoleID(r.id@)]
        } else {
            seq![]
        };
        role_phase(before, ids) + dup + unknown_associated(string_views(r.associated_attributes@), ids, r.id@)
    }
}

/// The identifiers of the attributes of a model.
pub open spec fn attribute_ids(m: DocManifest) -> Seq<Seq<char>> {
    m.model.attributes@.map_values(|a: DocAttribute| a.id@)
}

/// All problems of a manifest, in the order they are reported.
pub open spec fn manifest_diagnostics(m: DocManifest) -> Seq<ManifestErrorView> {
    let many = m.targets@.len() > 1;
    target_phase(m.targets@, many)
        + product_phase(m.products@, many)
        + repeated(m.scripts@.map_values(|s: DocScript| s.name@)).map_values(|n: Seq<char>| ManifestErrorView::DuplicateScriptName(n))
        + repeated(attribute_ids(m)).map_values(|n: Seq<char>| ManifestErrorView::DuplicateAtributeID(n))
        + role_phase(m.model.roles@, attribute_ids(m))
}

impl DocTarget {
    /// Reports the problems of the target at position `ix`; a target has none that make the
    /// manifest invalid.
    pub fn proofread(&self, ix: usize, diags: &mut Vec<ManifestError>) -> (r: bool)
        ensures
            views(final(diags)@) == views(old(diags)@) + target_diagnostics(*self, ix as nat),
            r == no_errors(target_diagnostics(*self, ix as nat)),
    {
        let valid = true;
        if self.files.len() == 0 {
            let label = match &self.name {
                Some(n) => n.clone(),
                None => decimal_string(ix),
            };
            report(diags, ManifestError::EmptyFileList(label));
        } else {
            assert(views(diags@) =~= views(old(diags)@) + target_diagnostics(*self, ix as nat));
        }
        proof {
            assert(no_errors(target_diagnostics(*self, ix as nat)));
        }
        valid
    }
}

impl DocProduct {
    /// Reports the problems of the product at position `ix`: every format is supported, so
    /// there are none.
    pub fn proofread(&self, ix: usize, diags: &mut Vec<ManifestError>) -> (r: bool)
        ensures
            final(diags)@ == old(diags)@,
            r,
    {
        match &self.format {
            DocProductFormat::MostlyStaticButPrettyHTML { .. } => {},
        }
        true
    }
}

impl DocScript {
    /// Reports the problems of the script at position `ix`: there are none.
    pub fn proofread(&self, ix: usize, diags: &mut Vec<ManifestError>) -> (r: bool)
        ensures
            final(diags)@ == old(diags)@,
            r,
    {
        true
    }
}

impl DocManifest {
    fn proofread_targets(&self, diags: &mut Vec<ManifestError>) -> (r: bool)
        ensures
            views(final(diags)@) == views(old(diags)@) + target_phase(self.targets@, self.targets@.len() > 1),
            r == no_errors(target_phase(self.targets@, self.targets@.len() > 1)),
    {
        let ghost ts = self.targets@;
        let many = self.targets.len() > 1;
        let mut valid = true;
        let mut seen: Vec<String> = Vec::new();
        let mut ix: usize = 0;
        assert(ts.take(0) =~= Seq::<DocTarget>::empty());
        assert(string_views(seen@) =~= Seq::<Seq<char>>::empty());
        while ix < self.targets.len()
            invariant
                ts == self.targets@,
                many == (ts.len() > 1),
                ix <= ts.len(),
                views(diags@) == views(old(diags)@) + target_phase(ts.take(ix as int), many),
                valid == no_errors(target_phase(ts.take(ix as int), many)),
                many ==> string_views(seen@) == named_targets(ts.take(ix as int)),
            decreases ts.len() - ix,
        {
            let ghost prefix = ts.take(ix as int);
            let ghost next = ts.take(ix + 1);
            assert(next.drop_last() =~= prefix);
            assert(next.last() == ts[ix as int]);
            let ghost before = views(diags@);
            let target = &self.targets[ix];
            let own = target.proofread(ix, diags);
            let ghost after_own = views(diags@);
            let mut naming_ok = true;
            if many {
                match &target.name {
                    Some(name) => {
                        if contains_str(&seen, name.as_str()) {
                            naming_ok = false;
                            report(diags, ManifestError::DuplicateTargetName(name.clone()));
                        }
                        remember(&mut seen, name.as_str());
                    },
                    None => {
                        naming_ok = false;
                        report(diags, ManifestError::MissingTargetName(ix));
                    },
                }
            }
            proof {
                let naming = if many {
                    match ts[ix as int].name {
                        Some(n) => if named_targets(prefix).contains(n@) {
                            seq![ManifestErrorView::DuplicateTargetName(n@)]
                        } else {
                            seq![]
                        },
                        None => seq![ManifestErrorView::MissingTargetName(ix as nat)],
                    }
                } else {
                    seq![]
                };
                assert(target_phase(next, many) == target_phase(prefix, many) + target_diagnostics(ts[ix as int], ix as nat) + naming);
                assert(views(diags@) =~= views(old(diags)@) + target_phase(next, many));
                lemma_no_errors_concat(target_phase(prefix, many), target_diagnostics(ts[ix as int], ix as nat));
                lemma_no_errors_concat(target_phase(prefix, many) + target_diagnostics(ts[ix as int], ix as nat), naming);
                if naming.len() > 0 {
                    assert(spec_manifest_error_severity(naming[0]) == Severity::Error);
                }
                assert(naming_ok == no_errors(naming));
            }
            valid = valid && own && naming_ok;
            ix = ix + 1;
        }
        assert(ts.take(ts.len() as int) =~= ts);
        valid
    }
}

impl DocManifest {
    fn proofread_products(&self, diags: &mut Vec<ManifestError>) -> (r: bool)
        ensures
            views(final(diags)@) == views(old(diags)@) + product_phase(self.products@, self.targets@.len() > 1),
            r == no_errors(product_phase(self.products@, self.targets@.len() > 1)),
    {
        let ghost ps = self.products@;
        let many = self.targets.len() > 1;
        let mut valid = true;
        let mut seen: Vec<String> = Vec::new();
        let mut ix: usize = 0;
        assert(ps.take(0) =~= Seq::<DocProduct>::empty());
        assert(string_views(seen@) =~= Seq::<Seq<char>>::empty());
        while ix < self.products.len()
            invariant
                ps == self.products@,
                many == (self.targets@.len() > 1),
                ix <= ps.len(),
                views(diags@) == views(old(diags)@) + product_phase(ps.take(ix as int), many),
                valid == no_errors(product_phase(ps.take(ix as int), many)),
                many ==> string_views(seen@) == ps.take(ix as int).map_values(|q: DocProduct| q.name@),
            decreases ps.len() - ix,
        {
            let ghost prefix = ps.take(ix as int);
            let ghost next = ps.take(ix + 1);
            assert(next.drop_last() =~= prefix);
            assert(next.last() == ps[ix as int]);
            let product = &self.products[ix];
            let own = product.proofread(ix, diags);
            let mut checks_ok = true;
            let ghost mut checks: Seq<ManifestErrorView> = seq![];
            if many {
                let ghost dup: Seq<ManifestErrorView> = seq![];
                let mut dup_ok = true;
                if contains_str(&seen, product.name.as_str()) {
                    dup_ok = false;
                    report(diags, ManifestError::DuplicateProductName(product.name.clone()));
                    proof {
                        dup = seq![ManifestErrorView::DuplicateProductName(product.name@)];
                    }
                }
                remember(&mut seen, product.name.as_str());
                proof {
                    assert(ps.take(ix + 1).map_values(|q: DocProduct| q.name@)
                        =~= prefix.map_values(|q: DocProduct| q.name@).push(product.name@));
                }
                let ghost listed: Seq<ManifestErrorView> = seq![];
                let mut listed_ok = true;
                match &product.targets {
                    None => {
                        listed_ok = false;
                        report(diags, ManifestError::MissingTargetsInProduct(product.name.clone()));
                        proof {
                            listed = seq![ManifestErrorView::MissingTargetsInProduct(product.name@)];
                        }
                    },
                    Some(targets) => {
                        if targets.len() == 0 {
                            report(diags, ManifestError::EmptyTargetList(product.name.clone()));
                            proof {
                                listed = seq![ManifestErrorView::EmptyTargetList(product.name@)];
                            }
                        }
                    },
                }
                proof {
                    checks = dup + listed;
                    if dup.len() > 0 {
                        assert(spec_manifest_error_severity(dup[0]) == Severity::Error);
                    }
                    if !listed_ok {
                        assert(spec_manifest_error_severity(listed[0]) == Severity::Error);
                    }
                    assert(dup_ok == no_errors(dup));
                    assert(listed_ok == no_errors(listed));
                    lemma_no_errors_concat(dup, listed);
                }
                checks_ok = dup_ok && listed_ok;
            }
            proof {
                assert(product_phase(next, many) == product_phase(prefix, many) + checks);
                assert(views(diags@) =~= views(old(diags)@) + product_phase(next, many));
                lemma_no_errors_concat(product_phase(prefix, many), checks);
                assert(checks_ok == no_errors(checks));
            }
            valid = valid && own && checks_ok;
            ix = ix + 1;
        }
        assert(ps.take(ps.len() as int) =~= ps);
        valid
    }

    /// Reports each name that occurs earlier in the list, through `wrap`'s problem.
    fn proofread_repeated_scripts(&self, diags: &mut Vec<ManifestError>) -> (r: bool)
        ensures
            views(final(diags)@) == views(old(diags)@)
                + repeated(self.scripts@.map_values(|s: DocScript| s.name@)).map_values(|n: Seq<char>| ManifestErrorView::DuplicateScriptName(n)),
            r == (repeated(self.scripts@.map_values(|s: DocScript| s.name@)).len() == 0),
    {
        let ghost names = self.scripts@.map_values(|s: DocScript| s.name@);
        let mut valid = true;
        let mut seen: Vec<String> = Vec::new();
        let mut ix: usize = 0;
        assert(names.take(0) =~= Seq::<Seq<char>>::empty());
        assert(string_views(seen@) =~= Seq::<Seq<char>>::empty());
        while ix < self.scripts.len()
            invariant
                names == self.scripts@.map_values(|s: DocScript| s.name@),
                ix <= names.len(),
                views(diags@) == views(old(diags)@) + repeated(names.take(ix as int)).map_values(|n: Seq<char>| ManifestErrorView::DuplicateScriptName(n)),
                valid == (repeated(names.take(ix as int)).len() == 0),
                string_views(seen@) == names.take(ix as int),
            decreases names.len() - ix,
        {
            let ghost prefix = names.take(ix as int);
            let ghost next = names.take(ix + 1);
            assert(next.drop_last() =~= prefix);
            assert(next.last() == names[ix as int]);
            let script = &self.scripts[ix];
            let own = script.proofread(ix, diags);
            if contains_str(&seen, script.name.as_str()) {
                valid = false;
                report(diags, ManifestError::DuplicateScriptName(script.name.clone()));
                assert(views(diags@) =~= views(old(diags)@) + repeated(next).map_values(|n: Seq<char>| ManifestErrorView::DuplicateScriptName(n)));
            } else {
                assert(views(diags@) =~= views(old(diags)@) + repeated(next).map_values(|n: Seq<char>| ManifestErrorView::DuplicateScriptName(n)));
            }
            remember(&mut seen, script.name.as_str());
            assert(string_views(seen@) =~= next);
            valid = valid && own;
            ix = ix + 1;
        }
        assert(names.take(names.len() as int) =~= names);
        valid
    }

    fn proofread_repeated_attributes(&self, diags: &mut Vec<ManifestError>) -> (r: bool)
        ensures
            views(final(diags)@) == views(old(diags)@)
                + repeated(attribute_ids(*self)).map_values(|n: Seq<char>| ManifestErrorView::DuplicateAtributeID(n)),
            r == (repeated(attribute_ids(*self)).len() == 0),
    {
        let ghost names = attribute_ids(*self);
        let mut valid = true;
        let mut seen: Vec<String> = Vec::new();
        let mut ix: usize = 0;
        assert(names.take(0) =~= Seq::<Seq<char>>::empty());
        assert(string_views(seen@) =~= Seq::<Seq<char>>::empty());
        while ix < self.model.attributes.len()
            invariant
                names == attribute_ids(*self),
                ix <= names.len(),
                views(diags@) == views(old(diags)@) + repeated(names.take(ix as int)).map_values(|n: Seq<char>| ManifestErrorView::DuplicateAtributeID(n)),
                valid == (repeated(names.take(ix as int)).len() == 0),
                string_views(seen@) == names.take(ix as int),
            decreases names.len() - ix,
        {
            let ghost prefix = names.take(ix as int);
            let ghost next = names.take(ix + 1);
            assert(next.drop_last() =~= prefix);
            assert(next.last() == names[ix as int]);
            let attribute = &self.model.attributes[ix];
            if contains_str(&seen, attribute.id.as_str()) {
                valid = false;
                report(diags, ManifestError::DuplicateAtributeID(attribute.id.clone()));
                assert(views(diags@) =~= views(old(diags)@) + repeated(next).map_values(|n: Seq<char>| ManifestErrorView::DuplicateAtributeID(n)));
            } else {
                assert(views(diags@) =~= views(old(diags)@) + repeated(next).map_values(|n: Seq<char>| ManifestErrorView::DuplicateAtributeID(n)));
            }
            remember(&mut seen, attribute.id.as_str());
            assert(string_views(seen@) =~= next);
            ix = ix + 1;
        }
        assert(names.take(names.len() as int) =~= names);
        valid
    }
}

/// The identifiers of the attributes of a model, in order.
fn collect_attribute_ids(attributes: &Vec<DocAttribute>) -> (r: Vec<String>)
    ensures
        string_views(r@) == attributes@.map_values(|a: DocAttribute| a.id@),
{
    let mut out: Vec<String> = Vec::new();
    let mut k: usize = 0;
    while k < attributes.len()
        invariant
            k <= attributes@.len(),
            string_views(out@) == attributes@.take(k as int).map_values(|a: DocAttribute| a.id@),
        decreases attributes.len() - k,
    {
        remember(&mut out, attributes[k].id.as_str());
        assert(attributes@.take(k + 1).map_values(|a: DocAttribute| a.id@)
            =~= attributes@.take(k as int).map_values(|a: DocAttribute| a.id@).push(attributes@[k as int].id@));
        k = k + 1;
    }
    assert(attributes@.take(attributes@.len() as int) =~= attributes@);
    out
}

impl DocManifest {
    fn proofread_associated(role: &DocRole, ids: &Vec<String>, diags: &mut Vec<ManifestError>) -> (r: bool)
        ensures
            views(final(diags)@) == views(old(diags)@)
                + unknown_associated(string_views(role.associated_attributes@), string_views(ids@), role.id@),
            r == no_errors(unknown_associated(string_views(role.associated_attributes@), string_views(ids@), role.id@)),
    {
        let ghost assocs = string_views(role.associated_attributes@);
        let ghost known = string_views(ids@);
        let mut valid = true;
        let mut k: usize = 0;
        assert(assocs.take(0) =~= Seq::<Seq<char>>::empty());
        while k < role.associated_attributes.len()
            invariant
                assocs == string_views(role.associated_attributes@),
                known == string_views(ids@),
                k <= assocs.len(),
                views(diags@) == views(old(diags)@) + unknown_associated(assocs.take(k as int), known, role.id@),
                valid == no_errors(unknown_associated(assocs.take(k as int), known, role.id@)),
            decreases assocs.len() - k,
        {
            let ghost prefix = assocs.take(k as int);
            let ghost next = assocs.take(k + 1);
            assert(next.drop_last() =~= prefix);
            assert(next.last() == assocs[k as int]);
            let assoc = &role.associated_attributes[k];
            if !contains_str(ids, assoc.as_str()) {
                report(diags, ManifestError::UnknownAssociatedRoleAttribute(assoc.clone(), role.id.clone()));
                proof {
                    let e = ManifestErrorView::UnknownAssociatedRoleAttribute(assoc@, role.id@);
                    assert(unknown_associated(next, known, role.id@) == unknown_associated(prefix, known, role.id@).push(e));
                    assert(unknown_associated(prefix, known, role.id@).push(e) =~= unknown_associated(prefix, known, role.id@) + seq![e]);
                    lemma_no_errors_concat(unknown_associated(prefix, known, role.id@), seq![e]);
                    assert(spec_manifest_error_severity(seq![e][0]) == Severity::Error);
                }
                valid = false;
            }
            assert(views(diags@) =~= views(old(diags)@) + unknown_associated(next, known, role.id@));
            k = k + 1;
        }
        assert(assocs.take(assocs.len() as int) =~= assocs);
        valid
    }

    fn proofread_roles(&self, ids: &Vec<String>, diags: &mut Vec<ManifestError>) -> (r: bool)
        ensures
            views(final(diags)@) == views(old(diags)@) + role_phase(self.model.roles@, string_views(ids@)),
            r == no_errors(role_phase(self.model.roles@, string_views(ids@))),
    {
        let ghost rs = self.model.roles@;
        let ghost known = string_views(ids@);
        let mut valid = true;
        let mut seen: Vec<String> = Vec::new();
        let mut ix: usize = 0;
        assert(rs.take(0) =~= Seq::<DocRole>::empty());
        assert(string_views(seen@) =~= Seq::<Seq<char>>::empty());
        while ix < self.model.roles.len()
            invariant
                rs == self.model.roles@,
                known == string_views(ids@),
                ix <= rs.len(),
                views(diags@) == views(old(diags)@) + role_phase(rs.take(ix as int), known),
                valid == no_errors(role_phase(rs.take(ix as int), known)),
                string_views(seen@) == rs.take(ix as int).map_values(|q: DocRole| q.id@),
            decreases rs.len() - ix,
        {
            let ghost prefix = rs.take(ix as int);
            let ghost next = rs.take(ix + 1);
            assert(next.drop_last() =~= prefix);
            assert(next.last() == rs[ix as int]);
            let role = &self.model.roles[ix];
            let ghost dup: Seq<ManifestErrorView> = seq![];
            let mut dup_ok = true;
            if contains_str(&seen, role.id.as_str()) {
                dup_ok = false;
                report(diags, ManifestError::DuplicateRoleID(role.id.clone()));
                proof {
                    dup = seq![ManifestErrorView::DuplicateRoleID(role.id@)];
                    assert(spec_manifest_error_severity(dup[0]) == Severity::Error);
                }
            }
            remember(&mut seen, role.id.as_str());
            assert(rs.take(ix + 1).map_values(|q: DocRole| q.id@) =~= prefix.map_values(|q: DocRole| q.id@).push(role.id@));
            let ghost mid = views(diags@);
            let assoc_ok = DocManifest::proofread_associated(role, ids, diags);
            proof {
                let unknown = unknown_associated(string_views(role.associated_attributes@), known, role.id@);
                assert(role_phase(next, known) == role_phase(prefix, known) + dup + unknown);
                assert(views(diags@) =~= views(old(diags)@) + role_phase(next, known));
                assert(dup_ok == no_errors(dup));
                lemma_no_errors_concat(role_phase(prefix, known), dup);
                lemma_no_errors_concat(role_phase(prefix, known) + dup, unknown);
            }
            valid = valid && dup_ok && assoc_ok;
            ix = ix + 1;
        }
        assert(rs.take(rs.len() as int) =~= rs);
        valid
    }
}

/// Every problem of a list of repeated names is an error.
proof fn lemma_repeated_errors(names: Seq<Seq<char>>, wrapped: Seq<ManifestErrorView>)
    requires
        wrapped.len() == names.len(),
        forall|k: int| 0 <= k < wrapped.len() ==> spec_manifest_error_severity(#[trigger] wrapped[k]) == Severity::Error,
    ensures
        no_errors(wrapped) == (names.len() == 0),
{
    if names.len() > 0 {
        assert(spec_manifest_error_severity(wrapped[0]) == Severity::Error);
    }
}

impl DocManifest {
    /// Reports every problem of the manifest, in order, and tells whether the manifest is valid:
    /// it is exactly when none of the problems is an error.
    pub fn proofread(&self, diags: &mut Vec<ManifestError>) -> (r: bool)
        ensures
            views(final(diags)@) == views(old(diags)@) + manifest_diagnostics(*self),
            r == no_errors(manifest_diagnostics(*self)),
    {
        let ghost d0 = views(diags@);
        let targets_ok = self.proofread_targets(diags);
        let products_ok = self.proofread_products(diags);
        let scripts_ok = self.proofread_repeated_scripts(diags);
        let attributes_ok = self.proofread_repeated_attributes(diags);
        let ids = collect_attribute_ids(&self.model.attributes);
        let roles_ok = self.proofread_roles(&ids, diags);
        proof {
            let many = self.targets@.len() > 1;
            let a = target_phase(self.targets@, many);
            let b = product_phase(self.products@, many);
            let sn = repeated(self.scripts@.map_values(|s: DocScript| s.name@));
            let c = sn.map_values(|n: Seq<char>| ManifestErrorView::DuplicateScriptName(n));
            let an = repeated(attribute_ids(*self));
            let d = an.map_values(|n: Seq<char>| ManifestErrorView::DuplicateAtributeID(n));
            let e = role_phase(self.model.roles@, attribute_ids(*self));
            assert(views(diags@) =~= d0 + (a + b + c + d + e));
            lemma_repeated_errors(sn, c);
            lemma_repeated_errors(an, d);
            lemma_no_errors_concat(a, b);
            lemma_no_errors_concat(a + b, c);
            lemma_no_errors_concat(a + b + c, d);
            lemma_no_errors_concat(a + b + c + d, e);
        }
        targets_ok && products_ok && scripts_ok && attributes_ok && roles_ok
    }
}

/// The characters a custom directive's name may consist of.
pub open spec fn is_ascii_alnum(c: char) -> bool {
    ('a' <= c && c <= 'z') || ('A' <= c && c <= 'Z') || ('0' <= c && c <= '9')
}

/// The problems of a directive's name: it must not be a built-in directive's, and it may hold
/// only ASCII letters and digits.
pub open spec fn directive_name_diagnostics(name: Seq<char>) -> Seq<ManifestErrorView> {
    if spec_builtin_names().contains(name) {
        seq![ManifestErrorView::ReservedDoxygenDirectiveName(name)]
    } else if !(forall|i: int| 0 <= i < name.len() ==> is_ascii_alnum(#[trigger] name[i])) {
        seq![ManifestErrorView::InvalidDoxygenDirectiveName(name)]
    } else {
        seq![]
    }
}

/// Some parameter is line-long or paragraph-long.
pub open spec fn has_long_parameter(ps: Seq<DocDoxygenParameter>) -> bool
    decreases ps.len(),
{
    if ps.len() == 0 {
        false
    } else {
        has_long_parameter(ps.drop_last()) || ps.last().length != DocDoxygenParameterLength::Word
    }
}

/// The problems of a directive's parameters: each name may occur once, and no parameter may
/// follow a line-long or paragraph-long one, wherever it stands before.
pub open spec fn parameter_diagnostics(ps: Seq<DocDoxygenParameter>) -> Seq<ManifestErrorView>
    decreases ps.len(),
{
    if ps.len() == 0 {
        seq![]
    } else {
        let p = ps.last();
        let before = ps.drop_last();
        let dup = if before.map_values(|q: DocDoxygenParameter| q.name@).contains(p.name@) {
            seq![ManifestErrorView::DuplicateDoxygenDirectiveParameter(p.name@)]
        } else {
            seq![]
        };
        let order = if !has_long_parameter(before) {
            seq![]
        } else if p.length == DocDoxygenParameterLength::Word {
            seq![ManifestErrorView::DoxygenWordParameterAfterLineOrParagraph(p.name@)]
        } else {
            seq![ManifestErrorView::NonUniqueTrailingLineOrParagraphDoxygenDirectiveParameter(p.name@)]
        };
        parameter_diagnostics(before) + dup + order
    }
}

/// The position of the first script of that name.
pub open spec fn first_script(scripts: Seq<DocScript>, name: Seq<char>) -> Option<int>
    decreases scripts.len(),
{
    if scripts.len() == 0 {
        None
    } else {
        match first_script(scripts.drop_last(), name) {
            Some(k) => Some(k),
            None => if scripts.last().name@ == name { Some(scripts.len() - 1) } else { None },
        }
    }
}

/// The actions a directive runs, and the problem where its named script is missing.
pub open spec fn directive_actions(script: DocScriptSpecification, scripts: Seq<DocScript>) -> (Seq<DocAction>, Seq<ManifestErrorView>) {
    match script {
        DocScriptSpecification::Anonymous(actions) => (actions@, seq![]),
        DocScriptSpecification::Named(name) => match first_script(scripts, name@) {
            Some(k) => (scripts[k].actions@, seq![]),
            None => (seq![], seq![ManifestErrorView::MissingScript(name@)]),
        },
    }
}

/// The variables of one action that name no parameter of the directive.
pub open spec fn undefined_variables(vars: Seq<Seq<char>>, params: Seq<Seq<char>>, action: Seq<char>, directive: Seq<char>) -> Seq<ManifestErrorView>
    decreases vars.len(),
{
    if vars.len() == 0 {
        seq![]
    } else {
        let before = undefined_variables(vars.drop_last(), params, action, directive);
        if params.contains(vars.last()) {
            before
        } else {
            before.push(ManifestErrorView::UndefinedArgumentReferenceInScript(vars.last(), action, directive))
        }
    }
}

/// The variables of the actions that name no parameter of the directive.
pub open spec fn undefined_in_actions(actions: Seq<DocAction>, params: Seq<Seq<char>>, directive: Seq<char>) -> Seq<ManifestErrorView>
    decreases actions.len(),
{
    if actions.len() == 0 {
        seq![]
    } else {
        let a = actions.last();
        undefined_in_actions(actions.drop_last(), params, directive)
            + undefined_variables(spec_action_variables(a), params, spec_action_id(a), directive)
    }
}

/// All problems of a custom directive, in the order they are reported.
pub open spec fn directive_diagnostics(d: DocDoxygenDirective, scripts: Seq<DocScript>) -> Seq<ManifestErrorView> {
    let params = d.parameters@.map_values(|q: DocDoxygenParameter| q.name@);
    let (actions, missing) = directive_actions(d.script, scripts);
    directive_name_diagnostics(d.name@) + parameter_diagnostics(d.parameters@) + missing
        + undefined_in_actions(actions, params, d.name@)
}

/// Every problem of a directive is an error.
proof fn lemma_directive_problems_are_errors(diags: Seq<ManifestErrorView>)
    requires
        forall|k: int| 0 <= k < diags.len() ==> !((#[trigger] diags[k]) is EmptyTargetList) && !(diags[k] is EmptyFileList),
    ensures
        no_errors(diags) == (diags.len() == 0),
{
    if diags.len() > 0 {
        assert(spec_manifest_error_severity(diags[0]) == Severity::Error);
    }
}

/// Whether a name is among the built-in directives' names.
fn is_builtin_directive(name: &str) -> (r: bool)
    ensures
        r == spec_builtin_names().contains(name@),
{
    let table = builtins();
    let ghost names = table@.map_values(|e: (String, crate::frontend::doxygen::directive::DoxygenDirective<'static>)| e.0@);
    let mut k: usize = 0;
    while k < table.len()
        invariant
            names == table@.map_values(|e: (String, crate::frontend::doxygen::directive::DoxygenDirective<'static>)| e.0@),
            names == spec_builtin_names(),
            k <= table@.len(),
            forall|j: int| 0 <= j < k ==> names[j] != name@,
        decreases table.len() - k,
    {
        if str_eq(table[k].0.as_str(), name) {
            assert(names[k as int] == name@);
            return true;
        }
        k = k + 1;
    }
    false
}

/// Whether every character of a name is an ASCII letter or digit.
fn is_alnum_name(name: &str) -> (r: bool)
    ensures
        r == (forall|i: int| 0 <= i < name@.len() ==> is_ascii_alnum(#[trigger] name@[i])),
{
    let n = name.unicode_len();
    let mut k: usize = 0;
    while k < n
        invariant
            n == name@.len(),
            k <= n,
            forall|i: int| 0 <= i < k ==> is_ascii_alnum(#[trigger] name@[i]),
        decreases n - k,
    {
        let c = name.get_char(k);
        if !(('a' <= c && c <= 'z') || ('A' <= c && c <= 'Z') || ('0' <= c && c <= '9')) {
            assert(!is_ascii_alnum(name@[k as int]));
            return false;
        }
        k = k + 1;
    }
    true
}

fn check_action_variables(action: &DocAction, params: &Vec<String>, directive: &str, diags: &mut Vec<ManifestError>) -> (r: bool)
    ensures
        views(final(diags)@) == views(old(diags)@)
            + undefined_variables(spec_action_variables(*action), string_views(params@), spec_action_id(*action), directive@),
        r == (undefined_variables(spec_action_variables(*action), string_views(params@), spec_action_id(*action), directive@).len() == 0),
{
    let vars = action.variables();
    let id = action.id();
    let ghost vs = vars@.map_values(|v: &str| v@);
    let ghost known = string_views(params@);
    let mut valid = true;
    let mut k: usize = 0;
    assert(vs.take(0) =~= Seq::<Seq<char>>::empty());
    while k < vars.len()
        invariant
            vs == vars@.map_values(|v: &str| v@),
            vs == spec_action_variables(*action),
            known == string_views(params@),
            id@ == spec_action_id(*action),
            k <= vs.len(),
            views(diags@) == views(old(diags)@) + undefined_variables(vs.take(k as int), known, id@, directive@),
            valid == (undefined_variables(vs.take(k as int), known, id@, directive@).len() == 0),
        decreases vs.len() - k,
    {
        let ghost prefix = vs.take(k as int);
        let ghost next = vs.take(k + 1);
        assert(next.drop_last() =~= prefix);
        assert(next.last() == vs[k as int]);
        let v = vars[k];
        if !contains_str(params, v) {
            valid = false;
            report(diags, ManifestError::UndefinedArgumentReferenceInScript(v.to_string(), id.to_string(), directive.to_string()));
        }
        assert(views(diags@) =~= views(old(diags)@) + undefined_variables(next, known, id@, directive@));
        k = k + 1;
    }
    assert(vs.take(vs.len() as int) =~= vs);
    valid
}

fn check_actions(actions: &Vec<DocAction>, params: &Vec<String>, directive: &str, diags: &mut Vec<ManifestError>) -> (r: bool)
    ensures
        views(final(diags)@) == views(old(diags)@) + undefined_in_actions(actions@, string_views(params@), directive@),
        r == (undefined_in_actions(actions@, string_views(params@), directive@).len() == 0),
{
    let ghost known = string_views(params@);
    let mut valid = true;
    let mut k: usize = 0;
    assert(actions@.take(0) =~= Seq::<DocAction>::empty());
    while k < actions.len()
        invariant
            known == string_views(params@),
            k <= actions@.len(),
            views(diags@) == views(old(diags)@) + undefined_in_actions(actions@.take(k as int), known, directive@),
            valid == (undefined_in_actions(actions@.take(k as int), known, directive@).len() == 0),
        decreases actions.len() - k,
    {
        let ghost prefix = actions@.take(k as int);
        let ghost next = actions@.take(k + 1);
        assert(next.drop_last() =~= prefix);
        assert(next.last() == actions@[k as int]);
        let ok = check_action_variables(&actions[k], params, directive, diags);
        assert(views(diags@) =~= views(old(diags)@) + undefined_in_actions(next, known, directive@));
        valid = valid && ok;
        k = k + 1;
    }
    assert(actions@.take(actions@.len() as int) =~= actions@);
    valid
}

/// The position of the first script of that name.
fn find_script(scripts: &[DocScript], name: &str) -> (r: Option<usize>)
    ensures
        match r {
            Some(k) => first_script(scripts@, name@) == Some(k as int) && k < scripts@.len(),
            None => first_script(scripts@, name@) is None,
        },
{
    let mut k: usize = 0;
    assert(scripts@.take(0) =~= Seq::<DocScript>::empty());
    while k < scripts.len()
        invariant
            k <= scripts@.len(),
            first_script(scripts@.take(k as int), name@) is None,
        decreases scripts.len() - k,
    {
        let ghost next = scripts@.take(k + 1);
        assert(next.drop_last() =~= scripts@.take(k as int));
        if str_eq(scripts[k].name.as_str(), name) {
            proof {
                lemma_first_script_prefix(scripts@, name@, k + 1);
            }
            return Some(k);
        }
        k = k + 1;
    }
    assert(scripts@.take(scripts@.len() as int) =~= scripts@);
    None
}

/// Where a prefix holds a script of that name, the first one is the prefix's first one.
proof fn lemma_first_script_prefix(scripts: Seq<DocScript>, name: Seq<char>, n: int)
    requires
        0 <= n <= scripts.len(),
        first_script(scripts.take(n), name) is Some,
    ensures
        first_script(scripts, name) == first_script(scripts.take(n), name),
    decreases scripts.len(),
{
    if n < scripts.len() {
        assert(scripts.drop_last().take(n) =~= scripts.take(n));
        lemma_first_script_prefix(scripts.drop_last(), name, n);
    } else {
        assert(scripts.take(n) =~= scripts);
    }
}

impl DocDoxygenDirective {
    /// Reports the problems of the custom directive at position `ix`: a reserved or malformed
    /// name, repeated or misordered parameters, a missing script, and variables of the script
    /// that name no parameter. The directive is valid exactly when there are none.
    pub fn proofread(&self, ix: usize, scripts: &[DocScript], diags: &mut Vec<ManifestError>) -> (r: bool)
        ensures
            views(final(diags)@) == views(old(diags)@) + directive_diagnostics(*self, scripts@),
            r == no_errors(directive_diagnostics(*self, scripts@)),
            r == (directive_diagnostics(*self, scripts@).len() == 0),
    {
        let ghost d0 = views(diags@);
        // Name...
        let mut valid = true;
        if is_builtin_directive(self.name.as_str()) {
            valid = false;
            report(diags, ManifestError::ReservedDoxygenDirectiveName(self.name.clone()));
        } else if !is_alnum_name(self.name.as_str()) {
            valid = false;
            report(diags, ManifestError::InvalidDoxygenDirectiveName(self.name.clone()));
        }
        assert(views(diags@) =~= d0 + directive_name_diagnostics(self.name@));
        let ghost d1 = views(diags@);

        // Parameters...
        let ghost ps = self.parameters@;
        let mut param_names: Vec<String> = Vec::new();
        let mut seen_long = false;
        let mut k: usize = 0;
        assert(ps.take(0) =~= Seq::<DocDoxygenParameter>::empty());
        assert(string_views(param_names@) =~= Seq::<Seq<char>>::empty());
        while k < self.parameters.len()
            invariant
                ps == self.parameters@,
                k <= ps.len(),
                views(diags@) == d1 + parameter_diagnostics(ps.take(k as int)),
                valid == (directive_name_diagnostics(self.name@).len() == 0 && parameter_diagnostics(ps.take(k as int)).len() == 0),
                string_views(param_names@) == ps.take(k as int).map_values(|q: DocDoxygenParameter| q.name@),
                seen_long == has_long_parameter(ps.take(k as int)),
            decreases ps.len() - k,
        {
            let ghost prefix = ps.take(k as int);
            let ghost next = ps.take(k + 1);
            assert(next.drop_last() =~= prefix);
            assert(next.last() == ps[k as int]);
            let param = &self.parameters[k];
            let ghost before = views(diags@);
            if contains_str(&param_names, param.name.as_str()) {
                valid = false;
                report(diags, ManifestError::DuplicateDoxygenDirectiveParameter(param.name.clone()));
            }
            remember(&mut param_names, param.name.as_str());
            assert(next.map_values(|q: DocDoxygenParameter| q.name@) =~= prefix.map_values(|q: DocDoxygenParameter| q.name@).push(param.name@));
            match param.length {
                DocDoxygenParameterLength::Word => {
                    if seen_long {
                        valid = false;
                        report(diags, ManifestError::DoxygenWordParameterAfterLineOrParagraph(param.name.clone()));
                    }
                },
                DocDoxygenParameterLength::Line | DocDoxygenParameterLength::Paragraph => {
                    if seen_long {
                        valid = false;
                        report(diags, ManifestError::NonUniqueTrailingLineOrParagraphDoxygenDirectiveParameter(param.name.clone()));
                    }
                },
            }
            proof {
                assert(views(diags@) =~= d1 + parameter_diagnostics(next));
            }
            match param.length {
                DocDoxygenParameterLength::Word => {},
                _ => {
                    seen_long = true;
                },
            }
            k = k + 1;
        }
        assert(ps.take(ps.len() as int) =~= ps);
        let ghost d2 = views(diags@);

        // Script...
        let ok = match &self.script {
            DocScriptSpecification::Anonymous(actions) => {
                check_actions(actions, &param_names, self.name.as_str(), diags)
            },
            DocScriptSpecification::Named(name) => match find_script(scripts, name.as_str()) {
                Some(s) => {
                    check_actions(&scripts[s].actions, &param_names, self.name.as_str(), diags)
                },
                None => {
                    report(diags, ManifestError::MissingScript(name.clone()));
                    proof {
                        assert(undefined_in_actions(seq![], string_views(param_names@), self.name@) =~= Seq::<ManifestErrorView>::empty());
                    }
                    false
                },
            },
        };
        proof {
            let params = self.parameters@.map_values(|q: DocDoxygenParameter| q.name@);
            let (actions, missing) = directive_actions(self.script, scripts@);
            assert(views(diags@) =~= d0 + directive_diagnostics(*self, scripts@));
            let all = directive_diagnostics(*self, scripts@);
            assert forall|j: int| 0 <= j < all.len() implies !((#[trigger] all[j]) is EmptyTargetList) && !(all[j] is EmptyFileList) by {
                lemma_directive_diagnostics_kinds(*self, scripts@, j);
            }
            lemma_directive_problems_are_errors(all);
        }
        valid && ok
    }
}

proof fn lemma_undefined_variables_kinds(vars: Seq<Seq<char>>, params: Seq<Seq<char>>, action: Seq<char>, directive: Seq<char>, j: int)
    requires
        0 <= j < undefined_variables(vars, params, action, directive).len(),
    ensures
        undefined_variables(vars, params, action, directive)[j] is UndefinedArgumentReferenceInScript,
    decreases vars.len(),
{
    let before = undefined_variables(vars.drop_last(), params, action, directive);
    if j < before.len() {
        lemma_undefined_variables_kinds(vars.drop_last(), params, action, directive, j);
    }
}

proof fn lemma_undefined_in_actions_kinds(actions: Seq<DocAction>, params: Seq<Seq<char>>, directive: Seq<char>, j: int)
    requires
        0 <= j < undefined_in_actions(actions, params, directive).len(),
    ensures
        undefined_in_actions(actions, params, directive)[j] is UndefinedArgumentReferenceInScript,
    decreases actions.len(),
{
    let before = undefined_in_actions(actions.drop_last(), params, directive);
    let a = actions.last();
    if j < before.len() {
        lemma_undefined_in_actions_kinds(actions.drop_last(), params, directive, j);
    } else {
        lemma_undefined_variables_kinds(spec_action_variables(a), params, spec_action_id(a), directive, j - before.len());
    }
}

proof fn lemma_parameter_diagnostics_kinds(ps: Seq<DocDoxygenParameter>, j: int)
    requires
        0 <= j < parameter_diagnostics(ps).len(),
    ensures
        !(parameter_diagnostics(ps)[j] is EmptyTargetList) && !(parameter_diagnostics(ps)[j] is EmptyFileList),
    decreases ps.len(),
{
    let before = parameter_diagnostics(ps.drop_last());
    if j < before.len() {
        lemma_parameter_diagnostics_kinds(ps.drop_last(), j);
    }
}

proof fn lemma_directive_diagnostics_kinds(d: DocDoxygenDirective, scripts: Seq<DocScript>, j: int)
    requires
        0 <= j < directive_diagnostics(d, scripts).len(),
    ensures
        !(directive_diagnostics(d, scripts)[j] is EmptyTargetList) && !(directive_diagnostics(d, scripts)[j] is EmptyFileList),
{
    let params = d.parameters@.map_values(|q: DocDoxygenParameter| q.name@);
    let (actions, missing) = directive_actions(d.script, scripts);
    let a = directive_name_diagnostics(d.name@);
    let b = parameter_diagnostics(d.parameters@);
    let c = undefined_in_actions(actions, params, d.name@);
    if j < a.len() {
    } else if j < a.len() + b.len() {
        lemma_parameter_diagnostics_kinds(d.parameters@, j - a.len());
    } else if j < a.len() + b.len() + missing.len() {
    } else {
        lemma_undefined_in_actions_kinds(actions, params, d.name@, j - a.len() - b.len() - missing.len());
    }
}

/// The (key, role) pairs of the model's roles, in order.
pub open spec fn role_pairs_match(pairs: Seq<(String, ir::Role)>, roles: Seq<DocRole>) -> bool {
    &&& pairs.len() == roles.len()
    &&& forall|k: int| 0 <= k < roles.len() ==> (#[trigger] pairs[k]).0@ == roles[k].id@
        && pairs[k].1.label@ == roles[k].label@
        && pairs[k].1.inlining_behavior == ir_inlining(roles[k].inlining_behavior)
}

impl DocManifest {
    /// The roles of the model: the n-th role gets the identifier (0, 0, 2 + n) and is found by its
    /// `id`.
    #[verifier::spinoff_prover]
    pub fn roles(&self) -> (r: ir::Roles)
        requires
            self.model.roles@.len() <= 254,
        ensures
            r.storage@.len() == self.model.roles@.len(),
            forall|n: int| 0 <= n < self.model.roles@.len() ==> #[trigger] r.storage@[n].0 == ir::entry_graph::spec_nth_role_id(n)
                && r.storage@[n].1.label@ == self.model.roles@[n].label@
                && r.storage@[n].1.inlining_behavior == ir_inlining(self.model.roles@[n].inlining_behavior),
            forall|n: int| 0 <= n < self.model.roles@.len() ==> r.pairs().contains_key(#[trigger] self.model.roles@[n].id@),
            forall|n: int| 0 <= n < self.model.roles@.len()
                && (forall|m: int| n < m < self.model.roles@.len() ==> self.model.roles@[m].id@ != self.model.roles@[n].id@)
                ==> r.pairs()[#[trigger] self.model.roles@[n].id@] == ir::entry_graph::spec_nth_role_id(n),
            forall|k: Seq<char>| r.pairs().contains_key(k)
                ==> exists|j: int| 0 <= j < self.model.roles@.len() && #[trigger] self.model.roles@[j].id@ == k,
            ir::entry_graph::pairs_injective(r.pairs()),
            forall|n: int| 0 <= n < self.model.roles@.len()
                ==> #[trigger] ir::entry_graph::is_first_role_with_id(r.storage@, ir::entry_graph::spec_nth_role_id(n), n),
    {
        let mut pairs: Vec<(String, ir::Role)> = Vec::new();
        let mut k: usize = 0;
        while k < self.model.roles.len()
            invariant
                k <= self.model.roles@.len(),
                role_pairs_match(pairs@, self.model.roles@.take(k as int)),
            decreases self.model.roles.len() - k,
        {
            let role = &self.model.roles[k];
            let inlining = match role.inlining_behavior {
                Some(b) => Some(ir::InliningBehavior { ordered: b.ordered }),
                None => None,
            };
            pairs.push((role.id.clone(), ir::Role { label: role.label.clone(), inlining_behavior: inlining }));
            k = k + 1;
        }
        assert(self.model.roles@.take(self.model.roles@.len() as int) =~= self.model.roles@);
        let r = ir::Roles::from(pairs);
        proof {
            assert forall|n: int| 0 <= n < self.model.roles@.len() implies #[trigger] r.storage@[n].0 == ir::entry_graph::spec_nth_role_id(n)
                && r.storage@[n].1.label@ == self.model.roles@[n].label@
                && r.storage@[n].1.inlining_behavior == ir_inlining(self.model.roles@[n].inlining_behavior) by {
                assert(pairs@[n].1.label@ == self.model.roles@[n].label@);
            }
            assert forall|n: int| 0 <= n < self.model.roles@.len() implies r.pairs().contains_key(#[trigger] self.model.roles@[n].id@) by {
                assert(pairs@[n].0@ == self.model.roles@[n].id@);
            }
            assert forall|n: int| 0 <= n < self.model.roles@.len()
                && (forall|m: int| n < m < self.model.roles@.len() ==> self.model.roles@[m].id@ != self.model.roles@[n].id@)
                implies r.pairs()[#[trigger] self.model.roles@[n].id@] == ir::entry_graph::spec_nth_role_id(n) by {
                assert(pairs@[n].0@ == self.model.roles@[n].id@);
                assert forall|m: int| n < m < pairs@.len() implies pairs@[m].0@ != pairs@[n].0@ by {
                    assert(pairs@[m].0@ == self.model.roles@[m].id@);
                }
            }
            assert forall|k2: Seq<char>| r.pairs().contains_key(k2)
                implies exists|j: int| 0 <= j < self.model.roles@.len() && #[trigger] self.model.roles@[j].id@ == k2 by {
                let j = choose|j: int| 0 <= j < pairs@.len() && #[trigger] pairs@[j].0@ == k2;
                assert(self.model.roles@[j].id@ == k2);
            }
        }
        r
    }

    /// The attributes of the model: the n-th attribute gets the identifier n and is found by its
    /// `id`.
    pub fn attributes(&self) -> (r: ir::Attributes)
        ensures
            r.storage@.len() == self.model.attributes@.len(),
            forall|n: int| 0 <= n < self.model.attributes@.len() ==> #[trigger] r.storage@[n].label@ == self.model.attributes@[n].label@
                && r.storage@[n].value_type == spec_ir_value_type(self.model.attributes@[n].value_type)
                && r.storage@[n].repeatable == self.model.attributes@[n].repeatable
                && r.storage@[n].appearance == spec_ir_appearance(self.model.attributes@[n].appearance)
                && (r.storage@[n].description is Some <==> self.model.attributes@[n].description is Some),
            forall|n: int| 0 <= n < self.model.attributes@.len() ==> r.pairs().contains_key(#[trigger] self.model.attributes@[n].id@),
            forall|n: int| 0 <= n < self.model.attributes@.len()
                && (forall|m: int| n < m < self.model.attributes@.len() ==> self.model.attributes@[m].id@ != self.model.attributes@[n].id@)
                ==> r.pairs()[#[trigger] self.model.attributes@[n].id@] == ir::entry_graph::AttributeID(n as usize),
            forall|k: Seq<char>| r.pairs().contains_key(k)
                ==> exists|j: int| 0 <= j < self.model.attributes@.len() && #[trigger] self.model.attributes@[j].id@ == k,
            ir::entry_graph::pairs_injective(r.pairs()),
    {
        let mut pairs: Vec<(String, ir::Attribute)> = Vec::new();
        let mut k: usize = 0;
        while k < self.model.attributes.len()
            invariant
                k <= self.model.attributes@.len(),
                pairs@.len() == k,
                forall|j: int| 0 <= j < k ==> (#[trigger] pairs@[j]).0@ == self.model.attributes@[j].id@
                    && pairs@[j].1.label@ == self.model.attributes@[j].label@
                    && pairs@[j].1.value_type == spec_ir_value_type(self.model.attributes@[j].value_type)
                    && pairs@[j].1.repeatable == self.model.attributes@[j].repeatable
                    && pairs@[j].1.appearance == spec_ir_appearance(self.model.attributes@[j].appearance)
                    && (pairs@[j].1.description is Some <==> self.model.attributes@[j].description is Some),
            decreases self.model.attributes.len() - k,
        {
            let a = &self.model.attributes[k];
            let copy = DocAttribute {
                id: a.id.clone(),
                label: a.label.clone(),
                value_type: a.value_type,
                repeatable: a.repeatable,
                appearance: a.appearance,
                description: match &a.description {
                    Some(d) => Some(d.clone()),
                    None => None,
                },
            };
            pairs.push((a.id.clone(), copy.into_ir()));
            k = k + 1;
        }
        let r = ir::Attributes::from(pairs);
        proof {
            assert forall|n: int| 0 <= n < self.model.attributes@.len() implies r.pairs().contains_key(#[trigger] self.model.attributes@[n].id@) by {
                assert(pairs@[n].0@ == self.model.attributes@[n].id@);
            }
            assert forall|n: int| 0 <= n < self.model.attributes@.len()
                && (forall|m: int| n < m < self.model.attributes@.len() ==> self.model.attributes@[m].id@ != self.model.attributes@[n].id@)
                implies r.pairs()[#[trigger] self.model.attributes@[n].id@] == ir::entry_graph::AttributeID(n as usize) by {
                assert(pairs@[n].0@ == self.model.attributes@[n].id@);
                assert forall|m: int| n < m < pairs@.len() implies pairs@[m].0@ != pairs@[n].0@ by {
                    assert(pairs@[m].0@ == self.model.attributes@[m].id@);
                }
            }
            assert forall|k2: Seq<char>| r.pairs().contains_key(k2)
                implies exists|j: int| 0 <= j < self.model.attributes@.len() && #[trigger] self.model.attributes@[j].id@ == k2 by {
                let j = choose|j: int| 0 <= j < pairs@.len() && #[trigger] pairs@[j].0@ == k2;
                assert(self.model.attributes@[j].id@ == k2);
            }
        }
        r
    }

    /// The targets to compile: each named after the manifest's target (or its position), with
    /// its files, dialect, language and encoding, the built-in directives and the default C
    /// settings.
    pub fn targets(&self) -> (r: Vec<crate::driver::Target>)
        ensures
            r@.len() == self.targets@.len(),
            forall|k: int| 0 <= k < r@.len() ==> (#[trigger] r@[k]).name@ == target_label(self.targets@[k], k as nat)
                && string_views(r@[k].files@) == string_views(self.targets@[k].files@)
                && r@[k].dialect == ir::Dialect::Doxygen
                && (r@[k].language is Some <==> self.targets@[k].language is Some)
                && (r@[k].language is Some ==> r@[k].language == Some(ir::Language::C))
                && r@[k].encoding == self.targets@[k].encoding
                && r@[k].dialect_config.doxygen.directives@.map_values(
                    |e: (String, crate::frontend::doxygen::directive::DoxygenDirective<'static>)| e.0@) == spec_builtin_names()
                && crate::frontend::c::sema_gen::is_default_config(r@[k].language_config.c.sema_gen)
                && r@[k].language_config.c.sema_gen.wf() && r@[k].dialect_config.doxygen.wf(),
    {
        let mut out: Vec<crate::driver::Target> = Vec::new();
        let mut k: usize = 0;
        while k < self.targets.len()
            invariant
                k <= self.targets@.len(),
                out@.len() == k,
                forall|j: int| 0 <= j < k ==> (#[trigger] out@[j]).name@ == target_label(self.targets@[j], j as nat)
                    && string_views(out@[j].files@) == string_views(self.targets@[j].files@)
                    && out@[j].dialect == ir::Dialect::Doxygen
                    && (out@[j].language is Some <==> self.targets@[j].language is Some)
                    && (out@[j].language is Some ==> out@[j].language == Some(ir::Language::C))
                    && out@[j].encoding == self.targets@[j].encoding
                    && out@[j].dialect_config.doxygen.directives@.map_values(
                        |e: (String, crate::frontend::doxygen::directive::DoxygenDirective<'static>)| e.0@) == spec_builtin_names()
                    && crate::frontend::c::sema_gen::is_default_config(out@[j].language_config.c.sema_gen)
                    && out@[j].language_config.c.sema_gen.wf() && out@[j].dialect_config.doxygen.wf(),
            decreases self.targets.len() - k,
        {
            let t = &self.targets[k];
            let name = match &t.name {
                Some(n) => n.clone(),
                None => decimal_string(k),
            };
            let mut files: Vec<String> = Vec::new();
            let mut f: usize = 0;
            while f < t.files.len()
                invariant
                    f <= t.files@.len(),
                    string_views(files@) == string_views(t.files@.take(f as int)),
                decreases t.files.len() - f,
            {
                remember(&mut files, t.files[f].as_str());
                assert(string_views(t.files@.take(f + 1)) =~= string_views(t.files@.take(f as int)).push(t.files@[f as int]@));
                f = f + 1;
            }
            assert(t.files@.take(t.files@.len() as int) =~= t.files@);
            let language = match &t.language {
                Some(l) => Some(l.to_ir()),
                None => None,
            };
            out.push(crate::driver::Target {
                name,
                files,
                dialect: t.dialect.to_ir(),
                language,
                encoding: t.encoding,
                dialect_config: crate::frontend::DialectConfig {
                    doxygen: crate::frontend::doxygen::DoxygenSettings { directives: builtins() },
                },
                language_config: crate::frontend::LanguageSettings {
                    c: crate::frontend::c::CLanguageSettings { sema_gen: crate::frontend::c::sema_gen::Config::default() },
                },
            });
            k = k + 1;
        }
        out
    }
}

} // verus!
