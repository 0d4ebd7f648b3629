#![allow(non_snake_case)]
#![allow(non_camel_case_types)]
#![allow(non_upper_case_globals)]

use vstd::prelude::*;
use std::collections::hash_map::RandomState;
use crate::compiler::strings::{str_eq, CowStr};
use crate::frontend::c;
use crate::ir::rich_text::RichText;
use crate::ir::{Language, spec_language_code};

verus! {

/// What a symbol looks like.
#[derive(Clone, Copy, Debug, PartialEq, Eq, Structural)]
pub enum SymbolLikeness {
    Function,
    Variable,
    Constant,
    Structure,
    Enumeration,
    EnumerationCase,
    Statement,
}

/// What a file looks like.
#[derive(Clone, Copy, Debug, PartialEq, Eq, Structural)]
pub enum ArtifactLikeness {
    GenericFile,
    Source,
    Header,
    HumanReadableData,
}

pub open spec fn spec_symbol_likeness_code(l: SymbolLikeness) -> u8 {
    match l {
        SymbolLikeness::Function => 1,
        SymbolLikeness::Variable => 2,
        SymbolLikeness::Constant => 3,
        SymbolLikeness::Structure => 4,
        SymbolLikeness::Enumeration => 5,
        SymbolLikeness::EnumerationCase => 6,
        SymbolLikeness::Statement => 7,
    }
}

pub open spec fn spec_artifact_likeness_code(l: ArtifactLikeness) -> u8 {
    match l {
        ArtifactLikeness::GenericFile => 0,
        ArtifactLikeness::Source => 1,
        ArtifactLikeness::Header => 2,
        ArtifactLikeness::HumanReadableData => 3,
    }
}

impl SymbolLikeness {
    /// The number by which the likeness is known in role identifiers.
    pub fn code(&self) -> (r: u8)
        ensures
            r == spec_symbol_likeness_code(*self),
    {
        match self {
            SymbolLikeness::Function => 1,
            SymbolLikeness::Variable => 2,
            SymbolLikeness::Constant => 3,
            SymbolLikeness::Structure => 4,
            SymbolLikeness::Enumeration => 5,
            SymbolLikeness::EnumerationCase => 6,
            SymbolLikeness::Statement => 7,
        }
    }
}

impl ArtifactLikeness {
    /// The number by which the likeness is known in role identifiers.
    pub fn code(&self) -> (r: u8)
        ensures
            r == spec_artifact_likeness_code(*self),
    {
        match self {
            ArtifactLikeness::GenericFile => 0,
            ArtifactLikeness::Source => 1,
            ArtifactLikeness::Header => 2,
            ArtifactLikeness::HumanReadableData => 3,
        }
    }
}

/// The kind of a symbol that the library keeps as raw text.
#[derive(Clone)]
pub struct SymbolKind {
    pub id: String,
    pub highlighting_language: Language,
    pub likeness: SymbolLikeness,
}

/// A symbol attached to an entry.
pub enum Symbol {
    c(c::sema::Symbol),
    raw(SymbolKind, String),
}

impl Symbol {
    pub fn likeness(&self) -> (r: SymbolLikeness)
        ensures
            match *self {
                Symbol::c(symbol) => r == c::sema::spec_symbol_likeness(symbol),
                Symbol::raw(kind, _) => r == kind.likeness,
            },
    {
        match self {
            Symbol::c(symbol) => symbol.likeness(),
            Symbol::raw(kind, _) => kind.likeness,
        }
    }
}

#[derive(Clone)]
pub struct ExpressionKind {
    pub highlighting_language: Language,
}

pub enum Expression {
    c(c::sema::Expression),
    raw(ExpressionKind, String),
}

/// Role identifier: likeness, language, and whether it is a symbol (1) or an artifact (2).
#[derive(Clone, Copy, Debug, Hash, PartialEq, Eq, Structural)]
pub struct RoleID(pub u8, pub u8, pub u8);

/// The role identifier of a symbol of a language.
pub open spec fn spec_symbol_role(language: Language, likeness: SymbolLikeness) -> RoleID {
    RoleID(spec_symbol_likeness_code(likeness), spec_language_code(language), 1)
}

/// The role identifier of a file of a language.
pub open spec fn spec_artifact_role(language: Language, likeness: ArtifactLikeness) -> RoleID {
    RoleID(spec_artifact_likeness_code(likeness), spec_language_code(language), 2)
}

/// The language and kind of file that a file-name extension names.
pub open spec fn spec_language_artifact_from_extension(extension: Seq<char>) -> Option<(Language, ArtifactLikeness)> {
    if extension == "h"@ {
        Some((Language::C, ArtifactLikeness::Header))
    } else if extension == "c"@ {
        Some((Language::C, ArtifactLikeness::Source))
    } else if extension == "hpp"@ {
        Some((Language::CPlusPlus, ArtifactLikeness::Header))
    } else if extension == "cpp"@ {
        Some((Language::CPlusPlus, ArtifactLikeness::Source))
    } else if extension == "swift"@ {
        Some((Language::CPlusPlus, ArtifactLikeness::Source))
    } else if extension == "rs"@ {
        Some((Language::Rust, ArtifactLikeness::Source))
    } else if extension == "js"@ {
        Some((Language::JavaScript, ArtifactLikeness::Source))
    } else if extension == "java"@ {
        Some((Language::Java, ArtifactLikeness::Source))
    } else if extension == "json"@ {
        Some((Language::JSON, ArtifactLikeness::HumanReadableData))
    } else {
        None
    }
}

/// The role of a file with the given extension; a generic file where the extension is unknown.
pub open spec fn spec_role_from_extension(extension: Seq<char>) -> RoleID {
    match spec_language_artifact_from_extension(extension) {
        Some((language, likeness)) => spec_artifact_role(language, likeness),
        None => RoleID(0, 0, 2),
    }
}

/// Files of the C family: a header's extension starts with `h`, and no other does; and the
/// extension of a header with its `h` turned into `c` names a source file of the same language,
/// whose role differs from the header's.
pub proof fn law_headers_and_sources(e: Seq<char>)
    ensures
        match spec_language_artifact_from_extension(e) {
            Some((l, k)) => (l == Language::C || l == Language::CPlusPlus)
                ==> (k == ArtifactLikeness::Header <==> (e.len() > 0 && e[0] == 'h')),
            None => true,
        },
        match spec_language_artifact_from_extension(e) {
            Some((l, k)) => k == ArtifactLikeness::Header
                ==> spec_language_artifact_from_extension(e.update(0, 'c')) == Some((l, ArtifactLikeness::Source))
                    && spec_role_from_extension(e) != spec_role_from_extension(e.update(0, 'c')),
            None => true,
        },
{
    reveal_strlit("h");
    reveal_strlit("c");
    reveal_strlit("hpp");
    reveal_strlit("cpp");
    reveal_strlit("swift");
    reveal_strlit("rs");
    reveal_strlit("js");
    reveal_strlit("java");
    reveal_strlit("json");
    if e == "h"@ {  assert(e.update(0, 'c') =~= "c"@); assert(e.update(0, 'c') != "h"@) by { assert(e.update(0, 'c')[0] != "h"@[0]); } }
    if e == "c"@ { assert(e != "h"@) by { assert(e[0] != "h"@[0]); } }
    if e == "hpp"@ { assert(e != "h"@) by { assert(e.len() != "h"@.len()); } assert(e != "c"@) by { assert(e.len() != "c"@.len()); } assert(e.update(0, 'c') =~= "cpp"@); assert("cpp"@ != "h"@) by { assert("cpp"@.len() != "h"@.len()); } assert("cpp"@ != "c"@) by { assert("cpp"@.len() != "c"@.len()); } assert("cpp"@ != "hpp"@) by { assert("cpp"@[0] != "hpp"@[0]); } }
    if e == "cpp"@ { assert(e != "h"@) by { assert(e.len() != "h"@.len()); } assert(e != "c"@) by { assert(e.len() != "c"@.len()); } assert(e != "hpp"@) by { assert(e[0] != "hpp"@[0]); } }
    if e == "swift"@ { assert(e != "h"@) by { assert(e.len() != "h"@.len()); } assert(e != "c"@) by { assert(e.len() != "c"@.len()); } assert(e != "hpp"@) by { assert(e.len() != "hpp"@.len()); } assert(e != "cpp"@) by { assert(e.len() != "cpp"@.len()); } }
    if e == "rs"@ { assert(e != "h"@) by { assert(e.len() != "h"@.len()); } assert(e != "c"@) by { assert(e.len() != "c"@.len()); } assert(e != "hpp"@) by { assert(e.len() != "hpp"@.len()); } assert(e != "cpp"@) by { assert(e.len() != "cpp"@.len()); } assert(e != "swift"@) by { assert(e.len() != "swift"@.len()); } }
    if e == "js"@ { assert(e != "h"@) by { assert(e.len() != "h"@.len()); } assert(e != "c"@) by { assert(e.len() != "c"@.len()); } assert(e != "hpp"@) by { assert(e.len() != "hpp"@.len()); } assert(e != "cpp"@) by { assert(e.len() != "cpp"@.len()); } assert(e != "swift"@) by { assert(e.len() != "swift"@.len()); } assert(e != "rs"@) by { assert(e[0] != "rs"@[0]); } }
    if e == "java"@ { assert(e != "h"@) by { assert(e.len() != "h"@.len()); } assert(e != "c"@) by { assert(e.len() != "c"@.len()); } assert(e != "hpp"@) by { assert(e.len() != "hpp"@.len()); } assert(e != "cpp"@) by { assert(e.len() != "cpp"@.len()); } assert(e != "swift"@) by { assert(e.len() != "swift"@.len()); } assert(e != "rs"@) by { assert(e.len() != "rs"@.len()); } assert(e != "js"@) by { assert(e.len() != "js"@.len()); } }
    if e == "json"@ { assert(e != "h"@) by { assert(e.len() != "h"@.len()); } assert(e != "c"@) by { assert(e.len() != "c"@.len()); } assert(e != "hpp"@) by { assert(e.len() != "hpp"@.len()); } assert(e != "cpp"@) by { assert(e.len() != "cpp"@.len()); } assert(e != "swift"@) by { assert(e.len() != "swift"@.len()); } assert(e != "rs"@) by { assert(e.len() != "rs"@.len()); } assert(e != "js"@) by { assert(e.len() != "js"@.len()); } assert(e != "java"@) by { assert(e[1] != "java"@[1]); } }
}

impl RoleID {
    /// The role of a plain group.
    pub fn group() -> (r: RoleID)
        ensures
            r == RoleID(0, 0, 0),
    {
        RoleID(0, 0, 0)
    }

    /// Whether an entry of this role may have a member of `member_role`: always.
    pub fn is_member_allowed(&self, member_role: RoleID) -> (r: bool)
        ensures
            r,
    {
        true
    }

    pub fn symbol(language: Language, likeness: SymbolLikeness) -> (r: RoleID)
        ensures
            r == spec_symbol_role(language, likeness),
    {
        RoleID(likeness.code(), language.code(), 1)
    }

    pub fn artifact(language: Language, likeness: ArtifactLikeness) -> (r: RoleID)
        ensures
            r == spec_artifact_role(language, likeness),
    {
        RoleID(likeness.code(), language.code(), 2)
    }

    pub fn from_extension(extension: &str) -> (r: RoleID)
        ensures
            r == spec_role_from_extension(extension@),
    {
        match language_artifact_from_extension(extension) {
            Some((language, likeness)) => Self::artifact(language, likeness),
            None => RoleID(0, 0, 2),
        }
    }
}

pub fn language_artifact_from_extension(extension: &str) -> (r: Option<(Language, ArtifactLikeness)>)
    ensures
        r == spec_language_artifact_from_extension(extension@),
{
    if str_eq(extension, "h") {
        Some((Language::C, ArtifactLikeness::Header))
    } else if str_eq(extension, "c") {
        Some((Language::C, ArtifactLikeness::Source))
    } else if str_eq(extension, "hpp") {
        Some((Language::CPlusPlus, ArtifactLikeness::Header))
    } else if str_eq(extension, "cpp") {
        Some((Language::CPlusPlus, ArtifactLikeness::Source))
    } else if str_eq(extension, "swift") {
        Some((Language::CPlusPlus, ArtifactLikeness::Source))
    } else if str_eq(extension, "rs") {
        Some((Language::Rust, ArtifactLikeness::Source))
    } else if str_eq(extension, "js") {
        Some((Language::JavaScript, ArtifactLikeness::Source))
    } else if str_eq(extension, "java") {
        Some((Language::Java, ArtifactLikeness::Source))
    } else if str_eq(extension, "json") {
        Some((Language::JSON, ArtifactLikeness::HumanReadableData))
    } else {
        None
    }
}

#[derive(Debug, Clone)]
pub enum RoleLookupError {
    UnknownRoleKey(String),
}

#[derive(Debug, Clone)]
pub enum AttributeLookupError {
    UnknownAttributeKey(String),
}

#[derive(Debug, Clone)]
pub enum EntryLookupError {
    UnknownEntryID(String),
}

impl RoleLookupError {
    pub fn message(&self) -> (r: String)
        ensures
            self matches RoleLookupError::UnknownRoleKey(k) && r@ == "Unknown role '"@ + k@ + "'"@,
    {
        match self {
            RoleLookupError::UnknownRoleKey(k) => crate::compiler::strings::concat3("Unknown role '", k.as_str(), "'"),
        }
    }
}

impl AttributeLookupError {
    pub fn message(&self) -> (r: String)
        ensures
            self matches AttributeLookupError::UnknownAttributeKey(k) && r@ == "Unknown attribute '"@ + k@ + "'"@,
    {
        match self {
            AttributeLookupError::UnknownAttributeKey(k) => crate::compiler::strings::concat3("Unknown attribute '", k.as_str(), "'"),
        }
    }
}

impl EntryLookupError {
    pub fn message(&self) -> (r: String)
        ensures
            self matches EntryLookupError::UnknownEntryID(k) && r@ == "Unknown entry '"@ + k@ + "'"@,
    {
        match self {
            EntryLookupError::UnknownEntryID(k) => crate::compiler::strings::concat3("Unknown entry '", k.as_str(), "'"),
        }
    }
}

/// The value of an attribute.
#[derive(Clone, Debug)]
pub enum Value<'a> {
    /// Rich-text value
    RichText(RichText),
    /// String value
    String(CowStr<'a>),
    Void,
    /// URI, e.g. mailto link
    Link(url::Url, CowStr<'a>),
    URI(url::Url),
    /// Integer value
    SignedInteger(isize),
    /// Integer value
    UnsignedInteger(usize),
    Boolean(bool),
    Version(semver::Version),
}

/// The kind of an attribute's value.
#[derive(Clone, Copy, Debug, PartialEq, Eq, Structural)]
pub enum ValueType {
    RichText,
    String,
    Void,
    Link,
    URI,
    SignedInteger,
    UnsignedInteger,
    Boolean,
    Version,
}

impl<'a> Value<'a> {
    /// The same value, with no borrowed text left in it.
    pub fn into_static(self) -> (r: Value<'static>)
        ensures
            self matches Value::String(s) ==> r matches Value::String(t) && t@ == s@,
            self matches Value::Link(u, s) ==> r matches Value::Link(v, t) && t@ == s@ && v == u,
            self matches Value::RichText(x) ==> r matches Value::RichText(y) && y == x,
            self is Void ==> r is Void,
            self matches Value::URI(u) ==> r matches Value::URI(v) && v == u,
            self matches Value::SignedInteger(i) ==> r matches Value::SignedInteger(j) && j == i,
            self matches Value::UnsignedInteger(i) ==> r matches Value::UnsignedInteger(j) && j == i,
            self matches Value::Boolean(b) ==> r matches Value::Boolean(c) && c == b,
            self matches Value::Version(u) ==> r matches Value::Version(v) && v == u,
    {
        match self {
            Value::String(s) => Value::String(s.into_static()),
            Value::Link(url, s) => Value::Link(url, s.into_static()),
            Value::RichText(t) => Value::RichText(t),
            Value::Void => Value::Void,
            Value::URI(u) => Value::URI(u),
            Value::SignedInteger(i) => Value::SignedInteger(i),
            Value::UnsignedInteger(i) => Value::UnsignedInteger(i),
            Value::Boolean(b) => Value::Boolean(b),
            Value::Version(v) => Value::Version(v),
        }
    }
}

#[derive(Clone)]
pub struct MemberSection {
    pub title: String,
    pub description: Option<RichText>,
    pub members: Vec<String>,
}

/// A section that characterizes an entry, such as its parameters or its return value.
#[derive(Clone, Debug)]
pub struct CharacteristicSection(pub CowStr<'static>);

impl CharacteristicSection {
    /// A section of a predefined identifier, borrowing it.
    pub fn predefined(identifier: &'static str) -> (r: Self)
        ensures
            r == CharacteristicSection(CowStr::Borrowed(identifier)),
            r.0@ == identifier@,
    {
        CharacteristicSection(CowStr::Borrowed(identifier))
    }

    pub fn from_str(s: &str) -> (r: Self)
        ensures
            r.0@ == s@,
    {
        CharacteristicSection(CowStr::Owned(String::from_str(s)))
    }
}

#[derive(Clone, Debug)]
pub struct Modifier(pub String);

pub enum CharacteristicSectionListKind {
    DefinitionList,
    UnorderedList,
    OrderedList,
}

pub struct CharacteristicModifier(pub String);

/// A page of documentation.
pub struct Entry {
    pub graph_id: Option<usize>,
    pub role: RoleID,
    pub title: String,
    pub abstract_: Option<RichText>,
    pub description: Option<RichText>,
    pub attributes: AttributeValues<'static>,
    pub symbols: Vec<Symbol>,
    pub member_sections: Vec<MemberSection>,
}

impl Entry {
    /// A new group entry with a title and nothing else.
    pub fn named(title: String) -> (r: Self)
        ensures
            r.graph_id is None,
            r.role == RoleID(0, 0, 0),
            r.title == title,
            r.abstract_ is None,
            r.description is None,
            r.attributes.0@.len() == 0,
            r.symbols@.len() == 0,
            r.member_sections@.len() == 0,
    {
        Entry {
            graph_id: None,
            role: RoleID::group(),
            title: title,
            abstract_: None,
            description: None,
            attributes: AttributeValues(Vec::new()),
            symbols: Vec::new(),
            member_sections: Vec::new(),
        }
    }

    pub fn assign_role(&mut self, role: RoleID)
        ensures
            final(self).role == role,
            final(self).graph_id == old(self).graph_id,
            final(self).title == old(self).title,
            final(self).member_sections@ == old(self).member_sections@,
            final(self).symbols@ == old(self).symbols@,
    {
        self.role = role
    }

    pub fn can_add_member(&self, role: RoleID) -> (r: bool)
        ensures
            r,
    {
        self.role.is_member_allowed(role)
    }

    /// Adds a member section at the end.
    pub fn add_member_section(&mut self, title: String, description: Option<RichText>)
        ensures
            final(self).member_sections@.len() == old(self).member_sections@.len() + 1,
            final(self).member_sections@.drop_last() == old(self).member_sections@,
            final(self).member_sections@.last().title == title,
            final(self).member_sections@.last().description == description,
            final(self).member_sections@.last().members@.len() == 0,
            *final(self) == (Entry { member_sections: final(self).member_sections, ..*old(self) }),
    {
        self.member_sections.push(MemberSection { title, description, members: Vec::new() });
        assert(self.member_sections@.drop_last() =~= old(self).member_sections@);
    }

    /// Appends symbols.
    pub fn add_symbols(&mut self, symbols: Vec<Symbol>)
        ensures
            final(self).symbols@ == old(self).symbols@ + symbols@,
            final(self).role == old(self).role,
            final(self).graph_id == old(self).graph_id,
            final(self).title == old(self).title,
    {
        if self.symbols.len() == 0 {
            self.symbols = symbols;
            assert(self.symbols@ =~= old(self).symbols@ + symbols@);
        } else {
            let mut symbols = symbols;
            self.symbols.append(&mut symbols);
        }
    }

    pub fn set_abstract(&mut self, abstract_: RichText)
        ensures
            *final(self) == (Entry { abstract_: Some(abstract_), ..*old(self) }),
    {
        self.abstract_ = Some(abstract_)
    }
}

#[derive(Clone, Copy, Debug, PartialEq, Eq, Structural)]
pub struct InliningBehavior {
    pub ordered: bool,
}

#[derive(Clone, Debug)]
pub struct Role {
    pub label: String,
    pub inlining_behavior: Option<InliningBehavior>,
}

impl Role {
    pub fn inline(&self) -> (r: bool)
        ensures
            r == self.inlining_behavior is Some,
    {
        self.inlining_behavior.is_some()
    }
}

// ---------------------------------------------------------------------------------------
// The two-way maps between keys and identifiers, from `bimap`.

#[verifier::external_type_specification]
#[verifier::external_body]
#[verifier::reject_recursive_types(L)]
#[verifier::reject_recursive_types(R)]
#[verifier::reject_recursive_types(LS)]
#[verifier::reject_recursive_types(RS)]
pub struct ExBiHashMap<L, R, LS, RS>(bimap::BiHashMap<L, R, LS, RS>);

/// The pairs a key-to-role two-way map holds, keyed by the key's characters.
pub uninterp spec fn role_map_pairs(m: bimap::BiHashMap<String, RoleID, RandomState, RandomState>) -> Map<Seq<char>, RoleID>;

/// The pairs a key-to-attribute two-way map holds, keyed by the key's characters.
pub uninterp spec fn attribute_map_pairs(m: bimap::BiHashMap<String, AttributeID, RandomState, RandomState>) -> Map<Seq<char>, AttributeID>;

/// The pairs of a two-way map after `insert(key, value)`: any pair with that key and any pair
/// with that value leave, and the new pair comes in.
pub open spec fn bimap_inserted<V>(m: Map<Seq<char>, V>, key: Seq<char>, value: V) -> Map<Seq<char>, V> {
    Map::new(
        |k: Seq<char>| k == key || (m.contains_key(k) && m[k] != value),
        |k: Seq<char>| if k == key { value } else { m[k] },
    )
}

/// `BiHashMap::new()`: holds no pairs.
#[verifier::external_body]
fn role_map_new() -> (r: bimap::BiHashMap<String, RoleID, RandomState, RandomState>)
    ensures
        role_map_pairs(r).dom().is_empty(),
{
    bimap::BiHashMap::new()
}

/// `BiHashMap::insert(key, id)`: removes the pairs with that key or that id, then adds the pair.
#[verifier::external_body]
fn role_map_insert(map: &mut bimap::BiHashMap<String, RoleID, RandomState, RandomState>, key: String, id: RoleID)
    ensures
        role_map_pairs(*final(map)) == bimap_inserted(role_map_pairs(*old(map)), key@, id),
{
    map.insert(key, id);
}

/// `BiHashMap::get_by_left(key)`: the id paired with the key.
#[verifier::external_body]
fn role_map_get_by_left(m: &bimap::BiHashMap<String, RoleID, RandomState, RandomState>, key: &str) -> (r: Option<RoleID>)
    ensures
        r == (if role_map_pairs(*m).contains_key(key@) { Some(role_map_pairs(*m)[key@]) } else { None }),
{
    m.get_by_left(key).copied()
}

/// `BiHashMap::get_by_right(id)`: the key paired with the id.
#[verifier::external_body]
fn role_map_get_by_right<'a>(m: &'a bimap::BiHashMap<String, RoleID, RandomState, RandomState>, id: &RoleID) -> (r: Option<&'a String>)
    ensures
        r matches Some(k) ==> role_map_pairs(*m).contains_key(k@) && role_map_pairs(*m)[k@] == *id,
        r is None ==> forall|k: Seq<char>| role_map_pairs(*m).contains_key(k) ==> role_map_pairs(*m)[k] != *id,
{
    m.get_by_right(id)
}

/// `BiHashMap::new()`: holds no pairs.
#[verifier::external_body]
fn attribute_map_new() -> (r: bimap::BiHashMap<String, AttributeID, RandomState, RandomState>)
    ensures
        attribute_map_pairs(r).dom().is_empty(),
{
    bimap::BiHashMap::new()
}

/// `BiHashMap::insert(key, id)`: removes the pairs with that key or that id, then adds the pair.
#[verifier::external_body]
fn attribute_map_insert(map: &mut bimap::BiHashMap<String, AttributeID, RandomState, RandomState>, key: String, id: AttributeID)
    ensures
        attribute_map_pairs(*final(map)) == bimap_inserted(attribute_map_pairs(*old(map)), key@, id),
{
    map.insert(key, id);
}

/// `BiHashMap::get_by_left(key)`: the id paired with the key.
#[verifier::external_body]
fn attribute_map_get_by_left(m: &bimap::BiHashMap<String, AttributeID, RandomState, RandomState>, key: &str) -> (r: Option<AttributeID>)
    ensures
        r == (if attribute_map_pairs(*m).contains_key(key@) { Some(attribute_map_pairs(*m)[key@]) } else { None }),
{
    m.get_by_left(key).copied()
}

/// `BiHashMap::get_by_right(id)`: the key paired with the id.
#[verifier::external_body]
fn attribute_map_get_by_right<'a>(m: &'a bimap::BiHashMap<String, AttributeID, RandomState, RandomState>, id: &AttributeID) -> (r: Option<&'a String>)
    ensures
        r matches Some(k) ==> attribute_map_pairs(*m).contains_key(k@) && attribute_map_pairs(*m)[k@] == *id,
        r is None ==> forall|k: Seq<char>| attribute_map_pairs(*m).contains_key(k) ==> attribute_map_pairs(*m)[k] != *id,
{
    m.get_by_right(id)
}

// ---------------------------------------------------------------------------------------

/// `k` is the position of the first role stored under `id`.
pub open spec fn is_first_role_with_id(storage: Seq<(RoleID, Role)>, id: RoleID, k: int) -> bool {
    &&& 0 <= k < storage.len()
    &&& storage[k].0 == id
    &&& forall|j: int| 0 <= j < k ==> storage[j].0 != id
}

/// No two keys are paired with the same identifier, so that a lookup by identifier finds the
/// one key paired with it.
pub open spec fn pairs_injective<V>(m: Map<Seq<char>, V>) -> bool {
    forall|k1: Seq<char>, k2: Seq<char>| m.contains_key(k1) && m.contains_key(k2) && #[trigger] m[k1] == #[trigger] m[k2] ==> k1 == k2
}

/// The roles that entries can have: a key and a description for each role identifier.
pub struct Roles {
    pub storage: Vec<(RoleID, Role)>,
    pub map: bimap::BiHashMap<String, RoleID, RandomState, RandomState>,
}

/// The identifier that the n-th role gets.
pub open spec fn spec_nth_role_id(n: int) -> RoleID {
    RoleID(0, 0, (2 + n) as u8)
}

impl Roles {
    pub open spec fn pairs(&self) -> Map<Seq<char>, RoleID> {
        role_map_pairs(self.map)
    }

    pub fn default() -> (r: Self)
        ensures
            r.storage@.len() == 0,
            r.pairs() == Map::<Seq<char>, RoleID>::empty(),
    {
        Roles { storage: Vec::new(), map: role_map_new() }
    }

    /// Roles from (key, role) pairs; the n-th role gets the identifier (0, 0, 2 + n), and each
    /// key names the identifier of its last pair.
    pub fn from(roles: Vec<(String, Role)>) -> (r: Self)
        requires
            roles@.len() <= 254,
        ensures
            r.storage@.len() == roles@.len(),
            forall|n: int| 0 <= n < roles@.len() ==> #[trigger] r.storage@[n].0 == spec_nth_role_id(n)
                && r.storage@[n].1.label == roles@[n].1.label
                && r.storage@[n].1.inlining_behavior == roles@[n].1.inlining_behavior,
            forall|n: int| 0 <= n < roles@.len() ==> r.pairs().contains_key(#[trigger] roles@[n].0@),
            forall|n: int| 0 <= n < roles@.len()
                && (forall|m: int| n < m < roles@.len() ==> roles@[m].0@ != roles@[n].0@)
                ==> r.pairs()[#[trigger] roles@[n].0@] == spec_nth_role_id(n),
            forall|k: Seq<char>| r.pairs().contains_key(k)
                ==> exists|j: int| 0 <= j < roles@.len() && #[trigger] roles@[j].0@ == k,
            pairs_injective(r.pairs()),
            forall|n: int| 0 <= n < roles@.len() ==> #[trigger] is_first_role_with_id(r.storage@, spec_nth_role_id(n), n),
    {
        let mut s = Roles::default();
        let mut roles = roles;
        let ghost orig = roles@;
        let n = roles.len();
        let mut ix: usize = 0;
        while ix < n
            invariant
                n == orig.len(),
                n <= 254,
                ix <= n,
                roles@ == orig.subrange(ix as int, n as int),
                s.storage@.len() == ix,
                forall|k: int| 0 <= k < ix ==> #[trigger] s.storage@[k].0 == spec_nth_role_id(k)
                    && s.storage@[k].1.label == orig[k].1.label
                    && s.storage@[k].1.inlining_behavior == orig[k].1.inlining_behavior,
                forall|k: int| 0 <= k < ix ==> s.pairs().contains_key(#[trigger] orig[k].0@),
                forall|k: int| 0 <= k < ix && (forall|m: int| k < m < ix ==> orig[m].0@ != orig[k].0@)
                    ==> s.pairs()[#[trigger] orig[k].0@] == spec_nth_role_id(k),
                forall|k: Seq<char>| s.pairs().contains_key(k) ==> exists|j: int| 0 <= j < ix && orig[j].0@ == k
                    && #[trigger] s.pairs()[k] == spec_nth_role_id(j),
                pairs_injective(s.pairs()),
            decreases n - ix,
        {
            let ghost before = s.pairs();
            let (key, role) = roles.remove(0);
            assert(roles@ =~= orig.subrange(ix + 1, n as int));
            let id = RoleID(0, 0, 2 + ix as u8);
            assert(id == spec_nth_role_id(ix as int));
            role_map_insert(&mut s.map, key, id);
            s.storage.push((id, Role { label: role.label, inlining_behavior: role.inlining_behavior }));
            proof {
                assert forall|k: Seq<char>| before.contains_key(k) implies before[k] != id by {
                    let j = choose|j: int| 0 <= j < ix && orig[j].0@ == k && #[trigger] before[k] == spec_nth_role_id(j);
                }
                assert forall|k: int| 0 <= k < ix + 1 implies s.pairs().contains_key(#[trigger] orig[k].0@) by {
                    if k < ix {
                        assert(before.contains_key(orig[k].0@));
                    }
                }
                assert forall|k: int| 0 <= k < ix + 1 && (forall|m: int| k < m < ix + 1 ==> orig[m].0@ != orig[k].0@)
                    implies s.pairs()[#[trigger] orig[k].0@] == spec_nth_role_id(k) by {
                    if k < ix {
                        assert(orig[ix as int].0@ != orig[k].0@);
                        assert(before.contains_key(orig[k].0@));
                    }
                }
                assert forall|k: Seq<char>| s.pairs().contains_key(k) implies exists|j: int| 0 <= j < ix + 1 && orig[j].0@ == k
                    && #[trigger] s.pairs()[k] == spec_nth_role_id(j) by {
                    if k != orig[ix as int].0@ {
                        assert(before.contains_key(k));
                        let j = choose|j: int| 0 <= j < ix && orig[j].0@ == k && #[trigger] before[k] == spec_nth_role_id(j);
                        assert(s.pairs()[k] == spec_nth_role_id(j));
                    } else {
                        assert(s.pairs()[k] == spec_nth_role_id(ix as int));
                    }
                }
            }
            ix = ix + 1;
        }
        proof {
            assert forall|k: Seq<char>| s.pairs().contains_key(k)
                implies exists|j: int| 0 <= j < orig.len() && #[trigger] orig[j].0@ == k by {
                let j = choose|j: int| 0 <= j < ix && orig[j].0@ == k && #[trigger] s.pairs()[k] == spec_nth_role_id(j);
                assert(orig[j].0@ == k);
            }
            assert forall|m: int| 0 <= m < orig.len() implies #[trigger] is_first_role_with_id(s.storage@, spec_nth_role_id(m), m) by {
                assert forall|j: int| 0 <= j < m implies s.storage@[j].0 != spec_nth_role_id(m) by {
                    assert(s.storage@[j].0 == spec_nth_role_id(j));
                }
            }
        }
        s
    }

    /// The role registered under a key: the first role stored under the key's identifier;
    /// nothing where the key is not registered or no role is stored under its identifier.
    pub fn get_by_key(&self, key: &str) -> (r: Option<&Role>)
        ensures
            r is None <==> !self.pairs().contains_key(key@)
                || forall|k: int| 0 <= k < self.storage@.len() ==> self.storage@[k].0 != self.pairs()[key@],
            r matches Some(role) ==> self.pairs().contains_key(key@)
                && exists|k: int| is_first_role_with_id(self.storage@, self.pairs()[key@], k)
                && self.storage@[k].1 == *role,
    {
        match role_map_get_by_left(&self.map, key) {
            Some(id) => self.get_by_id(id),
            None => None,
        }
    }

    /// The role with an identifier: the first stored under it.
    pub fn get_by_id(&self, id: RoleID) -> (r: Option<&Role>)
        ensures
            r is None <==> forall|k: int| 0 <= k < self.storage@.len() ==> self.storage@[k].0 != id,
            r matches Some(role) ==> exists|k: int| is_first_role_with_id(self.storage@, id, k)
                && self.storage@[k].1 == *role,
    {
        let mut k: usize = 0;
        while k < self.storage.len()
            invariant
                k <= self.storage@.len(),
                forall|j: int| 0 <= j < k ==> self.storage@[j].0 != id,
            decreases self.storage.len() - k,
        {
            if self.storage[k].0 == id {
                assert(is_first_role_with_id(self.storage@, id, k as int));
                return Some(&self.storage[k].1);
            }
            k = k + 1;
        }
        None
    }

    /// The identifier registered under a key.
    pub fn id_for_key(&self, key: &str) -> (r: Option<RoleID>)
        ensures
            r == (if self.pairs().contains_key(key@) { Some(self.pairs()[key@]) } else { None }),
    {
        role_map_get_by_left(&self.map, key)
    }

    /// The key registered for an identifier.
    pub fn key_for_id(&self, id: RoleID) -> (r: Option<&str>)
        ensures
            r matches Some(k) ==> self.pairs().contains_key(k@) && self.pairs()[k@] == id,
            r is None ==> forall|k: Seq<char>| self.pairs().contains_key(k) ==> self.pairs()[k] != id,
    {
        match role_map_get_by_right(&self.map, &id) {
            Some(k) => Some(k.as_str()),
            None => None,
        }
    }
}

/// A relationship between entries, such as ownership or membership.
#[derive(Clone, Debug)]
pub struct Relationship(pub CowStr<'static>);

impl PartialEq for Relationship {
    fn eq(&self, other: &Self) -> (r: bool) {
        str_eq(self.0.as_str(), other.0.as_str())
    }
}

impl vstd::std_specs::cmp::PartialEqSpecImpl for Relationship {
    open spec fn obeys_eq_spec() -> bool {
        true
    }

    open spec fn eq_spec(&self, other: &Self) -> bool {
        self.0@ == other.0@
    }
}

impl Eq for Relationship {}

impl Relationship {
    /// A relationship of a predefined identifier, borrowing it.
    pub fn predefined(identifier: &'static str) -> (r: Self)
        ensures
            r == Relationship(CowStr::Borrowed(identifier)),
            r.0@ == identifier@,
    {
        Relationship(CowStr::Borrowed(identifier))
    }

    /// The entry owns the other.
    pub fn owner() -> (r: Self)
        ensures
            r == Relationship(CowStr::Borrowed("owns")),
            r.0@ == "owns"@,
    {
        Self::predefined("owns")
    }

    /// The entry is a member of the other.
    pub fn member() -> (r: Self)
        ensures
            r == Relationship(CowStr::Borrowed("member")),
            r.0@ == "member"@,
    {
        Self::predefined("member")
    }

    /// The entries are related.
    pub fn related() -> (r: Self)
        ensures
            r == Relationship(CowStr::Borrowed("rel")),
            r.0@ == "rel"@,
    {
        Self::predefined("rel")
    }

    pub fn from_str(s: &str) -> (r: Self)
        ensures
            r.0@ == s@,
    {
        Relationship(CowStr::Owned(String::from_str(s)))
    }
}

#[derive(Clone, Copy, Debug, PartialEq, Eq, Structural)]
pub enum AttributeAppearance {
    Modifier,
    Annotation,
    Caption,
    Admonition,
    Hidden,
}

#[derive(Debug, Clone)]
pub struct Attribute {
    pub label: String,
    pub repeatable: bool,
    pub value_type: ValueType,
    pub appearance: AttributeAppearance,
    pub description: Option<RichText>,
}

#[derive(Copy, Clone, Debug, PartialEq, Eq, Structural, Hash)]
pub struct AttributeID(pub usize);

/// The values of attributes on an entry, in the order they were added.
#[derive(Clone, Debug)]
pub struct AttributeValues<'a>(pub Vec<(AttributeID, Value<'a>)>);

/// `k` is the position of the first value of attribute `id`.
pub open spec fn is_first_position<V>(values: Seq<(AttributeID, V)>, id: AttributeID, k: int) -> bool {
    &&& 0 <= k < values.len()
    &&& values[k].0 == id
    &&& forall|j: int| 0 <= j < k ==> values[j].0 != id
}

/// Some value of attribute `id` is present.
pub open spec fn has_attribute<V>(values: Seq<(AttributeID, V)>, id: AttributeID) -> bool {
    exists|j: int| 0 <= j < values.len() && #[trigger] values[j].0 == id
}

/// The values of attribute `id`, in order.
pub open spec fn values_of<V>(values: Seq<(AttributeID, V)>, id: AttributeID) -> Seq<V>
    decreases values.len(),
{
    if values.len() == 0 {
        Seq::empty()
    } else {
        let before = values_of(values.drop_last(), id);
        if values.last().0 == id {
            before.push(values.last().1)
        } else {
            before
        }
    }
}

/// The values after setting attribute `id` to `value`: the first value of `id` is replaced, or,
/// where there is none, the pair is appended.
pub open spec fn spec_set_attribute<V>(values: Seq<(AttributeID, V)>, id: AttributeID, value: V) -> Seq<(AttributeID, V)> {
    if has_attribute(values, id) {
        values.update(choose|k: int| is_first_position(values, id, k), (id, value))
    } else {
        values.push((id, value))
    }
}

/// Where some value of `id` is present, exactly one position is its first.
proof fn lemma_first_position_exists<V>(values: Seq<(AttributeID, V)>, id: AttributeID)
    requires
        has_attribute(values, id),
    ensures
        exists|k: int| is_first_position(values, id, k),
        forall|k1: int, k2: int| is_first_position(values, id, k1) && is_first_position(values, id, k2) ==> k1 == k2,
    decreases values.len(),
{
    if values[0].0 == id {
        assert(is_first_position(values, id, 0));
    } else {
        let rest = values.drop_first();
        let j = choose|j: int| 0 <= j < values.len() && #[trigger] values[j].0 == id;
        assert(rest[j - 1].0 == id);
        lemma_first_position_exists(rest, id);
        let k = choose|k: int| is_first_position(rest, id, k);
        assert forall|i: int| 0 <= i < k + 1 implies values[i].0 != id by {
            if i > 0 {
                assert(values[i] == rest[i - 1]);
            }
        }
        assert(is_first_position(values, id, k + 1));
    }
}

/// Finds the first position of a value with that id.
fn find_attribute<'a>(values: &Vec<(AttributeID, Value<'a>)>, id: AttributeID) -> (r: Option<usize>)
    ensures
        match r {
            Some(k) => is_first_position(values@, id, k as int),
            None => !has_attribute(values@, id),
        },
{
    let mut k: usize = 0;
    while k < values.len()
        invariant
            k <= values@.len(),
            forall|j: int| 0 <= j < k ==> values@[j].0 != id,
        decreases values.len() - k,
    {
        if values[k].0 == id {
            return Some(k);
        }
        k = k + 1;
    }
    None
}

impl<'a> AttributeValues<'a> {
    pub fn default() -> (r: Self)
        ensures
            r.0@.len() == 0,
    {
        AttributeValues(Vec::new())
    }

    /// A copy of the first value of an attribute, or `None` where the attribute has none.
    pub fn get_attribute(&self, id: AttributeID) -> (r: Option<Value<'a>>)
        ensures
            r is None <==> !has_attribute(self.0@, id),
            forall|k: int| is_first_position(self.0@, id, k) ==> (r matches Some(v) && cloned(self.0@[k].1, v)),
    {
        match find_attribute(&self.0, id) {
            Some(k) => {
                proof {
                    lemma_first_position_exists(self.0@, id);
                }
                Some(self.0[k].1.clone())
            },
            None => None,
        }
    }

    /// Copies of all values of an attribute, in order.
    pub fn get_attributes(&self, id: AttributeID) -> (r: Vec<Value<'a>>)
        ensures
            r@.len() == values_of(self.0@, id).len(),
            forall|j: int| 0 <= j < r@.len() ==> cloned(values_of(self.0@, id)[j], #[trigger] r@[j]),
    {
        let mut out: Vec<Value<'a>> = Vec::new();
        let mut k: usize = 0;
        while k < self.0.len()
            invariant
                k <= self.0@.len(),
                out@.len() == values_of(self.0@.take(k as int), id).len(),
                forall|j: int| 0 <= j < out@.len() ==> cloned(values_of(self.0@.take(k as int), id)[j], #[trigger] out@[j]),
            decreases self.0.len() - k,
        {
            assert(self.0@.take(k + 1).drop_last() =~= self.0@.take(k as int));
            assert(self.0@.take(k + 1).last() == self.0@[k as int]);
            if self.0[k].0 == id {
                out.push(self.0[k].1.clone());
            }
            k = k + 1;
        }
        assert(self.0@.take(self.0@.len() as int) =~= self.0@);
        out
    }

    /// Replaces the first value of the attribute, or adds the value where there is none.
    pub fn set_attribute(&mut self, id: AttributeID, value: Value<'a>)
        ensures
            final(self).0@ == spec_set_attribute(old(self).0@, id, value),
    {
        match find_attribute(&self.0, id) {
            Some(k) => {
                proof {
                    lemma_first_position_exists(self.0@, id);
                }
                self.0.set(k, (id, value));
            },
            None => {
                self.0.push((id, value));
            },
        }
    }

    /// Adds a value, after those already there.
    pub fn add_attribute(&mut self, id: AttributeID, value: Value<'a>)
        ensures
            final(self).0@ == old(self).0@.push((id, value)),
    {
        self.0.push((id, value));
    }
}

/// After setting attribute `id` to `value`, the first value of `id` is `value` (what
/// `get_attribute` reads), the values of `id` (what `get_attributes` reads) are the old ones with
/// the first replaced by `value`, or `value` alone where there were none, and the values of every
/// other attribute are those that were there before.
pub proof fn law_set_attribute_then_get<V>(before: Seq<(AttributeID, V)>, id: AttributeID, value: V)
    ensures
        has_attribute(spec_set_attribute(before, id, value), id),
        forall|k: int| is_first_position(spec_set_attribute(before, id, value), id, k)
            ==> spec_set_attribute(before, id, value)[k].1 == value,
        values_of(spec_set_attribute(before, id, value), id) == (if values_of(before, id).len() == 0 {
            seq![value]
        } else {
            values_of(before, id).update(0, value)
        }),
        forall|other: AttributeID| other != id
            ==> values_of(#[trigger] spec_set_attribute(before, id, value), other) == values_of(before, other),
{
    let after = spec_set_attribute(before, id, value);
    if has_attribute(before, id) {
        lemma_first_position_exists(before, id);
        let k = choose|k: int| is_first_position(before, id, k);
        lemma_values_of_first_update(before, k, id, value);
        assert(after[k].0 == id);
        assert(is_first_position(after, id, k));
        lemma_first_position_exists(after, id);
        assert forall|other: AttributeID| other != id implies values_of(#[trigger] spec_set_attribute(before, id, value), other) == values_of(before, other) by {
            lemma_values_of_update(before, k, id, value, other);
        }
    } else {
        assert forall|j: int| 0 <= j < before.len() implies before[j].0 != id by {
            if before[j].0 == id {
                assert(has_attribute(before, id));
            }
        }
        lemma_values_of_absent(before, id);
        assert(after.drop_last() =~= before);
        assert(values_of(after, id) =~= seq![value]);
        assert(after[before.len() as int].0 == id);
        lemma_first_position_exists(after, id);
        assert forall|k: int| is_first_position(after, id, k) implies after[k].1 == value by {
            assert(k == before.len()) by {
                if k < before.len() {
                    assert(before[k].0 == id);
                }
            }
        }
        assert forall|other: AttributeID| other != id implies values_of(#[trigger] spec_set_attribute(before, id, value), other) == values_of(before, other) by {
            assert(after.drop_last() =~= before);
        }
    }
}

/// Where no pair has the id `id`, it has no values.
proof fn lemma_values_of_absent<V>(values: Seq<(AttributeID, V)>, id: AttributeID)
    requires
        forall|j: int| 0 <= j < values.len() ==> values[j].0 != id,
    ensures
        values_of(values, id).len() == 0,
    decreases values.len(),
{
    if values.len() > 0 {
        lemma_values_of_absent(values.drop_last(), id);
    }
}

/// Replacing the first value of `id` replaces the first of its values.
proof fn lemma_values_of_first_update<V>(values: Seq<(AttributeID, V)>, k: int, id: AttributeID, value: V)
    requires
        is_first_position(values, id, k),
    ensures
        values_of(values, id).len() >= 1,
        values_of(values.update(k, (id, value)), id) == values_of(values, id).update(0, value),
    decreases values.len(),
{
    let after = values.update(k, (id, value));
    if k == values.len() - 1 {
        assert(after.drop_last() =~= values.drop_last());
        lemma_values_of_absent(values.drop_last(), id);
        assert(values_of(after, id) =~= values_of(values, id).update(0, value));
    } else {
        assert(after.drop_last() =~= values.drop_last().update(k, (id, value)));
        lemma_values_of_first_update(values.drop_last(), k, id, value);
        assert(values_of(after, id) =~= values_of(values, id).update(0, value));
    }
}

/// Replacing a value of `id` leaves the values of every other attribute as they were.
proof fn lemma_values_of_update<V>(values: Seq<(AttributeID, V)>, k: int, id: AttributeID, value: V, other: AttributeID)
    requires
        0 <= k < values.len(),
        values[k].0 == id,
        other != id,
    ensures
        values_of(values.update(k, (id, value)), other) == values_of(values, other),
    decreases values.len(),
{
    let after = values.update(k, (id, value));
    if k == values.len() - 1 {
        assert(after.drop_last() =~= values.drop_last());
    } else {
        assert(after.drop_last() =~= values.drop_last().update(k, (id, value)));
        lemma_values_of_update(values.drop_last(), k, id, value, other);
    }
}

/// The attributes that entries can have: a key and a description for each attribute identifier.
pub struct Attributes {
    pub storage: Vec<Attribute>,
    pub map: bimap::BiHashMap<String, AttributeID, RandomState, RandomState>,
}

impl Attributes {
    pub open spec fn pairs(&self) -> Map<Seq<char>, AttributeID> {
        attribute_map_pairs(self.map)
    }

    pub fn default() -> (r: Self)
        ensures
            r.storage@.len() == 0,
            r.pairs() == Map::<Seq<char>, AttributeID>::empty(),
    {
        Attributes { storage: Vec::new(), map: attribute_map_new() }
    }

    /// Attributes from (key, attribute) pairs; the n-th attribute gets the identifier n.
    pub fn from(attributes: Vec<(String, Attribute)>) -> (r: Self)
        ensures
            r.storage@.len() == attributes@.len(),
            forall|n: int| 0 <= n < attributes@.len() ==> #[trigger] r.storage@[n] == attributes@[n].1,
            forall|n: int| 0 <= n < attributes@.len() ==> r.pairs().contains_key(#[trigger] attributes@[n].0@),
            forall|n: int| 0 <= n < attributes@.len()
                && (forall|m: int| n < m < attributes@.len() ==> attributes@[m].0@ != attributes@[n].0@)
                ==> r.pairs()[#[trigger] attributes@[n].0@] == AttributeID(n as usize),
            forall|k: Seq<char>| r.pairs().contains_key(k)
                ==> exists|j: int| 0 <= j < attributes@.len() && #[trigger] attributes@[j].0@ == k,
            pairs_injective(r.pairs()),
    {
        let mut s = Attributes::default();
        let mut attributes = attributes;
        let ghost orig = attributes@;
        let n = attributes.len();
        let mut ix: usize = 0;
        while ix < n
            invariant
                n == orig.len(),
                ix <= n,
                attributes@ == orig.subrange(ix as int, n as int),
                s.storage@.len() == ix,
                forall|k: int| 0 <= k < ix ==> #[trigger] s.storage@[k] == orig[k].1,
                forall|k: int| 0 <= k < ix ==> s.pairs().contains_key(#[trigger] orig[k].0@),
                forall|k: int| 0 <= k < ix && (forall|m: int| k < m < ix ==> orig[m].0@ != orig[k].0@)
                    ==> s.pairs()[#[trigger] orig[k].0@] == AttributeID(k as usize),
                forall|k: Seq<char>| s.pairs().contains_key(k) ==> exists|j: int| 0 <= j < ix && orig[j].0@ == k
                    && #[trigger] s.pairs()[k] == AttributeID(j as usize),
                pairs_injective(s.pairs()),
            decreases n - ix,
        {
            let ghost before = s.pairs();
            let (key, attr) = attributes.remove(0);
            assert(attributes@ =~= orig.subrange(ix + 1, n as int));
            let id = AttributeID(ix);
            attribute_map_insert(&mut s.map, key, id);
            s.storage.push(attr);
            proof {
                assert forall|k: Seq<char>| before.contains_key(k) implies before[k] != id by {
                    let j = choose|j: int| 0 <= j < ix && orig[j].0@ == k && #[trigger] before[k] == AttributeID(j as usize);
                }
                assert forall|k: int| 0 <= k < ix + 1 implies s.pairs().contains_key(#[trigger] orig[k].0@) by {
                    if k < ix {
                        assert(before.contains_key(orig[k].0@));
                    }
                }
                assert forall|k: int| 0 <= k < ix + 1 && (forall|m: int| k < m < ix + 1 ==> orig[m].0@ != orig[k].0@)
                    implies s.pairs()[#[trigger] orig[k].0@] == AttributeID(k as usize) by {
                    if k < ix {
                        assert(orig[ix as int].0@ != orig[k].0@);
                        assert(before.contains_key(orig[k].0@));
                    }
                }
                assert forall|k: Seq<char>| s.pairs().contains_key(k) implies exists|j: int| 0 <= j < ix + 1 && orig[j].0@ == k
                    && #[trigger] s.pairs()[k] == AttributeID(j as usize) by {
                    if k != orig[ix as int].0@ {
                        assert(before.contains_key(k));
                        let j = choose|j: int| 0 <= j < ix && orig[j].0@ == k && #[trigger] before[k] == AttributeID(j as usize);
                        assert(s.pairs()[k] == AttributeID(j as usize));
                    } else {
                        assert(s.pairs()[k] == AttributeID(ix));
                    }
                }
            }
            ix = ix + 1;
        }
        proof {
            assert forall|k: Seq<char>| s.pairs().contains_key(k)
                implies exists|j: int| 0 <= j < orig.len() && #[trigger] orig[j].0@ == k by {
                let j = choose|j: int| 0 <= j < ix && orig[j].0@ == k && #[trigger] s.pairs()[k] == AttributeID(j as usize);
                assert(orig[j].0@ == k);
            }
        }
        s
    }

    /// The attribute registered under a key.
    pub fn get_by_key(&self, key: &str) -> (r: Option<&Attribute>)
        ensures
            r == (if self.pairs().contains_key(key@) && self.pairs()[key@].0 < self.storage@.len() {
                Some(&self.storage@[self.pairs()[key@].0 as int])
            } else {
                None
            }),
    {
        match attribute_map_get_by_left(&self.map, key) {
            Some(id) => self.get_by_id(id),
            None => None,
        }
    }

    /// The attribute with an identifier.
    pub fn get_by_id(&self, id: AttributeID) -> (r: Option<&Attribute>)
        ensures
            r == (if id.0 < self.storage@.len() { Some(&self.storage@[id.0 as int]) } else { None }),
    {
        if id.0 < self.storage.len() {
            Some(&self.storage[id.0])
        } else {
            None
        }
    }

    pub fn id_for_key(&self, key: &str) -> (r: Option<AttributeID>)
        ensures
            r == (if self.pairs().contains_key(key@) { Some(self.pairs()[key@]) } else { None }),
    {
        attribute_map_get_by_left(&self.map, key)
    }

    pub fn key_for_id(&self, id: AttributeID) -> (r: Option<&str>)
        ensures
            r matches Some(k) ==> self.pairs().contains_key(k@) && self.pairs()[k@] == id,
            r is None ==> forall|k: Seq<char>| self.pairs().contains_key(k) ==> self.pairs()[k] != id,
    {
        match attribute_map_get_by_right(&self.map, &id) {
            Some(k) => Some(k.as_str()),
            None => None,
        }
    }
}

// ---------------------------------------------------------------------------------------
// The graph of relationships, from `petgraph`.

#[verifier::external_type_specification]
#[verifier::external_body]
#[verifier::reject_recursive_types(N)]
#[verifier::reject_recursive_types(E)]
#[verifier::reject_recursive_types(Ty)]
#[verifier::reject_recursive_types(Ix)]
pub struct ExGraph<N, E, Ty, Ix>(petgraph::graph::Graph<N, E, Ty, Ix>);

#[verifier::external_type_specification]
#[verifier::external_body]
pub struct ExDirected(petgraph::Directed);

/// The directed graph of relationships: a node per entry, weighted by the entry's id, and an
/// edge per relationship.
pub type RelationshipGraph = petgraph::graph::Graph<String, Relationship, petgraph::Directed, u32>;

/// The node weights of a relationship graph, by node index.
pub uninterp spec fn graph_nodes(g: petgraph::graph::Graph<String, Relationship, petgraph::Directed, u32>) -> Seq<Seq<char>>;

/// The edges of a relationship graph, by edge index: source node, target node and the
/// relationship's name.
pub uninterp spec fn graph_edges(g: petgraph::graph::Graph<String, Relationship, petgraph::Directed, u32>) -> Seq<(usize, usize, Seq<char>)>;

/// The names of the relationships that leave `node`, the most recently added first.
pub open spec fn outgoing_names(edges: Seq<(usize, usize, Seq<char>)>, node: usize) -> Seq<Seq<char>>
    decreases edges.len(),
{
    if edges.len() == 0 {
        Seq::empty()
    } else if edges.last().0 == node {
        seq![edges.last().2] + outgoing_names(edges.drop_last(), node)
    } else {
        outgoing_names(edges.drop_last(), node)
    }
}

/// `Graph::new()`: no nodes and no edges.
#[verifier::external_body]
fn graph_new() -> (g: RelationshipGraph)
    ensures
        graph_nodes(g).len() == 0,
        graph_edges(g).len() == 0,
{
    petgraph::graph::Graph::new()
}

/// `Graph::add_node(weight)`: appends a node and returns its index. It panics when the index
/// would reach `u32::MAX`, which `requires` leaves out.
#[verifier::external_body]
fn graph_add_node(g: &mut RelationshipGraph, weight: String) -> (ix: usize)
    requires
        graph_nodes(*old(g)).len() < u32::MAX,
    ensures
        ix == graph_nodes(*old(g)).len(),
        graph_nodes(*final(g)) == graph_nodes(*old(g)).push(weight@),
        graph_edges(*final(g)) == graph_edges(*old(g)),
{
    g.add_node(weight).index()
}

/// `Graph::add_edge(a, b, weight)`: appends an edge. It panics on a node index out of bounds
/// and when the edge index would reach `u32::MAX`, which `requires` leaves out.
#[verifier::external_body]
fn graph_add_edge(g: &mut RelationshipGraph, a: usize, b: usize, weight: Relationship)
    requires
        a < graph_nodes(*old(g)).len(),
        b < graph_nodes(*old(g)).len(),
        graph_edges(*old(g)).len() < u32::MAX,
    ensures
        graph_nodes(*final(g)) == graph_nodes(*old(g)),
        graph_edges(*final(g)) == graph_edges(*old(g)).push((a, b, weight.0@)),
{
    g.add_edge(petgraph::graph::NodeIndex::new(a), petgraph::graph::NodeIndex::new(b), weight);
}

/// `Graph::edges_directed(node, Outgoing)`, each edge mapped to its relationship's name. On a
/// directed graph it lists the edges that leave the node, the most recently added first.
#[verifier::external_body]
fn graph_outgoing_names(g: &RelationshipGraph, node: usize) -> (r: Vec<String>)
    requires
        node < graph_nodes(*g).len(),
    ensures
        r@.map_values(|n: String| n@) == outgoing_names(graph_edges(*g), node),
{
    g.edges_directed(petgraph::graph::NodeIndex::new(node), petgraph::Direction::Outgoing)
        .map(|e| e.weight().0.as_str().to_string())
        .collect()
}

/// The graph of documentation entries and their relationships.
pub struct EntryGraph {
    pub roles: Roles,
    pub attributes: Attributes,
    /// Each entry with its id and its node in `relationships`.
    pub entries: Vec<(String, Entry, usize)>,
    pub relationships: RelationshipGraph,
    pub root: String,
}

impl EntryGraph {
    /// Ids are unique, and each entry's node lies in the graph and is weighted by its id.
    pub open spec fn wf(&self) -> bool {
        &&& forall|i: int, j: int| 0 <= i < j < self.entries@.len()
            ==> (#[trigger] self.entries@[i]).0@ != (#[trigger] self.entries@[j]).0@
        &&& forall|i: int| 0 <= i < self.entries@.len() ==> (#[trigger] self.entries@[i]).2 < self.nodes().len()
            && self.nodes()[self.entries@[i].2 as int] == self.entries@[i].0@
    }

    pub open spec fn nodes(&self) -> Seq<Seq<char>> {
        graph_nodes(self.relationships)
    }

    pub open spec fn edges(&self) -> Seq<(usize, usize, Seq<char>)> {
        graph_edges(self.relationships)
    }

    /// The position of the entry with that id.
    pub open spec fn position_of(&self, id: Seq<char>) -> Option<int> {
        if exists|i: int| 0 <= i < self.entries@.len() && (#[trigger] self.entries@[i]).0@ == id {
            Some(choose|i: int| 0 <= i < self.entries@.len() && (#[trigger] self.entries@[i]).0@ == id)
        } else {
            None
        }
    }

    /// The entry's node, where it is linked into a graph of this size.
    pub open spec fn linked(&self, e: &Entry) -> bool {
        e.graph_id matches Some(ix) && ix < self.nodes().len()
    }

    pub fn new(roles: Roles, attributes: Attributes) -> (r: Self)
        ensures
            r.wf(),
            r.roles == roles,
            r.attributes == attributes,
            r.entries@.len() == 0,
            r.nodes().len() == 0,
            r.edges().len() == 0,
            r.root@ == "root.default"@,
    {
        EntryGraph {
            roles,
            attributes,
            entries: Vec::new(),
            relationships: graph_new(),
            root: String::from_str("root.default"),
        }
    }

    /// Finds the position of the entry with that id.
    pub(crate) fn find(&self, id: &str) -> (r: Option<usize>)
        requires
            self.wf(),
        ensures
            r == (match self.position_of(id@) {
                Some(i) => Some(i as usize),
                None => None::<usize>,
            }),
            r matches Some(i) ==> i < self.entries@.len() && self.entries@[i as int].0@ == id@,
    {
        let mut k: usize = 0;
        while k < self.entries.len()
            invariant
                self.wf(),
                k <= self.entries@.len(),
                forall|j: int| 0 <= j < k ==> (#[trigger] self.entries@[j]).0@ != id@,
            decreases self.entries.len() - k,
        {
            if str_eq(self.entries[k].0.as_str(), id) {
                proof {
                    let c = choose|i: int| 0 <= i < self.entries@.len() && (#[trigger] self.entries@[i]).0@ == id@;
                    if c != k {
                        if c < k {
                            assert(self.entries@[c].0@ != self.entries@[k as int].0@);
                        } else {
                            assert(self.entries@[k as int].0@ != self.entries@[c].0@);
                        }
                    }
                }
                return Some(k);
            }
            k = k + 1;
        }
        None
    }

    /// Makes the entry with that id the root.
    pub fn set_root(&mut self, id: String)
        requires
            old(self).wf(),
            old(self).position_of(id@) is Some,
        ensures
            final(self).root == id,
            final(self).entries@ == old(self).entries@,
            final(self).relationships == old(self).relationships,
            final(self).roles == old(self).roles,
            final(self).attributes == old(self).attributes,
    {
        self.root = id;
    }

    /// The entry with that id.
    pub fn get_entry(&self, id: &str) -> (r: Option<&Entry>)
        requires
            self.wf(),
        ensures
            r == (match self.position_of(id@) {
                Some(i) => Some(&self.entries@[i].1),
                None => None,
            }),
    {
        match self.find(id) {
            Some(k) => Some(&self.entries[k].1),
            None => None,
        }
    }

    /// The id of the root entry.
    fn root_id(&self) -> (r: &str)
        ensures
            r@ == self.root@,
    {
        self.root.as_str()
    }

    /// The root entry.
    fn root(&self) -> (r: &Entry)
        requires
            self.wf(),
            self.position_of(self.root@) is Some,
        ensures
            self.position_of(self.root@) matches Some(i) && *r == self.entries@[i].1,
    {
        let id = self.root_id();
        match self.get_entry(id) {
            Some(e) => e,
            None => {
                assert(false);
                &self.entries[0].1
            },
        }
    }

    /// Adds an entry with that id and title, in place of any entry with that id, linked to a new
    /// node of the graph; returns it for filling in.
    pub fn add_entry(&mut self, id: &str, title: String) -> (r: &mut Entry)
        requires
            old(self).wf(),
            old(self).nodes().len() < u32::MAX,
        ensures
            fresh_entry(*r, title@, old(self).nodes().len() as usize),
            final(self).wf(),
            final(self).nodes() == old(self).nodes().push(id@),
            final(self).edges() == old(self).edges(),
            final(self).root == old(self).root,
            final(self).roles == old(self).roles,
            final(self).attributes == old(self).attributes,
            match old(self).position_of(id@) {
                Some(i) => final(self).entries@.len() == old(self).entries@.len()
                    && (forall|j: int| 0 <= j < old(self).entries@.len() && j != i
                        ==> #[trigger] final(self).entries@[j] == old(self).entries@[j])
                    && final(self).entries@[i].0@ == id@
                    && final(self).entries@[i].1 == *final(r)
                    && final(self).entries@[i].2 == old(self).nodes().len(),
                None => final(self).entries@.len() == old(self).entries@.len() + 1
                    && final(self).entries@.drop_last() == old(self).entries@
                    && final(self).entries@.last().0@ == id@
                    && final(self).entries@.last().1 == *final(r)
                    && final(self).entries@.last().2 == old(self).nodes().len(),
            },
    {
        let found = self.find(id);
        let ix = graph_add_node(&mut self.relationships, String::from_str(id));
        let mut entry = Entry::named(title);
        entry.graph_id = Some(ix);
        let k = match found {
            Some(k) => {
                self.entries.set(k, (String::from_str(id), entry, ix));
                k
            },
            None => {
                self.entries.push((String::from_str(id), entry, ix));
                proof {
                    assert(self.entries@.drop_last() =~= old(self).entries@);
                }
                self.entries.len() - 1
            },
        };
        &mut self.entries[k].1
    }

    /// The entry with that id, for changing.
    pub fn get_entry_mut(&mut self, id: &str) -> (r: Option<&mut Entry>)
        requires
            old(self).wf(),
        ensures
            r is None <==> old(self).position_of(id@) is None,
            r matches Some(e) ==> old(self).position_of(id@) matches Some(i)
                && *e == old(self).entries@[i].1
                && final(self).entries@ == old(self).entries@.update(i, (old(self).entries@[i].0, *final(e), old(self).entries@[i].2)),
            r is None ==> final(self).entries@ == old(self).entries@,
            final(self).relationships == old(self).relationships,
            final(self).root == old(self).root,
            final(self).roles == old(self).roles,
            final(self).attributes == old(self).attributes,
    {
        match self.find(id) {
            Some(k) => Some(&mut self.entries[k].1),
            None => None,
        }
    }

    /// The root entry, for changing.
    fn root_mut(&mut self) -> (r: &mut Entry)
        requires
            old(self).wf(),
            old(self).position_of(old(self).root@) is Some,
        ensures
            old(self).position_of(old(self).root@) matches Some(i)
                && *r == old(self).entries@[i].1
                && final(self).entries@ == old(self).entries@.update(i, (old(self).entries@[i].0, *final(r), old(self).entries@[i].2)),
            final(self).relationships == old(self).relationships,
            final(self).root == old(self).root,
    {
        match self.find(self.root.as_str()) {
            Some(k) => &mut self.entries[k].1,
            None => {
                assert(false);
                &mut self.entries[0].1
            },
        }
    }

    /// Adds a relationship from one entry to another.
    pub fn add_relationship(&mut self, from: &Entry, to: &Entry, kind: Relationship)
        requires
            old(self).linked(from),
            old(self).linked(to),
            old(self).edges().len() < u32::MAX,
        ensures
            final(self).nodes() == old(self).nodes(),
            final(self).edges() == old(self).edges().push((from.graph_id->0, to.graph_id->0, kind.0@)),
            final(self).entries@ == old(self).entries@,
            final(self).root == old(self).root,
            final(self).roles == old(self).roles,
            final(self).attributes == old(self).attributes,
    {
        let a = match from.graph_id { Some(a) => a, None => 0 };
        let b = match to.graph_id { Some(b) => b, None => 0 };
        graph_add_edge(&mut self.relationships, a, b, kind);
    }

    /// Adds a relationship from the entry at node `from` to the entry at node `to`.
    pub(crate) fn add_relationship_between(&mut self, from: usize, to: usize, kind: Relationship)
        requires
            from < old(self).nodes().len(),
            to < old(self).nodes().len(),
            old(self).edges().len() < u32::MAX,
        ensures
            final(self).nodes() == old(self).nodes(),
            final(self).edges() == old(self).edges().push((from, to, kind.0@)),
            final(self).entries@ == old(self).entries@,
            final(self).root == old(self).root,
            final(self).roles == old(self).roles,
            final(self).attributes == old(self).attributes,
    {
        graph_add_edge(&mut self.relationships, from, to, kind);
    }

    /// Makes `member` a member of `entry`. The first membership of an entry also makes it owned:
    /// an ownership edge goes from the member to the entry unless the member already has one.
    pub fn add_membership(&mut self, member: &Entry, entry: &Entry)
        requires
            old(self).linked(member),
            old(self).linked(entry),
            old(self).edges().len() + 2 < u32::MAX,
        ensures
            final(self).nodes() == old(self).nodes(),
            final(self).edges() == membership_edges(old(self).edges(), member.graph_id->0, entry.graph_id->0),
            final(self).entries@ == old(self).entries@,
            final(self).root == old(self).root,
            final(self).roles == old(self).roles,
            final(self).attributes == old(self).attributes,
    {
        let member_id = match member.graph_id { Some(a) => a, None => 0 };
        let entry_id = match entry.graph_id { Some(b) => b, None => 0 };
        self.add_membership_between(member_id, entry_id);
    }

    /// Makes the entry at node `member_id` a member of the entry at node `entry_id`, with an
    /// ownership edge first where the member has none yet.
    pub(crate) fn add_membership_between(&mut self, member_id: usize, entry_id: usize)
        requires
            member_id < old(self).nodes().len(),
            entry_id < old(self).nodes().len(),
            old(self).edges().len() + 2 < u32::MAX,
        ensures
            final(self).nodes() == old(self).nodes(),
            final(self).edges() == membership_edges(old(self).edges(), member_id, entry_id),
            final(self).entries@ == old(self).entries@,
            final(self).root == old(self).root,
            final(self).roles == old(self).roles,
            final(self).attributes == old(self).attributes,
    {
        let names = graph_outgoing_names(&self.relationships, member_id);
        let owner = Relationship::owner();
        let mut has_owner = false;
        let mut k: usize = 0;
        while k < names.len()
            invariant
                k <= names@.len(),
                has_owner == exists|j: int| 0 <= j < k && (#[trigger] names@[j])@ == owner.0@,
            decreases names.len() - k,
        {
            if str_eq(names[k].as_str(), owner.0.as_str()) {
                has_owner = true;
            }
            k = k + 1;
        }
        proof {
            let named = names@.map_values(|n: String| n@);
            assert(named == outgoing_names(self.edges(), member_id));
            if has_owner {
                let j = choose|j: int| 0 <= j < k && (#[trigger] names@[j])@ == owner.0@;
                assert(named[j] == "owns"@);
            }
            if named.contains("owns"@) {
                let j = choose|j: int| 0 <= j < named.len() && named[j] == "owns"@;
                assert(names@[j]@ == owner.0@);
            }
        }
        if !has_owner {
            graph_add_edge(&mut self.relationships, member_id, entry_id, owner);
        }
        graph_add_edge(&mut self.relationships, entry_id, member_id, Relationship::member());
    }
}

/// A new entry with that title, linked to node `ix`, and nothing else.
pub open spec fn fresh_entry(e: Entry, title: Seq<char>, ix: usize) -> bool {
    &&& e.graph_id == Some(ix)
    &&& e.role == RoleID(0, 0, 0)
    &&& e.title@ == title
    &&& e.abstract_ is None
    &&& e.description is None
    &&& e.attributes.0@.len() == 0
    &&& e.symbols@.len() == 0
    &&& e.member_sections@.len() == 0
}

/// The edges after making `member` a member of `entry`: an ownership edge from the member to the
/// entry where the member has none yet, then a membership edge from the entry to the member.
pub open spec fn membership_edges(edges: Seq<(usize, usize, Seq<char>)>, member: usize, entry: usize) -> Seq<(usize, usize, Seq<char>)> {
    let owned = outgoing_names(edges, member).contains("owns"@);
    let with_owner = if owned { edges } else { edges.push((member, entry, "owns"@)) };
    with_owner.push((entry, member, "member"@))
}

/// The entries that own `member`, most recent first.
pub open spec fn owners_of(edges: Seq<(usize, usize, Seq<char>)>, member: usize) -> Seq<usize>
    decreases edges.len(),
{
    if edges.len() == 0 {
        Seq::empty()
    } else if edges.last().0 == member && edges.last().2 == "owns"@ {
        seq![edges.last().1] + owners_of(edges.drop_last(), member)
    } else {
        owners_of(edges.drop_last(), member)
    }
}

/// An entry has an owner exactly where an ownership edge leaves it.
proof fn lemma_owned_iff_owner(edges: Seq<(usize, usize, Seq<char>)>, member: usize)
    ensures
        outgoing_names(edges, member).contains("owns"@) <==> owners_of(edges, member).len() > 0,
    decreases edges.len(),
{
    if edges.len() > 0 {
        let rest = edges.drop_last();
        lemma_owned_iff_owner(rest, member);
        let names = outgoing_names(edges, member);
        let rest_names = outgoing_names(rest, member);
        if edges.last().0 == member {
            assert(names == seq![edges.last().2] + rest_names);
            if rest_names.contains("owns"@) {
                let j = choose|j: int| 0 <= j < rest_names.len() && rest_names[j] == "owns"@;
                assert(names[j + 1] == "owns"@);
            }
            if names.contains("owns"@) && edges.last().2 != "owns"@ {
                let j = choose|j: int| 0 <= j < names.len() && names[j] == "owns"@;
                assert(rest_names[j - 1] == "owns"@);
            }
            if edges.last().2 == "owns"@ {
                assert(names[0] == "owns"@);
            }
        }
    }
}

/// The first membership of an entry makes it owned by the entry it joins, and a later membership
/// leaves that owner alone: of the two memberships, only the first adds an ownership edge, and
/// each adds a membership edge from the entry joined to the member.
pub proof fn law_first_membership_owns(edges: Seq<(usize, usize, Seq<char>)>, member: usize, first: usize, later: usize)
    requires
        owners_of(edges, member).len() == 0,
    ensures
        owners_of(membership_edges(edges, member, first), member) == seq![first],
        owners_of(membership_edges(membership_edges(edges, member, first), member, later), member) == seq![first],
        membership_edges(membership_edges(edges, member, first), member, later)
            == edges.push((member, first, "owns"@)).push((first, member, "member"@)).push((later, member, "member"@)),
{
    reveal_strlit("owns");
    reveal_strlit("member");
    assert("owns"@ != "member"@) by {
        assert("owns"@[0] != "member"@[0]);
    }
    lemma_owned_iff_owner(edges, member);
    let once = membership_edges(edges, member, first);
    let with_owner = edges.push((member, first, "owns"@));
    assert(once == with_owner.push((first, member, "member"@)));
    assert(once.drop_last() == with_owner);
    assert(with_owner.drop_last() == edges);
    assert(owners_of(with_owner, member) == seq![first] + owners_of(edges, member));
    assert(owners_of(once, member) == owners_of(with_owner, member));
    assert(owners_of(once, member) =~= seq![first]);
    lemma_owned_iff_owner(once, member);
    let twice = membership_edges(once, member, later);
    assert(twice == once.push((later, member, "member"@)));
    assert(twice.drop_last() == once);
}

} // verus!
