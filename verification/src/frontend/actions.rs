use vstd::prelude::*;
use std::path::PathBuf;
use crate::compiler::strings::CowStr;
use crate::frontend::arguments::{
    arguments_convertible, convertible_at, missing_name, resolved_converted, resolved_rich_text,
    resolved_rich_text_optional, resolved_str, resolved_text, value_shape, ArgumentValueError, Arguments,
    Parameter,
};
use crate::frontend::doxygen::directive::DoxygenBuiltin;
use crate::ir::entry_graph::{
    membership_edges, spec_set_attribute, AttributeID, AttributeLookupError, AttributeValues,
    CharacteristicSection, Entry, EntryGraph, EntryLookupError, Relationship, RoleID, RoleLookupError,
    Value, ValueType,
};

verus! {

/// The actions of a script, in order.
pub type Script<'a, Builtin> = Vec<Action<'a, Builtin>>;

/// A step of a script.
#[derive(Clone, Debug)]
pub enum Action<'a, Builtin> {

    Builtin(Builtin),

    Script(CowStr<'a>),

    SetParameter {
        argument: Parameter<CowStr<'a>>,
        value: Parameter<crate::ir::Value<'a>>,
    },

    /// Creates a new entry and opens new scope for this entry
    CreateEntry {
        /// Entry identifier
        id: Parameter<CowStr<'a>>,

        title: Parameter<CowStr<'a>>,

        content: Parameter<Option<crate::ir::RichText>>,
    },

    /// Parses, generates sema, and attaches symbol to current entry.
    /// 
    /// To create a new entry with this symbol, invoke `Action::CreateEntry`
    /// before. And set its role using `Action::SetRole` to a role
    AddSymbol {
        raw: Parameter<CowStr<'a>>,
        language: Parameter<crate::ir::Language>
    },

    /// Creates a member section with members of the scoped opened next
    CreateMemberSection {
        title: Parameter<CowStr<'a>>,

        content: Parameter<Option<crate::ir::RichText>>,
    },

    PushScope {
        name: Parameter<Option<CowStr<'a>>>,
    },

    PopScope {
        name: Parameter<Option<CowStr<'a>>>,
    },

    SetScopeBoundary {
        beyond_comment: Parameter<bool>
    },


    SetEntry {
        entry_id: Parameter<CowStr<'a>>,
    },


    ApplyAttribute {
        key: Parameter<CowStr<'a>>,
        value: Parameter<crate::ir::Value<'a>>,
    },

    AddAllowedOutputBackend {
        allowed: Parameter<crate::backend::Format>
    },

    AddDisallowedOutputBackend {
        disallowed: Parameter<crate::backend::Format>
    },

    /// Insert contents of scope opened next into specified output
    /// 
    /// Treats everything that follows as verbatim output until a command
    /// with a matching [`Self::PopScope`] action is found. Syntax in between
    /// that is a valid command is ignored unless it is the one containing
    /// [`Self::PopScope`] or one that has [`Self::Include`] with a matching
    /// language that can be included in the output.
    SetScopeLanguage {
        language: Parameter<crate::ir::Language>,
    },

    Diagnose {
        level: Parameter<crate::ir::DiagnosticLevel>,
        message: Parameter<CowStr<'a>>,
    },

    SetDisplayOption {
        name: Parameter<CowStr<'a>>,
        value: Parameter<crate::ir::Value<'a>>
    },

    /// Indicates membership of current entry
    /// 
    /// If membership is added multiple times, the first membership constitues ownership.
    AddMembership {
        entry_id: Parameter<CowStr<'a>>,
    },

    /// Indicates membership of current entry
    /// 
    /// If membership is added multiple times, the first membership constitues ownership.
    AddRelationship {
        kind: Parameter<crate::ir::Relationship>,
        entry_id: Parameter<CowStr<'a>>,
    },

    /// Sets abstract text of current entry
    SetAbstract {
        content: Parameter<crate::ir::RichText>
    },

    /// Sets attribute on current entry
    AddAttribute {
        key: Parameter<CowStr<'a>>,
        value: Parameter<crate::ir::Value<'a>>,
    },

    /// Sets role of current entry
    SetRole {
        role: Parameter<CowStr<'a>>
    },

    /// Sets this entry as the root entry
    SetRootEntry,

    /// Assigns current symbol to other entry
    AssignSymbol {
        entry_id: Parameter<CowStr<'a>>,
    },

    /// Sets symbol help text of current symbol
    SetSymbolHelp {
        content: Parameter<crate::ir::RichText>
    },

    /// Sets symbol heading of current symbol
    SetSymbolHeading {
        content: Parameter<CowStr<'a>>
    },

    /// Adds section item, such as parameter or return value
    AddSectionItem {
        kind: Parameter<crate::ir::CharacteristicSection>,
        value: Parameter<crate::ir::RichText>,
        description: Parameter<crate::ir::RichText>,
    },

    /// Sets abstract paragraph of section, such as return value or throws
    SetSectionAbstract {
        kind: Parameter<crate::ir::CharacteristicSection>,
        content: Parameter<crate::ir::RichText>,
    },

    /// Inserts rich text
    InsertAdmonition {
        contents: Parameter<crate::ir::RichText>,
        kind: Parameter<crate::ir::AdmonitionKind>
    },

    InsertCodeBlock {
        contents: Parameter<CowStr<'a>>,
        language: Parameter<Option<crate::ir::Language>>,
    },

    InsertSnippet {
        source: Parameter<PathBuf>,
        language: Parameter<Option<crate::ir::Language>>,
        snippet: Parameter<Option<CowStr<'a>>>
    },

    StartCodeBlock {
        language: Parameter<Option<crate::ir::Language>>,
    },

    EndCodeBlock {
        
    },


    InsertImage {
        image_source: Parameter<PathBuf>,
        caption: Parameter<Option<crate::ir::RichText>>,
        inline: Parameter<bool>,
        id: Parameter<Option<CowStr<'a>>>,
    },

    InsertVideo {
        video_source: Parameter<PathBuf>,
        poster_source: Parameter<PathBuf>,
        caption: Parameter<Option<crate::ir::RichText>>,
        id: Parameter<Option<CowStr<'a>>>,
    },

    InsertAudio {
        audio_source: Parameter<PathBuf>,
        caption: Parameter<Option<crate::ir::RichText>>,
        id: Parameter<Option<CowStr<'a>>>,
    },

    InsertHeadline {
        id: Parameter<Option<CowStr<'a>>>,
        level: Parameter<u8>,
        content: Parameter<crate::ir::RichText>
    },

    InsertListItem {
        style: Parameter<crate::ir::rich_text::ListStyle>,
        content: Parameter<crate::ir::RichText>
    },

    InsertStyled {
        text: Parameter<CowStr<'a>>,
        style: Parameter<crate::ir::rich_text::InlineTextStyle>
    },

    InsertText {
        text: Parameter<CowStr<'a>>,
    },

    InsertEmoji {
        name: Parameter<CowStr<'a>>,
    },

    InsertCode {
        content: Parameter<CowStr<'a>>,
        language: Parameter<Option<crate::ir::Language>>,
    },


    /// Inserts reference to another entry with specified id
    InsertReference {
        entry_id: Parameter<CowStr<'a>>
    },

    Insert {
        content: Parameter<Option<crate::ir::RichText>>,
    },

    EmbedFromFile {
        language: Parameter<Option<crate::ir::Language>>,
        source: Parameter<PathBuf>,
    },

    Embed {
        language: Parameter<Option<crate::ir::Language>>,
        content: Parameter<CowStr<'a>>,
    },
}

/// The identifier of an action.
pub open spec fn spec_action_id<'a, B>(a: Action<'a, B>) -> Seq<char> {
    match a {
        Action::Builtin(..) => "builtin"@,
        Action::Script(..) => "script"@,
        Action::SetParameter { .. } => "parameter.set"@,
        Action::CreateEntry { .. } => "graph.entry+"@,
        Action::AddSymbol { .. } => "entry.symbol+"@,
        Action::CreateMemberSection { .. } => "entry.member-section+"@,
        Action::PushScope { .. } => "scope.push"@,
        Action::PopScope { .. } => "scope.pop"@,
        Action::SetScopeBoundary { .. } => "scope.boundary.apply"@,
        Action::SetEntry { .. } => "scope.entry.set"@,
        Action::ApplyAttribute { .. } => "scope.attribute.apply"@,
        Action::AddAllowedOutputBackend { .. } => "scope.output.allow"@,
        Action::AddDisallowedOutputBackend { .. } => "scope.output.disallow"@,
        Action::SetScopeLanguage { .. } => "scope.language.set"@,
        Action::Diagnose { .. } => "diagnose"@,
        Action::SetDisplayOption { .. } => "entry.appearance.option.add"@,
        Action::AddMembership { .. } => "entry.membership.add"@,
        Action::AddRelationship { .. } => "entry.relationship.add"@,
        Action::SetAbstract { .. } => "entry.abstract.set"@,
        Action::AddAttribute { .. } => "entry.attribute.add"@,
        Action::SetRole { .. } => "entry.role.set"@,
        Action::SetRootEntry => "graph.root.set"@,
        Action::AssignSymbol { .. } => "entry.symbol.add"@,
        Action::SetSymbolHelp { .. } => "symbol.help.set"@,
        Action::SetSymbolHeading { .. } => "symbol.heading.set"@,
        Action::AddSectionItem { .. } => "entry.section.items.add"@,
        Action::SetSectionAbstract { .. } => "entry.section.abstract.set"@,
        Action::InsertAdmonition { .. } => "block.admonition"@,
        Action::InsertCodeBlock { .. } => "block.code"@,
        Action::InsertSnippet { .. } => "block.code.snippet"@,
        Action::StartCodeBlock { .. } => "block.code.start"@,
        Action::EndCodeBlock { .. } => "block.code.end"@,
        Action::InsertImage { .. } => "image"@,
        Action::InsertVideo { .. } => "block.video"@,
        Action::InsertAudio { .. } => "block.audio"@,
        Action::InsertHeadline { .. } => "headline"@,
        Action::InsertListItem { .. } => "list.item"@,
        Action::InsertStyled { .. } => "inline.styled"@,
        Action::InsertText { .. } => "inline.text"@,
        Action::InsertEmoji { .. } => "inline.emoji"@,
        Action::InsertCode { .. } => "inline.code"@,
        Action::InsertReference { .. } => "inline.reference"@,
        Action::Insert { .. } => "inline"@,
        Action::EmbedFromFile { .. } => "embed.file"@,
        Action::Embed { .. } => "embed"@,
    }
}

impl<'a, Builtin> Action<'a, Builtin> {
    /// The identifier of the action.
    pub fn id(&self) -> (r: &'static str)
        ensures
            r@ == spec_action_id(*self),
    {
        match self {
            Action::Builtin(..) => "builtin",
            Action::Script(..) => "script",
            Action::SetParameter { .. } => "parameter.set",
            Action::CreateEntry { .. } => "graph.entry+",
            Action::AddSymbol { .. } => "entry.symbol+",
            Action::CreateMemberSection { .. } => "entry.member-section+",
            Action::PushScope { .. } => "scope.push",
            Action::PopScope { .. } => "scope.pop",
            Action::SetScopeBoundary { .. } => "scope.boundary.apply",
            Action::SetEntry { .. } => "scope.entry.set",
            Action::ApplyAttribute { .. } => "scope.attribute.apply",
            Action::AddAllowedOutputBackend { .. } => "scope.output.allow",
            Action::AddDisallowedOutputBackend { .. } => "scope.output.disallow",
            Action::SetScopeLanguage { .. } => "scope.language.set",
            Action::Diagnose { .. } => "diagnose",
            Action::SetDisplayOption { .. } => "entry.appearance.option.add",
            Action::AddMembership { .. } => "entry.membership.add",
            Action::AddRelationship { .. } => "entry.relationship.add",
            Action::SetAbstract { .. } => "entry.abstract.set",
            Action::AddAttribute { .. } => "entry.attribute.add",
            Action::SetRole { .. } => "entry.role.set",
            Action::SetRootEntry => "graph.root.set",
            Action::AssignSymbol { .. } => "entry.symbol.add",
            Action::SetSymbolHelp { .. } => "symbol.help.set",
            Action::SetSymbolHeading { .. } => "symbol.heading.set",
            Action::AddSectionItem { .. } => "entry.section.items.add",
            Action::SetSectionAbstract { .. } => "entry.section.abstract.set",
            Action::InsertAdmonition { .. } => "block.admonition",
            Action::InsertCodeBlock { .. } => "block.code",
            Action::InsertSnippet { .. } => "block.code.snippet",
            Action::StartCodeBlock { .. } => "block.code.start",
            Action::EndCodeBlock { .. } => "block.code.end",
            Action::InsertImage { .. } => "image",
            Action::InsertVideo { .. } => "block.video",
            Action::InsertAudio { .. } => "block.audio",
            Action::InsertHeadline { .. } => "headline",
            Action::InsertListItem { .. } => "list.item",
            Action::InsertStyled { .. } => "inline.styled",
            Action::InsertText { .. } => "inline.text",
            Action::InsertEmoji { .. } => "inline.emoji",
            Action::InsertCode { .. } => "inline.code",
            Action::InsertReference { .. } => "inline.reference",
            Action::Insert { .. } => "inline",
            Action::EmbedFromFile { .. } => "embed.file",
            Action::Embed { .. } => "embed",
        }
    }
}

/// Why an action failed.
#[derive(Debug)]
pub enum ActionError {
    ArgumentValueFailure(ArgumentValueError<()>),
    LanguageError(crate::frontend::LanguageError),
    RoleLookupFailure(RoleLookupError),
    AttributeLookupFailure(AttributeLookupError),
    EntryLookupFailure(EntryLookupError),
    LeafEntry(String),
    UnsupportedAction(&'static str),
    /// The action works on the current entry and there is none; it names what was attempted.
    NoCurrentEntry(&'static str),
}

/// `after` differs from `before` at most in the entry at position `i`: ids, nodes, the graph,
/// the registries and the root are kept.
pub open spec fn only_entry_changed(before: EntryGraph, after: EntryGraph, i: int) -> bool {
    &&& after.entries@.len() == before.entries@.len()
    &&& forall|j: int| 0 <= j < before.entries@.len() && j != i ==> #[trigger] after.entries@[j] == before.entries@[j]
    &&& after.entries@[i].0 == before.entries@[i].0
    &&& after.entries@[i].2 == before.entries@[i].2
    &&& after.relationships == before.relationships
    &&& after.roles == before.roles
    &&& after.attributes == before.attributes
    &&& after.root == before.root
}

/// `w` is `v` with no borrowed text left in it.
pub open spec fn made_static<'a>(v: Value<'a>, w: Value<'static>) -> bool {
    match v {
        Value::String(s) => w matches Value::String(t) && t@ == s@,
        Value::Link(u, s) => w matches Value::Link(x, t) && t@ == s@ && x == u,
        Value::RichText(x) => w matches Value::RichText(y) && y == x,
        Value::Void => w is Void,
        Value::URI(u) => w matches Value::URI(x) && x == u,
        Value::SignedInteger(i) => w matches Value::SignedInteger(j) && j == i,
        Value::UnsignedInteger(i) => w matches Value::UnsignedInteger(j) && j == i,
        Value::Boolean(b) => w matches Value::Boolean(c) && c == b,
        Value::Version(u) => w matches Value::Version(x) && x == u,
    }
}

/// The attribute values after one of `id` was stored: added after the others where the
/// attribute repeats, else in place of its first value (or added where it had none).
pub open spec fn attribute_stored(
    before: Seq<(AttributeID, Value<'static>)>,
    after: Seq<(AttributeID, Value<'static>)>,
    id: AttributeID,
    repeatable: bool,
    w: Value<'static>,
) -> bool {
    if repeatable {
        after == before.push((id, w))
    } else {
        after == spec_set_attribute(before, id, w)
    }
}

/// `after` is `before` with an entry added under the id `id`, in place of any entry with that
/// id, linked to a new node: titled `title`, with the resolved content as its description and
/// nothing else.
pub open spec fn entry_created<'a>(
    before: EntryGraph,
    after: EntryGraph,
    id: Seq<char>,
    title: Seq<char>,
    content: Parameter<Option<crate::ir::RichText>>,
    args: Seq<crate::frontend::arguments::Argument<'a>>,
) -> bool {
    let n = before.nodes().len();
    let created = |e: (String, Entry, usize)| {
        &&& e.0@ == id
        &&& e.2 == n
        &&& e.1.graph_id == Some(n as usize)
        &&& e.1.role == RoleID(0, 0, 0)
        &&& e.1.title@ == title
        &&& e.1.abstract_ is None
        &&& resolved_rich_text_optional(args, content, e.1.description)
        &&& e.1.attributes.0@.len() == 0
        &&& e.1.symbols@.len() == 0
        &&& e.1.member_sections@.len() == 0
    };
    &&& after.nodes() == before.nodes().push(id)
    &&& after.edges() == before.edges()
    &&& after.root == before.root
    &&& after.roles == before.roles
    &&& after.attributes == before.attributes
    &&& match before.position_of(id) {
        Some(p) => after.entries@.len() == before.entries@.len()
            && (forall|j: int| 0 <= j < before.entries@.len() && j != p ==> #[trigger] after.entries@[j] == before.entries@[j])
            && created(after.entries@[p]),
        None => after.entries@.len() == before.entries@.len() + 1
            && after.entries@.drop_last() == before.entries@
            && created(after.entries@.last()),
    }
}

/// A failure to resolve a parameter, naming the argument that is missing.
pub open spec fn argument_missing(r: Result<(), ActionError>, name: Seq<char>) -> bool {
    r matches Err(ActionError::ArgumentValueFailure(e)) && missing_name(e) == Some(name)
}

/// What executing `action` on the graph `before`, with the entry at position `current` as the
/// current entry, does: the graph `after` and the result `r`. A failing action leaves the graph
/// as it was.
pub open spec fn executed<'a>(
    before: EntryGraph,
    after: EntryGraph,
    current: Option<usize>,
    action: Action<'a, DoxygenBuiltin>,
    args: Seq<crate::frontend::arguments::Argument<'a>>,
    r: Result<(), ActionError>,
) -> bool {
    (r is Err ==> after == before) && match action {
        Action::SetRole { role } => match resolved_str(args, role) {
            Err(name) => argument_missing(r, name),
            Ok(key) => if !before.roles.pairs().contains_key(key) {
                r matches Err(ActionError::RoleLookupFailure(RoleLookupError::UnknownRoleKey(k))) && k@ == key
            } else {
                match current {
                    None => r matches Err(ActionError::NoCurrentEntry(_)),
                    Some(i) => r is Ok && only_entry_changed(before, after, i as int)
                        && after.entries@[i as int].1 == (Entry { role: before.roles.pairs()[key], ..before.entries@[i as int].1 }),
                }
            },
        },
        Action::SetRootEntry => match current {
            None => r matches Err(ActionError::NoCurrentEntry(_)),
            Some(i) => r is Ok && after.root@ == before.entries@[i as int].0@
                && after.entries@ == before.entries@ && after.relationships == before.relationships
                && after.roles == before.roles && after.attributes == before.attributes,
        },
        Action::AddAttribute { key, value } => match resolved_str(args, key) {
            Err(name) => argument_missing(r, name),
            Ok(k) => if !before.attributes.pairs().contains_key(k)
                || before.attributes.pairs()[k].0 >= before.attributes.storage@.len() {
                r matches Err(ActionError::AttributeLookupFailure(AttributeLookupError::UnknownAttributeKey(n))) && n@ == k
            } else {
                let id = before.attributes.pairs()[k];
                let attribute = before.attributes.storage@[id.0 as int];
                ||| (r matches Err(ActionError::ArgumentValueFailure(e))
                    && resolved_converted(args, value, attribute.value_type, Err(e)))
                ||| (exists|v: Value<'a>| #[trigger] resolved_converted::<()>(args, value, attribute.value_type, Ok(v))
                    && match current {
                        None => r matches Err(ActionError::NoCurrentEntry(_)),
                        Some(i) => r is Ok && only_entry_changed(before, after, i as int)
                            && after.entries@[i as int].1 == (Entry { attributes: after.entries@[i as int].1.attributes, ..before.entries@[i as int].1 })
                            && exists|w: Value<'static>| made_static(v, w) && #[trigger] attribute_stored(
                                before.entries@[i as int].1.attributes.0@,
                                after.entries@[i as int].1.attributes.0@,
                                id, attribute.repeatable, w),
                    })
            },
        },
        Action::AddMembership { entry_id } => match resolved_str(args, entry_id) {
            Err(name) => argument_missing(r, name),
            Ok(id) => match before.position_of(id) {
                None => r matches Err(ActionError::EntryLookupFailure(EntryLookupError::UnknownEntryID(n))) && n@ == id,
                Some(p) => match current {
                    None => r matches Err(ActionError::NoCurrentEntry(_)),
                    Some(i) => r is Ok
                        && after.edges() == membership_edges(before.edges(), before.entries@[i as int].2, before.entries@[p].2)
                        && after.nodes() == before.nodes()
                        && after.entries@ == before.entries@ && after.root == before.root
                        && after.roles == before.roles && after.attributes == before.attributes,
                },
            },
        },
        Action::CreateEntry { id, title, content } => match resolved_str(args, id) {
            Err(name) => argument_missing(r, name),
            Ok(i) => match resolved_str(args, title) {
                Err(name) => argument_missing(r, name),
                Ok(t) => r is Ok && entry_created(before, after, i, t, content, args),
            },
        },
        Action::CreateMemberSection { title, content } => match resolved_str(args, title) {
            Err(name) => argument_missing(r, name),
            Ok(t) => match current {
                None => r matches Err(ActionError::NoCurrentEntry(_)),
                Some(i) => r is Ok && only_entry_changed(before, after, i as int) && {
                    let b = before.entries@[i as int].1;
                    let e = after.entries@[i as int].1;
                    &&& e == (Entry { member_sections: e.member_sections, ..b })
                    &&& e.member_sections@.len() == b.member_sections@.len() + 1
                    &&& e.member_sections@.drop_last() == b.member_sections@
                    &&& e.member_sections@.last().title@ == t
                    &&& resolved_rich_text_optional(args, content, e.member_sections@.last().description)
                    &&& e.member_sections@.last().members@.len() == 0
                },
            },
        },
        Action::AddSectionItem { kind, .. } => match resolved_text(args, kind, |k: CharacteristicSection| k.0@) {
            Err(name) => argument_missing(r, name),
            Ok(_) => r is Ok && after == before,
        },
        Action::AddRelationship { kind, entry_id } => match resolved_str(args, entry_id) {
            Err(name) => argument_missing(r, name),
            Ok(id) => match resolved_text(args, kind, |k: Relationship| k.0@) {
                Err(name) => argument_missing(r, name),
                Ok(k) => match before.position_of(id) {
                    None => r matches Err(ActionError::EntryLookupFailure(EntryLookupError::UnknownEntryID(n))) && n@ == id,
                    Some(p) => match current {
                        None => r matches Err(ActionError::NoCurrentEntry(_)),
                        Some(i) => r is Ok
                            && after.edges() == before.edges().push((before.entries@[i as int].2, before.entries@[p].2, k))
                            && after.nodes() == before.nodes()
                            && after.entries@ == before.entries@ && after.root == before.root
                            && after.roles == before.roles && after.attributes == before.attributes,
                    },
                },
            },
        },
        Action::SetAbstract { content } => {
            ||| (r matches Err(ActionError::ArgumentValueFailure(e)) && resolved_rich_text(args, content, Err(e)))
            ||| (exists|t: crate::ir::RichText| #[trigger] resolved_rich_text::<()>(args, content, Ok(t)) && match current {
                None => r matches Err(ActionError::NoCurrentEntry(_)),
                Some(i) => r is Ok && only_entry_changed(before, after, i as int)
                    && after.entries@[i as int].1 == (Entry { abstract_: Some(t), ..before.entries@[i as int].1 }),
            })
        },
        _ => r matches Err(ActionError::UnsupportedAction(a)) && a@ == spec_action_id(action),
    }
}


/// Every argument converts as any type where it converts as a version: only a version narrows
/// the location of an error.
proof fn lemma_convertible_as_any(args: Seq<crate::frontend::arguments::Argument>, into: ValueType)
    requires
        arguments_convertible(args, ValueType::Version),
    ensures
        arguments_convertible(args, into),
{
    assert forall|k: int| 0 <= k < args.len() implies convertible_at(value_shape(#[trigger] args[k].value), into, Some(args[k].location)) by {
        if into == ValueType::Version {
            assert(convertible_at(value_shape(args[k].value), ValueType::Version, Some(args[k].location)));
        }
    }
}

/// The entry at position `i`, for changing.
fn entry_at(graph: &mut EntryGraph, i: usize) -> (r: &mut Entry)
    requires
        i < old(graph).entries@.len(),
    ensures
        *r == old(graph).entries@[i as int].1,
        final(graph).entries@ == old(graph).entries@.update(i as int, (old(graph).entries@[i as int].0, *final(r), old(graph).entries@[i as int].2)),
        final(graph).relationships == old(graph).relationships,
        final(graph).roles == old(graph).roles,
        final(graph).attributes == old(graph).attributes,
        final(graph).root == old(graph).root,
{
    &mut graph.entries[i].1
}

/// The relationship a parameter stands for, read from its text.
fn resolve_relationship<'a>(arguments: &Arguments<'a>, parameter: &Parameter<Relationship>) -> (r: Result<Relationship, ActionError>)
    ensures
        match resolved_text(arguments.0@, *parameter, |k: Relationship| k.0@) {
            Ok(t) => r matches Ok(k) && k.0@ == t,
            Err(name) => r matches Err(ActionError::ArgumentValueFailure(e)) && missing_name(e) == Some(name),
        },
{
    match parameter {
        Parameter::Constant(c) => Ok(Relationship(c.0.clone())),
        Parameter::Variable(name) => match arguments.get(name.as_str()) {
            Some(arg) => Ok(Relationship::from_str(arg.value.str().as_str())),
            None => Err(ActionError::ArgumentValueFailure(ArgumentValueError::Missing(name.to_string()))),
        },
        Parameter::Template(t) => match arguments.materialize_template::<()>(t) {
            Ok(text) => Ok(Relationship::from_str(text.as_str())),
            Err(e) => Err(ActionError::ArgumentValueFailure(e)),
        },
        Parameter::VariableDefault(name, d) => match arguments.get(name.as_str()) {
            Some(arg) => Ok(Relationship::from_str(arg.value.str().as_str())),
            None => Ok(Relationship(d.0.clone())),
        },
    }
}

/// The characteristic section a parameter stands for, read from its text.
fn resolve_section<'a>(arguments: &Arguments<'a>, parameter: &Parameter<CharacteristicSection>) -> (r: Result<CharacteristicSection, ActionError>)
    ensures
        match resolved_text(arguments.0@, *parameter, |k: CharacteristicSection| k.0@) {
            Ok(t) => r matches Ok(k) && k.0@ == t,
            Err(name) => r matches Err(ActionError::ArgumentValueFailure(e)) && missing_name(e) == Some(name),
        },
{
    match parameter {
        Parameter::Constant(c) => Ok(CharacteristicSection(c.0.clone())),
        Parameter::Variable(name) => match arguments.get(name.as_str()) {
            Some(arg) => Ok(CharacteristicSection::from_str(arg.value.str().as_str())),
            None => Err(ActionError::ArgumentValueFailure(ArgumentValueError::Missing(name.to_string()))),
        },
        Parameter::Template(t) => match arguments.materialize_template::<()>(t) {
            Ok(text) => Ok(CharacteristicSection::from_str(text.as_str())),
            Err(e) => Err(ActionError::ArgumentValueFailure(e)),
        },
        Parameter::VariableDefault(name, d) => match arguments.get(name.as_str()) {
            Some(arg) => Ok(CharacteristicSection::from_str(arg.value.str().as_str())),
            None => Ok(CharacteristicSection(d.0.clone())),
        },
    }
}

/// Executes an action of a script on the graph, with the entry at position `current` as the
/// current entry: setting its role, making it the root, adding an attribute to it and making it a
/// member of another entry (the first membership also makes it owned). The other actions work on
/// the state of a frontend (its scopes, its content, its builtins) and are answered as
/// unsupported. A failing action leaves the graph as it was.
pub fn execute_action<'a>(
    graph: &mut EntryGraph,
    current: Option<usize>,
    action: &Action<'a, DoxygenBuiltin>,
    arguments: &Arguments<'a>,
) -> (r: Result<(), ActionError>)
    requires
        old(graph).wf(),
        current matches Some(i) ==> i < old(graph).entries@.len(),
        old(graph).edges().len() + 2 < u32::MAX,
        old(graph).nodes().len() < u32::MAX,
        arguments_convertible(arguments.0@, ValueType::Version),
    ensures
        final(graph).wf(),
        executed(*old(graph), *final(graph), current, *action, arguments.0@, r),
{
    match action {
        Action::SetRole { role } => {
            let key = match arguments.resolve_str::<()>(role) {
                Ok(k) => k,
                Err(e) => return Err(ActionError::ArgumentValueFailure(e)),
            };
            let role_id = match graph.roles.id_for_key(key.as_str()) {
                Some(id) => id,
                None => return Err(ActionError::RoleLookupFailure(RoleLookupError::UnknownRoleKey(key.to_string()))),
            };
            match current {
                None => Err(ActionError::NoCurrentEntry("set entry role")),
                Some(i) => {
                    let entry = entry_at(graph, i);
                    entry.role = role_id;
                    Ok(())
                },
            }
        },
        Action::SetRootEntry => match current {
            None => Err(ActionError::NoCurrentEntry("set graph root")),
            Some(i) => {
                let id = String::from_str(graph.entries[i].0.as_str());
                proof {
                    assert(graph.entries@[i as int].0@ == id@);
                }
                graph.set_root(id);
                Ok(())
            },
        },
        Action::AddAttribute { key, value } => {
            let k = match arguments.resolve_str::<()>(key) {
                Ok(k) => k,
                Err(e) => return Err(ActionError::ArgumentValueFailure(e)),
            };
            let attribute_id = match graph.attributes.id_for_key(k.as_str()) {
                Some(id) => id,
                None => return Err(ActionError::AttributeLookupFailure(AttributeLookupError::UnknownAttributeKey(k.to_string()))),
            };
            let (value_type, repeatable) = match graph.attributes.get_by_id(attribute_id) {
                Some(a) => (a.value_type, a.repeatable),
                None => return Err(ActionError::AttributeLookupFailure(AttributeLookupError::UnknownAttributeKey(k.to_string()))),
            };
            proof {
                lemma_convertible_as_any(arguments.0@, value_type);
            }
            let converted = match arguments.resolve_converted::<()>(value, value_type) {
                Ok(v) => v,
                Err(e) => return Err(ActionError::ArgumentValueFailure(e)),
            };
            let ghost v = converted;
            let stored = converted.into_static();
            proof {
                assert(made_static(v, stored));
                assert(resolved_converted::<()>(arguments.0@, *value, value_type, Ok(v)));
            }
            match current {
                None => Err(ActionError::NoCurrentEntry("add attribute")),
                Some(i) => {
                    let ghost before = graph.entries@[i as int].1.attributes.0@;
                    let entry = entry_at(graph, i);
                    if repeatable {
                        entry.attributes.add_attribute(attribute_id, stored);
                    } else {
                        entry.attributes.set_attribute(attribute_id, stored);
                    }
                    proof {
                        assert(attribute_stored(before, entry.attributes.0@, attribute_id, repeatable, stored));
                    }
                    Ok(())
                },
            }
        },
        Action::AddMembership { entry_id } => {
            let id = match arguments.resolve_str::<()>(entry_id) {
                Ok(k) => k,
                Err(e) => return Err(ActionError::ArgumentValueFailure(e)),
            };
            let p = match graph.find(id.as_str()) {
                Some(p) => p,
                None => return Err(ActionError::EntryLookupFailure(EntryLookupError::UnknownEntryID(id.to_string()))),
            };
            match current {
                None => Err(ActionError::NoCurrentEntry("add membership")),
                Some(i) => {
                    if !graph.entries[p].1.can_add_member(graph.entries[i].1.role) {
                        return Err(ActionError::LeafEntry(String::from_str(graph.entries[p].1.title.as_str())));
                    }
                    let member_ix = graph.entries[i].2;
                    let entry_ix = graph.entries[p].2;
                    graph.add_membership_between(member_ix, entry_ix);
                    Ok(())
                },
            }
        },
        Action::CreateEntry { id, title, content } => {
            let content = arguments.resolve_rich_text_optional(content, None);
            let id = match arguments.resolve_str::<()>(id) {
                Ok(k) => k,
                Err(e) => return Err(ActionError::ArgumentValueFailure(e)),
            };
            let title = match arguments.resolve_str::<()>(title) {
                Ok(k) => k,
                Err(e) => return Err(ActionError::ArgumentValueFailure(e)),
            };
            let entry = graph.add_entry(id.as_str(), title.into_string());
            entry.description = content;
            Ok(())
        },
        Action::CreateMemberSection { title, content } => {
            let content = arguments.resolve_rich_text_optional(content, None);
            let title = match arguments.resolve_str::<()>(title) {
                Ok(k) => k,
                Err(e) => return Err(ActionError::ArgumentValueFailure(e)),
            };
            match current {
                None => Err(ActionError::NoCurrentEntry("create member section")),
                Some(i) => {
                    let entry = entry_at(graph, i);
                    entry.add_member_section(title.into_string(), content);
                    Ok(())
                },
            }
        },
        Action::AddSectionItem { kind, .. } => match resolve_section(arguments, kind) {
            Ok(_) => Ok(()),
            Err(e) => Err(e),
        },
        Action::AddRelationship { kind, entry_id } => {
            let id = match arguments.resolve_str::<()>(entry_id) {
                Ok(k) => k,
                Err(e) => return Err(ActionError::ArgumentValueFailure(e)),
            };
            let kind = match resolve_relationship(arguments, kind) {
                Ok(k) => k,
                Err(e) => return Err(e),
            };
            let p = match graph.find(id.as_str()) {
                Some(p) => p,
                None => return Err(ActionError::EntryLookupFailure(EntryLookupError::UnknownEntryID(id.to_string()))),
            };
            match current {
                None => Err(ActionError::NoCurrentEntry("add relationship")),
                Some(i) => {
                    let from = graph.entries[i].2;
                    let to = graph.entries[p].2;
                    graph.add_relationship_between(from, to, kind);
                    Ok(())
                },
            }
        },
        Action::SetAbstract { content } => {
            let text = match arguments.resolve_rich_text::<()>(content, None) {
                Ok(t) => t,
                Err(e) => return Err(ActionError::ArgumentValueFailure(e)),
            };
            let ghost t = text;
            match current {
                None => Err(ActionError::NoCurrentEntry("set abstract")),
                Some(i) => {
                    let entry = entry_at(graph, i);
                    entry.set_abstract(text);
                    Ok(())
                },
            }
        },
        _ => Err(ActionError::UnsupportedAction(action.id())),
    }
}

} // verus!
