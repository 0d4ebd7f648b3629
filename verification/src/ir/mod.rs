pub mod rich_text;
pub mod entry_graph;
pub mod cmark;


pub use entry_graph::{
    Symbol, RoleID, Attribute, Attributes, Role, Roles, MemberSection, CharacteristicSection, Entry,
    Modifier, SymbolLikeness, SymbolKind, ArtifactLikeness, Value, ValueType,
    AttributeAppearance, InliningBehavior, Relationship,
};
pub use rich_text::{RichText, AdmonitionKind};
use vstd::prelude::*;
use crate::compiler::strings::str_eq;

verus! {

/// A documentation dialect.
#[derive(Clone, Copy, Debug, PartialEq, Eq, Structural, Hash)]
pub enum Dialect {
    Doxygen,
    DocC,
    RustDoc,
}

/// A programming or markup language.
#[derive(Clone, Copy, Debug, PartialEq, Eq, Structural, Hash)]
pub enum Language {
    C,
    CPlusPlus,
    Swift,
    Rust,
    Java,
    JavaScript,
    JSON,
    XML,
    HTML,
    RTF,
    LaTeX,
    ManPages,
    DocBook,
    Markdown,
}

/// The level of a diagnostic a script asks for.
#[derive(Clone, Copy, Debug, PartialEq, Eq, Structural, Hash)]
pub enum DiagnosticLevel {
    Help,
    Trace,
    Error,
    Warning,
}

/// The number by which a language is known in role identifiers.
pub open spec fn spec_language_code(l: Language) -> u8 {
    match l {
        Language::C => 1,
        Language::CPlusPlus => 2,
        Language::Swift => 3,
        Language::Rust => 4,
        Language::Java => 5,
        Language::JavaScript => 6,
        Language::JSON => 7,
        Language::XML => 8,
        Language::HTML => 9,
        Language::RTF => 10,
        Language::LaTeX => 11,
        Language::ManPages => 12,
        Language::DocBook => 13,
        Language::Markdown => 14,
    }
}

/// The language a name spells, as the names are accepted when parsing.
pub open spec fn spec_language_from_str(s: Seq<char>) -> Option<Language> {
    if s == "c"@ || s == "C"@ {
        Some(Language::C)
    } else if s == "C++"@ || s == "c++"@ || s == "CPP"@ || s == "cpp"@ {
        Some(Language::CPlusPlus)
    } else if s == "Swift"@ || s == "swift"@ {
        Some(Language::Swift)
    } else if s == "Rust"@ || s == "rust"@ || s == "rs"@ {
        Some(Language::Rust)
    } else if s == "Java"@ || s == "java"@ {
        Some(Language::Java)
    } else if s == "JS"@ || s == "js"@ || s == "JavaScript"@ || s == "javascript"@ {
        Some(Language::JavaScript)
    } else if s == "JSON"@ || s == "json"@ {
        Some(Language::JSON)
    } else if s == "XML"@ || s == "xml"@ {
        Some(Language::XML)
    } else if s == "HTML"@ || s == "html"@ {
        Some(Language::HTML)
    } else if s == "RTF"@ || s == "rtf"@ {
        Some(Language::RTF)
    } else if s == "LaTeX"@ || s == "latex"@ {
        Some(Language::LaTeX)
    } else if s == "Man"@ || s == "man"@ {
        Some(Language::ManPages)
    } else if s == "DocBook"@ || s == "docbook"@ {
        Some(Language::DocBook)
    } else if s == "Markdown"@ || s == "md"@ {
        Some(Language::Markdown)
    } else {
        None
    }
}

impl Language {
    /// The number by which the language is known in role identifiers.
    pub fn code(&self) -> (r: u8)
        ensures
            r == spec_language_code(*self),
    {
        match self {
            Language::C => 1,
            Language::CPlusPlus => 2,
            Language::Swift => 3,
            Language::Rust => 4,
            Language::Java => 5,
            Language::JavaScript => 6,
            Language::JSON => 7,
            Language::XML => 8,
            Language::HTML => 9,
            Language::RTF => 10,
            Language::LaTeX => 11,
            Language::ManPages => 12,
            Language::DocBook => 13,
            Language::Markdown => 14,
        }
    }

    /// Parses a language name; `None` where the name is not one of the accepted spellings.
    pub fn from_str(s: &str) -> (r: Option<Language>)
        ensures
            r == spec_language_from_str(s@),
    {
        if str_eq(s, "c") || str_eq(s, "C") {
            Some(Language::C)
        } else if str_eq(s, "C++") || str_eq(s, "c++") || str_eq(s, "CPP") || str_eq(s, "cpp") {
            Some(Language::CPlusPlus)
        } else if str_eq(s, "Swift") || str_eq(s, "swift") {
            Some(Language::Swift)
        } else if str_eq(s, "Rust") || str_eq(s, "rust") || str_eq(s, "rs") {
            Some(Language::Rust)
        } else if str_eq(s, "Java") || str_eq(s, "java") {
            Some(Language::Java)
        } else if str_eq(s, "JS") || str_eq(s, "js") || str_eq(s, "JavaScript") || str_eq(s, "javascript") {
            Some(Language::JavaScript)
        } else if str_eq(s, "JSON") || str_eq(s, "json") {
            Some(Language::JSON)
        } else if str_eq(s, "XML") || str_eq(s, "xml") {
            Some(Language::XML)
        } else if str_eq(s, "HTML") || str_eq(s, "html") {
            Some(Language::HTML)
        } else if str_eq(s, "RTF") || str_eq(s, "rtf") {
            Some(Language::RTF)
        } else if str_eq(s, "LaTeX") || str_eq(s, "latex") {
            Some(Language::LaTeX)
        } else if str_eq(s, "Man") || str_eq(s, "man") {
            Some(Language::ManPages)
        } else if str_eq(s, "DocBook") || str_eq(s, "docbook") {
            Some(Language::DocBook)
        } else if str_eq(s, "Markdown") || str_eq(s, "md") {
            Some(Language::Markdown)
        } else {
            None
        }
    }
}

/// The diagnostic level a name spells.
pub open spec fn spec_diagnostic_level_from_str(s: Seq<char>) -> Option<DiagnosticLevel> {
    if s == "help"@ {
        Some(DiagnosticLevel::Help)
    } else if s == "trace"@ {
        Some(DiagnosticLevel::Trace)
    } else if s == "error"@ {
        Some(DiagnosticLevel::Error)
    } else if s == "warning"@ {
        Some(DiagnosticLevel::Warning)
    } else {
        None
    }
}

impl DiagnosticLevel {
    /// Parses a diagnostic level name.
    pub fn from_str(s: &str) -> (r: Option<DiagnosticLevel>)
        ensures
            r == spec_diagnostic_level_from_str(s@),
    {
        if str_eq(s, "help") {
            Some(DiagnosticLevel::Help)
        } else if str_eq(s, "trace") {
            Some(DiagnosticLevel::Trace)
        } else if str_eq(s, "error") {
            Some(DiagnosticLevel::Error)
        } else if str_eq(s, "warning") {
            Some(DiagnosticLevel::Warning)
        } else {
            None
        }
    }
}

} // verus!
