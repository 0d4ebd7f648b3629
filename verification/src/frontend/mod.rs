pub mod actions;
pub mod arguments;
pub mod c;
pub mod cmark_comment;
pub mod doxygen;

use vstd::prelude::*;
use crate::ir;
use crate::compiler::diagnostics::EditorLocation;

verus! {

/// The settings of each programming language.
#[derive(Clone, Debug)]
pub struct LanguageSettings {
    pub c: c::CLanguageSettings,
}

/// The settings of each documentation dialect.
#[derive(Clone, Debug)]
pub struct DialectConfig {
    pub doxygen: doxygen::DoxygenSettings,
}

/// Why the symbols of a language could not be had.
#[derive(Debug)]
pub enum LanguageError {
    C(c::CLanguageError),
    UnsupportedLanguage(ir::Language),
}

/// What a frontend has taken in: a comment with its prefix, a symbol, each at the point where
/// it starts, or the opening or closing of a symbol's scope.
pub enum Ingested {
    Comment(Seq<char>, Seq<char>, tree_sitter::Point),
    Symbol(ir::Symbol, tree_sitter::Point),
    EnterScope,
    LeaveScope,
}

/// A frontend that takes the comments and symbols of source code as they are read. What it has
/// taken in so far is its `ingested` sequence; each method adds one item at the end.
pub trait SymbolCommentIngestingFrontend {
    /// What the frontend has taken in so far; a frontend states it by overriding this.
    open spec fn ingested(&self) -> Seq<Ingested> {
        Seq::empty()
    }

    fn record_comment<L: EditorLocation>(&mut self, text: &str, prefix: &str, location: &L)
        ensures
            final(self).ingested() == old(self).ingested().push(
                Ingested::Comment(text@, prefix@, location.spec_start_point())),
    ;

    fn enter_symbol_scope(&mut self)
        ensures
            final(self).ingested() == old(self).ingested().push(Ingested::EnterScope),
    ;

    fn leave_symbol_scope(&mut self)
        ensures
            final(self).ingested() == old(self).ingested().push(Ingested::LeaveScope),
    ;

    fn record_symbol<L: EditorLocation>(&mut self, symbol: ir::Symbol, location: &L)
        ensures
            final(self).ingested() == old(self).ingested().push(Ingested::Symbol(symbol, location.spec_start_point())),
    ;
}

/// A frontend that takes markup.
pub trait MarkupIngestingFrontend {
}

} // verus!
