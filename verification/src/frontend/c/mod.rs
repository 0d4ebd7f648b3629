pub mod sema;
pub mod sema_gen;
pub mod views;
pub mod walker;
pub mod reader;
pub mod display;
pub mod source;

use vstd::prelude::*;
use crate::frontend::SymbolCommentIngestingFrontend;
use crate::ir;
use walker::Recorded;

verus! {

/// Why C source could not be read into symbols: the semantic pass failed on text decoded from
/// UTF-8 or from UTF-16.
#[derive(Debug)]
pub enum CLanguageError {
    CSemaUTF8(sema_gen::SemaGenError),
    CSemaUTF16(sema_gen::SemaGenError),
}

/// The settings of the C language.
#[derive(Clone, Debug)]
pub struct CLanguageSettings {
    pub sema_gen: sema_gen::Config,
}

/// What a frontend takes in of what the C reader recorded: each symbol and each comment with its
/// style, at the point where it starts; included headers and enumeration cases are not handed on.
pub open spec fn forwarded(records: Seq<Recorded>) -> Seq<crate::frontend::Ingested>
    decreases records.len(),
{
    if records.len() == 0 {
        Seq::empty()
    } else {
        let first: Seq<crate::frontend::Ingested> = match records[0] {
            Recorded::Symbol(symbol, location) => seq![crate::frontend::Ingested::Symbol(ir::Symbol::c(symbol), location.start_point)],
            Recorded::Comment(text, style, location) => seq![crate::frontend::Ingested::Comment(text@, style@, location.start_point)],
            _ => Seq::empty(),
        };
        first + forwarded(records.drop_first())
    }
}

/// A frontend fed by the C reader.
pub struct CFrontend<F: SymbolCommentIngestingFrontend>(pub F);

impl<F: SymbolCommentIngestingFrontend> CFrontend<F> {
    /// Hands what the reader recorded to the frontend, in order: each symbol, and each comment
    /// with its style. Included headers and enumeration cases are not handed on.
    pub fn ingest(&mut self, records: Vec<Recorded>)
        ensures
            final(self).0.ingested() == old(self).0.ingested() + forwarded(records@),
    {
        let mut records = records;
        let ghost all = records@;
        assert(old(self).0.ingested() =~= old(self).0.ingested() + Seq::<crate::frontend::Ingested>::empty());
        while records.len() > 0
            invariant
                self.0.ingested() + forwarded(records@) == old(self).0.ingested() + forwarded(all),
            decreases records.len(),
        {
            let ghost before = self.0.ingested();
            let ghost rest = records@;
            let r = records.remove(0);
            assert(records@ =~= rest.drop_first());
            match r {
                Recorded::Symbol(symbol, location) => self.0.record_symbol(ir::Symbol::c(symbol), &location),
                Recorded::Comment(text, style, location) =>
                    self.0.record_comment(text.as_str(), style.as_str(), &location),
                _ => {},
            }
            assert(self.0.ingested() + forwarded(records@) =~= before + forwarded(rest));
        }
        assert(forwarded(records@) =~= Seq::<crate::frontend::Ingested>::empty());
        assert(self.0.ingested() + forwarded(records@) =~= self.0.ingested());
    }
}

} // verus!
