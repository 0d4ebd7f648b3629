use vstd::prelude::*;

verus! {

/// The output formats of the documentation.
#[derive(Clone, Copy, Debug, PartialEq, Eq, Structural, Hash)]
pub enum Format {
    MostlyStaticHTML,
    DoxyXML,
    RTF,
    ManPages,
    LaTeX,
    DocBook,
}

/// The name a manifest gives a format.
pub open spec fn spec_format_name(f: Format) -> Seq<char> {
    match f {
        Format::MostlyStaticHTML => "html"@,
        Format::DoxyXML => "xml"@,
        Format::RTF => "rtf"@,
        Format::ManPages => "man"@,
        Format::LaTeX => "latex"@,
        Format::DocBook => "docbook"@,
    }
}

impl Format {
    /// The name a manifest gives the format.
    pub fn name(&self) -> (r: &'static str)
        ensures
            r@ == spec_format_name(*self),
    {
        match self {
            Format::MostlyStaticHTML => "html",
            Format::DoxyXML => "xml",
            Format::RTF => "rtf",
            Format::ManPages => "man",
            Format::LaTeX => "latex",
            Format::DocBook => "docbook",
        }
    }
}

} // verus!
