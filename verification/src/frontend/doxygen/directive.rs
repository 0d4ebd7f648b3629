use vstd::prelude::*;
use crate::frontend::actions::Script;

verus! {

/// The arguments of a directive that stand in delimiters right after its name.
#[derive(Clone, Debug)]
pub enum DoxygenDelimitedParameters<'a> {
    NoArguments,
    /// Predefined keywords in square brackets, such as `@param[in,out]`.
    KeywordModifiers(Vec<&'a str>),
    /// The named arguments in curly braces, by name, how many are mandatory and how many optional.
    PositionalArguments(Vec<&'a str>, usize, usize),
    /// Keywords in curly braces that may take a value after the separator; each says whether it
    /// takes one.
    Options(char, Vec<(&'a str, bool)>),
}

/// The delimiters that enclose a directive's delimited arguments.
pub open spec fn spec_delimiters(p: DoxygenDelimitedParameters) -> Option<(u8, u8)> {
    match p {
        DoxygenDelimitedParameters::NoArguments => None,
        DoxygenDelimitedParameters::KeywordModifiers(_) => Some((91u8, 93u8)),
        DoxygenDelimitedParameters::PositionalArguments(_, _, _) => Some((123u8, 125u8)),
        DoxygenDelimitedParameters::Options(_, _) => Some((123u8, 125u8)),
    }
}

impl<'a> DoxygenDelimitedParameters<'a> {
    /// The opening and closing delimiter: square brackets for keywords, curly braces for
    /// positional arguments and options, none where there are no delimited arguments.
    pub fn delimiters(&self) -> (r: Option<(u8, u8)>)
        ensures
            r == spec_delimiters(*self),
    {
        match self {
            DoxygenDelimitedParameters::NoArguments => None,
            DoxygenDelimitedParameters::KeywordModifiers(_) => Some((91u8, 93u8)),
            DoxygenDelimitedParameters::PositionalArguments(_, _, _) => Some((123u8, 125u8)),
            DoxygenDelimitedParameters::Options(_, _) => Some((123u8, 125u8)),
        }
    }
}

/// The arguments of a directive separated by whitespace.
#[derive(Clone, Debug)]
pub struct DoxygenWhitespaceSeparatedParameters<'a> {
    pub required: Vec<&'a str>,
    pub optional: Vec<&'a str>,
}

/// The text that a directive takes after its arguments.
#[derive(Clone, Copy, Debug)]
pub struct DoxygenAttachedParameter<'a> {
    pub name: &'a str,
    pub required: bool,
}

/// All parameters of a directive.
#[derive(Clone, Debug)]
pub struct DoxygenParameters<'a> {
    pub delimited: DoxygenDelimitedParameters<'a>,
    pub whitespace_separated: DoxygenWhitespaceSeparatedParameters<'a>,
    pub attached: Option<DoxygenAttachedParameter<'a>>,
}

/// Which delimiters may enclose arguments.
#[derive(Clone, Copy, Debug, PartialEq, Eq, Structural)]
pub struct EnclosingDelimiters {
    pub curly_braces: bool,
    pub square_brackets: bool,
}

/// How a directive's arguments are written.
#[derive(Clone, Copy, Debug, PartialEq, Eq, Structural)]
pub enum ArgumentSyntax {
    DelimitedSuffix(EnclosingDelimiters),
}

/// How far a directive's attached text reaches, after the given number of whitespace-separated
/// arguments.
#[derive(Clone, Copy, Debug, PartialEq, Eq, Structural)]
pub enum AttachmentSyntax {
    UntilInterrupt(u8),
    UntilNewline(u8),
    OnlyWhitespaceSeparated(u8),
}

/// How the markup parser recognizes a directive.
#[derive(Clone, Copy, Debug, PartialEq, Eq, Structural)]
pub struct DirectiveSyntax {
    pub allow_nesting: bool,
    pub allow_inline: bool,
    pub interrupts_paragraph: bool,
    pub argument_syntax: ArgumentSyntax,
    pub attachment_syntax: AttachmentSyntax,
}

/// A Doxygen directive: its parameters, how it is written, and what it does.
#[derive(Clone, Debug)]
pub struct DoxygenDirective<'a> {
    pub parameters: DoxygenParameters<'a>,
    pub syntax: DirectiveSyntax,
    pub script: Script<'a, DoxygenBuiltin>,
}

/// The built-in actions of the Doxygen dialect.
#[derive(Clone, Copy, Debug, PartialEq, Eq, Structural)]
pub enum DoxygenBuiltin {
    FileInfo,
    LineInfo,
    File,
    Doxyconfig,
}

} // verus!
