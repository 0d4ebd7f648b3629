use vstd::prelude::*;
use crate::compiler::diagnostics::{Diagnostic, EditorLocation, LocatedDiagnostic, LocationAttachableDiagnostic, Severity};
use crate::compiler::strings::{str_eq, Location};

verus! {

/// How C declarations are read.
#[derive(Clone, Debug)]
pub struct Config {
    pub decay_arrays_to_pointers: bool,
    pub ingore_header_guard_defines: bool,
    /// The preprocessor macros taken as defined, with their values; each name occurs once
    /// (`wf`), and a lookup takes the entry of the name.
    pub preprocessor_defines: Vec<(String, isize)>,
}

impl Config {
    /// Each define is named once.
    pub open spec fn wf(&self) -> bool {
        crate::compiler::strings::names_unique(self.preprocessor_defines@)
    }
}

/// The default settings: arrays decay to pointers, header guards are ignored, and `DOXYGEN`
/// is the only define, with the value 1.
pub open spec fn is_default_config(c: Config) -> bool {
    &&& c.decay_arrays_to_pointers
    &&& c.ingore_header_guard_defines
    &&& c.preprocessor_defines@.len() == 1
    &&& c.preprocessor_defines@[0].0@ == "DOXYGEN"@
    &&& c.preprocessor_defines@[0].1 == 1
}

impl Config {
    /// Arrays decay to pointers, header guards are ignored, and `DOXYGEN` is defined as 1.
    pub fn default() -> (r: Self)
        ensures
            is_default_config(r),
            r.wf(),
    {
        Config {
            decay_arrays_to_pointers: true,
            ingore_header_guard_defines: true,
            preprocessor_defines: vec![(String::from_str("DOXYGEN"), 1)],
        }
    }
}

/// A node of a C syntax tree: its kind, whether it is named, its source text and range, and its
/// children, each with the field it stands in, if any.
#[derive(Debug)]
pub struct SyntaxNode {
    pub kind: String,
    pub named: bool,
    pub text: String,
    pub range: Location,
    pub children: Vec<(Option<String>, SyntaxNode)>,
}

/// The position of the first child in the field `field`.
pub open spec fn field_index(children: Seq<(Option<String>, SyntaxNode)>, field: Seq<char>) -> Option<int>
    decreases children.len(),
{
    if children.len() == 0 {
        None
    } else {
        match field_index(children.drop_last(), field) {
            Some(k) => Some(k),
            None => if children.last().0 matches Some(f) && f@ == field { Some(children.len() - 1) } else { None },
        }
    }
}

/// The position of the `i`-th named child.
pub open spec fn named_index(children: Seq<(Option<String>, SyntaxNode)>, i: int) -> Option<int>
    decreases children.len(),
{
    if children.len() == 0 {
        None
    } else {
        match named_index(children.drop_last(), i) {
            Some(k) => Some(k),
            None => if children.last().1.named && count_named(children.drop_last()) == i {
                Some(children.len() - 1)
            } else {
                None
            },
        }
    }
}

/// The number of named children.
pub open spec fn count_named(children: Seq<(Option<String>, SyntaxNode)>) -> int
    decreases children.len(),
{
    if children.len() == 0 {
        0
    } else {
        count_named(children.drop_last()) + if children.last().1.named { 1int } else { 0int }
    }
}

pub proof fn lemma_field_index(children: Seq<(Option<String>, SyntaxNode)>, field: Seq<char>)
    ensures
        field_index(children, field) matches Some(k) ==> 0 <= k < children.len(),
    decreases children.len(),
{
    if children.len() > 0 {
        lemma_field_index(children.drop_last(), field);
    }
}

pub proof fn lemma_named_index(children: Seq<(Option<String>, SyntaxNode)>, i: int)
    ensures
        named_index(children, i) matches Some(k) ==> 0 <= k < children.len(),
    decreases children.len(),
{
    if children.len() > 0 {
        lemma_named_index(children.drop_last(), i);
    }
}

impl SyntaxNode {
    /// The first child in the field `field`.
    pub fn child_by_field_name(&self, field: &str) -> (r: Option<&SyntaxNode>)
        ensures
            r == (match field_index(self.children@, field@) {
                Some(k) => Some(&self.children@[k].1),
                None => None,
            }),
    {
        let mut k: usize = 0;
        assert(self.children@.take(0) =~= Seq::<(Option<String>, SyntaxNode)>::empty());
        while k < self.children.len()
            invariant
                k <= self.children@.len(),
                field_index(self.children@.take(k as int), field@) is None,
            decreases self.children.len() - k,
        {
            assert(self.children@.take(k + 1).drop_last() =~= self.children@.take(k as int));
            let found = match &self.children[k].0 {
                Some(f) => str_eq(f.as_str(), field),
                None => false,
            };
            if found {
                proof {
                    lemma_field_index_prefix(self.children@, field@, k + 1);
                }
                return Some(&self.children[k].1);
            }
            k = k + 1;
        }
        assert(self.children@.take(self.children@.len() as int) =~= self.children@);
        None
    }

    /// The `i`-th named child.
    pub fn named_child(&self, i: usize) -> (r: Option<&SyntaxNode>)
        ensures
            r == (match named_index(self.children@, i as int) {
                Some(k) => Some(&self.children@[k].1),
                None => None,
            }),
    {
        let mut k: usize = 0;
        let mut seen: usize = 0;
        assert(self.children@.take(0) =~= Seq::<(Option<String>, SyntaxNode)>::empty());
        while k < self.children.len()
            invariant
                k <= self.children@.len(),
                seen as int == count_named(self.children@.take(k as int)),
                seen <= k,
                named_index(self.children@.take(k as int), i as int) is None,
            decreases self.children.len() - k,
        {
            assert(self.children@.take(k + 1).drop_last() =~= self.children@.take(k as int));
            if self.children[k].1.named {
                if seen == i {
                    proof {
                        lemma_named_index_prefix(self.children@, i as int, k + 1);
                    }
                    return Some(&self.children[k].1);
                }
                seen = seen + 1;
            }
            k = k + 1;
        }
        assert(self.children@.take(self.children@.len() as int) =~= self.children@);
        None
    }
}

proof fn lemma_field_index_prefix(children: Seq<(Option<String>, SyntaxNode)>, field: Seq<char>, n: int)
    requires
        0 <= n <= children.len(),
        field_index(children.take(n), field) is Some,
    ensures
        field_index(children, field) == field_index(children.take(n), field),
    decreases children.len(),
{
    if n < children.len() {
        assert(children.drop_last().take(n) =~= children.take(n));
        lemma_field_index_prefix(children.drop_last(), field, n);
    } else {
        assert(children.take(n) =~= children);
    }
}

proof fn lemma_named_index_prefix(children: Seq<(Option<String>, SyntaxNode)>, i: int, n: int)
    requires
        0 <= n <= children.len(),
        named_index(children.take(n), i) is Some,
    ensures
        named_index(children, i) == named_index(children.take(n), i),
    decreases children.len(),
{
    if n < children.len() {
        assert(children.drop_last().take(n) =~= children.take(n));
        lemma_named_index_prefix(children.drop_last(), i, n);
    } else {
        assert(children.take(n) =~= children);
    }
}

/// A problem met while reading C declarations.
#[derive(Debug)]
pub enum ReportMessage {
    DeclMissingType(String),
    UnknownPrimitiveType(String),
    UnknownLeafDeclarator(String),
    UnrepresentableType,
    UnnamedEmptyType(&'static str),
    MissingTypeQualifierChild,
    MissingInnerDeclarator(String),
    MissingAnyDeclarators(String),
    MissingDeclSpecModifierContent,
    DuplicateInitializer,
    InitializerAndBitfieldClause,
    MissingValue(String),
    MissingStandardAttributeIdentifier,
    PreprocessorMissingIdentifier,
    MissingTypedefIdentifier,
    MissingArgumentList,
    MissingOperator,
    MissingOperand,
    MissingBitfieldClauseExpr,
    MissingEnumCaseName,
    WeirdFunctionParameter,
    NonVariableMember,
    UnsupportedFunctionParameterDecl(String),
    UnknownUnderlyingEnumType(String),
    UnknownDeclarator(String),
    UnknownDeclQualifier(String),
    UnknownAttributeSpecifier,
    UnknownFieldDeclListItem(String),
    UnknownCallModifier(String),
    CorruptedAttributeArgumentList,
    UnknownBinaryOperator(String),
    UnknownUnaryOperator(String),
    UnknownPreprocessorExpr(String),
    InvalidNumberLiteral,
    InvalidCharacterLiteral,
    MissingDirective,
    MissingCondition,
    MissingAlternative(String),
    DuplicateTypes,
    PreprocessorMissingIncludePath,
    PreprocessorMissingIncludePathLocal,
    UnknownChildNode(String, String),
    UnknownChildToken(String),
    UnknownConditionalPreprocessorDirective(String),
    UnexpectedTypeIdentifier,
    UnexpectedQualifier(String, String),
    InapplicableQualifier(String),
    InapplicablePointerQualifier(String),
    InapplicableArrayQualifier(String),
    InapplicableTypeQualifier(String),
    PreprocessorCallIngored(&'static str),
    /// The directive and the identifier of a condition that does not hold.
    UnsatisfiedPreprocessorCondition(String, String),
    ScopeChildIngored(String),
    ConditionalPreprocessorContentResolvingFailure(String, Box<SemaGenError>),
    SemGenFailed(String, Box<SemaGenError>),
}

/// How grave a problem is: an unsatisfied preprocessor condition is information, ignored or
/// inapplicable parts are warnings, the rest are errors.
pub open spec fn spec_report_severity(m: ReportMessage) -> Severity {
    match m {
        ReportMessage::UnsatisfiedPreprocessorCondition(_, _) => Severity::Info,
        ReportMessage::UnexpectedQualifier(_, _)
        | ReportMessage::InapplicableQualifier(_)
        | ReportMessage::InapplicablePointerQualifier(_)
        | ReportMessage::InapplicableArrayQualifier(_)
        | ReportMessage::PreprocessorCallIngored(_)
        | ReportMessage::ScopeChildIngored(_)
        | ReportMessage::UnknownFieldDeclListItem(_) => Severity::Warning,
        _ => Severity::Error,
    }
}

impl ReportMessage {
    pub fn severity(&self) -> (r: Severity)
        ensures
            r == spec_report_severity(*self),
    {
        match self {
            ReportMessage::UnsatisfiedPreprocessorCondition(_, _) => Severity::Info,
            ReportMessage::UnexpectedQualifier(_, _)
            | ReportMessage::InapplicableQualifier(_)
            | ReportMessage::InapplicablePointerQualifier(_)
            | ReportMessage::InapplicableArrayQualifier(_)
            | ReportMessage::PreprocessorCallIngored(_)
            | ReportMessage::ScopeChildIngored(_)
            | ReportMessage::UnknownFieldDeclListItem(_) => Severity::Warning,
            _ => Severity::Error,
        }
    }

    /// Every such problem is internal to the reader.
    pub fn is_internal(&self) -> (r: bool)
        ensures
            r,
    {
        true
    }
}

impl<L: EditorLocation> Diagnostic<L> for ReportMessage {
    fn severity(&self) -> (r: Severity)
        ensures
            r == spec_report_severity(*self),
    {
        ReportMessage::severity(self)
    }

    fn is_internal(&self) -> (r: bool)
        ensures
            r,
    {
        true
    }
}

/// A problem and where in the source it stands.
#[derive(Debug)]
pub struct SemaGenError {
    pub message: ReportMessage,
    pub location: Location,
}

/// What evaluating a preprocessor expression ends in: a value, a problem at a location, or a
/// panic (an arithmetic overflow, a division by zero, or a shift by a negative amount or by the
/// width of the integer or more).
pub enum PPOutcome {
    Value(int),
    Failure(ReportMessage, Location),
    Panic,
}

/// The value of the first define with that name.
pub open spec fn define_value(defines: Seq<(String, isize)>, name: Seq<char>) -> Option<isize>
    decreases defines.len(),
{
    if defines.len() == 0 {
        None
    } else if defines[0].0@ == name {
        Some(defines[0].1)
    } else {
        define_value(defines.drop_first(), name)
    }
}

/// The value that the text of a number literal denotes, as `isize::from_str` reads it: an
/// optional sign and at least one decimal digit, within the range of `isize`.
pub open spec fn spec_parse_isize(s: Seq<char>) -> Option<isize> {
    let (negative, digits) = if s.len() > 0 && s[0] == '-' {
        (true, s.drop_first())
    } else if s.len() > 0 && s[0] == '+' {
        (false, s.drop_first())
    } else {
        (false, s)
    };
    if digits.len() == 0 || !(forall|i: int| 0 <= i < digits.len() ==> '0' <= #[trigger] digits[i] <= '9') {
        None
    } else {
        let v = if negative { -decimal_value(digits) } else { decimal_value(digits) };
        if isize::MIN <= v <= isize::MAX { Some(v as isize) } else { None }
    }
}

/// The number that a string of decimal digits denotes.
pub open spec fn decimal_value(digits: Seq<char>) -> int
    decreases digits.len(),
{
    if digits.len() == 0 {
        0
    } else {
        decimal_value(digits.drop_last()) * 10 + (digits.last() as int - '0' as int)
    }
}

/// What `usize::from_str` accepts: an optional `+` and at least one decimal digit, within the
/// range of `usize`.
pub open spec fn spec_parse_usize(s: Seq<char>) -> Option<usize> {
    let digits = if s.len() > 0 && s[0] == '+' { s.drop_first() } else { s };
    if digits.len() == 0 || !(forall|i: int| 0 <= i < digits.len() ==> '0' <= #[trigger] digits[i] <= '9') {
        None
    } else if decimal_value(digits) <= usize::MAX {
        Some(decimal_value(digits) as usize)
    } else {
        None
    }
}

/// `isize::from_str`: an optional `+` or `-` followed by decimal digits, within the range of
/// `isize`; anything else, white space included, is an error, whose kind is not stated.
#[verifier::external_body]
pub(crate) fn isize_from_str(s: &str) -> (r: Result<isize, std::num::ParseIntError>)
    ensures
        match r {
            Ok(v) => spec_parse_isize(s@) == Some(v),
            Err(_) => spec_parse_isize(s@) is None,
        },
{
    <isize as std::str::FromStr>::from_str(s)
}

/// `usize::from_str`: an optional `+` followed by decimal digits, within the range of `usize`;
/// anything else, a `-` and white space included, is an error, whose kind is not stated.
#[verifier::external_body]
pub(crate) fn usize_from_str(s: &str) -> (r: Result<usize, std::num::ParseIntError>)
    ensures
        match r {
            Ok(v) => spec_parse_usize(s@) == Some(v),
            Err(_) => spec_parse_usize(s@) is None,
        },
{
    <usize as std::str::FromStr>::from_str(s)
}

/// Truncating division, as Rust divides integers.
pub open spec fn trunc_div(a: int, b: int) -> int {
    let q: int = (if a >= 0 { a } else { -a }) / (if b >= 0 { b } else { -b });
    if (a >= 0) == (b > 0) { q } else { -q }
}

/// The remainder that goes with truncating division.
pub open spec fn trunc_rem(a: int, b: int) -> int {
    a - b * trunc_div(a, b)
}

/// A value where it fits in `isize`, and a panic otherwise.
pub open spec fn checked(v: int) -> PPOutcome {
    if isize::MIN <= v <= isize::MAX { PPOutcome::Value(v) } else { PPOutcome::Panic }
}

/// The sum of the code points of the named children, each of which must hold exactly one
/// character.
pub open spec fn char_literal_sum(children: Seq<(Option<String>, SyntaxNode)>, range: Location) -> PPOutcome
    decreases children.len(),
{
    if children.len() == 0 {
        PPOutcome::Value(0)
    } else {
        match char_literal_sum(children.drop_last(), range) {
            PPOutcome::Value(v) => {
                let c = children.last().1;
                if !c.named {
                    PPOutcome::Value(v)
                } else if c.text@.len() != 1 {
                    PPOutcome::Failure(ReportMessage::InvalidCharacterLiteral, range)
                } else {
                    checked(v + (c.text@[0] as u32) as int)
                }
            },
            other => other,
        }
    }
}

/// What evaluating the preprocessor expression `n` ends in, with the given defines.
pub open spec fn eval_pp(defines: Seq<(String, isize)>, n: SyntaxNode) -> PPOutcome
    decreases n,
{
    let kind = n.kind@;
    if kind == "identifier"@ {
        match define_value(defines, n.text@) {
            Some(v) => PPOutcome::Value(v as int),
            None => PPOutcome::Value(0),
        }
    } else if kind == "call_expression"@ {
        PPOutcome::Value(0)
    } else if kind == "number_literal"@ {
        match spec_parse_isize(n.text@) {
            Some(v) => PPOutcome::Value(v as int),
            None => PPOutcome::Failure(ReportMessage::InvalidNumberLiteral, n.range),
        }
    } else if kind == "char_literal"@ {
        char_literal_sum(n.children@, n.range)
    } else if kind == "preproc_defined"@ {
        match named_index(n.children@, 0) {
            None => PPOutcome::Failure(ReportMessage::PreprocessorMissingIdentifier, n.range),
            Some(k) => if 0 <= k < n.children@.len() {
                PPOutcome::Value(if define_value(defines, n.children@[k].1.text@) is Some { 1 } else { 0 })
            } else {
                PPOutcome::Panic
            },
        }
    } else if kind == "unary_expression"@ {
        match (field_index(n.children@, "operator"@), field_index(n.children@, "argument"@)) {
            (None, _) => PPOutcome::Failure(ReportMessage::MissingOperator, n.range),
            (Some(_), None) => PPOutcome::Failure(ReportMessage::MissingOperand, n.range),
            (Some(o), Some(a)) => if 0 <= o < n.children@.len() && 0 <= a < n.children@.len() {
                let op = n.children@[o].1.text@;
                match eval_pp(defines, n.children@[a].1) {
                    PPOutcome::Value(v) => if op == "!"@ {
                        PPOutcome::Value(if v == 0 { 1 } else { 0 })
                    } else if op == "~"@ {
                        PPOutcome::Value(-v - 1)
                    } else if op == "-"@ {
                        checked(-v)
                    } else if op == "+"@ {
                        PPOutcome::Value(v)
                    } else {
                        PPOutcome::Failure(ReportMessage::UnknownUnaryOperator(n.children@[o].1.text), n.children@[o].1.range)
                    },
                    other => other,
                }
            } else {
                PPOutcome::Panic
            },
        }
    } else if kind == "binary_expression"@ {
        match (field_index(n.children@, "operator"@), field_index(n.children@, "left"@), field_index(n.children@, "right"@)) {
            (None, _, _) => PPOutcome::Failure(ReportMessage::MissingOperator, n.range),
            (Some(_), None, _) => PPOutcome::Failure(ReportMessage::MissingOperand, n.range),
            (Some(_), Some(_), None) => PPOutcome::Failure(ReportMessage::MissingOperand, n.range),
            (Some(o), Some(l), Some(r)) => if 0 <= o < n.children@.len() && 0 <= l < n.children@.len() && 0 <= r < n.children@.len() {
                match eval_pp(defines, n.children@[l].1) {
                    PPOutcome::Value(a) => match eval_pp(defines, n.children@[r].1) {
                        PPOutcome::Value(b) => binary_pp(n.children@[o].1.text, a, b, n.children@[o].1.range),
                        other => other,
                    },
                    other => other,
                }
            } else {
                PPOutcome::Panic
            },
        }
    } else if kind == "parenthesized_expression"@ {
        match named_index(n.children@, 0) {
            None => PPOutcome::Failure(ReportMessage::MissingOperand, n.range),
            Some(k) => if 0 <= k < n.children@.len() { eval_pp(defines, n.children@[k].1) } else { PPOutcome::Panic },
        }
    } else {
        PPOutcome::Failure(ReportMessage::UnknownPreprocessorExpr(n.kind), n.range)
    }
}

/// What a binary operator gives on two values.
pub open spec fn binary_pp(operator: String, a: int, b: int, op_range: Location) -> PPOutcome {
    let op = operator@;
    if op == "+"@ {
        checked(a + b)
    } else if op == "-"@ {
        checked(a - b)
    } else if op == "*"@ {
        checked(a * b)
    } else if op == "/"@ {
        if b == 0 { PPOutcome::Panic } else { checked(trunc_div(a, b)) }
    } else if op == "%"@ {
        if b == 0 || trunc_div(a, b) > isize::MAX { PPOutcome::Panic } else { PPOutcome::Value(trunc_rem(a, b)) }
    } else if op == "||"@ {
        PPOutcome::Value(if a == 0 { b } else { 1 })
    } else if op == "&&"@ {
        PPOutcome::Value(if a == 0 { 0 } else { b })
    } else if op == "|"@ {
        PPOutcome::Value(((a as isize) | (b as isize)) as int)
    } else if op == "^"@ {
        PPOutcome::Value(((a as isize) ^ (b as isize)) as int)
    } else if op == "&"@ {
        PPOutcome::Value(((a as isize) & (b as isize)) as int)
    } else if op == "=="@ {
        PPOutcome::Value(if a == b { a } else { 0 })
    } else if op == "!="@ {
        PPOutcome::Value(if a == b { 0 } else { 1 })
    } else if op == ">"@ {
        PPOutcome::Value(if a > b { 1 } else { 0 })
    } else if op == ">="@ {
        PPOutcome::Value(if a >= b { 1 } else { 0 })
    } else if op == "<="@ {
        PPOutcome::Value(if a <= b { 1 } else { 0 })
    } else if op == "<"@ {
        PPOutcome::Value(if a < b { 1 } else { 0 })
    } else if op == "<<"@ {
        if 0 <= b < isize::BITS { PPOutcome::Value(((a as isize) << (b as u32)) as int) } else { PPOutcome::Panic }
    } else if op == ">>"@ {
        if 0 <= b < isize::BITS { PPOutcome::Value(((a as isize) >> (b as u32)) as int) } else { PPOutcome::Panic }
    } else {
        PPOutcome::Failure(ReportMessage::UnknownBinaryOperator(operator), op_range)
    }
}

proof fn lemma_pp_and(operator: String, a: int, b: int, op_range: Location)
    requires
        operator@ == "&&"@,
    ensures
        binary_pp(operator, a, b, op_range) == PPOutcome::Value(if a == 0 { 0 } else { b }),
{
    reveal_strlit("&&");
    reveal_strlit("+");
    assert(operator@ != "+"@) by { assert(operator@.len() != "+"@.len()); }
    reveal_strlit("-");
    assert(operator@ != "-"@) by { assert(operator@.len() != "-"@.len()); }
    reveal_strlit("*");
    assert(operator@ != "*"@) by { assert(operator@.len() != "*"@.len()); }
    reveal_strlit("/");
    assert(operator@ != "/"@) by { assert(operator@.len() != "/"@.len()); }
    reveal_strlit("%");
    assert(operator@ != "%"@) by { assert(operator@.len() != "%"@.len()); }
    reveal_strlit("||");
    assert(operator@ != "||"@) by { assert(operator@[0] != "||"@[0]); }
}

proof fn lemma_pp_or(operator: String, a: int, b: int, op_range: Location)
    requires
        operator@ == "||"@,
    ensures
        binary_pp(operator, a, b, op_range) == PPOutcome::Value(if a == 0 { b } else { 1 }),
{
    reveal_strlit("||");
    reveal_strlit("+");
    assert(operator@ != "+"@) by { assert(operator@.len() != "+"@.len()); }
    reveal_strlit("-");
    assert(operator@ != "-"@) by { assert(operator@.len() != "-"@.len()); }
    reveal_strlit("*");
    assert(operator@ != "*"@) by { assert(operator@.len() != "*"@.len()); }
    reveal_strlit("/");
    assert(operator@ != "/"@) by { assert(operator@.len() != "/"@.len()); }
    reveal_strlit("%");
    assert(operator@ != "%"@) by { assert(operator@.len() != "%"@.len()); }
}

proof fn lemma_pp_eq(operator: String, a: int, b: int, op_range: Location)
    requires
        operator@ == "=="@,
    ensures
        binary_pp(operator, a, b, op_range) == PPOutcome::Value(if a == b { a } else { 0 }),
{
    reveal_strlit("==");
    reveal_strlit("+");
    assert(operator@ != "+"@) by { assert(operator@.len() != "+"@.len()); }
    reveal_strlit("-");
    assert(operator@ != "-"@) by { assert(operator@.len() != "-"@.len()); }
    reveal_strlit("*");
    assert(operator@ != "*"@) by { assert(operator@.len() != "*"@.len()); }
    reveal_strlit("/");
    assert(operator@ != "/"@) by { assert(operator@.len() != "/"@.len()); }
    reveal_strlit("%");
    assert(operator@ != "%"@) by { assert(operator@.len() != "%"@.len()); }
    reveal_strlit("||");
    assert(operator@ != "||"@) by { assert(operator@[0] != "||"@[0]); }
    reveal_strlit("&&");
    assert(operator@ != "&&"@) by { assert(operator@[0] != "&&"@[0]); }
    reveal_strlit("|");
    assert(operator@ != "|"@) by { assert(operator@.len() != "|"@.len()); }
    reveal_strlit("^");
    assert(operator@ != "^"@) by { assert(operator@.len() != "^"@.len()); }
    reveal_strlit("&");
    assert(operator@ != "&"@) by { assert(operator@.len() != "&"@.len()); }
}

proof fn lemma_pp_ne(operator: String, a: int, b: int, op_range: Location)
    requires
        operator@ == "!="@,
    ensures
        binary_pp(operator, a, b, op_range) == PPOutcome::Value(if a == b { 0 } else { 1 }),
{
    reveal_strlit("!=");
    reveal_strlit("+");
    assert(operator@ != "+"@) by { assert(operator@.len() != "+"@.len()); }
    reveal_strlit("-");
    assert(operator@ != "-"@) by { assert(operator@.len() != "-"@.len()); }
    reveal_strlit("*");
    assert(operator@ != "*"@) by { assert(operator@.len() != "*"@.len()); }
    reveal_strlit("/");
    assert(operator@ != "/"@) by { assert(operator@.len() != "/"@.len()); }
    reveal_strlit("%");
    assert(operator@ != "%"@) by { assert(operator@.len() != "%"@.len()); }
    reveal_strlit("||");
    assert(operator@ != "||"@) by { assert(operator@[0] != "||"@[0]); }
    reveal_strlit("&&");
    assert(operator@ != "&&"@) by { assert(operator@[0] != "&&"@[0]); }
    reveal_strlit("|");
    assert(operator@ != "|"@) by { assert(operator@.len() != "|"@.len()); }
    reveal_strlit("^");
    assert(operator@ != "^"@) by { assert(operator@.len() != "^"@.len()); }
    reveal_strlit("&");
    assert(operator@ != "&"@) by { assert(operator@.len() != "&"@.len()); }
    reveal_strlit("==");
    assert(operator@ != "=="@) by { assert(operator@[0] != "=="@[0]); }
}

proof fn lemma_pp_gt(operator: String, a: int, b: int, op_range: Location)
    requires
        operator@ == ">"@,
    ensures
        binary_pp(operator, a, b, op_range) == PPOutcome::Value(if a > b { 1 } else { 0 }),
{
    reveal_strlit(">");
    reveal_strlit("+");
    assert(operator@ != "+"@) by { assert(operator@[0] != "+"@[0]); }
    reveal_strlit("-");
    assert(operator@ != "-"@) by { assert(operator@[0] != "-"@[0]); }
    reveal_strlit("*");
    assert(operator@ != "*"@) by { assert(operator@[0] != "*"@[0]); }
    reveal_strlit("/");
    assert(operator@ != "/"@) by { assert(operator@[0] != "/"@[0]); }
    reveal_strlit("%");
    assert(operator@ != "%"@) by { assert(operator@[0] != "%"@[0]); }
    reveal_strlit("||");
    assert(operator@ != "||"@) by { assert(operator@.len() != "||"@.len()); }
    reveal_strlit("&&");
    assert(operator@ != "&&"@) by { assert(operator@.len() != "&&"@.len()); }
    reveal_strlit("|");
    assert(operator@ != "|"@) by { assert(operator@[0] != "|"@[0]); }
    reveal_strlit("^");
    assert(operator@ != "^"@) by { assert(operator@[0] != "^"@[0]); }
    reveal_strlit("&");
    assert(operator@ != "&"@) by { assert(operator@[0] != "&"@[0]); }
    reveal_strlit("==");
    assert(operator@ != "=="@) by { assert(operator@.len() != "=="@.len()); }
    reveal_strlit("!=");
    assert(operator@ != "!="@) by { assert(operator@.len() != "!="@.len()); }
}

proof fn lemma_pp_ge(operator: String, a: int, b: int, op_range: Location)
    requires
        operator@ == ">="@,
    ensures
        binary_pp(operator, a, b, op_range) == PPOutcome::Value(if a >= b { 1 } else { 0 }),
{
    reveal_strlit(">=");
    reveal_strlit("+");
    assert(operator@ != "+"@) by { assert(operator@.len() != "+"@.len()); }
    reveal_strlit("-");
    assert(operator@ != "-"@) by { assert(operator@.len() != "-"@.len()); }
    reveal_strlit("*");
    assert(operator@ != "*"@) by { assert(operator@.len() != "*"@.len()); }
    reveal_strlit("/");
    assert(operator@ != "/"@) by { assert(operator@.len() != "/"@.len()); }
    reveal_strlit("%");
    assert(operator@ != "%"@) by { assert(operator@.len() != "%"@.len()); }
    reveal_strlit("||");
    assert(operator@ != "||"@) by { assert(operator@[0] != "||"@[0]); }
    reveal_strlit("&&");
    assert(operator@ != "&&"@) by { assert(operator@[0] != "&&"@[0]); }
    reveal_strlit("|");
    assert(operator@ != "|"@) by { assert(operator@.len() != "|"@.len()); }
    reveal_strlit("^");
    assert(operator@ != "^"@) by { assert(operator@.len() != "^"@.len()); }
    reveal_strlit("&");
    assert(operator@ != "&"@) by { assert(operator@.len() != "&"@.len()); }
    reveal_strlit("==");
    assert(operator@ != "=="@) by { assert(operator@[0] != "=="@[0]); }
    reveal_strlit("!=");
    assert(operator@ != "!="@) by { assert(operator@[0] != "!="@[0]); }
    reveal_strlit(">");
    assert(operator@ != ">"@) by { assert(operator@.len() != ">"@.len()); }
}

proof fn lemma_pp_le(operator: String, a: int, b: int, op_range: Location)
    requires
        operator@ == "<="@,
    ensures
        binary_pp(operator, a, b, op_range) == PPOutcome::Value(if a <= b { 1 } else { 0 }),
{
    reveal_strlit("<=");
    reveal_strlit("+");
    assert(operator@ != "+"@) by { assert(operator@.len() != "+"@.len()); }
    reveal_strlit("-");
    assert(operator@ != "-"@) by { assert(operator@.len() != "-"@.len()); }
    reveal_strlit("*");
    assert(operator@ != "*"@) by { assert(operator@.len() != "*"@.len()); }
    reveal_strlit("/");
    assert(operator@ != "/"@) by { assert(operator@.len() != "/"@.len()); }
    reveal_strlit("%");
    assert(operator@ != "%"@) by { assert(operator@.len() != "%"@.len()); }
    reveal_strlit("||");
    assert(operator@ != "||"@) by { assert(operator@[0] != "||"@[0]); }
    reveal_strlit("&&");
    assert(operator@ != "&&"@) by { assert(operator@[0] != "&&"@[0]); }
    reveal_strlit("|");
    assert(operator@ != "|"@) by { assert(operator@.len() != "|"@.len()); }
    reveal_strlit("^");
    assert(operator@ != "^"@) by { assert(operator@.len() != "^"@.len()); }
    reveal_strlit("&");
    assert(operator@ != "&"@) by { assert(operator@.len() != "&"@.len()); }
    reveal_strlit("==");
    assert(operator@ != "=="@) by { assert(operator@[0] != "=="@[0]); }
    reveal_strlit("!=");
    assert(operator@ != "!="@) by { assert(operator@[0] != "!="@[0]); }
    reveal_strlit(">");
    assert(operator@ != ">"@) by { assert(operator@.len() != ">"@.len()); }
    reveal_strlit(">=");
    assert(operator@ != ">="@) by { assert(operator@[0] != ">="@[0]); }
}

proof fn lemma_pp_lt(operator: String, a: int, b: int, op_range: Location)
    requires
        operator@ == "<"@,
    ensures
        binary_pp(operator, a, b, op_range) == PPOutcome::Value(if a < b { 1 } else { 0 }),
{
    reveal_strlit("<");
    reveal_strlit("+");
    assert(operator@ != "+"@) by { assert(operator@[0] != "+"@[0]); }
    reveal_strlit("-");
    assert(operator@ != "-"@) by { assert(operator@[0] != "-"@[0]); }
    reveal_strlit("*");
    assert(operator@ != "*"@) by { assert(operator@[0] != "*"@[0]); }
    reveal_strlit("/");
    assert(operator@ != "/"@) by { assert(operator@[0] != "/"@[0]); }
    reveal_strlit("%");
    assert(operator@ != "%"@) by { assert(operator@[0] != "%"@[0]); }
    reveal_strlit("||");
    assert(operator@ != "||"@) by { assert(operator@.len() != "||"@.len()); }
    reveal_strlit("&&");
    assert(operator@ != "&&"@) by { assert(operator@.len() != "&&"@.len()); }
    reveal_strlit("|");
    assert(operator@ != "|"@) by { assert(operator@[0] != "|"@[0]); }
    reveal_strlit("^");
    assert(operator@ != "^"@) by { assert(operator@[0] != "^"@[0]); }
    reveal_strlit("&");
    assert(operator@ != "&"@) by { assert(operator@[0] != "&"@[0]); }
    reveal_strlit("==");
    assert(operator@ != "=="@) by { assert(operator@.len() != "=="@.len()); }
    reveal_strlit("!=");
    assert(operator@ != "!="@) by { assert(operator@.len() != "!="@.len()); }
    reveal_strlit(">");
    assert(operator@ != ">"@) by { assert(operator@[0] != ">"@[0]); }
    reveal_strlit(">=");
    assert(operator@ != ">="@) by { assert(operator@.len() != ">="@.len()); }
    reveal_strlit("<=");
    assert(operator@ != "<="@) by { assert(operator@.len() != "<="@.len()); }
}

/// The logical operators and comparisons of a preprocessor condition, by truth (a value other than
/// 0 is true): `a && b` is true exactly when both operands are, `a || b` exactly when either is;
/// `!=`, `<`, `<=`, `>` and `>=` give 1 where the relation holds and 0 where it does not; `==` is
/// true only of equal operands, and 0 of different ones.
pub proof fn law_pp_conditions(operator: String, a: int, b: int, op_range: Location)
    ensures
        operator@ == "&&"@ ==> (binary_pp(operator, a, b, op_range) matches PPOutcome::Value(v)
            && (v != 0 <==> (a != 0 && b != 0))),
        operator@ == "||"@ ==> (binary_pp(operator, a, b, op_range) matches PPOutcome::Value(v)
            && (v != 0 <==> (a != 0 || b != 0))),
        operator@ == "!="@ ==> (binary_pp(operator, a, b, op_range) matches PPOutcome::Value(v)
            && (v == 1 <==> a != b) && (v == 0 <==> a == b)),
        operator@ == "<"@ ==> (binary_pp(operator, a, b, op_range) matches PPOutcome::Value(v)
            && (v == 1 <==> a < b) && (v == 0 <==> a >= b)),
        operator@ == "<="@ ==> (binary_pp(operator, a, b, op_range) matches PPOutcome::Value(v)
            && (v == 1 <==> a <= b) && (v == 0 <==> a > b)),
        operator@ == ">"@ ==> (binary_pp(operator, a, b, op_range) matches PPOutcome::Value(v)
            && (v == 1 <==> a > b) && (v == 0 <==> a <= b)),
        operator@ == ">="@ ==> (binary_pp(operator, a, b, op_range) matches PPOutcome::Value(v)
            && (v == 1 <==> a >= b) && (v == 0 <==> a < b)),
        operator@ == "=="@ ==> (binary_pp(operator, a, b, op_range) matches PPOutcome::Value(v)
            && (v != 0 ==> a == b) && (a != b ==> v == 0)),
{
    if operator@ == "&&"@ { lemma_pp_and(operator, a, b, op_range); }
    if operator@ == "||"@ { lemma_pp_or(operator, a, b, op_range); }
    if operator@ == "=="@ { lemma_pp_eq(operator, a, b, op_range); }
    if operator@ == "!="@ { lemma_pp_ne(operator, a, b, op_range); }
    if operator@ == ">"@ { lemma_pp_gt(operator, a, b, op_range); }
    if operator@ == ">="@ { lemma_pp_ge(operator, a, b, op_range); }
    if operator@ == "<="@ { lemma_pp_le(operator, a, b, op_range); }
    if operator@ == "<"@ { lemma_pp_lt(operator, a, b, op_range); }
}

proof fn lemma_pp_add(operator: String, a: int, b: int, op_range: Location)
    requires
        operator@ == "+"@,
    ensures
        binary_pp(operator, a, b, op_range) == checked(a + b),
{
    reveal_strlit("+");
}

proof fn lemma_pp_sub(operator: String, a: int, b: int, op_range: Location)
    requires
        operator@ == "-"@,
    ensures
        binary_pp(operator, a, b, op_range) == checked(a - b),
{
    reveal_strlit("-");
    reveal_strlit("+");
    assert(operator@ != "+"@) by { assert(operator@[0] != "+"@[0]); }
}

proof fn lemma_pp_mul(operator: String, a: int, b: int, op_range: Location)
    requires
        operator@ == "*"@,
    ensures
        binary_pp(operator, a, b, op_range) == checked(a * b),
{
    reveal_strlit("*");
    reveal_strlit("+");
    assert(operator@ != "+"@) by { assert(operator@[0] != "+"@[0]); }
    reveal_strlit("-");
    assert(operator@ != "-"@) by { assert(operator@[0] != "-"@[0]); }
}

/// The arithmetic of a preprocessor condition: `+`, `-` and `*` give the sum, the difference and
/// the product where it fits in `isize`, and the evaluation fails (as the compiled program's
/// overflow check does) where it does not.
pub proof fn law_pp_arithmetic(operator: String, a: int, b: int, op_range: Location)
    ensures
        operator@ == "+"@ ==> (isize::MIN <= a + b <= isize::MAX <==> binary_pp(operator, a, b, op_range) == PPOutcome::Value(a + b))
            && (binary_pp(operator, a, b, op_range) is Value || binary_pp(operator, a, b, op_range) is Panic),
        operator@ == "-"@ ==> (isize::MIN <= a - b <= isize::MAX <==> binary_pp(operator, a, b, op_range) == PPOutcome::Value(a - b))
            && (binary_pp(operator, a, b, op_range) is Value || binary_pp(operator, a, b, op_range) is Panic),
        operator@ == "*"@ ==> (isize::MIN <= a * b <= isize::MAX <==> binary_pp(operator, a, b, op_range) == PPOutcome::Value(a * b))
            && (binary_pp(operator, a, b, op_range) is Value || binary_pp(operator, a, b, op_range) is Panic),
{
    if operator@ == "+"@ { lemma_pp_add(operator, a, b, op_range); }
    if operator@ == "-"@ { lemma_pp_sub(operator, a, b, op_range); }
    if operator@ == "*"@ { lemma_pp_mul(operator, a, b, op_range); }
}

/// A name is defined exactly where the defines hold an entry of that name; its value is that of
/// the first such entry.
pub proof fn law_define_lookup(defines: Seq<(String, isize)>, name: Seq<char>)
    ensures
        define_value(defines, name) is Some <==> exists|i: int| 0 <= i < defines.len() && (#[trigger] defines[i]).0@ == name,
        define_value(defines, name) matches Some(v) ==> exists|i: int| 0 <= i < defines.len() && (#[trigger] defines[i]).0@ == name
            && defines[i].1 == v && forall|j: int| 0 <= j < i ==> defines[j].0@ != name,
    decreases defines.len(),
{
    if defines.len() > 0 {
        let rest = defines.drop_first();
        law_define_lookup(rest, name);
        if defines[0].0@ == name {
            assert(defines[0].0@ == name);
        } else {
            if exists|i: int| 0 <= i < defines.len() && (#[trigger] defines[i]).0@ == name {
                let i = choose|i: int| 0 <= i < defines.len() && (#[trigger] defines[i]).0@ == name;
                assert(rest[i - 1] == defines[i]);
            }
            if define_value(rest, name) is Some {
                let i = choose|i: int| 0 <= i < rest.len() && (#[trigger] rest[i]).0@ == name
                    && rest[i].1 == define_value(rest, name)->Some_0 && forall|j: int| 0 <= j < i ==> rest[j].0@ != name;
                assert(defines[i + 1] == rest[i]);
                assert forall|j: int| 0 <= j < i + 1 implies defines[j].0@ != name by {
                    if j > 0 { assert(defines[j] == rest[j - 1]); }
                }
            }
        }
    }
}

/// The operators of a preprocessor condition apply to what their operands evaluate to: a binary
/// expression whose operands evaluate to `a` and `b` evaluates as its operator does on them (so
/// `x && y` is true exactly when both are), `!x` is true exactly when `x` is false, and
/// `defined(name)` is true exactly when a define of that name is given.
pub proof fn law_pp_binary_node(defines: Seq<(String, isize)>, n: SyntaxNode, o: int, l: int, r: int, a: int, b: int)
    requires
        n.kind@ == "binary_expression"@,
        field_index(n.children@, "operator"@) == Some(o),
        field_index(n.children@, "left"@) == Some(l),
        field_index(n.children@, "right"@) == Some(r),
        0 <= o < n.children@.len(),
        0 <= l < n.children@.len(),
        0 <= r < n.children@.len(),
        eval_pp(defines, n.children@[l].1) == PPOutcome::Value(a),
        eval_pp(defines, n.children@[r].1) == PPOutcome::Value(b),
    ensures
        eval_pp(defines, n) == binary_pp(n.children@[o].1.text, a, b, n.children@[o].1.range),
        n.children@[o].1.text@ == "&&"@ ==> (eval_pp(defines, n) matches PPOutcome::Value(v) && (v != 0 <==> (a != 0 && b != 0))),
        n.children@[o].1.text@ == "||"@ ==> (eval_pp(defines, n) matches PPOutcome::Value(v) && (v != 0 <==> (a != 0 || b != 0))),
{
    let k = n.kind@;
    reveal_strlit("binary_expression");
    reveal_strlit("identifier");
    assert(k != "identifier"@) by { assert(k.len() != "identifier"@.len()); }
    reveal_strlit("call_expression");
    assert(k != "call_expression"@) by { assert(k.len() != "call_expression"@.len()); }
    reveal_strlit("number_literal");
    assert(k != "number_literal"@) by { assert(k.len() != "number_literal"@.len()); }
    reveal_strlit("char_literal");
    assert(k != "char_literal"@) by { assert(k.len() != "char_literal"@.len()); }
    reveal_strlit("preproc_defined");
    assert(k != "preproc_defined"@) by { assert(k.len() != "preproc_defined"@.len()); }
    reveal_strlit("unary_expression");
    assert(k != "unary_expression"@) by { assert(k.len() != "unary_expression"@.len()); }
    law_pp_conditions(n.children@[o].1.text, a, b, n.children@[o].1.range);
}

/// `!x` is true exactly when `x` is false.
pub proof fn law_pp_not_node(defines: Seq<(String, isize)>, n: SyntaxNode, o: int, x: int, v: int)
    requires
        n.kind@ == "unary_expression"@,
        field_index(n.children@, "operator"@) == Some(o),
        field_index(n.children@, "argument"@) == Some(x),
        0 <= o < n.children@.len(),
        0 <= x < n.children@.len(),
        n.children@[o].1.text@ == "!"@,
        eval_pp(defines, n.children@[x].1) == PPOutcome::Value(v),
    ensures
        eval_pp(defines, n) matches PPOutcome::Value(w) && (w != 0 <==> v == 0) && (w == 0 || w == 1),
{
    let k = n.kind@;
    reveal_strlit("unary_expression");
    reveal_strlit("identifier");
    assert(k != "identifier"@) by { assert(k.len() != "identifier"@.len()); }
    reveal_strlit("call_expression");
    assert(k != "call_expression"@) by { assert(k.len() != "call_expression"@.len()); }
    reveal_strlit("number_literal");
    assert(k != "number_literal"@) by { assert(k.len() != "number_literal"@.len()); }
    reveal_strlit("char_literal");
    assert(k != "char_literal"@) by { assert(k.len() != "char_literal"@.len()); }
    reveal_strlit("preproc_defined");
    assert(k != "preproc_defined"@) by { assert(k.len() != "preproc_defined"@.len()); }
    reveal_strlit("!");
}

/// `defined(name)` is 1 where a define of that name is given and 0 where none is.
pub proof fn law_pp_defined_node(defines: Seq<(String, isize)>, n: SyntaxNode, k: int)
    requires
        n.kind@ == "preproc_defined"@,
        named_index(n.children@, 0) == Some(k),
        0 <= k < n.children@.len(),
    ensures
        eval_pp(defines, n) == PPOutcome::Value(
            if exists|i: int| 0 <= i < defines.len() && (#[trigger] defines[i]).0@ == n.children@[k].1.text@ { 1 } else { 0 }),
{
    let kd = n.kind@;
    reveal_strlit("preproc_defined");
    reveal_strlit("identifier");
    assert(kd != "identifier"@) by { assert(kd.len() != "identifier"@.len()); }
    reveal_strlit("call_expression");
    assert(kd != "call_expression"@) by { assert(kd[0] != "call_expression"@[0]); }
    reveal_strlit("number_literal");
    assert(kd != "number_literal"@) by { assert(kd.len() != "number_literal"@.len()); }
    reveal_strlit("char_literal");
    assert(kd != "char_literal"@) by { assert(kd.len() != "char_literal"@.len()); }
    law_define_lookup(defines, n.children@[k].1.text@);
}

/// Reads C syntax trees into symbols.
pub struct ASTWalker<'a> {
    pub config: &'a Config,
}

/// A problem at a location.
fn failure(message: ReportMessage, location: Location) -> (r: SemaGenError)
    ensures
        r.message == message,
        r.location == location,
{
    SemaGenError { message, location }
}

/// The value of the first define with that name.
pub(crate) fn lookup_define(defines: &Vec<(String, isize)>, name: &str) -> (r: Option<isize>)
    ensures
        r == define_value(defines@, name@),
{
    let mut k: usize = 0;
    assert(defines@.skip(0) =~= defines@);
    while k < defines.len()
        invariant
            k <= defines@.len(),
            define_value(defines@.skip(k as int), name@) == define_value(defines@, name@),
        decreases defines.len() - k,
    {
        assert(defines@.skip(k as int).drop_first() =~= defines@.skip(k + 1));
        assert(defines@.skip(k as int)[0] == defines@[k as int]);
        if str_eq(defines[k].0.as_str(), name) {
            return Some(defines[k].1);
        }
        k = k + 1;
    }
    None
}

/// Truncating division of values whose quotient fits.
fn div_trunc(a: isize, b: isize) -> (q: isize)
    requires
        b != 0,
        isize::MIN <= trunc_div(a as int, b as int) <= isize::MAX,
    ensures
        q as int == trunc_div(a as int, b as int),
{
    let ua: u128 = if a < 0 { (-(a as i128)) as u128 } else { a as u128 };
    let ub: u128 = if b < 0 { (-(b as i128)) as u128 } else { b as u128 };
    let m = ua / ub;
    assert(m as int == (if a >= 0 { a as int } else { -a }) / (if b >= 0 { b as int } else { -b }));
    if (a >= 0) == (b > 0) {
        m as isize
    } else {
        (-(m as i128)) as isize
    }
}

/// The remainder of truncating division.
fn rem_trunc(a: isize, b: isize) -> (r: isize)
    requires
        b != 0,
    ensures
        r as int == trunc_rem(a as int, b as int),
        isize::MIN <= trunc_rem(a as int, b as int) <= isize::MAX,
{
    let ua: u128 = if a < 0 { (-(a as i128)) as u128 } else { a as u128 };
    let ub: u128 = if b < 0 { (-(b as i128)) as u128 } else { b as u128 };
    let m = ua % ub;
    proof {
        let aa: int = if a >= 0 { a as int } else { -a };
        let bb: int = if b >= 0 { b as int } else { -b };
        vstd::arithmetic::div_mod::lemma_fundamental_div_mod(aa, bb);
        assert(ua as int == aa);
        assert(ub as int == bb);
        assert(m as int == aa % bb);
        let q = aa / bb;
        assert(aa == bb * q + aa % bb);
        assert(0 <= aa % bb < bb);
        if a >= 0 && b > 0 {
            assert(trunc_div(a as int, b as int) == q);
            assert(trunc_rem(a as int, b as int) == aa - bb * q);
        } else if a >= 0 {
            assert(trunc_div(a as int, b as int) == -q);
            assert(b as int * (-q) == bb * q) by (nonlinear_arith)
                requires bb == -(b as int);
        } else if b > 0 {
            assert(trunc_div(a as int, b as int) == -q);
            assert(b as int * (-q) == -(bb * q)) by (nonlinear_arith)
                requires bb == b as int;
        } else {
            assert(trunc_div(a as int, b as int) == q);
            assert(b as int * q == -(bb * q)) by (nonlinear_arith)
                requires bb == -(b as int);
        }
    }
    if a >= 0 {
        m as isize
    } else {
        (-(m as i128)) as isize
    }
}

impl<'a> ASTWalker<'a> {
    pub fn new(config: &'a Config) -> (r: Self)
        ensures
            r.config == config,
    {
        ASTWalker { config }
    }

    /// The sum of the code points of the named children of a character literal.
    fn char_literal_value(children: &Vec<(Option<String>, SyntaxNode)>, range: Location) -> (r: Result<isize, SemaGenError>)
        requires
            !(char_literal_sum(children@, range) is Panic),
        ensures
            match char_literal_sum(children@, range) {
                PPOutcome::Value(v) => isize::MIN <= v <= isize::MAX && r == Ok::<isize, SemaGenError>(v as isize),
                PPOutcome::Failure(m, loc) => r == Err::<isize, SemaGenError>(SemaGenError { message: m, location: loc }),
                PPOutcome::Panic => false,
            },
    {
        let mut value: isize = 0;
        let mut k: usize = 0;
        assert(children@.take(0) =~= Seq::<(Option<String>, SyntaxNode)>::empty());
        while k < children.len()
            invariant
                k <= children@.len(),
                !(char_literal_sum(children@, range) is Panic),
                char_literal_sum(children@.take(k as int), range) == PPOutcome::Value(value as int),
            decreases children.len() - k,
        {
            assert(children@.take(k + 1).drop_last() =~= children@.take(k as int));
            proof {
                lemma_char_literal_prefix(children@, range, k + 1);
            }
            let c = &children[k].1;
            if c.named {
                if c.text.as_str().unicode_len() != 1 {
                    proof {
                        lemma_char_literal_failure_sticks(children@, range, k + 1);
                    }
                    return Err(failure(ReportMessage::InvalidCharacterLiteral, range));
                }
                let ch = c.text.as_str().get_char(0);
                value = value + (ch as u32) as isize;
            }
            k = k + 1;
        }
        assert(children@.take(children@.len() as int) =~= children@);
        Ok(value)
    }

    /// The value of a preprocessor condition: defines by their value (undefined names are 0),
    /// `defined(..)` as 1 or 0, number and character literals, and the C operators. `!=` and
    /// the orderings give 0 or 1; `==` gives the left operand where the two are equal (so
    /// `0 == 0` is 0) and 0 otherwise; `||` gives 1 where the left operand is not 0 and the
    /// right operand otherwise, and `&&` gives 0 where the left operand is 0 and the right
    /// operand otherwise.
    #[allow(non_snake_case)]
    pub fn evaluatePreprocessorExpression(&self, ast: &SyntaxNode) -> (r: Result<isize, SemaGenError>)
        requires
            !(eval_pp(self.config.preprocessor_defines@, *ast) is Panic),
        ensures
            match eval_pp(self.config.preprocessor_defines@, *ast) {
                PPOutcome::Value(v) => isize::MIN <= v <= isize::MAX && r == Ok::<isize, SemaGenError>(v as isize),
                PPOutcome::Failure(m, loc) => r == Err::<isize, SemaGenError>(SemaGenError { message: m, location: loc }),
                PPOutcome::Panic => false,
            },
        decreases ast,
    {
        let defines = &self.config.preprocessor_defines;
        let kind = ast.kind.as_str();
        if str_eq(kind, "identifier") {
            match lookup_define(defines, ast.text.as_str()) {
                Some(v) => Ok(v),
                None => Ok(0),
            }
        } else if str_eq(kind, "call_expression") {
            Ok(0)
        } else if str_eq(kind, "number_literal") {
            match isize_from_str(ast.text.as_str()) {
                Ok(v) => Ok(v),
                Err(_) => Err(failure(ReportMessage::InvalidNumberLiteral, ast.range)),
            }
        } else if str_eq(kind, "char_literal") {
            Self::char_literal_value(&ast.children, ast.range)
        } else if str_eq(kind, "preproc_defined") {
            proof {
                lemma_named_index(ast.children@, 0);
            }
            match ast.named_child(0) {
                None => Err(failure(ReportMessage::PreprocessorMissingIdentifier, ast.range)),
                Some(identifier) => match lookup_define(defines, identifier.text.as_str()) {
                    Some(_) => Ok(1),
                    None => Ok(0),
                },
            }
        } else if str_eq(kind, "unary_expression") {
            proof {
                lemma_field_index(ast.children@, "operator"@);
                lemma_field_index(ast.children@, "argument"@);
            }
            let operator = match ast.child_by_field_name("operator") {
                Some(o) => o,
                None => { return Err(failure(ReportMessage::MissingOperator, ast.range)); },
            };
            let operand = match ast.child_by_field_name("argument") {
                Some(a) => a,
                None => { return Err(failure(ReportMessage::MissingOperand, ast.range)); },
            };
            let op = operator.text.as_str();
            let v = match self.evaluatePreprocessorExpression(operand) {
                Ok(v) => v,
                Err(e) => { return Err(e); },
            };
            if str_eq(op, "!") {
                Ok(if v == 0 { 1 } else { 0 })
            } else if str_eq(op, "~") {
                let r = !v;
                assert(r == -v - 1) by (bit_vector)
                    requires r == !v;
                Ok(r)
            } else if str_eq(op, "-") {
                Ok(-v)
            } else if str_eq(op, "+") {
                Ok(v)
            } else {
                Err(failure(ReportMessage::UnknownUnaryOperator(operator.text.clone()), operator.range))
            }
        } else if str_eq(kind, "binary_expression") {
            proof {
                lemma_field_index(ast.children@, "operator"@);
                lemma_field_index(ast.children@, "left"@);
                lemma_field_index(ast.children@, "right"@);
            }
            let operator = match ast.child_by_field_name("operator") {
                Some(o) => o,
                None => { return Err(failure(ReportMessage::MissingOperator, ast.range)); },
            };
            let left = match ast.child_by_field_name("left") {
                Some(l) => l,
                None => { return Err(failure(ReportMessage::MissingOperand, ast.range)); },
            };
            let right = match ast.child_by_field_name("right") {
                Some(r) => r,
                None => { return Err(failure(ReportMessage::MissingOperand, ast.range)); },
            };
            let a = match self.evaluatePreprocessorExpression(left) {
                Ok(v) => v,
                Err(e) => { return Err(e); },
            };
            let b = match self.evaluatePreprocessorExpression(right) {
                Ok(v) => v,
                Err(e) => { return Err(e); },
            };
            Self::apply_binary(&operator.text, a, b, operator.range)
        } else if str_eq(kind, "parenthesized_expression") {
            proof {
                lemma_named_index(ast.children@, 0);
            }
            match ast.named_child(0) {
                None => Err(failure(ReportMessage::MissingOperand, ast.range)),
                Some(inner) => self.evaluatePreprocessorExpression(inner),
            }
        } else {
            Err(failure(ReportMessage::UnknownPreprocessorExpr(ast.kind.clone()), ast.range))
        }
    }

    /// What a binary operator gives on two values.
    fn apply_binary(operator: &String, a: isize, b: isize, op_range: Location) -> (r: Result<isize, SemaGenError>)
        requires
            !(binary_pp(*operator, a as int, b as int, op_range) is Panic),
        ensures
            match binary_pp(*operator, a as int, b as int, op_range) {
                PPOutcome::Value(v) => isize::MIN <= v <= isize::MAX && r == Ok::<isize, SemaGenError>(v as isize),
                PPOutcome::Failure(m, loc) => r == Err::<isize, SemaGenError>(SemaGenError { message: m, location: loc }),
                PPOutcome::Panic => false,
            },
    {
        let op = operator.as_str();
        if str_eq(op, "+") {
            Ok(a + b)
        } else if str_eq(op, "-") {
            Ok(a - b)
        } else if str_eq(op, "*") {
            Ok(a * b)
        } else if str_eq(op, "/") {
            Ok(div_trunc(a, b))
        } else if str_eq(op, "%") {
            Ok(rem_trunc(a, b))
        } else if str_eq(op, "||") {
            Ok(if a == 0 { b } else { 1 })
        } else if str_eq(op, "&&") {
            Ok(if a == 0 { 0 } else { b })
        } else if str_eq(op, "|") {
            Ok(a | b)
        } else if str_eq(op, "^") {
            Ok(a ^ b)
        } else if str_eq(op, "&") {
            Ok(a & b)
        } else if str_eq(op, "==") {
            Ok(if a == b { a } else { 0 })
        } else if str_eq(op, "!=") {
            Ok(if a == b { 0 } else { 1 })
        } else if str_eq(op, ">") {
            Ok(if a > b { 1 } else { 0 })
        } else if str_eq(op, ">=") {
            Ok(if a >= b { 1 } else { 0 })
        } else if str_eq(op, "<=") {
            Ok(if a <= b { 1 } else { 0 })
        } else if str_eq(op, "<") {
            Ok(if a < b { 1 } else { 0 })
        } else if str_eq(op, "<<") {
            Ok(a << (b as u32))
        } else if str_eq(op, ">>") {
            Ok(a >> (b as u32))
        } else {
            Err(failure(ReportMessage::UnknownBinaryOperator(operator.clone()), op_range))
        }
    }
}

proof fn lemma_char_literal_prefix(children: Seq<(Option<String>, SyntaxNode)>, range: Location, n: int)
    requires
        0 <= n <= children.len(),
        !(char_literal_sum(children, range) is Panic),
    ensures
        !(char_literal_sum(children.take(n), range) is Panic),
    decreases children.len(),
{
    if n < children.len() {
        assert(children.drop_last().take(n) =~= children.take(n));
        lemma_char_literal_prefix(children.drop_last(), range, n);
    } else {
        assert(children.take(n) =~= children);
    }
}

proof fn lemma_char_literal_failure_sticks(children: Seq<(Option<String>, SyntaxNode)>, range: Location, n: int)
    requires
        0 <= n <= children.len(),
        char_literal_sum(children.take(n), range) is Failure,
    ensures
        char_literal_sum(children, range) == char_literal_sum(children.take(n), range),
    decreases children.len(),
{
    if n < children.len() {
        assert(children.drop_last().take(n) =~= children.take(n));
        lemma_char_literal_failure_sticks(children.drop_last(), range, n);
    } else {
        assert(children.take(n) =~= children);
    }
}

} // verus!
