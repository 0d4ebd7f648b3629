pub mod directive;
pub mod predefined;

use vstd::prelude::*;
use crate::compiler::diagnostics::{LocatedDiagnostic, MinimalLocation};
use crate::compiler::strings::{str_eq, CowStr};
use crate::frontend::arguments::{ArgumentValue, Arguments};
use crate::frontend::doxygen::directive::{DoxygenDelimitedParameters, DoxygenDirective, spec_delimiters};
use crate::ir::rich_text::{CommonMark, MarkupEvent, RichText};

verus! {

/// The settings of the Doxygen dialect: the directives it knows, by name; each name occurs
/// once (`wf`), and a lookup takes the entry of the name.
#[derive(Clone, Debug)]
pub struct DoxygenSettings {
    pub directives: Vec<(String, DoxygenDirective<'static>)>,
}

impl DoxygenSettings {
    /// Each directive is named once.
    pub open spec fn wf(&self) -> bool {
        crate::compiler::strings::names_unique(self.directives@)
    }
}

/// A problem with a directive in a comment.
#[derive(Clone, Debug)]
pub enum DoxygenError {
    UnknownCommand(String),
    UnexpectedOptionValue(String, String, String),
    UnknownArgument(String, String),
    UnexpectedArgumentDelimiters(String, char, char),
    UnexpectedArguments(String),
    MismatchingArgumentDelimiters(String, char, char, char, char),
    MissingArguments(String, usize, usize),
    AdditionalArguments(String, usize, usize),
    MissingArguments2(String, Vec<String>),
    LackingContext(&'static str),
    UnsupportedAction(String),
    UnimplementedDirective(String),
}

/// A problem with a directive in a comment, by its kind and what it names.
pub enum DoxygenProblem {
    UnknownCommand(Seq<char>),
    UnexpectedOptionValue(Seq<char>, Seq<char>, Seq<char>),
    UnknownArgument(Seq<char>, Seq<char>),
    UnexpectedArgumentDelimiters(Seq<char>, u8, u8),
    UnexpectedArguments(Seq<char>),
    MismatchingArgumentDelimiters(Seq<char>, u8, u8, u8, u8),
    MissingArguments(Seq<char>, nat, nat),
    AdditionalArguments(Seq<char>, nat, nat),
    MissingArguments2(Seq<char>, Seq<Seq<char>>),
    LackingContext(Seq<char>),
    UnsupportedAction(Seq<char>),
    UnimplementedDirective(Seq<char>),
}

impl View for DoxygenError {
    type V = DoxygenProblem;

    open spec fn view(&self) -> DoxygenProblem {
        match self {
            DoxygenError::UnknownCommand(n) => DoxygenProblem::UnknownCommand(n@),
            DoxygenError::UnexpectedOptionValue(n, v, o) => DoxygenProblem::UnexpectedOptionValue(n@, v@, o@),
            DoxygenError::UnknownArgument(n, a) => DoxygenProblem::UnknownArgument(n@, a@),
            DoxygenError::UnexpectedArgumentDelimiters(n, a, b) => DoxygenProblem::UnexpectedArgumentDelimiters(n@, *a as u8, *b as u8),
            DoxygenError::UnexpectedArguments(n) => DoxygenProblem::UnexpectedArguments(n@),
            DoxygenError::MismatchingArgumentDelimiters(n, a, b, c, d) =>
                DoxygenProblem::MismatchingArgumentDelimiters(n@, *a as u8, *b as u8, *c as u8, *d as u8),
            DoxygenError::MissingArguments(n, a, b) => DoxygenProblem::MissingArguments(n@, *a as nat, *b as nat),
            DoxygenError::AdditionalArguments(n, a, b) => DoxygenProblem::AdditionalArguments(n@, *a as nat, *b as nat),
            DoxygenError::MissingArguments2(n, v) => DoxygenProblem::MissingArguments2(n@, v@.map_values(|s: String| s@)),
            DoxygenError::LackingContext(c) => DoxygenProblem::LackingContext(c@),
            DoxygenError::UnsupportedAction(a) => DoxygenProblem::UnsupportedAction(a@),
            DoxygenError::UnimplementedDirective(n) => DoxygenProblem::UnimplementedDirective(n@),
        }
    }
}

/// A problem with a directive, at the directive's tag.
pub type LocatedDoxygenError = LocatedDiagnostic<DoxygenError, MinimalLocation, MinimalLocation>;

/// The view of a list of problems, without their locations.
pub open spec fn problems(d: Seq<LocatedDoxygenError>) -> Seq<DoxygenProblem> {
    d.map_values(|e: LocatedDoxygenError| e.0@)
}

/// `after` is `before` followed by problems, each at `location`.
pub open spec fn reported_at(before: Seq<LocatedDoxygenError>, after: Seq<LocatedDoxygenError>, location: MinimalLocation) -> bool {
    &&& before.len() <= after.len()
    &&& after.take(before.len() as int) == before
    &&& forall|i: int| before.len() <= i < after.len() ==> #[trigger] after[i].1 == location
}

/// What an argument holds: nothing, text, or markup.
pub enum ArgumentContent {
    Nothing,
    Text(Seq<char>),
    Markup(Seq<MarkupEvent>),
}

/// The view of an argument: its name and what it holds.
pub open spec fn argument_view(a: crate::frontend::arguments::Argument) -> (Seq<char>, ArgumentContent) {
    (a.name@, match a.value {
        ArgumentValue::Void => ArgumentContent::Nothing,
        ArgumentValue::PlainText(t) => ArgumentContent::Text(t@),
        ArgumentValue::RichText(r) => ArgumentContent::Markup(r.events()),
    })
}

/// The views of the arguments.
pub open spec fn arguments_view(args: Arguments) -> Seq<(Seq<char>, ArgumentContent)> {
    args.0@.map_values(|a: crate::frontend::arguments::Argument| argument_view(a))
}

/// The keyword arguments: each known keyword becomes an argument without a value; each unknown
/// one is a problem.
pub open spec fn keyword_arguments(keywords: Seq<&str>, values: Seq<String>, name: Seq<char>)
    -> (Seq<DoxygenProblem>, Seq<(Seq<char>, ArgumentContent)>)
    decreases values.len(),
{
    if values.len() == 0 {
        (seq![], seq![])
    } else {
        let (d, a) = keyword_arguments(keywords, values.drop_last(), name);
        let v = values.last()@;
        if keywords.map_values(|k: &str| k@).contains(v) {
            (d, a.push((v, ArgumentContent::Nothing)))
        } else {
            (d.push(DoxygenProblem::UnknownArgument(name, v)), a)
        }
    }
}

/// The text before and after the first `sep`, where there is one.
pub open spec fn split_first(s: Seq<char>, sep: char) -> Option<(Seq<char>, Seq<char>)> {
    if exists|i: int| 0 <= i < s.len() && s[i] == sep {
        let i = choose|i: int| 0 <= i < s.len() && s[i] == sep && forall|j: int| 0 <= j < i ==> s[j] != sep;
        Some((s.take(i), s.skip(i + 1)))
    } else {
        None
    }
}

/// Whether an option is known, and whether it takes a value.
pub open spec fn option_accepts(options: Seq<(&str, bool)>, key: Seq<char>) -> Option<bool>
    decreases options.len(),
{
    if options.len() == 0 {
        None
    } else if options[0].0@ == key {
        Some(options[0].1)
    } else {
        option_accepts(options.drop_first(), key)
    }
}

/// The option arguments: an unknown option is a problem, a value given to an option that takes
/// none is a problem, and an option given without a value becomes an argument without a value.
pub open spec fn option_arguments(sep: char, options: Seq<(&str, bool)>, values: Seq<String>, name: Seq<char>)
    -> (Seq<DoxygenProblem>, Seq<(Seq<char>, ArgumentContent)>)
    decreases values.len(),
{
    if values.len() == 0 {
        (seq![], seq![])
    } else {
        let (d, a) = option_arguments(sep, options, values.drop_last(), name);
        let v = values.last()@;
        let (key, value) = match split_first(v, sep) {
            Some((k, x)) => (k, Some(x)),
            None => (v, None),
        };
        match option_accepts(options, key) {
            None => (d.push(DoxygenProblem::UnknownArgument(name, key)), a),
            Some(accepts) => match value {
                Some(x) => if accepts { (d, a) } else { (d.push(DoxygenProblem::UnexpectedOptionValue(name, v, x)), a) },
                None => (d, a.push((key, ArgumentContent::Nothing))),
            },
        }
    }
}

/// A known option is found among the options.
proof fn lemma_option_known(options: Seq<(&str, bool)>, key: Seq<char>)
    requires
        exists|j: int| 0 <= j < options.len() && (#[trigger] options[j]).0@ == key,
    ensures
        option_accepts(options, key) is Some,
    decreases options.len(),
{
    if options[0].0@ != key {
        let j = choose|j: int| 0 <= j < options.len() && (#[trigger] options[j]).0@ == key;
        assert(options.drop_first()[j - 1] == options[j]);
        lemma_option_known(options.drop_first(), key);
    }
}

/// An option is known exactly where it is among the options.
proof fn lemma_option_unknown(options: Seq<(&str, bool)>, key: Seq<char>)
    requires
        option_accepts(options, key) is Some,
    ensures
        exists|j: int| 0 <= j < options.len() && (#[trigger] options[j]).0@ == key,
    decreases options.len(),
{
    if options[0].0@ != key {
        lemma_option_unknown(options.drop_first(), key);
        let j = choose|j: int| 0 <= j < options.drop_first().len() && (#[trigger] options.drop_first()[j]).0@ == key;
        assert(options[j + 1] == options.drop_first()[j]);
    }
}

/// A text without the separator has no first separator.
proof fn lemma_split_first_none(s: Seq<char>, sep: char)
    requires
        !s.contains(sep),
    ensures
        split_first(s, sep) is None,
{
    if exists|i: int| 0 <= i < s.len() && s[i] == sep {
        let i = choose|i: int| 0 <= i < s.len() && s[i] == sep;
        assert(s.contains(sep));
    }
}

/// Binding keyword modifiers: each value that is one of the keywords becomes an argument of that
/// name without a value.
pub proof fn law_keywords_are_bound(keywords: Seq<&str>, values: Seq<String>, name: Seq<char>, i: int)
    requires
        0 <= i < values.len(),
        exists|j: int| 0 <= j < keywords.len() && (#[trigger] keywords[j])@ == values[i]@,
    ensures
        keyword_arguments(keywords, values, name).1.contains((values[i]@, ArgumentContent::Nothing)),
    decreases values.len(),
{
    let a0 = keyword_arguments(keywords, values.drop_last(), name).1;
    let a = keyword_arguments(keywords, values, name).1;
    let v = values.last()@;
    let names = keywords.map_values(|k: &str| k@);
    if i < values.len() - 1 {
        assert(values.drop_last()[i] == values[i]);
        law_keywords_are_bound(keywords, values.drop_last(), name, i);
        let k = choose|k: int| 0 <= k < a0.len() && a0[k] == (values[i]@, ArgumentContent::Nothing);
        if names.contains(v) {
            assert(a[k] == a0[k]);
        }
    } else {
        let j = choose|j: int| 0 <= j < keywords.len() && (#[trigger] keywords[j])@ == values[i]@;
        assert(names[j] == v);
        assert(a[a0.len() as int] == (v, ArgumentContent::Nothing));
    }
}

/// Binding keyword modifiers binds nothing else: each argument bound is, without a value, one of
/// the keywords.
pub proof fn law_keyword_arguments_are_keywords(keywords: Seq<&str>, values: Seq<String>, name: Seq<char>, k: int)
    requires
        0 <= k < keyword_arguments(keywords, values, name).1.len(),
    ensures
        keyword_arguments(keywords, values, name).1[k].1 == ArgumentContent::Nothing,
        keywords.map_values(|w: &str| w@).contains(keyword_arguments(keywords, values, name).1[k].0),
    decreases values.len(),
{
    let a0 = keyword_arguments(keywords, values.drop_last(), name).1;
    if k < a0.len() {
        law_keyword_arguments_are_keywords(keywords, values.drop_last(), name, k);
    }
}

/// The option named `key` is among the options.
pub open spec fn is_option(options: Seq<(&str, bool)>, key: Seq<char>) -> bool {
    exists|j: int| 0 <= j < options.len() && (#[trigger] options[j]).0@ == key
}

/// One step of binding options: the last value is bound, without a value, exactly where it has no
/// separator and names a known option.
proof fn lemma_option_step(sep: char, options: Seq<(&str, bool)>, values: Seq<String>, name: Seq<char>)
    requires
        values.len() > 0,
    ensures
        option_arguments(sep, options, values, name).1 == ({
            let a0 = option_arguments(sep, options, values.drop_last(), name).1;
            let v = values.last()@;
            if split_first(v, sep) is None && option_accepts(options, v) is Some {
                a0.push((v, ArgumentContent::Nothing))
            } else {
                a0
            }
        }),
{
}

/// Binding option arguments: each value that names a known option, without the separator (so
/// with no value given), becomes an argument of that name without a value.
pub proof fn law_options_without_value_are_bound(sep: char, options: Seq<(&str, bool)>, values: Seq<String>, name: Seq<char>, i: int)
    requires
        0 <= i < values.len(),
        !values[i]@.contains(sep),
        is_option(options, values[i]@),
    ensures
        option_arguments(sep, options, values, name).1.contains((values[i]@, ArgumentContent::Nothing)),
    decreases values.len(),
{
    lemma_option_step(sep, options, values, name);
    let a0 = option_arguments(sep, options, values.drop_last(), name).1;
    let a = option_arguments(sep, options, values, name).1;
    let v = values.last()@;
    if i < values.len() - 1 {
        assert(values.drop_last()[i] == values[i]);
        law_options_without_value_are_bound(sep, options, values.drop_last(), name, i);
        let k = choose|k: int| 0 <= k < a0.len() && a0[k] == (values[i]@, ArgumentContent::Nothing);
        assert(a[k] == a0[k]);
    } else {
        lemma_split_first_none(v, sep);
        lemma_option_known(options, v);
        assert(a[a0.len() as int] == (v, ArgumentContent::Nothing));
    }
}

/// Binding option arguments reports each value that names no known option (and gives it no
/// value) as an unknown argument of the directive.
pub proof fn law_unknown_options_are_reported(sep: char, options: Seq<(&str, bool)>, values: Seq<String>, name: Seq<char>, i: int)
    requires
        0 <= i < values.len(),
        !values[i]@.contains(sep),
        !is_option(options, values[i]@),
    ensures
        option_arguments(sep, options, values, name).0.contains(DoxygenProblem::UnknownArgument(name, values[i]@)),
    decreases values.len(),
{
    let d0 = option_arguments(sep, options, values.drop_last(), name).0;
    let d = option_arguments(sep, options, values, name).0;
    let v = values.last()@;
    if i < values.len() - 1 {
        assert(values.drop_last()[i] == values[i]);
        law_unknown_options_are_reported(sep, options, values.drop_last(), name, i);
        let k = choose|k: int| 0 <= k < d0.len() && d0[k] == DoxygenProblem::UnknownArgument(name, values[i]@);
        assert(d.len() >= d0.len() && d[k] == d0[k]);
    } else {
        lemma_split_first_none(v, sep);
        if option_accepts(options, v) is Some {
            lemma_option_unknown(options, v);
        }
        assert(d[d0.len() as int] == DoxygenProblem::UnknownArgument(name, v));
    }
}

/// Binding keyword modifiers reports each value that is none of the keywords as an unknown
/// argument of the directive.
pub proof fn law_unknown_keywords_are_reported(keywords: Seq<&str>, values: Seq<String>, name: Seq<char>, i: int)
    requires
        0 <= i < values.len(),
        !keywords.map_values(|k: &str| k@).contains(values[i]@),
    ensures
        keyword_arguments(keywords, values, name).0.contains(DoxygenProblem::UnknownArgument(name, values[i]@)),
    decreases values.len(),
{
    let d0 = keyword_arguments(keywords, values.drop_last(), name).0;
    let d = keyword_arguments(keywords, values, name).0;
    if i < values.len() - 1 {
        assert(values.drop_last()[i] == values[i]);
        law_unknown_keywords_are_reported(keywords, values.drop_last(), name, i);
        let k = choose|k: int| 0 <= k < d0.len() && d0[k] == DoxygenProblem::UnknownArgument(name, values[i]@);
        assert(d.len() >= d0.len() && d[k] == d0[k]);
    } else {
        assert(d[d0.len() as int] == DoxygenProblem::UnknownArgument(name, values.last()@));
    }
}

/// Binding option arguments binds nothing else: each argument bound is, without a value, an
/// option that is known.
pub proof fn law_option_arguments_are_known(sep: char, options: Seq<(&str, bool)>, values: Seq<String>, name: Seq<char>, k: int)
    requires
        0 <= k < option_arguments(sep, options, values, name).1.len(),
    ensures
        option_arguments(sep, options, values, name).1[k].1 == ArgumentContent::Nothing,
        is_option(options, option_arguments(sep, options, values, name).1[k].0),
    decreases values.len(),
{
    lemma_option_step(sep, options, values, name);
    let a0 = option_arguments(sep, options, values.drop_last(), name).1;
    if k < a0.len() {
        law_option_arguments_are_known(sep, options, values.drop_last(), name, k);
    } else {
        lemma_option_unknown(options, values.last()@);
    }
}

/// What binding the delimited arguments of a directive gives: the problems, and the arguments
/// where the directive is still evaluated.
pub open spec fn spec_bind_delimited(
    command: DoxygenDirective,
    name: Seq<char>,
    values: Seq<String>,
    delimiters: Option<(u8, u8)>,
) -> (Seq<DoxygenProblem>, Option<Seq<(Seq<char>, ArgumentContent)>>) {
    let expected = spec_delimiters(command.parameters.delimited);
    if delimiters != expected && expected is None && values.len() == 0 {
        (seq![DoxygenProblem::UnexpectedArgumentDelimiters(name, (delimiters->0).0, (delimiters->0).1)], None)
    } else if delimiters != expected && expected is Some {
        (seq![DoxygenProblem::MismatchingArgumentDelimiters(name, (expected->0).0, (expected->0).1, (delimiters->0).0, (delimiters->0).1)], None)
    } else {
        match command.parameters.delimited {
            DoxygenDelimitedParameters::NoArguments => if values.len() > 0 {
                (seq![DoxygenProblem::UnexpectedArguments(name)], None)
            } else {
                (seq![], Some(seq![]))
            },
            DoxygenDelimitedParameters::KeywordModifiers(keywords) => {
                let (d, a) = keyword_arguments(keywords@, values, name);
                (d, Some(a))
            },
            DoxygenDelimitedParameters::Options(sep, options) => {
                let (d, a) = option_arguments(sep, options@, values, name);
                (d, Some(a))
            },
            DoxygenDelimitedParameters::PositionalArguments(names, mandatory, optional) => {
                if values.len() < mandatory {
                    (seq![DoxygenProblem::MissingArguments(name, mandatory as nat, values.len())], None)
                } else if values.len() > mandatory + optional {
                    (seq![DoxygenProblem::AdditionalArguments(name, (mandatory + optional) as nat, values.len())], None)
                } else {
                    let n = if names@.len() < values.len() { names@.len() } else { values.len() };
                    (seq![], Some(Seq::new(n, |i: int| (names@[i]@, ArgumentContent::Text(values[i]@)))))
                }
            },
        }
    }
}

/// A directive with options, given in its delimiters, is evaluated, and each value that names a
/// known option without giving it a value is bound as an argument of that name without a value.
pub proof fn law_directive_options_are_bound(
    command: DoxygenDirective,
    name: Seq<char>,
    values: Seq<String>,
    delimiters: Option<(u8, u8)>,
    i: int,
)
    requires
        command.parameters.delimited is Options,
        delimiters == spec_delimiters(command.parameters.delimited),
        0 <= i < values.len(),
        !values[i]@.contains(command.parameters.delimited->Options_0),
        is_option(command.parameters.delimited->Options_1@, values[i]@),
    ensures
        spec_bind_delimited(command, name, values, delimiters).1 matches Some(a)
            && a.contains((values[i]@, ArgumentContent::Nothing)),
{
    match command.parameters.delimited {
        DoxygenDelimitedParameters::Options(sep, options) => {
            law_options_without_value_are_bound(sep, options@, values, name, i);
        },
        _ => {},
    }
}

/// A directive with positional parameters, given in its delimiters with an accepted number of
/// values, is evaluated without problems, and its i-th value is bound as text to its i-th
/// parameter name, for as many values as there are names.
pub proof fn law_positional_arguments_are_bound(
    command: DoxygenDirective,
    name: Seq<char>,
    values: Seq<String>,
    delimiters: Option<(u8, u8)>,
)
    requires
        command.parameters.delimited is PositionalArguments,
        delimiters == spec_delimiters(command.parameters.delimited),
        command.parameters.delimited->PositionalArguments_1 <= values.len(),
        values.len() <= command.parameters.delimited->PositionalArguments_1 + command.parameters.delimited->PositionalArguments_2,
    ensures
        ({
            let names = command.parameters.delimited->PositionalArguments_0@;
            let r = spec_bind_delimited(command, name, values, delimiters);
            &&& r.0.len() == 0
            &&& r.1 matches Some(a)
            &&& a.len() == if names.len() < values.len() { names.len() } else { values.len() }
            &&& forall|i: int| 0 <= i < a.len() ==> #[trigger] a[i] == (names[i]@, ArgumentContent::Text(values[i]@))
        }),
{
}

/// Whether a list of strings holds `s`.
fn contains_keyword(keywords: &Vec<&str>, s: &str) -> (r: bool)
    ensures
        r == keywords@.map_values(|k: &str| k@).contains(s@),
{
    let mut k: usize = 0;
    while k < keywords.len()
        invariant
            k <= keywords@.len(),
            forall|j: int| 0 <= j < k ==> (#[trigger] keywords@[j])@ != s@,
        decreases keywords.len() - k,
    {
        if str_eq(keywords[k], s) {
            assert(keywords@.map_values(|k: &str| k@)[k as int] == s@);
            return true;
        }
        k = k + 1;
    }
    proof {
        if keywords@.map_values(|k: &str| k@).contains(s@) {
            let named = keywords@.map_values(|k: &str| k@);
            let j = choose|j: int| 0 <= j < named.len() && #[trigger] named[j] == s@;
            assert(keywords@[j]@ == s@);
        }
    }
    false
}

/// Splits a string at the first `sep`.
fn split_once(s: &str, sep: char) -> (r: Option<(&str, &str)>)
    ensures
        match split_first(s@, sep) {
            Some((a, b)) => r matches Some((x, y)) && x@ == a && y@ == b,
            None => r is None,
        },
{
    let n = s.unicode_len();
    let mut k: usize = 0;
    while k < n
        invariant
            n == s@.len(),
            k <= n,
            forall|j: int| 0 <= j < k ==> s@[j] != sep,
        decreases n - k,
    {
        if s.get_char(k) == sep {
            proof {
                let i = choose|i: int| 0 <= i < s@.len() && s@[i] == sep && forall|j: int| 0 <= j < i ==> s@[j] != sep;
                if i < k {
                } else if i > k {
                    assert(s@[k as int] == sep);
                }
                assert(i == k);
            }
            return Some((s.substring_char(0, k), s.substring_char(k + 1, n)));
        }
        k = k + 1;
    }
    None
}

/// Whether an option is known, and whether it takes a value.
fn lookup_option(options: &Vec<(&str, bool)>, key: &str) -> (r: Option<bool>)
    ensures
        r == option_accepts(options@, key@),
{
    let mut k: usize = 0;
    assert(options@.skip(0) =~= options@);
    while k < options.len()
        invariant
            k <= options@.len(),
            option_accepts(options@.skip(k as int), key@) == option_accepts(options@, key@),
        decreases options.len() - k,
    {
        assert(options@.skip(k as int).drop_first() =~= options@.skip(k + 1));
        assert(options@.skip(k as int)[0] == options@[k as int]);
        if str_eq(options[k].0, key) {
            return Some(options[k].1);
        }
        k = k + 1;
    }
    None
}

/// Problems reported one after another at one location stand together at it.
proof fn lemma_reported_at_trans(a: Seq<LocatedDoxygenError>, b: Seq<LocatedDoxygenError>, c: Seq<LocatedDoxygenError>, location: MinimalLocation)
    requires
        a == b || reported_at(a, b, location),
        b == c || reported_at(b, c, location),
    ensures
        reported_at(a, c, location),
{
    assert(a.take(a.len() as int) =~= a);
    assert(b.take(b.len() as int) =~= b);
    if reported_at(b, c, location) && reported_at(a, b, location) {
        assert(c.take(a.len() as int) =~= b.take(a.len() as int));
        assert forall|i: int| a.len() <= i < c.len() implies #[trigger] c[i].1 == location by {
            if i < b.len() {
                assert(c.take(b.len() as int)[i] == c[i]);
                assert(b[i].1 == location);
            }
        }
    }
}

fn report(diags: &mut Vec<LocatedDoxygenError>, e: DoxygenError, location: MinimalLocation)
    ensures
        problems(final(diags)@) == problems(old(diags)@).push(e@),
        reported_at(old(diags)@, final(diags)@, location),
{
    let ghost v = e@;
    diags.push(LocatedDiagnostic(e, location, std::marker::PhantomData));
    assert(problems(diags@) =~= problems(old(diags)@).push(v));
    assert(diags@.take(old(diags)@.len() as int) =~= old(diags)@);
}

fn add_argument<'i>(args: &mut Arguments<'i>, name: &'i str, value: ArgumentValue<'i>, location: MinimalLocation)
    ensures
        arguments_view(*final(args)) == arguments_view(*old(args)).push(argument_view(
            crate::frontend::arguments::Argument { name, value, location })),
{
    args.add(name, value, location);
    assert(arguments_view(*args) =~= arguments_view(*old(args)).push(argument_view(
        crate::frontend::arguments::Argument { name, value, location })));
}

/// Binds the arguments delimited after a directive's name (`@name[..]` or `@name{..}`), as the
/// directive's parameters call for; reports the problems. Where the delimiters do not match,
/// where arguments are given to a directive that takes none, and where positional arguments are
/// too few or too many, the directive is not evaluated (`None`).
pub fn bind_delimited_arguments<'i>(
    command: &'i DoxygenDirective<'static>,
    name: &str,
    values: &'i Vec<String>,
    delimiters: Option<(u8, u8)>,
    location: MinimalLocation,
    diags: &mut Vec<LocatedDoxygenError>,
) -> (r: Option<Arguments<'i>>)
    requires
        !(spec_delimiters(command.parameters.delimited) is Some && delimiters is None),
    ensures
        ({
            let (d, a) = spec_bind_delimited(*command, name@, values@, delimiters);
            &&& problems(final(diags)@) == problems(old(diags)@) + d
            &&& reported_at(old(diags)@, final(diags)@, location)
            &&& match a {
                Some(args) => r matches Some(x) && arguments_view(x) == args,
                None => r is None,
            }
        }),
{
    let expected = command.parameters.delimited.delimiters();
    let differs = match (delimiters, expected) {
        (Some(a), Some(b)) => a.0 != b.0 || a.1 != b.1,
        (None, None) => false,
        _ => true,
    };
    assert(differs == (delimiters != expected));
    if differs {
        match expected {
            None => {
                if values.len() == 0 {
                    let d = match delimiters { Some(d) => d, None => (0, 0) };
                    report(diags, DoxygenError::UnexpectedArgumentDelimiters(name.to_string(), d.0 as char, d.1 as char), location);
                    assert(problems(diags@) =~= problems(old(diags)@) + spec_bind_delimited(*command, name@, values@, delimiters).0);
                    return None;
                }
            },
            Some(e) => {
                let d = match delimiters { Some(d) => d, None => (0, 0) };
                report(diags, DoxygenError::MismatchingArgumentDelimiters(
                    name.to_string(), e.0 as char, e.1 as char, d.0 as char, d.1 as char), location);
                assert(problems(diags@) =~= problems(old(diags)@) + spec_bind_delimited(*command, name@, values@, delimiters).0);
                return None;
            },
        }
    }
    let mut arguments = Arguments::default();
    assert(arguments_view(arguments) =~= Seq::<(Seq<char>, ArgumentContent)>::empty());
    match &command.parameters.delimited {
        DoxygenDelimitedParameters::NoArguments => {
            if values.len() > 0 {
                report(diags, DoxygenError::UnexpectedArguments(name.to_string()), location);
                assert(problems(diags@) =~= problems(old(diags)@) + spec_bind_delimited(*command, name@, values@, delimiters).0);
                return None;
            }
            assert(problems(diags@) =~= problems(old(diags)@) + Seq::<DoxygenProblem>::empty());
        },
        DoxygenDelimitedParameters::KeywordModifiers(keywords) => {
            let ghost d0 = problems(diags@);
            let mut k: usize = 0;
            assert(values@.take(0) =~= Seq::<String>::empty());
            assert(d0 =~= d0 + Seq::<DoxygenProblem>::empty());
            while k < values.len()
                invariant
                    k <= values@.len(),
                    d0 == problems(old(diags)@),
                    problems(diags@) == d0 + keyword_arguments(keywords@, values@.take(k as int), name@).0,
                    arguments_view(arguments) == keyword_arguments(keywords@, values@.take(k as int), name@).1,
                    old(diags)@ == diags@ || reported_at(old(diags)@, diags@, location),
                decreases values.len() - k,
            {
                assert(values@.take(k + 1).drop_last() =~= values@.take(k as int));
                assert(values@.take(k + 1).last() == values@[k as int]);
                let ghost prev = diags@;
                let value = values[k].as_str();
                if !contains_keyword(keywords, value) {
                    report(diags, DoxygenError::UnknownArgument(name.to_string(), value.to_string()), location);
                } else {
                    add_argument(&mut arguments, value, ArgumentValue::Void, location);
                }
                proof {
                    lemma_reported_at_trans(old(diags)@, prev, diags@, location);
                }
                k = k + 1;
            }
            assert(values@.take(values@.len() as int) =~= values@);
        },
        DoxygenDelimitedParameters::Options(sep, options) => {
            let ghost d0 = problems(diags@);
            let mut k: usize = 0;
            assert(values@.take(0) =~= Seq::<String>::empty());
            assert(d0 =~= d0 + Seq::<DoxygenProblem>::empty());
            while k < values.len()
                invariant
                    k <= values@.len(),
                    d0 == problems(old(diags)@),
                    problems(diags@) == d0 + option_arguments(*sep, options@, values@.take(k as int), name@).0,
                    arguments_view(arguments) == option_arguments(*sep, options@, values@.take(k as int), name@).1,
                    old(diags)@ == diags@ || reported_at(old(diags)@, diags@, location),
                decreases values.len() - k,
            {
                assert(values@.take(k + 1).drop_last() =~= values@.take(k as int));
                assert(values@.take(k + 1).last() == values@[k as int]);
                let ghost prev = diags@;
                let value = values[k].as_str();
                let (key, option_value) = match split_once(value, *sep) {
                    Some((a, b)) => (a, Some(b)),
                    None => (value, None),
                };
                match lookup_option(options, key) {
                    None => {
                        report(diags, DoxygenError::UnknownArgument(name.to_string(), key.to_string()), location);
                    },
                    Some(accepts) => match option_value {
                        Some(x) => {
                            if !accepts {
                                report(diags, DoxygenError::UnexpectedOptionValue(name.to_string(), value.to_string(), x.to_string()), location);
                            }
                        },
                        None => {
                            add_argument(&mut arguments, key, ArgumentValue::Void, location);
                        },
                    },
                }
                proof {
                    lemma_reported_at_trans(old(diags)@, prev, diags@, location);
                }
                k = k + 1;
            }
            assert(values@.take(values@.len() as int) =~= values@);
        },
        DoxygenDelimitedParameters::PositionalArguments(names, mandatory, optional) => {
            if values.len() < *mandatory {
                report(diags, DoxygenError::MissingArguments(name.to_string(), *mandatory, values.len()), location);
                assert(problems(diags@) =~= problems(old(diags)@) + spec_bind_delimited(*command, name@, values@, delimiters).0);
                return None;
            }
            if values.len() - *mandatory > *optional {
                report(diags, DoxygenError::AdditionalArguments(name.to_string(), *mandatory + *optional, values.len()), location);
                assert(problems(diags@) =~= problems(old(diags)@) + spec_bind_delimited(*command, name@, values@, delimiters).0);
                return None;
            }
            let n = if names.len() < values.len() { names.len() } else { values.len() };
            let mut k: usize = 0;
            while k < n
                invariant
                    n <= names@.len(),
                    n <= values@.len(),
                    k <= n,
                    arguments_view(arguments) == Seq::new(k as nat, |i: int| (names@[i]@, ArgumentContent::Text(values@[i]@))),
                decreases n - k,
            {
                add_argument(&mut arguments, names[k], ArgumentValue::PlainText(CowStr::Borrowed(values[k].as_str())), location);
                assert(arguments_view(arguments) =~= Seq::new((k + 1) as nat, |i: int| (names@[i]@, ArgumentContent::Text(values@[i]@))));
                k = k + 1;
            }
            assert(problems(diags@) =~= problems(old(diags)@) + Seq::<DoxygenProblem>::empty());
        },
    }
    proof {
        lemma_reported_at_trans(old(diags)@, diags@, diags@, location);
    }
    Some(arguments)
}

/// What checking the whitespace-separated arguments and the attached text of a directive gives:
/// the problems, and the arguments where the directive is still evaluated.
pub open spec fn spec_bind_operands(
    command: DoxygenDirective,
    name: Seq<char>,
    whitespace_count: nat,
    attachment: Seq<MarkupEvent>,
    args: Seq<(Seq<char>, ArgumentContent)>,
) -> (Seq<DoxygenProblem>, Option<Seq<(Seq<char>, ArgumentContent)>>) {
    let min = command.parameters.whitespace_separated.required@.len();
    let max = min + command.parameters.whitespace_separated.optional@.len();
    if whitespace_count < min {
        (seq![DoxygenProblem::MissingArguments(name, min, whitespace_count)], None)
    } else if whitespace_count > max {
        (seq![DoxygenProblem::AdditionalArguments(name, max, whitespace_count)], None)
    } else {
        match command.parameters.attached {
            Some(p) => if p.required && attachment.len() == 0 {
                (seq![DoxygenProblem::MissingArguments2(name, seq![p.name@])],
                    Some(args.push((p.name@, ArgumentContent::Markup(attachment)))))
            } else {
                (seq![], Some(args))
            },
            None => if attachment.len() > 0 {
                (seq![DoxygenProblem::AdditionalArguments(name, max, whitespace_count + 1)], Some(args))
            } else {
                (seq![], Some(args))
            },
        }
    }
}

/// Checks the number of whitespace-separated arguments of a directive and its attached text,
/// and reports the problems. Too few or too many whitespace-separated arguments stop the
/// directive (`None`). A required attachment that is missing is reported, and the empty
/// attachment then becomes the argument.
pub fn bind_operands<'i>(
    command: &'i DoxygenDirective<'static>,
    name: &str,
    whitespace_count: usize,
    attachment: Vec<MarkupEvent>,
    arguments: Arguments<'i>,
    location: MinimalLocation,
    diags: &mut Vec<LocatedDoxygenError>,
) -> (r: Option<Arguments<'i>>)
    requires
        command.parameters.whitespace_separated.required@.len() + command.parameters.whitespace_separated.optional@.len() <= usize::MAX,
        whitespace_count < usize::MAX,
    ensures
        ({
            let (d, a) = spec_bind_operands(*command, name@, whitespace_count as nat, attachment@, arguments_view(arguments));
            &&& problems(final(diags)@) == problems(old(diags)@) + d
            &&& reported_at(old(diags)@, final(diags)@, location)
            &&& match a {
                Some(args) => r matches Some(x) && arguments_view(x) == args,
                None => r is None,
            }
        }),
{
    let min = command.parameters.whitespace_separated.required.len();
    let optional = command.parameters.whitespace_separated.optional.len();
    if whitespace_count < min {
        report(diags, DoxygenError::MissingArguments(name.to_string(), min, whitespace_count), location);
        assert(problems(diags@) =~= problems(old(diags)@)
            + spec_bind_operands(*command, name@, whitespace_count as nat, attachment@, arguments_view(arguments)).0);
        return None;
    }
    if whitespace_count - min > optional {
        report(diags, DoxygenError::AdditionalArguments(name.to_string(), min + optional, whitespace_count), location);
        assert(problems(diags@) =~= problems(old(diags)@)
            + spec_bind_operands(*command, name@, whitespace_count as nat, attachment@, arguments_view(arguments)).0);
        return None;
    }
    let max = min + optional;
    let mut arguments = arguments;
    let ghost before = arguments_view(arguments);
    match command.parameters.attached {
        Some(p) => {
            if p.required && attachment.len() == 0 {
                let missing = vec![p.name.to_string()];
                assert(missing@.map_values(|s: String| s@) =~= seq![p.name@]);
                report(diags, DoxygenError::MissingArguments2(name.to_string(), missing), location);
                let value = ArgumentValue::RichText(RichText::common_mark(CommonMark::new(attachment)));
                add_argument(&mut arguments, p.name, value, location);

            }
        },
        None => {
            if attachment.len() > 0 {
                report(diags, DoxygenError::AdditionalArguments(name.to_string(), max, whitespace_count + 1), location);
            }
        },
    }
    assert(problems(diags@) =~= problems(old(diags)@)
        + spec_bind_operands(*command, name@, whitespace_count as nat, attachment@, before).0);
    proof {
        lemma_reported_at_trans(old(diags)@, diags@, diags@, location);
    }
    Some(arguments)
}

/// Reports a directive whose script is empty as not implemented, at the directive's tag.
pub fn evaluate_command(command: &DoxygenDirective<'static>, name: &str, location: MinimalLocation, diags: &mut Vec<LocatedDoxygenError>)
    ensures
        command.script@.len() == 0 ==> problems(final(diags)@) == problems(old(diags)@).push(DoxygenProblem::UnimplementedDirective(name@)),
        command.script@.len() > 0 ==> final(diags)@ == old(diags)@,
        reported_at(old(diags)@, final(diags)@, location),
{
    if command.script.len() == 0 {
        report(diags, DoxygenError::UnimplementedDirective(name.to_string()), location);
    } else {
        assert(diags@.take(old(diags)@.len() as int) =~= old(diags)@);
    }
}

/// The position of the first directive of that name.
pub open spec fn directive_named(dirs: Seq<(String, DoxygenDirective<'static>)>, name: Seq<char>) -> Option<int>
    decreases dirs.len(),
{
    if dirs.len() == 0 {
        None
    } else {
        match directive_named(dirs.drop_last(), name) {
            Some(k) => Some(k),
            None => if dirs.last().0@ == name { Some(dirs.len() - 1) } else { None },
        }
    }
}

/// Finds the first directive of that name.
fn find_directive<'s>(dirs: &'s Vec<(String, DoxygenDirective<'static>)>, name: &str) -> (r: Option<usize>)
    ensures
        match r {
            Some(k) => directive_named(dirs@, name@) == Some(k as int) && k < dirs@.len(),
            None => directive_named(dirs@, name@) is None,
        },
{
    let mut k: usize = 0;
    assert(dirs@.take(0) =~= Seq::<(String, DoxygenDirective<'static>)>::empty());
    while k < dirs.len()
        invariant
            k <= dirs@.len(),
            directive_named(dirs@.take(k as int), name@) is None,
        decreases dirs.len() - k,
    {
        assert(dirs@.take(k + 1).drop_last() =~= dirs@.take(k as int));
        if str_eq(dirs[k].0.as_str(), name) {
            proof {
                lemma_directive_named_prefix(dirs@, name@, k + 1);
            }
            return Some(k);
        }
        k = k + 1;
    }
    assert(dirs@.take(dirs@.len() as int) =~= dirs@);
    None
}

proof fn lemma_directive_named_prefix(dirs: Seq<(String, DoxygenDirective<'static>)>, name: Seq<char>, n: int)
    requires
        0 <= n <= dirs.len(),
        directive_named(dirs.take(n), name) is Some,
    ensures
        directive_named(dirs, name) == directive_named(dirs.take(n), name),
    decreases dirs.len(),
{
    if n < dirs.len() {
        assert(dirs.drop_last().take(n) =~= dirs.take(n));
        lemma_directive_named_prefix(dirs.drop_last(), name, n);
    } else {
        assert(dirs.take(n) =~= dirs);
    }
}

/// Handles one directive found in a comment: looks it up (an unknown one is reported), binds
/// its delimited arguments, checks its whitespace-separated arguments and attached text, and,
/// where the directive is closed, evaluates it. Returns the arguments it was evaluated with.
pub fn record_directive<'i>(
    settings: &'i DoxygenSettings,
    name: &str,
    values: &'i Vec<String>,
    delimiters: Option<(u8, u8)>,
    whitespace_count: usize,
    attachment: Vec<MarkupEvent>,
    closed: bool,
    location: MinimalLocation,
    diags: &mut Vec<LocatedDoxygenError>,
) -> (r: Option<Arguments<'i>>)
    requires
        directive_named(settings.directives@, name@) matches Some(k) ==> {
            let d = settings.directives@[k].1;
            &&& !(spec_delimiters(d.parameters.delimited) is Some && delimiters is None)
            &&& d.parameters.whitespace_separated.required@.len() + d.parameters.whitespace_separated.optional@.len() <= usize::MAX
        },
        whitespace_count < usize::MAX,
    ensures
        reported_at(old(diags)@, final(diags)@, location),
        directive_named(settings.directives@, name@) is None ==> r is None
            && problems(final(diags)@) == problems(old(diags)@).push(DoxygenProblem::UnknownCommand(name@)),
        directive_named(settings.directives@, name@) matches Some(k) ==> {
            let d = settings.directives@[k].1;
            let (d1, a1) = spec_bind_delimited(d, name@, values@, delimiters);
            match a1 {
                None => r is None && problems(final(diags)@) == problems(old(diags)@) + d1,
                Some(args) => {
                    let (d2, a2) = spec_bind_operands(d, name@, whitespace_count as nat, attachment@, args);
                    match a2 {
                        None => r is None && problems(final(diags)@) == problems(old(diags)@) + d1 + d2,
                        Some(bound) => if !closed {
                            r is None && problems(final(diags)@) == problems(old(diags)@) + d1 + d2
                        } else {
                            &&& r matches Some(x) && arguments_view(x) == bound
                            &&& d.script@.len() == 0 ==> problems(final(diags)@) == (problems(old(diags)@) + d1 + d2).push(DoxygenProblem::UnimplementedDirective(name@))
                            &&& d.script@.len() > 0 ==> problems(final(diags)@) == problems(old(diags)@) + d1 + d2
                        },
                    }
                },
            }
        },
{
    let k = match find_directive(&settings.directives, name) {
        Some(k) => k,
        None => {
            report(diags, DoxygenError::UnknownCommand(name.to_string()), location);
            return None;
        },
    };
    let command = &settings.directives[k].1;
    let ghost d0 = problems(diags@);
    let arguments = match bind_delimited_arguments(command, name, values, delimiters, location, diags) {
        Some(a) => a,
        None => { return None; },
    };
    let ghost d1 = problems(diags@);
    let ghost s1 = diags@;
    let arguments = match bind_operands(command, name, whitespace_count, attachment, arguments, location, diags) {
        Some(a) => a,
        None => {
            assert(problems(diags@) =~= d0 + (d1.skip(d0.len() as int)) + problems(diags@).skip(d1.len() as int));
            proof {
                lemma_reported_at_trans(old(diags)@, s1, diags@, location);
            }
            return None;
        },
    };
    proof {
        lemma_reported_at_trans(old(diags)@, s1, diags@, location);
    }
    if !closed {
        return None;
    }
    let ghost d2 = problems(diags@);
    let ghost s2 = diags@;
    evaluate_command(command, name, location, diags);
    proof {
        lemma_reported_at_trans(old(diags)@, s2, diags@, location);
    }
    Some(arguments)
}

} // verus!
