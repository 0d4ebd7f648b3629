use vstd::prelude::*;
use vstd::utf8::encode_utf8;
use lenient_semver::parser::ErrorKind;
use crate::compiler::diagnostics::{
    spec_within_offset_range, EditorLocation, MinimalLocation, VersionError, VersionErrorKind,
};
use crate::compiler::strings::{str_eq, CowStr};
use crate::frontend::c::sema_gen::{isize_from_str, spec_parse_isize, spec_parse_usize, usize_from_str};
use crate::ir::entry_graph::{Value, ValueType};
use crate::ir::rich_text::{
    is_link_start, link_positions, parse_url, same_rich_text, text_of, url_parse_outcome, LinkExtractionError,
    MarkupEvent, MarkupTag, RichText, RichTextRepresentation,
};

verus! {

broadcast use vstd::string::group_string_axioms;

/// A piece of a template.
#[derive(Clone, Debug)]
pub enum TemplateComponent<'a> {
    /// A named slot that is replaced by the value of the argument of that name.
    Slot(CowStr<'a>),
    /// Text that appears verbatim in the result.
    Literal(CowStr<'a>),
}

/// A piece of a template, by whether it is a slot and by its text.
pub open spec fn component_view(c: TemplateComponent) -> (bool, Seq<char>) {
    match c {
        TemplateComponent::Slot(s) => (true, s@),
        TemplateComponent::Literal(s) => (false, s@),
    }
}

/// Text with named slots, such as `doxy.$format.only`.
#[derive(Clone, Debug)]
pub struct Template<'a> {
    /// The number of bytes the literal text takes.
    pub capacity: usize,
    pub components: Vec<TemplateComponent<'a>>,
}

/// The characters that may continue a slot's name.
pub open spec fn is_name_char(c: char) -> bool {
    ('a' <= c && c <= 'z') || ('A' <= c && c <= 'Z') || ('0' <= c && c <= '9') || c == '_'
}

/// The position after the run of name characters that starts at `i`.
pub open spec fn name_end(s: Seq<char>, i: int) -> int
    decreases s.len() - i,
{
    if i >= s.len() || !is_name_char(s[i]) {
        i
    } else {
        name_end(s, i + 1)
    }
}

/// The position of the first `closing` at or after `i`, or the end.
pub open spec fn find_closing(s: Seq<char>, i: int, closing: char) -> int
    decreases s.len() - i,
{
    if i >= s.len() || s[i] == closing {
        i
    } else {
        find_closing(s, i + 1, closing)
    }
}

/// Where a slot whose sign stands before `j` ends: after the closing delimiter of `{..}` or
/// `(..)` (or at the end, where it is missing), or else after its name.
pub open spec fn slot_end(s: Seq<char>, j: int) -> int {
    if j < s.len() && (s[j] == '{' || s[j] == '(') {
        let k = find_closing(s, j + 1, if s[j] == '{' { '}' } else { ')' });
        if k < s.len() { k + 1 } else { k }
    } else {
        name_end(s, j)
    }
}

/// The number of bytes of the UTF-8 encoding of `s[from..to]`.
pub open spec fn utf8_len(s: Seq<char>, from: int, to: int) -> nat {
    encode_utf8(s.subrange(from, to)).len()
}

/// The number of components, and the number of bytes of literal text, of the template in
/// `s[i..]`, where literal text runs from `text_start`.
pub open spec fn analyze_from(s: Seq<char>, sign: char, i: int, text_start: int) -> (nat, nat)
    decreases s.len() - i,
{
    if i >= s.len() {
        if text_start < s.len() {
            (1, utf8_len(s, text_start, s.len() as int))
        } else {
            (0, 0)
        }
    } else if s[i] == sign {
        let lit: (nat, nat) = if i > text_start { (1, utf8_len(s, text_start, i)) } else { (0, 0) };
        let end = slot_end(s, i + 1);
        if end <= i || end > s.len() {
            (0, 0)
        } else {
            let rest = analyze_from(s, sign, end, end);
            (lit.0 + 1 + rest.0, lit.1 + rest.1)
        }
    } else {
        analyze_from(s, sign, i + 1, text_start)
    }
}

/// The components of the template in `s[i..]`, where literal text runs from `text_start`; a slot
/// is the sign and the name characters after it.
pub open spec fn components_from(s: Seq<char>, sign: char, i: int, text_start: int) -> Seq<(bool, Seq<char>)>
    decreases s.len() - i,
{
    if i >= s.len() {
        if 0 <= text_start < s.len() {
            seq![(false, s.subrange(text_start, s.len() as int))]
        } else {
            seq![]
        }
    } else if s[i] == sign {
        let lit: Seq<(bool, Seq<char>)> = if i > text_start && text_start >= 0 {
            seq![(false, s.subrange(text_start, i))]
        } else {
            seq![]
        };
        let end = name_end(s, i + 1);
        if end <= i || end > s.len() {
            seq![]
        } else {
            lit.push((true, s.subrange(i + 1, end))) + components_from(s, sign, end, end)
        }
    } else {
        components_from(s, sign, i + 1, text_start)
    }
}

proof fn lemma_name_end(s: Seq<char>, i: int)
    requires
        0 <= i <= s.len(),
    ensures
        i <= name_end(s, i) <= s.len(),
        forall|k: int| i <= k < name_end(s, i) ==> is_name_char(#[trigger] s[k]),
        name_end(s, i) < s.len() ==> !is_name_char(s[name_end(s, i)]),
    decreases s.len() - i,
{
    if i < s.len() && is_name_char(s[i]) {
        lemma_name_end(s, i + 1);
    }
}

proof fn lemma_find_closing(s: Seq<char>, i: int, closing: char)
    requires
        0 <= i <= s.len(),
    ensures
        i <= find_closing(s, i, closing) <= s.len(),
        forall|k: int| i <= k < find_closing(s, i, closing) ==> #[trigger] s[k] != closing,
        find_closing(s, i, closing) < s.len() ==> s[find_closing(s, i, closing)] == closing,
    decreases s.len() - i,
{
    if i < s.len() && s[i] != closing {
        lemma_find_closing(s, i + 1, closing);
    }
}

/// Where no slot is written in braces or parentheses, analyzing a template counts exactly the
/// components that parsing it gives.
pub proof fn law_analyze_counts_parsed_components(s: Seq<char>, sign: char, i: int, text_start: int)
    requires
        0 <= text_start <= i <= s.len(),
        forall|j: int| 0 <= j < s.len() - 1 && #[trigger] s[j] == sign ==> s[j + 1] != '{' && s[j + 1] != '(',
    ensures
        analyze_from(s, sign, i, text_start).0 == components_from(s, sign, i, text_start).len(),
    decreases s.len() - i,
{
    if i < s.len() {
        if s[i] == sign {
            lemma_name_end(s, i + 1);
            let end = name_end(s, i + 1);
            assert(slot_end(s, i + 1) == end);
            law_analyze_counts_parsed_components(s, sign, end, end);
        } else {
            law_analyze_counts_parsed_components(s, sign, i + 1, text_start);
        }
    }
}

/// The UTF-8 encoding of joined text is the joined encodings.
pub proof fn lemma_encode_utf8_concat(a: Seq<char>, b: Seq<char>)
    ensures
        encode_utf8(a + b) == encode_utf8(a) + encode_utf8(b),
    decreases a.len(),
{
    if a.len() == 0 {
        assert(a + b =~= b);
    } else {
        assert((a + b).drop_first() =~= a.drop_first() + b);
        lemma_encode_utf8_concat(a.drop_first(), b);
        assert((a + b)[0] == a[0]);
    }
}

proof fn lemma_utf8_len_split(s: Seq<char>, a: int, b: int, c: int)
    requires
        0 <= a <= b <= c <= s.len(),
    ensures
        utf8_len(s, a, c) == utf8_len(s, a, b) + utf8_len(s, b, c),
{
    assert(s.subrange(a, c) =~= s.subrange(a, b) + s.subrange(b, c));
    lemma_encode_utf8_concat(s.subrange(a, b), s.subrange(b, c));
}

/// The character at position `i` of a string.
fn char_at(s: &str, i: usize) -> (c: char)
    requires
        i < s@.len(),
    ensures
        c == s@[i as int],
{
    s.get_char(i)
}

/// The position after the run of name characters from `i`.
fn scan_name(s: &str, n: usize, i: usize) -> (r: usize)
    requires
        n == s@.len(),
        i <= n,
    ensures
        r == name_end(s@, i as int),
{
    proof {
        lemma_name_end(s@, i as int);
    }
    let mut k = i;
    while k < n
        invariant
            n == s@.len(),
            i <= k <= n,
            name_end(s@, k as int) == name_end(s@, i as int),
        decreases n - k,
    {
        let c = char_at(s, k);
        if !(('a' <= c && c <= 'z') || ('A' <= c && c <= 'Z') || ('0' <= c && c <= '9') || c == '_') {
            return k;
        }
        k = k + 1;
    }
    k
}

/// The position of the first `closing` from `i`, or the end.
fn scan_closing(s: &str, n: usize, i: usize, closing: char) -> (r: usize)
    requires
        n == s@.len(),
        i <= n,
    ensures
        r == find_closing(s@, i as int, closing),
{
    let mut k = i;
    while k < n
        invariant
            n == s@.len(),
            i <= k <= n,
            find_closing(s@, k as int, closing) == find_closing(s@, i as int, closing),
        decreases n - k,
    {
        if char_at(s, k) == closing {
            return k;
        }
        k = k + 1;
    }
    k
}

impl<'a> Template<'a> {
    /// The sign that starts a slot.
    pub fn sign() -> (r: char)
        ensures
            r == '$',
    {
        '$'
    }

    /// The number of components of the template written in `input`, and the number of bytes of
    /// its literal text. A slot is the sign followed by a name, or by a name in `{..}` or `(..)`.
    pub fn _analyze(input: &str, sign: char) -> (r: (usize, usize))
        requires
            encode_utf8(input@).len() <= usize::MAX,
        ensures
            r.0 as nat == analyze_from(input@, sign, 0, 0).0,
            r.1 as nat == analyze_from(input@, sign, 0, 0).1,
    {
        let ghost s = input@;
        let n = input.unicode_len();
        let mut count: usize = 0;
        let mut capacity: usize = 0;
        let mut i: usize = 0;
        let mut text_start: usize = 0;
        while i < n
            invariant
                n == s.len(),
                s == input@,
                text_start <= i <= n,
                count <= text_start,
                capacity <= utf8_len(s, 0, text_start as int),
                encode_utf8(s).len() <= usize::MAX,
                (count + analyze_from(s, sign, i as int, text_start as int).0) as nat == analyze_from(s, sign, 0, 0).0,
                (capacity + analyze_from(s, sign, i as int, text_start as int).1) as nat == analyze_from(s, sign, 0, 0).1,
            decreases n - i,
        {
            proof {
                assert(s.subrange(0, n as int) =~= s);
                lemma_utf8_len_split(s, 0, text_start as int, i as int);
                lemma_utf8_len_split(s, 0, i as int, n as int);
            }
            if char_at(input, i) == sign {
                if i > text_start {
                    count = count + 1;
                    let piece = input.substring_char(text_start, i);
                    capacity = capacity + piece.len();
                }
                let j = i + 1;
                let end = if j < n && (char_at(input, j) == '{' || char_at(input, j) == '(') {
                    let closing = if char_at(input, j) == '{' { '}' } else { ')' };
                    proof {
                        lemma_find_closing(s, j + 1, closing);
                    }
                    let k = scan_closing(input, n, j + 1, closing);
                    if k < n { k + 1 } else { k }
                } else {
                    proof {
                        lemma_name_end(s, j as int);
                    }
                    scan_name(input, n, j)
                };
                assert(end == slot_end(s, j as int));
                count = count + 1;
                proof {
                    lemma_utf8_len_split(s, 0, i as int, end as int);
                }
                i = end;
                text_start = end;
            } else {
                i = i + 1;
            }
        }
        if text_start < n {
            proof {
                assert(s.subrange(0, n as int) =~= s);
                lemma_utf8_len_split(s, 0, text_start as int, n as int);
            }
            count = count + 1;
            let piece = input.substring_char(text_start, n);
            capacity = capacity + piece.len();
        }
        (count, capacity)
    }

    /// The components of the template written in `input`: literal text, and slots made of the
    /// sign and the name characters after it.
    pub fn _parse_template<'b>(input: &'b str, sign: char) -> (r: Vec<TemplateComponent<'b>>)
        ensures
            r@.map_values(|c: TemplateComponent<'b>| component_view(c)) == components_from(input@, sign, 0, 0),
    {
        let ghost s = input@;
        let n = input.unicode_len();
        let mut parts: Vec<TemplateComponent<'b>> = Vec::new();
        let mut i: usize = 0;
        let mut text_start: usize = 0;
        while i < n
            invariant
                n == s.len(),
                s == input@,
                text_start <= i <= n,
                parts@.map_values(|c: TemplateComponent<'b>| component_view(c))
                    + components_from(s, sign, i as int, text_start as int) == components_from(s, sign, 0, 0),
            decreases n - i,
        {
            let ghost before = parts@.map_values(|c: TemplateComponent<'b>| component_view(c));
            if char_at(input, i) == sign {
                if i > text_start {
                    parts.push(TemplateComponent::Literal(CowStr::Borrowed(input.substring_char(text_start, i))));
                }
                proof {
                    lemma_name_end(s, i + 1);
                }
                let end = scan_name(input, n, i + 1);
                parts.push(TemplateComponent::Slot(CowStr::Borrowed(input.substring_char(i + 1, end))));
                proof {
                    let lit: Seq<(bool, Seq<char>)> = if i > text_start {
                        seq![(false, s.subrange(text_start as int, i as int))]
                    } else {
                        seq![]
                    };
                    assert(parts@.map_values(|c: TemplateComponent<'b>| component_view(c))
                        =~= before + lit.push((true, s.subrange(i + 1, end as int))));
                    assert(components_from(s, sign, i as int, text_start as int)
                        == lit.push((true, s.subrange(i + 1, end as int))) + components_from(s, sign, end as int, end as int));
                    assert(before + (lit.push((true, s.subrange(i + 1, end as int))) + components_from(s, sign, end as int, end as int))
                        =~= (before + lit.push((true, s.subrange(i + 1, end as int)))) + components_from(s, sign, end as int, end as int));
                }
                i = end;
                text_start = end;
            } else {
                i = i + 1;
            }
        }
        if text_start < n {
            let ghost before = parts@.map_values(|c: TemplateComponent<'b>| component_view(c));
            parts.push(TemplateComponent::Literal(CowStr::Borrowed(input.substring_char(text_start, n))));
            assert(parts@.map_values(|c: TemplateComponent<'b>| component_view(c))
                =~= before + seq![(false, s.subrange(text_start as int, n as int))]);
        } else {
            assert(parts@.map_values(|c: TemplateComponent<'b>| component_view(c))
                =~= parts@.map_values(|c: TemplateComponent<'b>| component_view(c)) + Seq::<(bool, Seq<char>)>::empty());
        }
        parts
    }

    /// A template of the given components and literal byte count.
    pub fn _from_components(components: Vec<TemplateComponent<'a>>, min_capacity: usize) -> (r: Self)
        ensures
            r.components@ == components@,
            r.capacity == min_capacity,
    {
        Template { components, capacity: min_capacity }
    }
}

/// A parameter of an action: the name of an argument, a constant, a template over arguments, or
/// the name of an argument with a value to use where the argument is missing.
#[derive(Clone, Debug)]
pub enum Parameter<T> {
    Variable(CowStr<'static>),
    Constant(T),
    Template(Template<'static>),
    VariableDefault(CowStr<'static>, T),
}

/// The value of an argument passed to a directive.
#[derive(Clone, Debug)]
pub enum ArgumentValue<'a> {
    Void,
    PlainText(CowStr<'a>),
    RichText(RichText),
}

/// The text of an argument's value.
pub open spec fn spec_value_str(v: ArgumentValue) -> Seq<char> {
    match v {
        ArgumentValue::Void => Seq::empty(),
        ArgumentValue::PlainText(s) => s@,
        ArgumentValue::RichText(t) => text_of(t.events()),
    }
}

/// What a conversion reads of an argument's value: nothing, plain text, or rich text.
pub enum ValueShape {
    Void,
    Plain(Seq<char>),
    Rich(RichText),
}

pub open spec fn value_shape(v: ArgumentValue) -> ValueShape {
    match v {
        ArgumentValue::Void => ValueShape::Void,
        ArgumentValue::PlainText(s) => ValueShape::Plain(s@),
        ArgumentValue::RichText(t) => ValueShape::Rich(t),
    }
}

/// The text of a value: nothing, the plain text, or the text of the rich text.
pub open spec fn shape_text(s: ValueShape) -> Seq<char> {
    match s {
        ValueShape::Void => Seq::empty(),
        ValueShape::Plain(t) => t,
        ValueShape::Rich(t) => text_of(t.events()),
    }
}

/// `r` is the value as rich text: empty for nothing, one text event for plain text, the rich
/// text itself for rich text.
pub open spec fn is_rich_text_of(s: ValueShape, r: RichText) -> bool {
    match s {
        ValueShape::Void => r.dialect is None && r.events().len() == 0,
        ValueShape::Plain(t) => r.dialect is None && r.events().len() == 1
            && (r.events()[0] matches MarkupEvent::Text(x) && x@ == t),
        ValueShape::Rich(t) => same_rich_text(r, t),
    }
}

/// A location whose columns and offsets can move `n` bytes to the right.
pub open spec fn location_fits(l: MinimalLocation, n: nat) -> bool {
    &&& l.start_point.column + n <= usize::MAX
    &&& (l.end_point matches Some(p) ==> p.column + n <= usize::MAX)
    &&& (l.start_offset matches Some(o) ==> o + n <= usize::MAX)
    &&& (l.end_offset matches Some(o) ==> o + n <= usize::MAX)
}

/// The location narrowed to the bytes `a..b` of the text it locates.
pub open spec fn narrowed(location: Option<MinimalLocation>, a: nat, b: nat) -> Option<MinimalLocation> {
    match location {
        Some(l) => Some(spec_within_offset_range(l.start_point, l.end_point, l.start_offset, l.end_offset, a as usize, b as usize)),
        None => None,
    }
}

/// The outcome of `lenient_semver::parse` on a text: the version it reads; otherwise what went
/// wrong, the byte range at fault and the text in that range. It depends on the text alone.
pub uninterp spec fn lenient_version_outcome(s: Seq<char>) -> Result<semver::Version, (VersionErrorKind, nat, nat, Seq<char>)>;

/// `lenient_semver::parse`: the version, or the error, named by `lenient_version_outcome`. The
/// byte range at fault lies within the input, as `Error::erroneous_input` slices the input by it.
#[verifier::external_body]
fn lenient_version(s: &str) -> (r: Result<semver::Version, (VersionErrorKind, usize, usize, String)>)
    ensures
        match r {
            Ok(v) => lenient_version_outcome(s@) == Ok::<semver::Version, (VersionErrorKind, nat, nat, Seq<char>)>(v),
            Err((k, a, b, t)) => lenient_version_outcome(s@) == Err::<semver::Version, (VersionErrorKind, nat, nat, Seq<char>)>((k, a as nat, b as nat, t@))
                && a <= b <= encode_utf8(s@).len(),
        },
{
    match lenient_semver::parse(s) {
        Ok(v) => Ok(v),
        Err(e) => Err((match e.error_kind() {
            ErrorKind::MissingMajorNumber => VersionErrorKind::MissingMajorNumber,
            ErrorKind::MissingMinorNumber => VersionErrorKind::MissingMinorNumber,
            ErrorKind::MissingPatchNumber => VersionErrorKind::MissingPatchNumber,
            ErrorKind::MissingPreRelease => VersionErrorKind::MissingPreRelease,
            ErrorKind::MissingBuild => VersionErrorKind::MissingBuild,
            ErrorKind::NumberOverflow => VersionErrorKind::NumberOverflow,
            ErrorKind::UnexpectedInput => VersionErrorKind::UnexpectedInput,
        }, e.error_span().start, e.error_span().end, e.erroneous_input().to_string())),
    }
}

/// The link that rich text with these events converts to: its only link, by its URL and title.
pub open spec fn link_converted<'a, E>(events: Seq<MarkupEvent>, r: Result<Value<'a>, ArgumentValueError<E>>) -> bool {
    let ps = link_positions(events);
    if ps.len() == 0 {
        r matches Err(ArgumentValueError::LinkExtractionError(LinkExtractionError::MissingLink))
    } else if ps.len() >= 2 {
        r matches Err(ArgumentValueError::LinkExtractionError(LinkExtractionError::TooManyLinks))
    } else {
        match events[ps[0]] {
            MarkupEvent::Start(MarkupTag::Link { dest_url, title, .. }) => match url_parse_outcome(dest_url@) {
                Ok(u) => r matches Ok(Value::Link(w, t)) && t@ == title@ && w == u,
                Err(e) => r matches Err(ArgumentValueError::LinkExtractionError(LinkExtractionError::MalformedURI(f))) && f == e,
            },
            _ => false,
        }
    }
}

/// The value of the type `into` that an argument value converts to, or why it does not.
pub open spec fn spec_converted<'a, E>(
    shape: ValueShape,
    into: ValueType,
    location: Option<MinimalLocation>,
    r: Result<Value<'a>, ArgumentValueError<E>>,
) -> bool {
    let text = shape_text(shape);
    match into {
        ValueType::Boolean => r matches Ok(Value::Boolean(b)) && b,
        ValueType::String => r matches Ok(Value::String(s)) && s@ == text,
        ValueType::RichText => r matches Ok(Value::RichText(t)) && is_rich_text_of(shape, t),
        ValueType::SignedInteger => match spec_parse_isize(text) {
            Some(v) => r matches Ok(Value::SignedInteger(w)) && w == v,
            None => r matches Err(ArgumentValueError::ParsingIntegerFailed(_, l)) && l == location,
        },
        ValueType::UnsignedInteger => match spec_parse_usize(text) {
            Some(v) => r matches Ok(Value::UnsignedInteger(w)) && w == v,
            None => r matches Err(ArgumentValueError::ParsingIntegerFailed(_, l)) && l == location,
        },
        ValueType::URI => match url_parse_outcome(text) {
            Ok(u) => r matches Ok(Value::URI(w)) && w == u,
            Err(e) => r matches Err(ArgumentValueError::ParsingURIFailed(f, l)) && f == e && l == location,
        },
        ValueType::Link => match shape {
            ValueShape::Rich(t) => link_converted(t.events(), r),
            _ => r matches Err(ArgumentValueError::LinkExtractionError(LinkExtractionError::MissingLink)),
        },
        ValueType::Version => match lenient_version_outcome(text) {
            Ok(v) => r matches Ok(Value::Version(w)) && w == v,
            Err((k, a, b, input)) => r matches Err(ArgumentValueError::ParsingVersionFailed(e, l))
                && e.0 == k && e.1@ == input && l == narrowed(location, a, b),
        },
        ValueType::Void => r matches Ok(Value::Void),
    }
}

/// What converting needs of a location: room to narrow it within the value's text.
pub open spec fn convertible_at(shape: ValueShape, into: ValueType, location: Option<MinimalLocation>) -> bool {
    into == ValueType::Version && location is Some ==> location_fits(location->0, encode_utf8(shape_text(shape)).len())
}

/// Rich text with no events, or with one text event, has no link.
proof fn lemma_plain_events_have_no_link(events: Seq<MarkupEvent>)
    requires
        events.len() == 0 || (events.len() == 1 && events[0] is Text),
    ensures
        link_positions(events).len() == 0,
{
    reveal_with_fuel(link_positions, 2);
    if events.len() == 1 {
        assert(!is_link_start(events.last()));
        assert(link_positions(events.drop_last()).len() == 0);
    }
}

impl<'a> ArgumentValue<'a> {
    /// A value that reads the same: the same text, or rich text with the same events.
    pub fn copy(&self) -> (r: Self)
        ensures
            same_shape(value_shape(r), value_shape(*self)),
    {
        match self {
            ArgumentValue::Void => ArgumentValue::Void,
            ArgumentValue::PlainText(s) => ArgumentValue::PlainText(s.clone()),
            ArgumentValue::RichText(t) => ArgumentValue::RichText(t.copy()),
        }
    }

    /// The value as the type `into`: a boolean is always true; text, integers, URIs and versions
    /// are read from the value's text; a link is the only link of rich text. An error carries
    /// the location given, narrowed to the part at fault for a version.
    pub fn convert<E>(
        self,
        into: ValueType,
        preferred_representation: Option<RichTextRepresentation>,
        location: Option<MinimalLocation>,
    ) -> (r: Result<Value<'a>, ArgumentValueError<E>>)
        requires
            convertible_at(value_shape(self), into, location),
        ensures
            spec_converted(value_shape(self), into, location, r),
    {
        let ghost shape = value_shape(self);
        match into {
            ValueType::Boolean => Ok(Value::Boolean(true)),
            ValueType::String => Ok(Value::String(self.into_str())),
            ValueType::RichText => Ok(Value::RichText(self.rich_text(preferred_representation))),
            ValueType::SignedInteger => {
                let text = self.str();
                match isize_from_str(text.as_str()) {
                    Ok(v) => Ok(Value::SignedInteger(v)),
                    Err(e) => Err(ArgumentValueError::ParsingIntegerFailed(e, location)),
                }
            },
            ValueType::UnsignedInteger => {
                let text = self.str();
                match usize_from_str(text.as_str()) {
                    Ok(v) => Ok(Value::UnsignedInteger(v)),
                    Err(e) => Err(ArgumentValueError::ParsingIntegerFailed(e, location)),
                }
            },
            ValueType::URI => {
                let text = self.str();
                match parse_url(text.as_str()) {
                    Ok(u) => Ok(Value::URI(u)),
                    Err(e) => Err(ArgumentValueError::ParsingURIFailed(e, location)),
                }
            },
            ValueType::Link => {
                let rich_text = self.rich_text(preferred_representation);
                proof {
                    if !(shape is Rich) {
                        lemma_plain_events_have_no_link(rich_text.events());
                    }
                }
                match rich_text.link() {
                    Ok((uri, title)) => Ok(Value::Link(uri, title)),
                    Err(e) => Err(ArgumentValueError::LinkExtractionError(e)),
                }
            },
            ValueType::Version => {
                let text = self.str();
                match lenient_version(text.as_str()) {
                    Ok(v) => Ok(Value::Version(v)),
                    Err((kind, a, b, input)) => {
                        let narrowed_location = match location {
                            Some(l) => Some(l.within_offset_range(a..b)),
                            None => None,
                        };
                        Err(ArgumentValueError::ParsingVersionFailed(VersionError(kind, input), narrowed_location))
                    },
                }
            },
            ValueType::Void => Ok(Value::Void),
        }
    }
}

impl<'a> ArgumentValue<'a> {
    /// Plain text where there is a string, and nothing otherwise.
    pub fn from_opt_str(s: Option<&'a str>) -> (r: Self)
        ensures
            match s {
                Some(t) => r matches ArgumentValue::PlainText(c) && c@ == t@,
                None => r is Void,
            },
    {
        match s {
            Some(t) => ArgumentValue::PlainText(CowStr::Borrowed(t)),
            None => ArgumentValue::Void,
        }
    }

    /// The text of the value: nothing, the plain text, or the text of the rich text.
    pub fn str(&self) -> (r: CowStr<'a>)
        ensures
            r@ == spec_value_str(*self),
    {
        proof {
            reveal_strlit("");
        }
        match self {
            ArgumentValue::Void => CowStr::Borrowed(""),
            ArgumentValue::PlainText(s) => s.clone(),
            ArgumentValue::RichText(rich_text) => rich_text.str(),
        }
    }

    /// The text of the value, taking the value.
    pub fn into_str(self) -> (r: CowStr<'a>)
        ensures
            r@ == spec_value_str(self),
    {
        proof {
            reveal_strlit("");
        }
        match self {
            ArgumentValue::Void => CowStr::Borrowed(""),
            ArgumentValue::PlainText(s) => s,
            ArgumentValue::RichText(rich_text) => rich_text.str(),
        }
    }

    /// The value as rich text: empty for nothing, one text event for plain text.
    pub fn rich_text(self, preferred_representation: Option<RichTextRepresentation>) -> (r: RichText)
        ensures
            is_rich_text_of(value_shape(self), r),
    {
        let repr = match preferred_representation {
            Some(r) => r,
            None => RichTextRepresentation::CommonMark,
        };
        match self {
            ArgumentValue::Void => RichText::empty(repr),
            ArgumentValue::PlainText(s) => RichText::from_str(s.as_str(), repr),
            ArgumentValue::RichText(rich_text) => rich_text,
        }
    }
}

/// An argument passed to a directive.
#[derive(Clone, Debug)]
pub struct Argument<'a> {
    pub name: &'a str,
    pub value: ArgumentValue<'a>,
    pub location: MinimalLocation,
}

/// Two values that read the same: the same text, or rich texts with the same events.
pub open spec fn same_shape(a: ValueShape, b: ValueShape) -> bool {
    a == b || (a matches ValueShape::Rich(t) && b matches ValueShape::Rich(u) && same_rich_text(t, u))
}

/// Values that read the same convert alike.
pub proof fn lemma_same_shape_converted<'a, E>(
    a: ValueShape,
    b: ValueShape,
    into: ValueType,
    location: Option<MinimalLocation>,
    r: Result<Value<'a>, ArgumentValueError<E>>,
)
    requires
        same_shape(a, b),
    ensures
        spec_converted(a, into, location, r) == spec_converted(b, into, location, r),
        convertible_at(a, into, location) == convertible_at(b, into, location),
{
}

impl<'a> Argument<'a> {
    /// The argument's value as the type `value_type`; an error carries the argument's location.
    pub fn convert<E>(self, value_type: ValueType, preferred_representation: Option<RichTextRepresentation>) -> (r: Result<Value<'a>, ArgumentValueError<E>>)
        requires
            convertible_at(value_shape(self.value), value_type, Some(self.location)),
        ensures
            spec_converted(value_shape(self.value), value_type, Some(self.location), r),
    {
        self.value.convert(value_type, preferred_representation, Some(self.location))
    }
}

/// Why an argument could not be had as a value.
#[derive(Clone, Debug)]
pub enum ArgumentValueError<E> {
    Missing(String),
    ParsingFailed(E, Option<MinimalLocation>),
    ParsingIntegerFailed(std::num::ParseIntError, Option<MinimalLocation>),
    ParsingURIFailed(url::ParseError, Option<MinimalLocation>),
    ParsingVersionFailed(VersionError, Option<MinimalLocation>),
    LinkExtractionError(LinkExtractionError),
}

/// The arguments passed to a directive, in order.
#[derive(Clone, Debug)]
pub struct Arguments<'a>(pub Vec<Argument<'a>>);

/// `k` is the position of the first argument named `name`.
pub open spec fn is_first_named(args: Seq<Argument>, name: Seq<char>, k: int) -> bool {
    &&& 0 <= k < args.len()
    &&& args[k].name@ == name
    &&& forall|j: int| 0 <= j < k ==> args[j].name@ != name
}

/// Some argument is named `name`.
pub open spec fn has_named(args: Seq<Argument>, name: Seq<char>) -> bool {
    exists|j: int| 0 <= j < args.len() && #[trigger] args[j].name@ == name
}

/// The first argument named `name`.
pub open spec fn first_named<'a>(args: Seq<Argument<'a>>, name: Seq<char>) -> Option<Argument<'a>> {
    if has_named(args, name) {
        Some(args[choose|k: int| is_first_named(args, name, k)])
    } else {
        None
    }
}

proof fn lemma_first_named_unique(args: Seq<Argument>, name: Seq<char>, k: int)
    requires
        is_first_named(args, name, k),
    ensures
        has_named(args, name),
        forall|j: int| is_first_named(args, name, j) ==> j == k,
{
    assert(args[k].name@ == name);
}

/// The text a template gives, or the name of the first slot that no argument fills.
pub open spec fn spec_materialize<'a>(args: Seq<Argument<'a>>, comps: Seq<(bool, Seq<char>)>) -> Result<Seq<char>, Seq<char>>
    decreases comps.len(),
{
    if comps.len() == 0 {
        Ok(Seq::empty())
    } else {
        let first: Result<Seq<char>, Seq<char>> = if comps[0].0 {
            match first_named(args, comps[0].1) {
                Some(a) => Ok(spec_value_str(a.value)),
                None => Err(comps[0].1),
            }
        } else {
            Ok(comps[0].1)
        };
        match first {
            Err(missing) => Err(missing),
            Ok(text) => match spec_materialize(args, comps.drop_first()) {
                Err(missing) => Err(missing),
                Ok(rest) => Ok(text + rest),
            },
        }
    }
}

/// The components of a template, by their views.
pub open spec fn template_view(t: Template) -> Seq<(bool, Seq<char>)> {
    t.components@.map_values(|c: TemplateComponent| component_view(c))
}

/// The view of an error of materializing: the name of the missing argument.
pub open spec fn missing_name<E>(e: ArgumentValueError<E>) -> Option<Seq<char>> {
    match e {
        ArgumentValueError::Missing(n) => Some(n@),
        _ => None,
    }
}

impl<'a> Arguments<'a> {
    pub fn default() -> (r: Self)
        ensures
            r.0@.len() == 0,
    {
        Arguments(Vec::new())
    }

    /// Adds an argument after the others.
    pub fn add(&mut self, name: &'a str, value: ArgumentValue<'a>, location: MinimalLocation)
        ensures
            final(self).0@ == old(self).0@.push(Argument { name, value, location }),
    {
        self.0.push(Argument { name, value, location });
    }

    fn find(&self, name: &str) -> (r: Option<usize>)
        ensures
            match r {
                Some(k) => is_first_named(self.0@, name@, k as int),
                None => !has_named(self.0@, name@),
            },
    {
        let mut k: usize = 0;
        while k < self.0.len()
            invariant
                k <= self.0@.len(),
                forall|j: int| 0 <= j < k ==> self.0@[j].name@ != name@,
            decreases self.0.len() - k,
        {
            if str_eq(self.0[k].name, name) {
                return Some(k);
            }
            k = k + 1;
        }
        None
    }

    /// Whether an argument has that name.
    pub fn has(&self, name: &str) -> (r: bool)
        ensures
            r == has_named(self.0@, name@),
    {
        match self.find(name) {
            Some(k) => true,
            None => false,
        }
    }

    pub fn is_empty(&self) -> (r: bool)
        ensures
            r == (self.0@.len() == 0),
    {
        self.0.len() == 0
    }

    /// The first argument with that name.
    pub fn get(&self, name: &str) -> (r: Option<&Argument<'a>>)
        ensures
            r == (match first_named(self.0@, name@) {
                Some(a) => Some(&a),
                None => None,
            }),
    {
        match self.find(name) {
            Some(k) => {
                proof {
                    lemma_first_named_unique(self.0@, name@, k as int);
                }
                Some(&self.0[k])
            },
            None => None,
        }
    }

    /// Removes the first argument with that name and returns it; the last argument takes its
    /// place.
    pub fn take(&mut self, name: &str) -> (r: Option<Argument<'a>>)
        ensures
            match r {
                Some(a) => exists|k: int| is_first_named(old(self).0@, name@, k) && a == old(self).0@[k]
                    && final(self).0@ == old(self).0@.update(k, old(self).0@.last()).drop_last(),
                None => !has_named(old(self).0@, name@) && final(self).0@ == old(self).0@,
            },
    {
        match self.find(name) {
            Some(k) => Some(self.0.swap_remove(k)),
            None => None,
        }
    }

    fn materialize_template_component<E>(&self, component: &TemplateComponent<'a>) -> (r: Result<CowStr<'a>, ArgumentValueError<E>>)
        ensures
            match component_view(*component) {
                (false, text) => r matches Ok(s) && s@ == text,
                (true, slot) => match first_named(self.0@, slot) {
                    Some(a) => r matches Ok(s) && s@ == spec_value_str(a.value),
                    None => r matches Err(e) && missing_name(e) == Some(slot),
                },
            },
    {
        match component {
            TemplateComponent::Literal(s) => Ok(s.clone()),
            TemplateComponent::Slot(name) => match self.get(name.as_str()) {
                Some(arg) => Ok(arg.value.str()),
                None => Err(ArgumentValueError::Missing(name.to_string())),
            },
        }
    }

    /// The text of a template with each slot filled by the text of the first argument of its
    /// name; fails on the first slot that no argument fills.
    pub fn materialize_template<E>(&self, template: &Template<'a>) -> (r: Result<CowStr<'a>, ArgumentValueError<E>>)
        ensures
            match spec_materialize(self.0@, template_view(*template)) {
                Ok(text) => r matches Ok(s) && s@ == text,
                Err(slot) => r matches Err(e) && missing_name(e) == Some(slot),
            },
    {
        let ghost comps = template_view(*template);
        let n = template.components.len();
        if n == 0 {
            proof {
                reveal_strlit("");
            }
            return Ok(CowStr::Borrowed(""));
        }
        if n == 1 {
            assert(comps.drop_first() =~= Seq::<(bool, Seq<char>)>::empty());
            assert(spec_materialize(self.0@, comps.drop_first()) == Ok::<Seq<char>, Seq<char>>(Seq::empty()));
            assert(comps[0] == component_view(template.components@[0]));
            let r = self.materialize_template_component(&template.components[0]);
            proof {
                if r is Ok {
                    assert(r->Ok_0@ + Seq::<char>::empty() =~= r->Ok_0@);
                }
            }
            return r;
        }
        let mut out = String::new();
        let mut k: usize = 0;
        assert(comps.skip(0) =~= comps);
        assert(out@ =~= Seq::<char>::empty());
        while k < n
            invariant
                n == template.components@.len(),
                comps == template_view(*template),
                k <= n,
                match spec_materialize(self.0@, comps) {
                    Ok(text) => spec_materialize(self.0@, comps.skip(k as int)) matches Ok(rest) && text == out@ + rest,
                    Err(slot) => spec_materialize(self.0@, comps.skip(k as int)) == Err::<Seq<char>, Seq<char>>(slot),
                },
            decreases n - k,
        {
            assert(comps.skip(k as int).drop_first() =~= comps.skip(k + 1));
            assert(comps.skip(k as int)[0] == comps[k as int]);
            let piece = self.materialize_template_component(&template.components[k]);
            match piece {
                Ok(s) => {
                    out.append(s.as_str());
                    proof {
                        if let Ok(text) = spec_materialize(self.0@, comps) {
                            let rest = spec_materialize(self.0@, comps.skip(k + 1))->Ok_0;
                            assert(text == out@ + rest);
                        }
                    }
                },
                Err(e) => {
                    return Err(e);
                },
            }
            k = k + 1;
        }
        proof {
            assert(comps.skip(n as int) =~= Seq::<(bool, Seq<char>)>::empty());
            if let Ok(text) = spec_materialize(self.0@, comps) {
                assert(text =~= out@);
            }
        }
        Ok(CowStr::Owned(out))
    }
}

impl<'a> Arguments<'a> {
    /// The text of `s` read as a template over the arguments. Text that is one slot and no literal
    /// is taken as it is.
    pub fn materialize_str<E>(&self, s: &'a str) -> (r: Result<CowStr<'a>, ArgumentValueError<E>>)
        requires
            encode_utf8(s@).len() <= usize::MAX,
        ensures
            analyze_from(s@, '$', 0, 0) == (1nat, 0nat) ==> (r matches Ok(t) && t@ == s@),
            analyze_from(s@, '$', 0, 0) != (1nat, 0nat) ==> match spec_materialize(self.0@, components_from(s@, '$', 0, 0)) {
                Ok(text) => r matches Ok(t) && t@ == text,
                Err(slot) => r matches Err(e) && missing_name(e) == Some(slot),
            },
    {
        let a = Template::_analyze(s, Template::sign());
        if a.0 == 1 && a.1 == 0 {
            return Ok(CowStr::Borrowed(s));
        }
        let parts = Template::_parse_template(s, Template::sign());
        let template = Template::_from_components(parts, a.1);
        match self.materialize_template(&template) {
            Ok(text) => Ok(text.into_static()),
            Err(e) => Err(e),
        }
    }

    /// The text a string parameter stands for: the constant, the text of the named argument (or
    /// the default where it is missing), or the materialized template.
    pub fn resolve_str<E>(&self, parameter: &Parameter<CowStr<'a>>) -> (r: Result<CowStr<'a>, ArgumentValueError<E>>)
        ensures
            match *parameter {
                Parameter::Constant(c) => r matches Ok(t) && t@ == c@,
                Parameter::Variable(name) => match first_named(self.0@, name@) {
                    Some(a) => r matches Ok(t) && t@ == spec_value_str(a.value),
                    None => r matches Err(e) && missing_name(e) == Some(name@),
                },
                Parameter::Template(t) => match spec_materialize(self.0@, template_view(t)) {
                    Ok(text) => r matches Ok(s) && s@ == text,
                    Err(slot) => r matches Err(e) && missing_name(e) == Some(slot),
                },
                Parameter::VariableDefault(name, d) => match first_named(self.0@, name@) {
                    Some(a) => r matches Ok(t) && t@ == spec_value_str(a.value),
                    None => r matches Ok(t) && t@ == d@,
                },
            },
    {
        match parameter {
            Parameter::Constant(c) => Ok(c.clone()),
            Parameter::Variable(name) => match self.get(name.as_str()) {
                Some(arg) => Ok(arg.value.str()),
                None => Err(ArgumentValueError::Missing(name.to_string())),
            },
            Parameter::Template(template) => self.materialize_template(template),
            Parameter::VariableDefault(name, default) => match self.get(name.as_str()) {
                Some(arg) => Ok(arg.value.str()),
                None => Ok(default.clone()),
            },
        }
    }

    /// The rich text a parameter stands for: a copy of the constant, the named argument as rich
    /// text (or a copy of the default where it is missing), or the materialized template as
    /// plain rich text.
    pub fn resolve_rich_text<E>(&self, parameter: &Parameter<RichText>, preferred_representation: Option<RichTextRepresentation>) -> (r: Result<RichText, ArgumentValueError<E>>)
        ensures
            resolved_rich_text(self.0@, *parameter, r),
    {
        match parameter {
            Parameter::Constant(c) => Ok(c.copy()),
            Parameter::Variable(name) => match self.get(name.as_str()) {
                Some(arg) => Ok(arg.value.copy().rich_text(preferred_representation)),
                None => Err(ArgumentValueError::Missing(name.to_string())),
            },
            Parameter::Template(template) => match self.materialize_template(template) {
                Ok(text) => {
                    let repr = match preferred_representation {
                        Some(r) => r,
                        None => RichTextRepresentation::CommonMark,
                    };
                    Ok(RichText::from_str(text.as_str(), repr))
                },
                Err(e) => Err(e),
            },
            Parameter::VariableDefault(name, default) => match self.get(name.as_str()) {
                Some(arg) => Ok(arg.value.copy().rich_text(preferred_representation)),
                None => Ok(default.copy()),
            },
        }
    }

    /// Like `resolve_rich_text`, for a parameter that may stand for nothing: a missing argument
    /// or a template with a slot that no argument fills gives nothing.
    pub fn resolve_rich_text_optional(&self, parameter: &Parameter<Option<RichText>>, preferred_representation: Option<RichTextRepresentation>) -> (r: Option<RichText>)
        ensures
            resolved_rich_text_optional(self.0@, *parameter, r),
    {
        match parameter {
            Parameter::Constant(c) => copy_optional_rich_text(c),
            Parameter::Variable(name) => match self.get(name.as_str()) {
                Some(arg) => Some(arg.value.copy().rich_text(preferred_representation)),
                None => None,
            },
            Parameter::Template(template) => match self.materialize_template::<()>(template) {
                Ok(text) => {
                    let repr = match preferred_representation {
                        Some(r) => r,
                        None => RichTextRepresentation::CommonMark,
                    };
                    Some(RichText::from_str(text.as_str(), repr))
                },
                Err(_) => None,
            },
            Parameter::VariableDefault(name, default) => match self.get(name.as_str()) {
                Some(arg) => Some(arg.value.copy().rich_text(preferred_representation)),
                None => copy_optional_rich_text(default),
            },
        }
    }

    /// The first argument of that name converted to `value_type`, or `None` where there is none.
    fn convert_named<E>(&self, name: &str, value_type: ValueType) -> (r: Option<Result<Value<'a>, ArgumentValueError<E>>>)
        requires
            arguments_convertible(self.0@, value_type),
        ensures
            match first_named(self.0@, name@) {
                Some(a) => r matches Some(c) && spec_converted(value_shape(a.value), value_type, Some(a.location), c),
                None => r is None,
            },
    {
        match self.find(name) {
            Some(k) => {
                proof {
                    lemma_first_named_unique(self.0@, name@, k as int);
                }
                let arg = &self.0[k];
                let value = arg.value.copy();
                proof {
                    assert forall|c: Result<Value<'a>, ArgumentValueError<E>>|
                        spec_converted(value_shape(value), value_type, Some(arg.location), c)
                            == spec_converted(value_shape(arg.value), value_type, Some(arg.location), c) by {
                        lemma_same_shape_converted(value_shape(value), value_shape(arg.value), value_type, Some(arg.location), c);
                    }
                }
                Some(value.convert(value_type, None, Some(arg.location)))
            },
            None => None,
        }
    }

    /// The value a parameter stands for, as `value_type`: a copy of the constant, the named
    /// argument converted (or a copy of the default where it is missing), or the materialized
    /// template converted as plain text.
    pub fn resolve_converted<E>(&self, parameter: &Parameter<Value<'a>>, value_type: ValueType) -> (r: Result<Value<'a>, ArgumentValueError<E>>)
        requires
            arguments_convertible(self.0@, value_type),
        ensures
            resolved_converted(self.0@, *parameter, value_type, r),
    {
        match parameter {
            Parameter::Constant(c) => Ok(c.clone()),
            Parameter::Variable(name) => match self.convert_named(name.as_str(), value_type) {
                Some(c) => c,
                None => Err(ArgumentValueError::Missing(name.to_string())),
            },
            Parameter::Template(template) => match self.materialize_template(template) {
                Ok(text) => ArgumentValue::PlainText(text).convert(value_type, None, None),
                Err(e) => Err(e),
            },
            Parameter::VariableDefault(name, default) => match self.convert_named(name.as_str(), value_type) {
                Some(c) => c,
                None => Ok(default.clone()),
            },
        }
    }

    /// Like `resolve_converted`, for a parameter that may stand for nothing: a missing argument
    /// or a template with a slot that no argument fills gives nothing, and an argument that does
    /// not convert gives its error.
    pub fn resolve_converted_optional<E>(&self, parameter: &Parameter<Option<Value<'a>>>, value_type: ValueType) -> (r: Result<Option<Value<'a>>, ArgumentValueError<E>>)
        requires
            arguments_convertible(self.0@, value_type),
        ensures
            match *parameter {
                Parameter::Constant(c) => r matches Ok(o) && cloned_optional(c, o),
                Parameter::Variable(name) => match first_named(self.0@, name@) {
                    Some(a) => optionally_converted(value_shape(a.value), value_type, Some(a.location), r),
                    None => r matches Ok(None),
                },
                Parameter::Template(t) => match spec_materialize(self.0@, template_view(t)) {
                    Ok(text) => optionally_converted(ValueShape::Plain(text), value_type, None, r),
                    Err(_) => r matches Ok(None),
                },
                Parameter::VariableDefault(name, d) => match first_named(self.0@, name@) {
                    Some(a) => optionally_converted(value_shape(a.value), value_type, Some(a.location), r),
                    None => r matches Ok(o) && cloned_optional(d, o),
                },
            },
    {
        match parameter {
            Parameter::Constant(c) => Ok(clone_optional(c)),
            Parameter::Variable(name) => match self.convert_named(name.as_str(), value_type) {
                Some(Ok(v)) => Ok(Some(v)),
                Some(Err(e)) => Err(e),
                None => Ok(None),
            },
            Parameter::Template(template) => match self.materialize_template::<()>(template) {
                Ok(text) => match ArgumentValue::PlainText(text).convert(value_type, None, None) {
                    Ok(v) => Ok(Some(v)),
                    Err(e) => Err(e),
                },
                Err(_) => Ok(None),
            },
            Parameter::VariableDefault(name, default) => match self.convert_named(name.as_str(), value_type) {
                Some(Ok(v)) => Ok(Some(v)),
                Some(Err(e)) => Err(e),
                None => Ok(clone_optional(default)),
            },
        }
    }
}

/// What a value parameter resolves to as `value_type`: a copy of the constant, the first
/// argument of that name converted (or a copy of the default where there is none), or the
/// materialized template converted as plain text; a missing argument gives its name.
pub open spec fn resolved_converted<'a, E>(
    args: Seq<Argument<'a>>,
    parameter: Parameter<Value<'a>>,
    value_type: ValueType,
    r: Result<Value<'a>, ArgumentValueError<E>>,
) -> bool {
    match parameter {
        Parameter::Constant(c) => r matches Ok(v) && cloned(c, v),
        Parameter::Variable(name) => match first_named(args, name@) {
            Some(a) => spec_converted(value_shape(a.value), value_type, Some(a.location), r),
            None => r matches Err(e) && missing_name(e) == Some(name@),
        },
        Parameter::Template(t) => match spec_materialize(args, template_view(t)) {
            Ok(text) => spec_converted(ValueShape::Plain(text), value_type, None, r),
            Err(slot) => r matches Err(e) && missing_name(e) == Some(slot),
        },
        Parameter::VariableDefault(name, d) => match first_named(args, name@) {
            Some(a) => spec_converted(value_shape(a.value), value_type, Some(a.location), r),
            None => r matches Ok(v) && cloned(d, v),
        },
    }
}

/// What a string parameter resolves to: the constant, the text of the first argument of that
/// name (or the default where there is none), or the materialized template; `Err` holds the
/// name of the argument that is missing.
pub open spec fn resolved_str<'a>(args: Seq<Argument<'a>>, parameter: Parameter<CowStr<'a>>) -> Result<Seq<char>, Seq<char>> {
    match parameter {
        Parameter::Constant(c) => Ok(c@),
        Parameter::Variable(name) => match first_named(args, name@) {
            Some(a) => Ok(spec_value_str(a.value)),
            None => Err(name@),
        },
        Parameter::Template(t) => spec_materialize(args, template_view(t)),
        Parameter::VariableDefault(name, d) => match first_named(args, name@) {
            Some(a) => Ok(spec_value_str(a.value)),
            None => Ok(d@),
        },
    }
}

/// What a rich-text parameter resolves to: a copy of the constant, the first argument of that
/// name as rich text (or a copy of the default where there is none), or the materialized
/// template as plain rich text; a missing argument gives its name.
pub open spec fn resolved_rich_text<'a, E>(
    args: Seq<Argument<'a>>,
    parameter: Parameter<RichText>,
    r: Result<RichText, ArgumentValueError<E>>,
) -> bool {
    match parameter {
        Parameter::Constant(c) => r matches Ok(t) && same_rich_text(t, c),
        Parameter::Variable(name) => match first_named(args, name@) {
            Some(a) => r matches Ok(t) && is_rich_text_of(value_shape(a.value), t),
            None => r matches Err(e) && missing_name(e) == Some(name@),
        },
        Parameter::Template(t) => match spec_materialize(args, template_view(t)) {
            Ok(text) => r matches Ok(rt) && is_rich_text_of(ValueShape::Plain(text), rt),
            Err(slot) => r matches Err(e) && missing_name(e) == Some(slot),
        },
        Parameter::VariableDefault(name, d) => match first_named(args, name@) {
            Some(a) => r matches Ok(t) && is_rich_text_of(value_shape(a.value), t),
            None => r matches Ok(t) && same_rich_text(t, d),
        },
    }
}

/// What an optional rich-text parameter resolves to: as `resolved_rich_text`, with nothing where
/// an argument is missing.
pub open spec fn resolved_rich_text_optional<'a>(
    args: Seq<Argument<'a>>,
    parameter: Parameter<Option<RichText>>,
    r: Option<RichText>,
) -> bool {
    match parameter {
        Parameter::Constant(c) => same_optional_rich_text(r, c),
        Parameter::Variable(name) => match first_named(args, name@) {
            Some(a) => r matches Some(t) && is_rich_text_of(value_shape(a.value), t),
            None => r is None,
        },
        Parameter::Template(t) => match spec_materialize(args, template_view(t)) {
            Ok(text) => r matches Some(rt) && is_rich_text_of(ValueShape::Plain(text), rt),
            Err(_) => r is None,
        },
        Parameter::VariableDefault(name, d) => match first_named(args, name@) {
            Some(a) => r matches Some(t) && is_rich_text_of(value_shape(a.value), t),
            None => same_optional_rich_text(r, d),
        },
    }
}

/// The text a parameter read from text resolves to, where `text_of` gives the text of a
/// constant: the constant's, the text of the first argument of that name (or the default's
/// where there is none), or the materialized template; `Err` holds the name of the missing
/// argument.
pub open spec fn resolved_text<'a, T>(args: Seq<Argument<'a>>, parameter: Parameter<T>, text_of: spec_fn(T) -> Seq<char>) -> Result<Seq<char>, Seq<char>> {
    match parameter {
        Parameter::Constant(c) => Ok(text_of(c)),
        Parameter::Variable(name) => match first_named(args, name@) {
            Some(a) => Ok(spec_value_str(a.value)),
            None => Err(name@),
        },
        Parameter::Template(t) => spec_materialize(args, template_view(t)),
        Parameter::VariableDefault(name, d) => match first_named(args, name@) {
            Some(a) => Ok(spec_value_str(a.value)),
            None => Ok(text_of(d)),
        },
    }
}

/// Every argument can be converted to `into` where it stands.
pub open spec fn arguments_convertible(args: Seq<Argument>, into: ValueType) -> bool {
    forall|k: int| 0 <= k < args.len() ==> convertible_at(value_shape(#[trigger] args[k].value), into, Some(args[k].location))
}

/// A conversion whose value, where there is one, is wrapped in `Some`.
pub open spec fn optionally_converted<'a, E>(
    shape: ValueShape,
    into: ValueType,
    location: Option<MinimalLocation>,
    r: Result<Option<Value<'a>>, ArgumentValueError<E>>,
) -> bool {
    match r {
        Ok(Some(v)) => spec_converted::<E>(shape, into, location, Ok(v)),
        Ok(None) => false,
        Err(e) => spec_converted(shape, into, location, Err(e)),
    }
}

/// Both nothing, or rich texts with the same events.
pub open spec fn same_optional_rich_text(a: Option<RichText>, b: Option<RichText>) -> bool {
    match (a, b) {
        (Some(x), Some(y)) => same_rich_text(x, y),
        (None, None) => true,
        _ => false,
    }
}

fn copy_optional_rich_text(o: &Option<RichText>) -> (r: Option<RichText>)
    ensures
        same_optional_rich_text(r, *o),
{
    match o {
        Some(t) => Some(t.copy()),
        None => None,
    }
}

/// Both nothing, or a value and its clone.
pub open spec fn cloned_optional<'a>(a: Option<Value<'a>>, b: Option<Value<'a>>) -> bool {
    match (a, b) {
        (Some(x), Some(y)) => cloned(x, y),
        (None, None) => true,
        _ => false,
    }
}

fn clone_optional<'a>(o: &Option<Value<'a>>) -> (r: Option<Value<'a>>)
    ensures
        cloned_optional(*o, r),
{
    match o {
        Some(v) => Some(v.clone()),
        None => None,
    }
}


/// The error of reading a value by name: no variant is spelled so.
#[derive(Clone, Copy, Debug, PartialEq, Eq, Structural)]
pub enum ArgumentParseError {
    VariantNotFound,
}

/// Values that can be read from the text of an argument.
pub trait ParseArgument: Sized {
    spec fn spec_parse(s: Seq<char>) -> Option<Self>;

    fn parse_argument(s: &str) -> (r: Option<Self>)
        ensures
            r == Self::spec_parse(s@),
    ;
}

impl ParseArgument for crate::ir::Language {
    open spec fn spec_parse(s: Seq<char>) -> Option<Self> {
        crate::ir::spec_language_from_str(s)
    }

    fn parse_argument(s: &str) -> (r: Option<Self>) {
        crate::ir::Language::from_str(s)
    }
}

impl ParseArgument for crate::ir::DiagnosticLevel {
    open spec fn spec_parse(s: Seq<char>) -> Option<Self> {
        crate::ir::spec_diagnostic_level_from_str(s)
    }

    fn parse_argument(s: &str) -> (r: Option<Self>) {
        crate::ir::DiagnosticLevel::from_str(s)
    }
}

impl ParseArgument for bool {
    /// `true` and `false`, as `bool::from_str` reads them.
    open spec fn spec_parse(s: Seq<char>) -> Option<Self> {
        if s == "true"@ {
            Some(true)
        } else if s == "false"@ {
            Some(false)
        } else {
            None
        }
    }

    fn parse_argument(s: &str) -> (r: Option<Self>) {
        if str_eq(s, "true") {
            Some(true)
        } else if str_eq(s, "false") {
            Some(false)
        } else {
            None
        }
    }
}

/// The value read from a text, or the error of reading it at a location.
pub open spec fn parsed_at<T: ParseArgument>(text: Seq<char>, location: Option<MinimalLocation>, r: Result<T, ArgumentValueError<ArgumentParseError>>) -> bool {
    match T::spec_parse(text) {
        Some(v) => r == Ok::<T, ArgumentValueError<ArgumentParseError>>(v),
        None => r matches Err(ArgumentValueError::ParsingFailed(ArgumentParseError::VariantNotFound, l)) && l == location,
    }
}

fn parse_at<T: ParseArgument>(text: &str, location: Option<MinimalLocation>) -> (r: Result<T, ArgumentValueError<ArgumentParseError>>)
    ensures
        parsed_at(text@, location, r),
{
    match T::parse_argument(text) {
        Some(v) => Ok(v),
        None => Err(ArgumentValueError::ParsingFailed(ArgumentParseError::VariantNotFound, location)),
    }
}

impl<'a> Arguments<'a> {
    /// The value a parameter stands for, read from text: a copy of the constant, the named
    /// argument read (or a copy of the default where it is missing), or the materialized
    /// template read. An argument that does not read carries its location in the error.
    pub fn resolve_parsed<T: ParseArgument + Clone>(&self, parameter: &Parameter<T>) -> (r: Result<T, ArgumentValueError<ArgumentParseError>>)
        ensures
            match *parameter {
                Parameter::Constant(c) => r matches Ok(v) && cloned(c, v),
                Parameter::Variable(name) => match first_named(self.0@, name@) {
                    Some(a) => parsed_at(spec_value_str(a.value), Some(a.location), r),
                    None => r matches Err(e) && missing_name(e) == Some(name@),
                },
                Parameter::Template(t) => match spec_materialize(self.0@, template_view(t)) {
                    Ok(text) => parsed_at(text, None, r),
                    Err(slot) => r matches Err(e) && missing_name(e) == Some(slot),
                },
                Parameter::VariableDefault(name, d) => match first_named(self.0@, name@) {
                    Some(a) => parsed_at(spec_value_str(a.value), Some(a.location), r),
                    None => r matches Ok(v) && cloned(d, v),
                },
            },
    {
        match parameter {
            Parameter::Constant(c) => Ok(c.clone()),
            Parameter::Variable(name) => match self.get(name.as_str()) {
                Some(arg) => parse_at(arg.value.str().as_str(), Some(arg.location)),
                None => Err(ArgumentValueError::Missing(name.to_string())),
            },
            Parameter::Template(template) => match self.materialize_template(template) {
                Ok(text) => parse_at(text.as_str(), None),
                Err(e) => Err(e),
            },
            Parameter::VariableDefault(name, default) => match self.get(name.as_str()) {
                Some(arg) => parse_at(arg.value.str().as_str(), Some(arg.location)),
                None => Ok(default.clone()),
            },
        }
    }
}

} // verus!
