use vstd::prelude::*;
use crate::compiler::strings::{str_eq, CowStr};
use crate::ir::Dialect;

verus! {

/// Style of a list.
#[derive(Clone, Copy, Debug, PartialEq, Eq, Structural)]
pub enum ListStyle {
    Ordered,
    Unordered,
}

/// Style of inline text.
#[derive(Clone, Copy, Debug, PartialEq, Eq, Structural)]
pub enum InlineTextStyle {
    Emphasized,
    Bold,
    Strikethrough,
    Underlined,
}

/// Kind of an admonition (a block quote with a call-out).
#[derive(Clone, Copy, Debug, PartialEq, Eq, Structural, Hash)]
pub enum AdmonitionKind {
    Note,
    Tip,
    Important,
    Warning,
    Caution,
}

/// How rich text is stored.
#[derive(Clone, Copy, Debug, PartialEq, Eq, Structural)]
pub enum RichTextRepresentation {
    CommonMark,
}

/// The tags of CommonMark markup that the library reads, by their content.
#[derive(Clone, Debug)]
pub enum MarkupTag {
    Paragraph,
    Heading { level: u8, id: Option<String> },
    BlockQuote(Option<AdmonitionKind>),
    CodeBlock(Option<String>),
    List(Option<u64>),
    Item,
    Emphasis,
    Strong,
    Strikethrough,
    Link { dest_url: String, title: String, id: String },
    Image { dest_url: String, title: String, id: String },
}

/// The ends of those tags.
#[derive(Clone, Debug)]
pub enum MarkupTagEnd {
    Paragraph,
    Heading(u8),
    BlockQuote(Option<AdmonitionKind>),
    CodeBlock,
    List(bool),
    Item,
    Emphasis,
    Strong,
    Strikethrough,
    Link,
    Image,
}

/// One event of parsed CommonMark: a tag opens or closes, or a piece of content comes.
#[derive(Clone, Debug)]
pub enum MarkupEvent {
    Start(MarkupTag),
    End(MarkupTagEnd),
    Text(String),
    Code(String),
    Html(String),
    InlineHtml(String),
    InlineMath(String),
    DisplayMath(String),
    SoftBreak,
    HardBreak,
    Rule,
}

/// Errors taking a link out of rich text.
#[derive(Debug, Clone)]
pub enum LinkExtractionError {
    MissingLink,
    TooManyLinks,
    MalformedURI(url::ParseError),
}

/// The text of all text events, in order.
pub open spec fn text_of(events: Seq<MarkupEvent>) -> Seq<char>
    decreases events.len(),
{
    if events.len() == 0 {
        Seq::empty()
    } else {
        text_of(events.drop_last()) + match events.last() {
            MarkupEvent::Text(s) => s@,
            _ => Seq::empty(),
        }
    }
}

/// The contents of the text events, in order.
pub open spec fn text_pieces(events: Seq<MarkupEvent>) -> Seq<Seq<char>>
    decreases events.len(),
{
    if events.len() == 0 {
        Seq::empty()
    } else {
        match events.last() {
            MarkupEvent::Text(s) => text_pieces(events.drop_last()).push(s@),
            _ => text_pieces(events.drop_last()),
        }
    }
}

/// Whether an event opens a link.
pub open spec fn is_link_start(e: MarkupEvent) -> bool {
    e matches MarkupEvent::Start(MarkupTag::Link { .. })
}

/// The positions of the events that open links, in order.
pub open spec fn link_positions(events: Seq<MarkupEvent>) -> Seq<int>
    decreases events.len(),
{
    if events.len() == 0 {
        Seq::empty()
    } else if is_link_start(events.last()) {
        link_positions(events.drop_last()).push(events.len() - 1)
    } else {
        link_positions(events.drop_last())
    }
}

/// What `url::Url::parse` gives for a string: the URL, or the parse error. It depends on the
/// string alone.
pub uninterp spec fn url_parse_outcome(s: Seq<char>) -> Result<url::Url, url::ParseError>;

/// Whether `url::Url::parse` accepts a string.
pub open spec fn url_parses(s: Seq<char>) -> bool {
    url_parse_outcome(s) is Ok
}

/// `url::Url::parse`: the URL or the error named by `url_parse_outcome` for the string.
#[verifier::external_body]
pub fn parse_url(s: &str) -> (r: Result<url::Url, url::ParseError>)
    ensures
        r == url_parse_outcome(s@),
{
    url::Url::parse(s)
}

/// Parsed CommonMark, as its events.
#[derive(Clone, Debug)]
pub struct CommonMark(pub Vec<MarkupEvent>);

impl CommonMark {
    /// The contents of the text events, in order.
    pub fn _text(&self) -> (r: Vec<&str>)
        ensures
            r@.map_values(|t: &str| t@) == text_pieces(self.0@),
    {
        let mut r: Vec<&str> = Vec::new();
        let mut k: usize = 0;
        while k < self.0.len()
            invariant
                k <= self.0@.len(),
                r@.map_values(|t: &str| t@) == text_pieces(self.0@.take(k as int)),
            decreases self.0.len() - k,
        {
            let ghost before = r@;
            assert(self.0@.take(k + 1).drop_last() =~= self.0@.take(k as int));
            match &self.0[k] {
                MarkupEvent::Text(t) => {
                    r.push(t.as_str());
                    assert(r@.map_values(|t: &str| t@) =~= before.map_values(|t: &str| t@).push(t@));
                },
                _ => {},
            }
            k = k + 1;
        }
        assert(self.0@.take(self.0@.len() as int) =~= self.0@);
        r
    }
}

impl CommonMark {
    pub fn new(events: Vec<MarkupEvent>) -> (r: Self)
        ensures
            r.0@ == events@,
    {
        CommonMark(events)
    }

    /// Markup that is one text event.
    pub fn from_cow_str(s: CowStr) -> (r: Self)
        ensures
            r.0@.len() == 1,
            r.0@[0] matches MarkupEvent::Text(t) && t@ == s@,
    {
        CommonMark(vec![MarkupEvent::Text(s.into_string())])
    }

    /// The one link in the markup: its URL and its title.
    pub fn link(&self) -> (r: Result<(url::Url, CowStr<'static>), LinkExtractionError>)
        ensures
            link_positions(self.0@).len() == 0 ==> r matches Err(LinkExtractionError::MissingLink),
            link_positions(self.0@).len() >= 2 ==> r matches Err(LinkExtractionError::TooManyLinks),
            link_positions(self.0@).len() == 1 ==> {
                let e = self.0@[link_positions(self.0@)[0]];
                &&& e matches MarkupEvent::Start(MarkupTag::Link { dest_url, title, .. })
                &&& (r is Ok <==> url_parses(dest_url@))
                &&& (r matches Ok((u, t)) ==> t@ == title@ && url_parse_outcome(dest_url@) == Ok::<url::Url, url::ParseError>(u))
                &&& (r is Err ==> (r matches Err(LinkExtractionError::MalformedURI(err))
                    && url_parse_outcome(dest_url@) == Err::<url::Url, url::ParseError>(err)))
            },
    {
        let mut found: Option<usize> = None;
        let mut i: usize = 0;
        proof {
            lemma_link_positions_bounded(self.0@);
        }
        while i < self.0.len()
            invariant
                i <= self.0@.len(),
                link_positions(self.0@.take(i as int)).len() <= 1,
                link_positions(self.0@.take(i as int)).len() == 0 <==> found is None,
                found matches Some(k) ==> (k < i && link_positions(self.0@.take(i as int))[0] == k
                    && is_link_start(self.0@[k as int])),
            decreases self.0.len() - i,
        {
            assert(self.0@.take(i + 1).drop_last() =~= self.0@.take(i as int));
            if let MarkupEvent::Start(MarkupTag::Link { .. }) = &self.0[i] {
                if found.is_some() {
                    proof {
                        lemma_link_positions_prefix(self.0@, i as int + 1);
                    }
                    return Err(LinkExtractionError::TooManyLinks);
                }
                found = Some(i);
            }
            i = i + 1;
        }
        assert(self.0@.take(self.0@.len() as int) =~= self.0@);
        match found {
            None => Err(LinkExtractionError::MissingLink),
            Some(k) => {
                if let MarkupEvent::Start(MarkupTag::Link { dest_url, title, .. }) = &self.0[k] {
                    match parse_url(dest_url.as_str()) {
                        Ok(uri) => Ok((uri, CowStr::Owned(title.clone()))),
                        Err(e) => Err(LinkExtractionError::MalformedURI(e)),
                    }
                } else {
                    Err(LinkExtractionError::MissingLink)
                }
            },
        }
    }

    /// The URL of the one link in the markup.
    pub fn uri(&self) -> (r: Result<url::Url, LinkExtractionError>)
        ensures
            link_positions(self.0@).len() == 0 ==> r matches Err(LinkExtractionError::MissingLink),
            link_positions(self.0@).len() >= 2 ==> r matches Err(LinkExtractionError::TooManyLinks),
            link_positions(self.0@).len() == 1 ==> {
                let e = self.0@[link_positions(self.0@)[0]];
                &&& e matches MarkupEvent::Start(MarkupTag::Link { dest_url, .. })
                &&& (r is Ok <==> url_parses(dest_url@))
                &&& (r matches Ok(u) ==> url_parse_outcome(dest_url@) == Ok::<url::Url, url::ParseError>(u))
                &&& (r is Err ==> (r matches Err(LinkExtractionError::MalformedURI(err))
                    && url_parse_outcome(dest_url@) == Err::<url::Url, url::ParseError>(err)))
            },
    {
        match self.link() {
            Ok((uri, _)) => Ok(uri),
            Err(e) => Err(e),
        }
    }

    /// The text of all text events, joined.
    pub fn str(&self) -> (r: CowStr<'static>)
        ensures
            r@ == text_of(self.0@),
    {
        let mut out = String::new();
        let mut i: usize = 0;
        while i < self.0.len()
            invariant
                i <= self.0@.len(),
                out@ == text_of(self.0@.take(i as int)),
            decreases self.0.len() - i,
        {
            assert(self.0@.take(i + 1).drop_last() =~= self.0@.take(i as int));
            if let MarkupEvent::Text(s) = &self.0[i] {
                out.append(s.as_str());
            }
            i = i + 1;
        }
        assert(self.0@.take(self.0@.len() as int) =~= self.0@);
        CowStr::Owned(out)
    }

    /// The text of all text events, joined, as a `String`.
    pub fn to_string(&self) -> (r: String)
        ensures
            r@ == text_of(self.0@),
    {
        self.str().into_string()
    }

    /// Markup that is one text event holding `s`.
    pub fn from_str(s: &str) -> (r: Self)
        ensures
            r.0@.len() == 1,
            r.0@[0] matches MarkupEvent::Text(t) && t@ == s@,
    {
        CommonMark(vec![MarkupEvent::Text(String::from_str(s))])
    }
}

impl Default for CommonMark {
    fn default() -> (r: Self)
        ensures
            r.0@.len() == 0,
    {
        CommonMark(Vec::new())
    }
}

proof fn lemma_link_positions_bounded(events: Seq<MarkupEvent>)
    ensures
        forall|k: int| 0 <= k < link_positions(events).len() ==> 0 <= #[trigger] link_positions(events)[k] < events.len(),
        forall|k: int| 0 <= k < link_positions(events).len() ==> is_link_start(events[#[trigger] link_positions(events)[k]]),
    decreases events.len(),
{
    if events.len() > 0 {
        let rest = events.drop_last();
        lemma_link_positions_bounded(rest);
        assert forall|k: int| 0 <= k < link_positions(events).len() implies
            0 <= #[trigger] link_positions(events)[k] < events.len()
            && is_link_start(events[link_positions(events)[k]]) by {
            if k < link_positions(rest).len() {
                assert(link_positions(events)[k] == link_positions(rest)[k]);
                assert(events[link_positions(rest)[k]] == rest[link_positions(rest)[k]]);
            }
        }
    }
}

/// Once a prefix holds two links, so does every longer sequence.
proof fn lemma_link_positions_prefix(events: Seq<MarkupEvent>, n: int)
    requires
        0 <= n <= events.len(),
    ensures
        link_positions(events).len() >= link_positions(events.take(n)).len(),
    decreases events.len(),
{
    if n < events.len() {
        assert(events.drop_last().take(n) =~= events.take(n));
        lemma_link_positions_prefix(events.drop_last(), n);
    } else {
        assert(events.take(n) =~= events);
    }
}

/// Where rich text keeps its content.
#[derive(Clone, Debug)]
pub enum RichTextStorage {
    CommonMark(CommonMark),
}

/// Documentation text with markup.
#[derive(Clone, Debug)]
pub struct RichText {
    pub dialect: Option<Dialect>,
    pub storage: RichTextStorage,
}

impl RichText {
    /// The events of the markup.
    pub open spec fn events(&self) -> Seq<MarkupEvent> {
        match self.storage {
            RichTextStorage::CommonMark(md) => md.0@,
        }
    }

    /// Rich text holding plain text.
    pub fn from_str(text: &str, representation: RichTextRepresentation) -> (r: Self)
        ensures
            r.dialect is None,
            r.events().len() == 1,
            r.events()[0] matches MarkupEvent::Text(t) && t@ == text@,
    {
        RichText { dialect: None, storage: RichTextStorage::CommonMark(CommonMark::from_str(text)) }
    }

    /// Rich text with nothing in it.
    pub fn empty(representation: RichTextRepresentation) -> (r: Self)
        ensures
            r.dialect is None,
            r.events().len() == 0,
    {
        RichText { dialect: None, storage: RichTextStorage::CommonMark(CommonMark::default()) }
    }

    /// Rich text from parsed CommonMark.
    pub fn common_mark(events: CommonMark) -> (r: Self)
        ensures
            r.dialect is None,
            r.events() == events.0@,
    {
        RichText { dialect: None, storage: RichTextStorage::CommonMark(events) }
    }

    /// The one link in the text.
    pub fn link(&self) -> (r: Result<(url::Url, CowStr<'static>), LinkExtractionError>)
        ensures
            link_positions(self.events()).len() == 0 ==> r matches Err(LinkExtractionError::MissingLink),
            link_positions(self.events()).len() >= 2 ==> r matches Err(LinkExtractionError::TooManyLinks),
            link_positions(self.events()).len() == 1 ==> {
                let e = self.events()[link_positions(self.events())[0]];
                &&& e matches MarkupEvent::Start(MarkupTag::Link { dest_url, title, .. })
                &&& (r is Ok <==> url_parses(dest_url@))
                &&& (r matches Ok((u, t)) ==> t@ == title@ && url_parse_outcome(dest_url@) == Ok::<url::Url, url::ParseError>(u))
                &&& (r is Err ==> (r matches Err(LinkExtractionError::MalformedURI(err))
                    && url_parse_outcome(dest_url@) == Err::<url::Url, url::ParseError>(err)))
            },
    {
        match &self.storage {
            RichTextStorage::CommonMark(events) => events.link(),
        }
    }

    /// The plain text of the rich text.
    pub fn str(&self) -> (r: CowStr<'static>)
        ensures
            r@ == text_of(self.events()),
    {
        match &self.storage {
            RichTextStorage::CommonMark(common_mark) => common_mark.str(),
        }
    }

    /// Appending content to rich text leaves it as it is.
    pub fn append(&mut self, content: RichText)
        ensures
            *final(self) == *old(self),
    {
    }

    /// The text wrapped in a block quote of the given admonition kind.
    pub fn into_admonition(self, kind: AdmonitionKind) -> (r: Self)
        ensures
            r.dialect == self.dialect,
            r.events() == seq![MarkupEvent::Start(MarkupTag::BlockQuote(Some(kind)))] + self.events()
                + seq![MarkupEvent::End(MarkupTagEnd::BlockQuote(Some(kind)))],
    {
        match self.storage {
            RichTextStorage::CommonMark(md) => {
                let mut events = md.0;
                events.insert(0, MarkupEvent::Start(MarkupTag::BlockQuote(Some(kind))));
                events.push(MarkupEvent::End(MarkupTagEnd::BlockQuote(Some(kind))));
                RichText { dialect: self.dialect, storage: RichTextStorage::CommonMark(CommonMark(events)) }
            },
        }
    }

    /// The plain text of the rich text, as a `String`.
    pub fn to_string(&self) -> (r: String)
        ensures
            r@ == text_of(self.events()),
    {
        self.str().into_string()
    }
}

impl Default for RichText {
    fn default() -> (r: Self)
        ensures
            r.dialect is None,
            r.events().len() == 0,
    {
        RichText::empty(RichTextRepresentation::CommonMark)
    }
}


/// A copy of an optional string.
fn copy_opt_string(o: &Option<String>) -> (r: Option<String>)
    ensures
        r == *o,
{
    match o {
        Some(s) => Some(s.clone()),
        None => None,
    }
}

/// The error `f` gave for `xs[k]`, where it mapped every text before, is the first failure.
proof fn lemma_first_failure_at<E, F: Fn(&str) -> Result<CowStr<'static>, E>>(f: F, xs: Seq<Seq<char>>, k: int, e: E)
    requires
        0 <= k < xs.len(),
        failed_text(f, xs[k], e),
        forall|j: int| 0 <= j < k ==> #[trigger] maps_text(f, xs[j]),
    ensures
        first_failure(f, xs, e),
{
    assert(xs[k] == xs[k]);
}

impl MarkupTag {
    /// An equal tag.
    pub fn copy(&self) -> (r: Self)
        ensures
            r == *self,
    {
        match self {
            MarkupTag::Paragraph => MarkupTag::Paragraph,
            MarkupTag::Heading { level, id } => MarkupTag::Heading { level: *level, id: copy_opt_string(id) },
            MarkupTag::BlockQuote(k) => MarkupTag::BlockQuote(*k),
            MarkupTag::CodeBlock(o) => MarkupTag::CodeBlock(copy_opt_string(o)),
            MarkupTag::List(n) => MarkupTag::List(*n),
            MarkupTag::Item => MarkupTag::Item,
            MarkupTag::Emphasis => MarkupTag::Emphasis,
            MarkupTag::Strong => MarkupTag::Strong,
            MarkupTag::Strikethrough => MarkupTag::Strikethrough,
            MarkupTag::Link { dest_url, title, id } =>
                MarkupTag::Link { dest_url: dest_url.clone(), title: title.clone(), id: id.clone() },
            MarkupTag::Image { dest_url, title, id } =>
                MarkupTag::Image { dest_url: dest_url.clone(), title: title.clone(), id: id.clone() },
        }
    }
}

impl MarkupTagEnd {
    /// An equal tag end.
    pub fn copy(&self) -> (r: Self)
        ensures
            r == *self,
    {
        match self {
            MarkupTagEnd::Paragraph => MarkupTagEnd::Paragraph,
            MarkupTagEnd::Heading(l) => MarkupTagEnd::Heading(*l),
            MarkupTagEnd::BlockQuote(k) => MarkupTagEnd::BlockQuote(*k),
            MarkupTagEnd::CodeBlock => MarkupTagEnd::CodeBlock,
            MarkupTagEnd::List(b) => MarkupTagEnd::List(*b),
            MarkupTagEnd::Item => MarkupTagEnd::Item,
            MarkupTagEnd::Emphasis => MarkupTagEnd::Emphasis,
            MarkupTagEnd::Strong => MarkupTagEnd::Strong,
            MarkupTagEnd::Strikethrough => MarkupTagEnd::Strikethrough,
            MarkupTagEnd::Link => MarkupTagEnd::Link,
            MarkupTagEnd::Image => MarkupTagEnd::Image,
        }
    }
}

impl MarkupEvent {
    /// An equal event.
    pub fn copy(&self) -> (r: Self)
        ensures
            r == *self,
    {
        match self {
            MarkupEvent::Start(t) => MarkupEvent::Start(t.copy()),
            MarkupEvent::End(t) => MarkupEvent::End(t.copy()),
            MarkupEvent::Text(s) => MarkupEvent::Text(s.clone()),
            MarkupEvent::Code(s) => MarkupEvent::Code(s.clone()),
            MarkupEvent::Html(s) => MarkupEvent::Html(s.clone()),
            MarkupEvent::InlineHtml(s) => MarkupEvent::InlineHtml(s.clone()),
            MarkupEvent::InlineMath(s) => MarkupEvent::InlineMath(s.clone()),
            MarkupEvent::DisplayMath(s) => MarkupEvent::DisplayMath(s.clone()),
            MarkupEvent::SoftBreak => MarkupEvent::SoftBreak,
            MarkupEvent::HardBreak => MarkupEvent::HardBreak,
            MarkupEvent::Rule => MarkupEvent::Rule,
        }
    }
}

/// Two rich texts of the same dialect with the same events.
pub open spec fn same_rich_text(a: RichText, b: RichText) -> bool {
    a.dialect == b.dialect && a.events() == b.events()
}

impl RichText {
    /// Rich text of the same dialect with the same events.
    pub fn copy(&self) -> (r: Self)
        ensures
            same_rich_text(r, *self),
    {
        let events = match &self.storage {
            RichTextStorage::CommonMark(md) => &md.0,
        };
        let mut out: Vec<MarkupEvent> = Vec::new();
        let mut k: usize = 0;
        while k < events.len()
            invariant
                k <= events@.len(),
                out@ == events@.take(k as int),
            decreases events.len() - k,
        {
            out.push(events[k].copy());
            proof {
                assert(events@.take(k + 1) =~= events@.take(k as int).push(events@[k as int]));
            }
            k = k + 1;
        }
        proof {
            assert(events@.take(events@.len() as int) =~= events@);
        }
        RichText { dialect: self.dialect, storage: RichTextStorage::CommonMark(CommonMark(out)) }
    }
}


/// `y` is what `f` gave for a text that reads `x`.
pub open spec fn mapped_text<E, F: Fn(&str) -> Result<CowStr<'static>, E>>(f: F, x: Seq<char>, y: Seq<char>) -> bool {
    exists|a: &str, c: CowStr<'static>|
        #![trigger f.ensures((a,), Ok::<CowStr<'static>, E>(c))]
        a@ == x && c@ == y && f.ensures((a,), Ok::<CowStr<'static>, E>(c))
}

/// `e` is an error that `f` gave for the text `x`.
pub open spec fn failed_text<E, F: Fn(&str) -> Result<CowStr<'static>, E>>(f: F, x: Seq<char>, e: E) -> bool {
    exists|a: &str| #![trigger f.ensures((a,), Err::<CowStr<'static>, E>(e))]
        a@ == x && f.ensures((a,), Err::<CowStr<'static>, E>(e))
}

/// `f` maps the text `x` to some text.
pub open spec fn maps_text<E, F: Fn(&str) -> Result<CowStr<'static>, E>>(f: F, x: Seq<char>) -> bool {
    exists|y: Seq<char>| #[trigger] mapped_text(f, x, y)
}

/// `e` is the error of the first of the texts `xs` that `f` failed on: `f` mapped each text
/// before it.
pub open spec fn first_failure<E, F: Fn(&str) -> Result<CowStr<'static>, E>>(f: F, xs: Seq<Seq<char>>, e: E) -> bool {
    exists|k: int| #![trigger xs[k]]
        0 <= k < xs.len() && failed_text(f, xs[k], e)
            && forall|j: int| 0 <= j < k ==> #[trigger] maps_text(f, xs[j])
}

/// The texts of a tag that mapping reaches, in order.
pub open spec fn tag_texts(t: MarkupTag) -> Seq<Seq<char>> {
    match t {
        MarkupTag::Heading { id: Some(x), .. } => seq![x@],
        MarkupTag::Link { dest_url, title, id } => seq![dest_url@, title@, id@],
        MarkupTag::Image { dest_url, title, id } => seq![dest_url@, title@, id@],
        _ => seq![],
    }
}

/// The texts of an event that mapping reaches, in order.
pub open spec fn event_texts(e: MarkupEvent) -> Seq<Seq<char>> {
    match e {
        MarkupEvent::Text(x) => seq![x@],
        MarkupEvent::Code(x) => seq![x@],
        MarkupEvent::Html(x) => seq![x@],
        MarkupEvent::InlineHtml(x) => seq![x@],
        MarkupEvent::InlineMath(x) => seq![x@],
        MarkupEvent::DisplayMath(x) => seq![x@],
        MarkupEvent::Start(t) => tag_texts(t),
        _ => seq![],
    }
}

/// `e` is the error of the first event of `events` whose mapping failed, at the first of its
/// texts that failed: every event before it was mapped.
pub open spec fn first_event_failure<E, F: Fn(&str) -> Result<CowStr<'static>, E>>(f: F, events: Seq<MarkupEvent>, e: E) -> bool {
    exists|i: int| #![trigger events[i]]
        0 <= i < events.len() && first_failure(f, event_texts(events[i]), e)
            && forall|j: int| 0 <= j < i ==> #[trigger] maps_event(f, events[j])
}

/// `f` maps the texts of the event `e` to some event.
pub open spec fn maps_event<E, F: Fn(&str) -> Result<CowStr<'static>, E>>(f: F, e: MarkupEvent) -> bool {
    exists|d: MarkupEvent| #[trigger] event_mapped(f, e, d)
}

/// `u` is the tag `t` with its texts (a heading's id, a link's or an image's URL, title and id)
/// mapped by `f`.
pub open spec fn tag_mapped<E, F: Fn(&str) -> Result<CowStr<'static>, E>>(f: F, t: MarkupTag, u: MarkupTag) -> bool {
    match t {
        MarkupTag::Heading { level, id } => u matches MarkupTag::Heading { level: l2, id: i2 } && l2 == level
            && match id {
                Some(x) => i2 matches Some(y) && mapped_text(f, x@, y@),
                None => i2 is None,
            },
        MarkupTag::Link { dest_url, title, id } => u matches MarkupTag::Link { dest_url: d2, title: t2, id: i2 }
            && mapped_text(f, dest_url@, d2@) && mapped_text(f, title@, t2@) && mapped_text(f, id@, i2@),
        MarkupTag::Image { dest_url, title, id } => u matches MarkupTag::Image { dest_url: d2, title: t2, id: i2 }
            && mapped_text(f, dest_url@, d2@) && mapped_text(f, title@, t2@) && mapped_text(f, id@, i2@),
        _ => u == t,
    }
}

/// `d` is the event `e` with its texts mapped by `f`: the content of text, code, HTML and math,
/// and the texts of an opening tag; other events stay as they are.
pub open spec fn event_mapped<E, F: Fn(&str) -> Result<CowStr<'static>, E>>(f: F, e: MarkupEvent, d: MarkupEvent) -> bool {
    match e {
        MarkupEvent::Text(x) => d matches MarkupEvent::Text(y) && mapped_text(f, x@, y@),
        MarkupEvent::Code(x) => d matches MarkupEvent::Code(y) && mapped_text(f, x@, y@),
        MarkupEvent::Html(x) => d matches MarkupEvent::Html(y) && mapped_text(f, x@, y@),
        MarkupEvent::InlineHtml(x) => d matches MarkupEvent::InlineHtml(y) && mapped_text(f, x@, y@),
        MarkupEvent::InlineMath(x) => d matches MarkupEvent::InlineMath(y) && mapped_text(f, x@, y@),
        MarkupEvent::DisplayMath(x) => d matches MarkupEvent::DisplayMath(y) && mapped_text(f, x@, y@),
        MarkupEvent::Start(t) => d matches MarkupEvent::Start(u) && tag_mapped(f, t, u),
        _ => d == e,
    }
}

/// The text `f` gives for `s`, as a string.
fn map_one<E, F: Fn(&str) -> Result<CowStr<'static>, E>>(f: &F, s: &String) -> (r: Result<String, E>)
    requires
        forall|a: &str| f.requires((a,)),
    ensures
        match r {
            Ok(y) => mapped_text(*f, s@, y@),
            Err(e) => failed_text(*f, s@, e),
        },
{
    let a = s.as_str();
    match f(a) {
        Ok(c) => {
            let y = c.into_string();
            Ok(y)
        },
        Err(e) => Err(e),
    }
}

impl MarkupTag {
    /// The tag with its texts mapped by `f`; the first error of `f` stops it.
    fn try_map_text<E, F: Fn(&str) -> Result<CowStr<'static>, E>>(&self, f: &F) -> (r: Result<MarkupTag, E>)
        requires
            forall|a: &str| f.requires((a,)),
        ensures
            match r {
                Ok(u) => tag_mapped(*f, *self, u),
                Err(e) => first_failure(*f, tag_texts(*self), e),
            },
    {
        match self {
            MarkupTag::Heading { level, id } => {
                let id = match id {
                    Some(x) => match map_one(f, x) {
                        Ok(y) => Some(y),
                        Err(e) => {
                            proof { lemma_first_failure_at(*f, tag_texts(*self), 0, e); }
                            return Err(e);
                        },
                    },
                    None => None,
                };
                Ok(MarkupTag::Heading { level: *level, id })
            },
            MarkupTag::Link { dest_url, title, id } => {
                let ghost xs = tag_texts(*self);
                let d = match map_one(f, dest_url) {
                    Ok(y) => y,
                    Err(e) => {
                        proof { lemma_first_failure_at(*f, xs, 0, e); }
                        return Err(e);
                    },
                };
                proof { assert(mapped_text(*f, xs[0], d@)); }
                let t = match map_one(f, title) {
                    Ok(y) => y,
                    Err(e) => {
                        proof { lemma_first_failure_at(*f, xs, 1, e); }
                        return Err(e);
                    },
                };
                proof { assert(mapped_text(*f, xs[1], t@)); }
                let i = match map_one(f, id) {
                    Ok(y) => y,
                    Err(e) => {
                        proof { lemma_first_failure_at(*f, xs, 2, e); }
                        return Err(e);
                    },
                };
                Ok(MarkupTag::Link { dest_url: d, title: t, id: i })
            },
            MarkupTag::Image { dest_url, title, id } => {
                let ghost xs = tag_texts(*self);
                let d = match map_one(f, dest_url) {
                    Ok(y) => y,
                    Err(e) => {
                        proof { lemma_first_failure_at(*f, xs, 0, e); }
                        return Err(e);
                    },
                };
                proof { assert(mapped_text(*f, xs[0], d@)); }
                let t = match map_one(f, title) {
                    Ok(y) => y,
                    Err(e) => {
                        proof { lemma_first_failure_at(*f, xs, 1, e); }
                        return Err(e);
                    },
                };
                proof { assert(mapped_text(*f, xs[1], t@)); }
                let i = match map_one(f, id) {
                    Ok(y) => y,
                    Err(e) => {
                        proof { lemma_first_failure_at(*f, xs, 2, e); }
                        return Err(e);
                    },
                };
                Ok(MarkupTag::Image { dest_url: d, title: t, id: i })
            },
            _ => Ok(self.copy()),
        }
    }
}

impl MarkupEvent {
    /// The event with its texts mapped by `f`; the first error of `f` stops it.
    fn try_map_text<E, F: Fn(&str) -> Result<CowStr<'static>, E>>(&self, f: &F) -> (r: Result<MarkupEvent, E>)
        requires
            forall|a: &str| f.requires((a,)),
        ensures
            match r {
                Ok(d) => event_mapped(*f, *self, d),
                Err(e) => first_failure(*f, event_texts(*self), e),
            },
    {
        match self {
            MarkupEvent::Text(x) => match map_one(f, x) {
                Ok(y) => Ok(MarkupEvent::Text(y)),
                Err(e) => {
                    proof { lemma_first_failure_at(*f, event_texts(*self), 0, e); }
                    Err(e)
                },
            },
            MarkupEvent::Code(x) => match map_one(f, x) {
                Ok(y) => Ok(MarkupEvent::Code(y)),
                Err(e) => {
                    proof { lemma_first_failure_at(*f, event_texts(*self), 0, e); }
                    Err(e)
                },
            },
            MarkupEvent::Html(x) => match map_one(f, x) {
                Ok(y) => Ok(MarkupEvent::Html(y)),
                Err(e) => {
                    proof { lemma_first_failure_at(*f, event_texts(*self), 0, e); }
                    Err(e)
                },
            },
            MarkupEvent::InlineHtml(x) => match map_one(f, x) {
                Ok(y) => Ok(MarkupEvent::InlineHtml(y)),
                Err(e) => {
                    proof { lemma_first_failure_at(*f, event_texts(*self), 0, e); }
                    Err(e)
                },
            },
            MarkupEvent::InlineMath(x) => match map_one(f, x) {
                Ok(y) => Ok(MarkupEvent::InlineMath(y)),
                Err(e) => {
                    proof { lemma_first_failure_at(*f, event_texts(*self), 0, e); }
                    Err(e)
                },
            },
            MarkupEvent::DisplayMath(x) => match map_one(f, x) {
                Ok(y) => Ok(MarkupEvent::DisplayMath(y)),
                Err(e) => {
                    proof { lemma_first_failure_at(*f, event_texts(*self), 0, e); }
                    Err(e)
                },
            },
            MarkupEvent::Start(t) => match t.try_map_text(f) { Ok(u) => Ok(MarkupEvent::Start(u)), Err(e) => Err(e) },
            _ => Ok(self.copy()),
        }
    }
}

impl CommonMark {
    /// The markup with the texts of its events mapped by `f`, in order; the first error of `f`
    /// is returned.
    pub fn try_map_text<E, F: Fn(&str) -> Result<CowStr<'static>, E>>(&self, f: F) -> (r: Result<Self, E>)
        requires
            forall|a: &str| f.requires((a,)),
        ensures
            match r {
                Ok(m) => m.0@.len() == self.0@.len()
                    && forall|i: int| 0 <= i < self.0@.len() ==> event_mapped(f, #[trigger] self.0@[i], m.0@[i]),
                Err(e) => first_event_failure(f, self.0@, e),
            },
    {
        let mut out: Vec<MarkupEvent> = Vec::new();
        let mut k: usize = 0;
        while k < self.0.len()
            invariant
                k <= self.0@.len(),
                forall|a: &str| f.requires((a,)),
                out@.len() == k,
                forall|i: int| 0 <= i < k ==> event_mapped(f, #[trigger] self.0@[i], out@[i]),
            decreases self.0.len() - k,
        {
            match self.0[k].try_map_text(&f) {
                Ok(d) => out.push(d),
                Err(e) => { return Err(e); },
            }
            k = k + 1;
        }
        Ok(CommonMark(out))
    }
}

impl RichText {
    /// The rich text with the texts of its events mapped by `f`; the dialect stays.
    pub fn try_map_text<E, F: Fn(&str) -> Result<CowStr<'static>, E>>(&self, f: F) -> (r: Result<Self, E>)
        requires
            forall|a: &str| f.requires((a,)),
        ensures
            match r {
                Ok(t) => t.dialect == self.dialect && t.events().len() == self.events().len()
                    && forall|i: int| 0 <= i < self.events().len() ==> event_mapped(f, #[trigger] self.events()[i], t.events()[i]),
                Err(e) => first_event_failure(f, self.events(), e),
            },
    {
        match self.storage.try_map_text(f) {
            Ok(storage) => Ok(RichText { dialect: self.dialect, storage }),
            Err(e) => Err(e),
        }
    }
}

/// The events that stored content holds.
pub open spec fn stored_events(s: RichTextStorage) -> Seq<MarkupEvent> {
    match s {
        RichTextStorage::CommonMark(md) => md.0@,
    }
}

impl RichTextStorage {
    /// The content with the texts of its events mapped by `f`.
    pub fn try_map_text<E, F: Fn(&str) -> Result<CowStr<'static>, E>>(&self, f: F) -> (r: Result<Self, E>)
        requires
            forall|a: &str| f.requires((a,)),
        ensures
            match r {
                Ok(t) => stored_events(t).len() == stored_events(*self).len()
                    && forall|i: int| 0 <= i < stored_events(*self).len()
                        ==> event_mapped(f, #[trigger] stored_events(*self)[i], stored_events(t)[i]),
                Err(e) => first_event_failure(f, stored_events(*self), e),
            },
    {
        match self {
            RichTextStorage::CommonMark(md) => match md.try_map_text(f) {
                Ok(m) => Ok(RichTextStorage::CommonMark(m)),
                Err(e) => Err(e),
            },
        }
    }
}

} // verus!
