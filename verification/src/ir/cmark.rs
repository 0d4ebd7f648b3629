use vstd::prelude::*;
use pulldown_cmark::{BlockQuoteKind, CodeBlockKind, Event, Tag, TagEnd};
use crate::ir::rich_text::{AdmonitionKind, MarkupEvent, MarkupTag, MarkupTagEnd};

verus! {

#[verifier::external_type_specification]
#[verifier::external_body]
pub struct ExCmarkEvent<'a>(pulldown_cmark::Event<'a>);

#[verifier::external_type_specification]
#[verifier::external_body]
pub struct ExCmarkTag<'a>(pulldown_cmark::Tag<'a>);

#[verifier::external_type_specification]
#[verifier::external_body]
pub struct ExCmarkTagEnd(pulldown_cmark::TagEnd);

#[verifier::external_type_specification]
#[verifier::external_body]
pub struct ExBlockQuoteKind(pulldown_cmark::BlockQuoteKind);

/// The events that `pulldown_cmark::Parser::new_ext` gives for a text with the options whose
/// bits are `options`, one item per event: the event as the library's event, or `None` for an
/// event the library does not model (tables, footnotes, task-list markers and the like). It
/// depends on the text and the options alone.
pub uninterp spec fn cmark_events(text: Seq<char>, options: u32) -> Seq<Option<MarkupEvent>>;

/// `pulldown_cmark::Parser::new_ext` with `Options::from_bits_truncate(options)`, each event
/// converted by `cmark_event`: the items named by `cmark_events`.
#[verifier::external_body]
pub(crate) fn parse_cmark(text: &str, options: u32) -> (r: Vec<Option<MarkupEvent>>)
    ensures
        r@ == cmark_events(text@, options),
{
    pulldown_cmark::Parser::new_ext(text, pulldown_cmark::Options::from_bits_truncate(options)).map(cmark_event).collect()
}

/// A pulldown-cmark event as the library's event, variant for variant, the texts copied (breaks
/// and rules by `cmark_break`); `None` for the events the library does not model. Only `parse_cmark` converts events, and
/// its contract covers this.
#[verifier::external_body]
fn cmark_event(e: Event) -> Option<MarkupEvent> {
    match e {
        Event::Start(t) => cmark_tag(t).map(MarkupEvent::Start),
        Event::End(t) => cmark_tag_end(t).map(MarkupEvent::End),
        Event::Text(s) => Some(MarkupEvent::Text(s.to_string())),
        Event::Code(s) => Some(MarkupEvent::Code(s.to_string())),
        Event::InlineMath(s) => Some(MarkupEvent::InlineMath(s.to_string())),
        Event::DisplayMath(s) => Some(MarkupEvent::DisplayMath(s.to_string())),
        Event::Html(s) => Some(MarkupEvent::Html(s.to_string())),
        Event::InlineHtml(s) => Some(MarkupEvent::InlineHtml(s.to_string())),
        _ => cmark_break(e),
    }
}

/// A pulldown-cmark line break or rule as the library's; `None` for the other events.
/// Conversion only, under `parse_cmark`.
#[verifier::external_body]
fn cmark_break(e: Event) -> Option<MarkupEvent> {
    match e {
        Event::SoftBreak => Some(MarkupEvent::SoftBreak),
        Event::HardBreak => Some(MarkupEvent::HardBreak),
        Event::Rule => Some(MarkupEvent::Rule),
        _ => None,
    }
}

/// A pulldown-cmark opening tag as the library's tag (links and images by `cmark_reference`);
/// `None` for the tags the library does not model. Conversion only, under `parse_cmark`.
#[verifier::external_body]
fn cmark_tag(t: Tag) -> Option<MarkupTag> {
    match t {
        Tag::Paragraph => Some(MarkupTag::Paragraph),
        Tag::Heading { level, id, .. } => Some(MarkupTag::Heading { level: level as u8, id: id.map(|i| i.to_string()) }),
        Tag::BlockQuote(k) => Some(MarkupTag::BlockQuote(k.map(cmark_admonition))),
        Tag::CodeBlock(CodeBlockKind::Fenced(l)) => Some(MarkupTag::CodeBlock(Some(l.to_string()))),
        Tag::CodeBlock(CodeBlockKind::Indented) => Some(MarkupTag::CodeBlock(None)),
        Tag::List(n) => Some(MarkupTag::List(n)),
        Tag::Item => Some(MarkupTag::Item),
        Tag::Emphasis => Some(MarkupTag::Emphasis),
        Tag::Strong => Some(MarkupTag::Strong),
        Tag::Strikethrough => Some(MarkupTag::Strikethrough),
        _ => cmark_reference(t),
    }
}

/// A pulldown-cmark link or image tag as the library's, its URL, title and id copied; `None`
/// for the other tags. Conversion only, under `parse_cmark`.
#[verifier::external_body]
fn cmark_reference(t: Tag) -> Option<MarkupTag> {
    match t {
        Tag::Link { dest_url, title, id, .. } =>
            Some(MarkupTag::Link { dest_url: dest_url.to_string(), title: title.to_string(), id: id.to_string() }),
        Tag::Image { dest_url, title, id, .. } =>
            Some(MarkupTag::Image { dest_url: dest_url.to_string(), title: title.to_string(), id: id.to_string() }),
        _ => None,
    }
}

/// A pulldown-cmark closing tag as the library's; `None` for the tags the library does not
/// model. Conversion only, under `parse_cmark`.
#[verifier::external_body]
fn cmark_tag_end(t: TagEnd) -> Option<MarkupTagEnd> {
    match t {
        TagEnd::Paragraph => Some(MarkupTagEnd::Paragraph),
        TagEnd::Heading(level) => Some(MarkupTagEnd::Heading(level as u8)),
        TagEnd::BlockQuote(k) => Some(MarkupTagEnd::BlockQuote(k.map(cmark_admonition))),
        TagEnd::CodeBlock => Some(MarkupTagEnd::CodeBlock),
        TagEnd::List(ordered) => Some(MarkupTagEnd::List(ordered)),
        TagEnd::Item => Some(MarkupTagEnd::Item),
        TagEnd::Emphasis => Some(MarkupTagEnd::Emphasis),
        TagEnd::Strong => Some(MarkupTagEnd::Strong),
        TagEnd::Strikethrough => Some(MarkupTagEnd::Strikethrough),
        TagEnd::Link => Some(MarkupTagEnd::Link),
        TagEnd::Image => Some(MarkupTagEnd::Image),
        _ => None,
    }
}

/// A GitHub-style block-quote kind as the admonition of the same name. Conversion only, under
/// `parse_cmark`.
#[verifier::external_body]
fn cmark_admonition(k: BlockQuoteKind) -> AdmonitionKind {
    match k {
        BlockQuoteKind::Note => AdmonitionKind::Note,
        BlockQuoteKind::Tip => AdmonitionKind::Tip,
        BlockQuoteKind::Important => AdmonitionKind::Important,
        BlockQuoteKind::Warning => AdmonitionKind::Warning,
        BlockQuoteKind::Caution => AdmonitionKind::Caution,
    }
}

/// The events among the items, in order.
pub open spec fn present_events(items: Seq<Option<MarkupEvent>>) -> Seq<MarkupEvent>
    decreases items.len(),
{
    if items.len() == 0 {
        Seq::empty()
    } else {
        let rest = present_events(items.drop_first());
        match items[0] {
            Some(e) => seq![e] + rest,
            None => rest,
        }
    }
}

/// The events among the items, in order.
pub fn take_present_events(items: Vec<Option<MarkupEvent>>) -> (r: Vec<MarkupEvent>)
    ensures
        r@ == present_events(items@),
{
    let ghost all = items@;
    let mut items = items;
    let mut out: Vec<MarkupEvent> = Vec::new();
    while items.len() > 0
        invariant
            out@ + present_events(items@) == present_events(all),
        decreases items.len(),
    {
        let ghost before = items@;
        let item = items.remove(0);
        assert(items@ =~= before.drop_first());
        match item {
            Some(e) => {
                assert(out@.push(e) + present_events(items@) =~= out@ + (seq![e] + present_events(items@)));
                out.push(e);
            },
            None => {},
        }
    }
    assert(out@ + present_events(items@) =~= out@);
    out
}

} // verus!
