//! Markdown text parsed by `pulldown-cmark` into the events the writer takes,
//! and rendered as styled lines or ANSI text.
use vstd::prelude::*;

use pulldown_cmark::{Event, Tag, TagEnd};

use super::style::{line_views, text_ansi, text_to_ansi, Color, Line};
use super::writer::{render_events, rendered_events, ColumnAlignment, HeadingLevel, MdEvent, MdTag, MdTagEnd};
use super::{sanitize_untrusted_text, sanitized};

verus! {

/// `pulldown_cmark::Event`, a parser event.
#[verifier::external_type_specification]
#[verifier::external_body]
pub struct ExEvent<'a>(Event<'a>);

/// `pulldown_cmark::TagEnd`, the end of an element.
#[verifier::external_type_specification]
#[verifier::external_body]
pub struct ExTagEnd(TagEnd);

/// `pulldown_cmark::Alignment`, a table column's alignment.
#[verifier::external_type_specification]
#[verifier::external_body]
pub struct ExAlignment(pulldown_cmark::Alignment);

/// Which kind of event a parser event is.
#[derive(Debug, Clone, Copy, PartialEq, Eq, Structural)]
pub enum EventKind {
    Start,
    End,
    Text,
    Code,
    InlineMath,
    DisplayMath,
    Html,
    InlineHtml,
    FootnoteReference,
    SoftBreak,
    HardBreak,
    Rule,
    TaskListMarker(bool),
}

/// The variant of a parser event, with a task marker's state.
pub uninterp spec fn event_kind_of(e: Event<'_>) -> EventKind;

/// The variant of a parser event, with the marker's state. The event is
/// opaque here, so the variant is named, not restated.
#[verifier::external_body]
fn event_kind<'a>(e: &Event<'a>) -> (r: EventKind)
    ensures
        r == event_kind_of(*e),
{
    match e {
        Event::Start(_) => EventKind::Start,
        Event::End(_) => EventKind::End,
        Event::Text(_) => EventKind::Text,
        Event::Code(_) => EventKind::Code,
        Event::InlineMath(_) => EventKind::InlineMath,
        Event::DisplayMath(_) => EventKind::DisplayMath,
        Event::Html(_) => EventKind::Html,
        Event::InlineHtml(_) => EventKind::InlineHtml,
        Event::FootnoteReference(_) => EventKind::FootnoteReference,
        Event::SoftBreak => EventKind::SoftBreak,
        Event::HardBreak => EventKind::HardBreak,
        Event::Rule => EventKind::Rule,
        Event::TaskListMarker(done) => EventKind::TaskListMarker(*done),
    }
}

/// The text a parser event carries (empty for events without text).
pub uninterp spec fn event_text_of(e: Event<'_>) -> Seq<char>;

/// The text a parser event carries (empty for events without text), named.
#[verifier::external_body]
fn event_text<'a>(e: &Event<'a>) -> (r: String)
    ensures
        r@ == event_text_of(*e),
{
    match e {
        Event::Text(s) | Event::Code(s) | Event::InlineMath(s) | Event::DisplayMath(s)
        | Event::Html(s) | Event::InlineHtml(s) | Event::FootnoteReference(s) => s.to_string(),
        _ => String::new(),
    }
}

/// The end matching a start event (`Tag::to_end`), or the end event itself;
/// none for other events.
pub uninterp spec fn event_tag_end_of(e: Event<'_>) -> Option<TagEnd>;

/// The end matching a start event (`Tag::to_end`), or the end event itself,
/// named.
#[verifier::external_body]
fn event_tag_end<'a>(e: &Event<'a>) -> (r: Option<TagEnd>)
    ensures
        r == event_tag_end_of(*e),
{
    match e {
        Event::Start(t) => Some(t.to_end()),
        Event::End(t) => Some(*t),
        _ => None,
    }
}

/// The first number of an ordered list's start event; none otherwise.
pub uninterp spec fn list_start_of(e: Event<'_>) -> Option<u64>;

/// The first number of an ordered list's start event, named.
#[verifier::external_body]
fn list_start<'a>(e: &Event<'a>) -> (r: Option<u64>)
    ensures
        r == list_start_of(*e),
{
    match e {
        Event::Start(Tag::List(start)) => *start,
        _ => None,
    }
}

/// The column alignments of a table's start event; none for other events.
pub uninterp spec fn table_alignments_of(e: Event<'_>) -> Seq<pulldown_cmark::Alignment>;

/// The column alignments of a table's start event, named.
#[verifier::external_body]
fn table_alignments<'a>(e: &Event<'a>) -> (r: Vec<pulldown_cmark::Alignment>)
    ensures
        r@ == table_alignments_of(*e),
{
    match e {
        Event::Start(Tag::Table(alignments)) => alignments.clone(),
        _ => Vec::new(),
    }
}

/// An alignment as the writer's own.
pub uninterp spec fn column_alignment(a: pulldown_cmark::Alignment) -> ColumnAlignment;

/// An alignment as the writer's own, named: each variant of the crate's
/// alignment to the writer's variant of the same name (`None` to `Unset`).
#[verifier::external_body]
fn alignment_of(a: &pulldown_cmark::Alignment) -> (r: ColumnAlignment)
    ensures
        r == column_alignment(*a),
{
    match a {
        pulldown_cmark::Alignment::None => ColumnAlignment::Unset,
        pulldown_cmark::Alignment::Left => ColumnAlignment::Left,
        pulldown_cmark::Alignment::Center => ColumnAlignment::Center,
        pulldown_cmark::Alignment::Right => ColumnAlignment::Right,
    }
}

/// A block element's end as the writer's own, if the writer styles it.
pub uninterp spec fn block_end_kind(t: TagEnd) -> Option<MdTagEnd>;

/// A block element's end as the writer's own, if the writer styles it; the
/// mapping of the crate's variants is named, not restated.
#[verifier::external_body]
fn block_end_of(t: &TagEnd) -> (r: Option<MdTagEnd>)
    ensures
        r == block_end_kind(*t),
{
    match t {
        TagEnd::Paragraph => Some(MdTagEnd::Paragraph),
        TagEnd::Heading(_) => Some(MdTagEnd::Heading),
        TagEnd::BlockQuote(_) => Some(MdTagEnd::BlockQuote),
        TagEnd::CodeBlock => Some(MdTagEnd::CodeBlock),
        TagEnd::List(_) => Some(MdTagEnd::List),
        TagEnd::Item => Some(MdTagEnd::Item),
        TagEnd::Table => Some(MdTagEnd::Table),
        _ => None,
    }
}

/// A table part's or inline element's end as the writer's own.
pub uninterp spec fn inline_end_kind(t: TagEnd) -> MdTagEnd;

/// A table part's or inline element's end as the writer's own (`Other` for
/// the rest); the mapping of the crate's variants is named, not restated.
#[verifier::external_body]
fn inline_end_of(t: &TagEnd) -> (r: MdTagEnd)
    ensures
        r == inline_end_kind(*t),
{
    match t {
        TagEnd::TableHead => MdTagEnd::TableHead,
        TagEnd::TableRow => MdTagEnd::TableRow,
        TagEnd::TableCell => MdTagEnd::TableCell,
        TagEnd::Emphasis => MdTagEnd::Emphasis,
        TagEnd::Strong => MdTagEnd::Strong,
        TagEnd::Strikethrough => MdTagEnd::Strikethrough,
        TagEnd::Link => MdTagEnd::Link,
        TagEnd::Image => MdTagEnd::Image,
        _ => MdTagEnd::Other,
    }
}

/// A heading end's level as its number (`H1` is 1, `H6` is 6); 1 for other
/// ends.
pub uninterp spec fn heading_number_of(t: TagEnd) -> u8;

/// A heading end's level as its number, named.
#[verifier::external_body]
fn heading_number(t: &TagEnd) -> (r: u8)
    ensures
        r == heading_number_of(*t),
{
    match t {
        TagEnd::Heading(level) => *level as u8,
        _ => 1,
    }
}

/// The writer's end for an element's end: the block end if the writer styles
/// the block, else the inline one.
pub open spec fn end_tag_of(t: TagEnd) -> MdTagEnd {
    match block_end_kind(t) {
        Some(k) => k,
        None => inline_end_kind(t),
    }
}

/// The writer's start tag `r` for a start event `e` whose end is `end`.
pub open spec fn start_tag_matches(e: Event<'_>, end: TagEnd, r: MdTag) -> bool {
    match end_tag_of(end) {
        MdTagEnd::Paragraph => r == MdTag::Paragraph,
        MdTagEnd::Heading => r == MdTag::Heading(heading_level_numbered(heading_number_of(end))),
        MdTagEnd::BlockQuote => r == MdTag::BlockQuote,
        MdTagEnd::CodeBlock => r == MdTag::CodeBlock,
        MdTagEnd::List => r == MdTag::List(list_start_of(e)),
        MdTagEnd::Item => r == MdTag::Item,
        MdTagEnd::Emphasis => r == MdTag::Emphasis,
        MdTagEnd::Strong => r == MdTag::Strong,
        MdTagEnd::Strikethrough => r == MdTag::Strikethrough,
        MdTagEnd::Link => r == MdTag::Link,
        MdTagEnd::Image => r == MdTag::Image,
        MdTagEnd::Table => r matches MdTag::Table(a) && a@ == table_alignments_of(e).map_values(
            |x: pulldown_cmark::Alignment| column_alignment(x),
        ),
        MdTagEnd::TableHead => r == MdTag::TableHead,
        MdTagEnd::TableRow => r == MdTag::TableRow,
        MdTagEnd::TableCell => r == MdTag::TableCell,
        MdTagEnd::Other => r == MdTag::Other,
    }
}

/// The writer's event `r` for a parser event `e`: starts and ends by their
/// element, text-carrying events with their text, the rest one for one.
pub open spec fn event_matches(e: Event<'_>, r: MdEvent) -> bool {
    match event_kind_of(e) {
        EventKind::Start => match event_tag_end_of(e) {
            Some(end) => r matches MdEvent::Start(t) && start_tag_matches(e, end, t),
            None => r == MdEvent::End(MdTagEnd::Other),
        },
        EventKind::End => match event_tag_end_of(e) {
            Some(end) => r == MdEvent::End(end_tag_of(end)),
            None => r == MdEvent::End(MdTagEnd::Other),
        },
        EventKind::Text => r matches MdEvent::Text(s) && s@ == event_text_of(e),
        EventKind::Code => r matches MdEvent::Code(s) && s@ == event_text_of(e),
        EventKind::InlineMath => r matches MdEvent::InlineMath(s) && s@ == event_text_of(e),
        EventKind::DisplayMath => r matches MdEvent::DisplayMath(s) && s@ == event_text_of(e),
        EventKind::Html => r matches MdEvent::Html(s) && s@ == event_text_of(e),
        EventKind::InlineHtml => r matches MdEvent::InlineHtml(s) && s@ == event_text_of(e),
        EventKind::FootnoteReference => r matches MdEvent::FootnoteReference(s) && s@
            == event_text_of(e),
        EventKind::SoftBreak => r == MdEvent::SoftBreak,
        EventKind::HardBreak => r == MdEvent::HardBreak,
        EventKind::Rule => r == MdEvent::Rule,
        EventKind::TaskListMarker(done) => r == MdEvent::TaskListMarker(done),
    }
}

/// The writer's end for an element's end.
fn end_of(t: &TagEnd) -> (r: MdTagEnd)
    ensures
        r == end_tag_of(*t),
{
    match block_end_of(t) {
        Some(k) => k,
        None => inline_end_of(t),
    }
}

/// The heading level numbered `n`: 1 or less is the first level, 6 or more
/// the sixth.
pub open spec fn heading_level_numbered(n: u8) -> HeadingLevel {
    if n <= 1 {
        HeadingLevel::H1
    } else if n == 2 {
        HeadingLevel::H2
    } else if n == 3 {
        HeadingLevel::H3
    } else if n == 4 {
        HeadingLevel::H4
    } else if n == 5 {
        HeadingLevel::H5
    } else {
        HeadingLevel::H6
    }
}

/// The heading level numbered `n`.
fn level_of(n: u8) -> (r: HeadingLevel)
    ensures
        r == heading_level_numbered(n),
{
    if n <= 1 {
        HeadingLevel::H1
    } else if n == 2 {
        HeadingLevel::H2
    } else if n == 3 {
        HeadingLevel::H3
    } else if n == 4 {
        HeadingLevel::H4
    } else if n == 5 {
        HeadingLevel::H5
    } else {
        HeadingLevel::H6
    }
}

/// The start of an element as the writer's own tag.
fn start_of<'a>(e: &Event<'a>, end: &TagEnd) -> (r: MdTag)
    ensures
        start_tag_matches(*e, *end, r),
{
    match end_of(end) {
        MdTagEnd::Paragraph => MdTag::Paragraph,
        MdTagEnd::Heading => MdTag::Heading(level_of(heading_number(end))),
        MdTagEnd::BlockQuote => MdTag::BlockQuote,
        MdTagEnd::CodeBlock => MdTag::CodeBlock,
        MdTagEnd::List => MdTag::List(list_start(e)),
        MdTagEnd::Item => MdTag::Item,
        MdTagEnd::Emphasis => MdTag::Emphasis,
        MdTagEnd::Strong => MdTag::Strong,
        MdTagEnd::Strikethrough => MdTag::Strikethrough,
        MdTagEnd::Link => MdTag::Link,
        MdTagEnd::Image => MdTag::Image,
        MdTagEnd::Table => {
            let raw = table_alignments(e);
            let mut alignments: Vec<ColumnAlignment> = Vec::new();
            let mut i: usize = 0;
            while i < raw.len()
                invariant
                    0 <= i <= raw.len(),
                    raw@ == table_alignments_of(*e),
                    alignments@ == raw@.take(i as int).map_values(
                        |x: pulldown_cmark::Alignment| column_alignment(x),
                    ),
                decreases raw.len() - i,
            {
                alignments.push(alignment_of(&raw[i]));
                proof {
                    assert(raw@.take(i + 1).map_values(
                        |x: pulldown_cmark::Alignment| column_alignment(x),
                    ) =~= raw@.take(i as int).map_values(
                        |x: pulldown_cmark::Alignment| column_alignment(x),
                    ).push(column_alignment(raw@[i as int])));
                }
                i += 1;
            }
            proof {
                assert(raw@.take(raw@.len() as int) =~= raw@);
            }
            MdTag::Table(alignments)
        },
        MdTagEnd::TableHead => MdTag::TableHead,
        MdTagEnd::TableRow => MdTag::TableRow,
        MdTagEnd::TableCell => MdTag::TableCell,
        MdTagEnd::Other => MdTag::Other,
    }
}

/// A parser event as the writer's own event.
fn md_event_of<'a>(e: &Event<'a>) -> (r: MdEvent)
    ensures
        event_matches(*e, r),
{
    match event_kind(e) {
        EventKind::Start | EventKind::End => match event_tag_end(e) {
            Some(end) => if event_kind(e) == EventKind::Start {
                MdEvent::Start(start_of(e, &end))
            } else {
                MdEvent::End(end_of(&end))
            },
            None => MdEvent::End(MdTagEnd::Other),
        },
        EventKind::Text => MdEvent::Text(event_text(e)),
        EventKind::Code => MdEvent::Code(event_text(e)),
        EventKind::InlineMath => MdEvent::InlineMath(event_text(e)),
        EventKind::DisplayMath => MdEvent::DisplayMath(event_text(e)),
        EventKind::Html => MdEvent::Html(event_text(e)),
        EventKind::InlineHtml => MdEvent::InlineHtml(event_text(e)),
        EventKind::FootnoteReference => MdEvent::FootnoteReference(event_text(e)),
        EventKind::SoftBreak => MdEvent::SoftBreak,
        EventKind::HardBreak => MdEvent::HardBreak,
        EventKind::Rule => MdEvent::Rule,
        EventKind::TaskListMarker(done) => MdEvent::TaskListMarker(done),
    }
}

/// The events `pulldown-cmark` parses from `markdown` (with strike-through
/// and tables enabled), as the writer's own events.
pub uninterp spec fn markdown_events(markdown: Seq<char>) -> Seq<MdEvent>;

/// `Parser::new_ext` with strike-through and tables, each event taken as the
/// writer's own. The events are named, not restated: CommonMark's grammar is
/// not written out here.
#[verifier::external_body]
fn parse_markdown(markdown: &str) -> (r: Vec<MdEvent>)
    ensures
        r@ == markdown_events(markdown@),
{
    let mut opts = pulldown_cmark::Options::empty();
    opts.insert(pulldown_cmark::Options::ENABLE_STRIKETHROUGH);
    opts.insert(pulldown_cmark::Options::ENABLE_TABLES);
    pulldown_cmark::Parser::new_ext(markdown, opts).map(|e| md_event_of(&e)).collect()
}

/// Markdown laid out as styled lines: the text is sanitized first, so no
/// escape sequence in it reaches the parser, then parsed and laid out.
pub fn render_lines(markdown: &str) -> (r: Vec<Line>)
    ensures
        line_views(r@) == rendered_events(markdown_events(sanitized(markdown@))),
{
    let clean = sanitize_untrusted_text(markdown);
    let events = parse_markdown(clean.as_str());
    render_events(&events)
}

/// The ANSI text of `markdown`: sanitized, parsed, laid out and rendered.
pub open spec fn markdown_ansi(markdown: Seq<char>) -> Seq<char> {
    text_ansi(rendered_events(markdown_events(sanitized(markdown))))
}

/// The colors of the spinner's states.
#[derive(Debug, Clone, Copy, PartialEq, Eq, Structural)]
pub struct ColorTheme {
    pub spinner_active: Color,
    pub spinner_done: Color,
    pub spinner_failed: Color,
}

impl Default for ColorTheme {
    /// Bright blue while working, bright green when done, bright red on
    /// failure.
    fn default() -> (t: Self)
        ensures
            t == (ColorTheme {
                spinner_active: Color::LightBlue,
                spinner_done: Color::LightGreen,
                spinner_failed: Color::LightRed,
            }),
    {
        ColorTheme {
            spinner_active: Color::LightBlue,
            spinner_done: Color::LightGreen,
            spinner_failed: Color::LightRed,
        }
    }
}

/// Renders Markdown for the terminal, and holds the spinner's colors.
#[derive(Debug, Clone, Copy, PartialEq, Eq, Structural)]
pub struct TerminalRenderer {
    color_theme: ColorTheme,
}

impl TerminalRenderer {
    /// The spinner's colors.
    pub closed spec fn theme(&self) -> ColorTheme {
        self.color_theme
    }
}

impl Default for TerminalRenderer {
    /// A renderer with the default colors.
    fn default() -> (r: Self)
        ensures
            r.theme() == (ColorTheme {
                spinner_active: Color::LightBlue,
                spinner_done: Color::LightGreen,
                spinner_failed: Color::LightRed,
            }),
    {
        TerminalRenderer { color_theme: ColorTheme::default() }
    }
}

impl TerminalRenderer {
    /// A renderer with the default colors.
    pub fn new() -> (r: Self)
        ensures
            r.theme() == (ColorTheme {
                spinner_active: Color::LightBlue,
                spinner_done: Color::LightGreen,
                spinner_failed: Color::LightRed,
            }),
    {
        TerminalRenderer::default()
    }

    /// The spinner's colors.
    pub fn color_theme(&self) -> (t: &ColorTheme)
        ensures
            *t == self.theme(),
    {
        &self.color_theme
    }

    /// Markdown rendered as ANSI text.
    pub fn markdown_to_ansi(&self, markdown: &str) -> (r: String)
        ensures
            r@ == markdown_ansi(markdown@),
    {
        let lines = render_lines(markdown);
        text_to_ansi(lines.as_slice())
    }
}

} // verus!
