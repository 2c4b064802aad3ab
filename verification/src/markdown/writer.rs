//! Markdown events laid out as styled terminal lines: headings, paragraphs,
//! quotes, lists, code blocks and tables.
use vstd::prelude::*;

use super::style::{
    line_views, mods_union, no_mods, patched, plain_style, span_views, Color, Line, LineView,
    Modifiers, Span, SpanView, Style,
};
use super::{sanitize_untrusted_text, sanitized};
use crate::compact::key_files::{split_words, words};
use crate::text::{chars_of, dec, join, join_vecs, push_dec, split_chars, split_on, string_of, vviews};

verus! {

/// A heading's level.
#[derive(Debug, Clone, Copy, PartialEq, Eq, Structural)]
pub enum HeadingLevel {
    H1,
    H2,
    H3,
    H4,
    H5,
    H6,
}

/// How a table column is aligned.
#[derive(Debug, Clone, Copy, PartialEq, Eq, Structural)]
pub enum ColumnAlignment {
    /// No alignment given: laid out as left.
    Unset,
    Left,
    Center,
    Right,
}

/// The start of a Markdown element.
#[derive(Debug, Clone, PartialEq, Eq)]
pub enum MdTag {
    Paragraph,
    Heading(HeadingLevel),
    BlockQuote,
    CodeBlock,
    /// A list; ordered lists carry the number of their first item.
    List(Option<u64>),
    Item,
    Emphasis,
    Strong,
    Strikethrough,
    Link,
    Image,
    Table(Vec<ColumnAlignment>),
    TableHead,
    TableRow,
    TableCell,
    /// An element the renderer does not style.
    Other,
}

/// The end of a Markdown element.
#[derive(Debug, Clone, Copy, PartialEq, Eq, Structural)]
pub enum MdTagEnd {
    Paragraph,
    Heading,
    BlockQuote,
    CodeBlock,
    List,
    Item,
    Emphasis,
    Strong,
    Strikethrough,
    Link,
    Image,
    Table,
    TableHead,
    TableRow,
    TableCell,
    Other,
}

/// One event of a parsed Markdown document.
#[derive(Debug, Clone, PartialEq, Eq)]
pub enum MdEvent {
    Start(MdTag),
    End(MdTagEnd),
    Text(String),
    Code(String),
    InlineMath(String),
    DisplayMath(String),
    Html(String),
    InlineHtml(String),
    FootnoteReference(String),
    SoftBreak,
    HardBreak,
    Rule,
    TaskListMarker(bool),
}

/// The display width of `s` in terminal columns, as `unicode-width`
/// measures it.
pub uninterp spec fn unicode_width(s: Seq<char>) -> usize;

/// `UnicodeWidthStr::width`: the columns `s` takes on a terminal (East Asian
/// ambiguous characters counted as one). Named, not restated: the width
/// tables are not written out here.
#[verifier::external_body]
fn display_width(s: &str) -> (r: usize)
    ensures
        r == unicode_width(s@),
{
    unicode_width::UnicodeWidthStr::width(s)
}

// ---------------------------------------------------------------------------
// The writer's state as values
// ---------------------------------------------------------------------------

/// The indentation a list item gives its lines: the first line gets the
/// marker, later lines the same width of blanks.
#[verifier::ext_equal]
pub struct IndentView {
    pub first: Seq<SpanView>,
    pub continuation: Seq<SpanView>,
    pub first_pending: bool,
}

/// A table being collected.
#[verifier::ext_equal]
pub struct TableView {
    pub alignments: Seq<ColumnAlignment>,
    pub header: Option<Seq<Seq<char>>>,
    pub rows: Seq<Seq<Seq<char>>>,
    pub current_row: Seq<Seq<char>>,
    pub current_cell: Seq<char>,
    pub in_head: bool,
}

/// Everything the writer holds between two events.
#[verifier::ext_equal]
pub struct WriterView {
    pub lines: Seq<LineView>,
    pub current_spans: Seq<SpanView>,
    pub inline_styles: Seq<Style>,
    pub list_indices: Seq<Option<u64>>,
    pub indent_stack: Seq<IndentView>,
    pub in_code_block: bool,
    pub code_block_buffer: Seq<char>,
    pub needs_newline: bool,
    pub in_paragraph: bool,
    pub table_state: Option<TableView>,
    pub heading_level: Option<HeadingLevel>,
    pub blockquote_depth: nat,
}

/// The writer before any event.
pub open spec fn initial_writer() -> WriterView {
    WriterView {
        lines: seq![],
        current_spans: seq![],
        inline_styles: seq![],
        list_indices: seq![],
        indent_stack: seq![],
        in_code_block: false,
        code_block_buffer: seq![],
        needs_newline: false,
        in_paragraph: false,
        table_state: None,
        heading_level: None,
        blockquote_depth: 0,
    }
}

// ---------------------------------------------------------------------------
// Styles and small pieces
// ---------------------------------------------------------------------------

/// A line with no spans.
pub open spec fn empty_line() -> LineView {
    LineView { spans: seq![], style: plain_style() }
}

/// `text` in `style`.
pub open spec fn span_of(text: Seq<char>, style: Style) -> SpanView {
    SpanView { content: text, style }
}

/// `s` with foreground `c`.
pub open spec fn with_fg(s: Style, c: Color) -> Style {
    Style { fg: Some(c), ..s }
}

/// The plain style adding the modifiers `m`.
pub open spec fn adding(m: Modifiers) -> Style {
    Style { fg: None, bg: None, add_modifier: m, sub_modifier: no_mods() }
}

/// Only bold.
pub open spec fn bold() -> Modifiers {
    Modifiers { bold: true, ..no_mods() }
}

/// Only dim.
pub open spec fn dim() -> Modifiers {
    Modifiers { dim: true, ..no_mods() }
}

/// Only italic.
pub open spec fn italic() -> Modifiers {
    Modifiers { italic: true, ..no_mods() }
}

/// Only underlined.
pub open spec fn underlined() -> Modifiers {
    Modifiers { underlined: true, ..no_mods() }
}

/// Only crossed out.
pub open spec fn crossed_out() -> Modifiers {
    Modifiers { crossed_out: true, ..no_mods() }
}

/// The style of a heading.
pub open spec fn heading_style(level: HeadingLevel) -> Style {
    match level {
        HeadingLevel::H1 => adding(mods_union(bold(), underlined())),
        HeadingLevel::H2 => adding(bold()),
        HeadingLevel::H3 => adding(mods_union(bold(), italic())),
        _ => adding(italic()),
    }
}

/// The number of a heading level.
pub open spec fn heading_number(level: HeadingLevel) -> nat {
    match level {
        HeadingLevel::H1 => 1,
        HeadingLevel::H2 => 2,
        HeadingLevel::H3 => 3,
        HeadingLevel::H4 => 4,
        HeadingLevel::H5 => 5,
        HeadingLevel::H6 => 6,
    }
}

/// `n` copies of `c`.
pub open spec fn repeat_char(c: char, n: nat) -> Seq<char> {
    Seq::new(n, |i: int| c)
}

/// The styles laid over each other, first to last, on the plain style.
pub open spec fn styles_applied(s: Seq<Style>) -> Style
    decreases s.len(),
{
    if s.len() == 0 {
        plain_style()
    } else {
        patched(styles_applied(s.drop_last()), s.last())
    }
}

/// The style text gets now: the open inline styles applied in order.
pub open spec fn current_style(w: WriterView) -> Style {
    styles_applied(w.inline_styles)
}

// ---------------------------------------------------------------------------
// Steps
// ---------------------------------------------------------------------------

/// Ends the line being built, if it has spans; with `force_empty`, an empty
/// line is added when it has none.
pub open spec fn flushed(w: WriterView, force_empty: bool) -> WriterView {
    if w.current_spans.len() == 0 {
        if force_empty {
            WriterView { lines: w.lines.push(empty_line()), ..w }
        } else {
            w
        }
    } else {
        WriterView {
            lines: w.lines.push(LineView { spans: w.current_spans, style: plain_style() }),
            current_spans: seq![],
            ..w
        }
    }
}

/// Adds a blank line unless there are no lines or the last one is blank.
pub open spec fn blank_pushed(w: WriterView) -> WriterView {
    if w.lines.len() > 0 && w.lines.last().spans.len() > 0 {
        WriterView { lines: w.lines.push(empty_line()), ..w }
    } else {
        w
    }
}

/// Starts a block: ends the current line, and separates the block from the
/// previous one when that one asked for it.
pub open spec fn block_begun(w: WriterView) -> WriterView {
    let w1 = flushed(w, false);
    let w2 = if w1.needs_newline {
        blank_pushed(w1)
    } else {
        w1
    };
    WriterView { needs_newline: false, ..w2 }
}

/// One `> ` marker per open quote.
pub open spec fn quote_spans(depth: nat) -> Seq<SpanView> {
    Seq::new(depth, |i: int| span_of("> "@, with_fg(plain_style(), Color::Green)))
}

/// The indentation spans of the open list items: a pending first line gets
/// the marker, other lines the blanks.
pub open spec fn indent_spans(stack: Seq<IndentView>) -> Seq<SpanView>
    decreases stack.len(),
{
    if stack.len() == 0 {
        seq![]
    } else {
        indent_spans(stack.drop_last()) + if stack.last().first_pending {
            stack.last().first
        } else {
            stack.last().continuation
        }
    }
}

/// The open list items, with their first lines done.
pub open spec fn indents_used(stack: Seq<IndentView>) -> Seq<IndentView> {
    stack.map_values(|c: IndentView| IndentView { first_pending: false, ..c })
}

/// Starts a line with the quote markers and list indentation, if it is not
/// started yet.
pub open spec fn prefixed(w: WriterView) -> WriterView {
    if w.current_spans.len() > 0 {
        w
    } else {
        WriterView {
            current_spans: quote_spans(w.blockquote_depth) + indent_spans(w.indent_stack),
            indent_stack: indents_used(w.indent_stack),
            ..w
        }
    }
}

/// Adds `text` in `style` to the current line (nothing for empty text).
pub open spec fn styled_pushed(w: WriterView, text: Seq<char>, style: Style) -> WriterView {
    if text.len() == 0 {
        w
    } else {
        let w1 = prefixed(w);
        WriterView { current_spans: w1.current_spans.push(span_of(text, style)), ..w1 }
    }
}

/// Adds untrusted text, sanitized, in the current style.
pub open spec fn text_pushed(w: WriterView, text: Seq<char>) -> WriterView {
    styled_pushed(w, sanitized(text), current_style(w))
}

/// A horizontal rule: its own block, forty dim box-drawing dashes.
pub open spec fn rule_pushed(w: WriterView) -> WriterView {
    let w1 = block_begun(w);
    let w2 = styled_pushed(w1, repeat_char('─', 40), adding(dim()));
    WriterView { needs_newline: true, ..flushed(w2, false) }
}

/// The marker of a list item: its number and a dot, or a dash.
pub open spec fn item_marker(index: Option<u64>) -> Seq<char> {
    match index {
        Some(i) => dec(i as nat) + ". "@,
        None => "- "@,
    }
}

/// The number of the current list's next item, if it is ordered.
pub open spec fn current_index(w: WriterView) -> Option<u64> {
    if w.list_indices.len() > 0 {
        w.list_indices.last()
    } else {
        None
    }
}

/// The indentation of a new item: four blanks per enclosing list.
pub open spec fn base_indent(w: WriterView) -> nat {
    if w.list_indices.len() > 0 {
        ((w.list_indices.len() - 1) * 4) as nat
    } else {
        0
    }
}

/// The indentation context of a new list item.
pub open spec fn item_indent(w: WriterView) -> IndentView {
    let base = base_indent(w);
    let marker = item_marker(current_index(w));
    let marker_style = if current_index(w) is Some {
        with_fg(plain_style(), Color::LightBlue)
    } else {
        plain_style()
    };
    IndentView {
        first: (if base > 0 {
            seq![span_of(repeat_char(' ', base), plain_style())]
        } else {
            seq![]
        }).push(span_of(marker, marker_style)),
        continuation: seq![span_of(repeat_char(' ', base + marker.len()), plain_style())],
        first_pending: true,
    }
}

/// Starts a list item.
pub open spec fn item_started(w: WriterView) -> WriterView {
    let w1 = flushed(w, false);
    WriterView { indent_stack: w1.indent_stack.push(item_indent(w1)), ..w1 }
}

/// Ends a list item; an ordered list moves on to its next number (past the
/// largest `u64` it wraps to zero, as a release build of `+= 1` does).
pub open spec fn item_finished(w: WriterView) -> WriterView {
    let w1 = flushed(w, false);
    let stack = if w1.indent_stack.len() > 0 {
        w1.indent_stack.drop_last()
    } else {
        w1.indent_stack
    };
    let indices = match current_index(w1) {
        Some(i) => w1.list_indices.update(
            w1.list_indices.len() - 1,
            Some(if i < u64::MAX { (i + 1) as u64 } else { 0u64 }),
        ),
        None => w1.list_indices,
    };
    WriterView {
        indent_stack: stack,
        list_indices: indices,
        in_paragraph: false,
        needs_newline: false,
        ..w1
    }
}

/// The lines of a code block's text (`str::split_terminator('\n')`).
pub open spec fn code_lines(code: Seq<char>) -> Seq<Seq<char>> {
    if code.len() > 0 && code.last() == '\n' {
        split_on(code, '\n').drop_last()
    } else {
        split_on(code, '\n')
    }
}

/// Each of `ls` as a line of its own in `style`.
pub open spec fn lines_pushed(w: WriterView, ls: Seq<Seq<char>>, style: Style) -> WriterView
    decreases ls.len(),
{
    if ls.len() == 0 {
        w
    } else {
        flushed(styled_pushed(lines_pushed(w, ls.drop_last(), style), ls.last(), style), false)
    }
}

/// Ends a code block: its text as cyan lines (an empty block gives one
/// empty line).
pub open spec fn code_emitted(w: WriterView) -> WriterView {
    let code = w.code_block_buffer;
    let w0 = WriterView { code_block_buffer: seq![], in_code_block: false, ..w };
    let style = with_fg(plain_style(), Color::Cyan);
    if code.len() == 0 {
        WriterView { needs_newline: true, ..flushed(w0, true) }
    } else {
        WriterView { needs_newline: true, ..lines_pushed(w0, code_lines(code), style) }
    }
}

// ---------------------------------------------------------------------------
// Tables
// ---------------------------------------------------------------------------

/// A cell's text with its whitespace runs collapsed to single blanks.
pub open spec fn normalized_cell(cell: Seq<char>) -> Seq<char> {
    join(words(cell), " "@)
}

/// The header (if any) and the rows, in order.
pub open spec fn table_rows(t: TableView) -> Seq<Seq<Seq<char>>> {
    match t.header {
        Some(h) => seq![h] + t.rows,
        None => t.rows,
    }
}

/// The largest of the row lengths and `n`.
pub open spec fn max_len(rows: Seq<Seq<Seq<char>>>, n: nat) -> nat
    decreases rows.len(),
{
    if rows.len() == 0 {
        n
    } else {
        let m = max_len(rows.drop_last(), n);
        if rows.last().len() > m {
            rows.last().len()
        } else {
            m
        }
    }
}

/// The number of columns: the widest row, header or alignment list.
pub open spec fn column_count(t: TableView) -> nat {
    max_len(table_rows(t), t.alignments.len())
}

/// The column widths after measuring `row`.
pub open spec fn widths_with(widths: Seq<nat>, row: Seq<Seq<char>>) -> Seq<nat> {
    Seq::new(
        widths.len(),
        |j: int|
            if j < row.len() && unicode_width(row[j]) > widths[j] {
                unicode_width(row[j]) as nat
            } else {
                widths[j]
            },
    )
}

/// The column widths after measuring `rows`, from `start`.
pub open spec fn widths_over(start: Seq<nat>, rows: Seq<Seq<Seq<char>>>) -> Seq<nat>
    decreases rows.len(),
{
    if rows.len() == 0 {
        start
    } else {
        widths_with(widths_over(start, rows.drop_last()), rows.last())
    }
}

/// Each column's width: the widest of its cells.
pub open spec fn column_widths(t: TableView) -> Seq<nat> {
    widths_over(Seq::new(column_count(t), |j: int| 0nat), table_rows(t))
}

/// A dim border line: `left`, then per column dashes two wider than the
/// column and `middle` (`right` after the last column).
pub open spec fn border_line(widths: Seq<nat>, left: char, middle: char, right: char) -> LineView {
    let dimmed = adding(dim());
    LineView {
        spans: seq![span_of(seq![left], dimmed)] + border_cells(widths, 0, middle, right),
        style: plain_style(),
    }
}

/// The border spans of columns `from..`.
pub open spec fn border_cells(widths: Seq<nat>, from: nat, middle: char, right: char) -> Seq<
    SpanView,
>
    decreases widths.len() - from,
{
    if from >= widths.len() {
        seq![]
    } else {
        let dimmed = adding(dim());
        seq![
            span_of(repeat_char('─', widths[from as int] + 2), dimmed),
            span_of(
                seq![if from + 1 == widths.len() {
                    right
                } else {
                    middle
                }],
                dimmed,
            ),
        ] + border_cells(widths, from + 1, middle, right)
    }
}

/// `cell` padded to `width` columns as `alignment` says.
pub open spec fn padded_cell(cell: Seq<char>, width: nat, alignment: ColumnAlignment) -> Seq<char> {
    let cw = unicode_width(cell) as nat;
    let padding: nat = if width > cw {
        (width - cw) as nat
    } else {
        0
    };
    let (left, right) = match alignment {
        ColumnAlignment::Right => (padding, 0nat),
        ColumnAlignment::Center => (padding / 2, (padding - padding / 2) as nat),
        _ => (0nat, padding),
    };
    repeat_char(' ', left) + cell + repeat_char(' ', right)
}

/// The spans of columns `from..` of a table row.
pub open spec fn row_cells(
    row: Seq<Seq<char>>,
    widths: Seq<nat>,
    alignments: Seq<ColumnAlignment>,
    from: nat,
) -> Seq<SpanView>
    decreases widths.len() - from,
{
    if from >= widths.len() {
        seq![]
    } else {
        let cell = if from < row.len() {
            row[from as int]
        } else {
            seq![]
        };
        let alignment = if from < alignments.len() {
            alignments[from as int]
        } else {
            ColumnAlignment::Unset
        };
        seq![
            span_of(" "@, plain_style()),
            span_of(padded_cell(cell, widths[from as int], alignment), plain_style()),
            span_of(" "@, plain_style()),
            span_of("│"@, adding(dim())),
        ] + row_cells(row, widths, alignments, from + 1)
    }
}

/// A table row line.
pub open spec fn row_line(row: Seq<Seq<char>>, widths: Seq<nat>, alignments: Seq<ColumnAlignment>) -> LineView {
    LineView {
        spans: seq![span_of("│"@, adding(dim()))] + row_cells(row, widths, alignments, 0),
        style: plain_style(),
    }
}

/// The lines of the body rows.
pub open spec fn body_lines(rows: Seq<Seq<Seq<char>>>, widths: Seq<nat>, alignments: Seq<ColumnAlignment>) -> Seq<
    LineView,
> {
    rows.map_values(|r: Seq<Seq<char>>| row_line(r, widths, alignments))
}

/// The lines of a table: top border, header and its separator (if any),
/// rows, bottom border.
pub open spec fn table_lines(t: TableView) -> Seq<LineView> {
    let widths = column_widths(t);
    seq![border_line(widths, '┌', '┬', '┐')] + (match t.header {
        Some(h) => seq![row_line(h, widths, t.alignments), border_line(widths, '├', '┼', '┤')],
        None => seq![],
    }) + body_lines(t.rows, widths, t.alignments) + seq![border_line(widths, '└', '┴', '┘')]
}

/// Ends the table being collected: its lines are added, unless it has no
/// column.
pub open spec fn table_rendered(w: WriterView) -> WriterView {
    match w.table_state {
        None => w,
        Some(t) => {
            let w0 = WriterView { table_state: None, ..w };
            if column_count(t) == 0 {
                w0
            } else {
                WriterView { lines: w0.lines + table_lines(t), ..w0 }
            }
        },
    }
}

// ---------------------------------------------------------------------------
// Events
// ---------------------------------------------------------------------------

/// A new, empty table with column alignments `a`.
pub open spec fn new_table(a: Seq<ColumnAlignment>) -> TableView {
    TableView {
        alignments: a,
        header: None,
        rows: seq![],
        current_row: seq![],
        current_cell: seq![],
        in_head: false,
    }
}

/// The writer after the start of element `tag`.
pub open spec fn started(w: WriterView, tag: MdTag) -> WriterView {
    match tag {
        MdTag::Paragraph => {
            let w1 = if w.list_indices.len() == 0 {
                block_begun(w)
            } else {
                w
            };
            WriterView { in_paragraph: true, ..w1 }
        },
        MdTag::Heading(level) => {
            let w1 = block_begun(w);
            let style = heading_style(level);
            let w2 = WriterView {
                heading_level: Some(level),
                inline_styles: w1.inline_styles.push(style),
                ..w1
            };
            styled_pushed(w2, repeat_char('#', heading_number(level)) + " "@, style)
        },
        MdTag::BlockQuote => {
            let w1 = block_begun(w);
            WriterView { blockquote_depth: w1.blockquote_depth + 1, ..w1 }
        },
        MdTag::CodeBlock => {
            let w1 = block_begun(w);
            WriterView { in_code_block: true, code_block_buffer: seq![], ..w1 }
        },
        MdTag::List(start) => {
            let w1 = if w.current_spans.len() == 0 && w.needs_newline && w.list_indices.len() == 0
                && !w.in_paragraph {
                WriterView { needs_newline: false, ..blank_pushed(w) }
            } else if w.current_spans.len() > 0 {
                flushed(w, false)
            } else {
                w
            };
            WriterView { list_indices: w1.list_indices.push(start), ..w1 }
        },
        MdTag::Item => item_started(w),
        MdTag::Emphasis => WriterView { inline_styles: w.inline_styles.push(adding(italic())), ..w },
        MdTag::Strong => WriterView { inline_styles: w.inline_styles.push(adding(bold())), ..w },
        MdTag::Strikethrough => WriterView {
            inline_styles: w.inline_styles.push(adding(crossed_out())),
            ..w
        },
        MdTag::Link | MdTag::Image => WriterView {
            inline_styles: w.inline_styles.push(with_fg(adding(underlined()), Color::Cyan)),
            ..w
        },
        MdTag::Table(a) => {
            let w1 = block_begun(w);
            WriterView { table_state: Some(new_table(a@)), ..w1 }
        },
        _ => w,
    }
}

/// The inline styles with the innermost one closed.
pub open spec fn style_popped(w: WriterView) -> WriterView {
    if w.inline_styles.len() > 0 {
        WriterView { inline_styles: w.inline_styles.drop_last(), ..w }
    } else {
        w
    }
}

/// The writer after the end of element `tag`.
pub open spec fn ended(w: WriterView, tag: MdTagEnd) -> WriterView {
    match tag {
        MdTagEnd::Paragraph => {
            let w1 = flushed(WriterView { in_paragraph: false, ..w }, false);
            if w1.list_indices.len() == 0 {
                WriterView { needs_newline: true, ..w1 }
            } else {
                w1
            }
        },
        MdTagEnd::Heading => {
            let w1 = WriterView { heading_level: None, ..style_popped(w) };
            WriterView { needs_newline: true, ..flushed(w1, false) }
        },
        MdTagEnd::BlockQuote => {
            let w1 = flushed(w, false);
            WriterView {
                blockquote_depth: if w1.blockquote_depth > 0 {
                    (w1.blockquote_depth - 1) as nat
                } else {
                    0
                },
                needs_newline: true,
                ..w1
            }
        },
        MdTagEnd::CodeBlock => code_emitted(w),
        MdTagEnd::List => {
            let w1 = flushed(w, false);
            let w2 = WriterView {
                list_indices: if w1.list_indices.len() > 0 {
                    w1.list_indices.drop_last()
                } else {
                    w1.list_indices
                },
                ..w1
            };
            if w2.list_indices.len() == 0 {
                WriterView { needs_newline: true, ..w2 }
            } else {
                w2
            }
        },
        MdTagEnd::Item => item_finished(w),
        MdTagEnd::Emphasis | MdTagEnd::Strong | MdTagEnd::Strikethrough | MdTagEnd::Link
        | MdTagEnd::Image => style_popped(w),
        MdTagEnd::Table => WriterView { needs_newline: true, ..table_rendered(w) },
        _ => w,
    }
}

/// The writer after `e` inside a code block: text is collected verbatim,
/// line breaks as newlines, until the block ends.
pub open spec fn code_event(w: WriterView, e: MdEvent) -> WriterView {
    match e {
        MdEvent::End(MdTagEnd::CodeBlock) => code_emitted(w),
        MdEvent::Text(t) | MdEvent::Code(t) | MdEvent::Html(t) | MdEvent::InlineHtml(t) => WriterView {
            code_block_buffer: w.code_block_buffer + t@,
            ..w
        },
        MdEvent::SoftBreak | MdEvent::HardBreak => WriterView {
            code_block_buffer: w.code_block_buffer.push('\n'),
            ..w
        },
        _ => w,
    }
}

/// The table after `e`, while one is being collected: rows and cells are
/// gathered, cell text verbatim with line breaks as blanks.
pub open spec fn table_step(t: TableView, e: MdEvent) -> TableView {
    match e {
        MdEvent::Start(MdTag::TableHead) => TableView { in_head: true, ..t },
        MdEvent::End(MdTagEnd::TableHead) => TableView { in_head: false, ..t },
        MdEvent::Start(MdTag::TableRow) => TableView { current_row: seq![], ..t },
        MdEvent::End(MdTagEnd::TableRow) => if t.in_head {
            TableView { header: Some(t.current_row), current_row: seq![], ..t }
        } else {
            TableView { rows: t.rows.push(t.current_row), current_row: seq![], ..t }
        },
        MdEvent::Start(MdTag::TableCell) => TableView { current_cell: seq![], ..t },
        MdEvent::End(MdTagEnd::TableCell) => TableView {
            current_row: t.current_row.push(normalized_cell(t.current_cell)),
            current_cell: seq![],
            ..t
        },
        MdEvent::Text(s) | MdEvent::Code(s) | MdEvent::Html(s) | MdEvent::InlineHtml(s)
        | MdEvent::InlineMath(s) | MdEvent::DisplayMath(s) => TableView {
            current_cell: t.current_cell + s@,
            ..t
        },
        MdEvent::SoftBreak | MdEvent::HardBreak => TableView {
            current_cell: t.current_cell.push(' '),
            ..t
        },
        _ => t,
    }
}

/// The writer after `e` while a table is being collected: the end of the
/// table renders it.
pub open spec fn table_event(w: WriterView, t: TableView, e: MdEvent) -> WriterView {
    match e {
        MdEvent::End(MdTagEnd::Table) => WriterView { needs_newline: true, ..table_rendered(w) },
        _ => WriterView { table_state: Some(table_step(t, e)), ..w },
    }
}

/// The text of a task list marker.
pub open spec fn task_marker(done: bool) -> Seq<char> {
    if done {
        "[x] "@
    } else {
        "[ ] "@
    }
}

/// The writer after event `e`.
pub open spec fn step(w: WriterView, e: MdEvent) -> WriterView {
    if w.in_code_block {
        code_event(w, e)
    } else if w.table_state is Some {
        table_event(w, w.table_state.unwrap(), e)
    } else {
        match e {
            MdEvent::Start(tag) => started(w, tag),
            MdEvent::End(tag) => ended(w, tag),
            MdEvent::Text(t) | MdEvent::InlineMath(t) | MdEvent::DisplayMath(t) => text_pushed(w, t@),
            MdEvent::Code(c) => styled_pushed(w, c@, with_fg(current_style(w), Color::Cyan)),
            MdEvent::Html(h) | MdEvent::InlineHtml(h) => text_pushed(w, h@),
            MdEvent::SoftBreak => text_pushed(w, " "@),
            MdEvent::HardBreak => flushed(w, false),
            MdEvent::Rule => rule_pushed(w),
            MdEvent::TaskListMarker(done) => text_pushed(w, task_marker(done)),
            MdEvent::FootnoteReference(l) => text_pushed(w, "["@ + l@ + "]"@),
        }
    }
}

/// The writer after the events, in order.
pub open spec fn steps(w: WriterView, es: Seq<MdEvent>) -> WriterView
    decreases es.len(),
{
    if es.len() == 0 {
        w
    } else {
        step(steps(w, es.drop_last()), es.last())
    }
}

/// The lines once the events are done: an open code block is closed and the
/// last line ended.
pub open spec fn finished(w: WriterView) -> Seq<LineView> {
    let w1 = if w.in_code_block {
        code_emitted(w)
    } else {
        w
    };
    flushed(w1, false).lines
}

/// The lines rendered from a Markdown event stream.
pub open spec fn rendered_events(es: Seq<MdEvent>) -> Seq<LineView> {
    finished(steps(initial_writer(), es))
}

// ---------------------------------------------------------------------------
// The writer
// ---------------------------------------------------------------------------

/// The indentation of an open list item.
#[derive(Debug)]
struct IndentCtx {
    first: Vec<Span>,
    continuation: Vec<Span>,
    first_pending: bool,
}

impl View for IndentCtx {
    type V = IndentView;

    closed spec fn view(&self) -> IndentView {
        IndentView {
            first: span_views(self.first@),
            continuation: span_views(self.continuation@),
            first_pending: self.first_pending,
        }
    }
}

/// The views of the indentation contexts.
pub closed spec fn indent_views(s: Seq<IndentCtx>) -> Seq<IndentView> {
    s.map_values(|c: IndentCtx| c@)
}

/// A table being collected.
#[derive(Debug)]
struct TableState {
    alignments: Vec<ColumnAlignment>,
    header: Option<Vec<String>>,
    rows: Vec<Vec<String>>,
    current_row: Vec<String>,
    current_cell: Vec<char>,
    in_head: bool,
}

/// The views of the rows.
pub open spec fn rows_views(rows: Seq<Vec<String>>) -> Seq<Seq<Seq<char>>> {
    rows.map_values(|r: Vec<String>| crate::text::views(r@))
}

impl View for TableState {
    type V = TableView;

    closed spec fn view(&self) -> TableView {
        TableView {
            alignments: self.alignments@,
            header: match self.header {
                Some(h) => Some(crate::text::views(h@)),
                None => None,
            },
            rows: rows_views(self.rows@),
            current_row: crate::text::views(self.current_row@),
            current_cell: self.current_cell@,
            in_head: self.in_head,
        }
    }
}

/// Lays out Markdown events as styled lines.
#[derive(Debug)]
pub struct MdWriter {
    lines: Vec<Line>,
    current_spans: Vec<Span>,
    inline_styles: Vec<Style>,
    list_indices: Vec<Option<u64>>,
    indent_stack: Vec<IndentCtx>,
    in_code_block: bool,
    code_block_buffer: Vec<char>,
    needs_newline: bool,
    in_paragraph: bool,
    table_state: Option<TableState>,
    heading_level: Option<HeadingLevel>,
    blockquote_depth: usize,
}

impl View for MdWriter {
    type V = WriterView;

    closed spec fn view(&self) -> WriterView {
        WriterView {
            lines: line_views(self.lines@),
            current_spans: span_views(self.current_spans@),
            inline_styles: self.inline_styles@,
            list_indices: self.list_indices@,
            indent_stack: indent_views(self.indent_stack@),
            in_code_block: self.in_code_block,
            code_block_buffer: self.code_block_buffer@,
            needs_newline: self.needs_newline,
            in_paragraph: self.in_paragraph,
            table_state: match self.table_state {
                Some(t) => Some(t@),
                None => None,
            },
            heading_level: self.heading_level,
            blockquote_depth: self.blockquote_depth as nat,
        }
    }
}

fn copy_string(s: &String) -> (r: String)
    ensures
        r@ == s@,
{
    string_of(&chars_of(s.as_str()))
}

fn clone_span(s: &Span) -> (r: Span)
    ensures
        r@ == s@,
{
    Span { content: copy_string(&s.content), style: s.style }
}

fn clone_spans(v: &Vec<Span>) -> (r: Vec<Span>)
    ensures
        span_views(r@) == span_views(v@),
{
    let mut r: Vec<Span> = Vec::new();
    let mut i: usize = 0;
    while i < v.len()
        invariant
            0 <= i <= v.len(),
            span_views(r@) == span_views(v@).take(i as int),
        decreases v.len() - i,
    {
        let ghost r0 = r@;
        r.push(clone_span(&v[i]));
        assert(span_views(r@) =~= span_views(r0).push(v@[i as int]@));
        assert(span_views(v@).take(i + 1) =~= span_views(v@).take(i as int).push(v@[i as int]@));
        i += 1;
    }
    assert(span_views(v@).take(v.len() as int) =~= span_views(v@));
    r
}

fn plain_line() -> (l: Line)
    ensures
        l@ == empty_line(),
{
    let l = Line { spans: Vec::new(), style: Style::plain() };
    assert(l@.spans =~= Seq::<SpanView>::empty());
    l
}

fn fg_style(c: Color) -> (s: Style)
    ensures
        s == with_fg(plain_style(), c),
{
    let mut s = Style::plain();
    s.fg = Some(c);
    s
}

fn mods_of(bold: bool, dim: bool, italic: bool, underlined: bool, crossed_out: bool) -> (m: Modifiers)
    ensures
        m == (Modifiers { bold, dim, italic, underlined, crossed_out }),
{
    Modifiers { bold, dim, italic, underlined, crossed_out }
}

fn adding_style(m: Modifiers) -> (s: Style)
    ensures
        s == adding(m),
{
    let mut s = Style::plain();
    s.add_modifier = m;
    s
}

/// `n` copies of `c`, appended.
fn push_repeat(v: &mut Vec<char>, c: char, n: usize)
    ensures
        final(v)@ == old(v)@ + repeat_char(c, n as nat),
{
    let mut k: usize = 0;
    while k < n
        invariant
            0 <= k <= n,
            v@ == old(v)@ + repeat_char(c, k as nat),
        decreases n - k,
    {
        v.push(c);
        k += 1;
        assert(v@ =~= old(v)@ + repeat_char(c, k as nat));
    }
}

/// The widths as numbers.
pub open spec fn nats(v: Seq<usize>) -> Seq<nat> {
    v.map_values(|x: usize| x as nat)
}

fn normalize_cell(cell: &Vec<char>) -> (r: String)
    ensures
        r@ == normalized_cell(cell@),
{
    let ws = split_words(cell);
    string_of(&join_vecs(&ws, " "))
}

fn pad_cell(cell: &str, width: usize, alignment: ColumnAlignment) -> (r: Vec<char>)
    ensures
        r@ == padded_cell(cell@, width as nat, alignment),
{
    let cw = display_width(cell);
    let padding: usize = if width > cw {
        width - cw
    } else {
        0
    };
    let (left, right): (usize, usize) = match alignment {
        ColumnAlignment::Right => (padding, 0),
        ColumnAlignment::Center => (padding / 2, padding - padding / 2),
        _ => (0, padding),
    };
    let mut out: Vec<char> = Vec::new();
    push_repeat(&mut out, ' ', left);
    crate::text::push_str(&mut out, cell);
    push_repeat(&mut out, ' ', right);
    out
}

fn dim_span(text: Vec<char>) -> (s: Span)
    ensures
        s@ == span_of(text@, adding(dim())),
{
    Span { content: string_of(&text), style: adding_style(mods_of(false, true, false, false, false)) }
}

fn plain_span(text: Vec<char>) -> (s: Span)
    ensures
        s@ == span_of(text@, plain_style()),
{
    Span { content: string_of(&text), style: Style::plain() }
}

fn one_char(c: char) -> (v: Vec<char>)
    ensures
        v@ == seq![c],
{
    let mut v: Vec<char> = Vec::new();
    v.push(c);
    v
}

fn table_border_line(widths: &Vec<usize>, left: char, middle: char, right: char) -> (l: Line)
    ensures
        l@ == border_line(nats(widths@), left, middle, right),
{
    let ghost ws = nats(widths@);
    let mut spans: Vec<Span> = Vec::new();
    spans.push(dim_span(one_char(left)));
    let mut idx: usize = 0;
    let ghost head = seq![span_of(seq![left], adding(dim()))];
    assert(span_views(spans@) =~= head);
    while idx < widths.len()
        invariant
            0 <= idx <= widths.len(),
            ws == nats(widths@),
            span_views(spans@) + border_cells(ws, idx as nat, middle, right) == head
                + border_cells(ws, 0, middle, right),
        decreases widths.len() - idx,
    {
        let ghost s0 = span_views(spans@);
        let mut dashes: Vec<char> = Vec::new();
        push_repeat(&mut dashes, '─', widths[idx]);
        dashes.push('─');
        dashes.push('─');
        assert(dashes@ =~= repeat_char('─', ws[idx as int] + 2));
        let end = if idx + 1 == widths.len() {
            right
        } else {
            middle
        };
        let a = dim_span(dashes);
        let b = dim_span(one_char(end));
        spans.push(a);
        spans.push(b);
        assert(span_views(spans@) =~= s0.push(a@).push(b@));
        idx += 1;
        assert(span_views(spans@) + border_cells(ws, idx as nat, middle, right) =~= s0
            + border_cells(ws, (idx - 1) as nat, middle, right));
    }
    let l = Line { spans, style: Style::plain() };
    assert(border_cells(ws, idx as nat, middle, right) =~= Seq::<SpanView>::empty());
    assert(l@.spans =~= border_line(ws, left, middle, right).spans);
    l
}

fn table_row_line(row: &Vec<String>, widths: &Vec<usize>, alignments: &Vec<ColumnAlignment>) -> (l: Line)
    ensures
        l@ == row_line(crate::text::views(row@), nats(widths@), alignments@),
{
    let ghost ws = nats(widths@);
    let ghost rv = crate::text::views(row@);
    let mut spans: Vec<Span> = Vec::new();
    spans.push(dim_span(chars_of("│")));
    let ghost head = seq![span_of("│"@, adding(dim()))];
    assert(span_views(spans@) =~= head);
    let mut idx: usize = 0;
    while idx < widths.len()
        invariant
            0 <= idx <= widths.len(),
            ws == nats(widths@),
            rv == crate::text::views(row@),
            span_views(spans@) + row_cells(rv, ws, alignments@, idx as nat) == head + row_cells(
                rv,
                ws,
                alignments@,
                0,
            ),
        decreases widths.len() - idx,
    {
        let ghost s0 = span_views(spans@);
        let ghost cell = if idx < rv.len() {
            rv[idx as int]
        } else {
            seq![]
        };
        let ghost al = if idx < alignments@.len() {
            alignments@[idx as int]
        } else {
            ColumnAlignment::Unset
        };
        let al_e = if idx < alignments.len() {
            alignments[idx]
        } else {
            ColumnAlignment::Unset
        };
        let padded = if idx < row.len() {
            pad_cell(row[idx].as_str(), widths[idx], al_e)
        } else {
            pad_cell("", widths[idx], al_e)
        };
        assert(ws[idx as int] == widths@[idx as int] as nat);
        proof {
            assert(rv.len() == row@.len());
            assert(al_e == al);
            if idx >= row.len() {
                reveal_strlit("");
                assert(""@ =~= Seq::<char>::empty());
                assert(cell =~= Seq::<char>::empty());
                assert(padded@ == padded_cell(""@, ws[idx as int], al));
            } else {
                assert(rv[idx as int] == row@[idx as int]@);
                assert(padded@ == padded_cell(row@[idx as int]@, ws[idx as int], al));
            }
        }
        assert(padded@ == padded_cell(cell, ws[idx as int], al));
        let a = plain_span(chars_of(" "));
        let b = plain_span(padded);
        let c = plain_span(chars_of(" "));
        let d = dim_span(chars_of("│"));
        spans.push(a);
        spans.push(b);
        spans.push(c);
        spans.push(d);
        assert(span_views(spans@) =~= s0.push(a@).push(b@).push(c@).push(d@));
        idx += 1;
        assert(span_views(spans@) + row_cells(rv, ws, alignments@, idx as nat) =~= s0 + row_cells(
            rv,
            ws,
            alignments@,
            (idx - 1) as nat,
        ));
    }
    let l = Line { spans, style: Style::plain() };
    assert(row_cells(rv, ws, alignments@, idx as nat) =~= Seq::<SpanView>::empty());
    assert(l@.spans =~= row_line(rv, ws, alignments@).spans);
    l
}

/// The widest row and `n` bound every row and `n`.
pub proof fn lemma_max_len(rows: Seq<Seq<Seq<char>>>, n: nat)
    ensures
        max_len(rows, n) >= n,
        forall|i: int| 0 <= i < rows.len() ==> max_len(rows, n) >= #[trigger] rows[i].len(),
    decreases rows.len(),
{
    if rows.len() > 0 {
        lemma_max_len(rows.drop_last(), n);
        assert forall|i: int| 0 <= i < rows.len() implies max_len(rows, n) >= #[trigger] rows[i].len() by {
            if i < rows.len() - 1 {
                assert(rows.drop_last()[i] == rows[i]);
            }
        }
    }
}

fn widen(widths: &mut Vec<usize>, row: &Vec<String>)
    requires
        row.len() <= old(widths).len(),
    ensures
        final(widths).len() == old(widths).len(),
        nats(final(widths)@) == widths_with(nats(old(widths)@), crate::text::views(row@)),
{
    let ghost w0 = nats(widths@);
    let ghost rv = crate::text::views(row@);
    let ghost target = widths_with(w0, rv);
    let mut j: usize = 0;
    while j < row.len()
        invariant
            0 <= j <= row.len(),
            row.len() <= widths.len(),
            widths.len() == old(widths).len(),
            w0 == nats(old(widths)@),
            rv == crate::text::views(row@),
            target == widths_with(w0, rv),
            forall|k: int| 0 <= k < widths.len() ==> #[trigger] nats(widths@)[k] == if k < j {
                target[k]
            } else {
                w0[k]
            },
        decreases row.len() - j,
    {
        let w = display_width(row[j].as_str());
        assert(rv[j as int] == row@[j as int]@);
        let ghost prev = nats(widths@);
        assert(prev[j as int] == w0[j as int]);
        if w > widths[j] {
            widths.set(j, w);
        }
        assert(nats(widths@)[j as int] == target[j as int]);
        assert forall|k: int| 0 <= k < widths.len() && k != j implies #[trigger] nats(widths@)[k]
            == prev[k] by {}
        j += 1;
    }
    assert(nats(widths@) =~= target);
}

fn column_count_of(t: &TableState) -> (n: usize)
    ensures
        n == column_count(t@),
{
    let ghost tv = t@;
    let ghost all = table_rows(tv);
    let mut m: usize = t.alignments.len();
    let mut pre: usize = 0;
    match &t.header {
        Some(h) => {
            assert(all.take(1).drop_last() =~= Seq::<Seq<Seq<char>>>::empty());
            assert(max_len(all.take(1).drop_last(), tv.alignments.len()) == tv.alignments.len());
            assert(all.take(1).last() == crate::text::views(h@));
            if h.len() > m {
                m = h.len();
            }
            pre = 1;
        },
        None => {
            assert(all.take(0) =~= Seq::<Seq<Seq<char>>>::empty());
        },
    }
    assert(m == max_len(all.take(pre as int), tv.alignments.len()));
    let mut i: usize = 0;
    while i < t.rows.len()
        invariant
            0 <= i <= t.rows.len(),
            tv == t@,
            all == table_rows(tv),
            pre == (if tv.header is Some { 1int } else { 0int }),
            all.len() == pre + t.rows.len(),
            forall|k: int| 0 <= k < t.rows.len() ==> #[trigger] all[pre + k] == crate::text::views(t.rows@[k]@),
            m == max_len(all.take(pre + i), tv.alignments.len()),
        decreases t.rows.len() - i,
    {
        assert(all.take(pre + i + 1).drop_last() =~= all.take(pre + i));
        assert(all.take(pre + i + 1).last() == all[pre + i]);
        assert(all[pre + i] == crate::text::views(t.rows@[i as int]@));
        if t.rows[i].len() > m {
            m = t.rows[i].len();
        }
        i += 1;
    }
    assert(all.take(pre + i) =~= all);
    m
}

fn heading_style_of(level: HeadingLevel) -> (s: Style)
    ensures
        s == heading_style(level),
{
    match level {
        HeadingLevel::H1 => adding_style(mods_of(true, false, false, true, false)),
        HeadingLevel::H2 => adding_style(mods_of(true, false, false, false, false)),
        HeadingLevel::H3 => adding_style(mods_of(true, false, true, false, false)),
        _ => adding_style(mods_of(false, false, true, false, false)),
    }
}

fn heading_level_number(level: HeadingLevel) -> (n: usize)
    ensures
        n as nat == heading_number(level),
{
    match level {
        HeadingLevel::H1 => 1,
        HeadingLevel::H2 => 2,
        HeadingLevel::H3 => 3,
        HeadingLevel::H4 => 4,
        HeadingLevel::H5 => 5,
        HeadingLevel::H6 => 6,
    }
}

/// The event can be taken in state `w` without overflowing the quote depth.
pub open spec fn step_fits(w: WriterView, e: MdEvent) -> bool {
    !w.in_code_block && w.table_state is None && e == MdEvent::Start(MdTag::BlockQuote)
        ==> w.blockquote_depth < usize::MAX
}

/// Pushing lines leaves the quote depth alone.
proof fn lemma_lines_pushed_depth(w: WriterView, ls: Seq<Seq<char>>, style: Style)
    ensures
        lines_pushed(w, ls, style).blockquote_depth == w.blockquote_depth,
    decreases ls.len(),
{
    if ls.len() > 0 {
        lemma_lines_pushed_depth(w, ls.drop_last(), style);
    }
}

/// An event opens at most one quote.
proof fn lemma_step_depth(w: WriterView, e: MdEvent)
    ensures
        step(w, e).blockquote_depth <= w.blockquote_depth + 1,
{
    lemma_lines_pushed_depth(
        WriterView { code_block_buffer: seq![], in_code_block: false, ..w },
        code_lines(w.code_block_buffer),
        with_fg(plain_style(), Color::Cyan),
    );
}

/// Lays out a Markdown event stream as styled lines.
pub fn render_events(events: &Vec<MdEvent>) -> (r: Vec<Line>)
    ensures
        line_views(r@) == rendered_events(events@),
{
    let mut w = MdWriter::new();
    let mut i: usize = 0;
    while i < events.len()
        invariant
            0 <= i <= events.len(),
            w@ == steps(initial_writer(), events@.take(i as int)),
            w@.blockquote_depth <= i,
        decreases events.len() - i,
    {
        proof {
            lemma_step_depth(w@, events@[i as int]);
        }
        w.handle_event(&events[i]);
        assert(events@.take(i + 1).drop_last() =~= events@.take(i as int));
        i += 1;
    }
    assert(events@.take(events.len() as int) =~= events@);
    w.finish()
}

impl MdWriter {
    /// A writer before any event.
    pub fn new() -> (w: Self)
        ensures
            w@ == initial_writer(),
    {
        let w = MdWriter {
            lines: Vec::new(),
            current_spans: Vec::new(),
            inline_styles: Vec::new(),
            list_indices: Vec::new(),
            indent_stack: Vec::new(),
            in_code_block: false,
            code_block_buffer: Vec::new(),
            needs_newline: false,
            in_paragraph: false,
            table_state: None,
            heading_level: None,
            blockquote_depth: 0,
        };
        assert(w@ =~= initial_writer());
        w
    }

    fn flush_current_line(&mut self, force_empty: bool)
        ensures
            final(self)@ == flushed(old(self)@, force_empty),
    {
        if self.current_spans.len() == 0 {
            if force_empty {
                let ghost l0 = self.lines@;
                self.lines.push(plain_line());
                assert(line_views(self.lines@) =~= line_views(l0).push(empty_line()));
            }
            return;
        }
        let ghost l0 = self.lines@;
        let mut spans: Vec<Span> = Vec::new();
        std::mem::swap(&mut spans, &mut self.current_spans);
        self.lines.push(Line { spans, style: Style::plain() });
        assert(line_views(self.lines@) =~= line_views(l0).push(
            LineView { spans: old(self)@.current_spans, style: plain_style() },
        ));
        assert(span_views(self.current_spans@) =~= Seq::<SpanView>::empty());
    }

    fn push_blank_line(&mut self)
        ensures
            final(self)@ == blank_pushed(old(self)@),
    {
        let n = self.lines.len();
        if n > 0 && self.lines[n - 1].spans.len() > 0 {
            let ghost l0 = self.lines@;
            assert(line_views(l0).last().spans.len() == l0[n - 1].spans@.len());
            self.lines.push(plain_line());
            assert(line_views(self.lines@) =~= line_views(l0).push(empty_line()));
        } else {
            assert(n > 0 ==> line_views(self.lines@).last().spans.len()
                == self.lines@[n - 1].spans@.len());
        }
    }

    fn begin_block(&mut self)
        ensures
            final(self)@ == block_begun(old(self)@),
    {
        self.flush_current_line(false);
        if self.needs_newline {
            self.push_blank_line();
        }
        self.needs_newline = false;
    }
    fn ensure_line_prefix(&mut self)
        ensures
            final(self)@ == prefixed(old(self)@),
    {
        if self.current_spans.len() > 0 {
            return;
        }
        let ghost w0 = self@;
        let mut k: usize = 0;
        while k < self.blockquote_depth
            invariant
                0 <= k <= self.blockquote_depth,
                self@ == (WriterView { current_spans: quote_spans(k as nat), ..w0 }),
            decreases self.blockquote_depth - k,
        {
            let ghost c0 = self.current_spans@;
            let gt = chars_of("> ");
            let sp = Span { content: string_of(&gt), style: fg_style(Color::Green) };
            assert(sp@ == span_of("> "@, with_fg(plain_style(), Color::Green)));
            self.current_spans.push(sp);
            assert(span_views(self.current_spans@) =~= span_views(c0).push(sp@));
            k += 1;
            assert(span_views(self.current_spans@) =~= quote_spans(k as nat));
            assert(self@ =~= (WriterView { current_spans: quote_spans(k as nat), ..w0 }));
        }
        let ghost stack = w0.indent_stack;
        let mut new_stack: Vec<IndentCtx> = Vec::new();
        let mut i: usize = 0;
        while i < self.indent_stack.len()
            invariant
                0 <= i <= self.indent_stack.len(),
                indent_views(self.indent_stack@) == stack,
                stack == w0.indent_stack,
                self.blockquote_depth as nat == w0.blockquote_depth,
                span_views(self.current_spans@) == quote_spans(w0.blockquote_depth) + indent_spans(
                    stack.take(i as int),
                ),
                indent_views(new_stack@) == indents_used(stack.take(i as int)),
                line_views(self.lines@) == w0.lines,
                self.inline_styles@ == w0.inline_styles,
                self.list_indices@ == w0.list_indices,
                self.in_code_block == w0.in_code_block,
                self.code_block_buffer@ == w0.code_block_buffer,
                self.needs_newline == w0.needs_newline,
                self.in_paragraph == w0.in_paragraph,
                self@.table_state == w0.table_state,
                self.heading_level == w0.heading_level,
            decreases self.indent_stack.len() - i,
        {
            let ghost cur0 = span_views(self.current_spans@);
            let ghost ns0 = indent_views(new_stack@);
            let ctx = &self.indent_stack[i];
            assert(stack[i as int] == ctx@);
            let picked = if ctx.first_pending {
                clone_spans(&ctx.first)
            } else {
                clone_spans(&ctx.continuation)
            };
            let done = IndentCtx {
                first: clone_spans(&ctx.first),
                continuation: clone_spans(&ctx.continuation),
                first_pending: false,
            };
            let mut j: usize = 0;
            while j < picked.len()
                invariant
                    0 <= j <= picked.len(),
                    span_views(self.current_spans@) == cur0 + span_views(picked@).take(j as int),
                    indent_views(self.indent_stack@) == stack,
                    self.blockquote_depth as nat == w0.blockquote_depth,
                    line_views(self.lines@) == w0.lines,
                    self.inline_styles@ == w0.inline_styles,
                    self.list_indices@ == w0.list_indices,
                    self.in_code_block == w0.in_code_block,
                    self.code_block_buffer@ == w0.code_block_buffer,
                    self.needs_newline == w0.needs_newline,
                    self.in_paragraph == w0.in_paragraph,
                    self@.table_state == w0.table_state,
                    self.heading_level == w0.heading_level,
                decreases picked.len() - j,
            {
                let ghost c1 = self.current_spans@;
                self.current_spans.push(clone_span(&picked[j]));
                assert(span_views(self.current_spans@) =~= span_views(c1).push(picked@[j as int]@));
                assert(span_views(picked@).take(j + 1) =~= span_views(picked@).take(j as int).push(
                    picked@[j as int]@,
                ));
                j += 1;
            }
            assert(span_views(picked@).take(picked.len() as int) =~= span_views(picked@));
            new_stack.push(done);
            proof {
                let t1 = stack.take(i + 1);
                assert(t1.drop_last() =~= stack.take(i as int));
                assert(t1.last() == stack[i as int]);
                assert(indent_views(new_stack@) =~= ns0.push(done@));
                assert(indents_used(t1) =~= indents_used(stack.take(i as int)).push(
                    IndentView { first_pending: false, ..stack[i as int] },
                ));
            }
            i += 1;
        }
        assert(stack.take(self.indent_stack.len() as int) =~= stack);
        self.indent_stack = new_stack;
        assert(self@ =~= prefixed(w0));
    }

    fn push_text_with_style(&mut self, text: &str, style: Style)
        ensures
            final(self)@ == styled_pushed(old(self)@, text@, style),
    {
        let cs = chars_of(text);
        if cs.len() == 0 {
            return;
        }
        self.ensure_line_prefix();
        let ghost c0 = self.current_spans@;
        self.current_spans.push(Span { content: string_of(&cs), style });
        assert(span_views(self.current_spans@) =~= span_views(c0).push(span_of(text@, style)));
    }
    fn current_style(&self) -> (r: Style)
        ensures
            r == current_style(self@),
    {
        let mut st = Style::plain();
        let mut i: usize = 0;
        while i < self.inline_styles.len()
            invariant
                0 <= i <= self.inline_styles.len(),
                st == styles_applied(self.inline_styles@.take(i as int)),
            decreases self.inline_styles.len() - i,
        {
            assert(self.inline_styles@.take(i + 1).drop_last() =~= self.inline_styles@.take(i as int));
            st = st.patch(self.inline_styles[i]);
            i += 1;
        }
        assert(self.inline_styles@.take(self.inline_styles.len() as int) =~= self.inline_styles@);
        st
    }

    fn push_text(&mut self, text: &str)
        ensures
            final(self)@ == text_pushed(old(self)@, text@),
    {
        let clean = sanitize_untrusted_text(text);
        let style = self.current_style();
        self.push_text_with_style(clean.as_str(), style);
    }

    fn push_rule(&mut self)
        ensures
            final(self)@ == rule_pushed(old(self)@),
    {
        self.begin_block();
        let mut dashes: Vec<char> = Vec::new();
        push_repeat(&mut dashes, '─', 40);
        let text = string_of(&dashes);
        self.push_text_with_style(text.as_str(), adding_style(mods_of(false, true, false, false, false)));
        self.flush_current_line(false);
        self.needs_newline = true;
    }

    fn start_list_item(&mut self)
        ensures
            final(self)@ == item_started(old(self)@),
    {
        self.flush_current_line(false);
        let ghost w1 = self@;
        let depth = self.list_indices.len();
        let index: Option<u64> = if depth > 0 {
            self.list_indices[depth - 1]
        } else {
            None
        };
        assert(index == current_index(w1));
        let mut marker: Vec<char> = Vec::new();
        let marker_style = match index {
            Some(i) => {
                push_dec(&mut marker, i);
                crate::text::push_str(&mut marker, ". ");
                fg_style(Color::LightBlue)
            },
            None => {
                crate::text::push_str(&mut marker, "- ");
                Style::plain()
            },
        };
        assert(marker@ == item_marker(index));
        let mut indent: Vec<char> = Vec::new();
        let mut d: usize = 1;
        while d < depth
            invariant
                1 <= d,
                d <= depth || depth == 0,
                depth == 0 ==> d == 1,
                depth == w1.list_indices.len(),
                indent@ == repeat_char(' ', ((d - 1) * 4) as nat),
            decreases depth - d,
        {
            push_repeat(&mut indent, ' ', 4);
            d += 1;
            assert(indent@ =~= repeat_char(' ', ((d - 1) * 4) as nat));
        }
        if depth > 0 {
            assert(d == depth);
            assert(base_indent(w1) == ((d - 1) * 4) as nat);
        } else {
            assert(base_indent(w1) == 0);
            assert(indent@ =~= repeat_char(' ', 0));
        }
        assert(indent@ =~= repeat_char(' ', base_indent(w1)));
        let mut first: Vec<Span> = Vec::new();
        if indent.len() > 0 {
            first.push(Span { content: string_of(&indent), style: Style::plain() });
        }
        first.push(Span { content: string_of(&marker), style: marker_style });
        let mut blanks = indent.clone();
        push_repeat(&mut blanks, ' ', marker.len());
        assert(blanks@ =~= repeat_char(' ', base_indent(w1) + marker@.len()));
        let mut continuation: Vec<Span> = Vec::new();
        continuation.push(Span { content: string_of(&blanks), style: Style::plain() });
        let ctx = IndentCtx { first, continuation, first_pending: true };
        assert(span_views(ctx.first@) =~= item_indent(w1).first);
        assert(span_views(ctx.continuation@) =~= item_indent(w1).continuation);
        assert(ctx@ == item_indent(w1));
        let ghost s0 = self.indent_stack@;
        self.indent_stack.push(ctx);
        assert(indent_views(self.indent_stack@) =~= indent_views(s0).push(item_indent(w1)));
        assert(self@ =~= item_started(old(self)@));
    }

    fn finish_list_item(&mut self)
        ensures
            final(self)@ == item_finished(old(self)@),
    {
        self.flush_current_line(false);
        let ghost w1 = self@;
        let ghost s0 = self.indent_stack@;
        let _ = self.indent_stack.pop();
        assert(indent_views(self.indent_stack@) =~= if s0.len() > 0 {
            indent_views(s0).drop_last()
        } else {
            indent_views(s0)
        });
        let n = self.list_indices.len();
        if n > 0 {
            match self.list_indices[n - 1] {
                Some(i) => {
                    self.list_indices.set(n - 1, Some(i.wrapping_add(1)));
                },
                None => {},
            }
        }
        self.in_paragraph = false;
        self.needs_newline = false;
        assert(self@ =~= item_finished(old(self)@));
    }
    fn emit_code_block(&mut self)
        ensures
            final(self)@ == code_emitted(old(self)@),
    {
        let ghost w = self@;
        let mut cs: Vec<char> = Vec::new();
        std::mem::swap(&mut cs, &mut self.code_block_buffer);
        self.in_code_block = false;
        let ghost w0 = self@;
        assert(w0 =~= (WriterView { code_block_buffer: seq![], in_code_block: false, ..w }));
        let style = fg_style(Color::Cyan);
        if cs.len() == 0 {
            self.flush_current_line(true);
            self.needs_newline = true;
            return;
        }
        let pieces = split_chars(&cs, '\n');
        proof {
            crate::text::lemma_split_on_nonempty(cs@, '\n');
        }
        let count = if cs[cs.len() - 1] == '\n' {
            pieces.len() - 1
        } else {
            pieces.len()
        };
        let ghost ls = code_lines(cs@);
        assert(ls.len() == count);
        let mut k: usize = 0;
        while k < count
            invariant
                0 <= k <= count,
                count <= pieces.len(),
                ls == code_lines(cs@),
                ls.len() == count,
                vviews(pieces@) == split_on(cs@, '\n'),
                self@ == lines_pushed(w0, ls.take(k as int), style),
            decreases count - k,
        {
            assert(ls[k as int] == pieces@[k as int]@);
            let piece = string_of(&pieces[k]);
            self.push_text_with_style(piece.as_str(), style);
            self.flush_current_line(false);
            assert(ls.take(k + 1).drop_last() =~= ls.take(k as int));
            k += 1;
        }
        assert(ls.take(count as int) =~= ls);
        self.needs_newline = true;
    }
    fn render_table(&mut self)
        ensures
            final(self)@ == table_rendered(old(self)@),
    {
        let ghost w = self@;
        let st = self.table_state.take();
        let t = match st {
            None => {
                return;
            },
            Some(t) => t,
        };
        let ghost tv = t@;
        let ghost w0 = self@;
        assert(w.table_state == Some(tv));
        assert(w0 =~= (WriterView { table_state: None, ..w }));
        let count = column_count_of(&t);
        if count == 0 {
            return;
        }
        let ghost all = table_rows(tv);
        proof {
            lemma_max_len(all, tv.alignments.len());
        }
        let mut widths: Vec<usize> = Vec::new();
        let mut z: usize = 0;
        while z < count
            invariant
                0 <= z <= count,
                nats(widths@) == Seq::new(z as nat, |j: int| 0nat),
            decreases count - z,
        {
            let ghost p = widths@;
            widths.push(0);
            assert(nats(widths@) =~= nats(p).push(0nat));
            z += 1;
            assert(nats(widths@) =~= Seq::new(z as nat, |j: int| 0nat));
        }
        let ghost zeros = Seq::new(count as nat, |j: int| 0nat);
        let mut pre: usize = 0;
        match &t.header {
            Some(h) => {
                assert(all[0] == crate::text::views(h@));
                assert(all.take(1).drop_last() =~= Seq::<Seq<Seq<char>>>::empty());
                assert(all.take(1).last() == crate::text::views(h@));
                assert(nats(widths@) == zeros);
                assert(h@.len() == all[0].len());
                widen(&mut widths, h);
                assert(widths_over(zeros, all.take(1)) == widths_with(
                    widths_over(zeros, all.take(1).drop_last()),
                    all.take(1).last(),
                ));
                pre = 1;
            },
            None => {
                assert(all.take(0) =~= Seq::<Seq<Seq<char>>>::empty());
            },
        }
        assert(nats(widths@) == widths_over(zeros, all.take(pre as int)));
        let mut i: usize = 0;
        while i < t.rows.len()
            invariant
                0 <= i <= t.rows.len(),
                tv == t@,
                all == table_rows(tv),
                count as nat == column_count(tv),
                widths.len() == count,
                pre == (if tv.header is Some { 1int } else { 0int }),
                all.len() == pre + t.rows.len(),
                forall|k: int| 0 <= k < t.rows.len() ==> #[trigger] all[pre + k] == crate::text::views(t.rows@[k]@),
                forall|k: int| 0 <= k < all.len() ==> #[trigger] all[k].len() <= count,
                nats(widths@) == widths_over(zeros, all.take(pre + i)),
            decreases t.rows.len() - i,
        {
            assert(all.take(pre + i + 1).drop_last() =~= all.take(pre + i));
            assert(all[pre + i] == crate::text::views(t.rows@[i as int]@));
            assert(t.rows@[i as int]@.len() == all[pre + i].len());
            widen(&mut widths, &t.rows[i]);
            i += 1;
        }
        assert(all.take(pre + i) =~= all);
        let ghost ws = nats(widths@);
        assert(ws == column_widths(tv));
        let ghost l0 = self.lines@;
        let top = table_border_line(&widths, '┌', '┬', '┐');
        self.lines.push(top);
        match &t.header {
            Some(h) => {
                let hl = table_row_line(h, &widths, &t.alignments);
                self.lines.push(hl);
                let sep = table_border_line(&widths, '├', '┼', '┤');
                self.lines.push(sep);
            },
            None => {},
        }
        let ghost head_part: Seq<LineView> = match tv.header {
            Some(h) => seq![row_line(h, ws, tv.alignments), border_line(ws, '├', '┼', '┤')],
            None => seq![],
        };
        assert(line_views(self.lines@) =~= line_views(l0) + seq![border_line(ws, '┌', '┬', '┐')]
            + head_part);
        assert(self@ =~= (WriterView { lines: line_views(self.lines@), ..w0 }));
        let ghost body = body_lines(tv.rows, ws, tv.alignments);
        let mut r: usize = 0;
        while r < t.rows.len()
            invariant
                0 <= r <= t.rows.len(),
                tv == t@,
                ws == nats(widths@),
                body == body_lines(tv.rows, ws, tv.alignments),
                line_views(self.lines@) == line_views(l0) + seq![border_line(ws, '┌', '┬', '┐')]
                    + head_part + body.take(r as int),
                self@ == (WriterView { lines: line_views(self.lines@), ..w0 }),
            decreases t.rows.len() - r,
        {
            let ghost before = self.lines@;
            let rl = table_row_line(&t.rows[r], &widths, &t.alignments);
            assert(tv.rows[r as int] == crate::text::views(t.rows@[r as int]@));
            self.lines.push(rl);
            assert(line_views(self.lines@) =~= line_views(before).push(rl@));
            assert(self@ =~= (WriterView { lines: line_views(self.lines@), ..w0 }));
            assert(body.take(r + 1) =~= body.take(r as int).push(body[r as int]));
            r += 1;
        }
        assert(body.take(r as int) =~= body);
        let ghost before = self.lines@;
        let bottom = table_border_line(&widths, '└', '┴', '┘');
        self.lines.push(bottom);
        assert(line_views(self.lines@) =~= line_views(before).push(bottom@));
        assert(line_views(self.lines@) =~= w0.lines + table_lines(tv));
        assert(self@ =~= (WriterView { lines: line_views(self.lines@), ..w0 }));
        assert(column_count(tv) != 0);
        assert(self@ =~= table_rendered(w));
    }
    fn handle_start(&mut self, tag: &MdTag)
        requires
            *tag is BlockQuote ==> old(self)@.blockquote_depth < usize::MAX,
        ensures
            final(self)@ == started(old(self)@, *tag),
    {
        let ghost w = self@;
        match tag {
            MdTag::Paragraph => {
                if self.list_indices.len() == 0 {
                    self.begin_block();
                }
                self.in_paragraph = true;
            },
            MdTag::Heading(level) => {
                let level = *level;
                self.begin_block();
                self.heading_level = Some(level);
                let style = heading_style_of(level);
                self.inline_styles.push(style);
                let mut marks: Vec<char> = Vec::new();
                push_repeat(&mut marks, '#', heading_level_number(level));
                marks.push(' ');
                assert(marks@ =~= repeat_char('#', heading_number(level)) + " "@) by {
                    reveal_strlit(" ");
                }
                let text = string_of(&marks);
                self.push_text_with_style(text.as_str(), style);
            },
            MdTag::BlockQuote => {
                self.begin_block();
                self.blockquote_depth = self.blockquote_depth + 1;
            },
            MdTag::CodeBlock => {
                self.begin_block();
                self.in_code_block = true;
                self.code_block_buffer = Vec::new();
            },
            MdTag::List(start) => {
                if self.current_spans.len() == 0 && self.needs_newline && self.list_indices.len() == 0
                    && !self.in_paragraph {
                    self.push_blank_line();
                    self.needs_newline = false;
                } else if self.current_spans.len() > 0 {
                    self.flush_current_line(false);
                }
                self.list_indices.push(*start);
            },
            MdTag::Item => self.start_list_item(),
            MdTag::Emphasis => self.inline_styles.push(adding_style(mods_of(false, false, true, false, false))),
            MdTag::Strong => self.inline_styles.push(adding_style(mods_of(true, false, false, false, false))),
            MdTag::Strikethrough => self.inline_styles.push(
                adding_style(mods_of(false, false, false, false, true)),
            ),
            MdTag::Link | MdTag::Image => {
                let mut st = adding_style(mods_of(false, false, false, true, false));
                st.fg = Some(Color::Cyan);
                self.inline_styles.push(st);
            },
            MdTag::Table(alignments) => {
                self.begin_block();
                let mut copied: Vec<ColumnAlignment> = Vec::new();
                let mut k: usize = 0;
                while k < alignments.len()
                    invariant
                        0 <= k <= alignments.len(),
                        copied@ == alignments@.take(k as int),
                    decreases alignments.len() - k,
                {
                    copied.push(alignments[k]);
                    k += 1;
                    assert(copied@ =~= alignments@.take(k as int));
                }
                assert(alignments@.take(alignments.len() as int) =~= alignments@);
                let t = TableState {
                    alignments: copied,
                    header: None,
                    rows: Vec::new(),
                    current_row: Vec::new(),
                    current_cell: Vec::new(),
                    in_head: false,
                };
                assert(t@ =~= new_table(t.alignments@));
                self.table_state = Some(t);
            },
            _ => {},
        }
        assert(self@ =~= started(w, *tag));
    }

    fn pop_style(&mut self)
        ensures
            final(self)@ == style_popped(old(self)@),
    {
        let _ = self.inline_styles.pop();
        assert(self@ =~= style_popped(old(self)@));
    }

    fn handle_end(&mut self, tag: MdTagEnd)
        ensures
            final(self)@ == ended(old(self)@, tag),
    {
        let ghost w = self@;
        match tag {
            MdTagEnd::Paragraph => {
                self.in_paragraph = false;
                self.flush_current_line(false);
                if self.list_indices.len() == 0 {
                    self.needs_newline = true;
                }
            },
            MdTagEnd::Heading => {
                self.pop_style();
                self.heading_level = None;
                self.flush_current_line(false);
                self.needs_newline = true;
            },
            MdTagEnd::BlockQuote => {
                self.flush_current_line(false);
                self.blockquote_depth = if self.blockquote_depth > 0 {
                    self.blockquote_depth - 1
                } else {
                    0
                };
                self.needs_newline = true;
            },
            MdTagEnd::CodeBlock => self.emit_code_block(),
            MdTagEnd::List => {
                self.flush_current_line(false);
                let _ = self.list_indices.pop();
                if self.list_indices.len() == 0 {
                    self.needs_newline = true;
                }
            },
            MdTagEnd::Item => self.finish_list_item(),
            MdTagEnd::Emphasis | MdTagEnd::Strong | MdTagEnd::Strikethrough | MdTagEnd::Link
            | MdTagEnd::Image => self.pop_style(),
            MdTagEnd::Table => {
                self.render_table();
                self.needs_newline = true;
            },
            _ => {},
        }
        assert(self@ =~= ended(w, tag));
    }

    fn handle_code_block_event(&mut self, event: &MdEvent)
        ensures
            final(self)@ == code_event(old(self)@, *event),
    {
        let ghost w = self@;
        match event {
            MdEvent::End(MdTagEnd::CodeBlock) => self.emit_code_block(),
            MdEvent::Text(t) | MdEvent::Code(t) | MdEvent::Html(t) | MdEvent::InlineHtml(t) => {
                crate::text::push_str(&mut self.code_block_buffer, t.as_str());
            },
            MdEvent::SoftBreak | MdEvent::HardBreak => self.code_block_buffer.push('\n'),
            _ => {},
        }
        assert(self@ =~= code_event(w, *event));
    }

    fn handle_table_event(&mut self, event: &MdEvent)
        requires
            old(self)@.table_state is Some,
        ensures
            final(self)@ == table_event(old(self)@, old(self)@.table_state.unwrap(), *event),
    {
        let ghost w = self@;
        let ghost tv = w.table_state.unwrap();
        if let MdEvent::End(MdTagEnd::Table) = event {
            self.render_table();
            self.needs_newline = true;
            return;
        }
        let mut t = match self.table_state.take() {
            Some(t) => t,
            None => {
                return;
            },
        };
        assert(t@ == tv);
        match event {
            MdEvent::Start(MdTag::TableHead) => t.in_head = true,
            MdEvent::End(MdTagEnd::TableHead) => t.in_head = false,
            MdEvent::Start(MdTag::TableRow) => t.current_row = Vec::new(),
            MdEvent::End(MdTagEnd::TableRow) => {
                let mut row: Vec<String> = Vec::new();
                std::mem::swap(&mut row, &mut t.current_row);
                if t.in_head {
                    t.header = Some(row);
                } else {
                    let ghost r0 = t.rows@;
                    t.rows.push(row);
                    assert(rows_views(t.rows@) =~= rows_views(r0).push(crate::text::views(row@)));
                }
            },
            MdEvent::Start(MdTag::TableCell) => t.current_cell = Vec::new(),
            MdEvent::End(MdTagEnd::TableCell) => {
                let cell = normalize_cell(&t.current_cell);
                let ghost c0 = t.current_row@;
                t.current_row.push(cell);
                assert(crate::text::views(t.current_row@) =~= crate::text::views(c0).push(cell@));
                t.current_cell = Vec::new();
            },
            MdEvent::Text(x) | MdEvent::Code(x) | MdEvent::Html(x) | MdEvent::InlineHtml(x)
            | MdEvent::InlineMath(x) | MdEvent::DisplayMath(x) => {
                crate::text::push_str(&mut t.current_cell, x.as_str());
            },
            MdEvent::SoftBreak | MdEvent::HardBreak => t.current_cell.push(' '),
            _ => {},
        }
        assert(t@ =~= table_step(tv, *event));
        self.table_state = Some(t);
        assert(self@ =~= table_event(w, tv, *event));
    }
    fn handle_event(&mut self, event: &MdEvent)
        requires
            step_fits(old(self)@, *event),
        ensures
            final(self)@ == step(old(self)@, *event),
    {
        if self.in_code_block {
            self.handle_code_block_event(event);
            return;
        }
        if self.table_state.is_some() {
            self.handle_table_event(event);
            return;
        }
        match event {
            MdEvent::Start(tag) => self.handle_start(tag),
            MdEvent::End(tag) => self.handle_end(*tag),
            MdEvent::Text(t) | MdEvent::InlineMath(t) | MdEvent::DisplayMath(t) => self.push_text(
                t.as_str(),
            ),
            MdEvent::Code(c) => {
                let mut st = self.current_style();
                st.fg = Some(Color::Cyan);
                self.push_text_with_style(c.as_str(), st);
            },
            MdEvent::Html(h) | MdEvent::InlineHtml(h) => self.push_text(h.as_str()),
            MdEvent::SoftBreak => self.push_text(" "),
            MdEvent::HardBreak => self.flush_current_line(false),
            MdEvent::Rule => self.push_rule(),
            MdEvent::TaskListMarker(done) => {
                if *done {
                    self.push_text("[x] ");
                } else {
                    self.push_text("[ ] ");
                }
            },
            MdEvent::FootnoteReference(l) => {
                let mut v = chars_of("[");
                crate::text::push_str(&mut v, l.as_str());
                crate::text::push_str(&mut v, "]");
                let text = string_of(&v);
                self.push_text(text.as_str());
            },
        }
    }

    /// The lines written, once the last event is taken.
    pub fn finish(self) -> (r: Vec<Line>)
        ensures
            line_views(r@) == finished(self@),
    {
        let mut w = self;
        if w.in_code_block {
            w.emit_code_block();
        }
        w.flush_current_line(false);
        w.lines
    }
}


/// How a cell is laid out in its column: padded to the column's width (or
/// left as it is when wider), a left-aligned cell starts the column with
/// all blanks after it, a right-aligned one ends it with all blanks before
/// it, and a centered one has half the blanks, rounded down, before it and
/// the rest after it.
pub proof fn lemma_cell_padding(cell: Seq<char>, width: nat, alignment: ColumnAlignment)
    ensures
        ({
            let r = padded_cell(cell, width, alignment);
            let cw = unicode_width(cell) as nat;
            let blanks: int = if width > cw { width - cw } else { 0 };
            let before: int = match alignment {
                ColumnAlignment::Right => blanks,
                ColumnAlignment::Center => blanks / 2,
                _ => 0,
            };
            &&& r.len() == cell.len() + blanks
            &&& 0 <= before <= blanks
            &&& forall|i: int| 0 <= i < before ==> r[i] == ' '
            &&& r.subrange(before, before + cell.len()) == cell
            &&& forall|i: int| before + cell.len() <= i < r.len() ==> r[i] == ' '
            &&& (alignment is Center ==> (blanks - before) - before == blanks % 2)
        }),
{
    let r = padded_cell(cell, width, alignment);
    let cw = unicode_width(cell) as nat;
    let blanks: int = if width > cw { width - cw } else { 0 };
    let before: int = match alignment {
        ColumnAlignment::Right => blanks,
        ColumnAlignment::Center => blanks / 2,
        _ => 0,
    };
    assert(r.subrange(before, before + cell.len()) =~= cell);
}

} // verus!
