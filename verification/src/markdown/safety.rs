//! What the Markdown writer lets reach the terminal: apart from the text the
//! events carry, it writes only characters that are safe for a terminal.
use vstd::prelude::*;

use super::style::{LineView, SpanView};
use super::writer::{
    MdTag, MdTagEnd, block_begun, code_emitted, code_lines, empty_line, flushed, item_finished,
    item_started, lines_pushed, prefixed, rendered_events, repeat_char, rule_pushed, started,
    ended, step, steps, styled_pushed, table_rendered, table_step, text_pushed, IndentView,
    MdEvent, TableView, WriterView,
};
use super::{is_safe_char, lemma_sanitized_is_safe, sanitized, AnsiState};
use crate::compact::key_files::words;
use crate::text::{dec, digit, join, split_on};

verus! {

/// Text made only of safe characters.
pub open spec fn safe_text(s: Seq<char>) -> bool {
    forall|i: int| 0 <= i < s.len() ==> is_safe_char(#[trigger] s[i])
}

/// Spans made only of safe text.
pub open spec fn safe_spans(ss: Seq<SpanView>) -> bool {
    forall|i: int| 0 <= i < ss.len() ==> safe_text(#[trigger] ss[i].content)
}

/// Lines made only of safe spans.
pub open spec fn safe_lines(ls: Seq<LineView>) -> bool {
    forall|i: int| 0 <= i < ls.len() ==> safe_spans(#[trigger] ls[i].spans)
}

/// Cells made only of safe text.
pub open spec fn safe_cells(cs: Seq<Seq<char>>) -> bool {
    forall|i: int| 0 <= i < cs.len() ==> safe_text(#[trigger] cs[i])
}

/// A table whose collected text is safe.
pub open spec fn safe_table(t: TableView) -> bool {
    &&& match t.header {
        Some(h) => safe_cells(h),
        None => true,
    }
    &&& forall|r: int| 0 <= r < t.rows.len() ==> safe_cells(#[trigger] t.rows[r])
    &&& safe_cells(t.current_row)
    &&& safe_text(t.current_cell)
}

/// Indentation made only of safe spans.
pub open spec fn safe_indents(s: Seq<IndentView>) -> bool {
    forall|k: int| 0 <= k < s.len() ==> safe_spans(#[trigger] s[k].first) && safe_spans(
        s[k].continuation,
    )
}

/// A writer holding only safe text.
pub open spec fn safe_writer(w: WriterView) -> bool {
    &&& safe_lines(w.lines)
    &&& safe_spans(w.current_spans)
    &&& safe_indents(w.indent_stack)
    &&& safe_text(w.code_block_buffer)
    &&& match w.table_state {
        Some(t) => safe_table(t),
        None => true,
    }
}

/// An event whose text, if it carries any, is safe.
pub open spec fn safe_event(e: MdEvent) -> bool {
    match e {
        MdEvent::Text(s) | MdEvent::Code(s) | MdEvent::InlineMath(s) | MdEvent::DisplayMath(s)
        | MdEvent::Html(s) | MdEvent::InlineHtml(s) | MdEvent::FootnoteReference(s) => safe_text(s@),
        _ => true,
    }
}

proof fn lemma_safe_concat(a: Seq<char>, b: Seq<char>)
    requires
        safe_text(a),
        safe_text(b),
    ensures
        safe_text(a + b),
{
    assert forall|i: int| 0 <= i < (a + b).len() implies is_safe_char(#[trigger] (a + b)[i]) by {
        if i < a.len() {
            assert((a + b)[i] == a[i]);
        } else {
            assert((a + b)[i] == b[i - a.len()]);
        }
    }
}

proof fn lemma_safe_repeat(c: char, n: nat)
    requires
        is_safe_char(c),
    ensures
        safe_text(repeat_char(c, n)),
{
}

proof fn lemma_safe_spans_push(ss: Seq<SpanView>, s: SpanView)
    requires
        safe_spans(ss),
        safe_text(s.content),
    ensures
        safe_spans(ss.push(s)),
{
    assert forall|i: int| 0 <= i < ss.push(s).len() implies safe_text(#[trigger] ss.push(s)[i].content) by {
        if i < ss.len() {
            assert(ss.push(s)[i] == ss[i]);
        }
    }
}

proof fn lemma_safe_spans_concat(a: Seq<SpanView>, b: Seq<SpanView>)
    requires
        safe_spans(a),
        safe_spans(b),
    ensures
        safe_spans(a + b),
{
    assert forall|i: int| 0 <= i < (a + b).len() implies safe_text(#[trigger] (a + b)[i].content) by {
        if i < a.len() {
            assert((a + b)[i] == a[i]);
        } else {
            assert((a + b)[i] == b[i - a.len()]);
        }
    }
}

proof fn lemma_safe_lines_push(ls: Seq<LineView>, l: LineView)
    requires
        safe_lines(ls),
        safe_spans(l.spans),
    ensures
        safe_lines(ls.push(l)),
{
    assert forall|i: int| 0 <= i < ls.push(l).len() implies safe_spans(#[trigger] ls.push(l)[i].spans) by {
        if i < ls.len() {
            assert(ls.push(l)[i] == ls[i]);
        }
    }
}

proof fn lemma_safe_lines_concat(a: Seq<LineView>, b: Seq<LineView>)
    requires
        safe_lines(a),
        safe_lines(b),
    ensures
        safe_lines(a + b),
{
    assert forall|i: int| 0 <= i < (a + b).len() implies safe_spans(#[trigger] (a + b)[i].spans) by {
        if i < a.len() {
            assert((a + b)[i] == a[i]);
        } else {
            assert((a + b)[i] == b[i - a.len()]);
        }
    }
}

/// Ending a line keeps the writer safe.
proof fn lemma_flushed_safe(w: WriterView, force_empty: bool)
    requires
        safe_writer(w),
    ensures
        safe_writer(flushed(w, force_empty)),
{
    if w.current_spans.len() == 0 {
        if force_empty {
            lemma_safe_lines_push(w.lines, empty_line());
        }
    } else {
        lemma_safe_lines_push(w.lines, LineView { spans: w.current_spans, style: super::style::plain_style() });
    }
}

proof fn lemma_block_begun_safe(w: WriterView)
    requires
        safe_writer(w),
    ensures
        safe_writer(block_begun(w)),
{
    lemma_flushed_safe(w, false);
    let w1 = flushed(w, false);
    if w1.lines.len() > 0 && w1.lines.last().spans.len() > 0 {
        lemma_safe_lines_push(w1.lines, empty_line());
    }
}

proof fn lemma_indent_spans_safe(stack: Seq<IndentView>)
    requires
        safe_indents(stack),
    ensures
        safe_spans(super::writer::indent_spans(stack)),
    decreases stack.len(),
{
    if stack.len() > 0 {
        let rest = stack.drop_last();
        assert(safe_indents(rest)) by {
            assert forall|k: int| 0 <= k < rest.len() implies safe_spans(#[trigger] rest[k].first)
                && safe_spans(rest[k].continuation) by {
                assert(rest[k] == stack[k]);
            }
        }
        lemma_indent_spans_safe(rest);
        let last = stack.last();
        assert(safe_spans(last.first) && safe_spans(last.continuation)) by {
            let k = stack.len() - 1;
            assert(safe_indents(stack));
            assert(0 <= k < stack.len());
            assert(safe_spans(stack[k].first));
            assert(safe_spans(stack[k].continuation));
            assert(last == stack[k]);
        }
        let picked = if last.first_pending {
            last.first
        } else {
            last.continuation
        };
        lemma_safe_spans_concat(super::writer::indent_spans(rest), picked);
    }
}

/// Starting a line keeps the writer safe.
proof fn lemma_prefixed_safe(w: WriterView)
    requires
        safe_writer(w),
    ensures
        safe_writer(prefixed(w)),
{
    if w.current_spans.len() == 0 {
        let q = super::writer::quote_spans(w.blockquote_depth);
        assert(safe_spans(q)) by {
            reveal_strlit("> ");
            assert forall|i: int| 0 <= i < q.len() implies safe_text(#[trigger] q[i].content) by {
                assert(q[i].content == "> "@);
                assert forall|j: int| 0 <= j < q[i].content.len() implies is_safe_char(
                    #[trigger] q[i].content[j],
                ) by {}
            }
        }
        lemma_indent_spans_safe(w.indent_stack);
        lemma_safe_spans_concat(q, super::writer::indent_spans(w.indent_stack));
        let used = super::writer::indents_used(w.indent_stack);
        assert(safe_indents(used)) by {
            assert forall|k: int| 0 <= k < used.len() implies safe_spans(#[trigger] used[k].first)
                && safe_spans(used[k].continuation) by {
                assert(used[k].first == w.indent_stack[k].first);
                assert(used[k].continuation == w.indent_stack[k].continuation);
            }
        }
    }
}

/// Adding safe text keeps the writer safe.
proof fn lemma_styled_pushed_safe(w: WriterView, text: Seq<char>, style: super::style::Style)
    requires
        safe_writer(w),
        safe_text(text),
    ensures
        safe_writer(styled_pushed(w, text, style)),
{
    if text.len() > 0 {
        lemma_prefixed_safe(w);
        let w1 = prefixed(w);
        lemma_safe_spans_push(w1.current_spans, super::writer::span_of(text, style));
    }
}

/// Adding any text through sanitizing keeps the writer safe.
proof fn lemma_text_pushed_safe(w: WriterView, text: Seq<char>)
    requires
        safe_writer(w),
    ensures
        safe_writer(text_pushed(w, text)),
{
    lemma_sanitized_is_safe(text, 0, AnsiState::Plain);
    lemma_styled_pushed_safe(w, sanitized(text), super::writer::current_style(w));
}

proof fn lemma_rule_safe(w: WriterView)
    requires
        safe_writer(w),
    ensures
        safe_writer(rule_pushed(w)),
{
    lemma_block_begun_safe(w);
    let w1 = block_begun(w);
    assert(is_safe_char('─'));
    lemma_safe_repeat('─', 40);
    lemma_styled_pushed_safe(w1, repeat_char('─', 40), super::writer::adding(super::writer::dim()));
    lemma_flushed_safe(
        styled_pushed(w1, repeat_char('─', 40), super::writer::adding(super::writer::dim())),
        false,
    );
}

proof fn lemma_digit_safe(d: nat)
    ensures
        is_safe_char(digit(d)),
{
}

proof fn lemma_dec_safe(n: nat)
    ensures
        safe_text(dec(n)),
    decreases n,
{
    if n < 10 {
        lemma_digit_safe(n);
    } else {
        lemma_dec_safe(n / 10);
        lemma_digit_safe(n % 10);
        lemma_safe_concat(dec(n / 10), seq![digit(n % 10)]);
        assert(dec(n) == dec(n / 10) + seq![digit(n % 10)]);
    }
}

proof fn lemma_literal_safe_dot_blank()
    ensures
        safe_text(". "@),
        safe_text("- "@),
        safe_text(" "@),
{
    reveal_strlit(". ");
    reveal_strlit("- ");
    reveal_strlit(" ");
}

/// Starting a list item keeps the writer safe.
proof fn lemma_item_started_safe(w: WriterView)
    requires
        safe_writer(w),
    ensures
        safe_writer(item_started(w)),
{
    lemma_flushed_safe(w, false);
    let w1 = flushed(w, false);
    let ctx = super::writer::item_indent(w1);
    let marker = super::writer::item_marker(super::writer::current_index(w1));
    lemma_literal_safe_dot_blank();
    assert(safe_text(marker)) by {
        match super::writer::current_index(w1) {
            Some(i) => {
                lemma_dec_safe(i as nat);
                lemma_safe_concat(dec(i as nat), ". "@);
            },
            None => {},
        }
    }
    let base = super::writer::base_indent(w1);
    lemma_safe_repeat(' ', base);
    lemma_safe_repeat(' ', base + marker.len());
    assert(safe_spans(ctx.first));
    assert(safe_spans(ctx.continuation));
    let stack = w1.indent_stack.push(ctx);
    assert forall|k: int| 0 <= k < stack.len() implies safe_spans(#[trigger] stack[k].first)
        && safe_spans(stack[k].continuation) by {
        if k < w1.indent_stack.len() {
            assert(stack[k] == w1.indent_stack[k]);
            assert(safe_spans(w1.indent_stack[k].first));
            assert(safe_spans(w1.indent_stack[k].continuation));
        }
    }
}

/// Ending a list item keeps the writer safe.
proof fn lemma_item_finished_safe(w: WriterView)
    requires
        safe_writer(w),
    ensures
        safe_writer(item_finished(w)),
{
    lemma_flushed_safe(w, false);
    let w1 = flushed(w, false);
    if w1.indent_stack.len() > 0 {
        let st = w1.indent_stack.drop_last();
        assert forall|k: int| 0 <= k < st.len() implies safe_spans(#[trigger] st[k].first)
            && safe_spans(st[k].continuation) by {
            assert(st[k] == w1.indent_stack[k]);
            assert(safe_spans(w1.indent_stack[k].first));
            assert(safe_spans(w1.indent_stack[k].continuation));
        }
    }
}

proof fn lemma_split_on_safe(s: Seq<char>, c: char)
    requires
        safe_text(s),
    ensures
        safe_cells(split_on(s, c)),
    decreases s.len(),
{
    if s.len() > 0 {
        let t = s.drop_last();
        assert(safe_text(t)) by {
            assert forall|i: int| 0 <= i < t.len() implies is_safe_char(#[trigger] t[i]) by {
                assert(t[i] == s[i]);
            }
        }
        lemma_split_on_safe(t, c);
        let rest = split_on(t, c);
        crate::text::lemma_split_on_nonempty(t, c);
        if s.last() == c {
            assert forall|i: int| 0 <= i < rest.push(seq![]).len() implies safe_text(
                #[trigger] rest.push(seq![])[i],
            ) by {
                if i < rest.len() {
                    assert(rest.push(seq![])[i] == rest[i]);
                }
            }
        } else {
            let last = rest.last().push(s.last());
            assert(safe_text(last)) by {
                assert(safe_text(rest[rest.len() - 1]));
                assert(is_safe_char(s[s.len() - 1]));
                lemma_safe_concat(rest.last(), seq![s.last()]);
                assert(last == rest.last() + seq![s.last()]);
            }
            let u = rest.update(rest.len() - 1, last);
            assert forall|i: int| 0 <= i < u.len() implies safe_text(#[trigger] u[i]) by {
                if i < rest.len() - 1 {
                    assert(u[i] == rest[i]);
                }
            }
        }
    }
}

proof fn lemma_lines_pushed_safe(w: WriterView, ls: Seq<Seq<char>>, style: super::style::Style)
    requires
        safe_writer(w),
        safe_cells(ls),
    ensures
        safe_writer(lines_pushed(w, ls, style)),
    decreases ls.len(),
{
    if ls.len() > 0 {
        let init = ls.drop_last();
        assert(safe_cells(init)) by {
            assert forall|i: int| 0 <= i < init.len() implies safe_text(#[trigger] init[i]) by {
                assert(init[i] == ls[i]);
            }
        }
        lemma_lines_pushed_safe(w, init, style);
        let w1 = lines_pushed(w, init, style);
        assert(safe_text(ls[ls.len() - 1]));
        lemma_styled_pushed_safe(w1, ls.last(), style);
        lemma_flushed_safe(styled_pushed(w1, ls.last(), style), false);
    }
}

/// Ending a code block keeps the writer safe.
proof fn lemma_code_emitted_safe(w: WriterView)
    requires
        safe_writer(w),
    ensures
        safe_writer(code_emitted(w)),
{
    let code = w.code_block_buffer;
    let w0 = WriterView { code_block_buffer: seq![], in_code_block: false, ..w };
    assert(safe_writer(w0));
    if code.len() == 0 {
        lemma_flushed_safe(w0, true);
    } else {
        lemma_split_on_safe(code, '\n');
        let ls = code_lines(code);
        assert(safe_cells(ls)) by {
            let all = split_on(code, '\n');
            assert forall|i: int| 0 <= i < ls.len() implies safe_text(#[trigger] ls[i]) by {
                assert(ls[i] == all[i]);
            }
        }
        lemma_lines_pushed_safe(w0, ls, super::writer::with_fg(super::style::plain_style(), super::style::Color::Cyan));
    }
}

proof fn lemma_border_cells_safe(widths: Seq<nat>, from: nat, middle: char, right: char)
    requires
        is_safe_char(middle),
        is_safe_char(right),
    ensures
        safe_spans(super::writer::border_cells(widths, from, middle, right)),
    decreases widths.len() - from,
{
    if from < widths.len() {
        lemma_border_cells_safe(widths, from + 1, middle, right);
        assert(is_safe_char('─'));
        lemma_safe_repeat('─', widths[from as int] + 2);
        let end = if from + 1 == widths.len() {
            right
        } else {
            middle
        };
        let d = super::writer::adding(super::writer::dim());
        let head = seq![
            super::writer::span_of(repeat_char('─', widths[from as int] + 2), d),
            super::writer::span_of(seq![end], d),
        ];
        assert(safe_spans(head));
        lemma_safe_spans_concat(head, super::writer::border_cells(widths, from + 1, middle, right));
    }
}

proof fn lemma_border_line_safe(widths: Seq<nat>, left: char, middle: char, right: char)
    requires
        is_safe_char(left),
        is_safe_char(middle),
        is_safe_char(right),
    ensures
        safe_spans(super::writer::border_line(widths, left, middle, right).spans),
{
    lemma_border_cells_safe(widths, 0, middle, right);
    let d = super::writer::adding(super::writer::dim());
    assert(safe_spans(seq![super::writer::span_of(seq![left], d)]));
    lemma_safe_spans_concat(
        seq![super::writer::span_of(seq![left], d)],
        super::writer::border_cells(widths, 0, middle, right),
    );
}

proof fn lemma_row_cells_safe(
    row: Seq<Seq<char>>,
    widths: Seq<nat>,
    alignments: Seq<super::writer::ColumnAlignment>,
    from: nat,
)
    requires
        safe_cells(row),
    ensures
        safe_spans(super::writer::row_cells(row, widths, alignments, from)),
    decreases widths.len() - from,
{
    if from < widths.len() {
        lemma_row_cells_safe(row, widths, alignments, from + 1);
        let cell = if from < row.len() {
            row[from as int]
        } else {
            seq![]
        };
        let al = if from < alignments.len() {
            alignments[from as int]
        } else {
            super::writer::ColumnAlignment::Unset
        };
        let p = super::writer::padded_cell(cell, widths[from as int], al);
        assert(safe_text(p)) by {
            let cw = super::writer::unicode_width(cell) as nat;
            let padding: nat = if widths[from as int] > cw {
                (widths[from as int] - cw) as nat
            } else {
                0
            };
            lemma_safe_repeat(' ', padding);
            lemma_safe_repeat(' ', padding / 2);
            lemma_safe_repeat(' ', (padding - padding / 2) as nat);
            lemma_safe_repeat(' ', 0);
            let (l, r) = match al {
                super::writer::ColumnAlignment::Right => (padding, 0nat),
                super::writer::ColumnAlignment::Center => (padding / 2, (padding - padding / 2) as nat),
                _ => (0nat, padding),
            };
            lemma_safe_concat(repeat_char(' ', l), cell);
            lemma_safe_concat(repeat_char(' ', l) + cell, repeat_char(' ', r));
        }
        reveal_strlit(" ");
        reveal_strlit("│");
        let head = seq![
            super::writer::span_of(" "@, super::style::plain_style()),
            super::writer::span_of(p, super::style::plain_style()),
            super::writer::span_of(" "@, super::style::plain_style()),
            super::writer::span_of("│"@, super::writer::adding(super::writer::dim())),
        ];
        assert(safe_text("│"@));
        assert(safe_text(" "@));
        assert(safe_spans(head));
        lemma_safe_spans_concat(head, super::writer::row_cells(row, widths, alignments, from + 1));
    }
}

proof fn lemma_row_line_safe(
    row: Seq<Seq<char>>,
    widths: Seq<nat>,
    alignments: Seq<super::writer::ColumnAlignment>,
)
    requires
        safe_cells(row),
    ensures
        safe_spans(super::writer::row_line(row, widths, alignments).spans),
{
    lemma_row_cells_safe(row, widths, alignments, 0);
    reveal_strlit("│");
    assert(safe_text("│"@));
    let head = seq![super::writer::span_of("│"@, super::writer::adding(super::writer::dim()))];
    assert(safe_spans(head));
    lemma_safe_spans_concat(head, super::writer::row_cells(row, widths, alignments, 0));
}

/// Laying out a collected table keeps the writer safe.
proof fn lemma_table_rendered_safe(w: WriterView)
    requires
        safe_writer(w),
    ensures
        safe_writer(table_rendered(w)),
{
    match w.table_state {
        None => {},
        Some(t) => {
            let ws = super::writer::column_widths(t);
            let top = super::writer::border_line(ws, '┌', '┬', '┐');
            let mid = super::writer::border_line(ws, '├', '┼', '┤');
            let bottom = super::writer::border_line(ws, '└', '┴', '┘');
            lemma_border_line_safe(ws, '┌', '┬', '┐');
            lemma_border_line_safe(ws, '├', '┼', '┤');
            lemma_border_line_safe(ws, '└', '┴', '┘');
            let head: Seq<LineView> = match t.header {
                Some(h) => {
                    lemma_row_line_safe(h, ws, t.alignments);
                    seq![super::writer::row_line(h, ws, t.alignments), mid]
                },
                None => seq![],
            };
            assert(safe_lines(head));
            let body = super::writer::body_lines(t.rows, ws, t.alignments);
            assert forall|i: int| 0 <= i < body.len() implies safe_spans(#[trigger] body[i].spans) by {
                assert(safe_cells(t.rows[i]));
                lemma_row_line_safe(t.rows[i], ws, t.alignments);
            }
            assert(safe_lines(seq![top]));
            assert(safe_lines(seq![bottom]));
            lemma_safe_lines_concat(seq![top], head);
            lemma_safe_lines_concat(seq![top] + head, body);
            lemma_safe_lines_concat(seq![top] + head + body, seq![bottom]);
            assert(super::writer::table_lines(t) == seq![top] + head + body + seq![bottom]);
            lemma_safe_lines_concat(w.lines, super::writer::table_lines(t));
        },
    }
}

proof fn lemma_words_safe(s: Seq<char>)
    requires
        safe_text(s),
    ensures
        safe_cells(words(s)),
    decreases s.len(),
{
    if s.len() > 0 {
        let t = s.drop_last();
        assert(safe_text(t)) by {
            assert forall|i: int| 0 <= i < t.len() implies is_safe_char(#[trigger] t[i]) by {
                assert(t[i] == s[i]);
            }
        }
        lemma_words_safe(t);
        let w = words(t);
        let c = s.last();
        assert(is_safe_char(s[s.len() - 1]));
        if crate::text::is_ws(c) {
        } else if s.len() >= 2 && !crate::text::is_ws(s[s.len() - 2]) && w.len() > 0 {
            let last = w.last().push(c);
            assert(safe_text(w[w.len() - 1]));
            lemma_safe_concat(w.last(), seq![c]);
            assert(last == w.last() + seq![c]);
            let u = w.update(w.len() - 1, last);
            assert forall|i: int| 0 <= i < u.len() implies safe_text(#[trigger] u[i]) by {
                if i < w.len() - 1 {
                    assert(u[i] == w[i]);
                }
            }
        } else {
            let u = w.push(seq![c]);
            assert forall|i: int| 0 <= i < u.len() implies safe_text(#[trigger] u[i]) by {
                if i < w.len() {
                    assert(u[i] == w[i]);
                }
            }
        }
    }
}

proof fn lemma_join_safe(parts: Seq<Seq<char>>, sep: Seq<char>)
    requires
        safe_cells(parts),
        safe_text(sep),
    ensures
        safe_text(join(parts, sep)),
    decreases parts.len(),
{
    if parts.len() == 1 {
        assert(safe_text(parts[0]));
    } else if parts.len() > 1 {
        let init = parts.drop_last();
        assert(safe_cells(init)) by {
            assert forall|i: int| 0 <= i < init.len() implies safe_text(#[trigger] init[i]) by {
                assert(init[i] == parts[i]);
            }
        }
        lemma_join_safe(init, sep);
        assert(safe_text(parts[parts.len() - 1]));
        lemma_safe_concat(join(init, sep), sep);
        lemma_safe_concat(join(init, sep) + sep, parts.last());
    }
}

/// Collecting a table keeps the collected text safe, given safe event text.
proof fn lemma_table_step_safe(t: TableView, e: MdEvent)
    requires
        safe_table(t),
        safe_event(e),
    ensures
        safe_table(table_step(t, e)),
{
    match e {
        MdEvent::End(super::writer::MdTagEnd::TableRow) => {
            assert forall|r: int| 0 <= r < t.rows.push(t.current_row).len() implies safe_cells(
                #[trigger] t.rows.push(t.current_row)[r],
            ) by {
                if r < t.rows.len() {
                    assert(t.rows.push(t.current_row)[r] == t.rows[r]);
                }
            }
        },
        MdEvent::End(super::writer::MdTagEnd::TableCell) => {
            lemma_words_safe(t.current_cell);
            reveal_strlit(" ");
            assert(safe_text(" "@));
            lemma_join_safe(words(t.current_cell), " "@);
            let cell = super::writer::normalized_cell(t.current_cell);
            assert forall|i: int| 0 <= i < t.current_row.push(cell).len() implies safe_text(
                #[trigger] t.current_row.push(cell)[i],
            ) by {
                if i < t.current_row.len() {
                    assert(t.current_row.push(cell)[i] == t.current_row[i]);
                }
            }
        },
        MdEvent::Text(x) | MdEvent::Code(x) | MdEvent::Html(x) | MdEvent::InlineHtml(x)
        | MdEvent::InlineMath(x) | MdEvent::DisplayMath(x) => {
            lemma_safe_concat(t.current_cell, x@);
        },
        MdEvent::SoftBreak | MdEvent::HardBreak => {
            lemma_safe_concat(t.current_cell, seq![' ']);
            assert(t.current_cell.push(' ') == t.current_cell + seq![' ']);
        },
        _ => {},
    }
}

proof fn lemma_started_safe(w: WriterView, tag: super::writer::MdTag)
    requires
        safe_writer(w),
    ensures
        safe_writer(started(w, tag)),
{
    match tag {
        MdTag::Paragraph => {
            if w.list_indices.len() == 0 {
                lemma_block_begun_safe(w);
            }
        },
        MdTag::Heading(level) => {
            lemma_block_begun_safe(w);
            let w1 = block_begun(w);
            let style = super::writer::heading_style(level);
            let w2 = WriterView {
                heading_level: Some(level),
                inline_styles: w1.inline_styles.push(style),
                ..w1
            };
            assert(is_safe_char('#'));
            lemma_safe_repeat('#', super::writer::heading_number(level));
            lemma_literal_safe_dot_blank();
            lemma_safe_concat(repeat_char('#', super::writer::heading_number(level)), " "@);
            lemma_styled_pushed_safe(
                w2,
                repeat_char('#', super::writer::heading_number(level)) + " "@,
                style,
            );
        },
        MdTag::BlockQuote | MdTag::CodeBlock | MdTag::Table(_) => {
            lemma_block_begun_safe(w);
        },
        MdTag::List(_) => {
            if w.current_spans.len() == 0 && w.needs_newline && w.list_indices.len() == 0
                && !w.in_paragraph {
                if w.lines.len() > 0 && w.lines.last().spans.len() > 0 {
                    lemma_safe_lines_push(w.lines, empty_line());
                }
            } else if w.current_spans.len() > 0 {
                lemma_flushed_safe(w, false);
            }
        },
        MdTag::Item => lemma_item_started_safe(w),
        _ => {},
    }
}

proof fn lemma_ended_safe(w: WriterView, tag: super::writer::MdTagEnd)
    requires
        safe_writer(w),
    ensures
        safe_writer(ended(w, tag)),
{
    match tag {
        MdTagEnd::Paragraph => lemma_flushed_safe(WriterView { in_paragraph: false, ..w }, false),
        MdTagEnd::Heading => {
            let w1 = WriterView { heading_level: None, ..super::writer::style_popped(w) };
            lemma_flushed_safe(w1, false);
        },
        MdTagEnd::BlockQuote | MdTagEnd::List => lemma_flushed_safe(w, false),
        MdTagEnd::CodeBlock => lemma_code_emitted_safe(w),
        MdTagEnd::Item => lemma_item_finished_safe(w),
        MdTagEnd::Table => lemma_table_rendered_safe(w),
        _ => {},
    }
}

/// One event with safe text keeps the writer safe.
pub proof fn lemma_step_safe(w: WriterView, e: MdEvent)
    requires
        safe_writer(w),
        safe_event(e),
    ensures
        safe_writer(step(w, e)),
{
    if w.in_code_block {
        match e {
            MdEvent::End(super::writer::MdTagEnd::CodeBlock) => lemma_code_emitted_safe(w),
            MdEvent::Text(t) | MdEvent::Code(t) | MdEvent::Html(t) | MdEvent::InlineHtml(t) => {
                lemma_safe_concat(w.code_block_buffer, t@);
            },
            MdEvent::SoftBreak | MdEvent::HardBreak => {
                lemma_safe_concat(w.code_block_buffer, seq!['\n']);
                assert(w.code_block_buffer.push('\n') == w.code_block_buffer + seq!['\n']);
            },
            _ => {},
        }
    } else if w.table_state is Some {
        match e {
            MdEvent::End(super::writer::MdTagEnd::Table) => lemma_table_rendered_safe(w),
            _ => lemma_table_step_safe(w.table_state.unwrap(), e),
        }
    } else {
        match e {
            MdEvent::Start(tag) => lemma_started_safe(w, tag),
            MdEvent::End(tag) => lemma_ended_safe(w, tag),
            MdEvent::Code(c) => lemma_styled_pushed_safe(
                w,
                c@,
                super::writer::with_fg(super::writer::current_style(w), super::style::Color::Cyan),
            ),
            MdEvent::HardBreak => lemma_flushed_safe(w, false),
            MdEvent::Rule => lemma_rule_safe(w),
            MdEvent::Text(t) | MdEvent::InlineMath(t) | MdEvent::DisplayMath(t) | MdEvent::Html(t)
            | MdEvent::InlineHtml(t) => lemma_text_pushed_safe(w, t@),
            MdEvent::SoftBreak => lemma_text_pushed_safe(w, " "@),
            MdEvent::TaskListMarker(done) => lemma_text_pushed_safe(w, super::writer::task_marker(done)),
            MdEvent::FootnoteReference(l) => lemma_text_pushed_safe(w, "["@ + l@ + "]"@),
        }
    }
}

proof fn lemma_steps_safe(w: WriterView, es: Seq<MdEvent>)
    requires
        safe_writer(w),
        forall|k: int| 0 <= k < es.len() ==> safe_event(#[trigger] es[k]),
    ensures
        safe_writer(steps(w, es)),
    decreases es.len(),
{
    if es.len() > 0 {
        let init = es.drop_last();
        assert forall|k: int| 0 <= k < init.len() implies safe_event(#[trigger] init[k]) by {
            assert(init[k] == es[k]);
        }
        lemma_steps_safe(w, init);
        assert(safe_event(es[es.len() - 1]));
        lemma_step_safe(steps(w, init), es.last());
    }
}

/// The writer adds no unsafe character of its own: when every text the
/// events carry is safe, every span of every rendered line is safe; text
/// laid out as prose is sanitized on the way, whatever it carried.
pub proof fn lemma_rendered_lines_safe(es: Seq<MdEvent>)
    requires
        forall|k: int| 0 <= k < es.len() ==> safe_event(#[trigger] es[k]),
    ensures
        safe_lines(rendered_events(es)),
{
    assert(safe_writer(super::writer::initial_writer()));
    lemma_steps_safe(super::writer::initial_writer(), es);
    let w = steps(super::writer::initial_writer(), es);
    if w.in_code_block {
        lemma_code_emitted_safe(w);
        lemma_flushed_safe(code_emitted(w), false);
    } else {
        lemma_flushed_safe(w, false);
    }
}

} // verus!
