use acrawl_runtime::markdown::parse::{render_lines, TerminalRenderer};
use acrawl_runtime::markdown::style::{text_to_ansi, Color, Line, Modifiers, Span, Style};
use acrawl_runtime::markdown::writer::{render_events, ColumnAlignment, MdEvent, MdTag, MdTagEnd};
use acrawl_runtime::markdown::{drain_safe_boundary, strip_ansi, MarkdownStreamState};

fn no_mods() -> Modifiers {
    Modifiers { bold: false, dim: false, italic: false, underlined: false, crossed_out: false }
}

fn fg(c: Color) -> Style {
    Style { fg: Some(c), bg: None, add_modifier: no_mods(), sub_modifier: no_mods() }
}

fn span(text: &str, style: Style) -> Span {
    Span { content: text.to_string(), style }
}

fn line(spans: Vec<Span>) -> Line {
    Line { spans, style: Style::plain() }
}

fn plain_of(lines: &[Line]) -> String {
    lines.iter().flat_map(|l| l.spans.iter().map(|s| s.content.as_str())).collect()
}

fn texts_of(lines: &[Line]) -> Vec<String> {
    lines.iter().map(|l| l.spans.iter().map(|s| s.content.as_str()).collect()).collect()
}

fn md_to_ansi(md: &str) -> String {
    TerminalRenderer::new().markdown_to_ansi(md)
}

#[test]
fn render_lines_styles_heading() {
    let lines = render_lines("# Heading\n");
    assert!(plain_of(&lines).contains("Heading"));
    let any_styled = lines.iter().any(|l| {
        l.style.fg.is_some()
            || l.style.add_modifier != no_mods()
            || l.spans.iter().any(|s| s.style.fg.is_some() || s.style.add_modifier != no_mods())
    });
    assert!(any_styled, "heading should carry styling");
}

#[test]
fn render_lines_handles_lists_and_emphasis() {
    let lines = render_lines("- one\n- two\n\n**bold** and *italic*\n");
    let plain = plain_of(&lines);
    assert!(plain.contains("one"));
    assert!(plain.contains("two"));
    assert!(plain.contains("bold"));
    assert!(plain.contains("italic"));
}

#[test]
fn render_lines_nested_lists() {
    let md = "1. First item\n    - Nested bullet\n    - Another\n2. Second item\n";
    let texts = texts_of(&render_lines(md));
    let nested_line = texts.iter().find(|t| t.contains("Nested bullet")).expect("nested bullet line");
    let top_line = texts.iter().find(|t| t.contains("First item")).expect("first item line");
    let nested_indent = nested_line.len() - nested_line.trim_start().len();
    let top_indent = top_line.len() - top_line.trim_start().len();
    assert!(nested_indent > top_indent, "nested={nested_indent}, top={top_indent}, lines={texts:?}");
}

#[test]
fn render_lines_styled_list_items_same_line() {
    let md = "1. **Bold item** with text\n2. Normal item\n";
    let texts: Vec<String> = texts_of(&render_lines(md)).into_iter().filter(|t| !t.is_empty()).collect();
    let first = texts.iter().find(|t| t.contains("Bold item")).expect("bold item line");
    assert!(first.contains("1.") || first.starts_with('1'), "marker and content on same line: {first:?}");
}

#[test]
fn render_lines_strips_injected_escape_sequences_from_text() {
    let md = "Title: evil\u{1b}[31mRED\u{1b}]0;pwned\u{07} tail\n";
    let lines = render_lines(md);
    let plain = plain_of(&lines);
    assert!(!plain.contains('\u{1b}'), "expected no raw ESC bytes in rendered spans: {plain:?}");
    assert!(plain.contains("evilRED"), "text content preserved: {plain:?}");
    assert!(plain.contains("tail"), "text content preserved: {plain:?}");
    assert!(!plain.contains("pwned"), "OSC payload should not leak into rendered text: {plain:?}");
    let ansi = text_to_ansi(&lines);
    assert!(!ansi.contains("\u{1b}]0;pwned"), "OSC injection must not survive into the ANSI stream: {ansi:?}");
}

#[test]
fn markdown_to_ansi_round_trips_through_strip_ansi() {
    let renderer = TerminalRenderer::new();
    let ansi = renderer.markdown_to_ansi("# Heading\n\n**bold** and `code` and a [link](https://example.com).\n");
    let plain = strip_ansi(&ansi);
    for needle in ["Heading", "bold", "code", "link"] {
        assert!(plain.contains(needle), "missing {needle:?} in {plain:?}");
    }
    assert!(ansi.contains('\u{1b}'), "expected ANSI escapes");
}

#[test]
fn markdown_to_ansi_handles_fenced_code_block() {
    let renderer = TerminalRenderer::new();
    let ansi = renderer.markdown_to_ansi("```rust\nfn hi() { println!(\"hi\"); }\n```\n");
    let plain = strip_ansi(&ansi);
    assert!(plain.contains("fn hi"));
}

#[test]
fn empty_markdown_yields_empty_ansi() {
    let renderer = TerminalRenderer::new();
    let ansi = renderer.markdown_to_ansi("");
    assert!(ansi.is_empty(), "got {ansi:?}");
}

#[test]
fn render_lines_preserves_very_long_lines() {
    let long = "x".repeat(8_192);
    let lines = render_lines(&long);
    assert_eq!(lines.len(), 1, "expected a single rendered line");
    let plain: String = lines[0].spans.iter().map(|s| s.content.as_str()).collect();
    assert_eq!(plain.len(), long.len());
    assert_eq!(plain, long);
}

#[test]
fn streaming_state_waits_for_complete_blocks() {
    let renderer = TerminalRenderer::new();
    let mut state = MarkdownStreamState::default();
    assert_eq!(state.push(&renderer, "# Heading"), None);
    let flushed = state.push(&renderer, "\n\nParagraph\n\n").expect("completed block");
    let plain = strip_ansi(&flushed);
    assert!(plain.contains("Heading"));
    assert!(plain.contains("Paragraph"));
    assert_eq!(state.push(&renderer, "```rust\nfn main() {}\n"), None);
    let code = state.push(&renderer, "```\n").expect("closed code fence flushes");
    assert!(strip_ansi(&code).contains("fn main()"));
}

#[test]
fn streaming_state_push_handles_incremental_content() {
    let rndr = TerminalRenderer::new();
    let mut state = MarkdownStreamState::default();
    assert_eq!(state.push(&rndr, "# He"), None);
    assert_eq!(state.push(&rndr, "ading"), None);
    let heading = state.push(&rndr, "\n\nPar").expect("completed heading should flush before partial paragraph");
    assert!(strip_ansi(&heading).contains("Heading"), "got {heading:?}");
    let output = state.push(&rndr, "agraph with **bold** text\n").expect("newline should flush a complete chunk");
    let plain = strip_ansi(&output);
    assert!(plain.contains("Paragraph with bold text"), "got {plain:?}");
    assert!(output.contains("\u{1b}[1m"), "expected bold styling in {output:?}");
    assert!(state.flush(&rndr).is_none(), "no trailing content should remain");
}

#[test]
fn streaming_state_holds_partial_content_until_boundary() {
    let rndr = TerminalRenderer::new();
    let mut state = MarkdownStreamState::default();
    assert_eq!(state.push(&rndr, "partial paragraph"), None);
    assert_eq!(state.push(&rndr, " still pending"), None);
    let flushed = state.flush(&rndr).expect("flush should emit pending text");
    assert_eq!(strip_ansi(&flushed), "partial paragraph still pending");
}

#[test]
fn streaming_state_buffers_tilde_fences() {
    let renderer = TerminalRenderer::new();
    let mut state = MarkdownStreamState::default();
    assert_eq!(state.push(&renderer, "~~~rust\nfn body() {}\n"), None);
    let code = state.push(&renderer, "~~~\n").expect("closed tilde fence flushes");
    assert!(strip_ansi(&code).contains("fn body()"));
}

#[test]
fn drain_safe_boundary_holds_open_fence() {
    let mut buffer = String::from("```rust\nfn pending() {}\n");
    assert!(drain_safe_boundary(&mut buffer).is_none());
    assert!(buffer.starts_with("```rust"));
    buffer.push_str("```\n");
    let rendered = drain_safe_boundary(&mut buffer).expect("now boundary reached");
    assert!(plain_of(&rendered).contains("fn pending"));
    assert!(buffer.is_empty(), "buffer should be drained, got {buffer:?}");
}

#[test]
fn text_to_ansi_emits_foreground_and_modifiers() {
    let mut style = fg(Color::Red);
    style.add_modifier.bold = true;
    style.add_modifier.italic = true;
    let ansi = text_to_ansi(&[line(vec![span("hi", style)])]);
    assert!(ansi.contains("\u{1b}[31m"), "missing red fg in {ansi:?}");
    assert!(ansi.contains("\u{1b}[1m"), "missing bold in {ansi:?}");
    assert!(ansi.contains("\u{1b}[3m"), "missing italic in {ansi:?}");
    assert!(ansi.contains("hi"));
    assert!(ansi.ends_with("\u{1b}[0m"), "missing trailing reset");
}

#[test]
fn text_to_ansi_emits_rgb_indexed_and_background() {
    let rgb = fg(Color::Rgb(10, 20, 30));
    let indexed = fg(Color::Indexed(208));
    let mut bg = Style::plain();
    bg.bg = Some(Color::Black);
    let rgb_ansi = text_to_ansi(&[line(vec![span("a", rgb)])]);
    let idx_ansi = text_to_ansi(&[line(vec![span("b", indexed)])]);
    let bg_ansi = text_to_ansi(&[line(vec![span("c", bg)])]);
    assert!(rgb_ansi.contains("\u{1b}[38;2;10;20;30m"), "got {rgb_ansi:?}");
    assert!(idx_ansi.contains("\u{1b}[38;5;208m"), "got {idx_ansi:?}");
    assert!(bg_ansi.contains("\u{1b}[40m"), "got {bg_ansi:?}");
}

#[test]
fn text_to_ansi_emits_one_reset_per_line_when_style_unchanged() {
    let style = fg(Color::Green);
    let ansi = text_to_ansi(&[line(vec![span("foo", style), span("bar", style)])]);
    let resets = ansi.matches("\u{1b}[0m").count();
    assert_eq!(resets, 1, "got {ansi:?}");
}

#[test]
fn streaming_flush_drains_pending() {
    let renderer = TerminalRenderer::new();
    let mut state = MarkdownStreamState::default();
    assert_eq!(state.push(&renderer, "trailing text without newline"), None);
    let flushed = state.flush(&renderer).expect("flush emits remainder");
    assert!(strip_ansi(&flushed).contains("trailing text"));
    assert!(state.flush(&renderer).is_none());
}

#[test]
fn golden_h1_bold_underlined() {
    let ansi = md_to_ansi("# Hello\n");
    assert!(ansi.contains("\x1b[1m"), "H1 must contain BOLD escape, got: {ansi:?}");
    assert!(ansi.contains("\x1b[4m"), "H1 must contain UNDERLINED escape, got: {ansi:?}");
    assert!(ansi.contains("# Hello"), "H1 must contain '# Hello', got: {ansi:?}");
    assert_eq!(ansi, "\x1b[1m\x1b[4m# Hello\x1b[0m");
}

#[test]
fn golden_h2_bold_only() {
    let ansi = md_to_ansi("## World\n");
    assert!(ansi.contains("\x1b[1m"), "H2 must contain BOLD, got: {ansi:?}");
    assert!(!ansi.contains("\x1b[4m"), "H2 must NOT contain UNDERLINED, got: {ansi:?}");
    assert!(!ansi.contains("\x1b[3m"), "H2 must NOT contain ITALIC, got: {ansi:?}");
    assert_eq!(ansi, "\x1b[1m## World\x1b[0m");
}

#[test]
fn golden_h3_bold_italic() {
    let ansi = md_to_ansi("### Third\n");
    assert!(ansi.contains("\x1b[1m"), "H3 must contain BOLD, got: {ansi:?}");
    assert!(ansi.contains("\x1b[3m"), "H3 must contain ITALIC, got: {ansi:?}");
    assert!(!ansi.contains("\x1b[4m"), "H3 must NOT contain UNDERLINED, got: {ansi:?}");
    assert_eq!(ansi, "\x1b[1m\x1b[3m### Third\x1b[0m");
}

#[test]
fn golden_bold_text() {
    let ansi = md_to_ansi("**bold**\n");
    assert!(ansi.contains("\x1b[1m"), "bold must contain BOLD escape, got: {ansi:?}");
    assert!(ansi.contains("bold"), "must contain text 'bold', got: {ansi:?}");
    assert_eq!(ansi, "\x1b[1mbold\x1b[0m");
}

#[test]
fn golden_italic_text() {
    let ansi = md_to_ansi("*italic*\n");
    assert!(ansi.contains("\x1b[3m"), "italic must contain ITALIC escape, got: {ansi:?}");
    assert!(!ansi.contains("\x1b[1m"), "italic must NOT contain BOLD, got: {ansi:?}");
    assert_eq!(ansi, "\x1b[3mitalic\x1b[0m");
}

#[test]
fn golden_inline_code_cyan() {
    let ansi = md_to_ansi("`code`\n");
    assert!(ansi.contains("\x1b[36m"), "inline code must contain Cyan fg, got: {ansi:?}");
    assert!(ansi.contains("code"), "must contain text, got: {ansi:?}");
    assert_eq!(ansi, "\x1b[36mcode\x1b[0m");
}

#[test]
fn golden_fenced_code_block_cyan() {
    let ansi = md_to_ansi("```\nhello world\n```\n");
    assert!(ansi.contains("\x1b[36m"), "fenced code must contain Cyan fg, got: {ansi:?}");
    assert!(ansi.contains("hello world"), "must contain code text, got: {ansi:?}");
    assert_eq!(ansi, "\x1b[36mhello world\x1b[0m");
}

#[test]
fn golden_fenced_code_block_with_language() {
    let ansi = md_to_ansi("```rust\nfn main() {}\n```\n");
    assert!(ansi.contains("\x1b[36m"), "tagged code must contain Cyan, got: {ansi:?}");
    assert!(ansi.contains("fn main() {}"), "must preserve code content, got: {ansi:?}");
    assert_eq!(ansi, "\x1b[36mfn main() {}\x1b[0m");
}

#[test]
fn golden_link_cyan_underlined() {
    let ansi = md_to_ansi("[click here](https://example.com)\n");
    assert!(ansi.contains("\x1b[36m"), "link must contain Cyan fg, got: {ansi:?}");
    assert!(ansi.contains("\x1b[4m"), "link must contain UNDERLINED, got: {ansi:?}");
    assert!(ansi.contains("click here"), "link text must be present, got: {ansi:?}");
    assert_eq!(ansi, "\x1b[36m\x1b[4mclick here\x1b[0m");
}

#[test]
fn golden_unordered_list() {
    let ansi = md_to_ansi("- one\n- two\n");
    let plain = strip_ansi(&ansi);
    assert!(plain.contains("- one"), "must contain '- one', got: {plain:?}");
    assert!(plain.contains("- two"), "must contain '- two', got: {plain:?}");
    assert!(!ansi.contains("\x1b[94m"), "unordered list must NOT have LightBlue markers, got: {ansi:?}");
}

#[test]
fn golden_ordered_list_lightblue_markers() {
    let ansi = md_to_ansi("1. first\n2. second\n");
    assert!(ansi.contains("\x1b[94m"), "ordered list must use LightBlue (94) for markers, got: {ansi:?}");
    assert!(ansi.contains("1. "), "must contain '1. ' marker, got: {ansi:?}");
    assert!(ansi.contains("2. "), "must contain '2. ' marker, got: {ansi:?}");
    let plain = strip_ansi(&ansi);
    assert!(plain.contains("first"), "got: {plain:?}");
    assert!(plain.contains("second"), "got: {plain:?}");
}

#[test]
fn golden_table_dim_borders() {
    let ansi = md_to_ansi("text\n\n| A | B |\n|---|---|\n| 1 | 2 |\n");
    assert!(ansi.contains("\x1b[2m"), "table must use DIM for borders, got: {ansi:?}");
    assert!(ansi.contains('┌'), "table must have top-left corner, got: {ansi:?}");
    assert!(ansi.contains('┘'), "table must have bottom-right corner, got: {ansi:?}");
    assert!(ansi.contains('│'), "table must have vertical borders, got: {ansi:?}");
    assert!(ansi.contains('─'), "table must have horizontal borders, got: {ansi:?}");
    let plain = strip_ansi(&ansi);
    assert!(plain.contains('1'), "cell 1 missing, got: {plain:?}");
    assert!(plain.contains('2'), "cell 2 missing, got: {plain:?}");
}

#[test]
fn golden_nested_bold_in_italic() {
    let ansi = md_to_ansi("*italic **and bold***\n");
    assert!(ansi.contains("\x1b[3m"), "must contain ITALIC, got: {ansi:?}");
    assert!(ansi.contains("\x1b[1m"), "must contain BOLD for nested, got: {ansi:?}");
    let plain = strip_ansi(&ansi);
    assert!(plain.contains("italic"), "got: {plain:?}");
    assert!(plain.contains("and bold"), "got: {plain:?}");
}

#[test]
fn golden_blockquote_green_prefix() {
    let ansi = md_to_ansi("> quoted text\n");
    assert!(ansi.contains("\x1b[32m"), "blockquote prefix must be Green (32), got: {ansi:?}");
    let plain = strip_ansi(&ansi);
    assert!(plain.contains("> "), "must show '> ' prefix, got: {plain:?}");
    assert!(plain.contains("quoted text"), "must contain text, got: {plain:?}");
}

#[test]
fn golden_horizontal_rule_dim() {
    let ansi = md_to_ansi("---\n");
    assert!(ansi.contains("\x1b[2m"), "rule must use DIM, got: {ansi:?}");
    assert!(ansi.contains("─"), "rule must use box-drawing dash, got: {ansi:?}");
    let plain = strip_ansi(&ansi);
    let dashes = plain.chars().filter(|&c| c == '─').count();
    assert_eq!(dashes, 40, "rule must be 40 dashes, got {dashes}");
}

#[test]
fn golden_strikethrough() {
    let ansi = md_to_ansi("~~struck~~\n");
    assert!(ansi.contains("\x1b[9m"), "strikethrough must use CROSSED_OUT (9), got: {ansi:?}");
    assert!(ansi.contains("struck"), "text must be present, got: {ansi:?}");
    assert_eq!(ansi, "\x1b[9mstruck\x1b[0m");
}

#[test]
fn golden_mixed_paragraph_resets_between_styles() {
    let ansi = md_to_ansi("normal **bold** normal\n");
    assert!(ansi.contains("\x1b[0m"), "must contain resets, got: {ansi:?}");
    assert!(ansi.contains("\x1b[1m"), "bold section present, got: {ansi:?}");
    let plain = strip_ansi(&ansi);
    assert_eq!(plain, "normal bold normal");
}

#[test]
fn table_events_lay_out_padded_aligned_columns() {
    let ev = vec![
        MdEvent::Start(MdTag::Table(vec![ColumnAlignment::Left, ColumnAlignment::Right])),
        MdEvent::Start(MdTag::TableHead),
        MdEvent::Start(MdTag::TableRow),
        MdEvent::Start(MdTag::TableCell),
        MdEvent::Text("Name".to_string()),
        MdEvent::End(MdTagEnd::TableCell),
        MdEvent::Start(MdTag::TableCell),
        MdEvent::Text("N".to_string()),
        MdEvent::End(MdTagEnd::TableCell),
        MdEvent::End(MdTagEnd::TableRow),
        MdEvent::End(MdTagEnd::TableHead),
        MdEvent::Start(MdTag::TableRow),
        MdEvent::Start(MdTag::TableCell),
        MdEvent::Text("a  b".to_string()),
        MdEvent::End(MdTagEnd::TableCell),
        MdEvent::Start(MdTag::TableCell),
        MdEvent::Text("42".to_string()),
        MdEvent::End(MdTagEnd::TableCell),
        MdEvent::End(MdTagEnd::TableRow),
        MdEvent::End(MdTagEnd::Table),
    ];
    let texts = texts_of(&render_events(&ev));
    assert_eq!(
        texts,
        vec![
            "┌──────┬────┐".to_string(),
            "│ Name │  N │".to_string(),
            "├──────┼────┤".to_string(),
            "│ a b  │ 42 │".to_string(),
            "└──────┴────┘".to_string(),
        ]
    );
}

#[test]
fn quote_and_list_prefixes_repeat_on_continuation_lines() {
    let ev = vec![
        MdEvent::Start(MdTag::List(Some(9))),
        MdEvent::Start(MdTag::Item),
        MdEvent::Text("first".to_string()),
        MdEvent::HardBreak,
        MdEvent::Text("more".to_string()),
        MdEvent::End(MdTagEnd::Item),
        MdEvent::Start(MdTag::Item),
        MdEvent::Text("second".to_string()),
        MdEvent::End(MdTagEnd::Item),
        MdEvent::End(MdTagEnd::List),
        MdEvent::Start(MdTag::BlockQuote),
        MdEvent::Start(MdTag::Paragraph),
        MdEvent::Text("q".to_string()),
        MdEvent::End(MdTagEnd::Paragraph),
        MdEvent::End(MdTagEnd::BlockQuote),
    ];
    let texts = texts_of(&render_events(&ev));
    assert_eq!(
        texts,
        vec![
            "9. first".to_string(),
            "   more".to_string(),
            "10. second".to_string(),
            String::new(),
            "> q".to_string(),
        ]
    );
}

#[test]
fn parsed_table_head_cells_are_not_kept_as_a_header() {
    // The parser puts the head's cells directly in the head, without a row;
    // the next row starts afresh, so only the body rows are laid out.
    let texts = texts_of(&render_lines("| A | B |\n|---|---|\n| 1 | 2 |\n"));
    assert_eq!(
        texts,
        vec!["┌───┬───┐".to_string(), "│ 1 │ 2 │".to_string(), "└───┴───┘".to_string()]
    );
}

#[test]
fn character_references_in_table_cells_reach_the_output() {
    // Sanitizing happens before parsing; a character reference that the
    // parser decodes inside a table cell is laid out as it is.
    let lines = render_lines("| h |\n|---|\n| &#27;x |\n");
    assert!(plain_of(&lines).contains('\u{1b}'));
    // In plain text the decoded character is sanitized away.
    let para = render_lines("a &#27;x\n");
    assert!(!plain_of(&para).contains('\u{1b}'));
}
