use acrawl_runtime::markdown::parse::TerminalRenderer;
use acrawl_runtime::markdown::{sanitize_untrusted_text, strip_ansi, MarkdownStreamState, Spinner};

#[test]
fn strip_ansi_removes_osc_sequences() {
    let input = "before\u{1b}]0;window-title\u{07}after";
    assert_eq!(strip_ansi(input), "beforeafter");
}

#[test]
fn strip_ansi_removes_sgr_sequences() {
    assert_eq!(strip_ansi("\u{1b}[31mred\u{1b}[0m"), "red");
    assert_eq!(strip_ansi("no escapes here"), "no escapes here");
}

#[test]
fn strip_ansi_handles_st_terminator_and_two_char_escapes() {
    assert_eq!(strip_ansi("a\u{1b}]8;;x\u{1b}\\b"), "ab");
    assert_eq!(strip_ansi("a\u{1b}cb"), "ab");
    assert_eq!(strip_ansi("a\u{1b}"), "a");
    assert_eq!(strip_ansi("a\u{1b}[31"), "a");
}

#[test]
fn spinner_cycles_through_ten_frames() {
    let mut s = Spinner::new();
    let frames: Vec<usize> = (0..12).map(|_| s.next_frame()).collect();
    assert_eq!(frames, vec![0, 1, 2, 3, 4, 5, 6, 7, 8, 9, 0, 1]);
}

#[test]
fn stream_state_holds_back_incomplete_lines_and_open_fences() {
    let r = TerminalRenderer::new();
    let mut st = MarkdownStreamState::new();
    assert_eq!(st.push(&r, "partial"), None);
    let first = st.push(&r, " line\nnext").expect("line complete");
    assert_eq!(strip_ansi(&first), "partial line");
    let second = st.push(&r, "\n```rust\nlet x = 1;\n").expect("next complete");
    assert_eq!(strip_ansi(&second), "next");
    let code = st.push(&r, "```\n").expect("fence closed");
    assert_eq!(code, "\u{1b}[36mlet x = 1;\u{1b}[0m");
    assert_eq!(st.flush(&r), None);
    assert_eq!(st.push(&r, "tail"), None);
    assert_eq!(st.flush(&r).map(|t| strip_ansi(&t)), Some("tail".to_string()));
    assert_eq!(st.flush(&r), None);
}

#[test]
fn sanitize_drops_escapes_and_control_characters() {
    assert_eq!(sanitize_untrusted_text("plain\ttext\n"), "plain\ttext\n");
    assert_eq!(
        sanitize_untrusted_text("a\u{1b}[31mred\u{1b}[0m b\u{7}c\u{7f}d\u{85}e\r"),
        "ared bcde"
    );
    assert_eq!(
        sanitize_untrusted_text("x\u{1b}]0;title\u{7}y\u{1b}]8;;u\u{1b}\\z"),
        "xyz"
    );
    let once = sanitize_untrusted_text("\u{1b}c\u{0}ok\u{1b}");
    assert_eq!(once, "ok");
    assert_eq!(sanitize_untrusted_text(&once), once);
}
