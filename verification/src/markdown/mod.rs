//! Terminal text: removing ANSI escape sequences, sanitizing untrusted text,
//! rendering Markdown, cutting streamed Markdown at safe points, and the
//! spinner.
use vstd::prelude::*;

pub mod parse;
pub mod safety;
pub mod style;
pub mod writer;

use parse::{markdown_ansi, markdown_events, render_lines, TerminalRenderer};
use style::{line_views, Line};
use writer::rendered_events;

use crate::text::{
    chars_of, push_str, index_of_char, index_of_from, is_blank, lemma_index_of_from, slice_chars,
    starts_with, string_of, trim, trim_start, trim_start_index,
};

verus! {

/// The escape character that starts an ANSI sequence.
pub open spec fn esc() -> char {
    '\u{1b}'
}

/// Where `strip_ansi` stands while scanning: in plain text, just after an
/// escape, inside a control sequence, or inside a string sequence.
pub enum AnsiState {
    Plain,
    AfterEsc,
    Csi,
    StringSeq,
}

/// `c` introduces a string sequence (OSC, DCS, SOS, PM or APC) after an escape.
pub open spec fn opens_string_seq(c: char) -> bool {
    c == ']' || c == 'P' || c == 'X' || c == '^' || c == '_'
}

/// `c` ends a control sequence.
pub open spec fn is_csi_final(c: char) -> bool {
    '\u{40}' <= c && c <= '\u{7e}'
}

/// The characters `strip_ansi` keeps from `s[i..]` when it is in state `st`.
pub open spec fn stripped_from(s: Seq<char>, i: int, st: AnsiState) -> Seq<char>
    decreases s.len() - i,
{
    if i < 0 || i >= s.len() {
        seq![]
    } else {
        let c = s[i];
        match st {
            AnsiState::Plain => if c == esc() {
                stripped_from(s, i + 1, AnsiState::AfterEsc)
            } else {
                seq![c] + stripped_from(s, i + 1, AnsiState::Plain)
            },
            AnsiState::AfterEsc => if c == '[' {
                stripped_from(s, i + 1, AnsiState::Csi)
            } else if opens_string_seq(c) {
                stripped_from(s, i + 1, AnsiState::StringSeq)
            } else {
                stripped_from(s, i + 1, AnsiState::Plain)
            },
            AnsiState::Csi => if is_csi_final(c) {
                stripped_from(s, i + 1, AnsiState::Plain)
            } else {
                stripped_from(s, i + 1, AnsiState::Csi)
            },
            AnsiState::StringSeq => if c == '\u{07}' || c == '\u{9c}' {
                stripped_from(s, i + 1, AnsiState::Plain)
            } else if c == esc() && i + 1 < s.len() && s[i + 1] == '\\' {
                stripped_from(s, i + 2, AnsiState::Plain)
            } else {
                stripped_from(s, i + 1, AnsiState::StringSeq)
            },
        }
    }
}

/// `s` without its ANSI escape sequences: control sequences (`ESC [` up to a
/// final byte), string sequences (`ESC ]`, `P`, `X`, `^`, `_` up to BEL, ST or
/// `ESC \`), and two-character escapes. An unterminated sequence runs to the end.
pub open spec fn ansi_stripped(s: Seq<char>) -> Seq<char> {
    stripped_from(s, 0, AnsiState::Plain)
}

/// Removes ANSI escape sequences from `input`.
pub fn strip_ansi(input: &str) -> (r: String)
    ensures
        r@ == ansi_stripped(input@),
{
    let s = chars_of(input);
    let mut out: Vec<char> = Vec::new();
    let mut st = AnsiState::Plain;
    let mut i: usize = 0;
    assert(out@ + stripped_from(s@, 0, AnsiState::Plain) =~= ansi_stripped(input@));
    while i < s.len()
        invariant
            0 <= i <= s.len(),
            s@ == input@,
            out@ + stripped_from(s@, i as int, st) == ansi_stripped(input@),
        decreases s.len() - i,
    {
        let c = s[i];
        let ghost o0 = out@;
        match st {
            AnsiState::Plain => {
                if c == '\u{1b}' {
                    st = AnsiState::AfterEsc;
                } else {
                    out.push(c);
                    assert(out@ + stripped_from(s@, i + 1, AnsiState::Plain) =~= o0 + (seq![c]
                        + stripped_from(s@, i + 1, AnsiState::Plain)));
                }
                i += 1;
            },
            AnsiState::AfterEsc => {
                if c == '[' {
                    st = AnsiState::Csi;
                } else if c == ']' || c == 'P' || c == 'X' || c == '^' || c == '_' {
                    st = AnsiState::StringSeq;
                } else {
                    st = AnsiState::Plain;
                }
                i += 1;
            },
            AnsiState::Csi => {
                if '\u{40}' <= c && c <= '\u{7e}' {
                    st = AnsiState::Plain;
                }
                i += 1;
            },
            AnsiState::StringSeq => {
                if c == '\u{07}' || c == '\u{9c}' {
                    st = AnsiState::Plain;
                    i += 1;
                } else if c == '\u{1b}' && i + 1 < s.len() && s[i + 1] == '\\' {
                    st = AnsiState::Plain;
                    i += 2;
                } else {
                    i += 1;
                }
            },
        }
    }
    assert(stripped_from(s@, i as int, st) =~= Seq::<char>::empty());
    assert(out@ =~= ansi_stripped(input@));
    string_of(&out)
}

/// Stripping removes characters and never adds any: the result is no longer
/// than the input.
pub proof fn lemma_stripped_not_longer(s: Seq<char>, i: int, st: AnsiState)
    requires
        0 <= i,
    ensures
        stripped_from(s, i, st).len() <= if i <= s.len() {
            s.len() - i
        } else {
            0
        },
    decreases s.len() - i,
{
    if i < s.len() {
        let c = s[i];
        match st {
            AnsiState::Plain => if c == esc() {
                lemma_stripped_not_longer(s, i + 1, AnsiState::AfterEsc);
            } else {
                lemma_stripped_not_longer(s, i + 1, AnsiState::Plain);
            },
            AnsiState::AfterEsc => if c == '[' {
                lemma_stripped_not_longer(s, i + 1, AnsiState::Csi);
            } else if opens_string_seq(c) {
                lemma_stripped_not_longer(s, i + 1, AnsiState::StringSeq);
            } else {
                lemma_stripped_not_longer(s, i + 1, AnsiState::Plain);
            },
            AnsiState::Csi => if is_csi_final(c) {
                lemma_stripped_not_longer(s, i + 1, AnsiState::Plain);
            } else {
                lemma_stripped_not_longer(s, i + 1, AnsiState::Csi);
            },
            AnsiState::StringSeq => if c == '\u{07}' || c == '\u{9c}' {
                lemma_stripped_not_longer(s, i + 1, AnsiState::Plain);
            } else if c == esc() && i + 1 < s.len() && s[i + 1] == '\\' {
                lemma_stripped_not_longer(s, i + 2, AnsiState::Plain);
            } else {
                lemma_stripped_not_longer(s, i + 1, AnsiState::StringSeq);
            },
        }
    }
}

/// Text without escape characters passes through unchanged.
pub proof fn lemma_plain_text_unchanged(s: Seq<char>, i: int)
    requires
        0 <= i,
        forall|k: int| 0 <= k < s.len() ==> s[k] != esc(),
    ensures
        stripped_from(s, i, AnsiState::Plain) == (if i <= s.len() {
            s.skip(i)
        } else {
            seq![]
        }),
    decreases s.len() - i,
{
    if i < s.len() {
        lemma_plain_text_unchanged(s, i + 1);
        assert(s.skip(i) =~= seq![s[i]] + s.skip(i + 1));
    } else if i == s.len() {
        assert(s.skip(i) =~= Seq::<char>::empty());
    }
}

/// Frame `i` of the spinner's animation.
pub open spec fn spinner_frame(i: nat) -> Seq<char> {
    if i == 0 {
        "⠋"@
    } else if i == 1 {
        "⠙"@
    } else if i == 2 {
        "⠹"@
    } else if i == 3 {
        "⠸"@
    } else if i == 4 {
        "⠼"@
    } else if i == 5 {
        "⠴"@
    } else if i == 6 {
        "⠦"@
    } else if i == 7 {
        "⠧"@
    } else if i == 8 {
        "⠇"@
    } else {
        "⠏"@
    }
}

fn frame_glyph(i: usize) -> (r: &'static str)
    ensures
        r@ == spinner_frame(i as nat),
{
    if i == 0 {
        "⠋"
    } else if i == 1 {
        "⠙"
    } else if i == 2 {
        "⠹"
    } else if i == 3 {
        "⠸"
    } else if i == 4 {
        "⠼"
    } else if i == 5 {
        "⠴"
    } else if i == 6 {
        "⠦"
    } else if i == 7 {
        "⠧"
    } else if i == 8 {
        "⠇"
    } else {
        "⠏"
    }
}

/// The spinner's position in its animation.
#[derive(Debug, Clone, PartialEq, Eq)]
pub struct Spinner {
    frame_index: usize,
}

/// Number of frames in the spinner animation.
pub const SPINNER_FRAME_COUNT: usize = 10;

impl Spinner {
    /// How many frames have been shown (modulo the word size).
    pub closed spec fn frames_shown(&self) -> usize {
        self.frame_index
    }

    /// A spinner at its first frame.
    pub fn new() -> (s: Self)
        ensures
            s.frames_shown() == 0,
    {
        Spinner { frame_index: 0 }
    }

    /// The frame to draw now, and the spinner moved on by one frame.
    pub fn next_frame(&mut self) -> (f: usize)
        ensures
            f == old(self).frames_shown() % SPINNER_FRAME_COUNT,
            final(self).frames_shown() == (if old(self).frames_shown() < usize::MAX {
                (old(self).frames_shown() + 1) as usize
            } else {
                0
            }),
    {
        let f = self.frame_index % SPINNER_FRAME_COUNT;
        self.frame_index = if self.frame_index < usize::MAX {
            self.frame_index + 1
        } else {
            0
        };
        f
    }

    /// The text of one animation step: the current frame, a blank and the
    /// label; the spinner moves on by one frame.
    pub fn tick(&mut self, label: &str) -> (r: String)
        ensures
            r@ == spinner_frame((old(self).frames_shown() % SPINNER_FRAME_COUNT) as nat) + " "@
                + label@,
            final(self).frames_shown() == (if old(self).frames_shown() < usize::MAX {
                (old(self).frames_shown() + 1) as usize
            } else {
                0
            }),
    {
        let f = self.next_frame();
        let mut v = chars_of(frame_glyph(f));
        push_str(&mut v, " ");
        push_str(&mut v, label);
        string_of(&v)
    }

    /// The text shown when the work is done: a check mark and the label on a
    /// line of its own; the spinner starts over.
    pub fn finish(&mut self, label: &str) -> (r: String)
        ensures
            r@ == "✔ "@ + label@ + "\n"@,
            final(self).frames_shown() == 0,
    {
        self.frame_index = 0;
        let mut v = chars_of("✔ ");
        push_str(&mut v, label);
        push_str(&mut v, "\n");
        string_of(&v)
    }

    /// The text shown when the work failed: a cross and the label on a line
    /// of its own; the spinner starts over.
    pub fn fail(&mut self, label: &str) -> (r: String)
        ensures
            r@ == "✘ "@ + label@ + "\n"@,
            final(self).frames_shown() == 0,
    {
        self.frame_index = 0;
        let mut v = chars_of("✘ ");
        push_str(&mut v, label);
        push_str(&mut v, "\n");
        string_of(&v)
    }
}

/// The end of the line starting at `i`: just past its `\n`, or the end of `s`.
pub open spec fn line_end(s: Seq<char>, i: int) -> int {
    match index_of_from(s, '\n', i) {
        Some(j) => j + 1,
        None => s.len() as int,
    }
}

/// The line opens or closes a code fence.
pub open spec fn is_fence_line(line: Seq<char>) -> bool {
    let t = trim_start(line);
    starts_with(t, "```"@) || starts_with(t, "~~~"@)
}

/// The last safe boundary at or after line start `i`, given whether a fence is
/// open and the last boundary found so far: after a closing fence, or after a
/// complete line outside a fence.
pub open spec fn boundary_from(s: Seq<char>, i: int, in_fence: bool, last: Option<int>) -> Option<
    int,
>
    decreases s.len() - i,
{
    if i < 0 || i >= s.len() {
        last
    } else {
        let e = line_end(s, i);
        if e <= i || e > s.len() {
            last
        } else {
            let line = s.subrange(i, e);
            if is_fence_line(line) {
                boundary_from(s, e, !in_fence, if in_fence {
                    Some(e)
                } else {
                    last
                })
            } else {
                boundary_from(s, e, in_fence, if !in_fence && line.last() == '\n' {
                    Some(e)
                } else {
                    last
                })
            }
        }
    }
}

/// The last point of `s` where streamed Markdown can be rendered without
/// splitting a block, in characters.
pub open spec fn safe_boundary(s: Seq<char>) -> Option<int> {
    boundary_from(s, 0, false, None)
}

/// Whether `line` opens or closes a code fence.
fn fence_line(line: &Vec<char>) -> (r: bool)
    ensures
        r == is_fence_line(line@),
{
    let k = trim_start_index(line, 0);
    assert(line@.skip(0) == line@);
    let t = slice_chars(line, k, line.len());
    assert(t@ == trim_start(line@));
    let tick = chars_of("```");
    let tilde = chars_of("~~~");
    crate::text::matches_at(&t, &tick, 0) || crate::text::matches_at(&t, &tilde, 0)
}

/// The last safe boundary of `s`, in characters.
fn find_stream_safe_boundary(s: &Vec<char>) -> (r: Option<usize>)
    ensures
        match r {
            Some(k) => safe_boundary(s@) == Some(k as int) && k <= s.len(),
            None => safe_boundary(s@) is None,
        },
{
    let mut in_fence = false;
    let mut last: Option<usize> = None;
    let mut i: usize = 0;
    while i < s.len()
        invariant
            0 <= i <= s.len(),
            match last {
                Some(k) => k <= s.len(),
                None => true,
            },
            safe_boundary(s@) == boundary_from(
                s@,
                i as int,
                in_fence,
                match last {
                    Some(k) => Some(k as int),
                    None => None,
                },
            ),
        decreases s.len() - i,
    {
        proof {
            lemma_index_of_from(s@, '\n', i as int);
        }
        let e: usize = match index_of_char(s, '\n', i) {
            Some(j) => j + 1,
            None => s.len(),
        };
        let line = slice_chars(s, i, e);
        if fence_line(&line) {
            if in_fence {
                last = Some(e);
            }
            in_fence = !in_fence;
        } else if !in_fence && line.len() > 0 && line[line.len() - 1] == '\n' {
            last = Some(e);
        }
        i = e;
    }
    last
}

/// Streamed Markdown not yet rendered.
#[derive(Debug, Clone, PartialEq, Eq)]
pub struct MarkdownStreamState {
    pending: String,
}

impl MarkdownStreamState {
    /// The text held back so far.
    pub closed spec fn pending_text(&self) -> Seq<char> {
        self.pending@
    }

    /// A stream with nothing pending.
    pub fn new() -> (s: Self)
        ensures
            s.pending_text() == Seq::<char>::empty(),
    {
        MarkdownStreamState { pending: String::new() }
    }

    /// Adds `delta` to the pending text and takes out everything up to the last
    /// safe boundary, if there is one; the rest stays pending.
    fn take_ready(&mut self, delta: &str) -> (r: Option<String>)
        ensures
            ({
                let all = old(self).pending_text() + delta@;
                match safe_boundary(all) {
                    Some(k) => r.is_some() && r.unwrap()@ == all.take(k)
                        && final(self).pending_text() == all.skip(k),
                    None => r.is_none() && final(self).pending_text() == all,
                }
            }),
    {
        let mut all = chars_of(self.pending.as_str());
        let mut d = chars_of(delta);
        all.append(&mut d);
        match find_stream_safe_boundary(&all) {
            Some(k) => {
                let ready = slice_chars(&all, 0, k);
                let rest = slice_chars(&all, k, all.len());
                self.pending = string_of(&rest);
                Some(string_of(&ready))
            },
            None => {
                self.pending = string_of(&all);
                None
            },
        }
    }

    /// Takes out all pending text, or nothing when it is only whitespace; the
    /// stream is empty afterwards either way.
    fn take_rest(&mut self) -> (r: Option<String>)
        ensures
            final(self).pending_text() == Seq::<char>::empty(),
            trim(old(self).pending_text()).len() == 0 ==> r.is_none(),
            trim(old(self).pending_text()).len() != 0 ==> r.is_some()
                && r.unwrap()@ == old(self).pending_text(),
    {
        let cs = chars_of(self.pending.as_str());
        if is_blank(&cs) {
            self.pending = String::new();
            None
        } else {
            let taken = string_of(&cs);
            self.pending = String::new();
            Some(taken)
        }
    }

    /// Adds a streamed `delta`; once the text reaches a safe boundary,
    /// everything up to the last one is rendered and returned, and the rest
    /// stays pending.
    pub fn push(&mut self, renderer: &TerminalRenderer, delta: &str) -> (r: Option<String>)
        ensures
            ({
                let all = old(self).pending_text() + delta@;
                match safe_boundary(all) {
                    Some(k) => r.is_some() && r.unwrap()@ == markdown_ansi(all.take(k))
                        && final(self).pending_text() == all.skip(k),
                    None => r.is_none() && final(self).pending_text() == all,
                }
            }),
    {
        match self.take_ready(delta) {
            Some(ready) => Some(renderer.markdown_to_ansi(ready.as_str())),
            None => None,
        }
    }

    /// Renders and returns whatever is pending, unless it is only whitespace;
    /// nothing is pending afterwards.
    pub fn flush(&mut self, renderer: &TerminalRenderer) -> (r: Option<String>)
        ensures
            final(self).pending_text() == Seq::<char>::empty(),
            trim(old(self).pending_text()).len() == 0 ==> r.is_none(),
            trim(old(self).pending_text()).len() != 0 ==> r.is_some()
                && r.unwrap()@ == markdown_ansi(old(self).pending_text()),
    {
        match self.take_rest() {
            Some(rest) => Some(renderer.markdown_to_ansi(rest.as_str())),
            None => None,
        }
    }
}

impl Default for MarkdownStreamState {
    /// A stream with nothing pending.
    fn default() -> (s: Self)
        ensures
            s.pending_text() == Seq::<char>::empty(),
    {
        MarkdownStreamState::new()
    }
}

/// Renders everything in `buffer` up to its last safe boundary and removes
/// it from the buffer; with no safe boundary yet, nothing is rendered and the
/// buffer stays as it is.
pub fn drain_safe_boundary(buffer: &mut String) -> (r: Option<Vec<Line>>)
    ensures
        match safe_boundary(old(buffer)@) {
            Some(k) => r.is_some() && line_views(r.unwrap()@) == rendered_events(
                markdown_events(sanitized(old(buffer)@.take(k))),
            ) && final(buffer)@ == old(buffer)@.skip(k),
            None => r.is_none() && final(buffer)@ == old(buffer)@,
        },
{
    let all = chars_of(buffer.as_str());
    match find_stream_safe_boundary(&all) {
        Some(k) => {
            let chunk = slice_chars(&all, 0, k);
            let rest = slice_chars(&all, k, all.len());
            *buffer = string_of(&rest);
            let text = string_of(&chunk);
            Some(render_lines(text.as_str()))
        },
        None => None,
    }
}

/// What stripping keeps holds no escape character.
pub proof fn lemma_stripped_has_no_escape(s: Seq<char>, i: int, st: AnsiState)
    requires
        0 <= i,
    ensures
        forall|k: int| 0 <= k < stripped_from(s, i, st).len() ==> #[trigger] stripped_from(s, i, st)[k]
            != esc(),
    decreases s.len() - i,
{
    if i < s.len() {
        let c = s[i];
        match st {
            AnsiState::Plain => if c == esc() {
                lemma_stripped_has_no_escape(s, i + 1, AnsiState::AfterEsc);
                assert(stripped_from(s, i, st) == stripped_from(s, i + 1, AnsiState::AfterEsc));
            } else {
                lemma_stripped_has_no_escape(s, i + 1, AnsiState::Plain);
                let rest = stripped_from(s, i + 1, AnsiState::Plain);
                assert(stripped_from(s, i, st) == seq![c] + rest);
                assert forall|k: int| 0 <= k < stripped_from(s, i, st).len() implies #[trigger] stripped_from(
                    s,
                    i,
                    st,
                )[k] != esc() by {
                    if k > 0 {
                        assert(stripped_from(s, i, st)[k] == rest[k - 1]);
                    } else {
                        assert(stripped_from(s, i, st)[0] == c);
                    }
                }
            },
            AnsiState::AfterEsc => if c == '[' {
                lemma_stripped_has_no_escape(s, i + 1, AnsiState::Csi);
                assert(stripped_from(s, i, st) == stripped_from(s, i + 1, AnsiState::Csi));
            } else if opens_string_seq(c) {
                lemma_stripped_has_no_escape(s, i + 1, AnsiState::StringSeq);
                assert(stripped_from(s, i, st) == stripped_from(s, i + 1, AnsiState::StringSeq));
            } else {
                lemma_stripped_has_no_escape(s, i + 1, AnsiState::Plain);
                assert(stripped_from(s, i, st) == stripped_from(s, i + 1, AnsiState::Plain));
            },
            AnsiState::Csi => if is_csi_final(c) {
                lemma_stripped_has_no_escape(s, i + 1, AnsiState::Plain);
                assert(stripped_from(s, i, st) == stripped_from(s, i + 1, AnsiState::Plain));
            } else {
                lemma_stripped_has_no_escape(s, i + 1, AnsiState::Csi);
                assert(stripped_from(s, i, st) == stripped_from(s, i + 1, AnsiState::Csi));
            },
            AnsiState::StringSeq => if c == '\u{07}' || c == '\u{9c}' {
                lemma_stripped_has_no_escape(s, i + 1, AnsiState::Plain);
                assert(stripped_from(s, i, st) == stripped_from(s, i + 1, AnsiState::Plain));
            } else if c == esc() && i + 1 < s.len() && s[i + 1] == '\\' {
                lemma_stripped_has_no_escape(s, i + 2, AnsiState::Plain);
                assert(stripped_from(s, i, st) == stripped_from(s, i + 2, AnsiState::Plain));
            } else {
                lemma_stripped_has_no_escape(s, i + 1, AnsiState::StringSeq);
                assert(stripped_from(s, i, st) == stripped_from(s, i + 1, AnsiState::StringSeq));
            },
        }
    }
}

/// Stripping twice is stripping once: the result has no escape sequences left.
pub proof fn lemma_strip_ansi_idempotent(s: Seq<char>)
    ensures
        ansi_stripped(ansi_stripped(s)) == ansi_stripped(s),
{
    let t = ansi_stripped(s);
    lemma_stripped_has_no_escape(s, 0, AnsiState::Plain);
    lemma_plain_text_unchanged(t, 0);
    assert(t.skip(0) =~= t);
}

/// A control character that sanitizing drops: C0 controls other than tab and
/// newline, DEL, and the C1 range.
pub open spec fn is_stripped_control(ch: char) -> bool {
    ((ch as int) < 0x20 && ch != '\t' && ch != '\n') || ch as int == 0x7f || (0x80 <= ch as int
        && ch as int <= 0x9f)
}

/// The characters sanitizing keeps from `s[i..]` in state `st`: escape
/// sequences are skipped as `strip_ansi` skips them, and in plain text the
/// stripped control characters are dropped too.
pub open spec fn sanitized_from(s: Seq<char>, i: int, st: AnsiState) -> Seq<char>
    decreases s.len() - i,
{
    if i < 0 || i >= s.len() {
        seq![]
    } else {
        let c = s[i];
        match st {
            AnsiState::Plain => if c == esc() {
                sanitized_from(s, i + 1, AnsiState::AfterEsc)
            } else if is_stripped_control(c) {
                sanitized_from(s, i + 1, AnsiState::Plain)
            } else {
                seq![c] + sanitized_from(s, i + 1, AnsiState::Plain)
            },
            AnsiState::AfterEsc => if c == '[' {
                sanitized_from(s, i + 1, AnsiState::Csi)
            } else if opens_string_seq(c) {
                sanitized_from(s, i + 1, AnsiState::StringSeq)
            } else {
                sanitized_from(s, i + 1, AnsiState::Plain)
            },
            AnsiState::Csi => if is_csi_final(c) {
                sanitized_from(s, i + 1, AnsiState::Plain)
            } else {
                sanitized_from(s, i + 1, AnsiState::Csi)
            },
            AnsiState::StringSeq => if c == '\u{07}' || c == '\u{9c}' {
                sanitized_from(s, i + 1, AnsiState::Plain)
            } else if c == esc() && i + 1 < s.len() && s[i + 1] == '\\' {
                sanitized_from(s, i + 2, AnsiState::Plain)
            } else {
                sanitized_from(s, i + 1, AnsiState::StringSeq)
            },
        }
    }
}

/// Untrusted text made safe for a terminal: no escape sequences and no
/// stripped control characters.
pub open spec fn sanitized(s: Seq<char>) -> Seq<char> {
    sanitized_from(s, 0, AnsiState::Plain)
}

fn stripped_control(ch: char) -> (r: bool)
    ensures
        r == is_stripped_control(ch),
{
    let c = ch as u32;
    (c < 0x20 && ch != '\t' && ch != '\n') || c == 0x7f || (0x80 <= c && c <= 0x9f)
}

/// Removes escape sequences and control characters (but tab and newline)
/// from untrusted text before it reaches the terminal.
pub fn sanitize_untrusted_text(input: &str) -> (r: String)
    ensures
        r@ == sanitized(input@),
{
    let s = chars_of(input);
    let mut out: Vec<char> = Vec::new();
    let mut st = AnsiState::Plain;
    let mut i: usize = 0;
    assert(out@ + sanitized_from(s@, 0, AnsiState::Plain) =~= sanitized(input@));
    while i < s.len()
        invariant
            0 <= i <= s.len(),
            s@ == input@,
            out@ + sanitized_from(s@, i as int, st) == sanitized(input@),
        decreases s.len() - i,
    {
        let c = s[i];
        let ghost o0 = out@;
        match st {
            AnsiState::Plain => {
                if c == '\u{1b}' {
                    st = AnsiState::AfterEsc;
                } else if !stripped_control(c) {
                    out.push(c);
                    assert(out@ + sanitized_from(s@, i + 1, AnsiState::Plain) =~= o0 + (seq![c]
                        + sanitized_from(s@, i + 1, AnsiState::Plain)));
                }
                i += 1;
            },
            AnsiState::AfterEsc => {
                if c == '[' {
                    st = AnsiState::Csi;
                } else if c == ']' || c == 'P' || c == 'X' || c == '^' || c == '_' {
                    st = AnsiState::StringSeq;
                } else {
                    st = AnsiState::Plain;
                }
                i += 1;
            },
            AnsiState::Csi => {
                if '\u{40}' <= c && c <= '\u{7e}' {
                    st = AnsiState::Plain;
                }
                i += 1;
            },
            AnsiState::StringSeq => {
                if c == '\u{07}' || c == '\u{9c}' {
                    st = AnsiState::Plain;
                    i += 1;
                } else if c == '\u{1b}' && i + 1 < s.len() && s[i + 1] == '\\' {
                    st = AnsiState::Plain;
                    i += 2;
                } else {
                    i += 1;
                }
            },
        }
    }
    assert(sanitized_from(s@, i as int, st) =~= Seq::<char>::empty());
    assert(out@ =~= sanitized(input@));
    string_of(&out)
}

/// A character sanitizing lets through is neither an escape nor a stripped
/// control character.
pub open spec fn is_safe_char(c: char) -> bool {
    c != esc() && !is_stripped_control(c)
}

/// Everything sanitizing keeps is safe for a terminal.
pub proof fn lemma_sanitized_is_safe(s: Seq<char>, i: int, st: AnsiState)
    requires
        0 <= i,
    ensures
        forall|k: int| 0 <= k < sanitized_from(s, i, st).len() ==> is_safe_char(
            #[trigger] sanitized_from(s, i, st)[k],
        ),
    decreases s.len() - i,
{
    if i < s.len() {
        let c = s[i];
        match st {
            AnsiState::Plain => if c == esc() {
                lemma_sanitized_is_safe(s, i + 1, AnsiState::AfterEsc);
                assert(sanitized_from(s, i, st) == sanitized_from(s, i + 1, AnsiState::AfterEsc));
            } else if is_stripped_control(c) {
                lemma_sanitized_is_safe(s, i + 1, AnsiState::Plain);
                assert(sanitized_from(s, i, st) == sanitized_from(s, i + 1, AnsiState::Plain));
            } else {
                lemma_sanitized_is_safe(s, i + 1, AnsiState::Plain);
                let rest = sanitized_from(s, i + 1, AnsiState::Plain);
                assert(sanitized_from(s, i, st) == seq![c] + rest);
                assert forall|k: int| 0 <= k < sanitized_from(s, i, st).len() implies is_safe_char(
                    #[trigger] sanitized_from(s, i, st)[k],
                ) by {
                    if k > 0 {
                        assert(sanitized_from(s, i, st)[k] == rest[k - 1]);
                    } else {
                        assert(sanitized_from(s, i, st)[0] == c);
                    }
                }
            },
            AnsiState::AfterEsc => if c == '[' {
                lemma_sanitized_is_safe(s, i + 1, AnsiState::Csi);
                assert(sanitized_from(s, i, st) == sanitized_from(s, i + 1, AnsiState::Csi));
            } else if opens_string_seq(c) {
                lemma_sanitized_is_safe(s, i + 1, AnsiState::StringSeq);
                assert(sanitized_from(s, i, st) == sanitized_from(s, i + 1, AnsiState::StringSeq));
            } else {
                lemma_sanitized_is_safe(s, i + 1, AnsiState::Plain);
                assert(sanitized_from(s, i, st) == sanitized_from(s, i + 1, AnsiState::Plain));
            },
            AnsiState::Csi => if is_csi_final(c) {
                lemma_sanitized_is_safe(s, i + 1, AnsiState::Plain);
                assert(sanitized_from(s, i, st) == sanitized_from(s, i + 1, AnsiState::Plain));
            } else {
                lemma_sanitized_is_safe(s, i + 1, AnsiState::Csi);
                assert(sanitized_from(s, i, st) == sanitized_from(s, i + 1, AnsiState::Csi));
            },
            AnsiState::StringSeq => if c == '\u{07}' || c == '\u{9c}' {
                lemma_sanitized_is_safe(s, i + 1, AnsiState::Plain);
                assert(sanitized_from(s, i, st) == sanitized_from(s, i + 1, AnsiState::Plain));
            } else if c == esc() && i + 1 < s.len() && s[i + 1] == '\\' {
                lemma_sanitized_is_safe(s, i + 2, AnsiState::Plain);
                assert(sanitized_from(s, i, st) == sanitized_from(s, i + 2, AnsiState::Plain));
            } else {
                lemma_sanitized_is_safe(s, i + 1, AnsiState::StringSeq);
                assert(sanitized_from(s, i, st) == sanitized_from(s, i + 1, AnsiState::StringSeq));
            },
        }
    }
}

/// Text made only of safe characters passes through sanitizing unchanged.
pub proof fn lemma_safe_text_unchanged(s: Seq<char>, i: int)
    requires
        0 <= i,
        forall|k: int| 0 <= k < s.len() ==> is_safe_char(#[trigger] s[k]),
    ensures
        sanitized_from(s, i, AnsiState::Plain) == (if i <= s.len() {
            s.skip(i)
        } else {
            seq![]
        }),
    decreases s.len() - i,
{
    if i < s.len() {
        assert(is_safe_char(s[i]));
        lemma_safe_text_unchanged(s, i + 1);
        assert(s.skip(i) =~= seq![s[i]] + s.skip(i + 1));
    } else if i == s.len() {
        assert(s.skip(i) =~= Seq::<char>::empty());
    }
}

/// Sanitized text is safe for a terminal, and sanitizing it again changes
/// nothing.
pub proof fn lemma_sanitize_safe_and_idempotent(s: Seq<char>)
    ensures
        forall|k: int| 0 <= k < sanitized(s).len() ==> is_safe_char(#[trigger] sanitized(s)[k]),
        sanitized(sanitized(s)) == sanitized(s),
{
    let t = sanitized(s);
    lemma_sanitized_is_safe(s, 0, AnsiState::Plain);
    lemma_safe_text_unchanged(t, 0);
    assert(t.skip(0) =~= t);
}

} // verus!
