//! Styled terminal text: colors, modifiers, spans and lines, and their
//! rendering as ANSI escape sequences.
use vstd::prelude::*;

use crate::text::{dec, join, push_dec, push_str, string_of};

verus! {

/// A terminal color.
#[derive(Debug, Clone, Copy, PartialEq, Eq, Structural)]
pub enum Color {
    Reset,
    Black,
    Red,
    Green,
    Yellow,
    Blue,
    Magenta,
    Cyan,
    Gray,
    DarkGray,
    LightRed,
    LightGreen,
    LightYellow,
    LightBlue,
    LightMagenta,
    LightCyan,
    White,
    Rgb(u8, u8, u8),
    Indexed(u8),
}

/// The text modifiers the renderer uses.
#[derive(Debug, Clone, Copy, PartialEq, Eq, Structural)]
pub struct Modifiers {
    pub bold: bool,
    pub dim: bool,
    pub italic: bool,
    pub underlined: bool,
    pub crossed_out: bool,
}

/// A style: optional colors, modifiers to add and modifiers to remove.
#[derive(Debug, Clone, Copy, PartialEq, Eq, Structural)]
pub struct Style {
    pub fg: Option<Color>,
    pub bg: Option<Color>,
    pub add_modifier: Modifiers,
    pub sub_modifier: Modifiers,
}

/// A run of text in one style.
#[derive(Debug, Clone, PartialEq, Eq)]
pub struct Span {
    pub content: String,
    pub style: Style,
}

/// One line of styled text.
#[derive(Debug, Clone, PartialEq, Eq)]
pub struct Line {
    pub spans: Vec<Span>,
    pub style: Style,
}

/// A span as values.
pub struct SpanView {
    pub content: Seq<char>,
    pub style: Style,
}

/// A line as values.
pub struct LineView {
    pub spans: Seq<SpanView>,
    pub style: Style,
}

impl View for Span {
    type V = SpanView;

    open spec fn view(&self) -> SpanView {
        SpanView { content: self.content@, style: self.style }
    }
}

/// The views of the spans.
pub open spec fn span_views(s: Seq<Span>) -> Seq<SpanView> {
    s.map_values(|x: Span| x@)
}

impl View for Line {
    type V = LineView;

    open spec fn view(&self) -> LineView {
        LineView { spans: span_views(self.spans@), style: self.style }
    }
}

/// The views of the lines.
pub open spec fn line_views(s: Seq<Line>) -> Seq<LineView> {
    s.map_values(|x: Line| x@)
}

/// No modifier.
pub open spec fn no_mods() -> Modifiers {
    Modifiers { bold: false, dim: false, italic: false, underlined: false, crossed_out: false }
}

/// The style that changes nothing.
pub open spec fn plain_style() -> Style {
    Style { fg: None, bg: None, add_modifier: no_mods(), sub_modifier: no_mods() }
}

/// The modifiers set in `a` or in `b`.
pub open spec fn mods_union(a: Modifiers, b: Modifiers) -> Modifiers {
    Modifiers {
        bold: a.bold || b.bold,
        dim: a.dim || b.dim,
        italic: a.italic || b.italic,
        underlined: a.underlined || b.underlined,
        crossed_out: a.crossed_out || b.crossed_out,
    }
}

/// The modifiers set in `a` and not in `b`.
pub open spec fn mods_minus(a: Modifiers, b: Modifiers) -> Modifiers {
    Modifiers {
        bold: a.bold && !b.bold,
        dim: a.dim && !b.dim,
        italic: a.italic && !b.italic,
        underlined: a.underlined && !b.underlined,
        crossed_out: a.crossed_out && !b.crossed_out,
    }
}

/// `base` with `other` laid over it: `other`'s colors where it has them, and
/// its added and removed modifiers taking precedence (ratatui's `Style::patch`).
pub open spec fn patched(base: Style, other: Style) -> Style {
    Style {
        fg: if other.fg is Some {
            other.fg
        } else {
            base.fg
        },
        bg: if other.bg is Some {
            other.bg
        } else {
            base.bg
        },
        add_modifier: mods_union(mods_minus(base.add_modifier, other.sub_modifier), other.add_modifier),
        sub_modifier: mods_union(mods_minus(base.sub_modifier, other.add_modifier), other.sub_modifier),
    }
}

fn mods_union_exec(a: Modifiers, b: Modifiers) -> (r: Modifiers)
    ensures
        r == mods_union(a, b),
{
    Modifiers {
        bold: a.bold || b.bold,
        dim: a.dim || b.dim,
        italic: a.italic || b.italic,
        underlined: a.underlined || b.underlined,
        crossed_out: a.crossed_out || b.crossed_out,
    }
}

fn mods_minus_exec(a: Modifiers, b: Modifiers) -> (r: Modifiers)
    ensures
        r == mods_minus(a, b),
{
    Modifiers {
        bold: a.bold && !b.bold,
        dim: a.dim && !b.dim,
        italic: a.italic && !b.italic,
        underlined: a.underlined && !b.underlined,
        crossed_out: a.crossed_out && !b.crossed_out,
    }
}

impl Modifiers {
    /// No modifier.
    pub fn none() -> (m: Self)
        ensures
            m == no_mods(),
    {
        Modifiers { bold: false, dim: false, italic: false, underlined: false, crossed_out: false }
    }
}

impl Style {
    /// The style that changes nothing.
    pub fn plain() -> (s: Self)
        ensures
            s == plain_style(),
    {
        Style { fg: None, bg: None, add_modifier: Modifiers::none(), sub_modifier: Modifiers::none() }
    }

    /// This style with `other` laid over it.
    pub fn patch(self, other: Style) -> (s: Self)
        ensures
            s == patched(self, other),
    {
        Style {
            fg: if other.fg.is_some() {
                other.fg
            } else {
                self.fg
            },
            bg: if other.bg.is_some() {
                other.bg
            } else {
                self.bg
            },
            add_modifier: mods_union_exec(
                mods_minus_exec(self.add_modifier, other.sub_modifier),
                other.add_modifier,
            ),
            sub_modifier: mods_union_exec(
                mods_minus_exec(self.sub_modifier, other.add_modifier),
                other.sub_modifier,
            ),
        }
    }
}

/// The offset of a named color from the base code (30 for foreground, 40
/// for background).
pub open spec fn color_offset(c: Color) -> nat {
    match c {
        Color::Reset => 9,
        Color::Black => 0,
        Color::Red => 1,
        Color::Green => 2,
        Color::Yellow => 3,
        Color::Blue => 4,
        Color::Magenta => 5,
        Color::Cyan => 6,
        Color::Gray => 7,
        Color::DarkGray => 60,
        Color::LightRed => 61,
        Color::LightGreen => 62,
        Color::LightYellow => 63,
        Color::LightBlue => 64,
        Color::LightMagenta => 65,
        Color::LightCyan => 66,
        Color::White => 67,
        _ => 0,
    }
}

/// The escape sequence that selects `c` as foreground (or background) color.
pub open spec fn color_sgr(c: Color, foreground: bool) -> Seq<char> {
    let base: nat = if foreground {
        30
    } else {
        40
    };
    let ext = if foreground {
        "38"@
    } else {
        "48"@
    };
    match c {
        Color::Rgb(r, g, b) => "\u{1b}["@ + ext + ";2;"@ + dec(r as nat) + ";"@ + dec(g as nat)
            + ";"@ + dec(b as nat) + "m"@,
        Color::Indexed(i) => "\u{1b}["@ + ext + ";5;"@ + dec(i as nat) + "m"@,
        _ => "\u{1b}["@ + dec(base + color_offset(c)) + "m"@,
    }
}

/// `code` when `on`, else nothing.
pub open spec fn when(on: bool, code: Seq<char>) -> Seq<char> {
    if on {
        code
    } else {
        seq![]
    }
}

/// The escape sequences that switch the terminal to style `s`: colors first,
/// then bold, dim, italic, underline and strike-through.
pub open spec fn style_sgr(s: Style) -> Seq<char> {
    opt_color_sgr(s.fg, true) + opt_color_sgr(s.bg, false) + mods_sgr(s.add_modifier)
}

/// The sequence that resets all styling.
pub open spec fn sgr_reset() -> Seq<char> {
    "\u{1b}[0m"@
}

/// The ANSI text of `spans` on a line styled `line_style`, after a span in
/// style `prev` (if any): a span whose effective style differs from the
/// previous one first resets the old style (if there was one) and switches
/// to its own; the line ends with a reset if any style was switched on.
pub open spec fn spans_ansi(line_style: Style, spans: Seq<SpanView>, prev: Option<Style>) -> Seq<
    char,
>
    decreases spans.len(),
{
    if spans.len() == 0 {
        when(prev is Some, sgr_reset())
    } else {
        let st = patched(line_style, spans[0].style);
        (if prev != Some(st) {
            when(prev is Some, sgr_reset()) + style_sgr(st)
        } else {
            seq![]
        }) + spans[0].content + spans_ansi(line_style, spans.drop_first(), Some(st))
    }
}

/// The ANSI text of one line.
pub open spec fn line_ansi(l: LineView) -> Seq<char> {
    spans_ansi(l.style, l.spans, None)
}

/// The ANSI text of each line.
pub open spec fn lines_ansi(ls: Seq<LineView>) -> Seq<Seq<char>> {
    ls.map_values(|l: LineView| line_ansi(l))
}

/// The ANSI text of lines: each line's text, joined with newlines.
pub open spec fn text_ansi(ls: Seq<LineView>) -> Seq<char> {
    join(lines_ansi(ls), "\n"@)
}

fn write_color(out: &mut Vec<char>, c: Color, foreground: bool)
    ensures
        final(out)@ == old(out)@ + color_sgr(c, foreground),
{
    let base: u64 = if foreground {
        30
    } else {
        40
    };
    let ext = if foreground {
        "38"
    } else {
        "48"
    };
    match c {
        Color::Rgb(r, g, b) => {
            push_str(out, "\u{1b}[");
            push_str(out, ext);
            push_str(out, ";2;");
            push_dec(out, r as u64);
            push_str(out, ";");
            push_dec(out, g as u64);
            push_str(out, ";");
            push_dec(out, b as u64);
            push_str(out, "m");
        },
        Color::Indexed(i) => {
            push_str(out, "\u{1b}[");
            push_str(out, ext);
            push_str(out, ";5;");
            push_dec(out, i as u64);
            push_str(out, "m");
        },
        _ => {
            let offset: u64 = match c {
                Color::Reset => 9,
                Color::Black => 0,
                Color::Red => 1,
                Color::Green => 2,
                Color::Yellow => 3,
                Color::Blue => 4,
                Color::Magenta => 5,
                Color::Cyan => 6,
                Color::Gray => 7,
                Color::DarkGray => 60,
                Color::LightRed => 61,
                Color::LightGreen => 62,
                Color::LightYellow => 63,
                Color::LightBlue => 64,
                Color::LightMagenta => 65,
                Color::LightCyan => 66,
                Color::White => 67,
                _ => 0,
            };
            push_str(out, "\u{1b}[");
            push_dec(out, base + offset);
            push_str(out, "m");
        },
    }
}

fn push_when(out: &mut Vec<char>, on: bool, code: &str)
    ensures
        final(out)@ == old(out)@ + when(on, code@),
{
    if on {
        push_str(out, code);
    } else {
        assert(old(out)@ + when(on, code@) =~= old(out)@);
    }
}

/// The escape sequences of the modifiers that `s` adds.
pub open spec fn mods_sgr(m: Modifiers) -> Seq<char> {
    when(m.bold, "\u{1b}[1m"@) + when(m.dim, "\u{1b}[2m"@) + when(m.italic, "\u{1b}[3m"@) + when(
        m.underlined,
        "\u{1b}[4m"@,
    ) + when(m.crossed_out, "\u{1b}[9m"@)
}

/// The escape sequence of an optional color.
pub open spec fn opt_color_sgr(c: Option<Color>, foreground: bool) -> Seq<char> {
    match c {
        Some(c) => color_sgr(c, foreground),
        None => seq![],
    }
}

fn push_mods(out: &mut Vec<char>, m: Modifiers)
    ensures
        final(out)@ == old(out)@ + mods_sgr(m),
{
    let ghost o = out@;
    push_when(out, m.bold, "\u{1b}[1m");
    push_when(out, m.dim, "\u{1b}[2m");
    push_when(out, m.italic, "\u{1b}[3m");
    push_when(out, m.underlined, "\u{1b}[4m");
    push_when(out, m.crossed_out, "\u{1b}[9m");
    assert(out@ =~= o + mods_sgr(m));
}

fn push_opt_color(out: &mut Vec<char>, c: Option<Color>, foreground: bool)
    ensures
        final(out)@ == old(out)@ + opt_color_sgr(c, foreground),
{
    match c {
        Some(c) => write_color(out, c, foreground),
        None => {
            assert(old(out)@ + opt_color_sgr(c, foreground) =~= old(out)@);
        },
    }
}

fn write_style(out: &mut Vec<char>, s: Style)
    ensures
        final(out)@ == old(out)@ + style_sgr(s),
{
    let ghost o = out@;
    push_opt_color(out, s.fg, true);
    push_opt_color(out, s.bg, false);
    push_mods(out, s.add_modifier);
    assert(style_sgr(s) =~= opt_color_sgr(s.fg, true) + opt_color_sgr(s.bg, false) + mods_sgr(
        s.add_modifier,
    ));
    assert(out@ =~= o + style_sgr(s));
}

fn push_line_ansi(out: &mut Vec<char>, line: &Line)
    ensures
        final(out)@ == old(out)@ + line_ansi(line@),
{
    let ghost o = out@;
    let ghost sv = span_views(line.spans@);
    let mut prev: Option<Style> = None;
    let mut k: usize = 0;
    assert(sv.skip(0) =~= sv);
    while k < line.spans.len()
        invariant
            0 <= k <= line.spans.len(),
            sv == span_views(line.spans@),
            out@ + spans_ansi(line.style, sv.skip(k as int), prev) == o + line_ansi(line@),
        decreases line.spans.len() - k,
    {
        let ghost before = out@;
        let ghost prev0 = prev;
        let ghost rest = sv.skip(k as int);
        assert(rest[0] == line.spans@[k as int]@);
        assert(rest.drop_first() =~= sv.skip(k + 1));
        let span = &line.spans[k];
        let st = line.style.patch(span.style);
        if prev != Some(st) {
            push_when(out, prev.is_some(), "\u{1b}[0m");
            write_style(out, st);
        }
        push_str(out, span.content.as_str());
        prev = Some(st);
        k += 1;
        assert(out@ + spans_ansi(line.style, sv.skip(k as int), prev) =~= before + spans_ansi(
            line.style,
            rest,
            prev0,
        ));
    }
    assert(sv.skip(k as int) =~= Seq::<SpanView>::empty());
    push_when(out, prev.is_some(), "\u{1b}[0m");
}

/// Renders lines as ANSI text: each span's text preceded by the escape
/// sequences of its style when the style changes, lines joined by newlines.
pub fn text_to_ansi(lines: &[Line]) -> (r: String)
    ensures
        r@ == text_ansi(line_views(lines@)),
{
    let mut out: Vec<char> = Vec::new();
    let ghost lv = line_views(lines@);
    let mut i: usize = 0;
    while i < lines.len()
        invariant
            0 <= i <= lines.len(),
            lv == line_views(lines@),
            out@ == join(lines_ansi(lv).take(i as int), "\n"@),
        decreases lines.len() - i,
    {
        proof {
            crate::text::lemma_join_push(lines_ansi(lv).take(i as int), "\n"@, line_ansi(lv[i as int]));
            assert(lines_ansi(lv).take(i as int).push(line_ansi(lv[i as int])) =~= lines_ansi(lv).take(
                i + 1,
            ));
        }
        if i > 0 {
            push_str(&mut out, "\n");
        }
        push_line_ansi(&mut out, &lines[i]);
        i += 1;
    }
    assert(lines_ansi(lv).take(lines.len() as int) =~= lines_ansi(lv));
    string_of(&out)
}

} // verus!
