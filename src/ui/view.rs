//! Projection of a document and a session onto one terminal frame: a gutter
//! of right-aligned line numbers, the text rows, `~` below the end of the
//! document, a status line and the cursor position. Nothing here draws; the
//! frame is recomputed in full for every key.

use crate::backend::buffer::{Buffer, Mode};
use crate::text::{is_line_break, rope_line};
use vstd::prelude::*;
use vstd::string::StrSliceExecFns;

verus! {

/// The gutter's digit count for a number: 1 up to 9, 2 up to 99, 3 up to
/// 999, 4 up to 9999 and 5 beyond.
pub open spec fn digit_count_spec(n: int) -> int {
    if n <= 9 {
        1
    } else if n <= 99 {
        2
    } else if n <= 999 {
        3
    } else if n <= 9999 {
        4
    } else {
        5
    }
}

/// The number of decimal digits of `n`.
pub open spec fn decimal_len(n: nat) -> nat
    decreases n,
{
    if n < 10 {
        1
    } else {
        1 + decimal_len(n / 10)
    }
}

/// The gutter's digit count of `n`; see `digit_count_spec`.
pub fn digit_count(n: usize) -> (r: usize)
    ensures
        r == digit_count_spec(n as int),
{
    if n <= 9 {
        1
    } else if n <= 99 {
        2
    } else if n <= 999 {
        3
    } else if n <= 9999 {
        4
    } else {
        5
    }
}

/// The width of the line-number gutter for a document of `line_count` lines.
pub fn gutter_width(line_count: usize) -> (r: usize)
    ensures
        r == digit_count_spec(line_count as int),
{
    digit_count(line_count)
}

/// The gutter is exactly as wide as the decimal form of the line count, for
/// every count below 100000 (wider counts share the widest gutter).
pub proof fn lemma_gutter_is_decimal_width(line_count: nat)
    requires
        line_count < 100000,
    ensures
        digit_count_spec(line_count as int) == decimal_len(line_count),
{
    let n = line_count;
    if n >= 10 {
        assert(decimal_len(n) == 1 + decimal_len(n / 10));
        let n1 = n / 10;
        if n1 >= 10 {
            assert(decimal_len(n1) == 1 + decimal_len(n1 / 10));
            let n2 = n1 / 10;
            if n2 >= 10 {
                assert(decimal_len(n2) == 1 + decimal_len(n2 / 10));
                let n3 = n2 / 10;
                if n3 >= 10 {
                    assert(decimal_len(n3) == 1 + decimal_len(n3 / 10));
                    assert(n3 / 10 < 10);
                }
            }
        }
    }
}

/// A line without the line break that ends it (CR LF, or one break character).
pub open spec fn line_body(l: Seq<char>) -> Seq<char> {
    if l.len() >= 2 && l[l.len() - 2] == '\r' && l[l.len() - 1] == '\n' {
        l.subrange(0, l.len() - 2)
    } else if l.len() >= 1 && is_line_break(l[l.len() - 1]) {
        l.drop_last()
    } else {
        l
    }
}

/// The first `n` characters of `s`, or all of it when it is shorter.
pub open spec fn clip(s: Seq<char>, n: int) -> Seq<char> {
    if s.len() <= n {
        s
    } else {
        s.subrange(0, n)
    }
}

/// The rows above the status line.
pub open spec fn visible_rows(height: int) -> int {
    if height > 0 {
        height - 1
    } else {
        0
    }
}

/// The columns left for text after the gutter and its separator space.
pub open spec fn text_width(width: int, gutter: int) -> int {
    if width > gutter + 1 {
        width - gutter - 1
    } else {
        0
    }
}

/// One terminal row above the status line.
pub enum Row {
    /// A document line: `pad` spaces, the line number, one space, the text.
    Numbered { pad: usize, number: usize, text: String },
    /// The `~` marker below the end of the document.
    Filler,
}

/// The status line, drawn left to right as: the mode badge, a space, the
/// path, a space, `padding` spaces, the label, a space.
pub struct StatusLine {
    pub mode: Mode,
    pub badge: &'static str,
    pub path: String,
    pub padding: usize,
    pub label: &'static str,
}

/// Everything one redraw puts on the screen. The cursor is in terminal
/// cells counted from 1.
pub struct Frame {
    pub rows: Vec<Row>,
    pub status: StatusLine,
    pub cursor_x: usize,
    pub cursor_y: usize,
}

/// The badge of a mode, eight cells wide.
pub open spec fn badge_of(m: Mode) -> Seq<char> {
    match m {
        Mode::Insert => " INSERT "@,
        Mode::Normal => " NORMAL "@,
        Mode::Visual => " VISUAL "@,
    }
}

/// The cells the status line fixes: the badge (8) and three single spaces.
pub open spec fn status_fixed() -> int {
    11
}

/// The run of spaces that puts the label at the right end of a status line
/// of `width` cells; none when the rest does not fit.
pub open spec fn status_padding(width: int, path_len: int, label_len: int) -> int {
    if width > status_fixed() + path_len + label_len {
        width - status_fixed() - path_len - label_len
    } else {
        0
    }
}

/// The path shown for a document: nothing for an anonymous one.
pub open spec fn path_text(p: Option<String>) -> Seq<char> {
    match p {
        Some(s) => s@,
        None => Seq::<char>::empty(),
    }
}

/// Row `r` of the frame of a document with the given lines.
pub open spec fn row_shows(row: Row, r: int, lines: Seq<Seq<char>>, line_count: int, width: int) -> bool {
    let gutter = digit_count_spec(line_count);
    if r < line_count {
        match row {
            Row::Numbered { pad, number, text } => {
                &&& number == r + 1
                &&& pad == gutter - digit_count_spec(r + 1)
                &&& text@ == clip(line_body(lines[r]), text_width(width, gutter))
            },
            Row::Filler => false,
        }
    } else {
        row is Filler
    }
}

/// When the rest fits, the status line fills the terminal width exactly:
/// badge, space, path, space, padding, label, space.
pub proof fn lemma_status_fills_width(width: int, path_len: int, label_len: int)
    requires
        path_len >= 0,
        label_len >= 0,
        width >= status_fixed() + path_len + label_len,
    ensures
        8 + 1 + path_len + 1 + status_padding(width, path_len, label_len) + label_len + 1 == width,
{
}

/// A numbered row fills exactly the gutter with its padding and number, and
/// its text, after the separator space, stays within the terminal width:
/// the text never reaches into the gutter.
pub proof fn lemma_row_fits(row: Row, r: int, lines: Seq<Seq<char>>, line_count: int, width: int)
    requires
        0 <= r < line_count < 100000,
        row_shows(row, r, lines, line_count, width),
        width > digit_count_spec(line_count) + 1,
    ensures
        row matches Row::Numbered { pad, number, text } && pad + decimal_len(number as nat)
            == digit_count_spec(line_count) && digit_count_spec(line_count) + 1 + text@.len()
            <= width,
{
    lemma_gutter_is_decimal_width((r + 1) as nat);
}

/// The badge of a mode.
pub fn badge(m: Mode) -> (r: &'static str)
    ensures
        r@ == badge_of(m),
{
    match m {
        Mode::Insert => " INSERT ",
        Mode::Normal => " NORMAL ",
        Mode::Visual => " VISUAL ",
    }
}

/// The shown part of a document line: without its break, cut to `max` characters.
pub fn visible_text(line: &str, max: usize) -> (r: String)
    ensures
        r@ == clip(line_body(line@), max as int),
{
    let n = line.unicode_len();
    let mut k = n;
    if n >= 2 && line.get_char(n - 2) == '\r' && line.get_char(n - 1) == '\n' {
        k = n - 2;
    } else if n >= 1 {
        let c = line.get_char(n - 1);
        if c == '\n' || c == '\u{0B}' || c == '\u{0C}' || c == '\r' || c == '\u{85}' || c
            == '\u{2028}' || c == '\u{2029}' {
            k = n - 1;
        }
    }
    let take = if k <= max {
        k
    } else {
        max
    };
    let r = line.substring_char(0, take).to_owned();
    proof {
        let b = line_body(line@);
        assert(b =~= line@.subrange(0, k as int));
        if k <= max {
            assert(r@ =~= b);
        } else {
            assert(r@ =~= b.subrange(0, max as int));
        }
    }
    r
}

/// The padding of the status line; see `status_padding`.
pub fn padding_for(width: usize, path_len: usize, label_len: usize) -> (r: usize)
    ensures
        r == status_padding(width as int, path_len as int, label_len as int),
{
    if width > 11 && path_len < width - 11 && label_len < width - 11 - path_len {
        width - 11 - path_len - label_len
    } else {
        0
    }
}

/// The status line of a document.
pub fn status_line(buf: &Buffer, width: usize) -> (s: StatusLine)
    ensures
        s.mode == buf.mode,
        s.badge@ == badge_of(buf.mode),
        s.path@ == path_text(buf.p),
        s.label@ == buf.lang_str@,
        s.padding == status_padding(width as int, path_text(buf.p).len() as int, buf.lang_str@.len() as int),
{
    let path = match &buf.p {
        Some(p) => p.clone(),
        None => String::new(),
    };
    let path_len = path.as_str().unicode_len();
    let label_len = buf.lang_str.unicode_len();
    StatusLine {
        mode: buf.mode,
        badge: badge(buf.mode),
        padding: padding_for(width, path_len, label_len),
        path,
        label: buf.lang_str,
    }
}

/// The frame of a document with the cursor on `current_line`, for a
/// terminal of `width` columns and `height` rows. One row is kept for the
/// status line; the cursor goes past the gutter and its space, on the
/// cursor line.
pub fn render_frame(buf: &Buffer, current_line: usize, width: usize, height: usize) -> (f: Frame)
    requires
        buf.wf(),
    ensures
        f.rows.len() == visible_rows(height as int),
        forall|r: int|
            0 <= r < f.rows.len() ==> row_shows(
                #[trigger] f.rows[r],
                r,
                buf.lines(),
                buf.line_count as int,
                width as int,
            ),
        f.status.mode == buf.mode,
        f.status.badge@ == badge_of(buf.mode),
        f.status.path@ == path_text(buf.p),
        f.status.label@ == buf.lang_str@,
        f.status.padding == status_padding(width as int, path_text(buf.p).len() as int, buf.lang_str@.len() as int),
        f.cursor_x == digit_count_spec(buf.line_count as int) + 2,
        f.cursor_y == current_line,
{
    let gutter = gutter_width(buf.line_count);
    let rows_n: usize = if height > 0 {
        height - 1
    } else {
        0
    };
    let avail: usize = if width > gutter + 1 {
        width - gutter - 1
    } else {
        0
    };
    let mut rows: Vec<Row> = Vec::new();
    let mut r: usize = 0;
    while r < rows_n
        invariant
            buf.wf(),
            gutter == digit_count_spec(buf.line_count as int),
            avail == text_width(width as int, gutter as int),
            r <= rows_n,
            rows.len() == r,
            forall|k: int|
                0 <= k < rows.len() ==> row_shows(
                    #[trigger] rows[k],
                    k,
                    buf.lines(),
                    buf.line_count as int,
                    width as int,
                ),
        decreases rows_n - r,
    {
        if r < buf.line_count {
            let line = rope_line(&buf.rope, r);
            let text = visible_text(line.as_str(), avail);
            let number = r + 1;
            let pad = gutter - digit_count(number);
            rows.push(Row::Numbered { pad, number, text });
        } else {
            rows.push(Row::Filler);
        }
        r = r + 1;
    }
    Frame {
        rows,
        status: status_line(buf, width),
        cursor_x: gutter + 2,
        cursor_y: current_line,
    }
}

} // verus!
