//! Plain-terminal rendering: ANSI colouring, centred titles in double-line
//! boxes, and single-line panels.
use vstd::prelude::*;
use crate::text::{chars_of, push_chars, push_repeat, push_str_chars, repeat_char, slice_chars, string_of};

verus! {

broadcast use vstd::seq_lib::group_seq_properties;

/// Resets colours and attributes.
pub const ANSI_RESET: &'static str = "\u{1b}[0m";

/// Bold text.
pub const ANSI_BOLD: &'static str = "\u{1b}[1m";

/// Amber foreground.
pub const ANSI_AMBER: &'static str = "\u{1b}[38;2;255;214;107m";

/// Cyan foreground.
pub const ANSI_CYAN: &'static str = "\u{1b}[38;2;0;255;220m";

/// Blue foreground.
pub const ANSI_BLUE: &'static str = "\u{1b}[38;2;100;180;255m";

/// Dim grey foreground.
pub const ANSI_DIM: &'static str = "\u{1b}[38;2;120;120;150m";

/// Green foreground.
pub const ANSI_GREEN: &'static str = "\u{1b}[38;2;80;255;120m";

/// Red foreground.
pub const ANSI_RED: &'static str = "\u{1b}[38;2;255;70;70m";

/// Magenta foreground.
pub const ANSI_MAGENTA: &'static str = "\u{1b}[38;2;255;60;200m";

/// Purple foreground.
pub const ANSI_PURPLE: &'static str = "\u{1b}[38;2;180;120;255m";

/// Gold foreground.
pub const ANSI_GOLD: &'static str = "\u{1b}[38;2;255;215;0m";

/// Orange foreground.
pub const ANSI_ORANGE: &'static str = "\u{1b}[38;2;255;143;66m";

/// Light foreground.
pub const ANSI_LIGHT: &'static str = "\u{1b}[38;2;220;220;240m";

/// `text` wrapped in `color` and a reset when colouring is enabled, else
/// `text` as it is.
pub open spec fn painted(text: Seq<char>, color: Seq<char>, enabled: bool) -> Seq<char> {
    if enabled {
        color + text + ANSI_RESET@
    } else {
        text
    }
}

fn paint_chars(text: &Vec<char>, color: &str, enabled: bool) -> (r: String)
    ensures
        r@ == painted(text@, color@, enabled),
{
    if enabled {
        let mut out = chars_of(color);
        push_chars(&mut out, text);
        push_str_chars(&mut out, ANSI_RESET);
        string_of(&out)
    } else {
        string_of(text)
    }
}

/// Colours `text` with the ANSI sequence `color` when `enabled`.
pub fn paint(text: &str, color: &str, enabled: bool) -> (r: String)
    ensures
        r@ == painted(text@, color@, enabled),
{
    let cs = chars_of(text);
    paint_chars(&cs, color, enabled)
}

/// `value` centred in `width` columns counted in bytes, as the terminal
/// layout does (`byte_len` is the UTF-8 length of `value`): the missing
/// width is split into spaces on both sides, the extra one on the right.
pub open spec fn centered(value: Seq<char>, byte_len: int, width: int) -> Seq<char> {
    let total = if width > byte_len {
        width - byte_len
    } else {
        0
    };
    let left = total / 2;
    repeat_char(' ', left as nat) + value + repeat_char(' ', (total - left) as nat)
}

/// `value` centred with spaces in `width` columns (see [`centered`]).
pub fn pad_center(value: &str, width: usize) -> (r: String)
    ensures
        r@ == centered(value@, value.len() as int, width as int),
{
    let total = width.saturating_sub(value.len());
    let left = total / 2;
    let right = total - left;
    let mut out: Vec<char> = Vec::new();
    push_repeat(&mut out, ' ', left);
    push_str_chars(&mut out, value);
    push_repeat(&mut out, ' ', right);
    string_of(&out)
}

/// `c` repeated `n` times between two end characters.
pub open spec fn rule_line(start: char, c: char, n: nat, end: char) -> Seq<char> {
    seq![start] + repeat_char(c, n) + seq![end]
}

fn rule(start: char, c: char, n: usize, end: char) -> (r: Vec<char>)
    ensures
        r@ == rule_line(start, c, n as nat, end),
{
    let mut out: Vec<char> = Vec::new();
    out.push(start);
    push_repeat(&mut out, c, n);
    out.push(end);
    out
}

/// The width inside a box drawn `width` columns wide.
pub open spec fn inner_width(width: int) -> int {
    if width > 4 {
        width - 4
    } else {
        0
    }
}

/// Whether a title can be boxed in `width` columns: the centred title must
/// be at least two characters long and start and end with one-byte
/// characters, so that cutting its first and last byte keeps whole
/// characters.
pub open spec fn boxable_title(title: Seq<char>, byte_len: int, width: int) -> bool {
    let c = centered(title, byte_len, inner_width(width));
    c.len() >= 2 && (c[0] as u32) < 128 && (c.last() as u32) < 128
}

/// The three lines of a boxed title: a double-line top border, the title
/// centred between `║ ` and ` ║` (the centred text less its first and last
/// character), and the bottom border, each painted in `color`.
pub open spec fn boxed_title_lines(
    title: Seq<char>,
    byte_len: int,
    color: Seq<char>,
    width: int,
    enabled: bool,
) -> Seq<Seq<char>> {
    let inner = inner_width(width);
    let c = centered(title, byte_len, inner);
    seq![
        painted(rule_line('\u{2554}', '\u{2550}', inner as nat, '\u{2557}'), color, enabled),
        painted(seq!['\u{2551}', ' '] + c.subrange(1, c.len() - 1) + seq![' ', '\u{2551}'], color, enabled),
        painted(rule_line('\u{255a}', '\u{2550}', inner as nat, '\u{255d}'), color, enabled),
    ]
}

/// A title centred in a double-line box `width` columns wide (see
/// [`boxed_title_lines`]).
pub fn boxed_title(title: &str, color: &str, width: usize, enabled: bool) -> (r: [String; 3])
    requires
        boxable_title(title@, title.len() as int, width as int),
    ensures
        r[0]@ == boxed_title_lines(title@, title.len() as int, color@, width as int, enabled)[0],
        r[1]@ == boxed_title_lines(title@, title.len() as int, color@, width as int, enabled)[1],
        r[2]@ == boxed_title_lines(title@, title.len() as int, color@, width as int, enabled)[2],
{
    let inner = width.saturating_sub(4);
    let centered_title = pad_center(title, inner);
    let c = chars_of(centered_title.as_str());
    let top = rule('\u{2554}', '\u{2550}', inner, '\u{2557}');
    let mut mid: Vec<char> = Vec::new();
    mid.push('\u{2551}');
    mid.push(' ');
    let body = slice_chars(&c, 1, c.len() - 1);
    push_chars(&mut mid, &body);
    mid.push(' ');
    mid.push('\u{2551}');
    assert(mid@ =~= seq!['\u{2551}', ' '] + c@.subrange(1, c@.len() - 1) + seq![' ', '\u{2551}']);
    let bottom = rule('\u{255a}', '\u{2550}', inner, '\u{255d}');
    [paint_chars(&top, color, enabled), paint_chars(&mid, color, enabled), paint_chars(&bottom, color, enabled)]
}

/// `s` padded on the right with spaces to `w` characters.
pub open spec fn pad_right(s: Seq<char>, w: int) -> Seq<char> {
    if s.len() < w {
        s + repeat_char(' ', (w - s.len()) as nat)
    } else {
        s
    }
}

fn pad_right_chars(s: &Vec<char>, w: usize) -> (r: Vec<char>)
    ensures
        r@ == pad_right(s@, w as int),
{
    let mut out = slice_chars(s, 0, s.len());
    if s.len() < w {
        push_repeat(&mut out, ' ', w - s.len());
    }
    out
}

/// A panel row: `s` padded to the panel's inner width between `│ ` and ` │`.
pub open spec fn panel_row(s: Seq<char>, w: int) -> Seq<char> {
    seq!['\u{2502}', ' '] + pad_right(s, w) + seq![' ', '\u{2502}']
}

fn row(s: &Vec<char>, w: usize) -> (r: Vec<char>)
    ensures
        r@ == panel_row(s@, w as int),
{
    let mut out: Vec<char> = Vec::new();
    out.push('\u{2502}');
    out.push(' ');
    let p = pad_right_chars(s, w);
    push_chars(&mut out, &p);
    out.push(' ');
    out.push('\u{2502}');
    out
}

/// A body line of a panel cut to the panel's text width.
pub open spec fn clipped(line: Seq<char>, w: int) -> Seq<char> {
    if line.len() > w {
        line.take(w)
    } else {
        line
    }
}

/// The lines of a panel `width` columns wide: its top border, the title
/// between diamonds, a separator, each body line cut to fit (not painted),
/// and the bottom border; the borders and title row are painted in
/// `border_color`.
pub open spec fn panel_lines(
    title: Seq<char>,
    body: Seq<Seq<char>>,
    width: int,
    border_color: Seq<char>,
    enabled: bool,
) -> Seq<Seq<char>> {
    let inner = inner_width(width);
    let w = inner - 2;
    seq![
        painted(rule_line('\u{250c}', '\u{2500}', inner as nat, '\u{2510}'), border_color, enabled),
        painted(panel_row(seq!['\u{25c6}', ' '] + title + seq![' ', '\u{25c6}'], w), border_color, enabled),
        painted(rule_line('\u{251c}', '\u{2500}', inner as nat, '\u{2524}'), border_color, enabled),
    ] + Seq::new(body.len(), |i: int| panel_row(clipped(body[i], w), w)) + seq![
        painted(rule_line('\u{2514}', '\u{2500}', inner as nat, '\u{2518}'), border_color, enabled),
    ]
}

/// Views of a sequence of strings.
pub open spec fn views_of(v: Seq<String>) -> Seq<Seq<char>> {
    Seq::new(v.len(), |i: int| v[i]@)
}

/// A single-line panel with a title and body lines (see [`panel_lines`]);
/// the panel must be at least 6 columns wide.
pub fn game_panel(title: &str, body: &[String], width: usize, border_color: &str, enabled: bool) -> (r:
    Vec<String>)
    requires
        width >= 6,
    ensures
        views_of(r@) == panel_lines(title@, views_of(body@), width as int, border_color@, enabled),
{
    let inner = width - 4;
    let w = inner - 2;
    let mut lines: Vec<String> = Vec::new();
    let top = rule('\u{250c}', '\u{2500}', inner, '\u{2510}');
    lines.push(paint_chars(&top, border_color, enabled));
    let mut decorated: Vec<char> = Vec::new();
    decorated.push('\u{25c6}');
    decorated.push(' ');
    push_str_chars(&mut decorated, title);
    decorated.push(' ');
    decorated.push('\u{25c6}');
    let title_row = row(&decorated, w);
    lines.push(paint_chars(&title_row, border_color, enabled));
    let sep = rule('\u{251c}', '\u{2500}', inner, '\u{2524}');
    lines.push(paint_chars(&sep, border_color, enabled));
    let ghost head = views_of(lines@);
    let mut i: usize = 0;
    while i < body.len()
        invariant
            i <= body.len(),
            w == inner - 2,
            inner == width - 4,
            lines@.len() == 3 + i,
            forall|k: int| 0 <= k < 3 ==> #[trigger] lines@[k]@ == head[k],
            head.len() == 3,
            forall|k: int|
                0 <= k < i ==> #[trigger] lines@[3 + k]@ == panel_row(
                    clipped(body@[k]@, w as int),
                    w as int,
                ),
        decreases body.len() - i,
    {
        let cs = chars_of(body[i].as_str());
        let cut = if cs.len() > w {
            slice_chars(&cs, 0, w)
        } else {
            cs
        };
        assert(cut@ == clipped(body@[i as int]@, w as int));
        let r = row(&cut, w);
        lines.push(string_of(&r));
        i += 1;
    }
    let bottom = rule('\u{2514}', '\u{2500}', inner, '\u{2518}');
    lines.push(paint_chars(&bottom, border_color, enabled));
    let ghost want = panel_lines(title@, views_of(body@), width as int, border_color@, enabled);
    assert(decorated@ =~= seq!['\u{25c6}', ' '] + title@ + seq![' ', '\u{25c6}']);
    assert forall|k: int| 0 <= k < lines@.len() implies #[trigger] views_of(lines@)[k] == want[k] by {
        if k >= 3 && k < 3 + body@.len() {
            assert(views_of(body@)[k - 3] == body@[k - 3]@);
            assert(lines@[3 + (k - 3)]@ == panel_row(clipped(body@[k - 3]@, w as int), w as int));
        }
    }
    assert(views_of(lines@) =~= want);
    lines
}

/// The paths of a battle's saved report files.
#[derive(Clone, Debug)]
pub struct SavedArtifacts {
    pub html_path: String,
    pub json_path: String,
    pub latest_html_path: String,
    pub latest_json_path: String,
}

/// `lines` joined with `\n`.
pub open spec fn joined_lines(lines: Seq<Seq<char>>) -> Seq<char>
    decreases lines.len(),
{
    if lines.len() == 0 {
        Seq::empty()
    } else if lines.len() == 1 {
        lines[0]
    } else {
        joined_lines(lines.drop_last()) + seq!['\n'] + lines.last()
    }
}

/// The summary printed after a report is rebuilt: a boxed banner and the
/// paths of the HTML report and the JSON result, dimmed.
pub open spec fn report_summary_text(html: Seq<char>, json: Seq<char>, color: bool) -> Seq<char> {
    let title = boxed_title_lines(
        "BETTERTHANYOU // REPORT REBUILT"@,
        31,
        ANSI_BOLD@,
        84,
        color,
    );
    joined_lines(
        seq![
            title[0],
            title[1],
            title[2],
            painted("HTML report : "@ + html, ANSI_DIM@, color),
            painted("JSON result : "@ + json, ANSI_DIM@, color),
        ],
    )
}

/// The summary printed after a report is rebuilt (see [`report_summary_text`]).
pub fn render_report_summary(report: &SavedArtifacts, color: bool) -> (r: String)
    ensures
        r@ == report_summary_text(report.html_path@, report.json_path@, color),
{
    let title_text = "BETTERTHANYOU // REPORT REBUILT";
    proof {
        reveal_strlit("BETTERTHANYOU // REPORT REBUILT");
        vstd::utf8::is_ascii_chars_encode_utf8(title_text@);
        assert(title_text.len() == 31);
        let c = centered(title_text@, 31, 80);
        assert(c[0] == ' ');
        assert(c.last() == ' ');
    }
    let banner = boxed_title(title_text, ANSI_BOLD, 84, color);
    let mut html = chars_of("HTML report : ");
    push_str_chars(&mut html, report.html_path.as_str());
    let mut json = chars_of("JSON result : ");
    push_str_chars(&mut json, report.json_path.as_str());
    let h = paint_chars(&html, ANSI_DIM, color);
    let j = paint_chars(&json, ANSI_DIM, color);
    let mut out = chars_of(banner[0].as_str());
    out.push('\n');
    push_str_chars(&mut out, banner[1].as_str());
    out.push('\n');
    push_str_chars(&mut out, banner[2].as_str());
    out.push('\n');
    push_str_chars(&mut out, h.as_str());
    out.push('\n');
    push_str_chars(&mut out, j.as_str());
    proof {
        let ls = seq![banner[0]@, banner[1]@, banner[2]@, h@, j@];
        assert(ls.drop_last().drop_last().drop_last().drop_last() =~= seq![banner[0]@]);
        assert(ls.drop_last().drop_last().drop_last() =~= seq![banner[0]@, banner[1]@]);
        assert(ls.drop_last().drop_last() =~= seq![banner[0]@, banner[1]@, banner[2]@]);
        assert(ls.drop_last() =~= seq![banner[0]@, banner[1]@, banner[2]@, h@]);
        reveal_with_fuel(joined_lines, 6);
        assert(out@ =~= joined_lines(ls));
    }
    string_of(&out)
}

/// The line printed after a report is opened.
pub fn render_open_summary(path: &str, color: bool) -> (r: String)
    ensures
        r@ == painted("Opened: "@ + path@, ANSI_DIM@, color),
{
    let mut cs = chars_of("Opened: ");
    push_str_chars(&mut cs, path);
    paint_chars(&cs, ANSI_DIM, color)
}

} // verus!
