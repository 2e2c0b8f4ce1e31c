//! Portrait inputs as the user types, pastes or drops them: cleaning them up,
//! telling what kind of source they are, and naming them.
use vstd::prelude::*;
use vstd::utf8::encode_utf8;
use crate::reports::{first_index_of, lemma_first_index_of, lemma_first_index_of_bounds};
use crate::text::{
    chars_of, ends_with, owned, has_prefix, has_suffix, is_ascii_alnum, is_ascii_alnum_spec,
    is_white_space, push_chars, replace_all, replace_spec, slice_chars, starts_with, string_of,
    to_lowercase, trim_char, trim_char_spec, trim_chars, trim_spec, unicode_lowercase,
    utf8_len_at_least,
};

verus! {

broadcast use vstd::seq_lib::group_seq_properties;

/// MIME type guessed from an already lowercased source.
pub open spec fn mime_for_lowercase(lower: Seq<char>) -> Seq<char> {
    if has_prefix(lower, "data:image/jpeg"@) || has_suffix(lower, ".jpg"@) || has_suffix(
        lower,
        ".jpeg"@,
    ) {
        "image/jpeg"@
    } else if has_suffix(lower, ".webp"@) {
        "image/webp"@
    } else {
        "image/png"@
    }
}

/// The image MIME type a source most likely holds: JPEG for JPEG data URLs
/// and `.jpg`/`.jpeg` names, WebP for `.webp`, PNG otherwise (case-insensitive).
pub fn infer_mime_type(source: &str) -> (r: &'static str)
    ensures
        r@ == mime_for_lowercase(unicode_lowercase(source@)),
{
    let lower = to_lowercase(source);
    let cs = chars_of(lower.as_str());
    if starts_with(&cs, "data:image/jpeg") || ends_with(&cs, ".jpg") || ends_with(&cs, ".jpeg") {
        "image/jpeg"
    } else if ends_with(&cs, ".webp") {
        "image/webp"
    } else {
        "image/png"
    }
}

/// Whether the trimmed input is wrapped in a matching pair of quotes.
pub open spec fn is_quoted(t: Seq<char>) -> bool {
    t.len() >= 1 && ((t[0] == '"' && t.last() == '"') || (t[0] == '\'' && t.last() == '\''))
}

/// A lone quote character, which has no inside to unwrap.
pub open spec fn is_lone_quote(input: Seq<char>) -> bool {
    let t = trim_spec(input);
    t.len() == 1 && (t[0] == '"' || t[0] == '\'')
}

/// Unix path joining (`PathBuf::join`): an absolute `rest` replaces `base`,
/// otherwise the two are joined with one `/` unless `base` is empty or
/// already ends with one.
pub open spec fn path_join(base: Seq<char>, rest: Seq<char>) -> Seq<char> {
    if rest.len() > 0 && rest[0] == '/' {
        rest
    } else if base.len() == 0 || base.last() == '/' {
        base + rest
    } else {
        base + seq!['/'] + rest
    }
}

/// A portrait source as typed: trimmed, unwrapped from one pair of matching
/// quotes, `\ ` turned into a space, and a leading `~/` expanded against the
/// home directory when one is known.
pub open spec fn normalized_source(input: Seq<char>, home: Option<Seq<char>>) -> Seq<char> {
    let t = trim_spec(input);
    let u = if is_quoted(t) {
        t.subrange(1, t.len() - 1)
    } else {
        t
    };
    let v = replace_spec(u, "\\ "@, " "@);
    match home {
        Some(h) => if has_prefix(v, "~/"@) {
            path_join(h, v.skip(2))
        } else {
            v
        },
        None => v,
    }
}

pub(crate) fn join_path(base: &str, rest: &Vec<char>) -> (r: Vec<char>)
    ensures
        r@ == path_join(base@, rest@),
{
    let b = chars_of(base);
    if rest.len() > 0 && rest[0] == '/' {
        return slice_chars(rest, 0, rest.len());
    }
    let mut out = slice_chars(&b, 0, b.len());
    if !(b.len() == 0 || b[b.len() - 1] == '/') {
        out.push('/');
    }
    push_chars(&mut out, rest);
    out
}

/// Where reports are written unless configured otherwise: the `reports`
/// directory of the project directory `project_dir`.
pub fn default_reports_dir(project_dir: &str) -> (r: String)
    ensures
        r@ == path_join(project_dir@, "reports"@),
{
    let rest = chars_of("reports");
    let j = join_path(project_dir, &rest);
    string_of(&j)
}

/// Cleans up a portrait source as typed or dropped into a terminal (see
/// [`normalized_source`]); `home` is the user's home directory, if known.
pub fn normalize_source_input(input: &str, home: Option<&str>) -> (r: String)
    requires
        !is_lone_quote(input@),
    ensures
        r@ == normalized_source(input@, match home {
            Some(h) => Some(h@),
            None => None,
        }),
{
    let cs = chars_of(input);
    let t = trim_chars(&cs);
    let quoted = t.len() >= 1 && ((t[0] == '"' && t[t.len() - 1] == '"') || (t[0] == '\''
        && t[t.len() - 1] == '\''));
    let u = if quoted {
        slice_chars(&t, 1, t.len() - 1)
    } else {
        t
    };
    proof {
        reveal_strlit("\\ ");
        reveal_strlit("~/");
    }
    let v = replace_all(&u, "\\ ", " ");
    match home {
        Some(h) => {
            if starts_with(&v, "~/") {
                let rest = slice_chars(&v, 2, v.len());
                assert(rest@ =~= v@.skip(2));
                let j = join_path(h, &rest);
                string_of(&j)
            } else {
                string_of(&v)
            }
        },
        None => string_of(&v),
    }
}

/// Index of the last `/` before index `j` of `p`, or -1.
pub open spec fn last_slash_before(p: Seq<char>, j: int) -> int
    decreases j,
{
    if j <= 0 {
        -1
    } else if p[j - 1] == '/' {
        j - 1
    } else {
        last_slash_before(p, j - 1)
    }
}

/// `last_slash_before(p, j)` is the last `/` before position `j`, or `-1`.
pub proof fn lemma_last_slash_bounds(p: Seq<char>, j: int)
    ensures
        j <= 0 ==> last_slash_before(p, j) == -1,
        j > 0 ==> -1 <= last_slash_before(p, j) < j,
        last_slash_before(p, j) >= 0 ==> p[last_slash_before(p, j)] == '/',
        forall|k: int| last_slash_before(p, j) < k < j ==> p[k] != '/',
    decreases j,
{
    if j > 0 && p[j - 1] != '/' {
        lemma_last_slash_bounds(p, j - 1);
    }
}

/// The last component of the path `p.take(j)` as Unix `Path::file_name`
/// sees it: empty and `.` components are skipped, and a final `..` (or no
/// component at all) gives `None`.
pub open spec fn file_name_within(p: Seq<char>, j: int) -> Option<Seq<char>>
    decreases j,
{
    if j <= 0 {
        None
    } else {
        let k = last_slash_before(p, j);
        proof {
            lemma_last_slash_bounds(p, j);
        }
        let seg = p.subrange(k + 1, j);
        if seg.len() == 0 || seg == seq!['.'] {
            if k < 0 {
                None
            } else {
                file_name_within(p, k)
            }
        } else if seg == seq!['.', '.'] {
            None
        } else {
            Some(seg)
        }
    }
}

/// Index of the last `.` of `s`, or -1.
pub open spec fn last_dot(s: Seq<char>) -> int
    decreases s.len(),
{
    if s.len() == 0 {
        -1
    } else if s.last() == '.' {
        s.len() - 1
    } else {
        last_dot(s.drop_last())
    }
}

proof fn lemma_last_dot(s: Seq<char>)
    ensures
        -1 <= last_dot(s) < s.len(),
        last_dot(s) >= 0 ==> s[last_dot(s)] == '.',
        forall|k: int| last_dot(s) < k < s.len() ==> s[k] != '.',
    decreases s.len(),
{
    if s.len() > 0 && s.last() != '.' {
        let d = s.drop_last();
        lemma_last_dot(d);
        assert forall|k: int| last_dot(s) < k < s.len() implies s[k] != '.' by {
            if k < d.len() {
                assert(s[k] == d[k]);
            }
        }
    }
}

/// The stem of a file name (`Path::file_stem`): the part before the last
/// `.`, or the whole name when it has no `.` other than a leading one.
pub open spec fn stem_of_name(name: Seq<char>) -> Seq<char> {
    if last_dot(name) <= 0 {
        name
    } else {
        name.take(last_dot(name))
    }
}

/// `Path::file_stem` of a Unix path.
pub open spec fn file_stem_of(p: Seq<char>) -> Option<Seq<char>> {
    match file_name_within(p, p.len() as int) {
        Some(name) => Some(stem_of_name(name)),
        None => None,
    }
}

pub(crate) fn file_name_of(p: &Vec<char>) -> (r: Option<Vec<char>>)
    ensures
        match r {
            Some(n) => file_name_within(p@, p@.len() as int) == Some(n@),
            None => file_name_within(p@, p@.len() as int) is None,
        },
{
    let mut j: usize = p.len();
    loop
        invariant
            j <= p.len(),
            file_name_within(p@, j as int) == file_name_within(p@, p@.len() as int),
        decreases j,
    {
        if j == 0 {
            return None;
        }
        let mut k: usize = j;
        while k > 0 && p[k - 1] != '/'
            invariant
                k <= j <= p.len(),
                last_slash_before(p@, j as int) == last_slash_before(p@, k as int),
            decreases k,
        {
            k -= 1;
        }
        proof {
            lemma_last_slash_bounds(p@, j as int);
        }
        // `k` is one past the last slash (or 0 when there is none).
        assert(k > 0 ==> last_slash_before(p@, j as int) == k - 1);
        assert(k == 0 ==> last_slash_before(p@, j as int) == -1);
        let seg = slice_chars(p, k, j);
        let is_dot = seg.len() == 1 && seg[0] == '.';
        let is_dot_dot = seg.len() == 2 && seg[0] == '.' && seg[1] == '.';
        proof {
            if is_dot {
                assert(seg@ =~= seq!['.']);
            }
            if seg@ == seq!['.'] {
                assert(seg@[0] == '.');
            }
            if is_dot_dot {
                assert(seg@ =~= seq!['.', '.']);
            }
            if seg@ == seq!['.', '.'] {
                assert(seg@[0] == '.' && seg@[1] == '.');
            }
        }
        if seg.len() == 0 || is_dot {
            if k == 0 {
                return None;
            }
            j = k - 1;
        } else if is_dot_dot {
            return None;
        } else {
            return Some(seg);
        }
    }
}

fn stem_of(name: &Vec<char>) -> (r: Vec<char>)
    ensures
        r@ == stem_of_name(name@),
{
    let mut d: usize = name.len();
    while d > 0 && name[d - 1] != '.'
        invariant
            d <= name.len(),
            forall|k: int| d <= k < name.len() ==> name@[k] != '.',
        decreases d,
    {
        d -= 1;
    }
    proof {
        lemma_last_dot(name@);
        lemma_last_dot_at(name@, d as int - 1);
    }
    if d <= 1 {
        slice_chars(name, 0, name.len())
    } else {
        slice_chars(name, 0, d - 1)
    }
}

/// `last_dot` is the position `i` of the last `.`, or `-1` when there is none.
pub proof fn lemma_last_dot_at(s: Seq<char>, i: int)
    requires
        -1 <= i < s.len(),
        i >= 0 ==> s[i] == '.',
        forall|k: int| i < k < s.len() ==> s[k] != '.',
    ensures
        last_dot(s) == i,
    decreases s.len(),
{
    if s.len() > 0 && s.last() != '.' {
        lemma_last_dot_at(s.drop_last(), i);
    }
}

/// The text of `s` before the first `?` or `#` (all of it when neither occurs).
pub open spec fn before_query(s: Seq<char>) -> Seq<char> {
    let q = first_index_of(s, '?');
    let h = first_index_of(s, '#');
    s.take(if q < h {
        q
    } else {
        h
    })
}

/// The label a portrait gets from its source: `None` for data URLs;
/// otherwise the file stem of the cleaned-up source with any URL query or
/// fragment cut off, trimmed, and `None` when that leaves nothing.
pub open spec fn source_label(source: Seq<char>, home: Option<Seq<char>>) -> Option<Seq<char>> {
    if has_prefix(source, "data:"@) {
        None
    } else {
        match file_stem_of(before_query(normalized_source(source, home))) {
            Some(stem) => if trim_spec(stem).len() > 0 {
                Some(trim_spec(stem))
            } else {
                None
            },
            None => None,
        }
    }
}

/// A human-friendly label from a portrait source (the file name without its
/// extension); `None` for data URLs or when no name can be extracted.
pub fn label_from_source(source: &str, home: Option<&str>) -> (r: Option<String>)
    requires
        !is_lone_quote(source@),
    ensures
        match r {
            Some(l) => source_label(source@, opt_view(home)) == Some(l@),
            None => source_label(source@, opt_view(home)) is None,
        },
{
    let cs = chars_of(source);
    if starts_with(&cs, "data:") {
        return None;
    }
    let normalized = normalize_source_input(source, home);
    assert(normalized@ == normalized_source(source@, opt_view(home)));
    let n = chars_of(normalized.as_str());
    let mut i: usize = 0;
    while i < n.len() && n[i] != '?' && n[i] != '#'
        invariant
            i <= n.len(),
            forall|k: int| 0 <= k < i ==> n@[k] != '?' && n@[k] != '#',
        decreases n.len() - i,
    {
        i += 1;
    }
    proof {
        lemma_first_stop(n@, i as int);
    }
    let clean = slice_chars(&n, 0, i);
    assert(clean@ =~= before_query(n@));
    match file_name_of(&clean) {
        None => None,
        Some(name) => {
            let stem = stem_of(&name);
            let t = trim_chars(&stem);
            if t.len() == 0 {
                None
            } else {
                Some(string_of(&t))
            }
        },
    }
}

proof fn lemma_first_stop(s: Seq<char>, i: int)
    requires
        0 <= i <= s.len(),
        forall|k: int| 0 <= k < i ==> s[k] != '?' && s[k] != '#',
        i == s.len() || s[i] == '?' || s[i] == '#',
    ensures
        i == (if first_index_of(s, '?') < first_index_of(s, '#') {
            first_index_of(s, '?')
        } else {
            first_index_of(s, '#')
        }),
{
    lemma_first_index_of_bounds(s, '?');
    lemma_first_index_of_bounds(s, '#');
    if i == s.len() {
        lemma_first_index_of(s, '?', i);
        lemma_first_index_of(s, '#', i);
    } else if s[i] == '?' {
        lemma_first_index_of(s, '?', i);
    } else {
        lemma_first_index_of(s, '#', i);
    }
}

/// An optional string taken by its view.
pub open spec fn opt_view(o: Option<&str>) -> Option<Seq<char>> {
    match o {
        Some(s) => Some(s@),
        None => None,
    }
}

/// A character that may occur in base64 text as pasted: ASCII letters and
/// digits, `+`, `/`, `=` and line breaks.
pub open spec fn is_base64_char(c: char) -> bool {
    is_ascii_alnum_spec(c) || c == '+' || c == '/' || c == '=' || c == '\n' || c == '\r'
}

/// Text that looks like raw base64 image data: longer than 96 bytes and made
/// of base64 characters only.
pub open spec fn looks_base64(value: Seq<char>) -> bool {
    encode_utf8(value).len() > 96 && forall|k: int| 0 <= k < value.len() ==> is_base64_char(
        #[trigger] value[k],
    )
}

/// Whether `value` looks like raw base64 image data.
pub fn looks_like_base64(value: &str) -> (r: bool)
    ensures
        r == looks_base64(value@),
{
    let cs = chars_of(value);
    if !utf8_len_at_least(&cs, 97) {
        return false;
    }
    let mut i: usize = 0;
    while i < cs.len()
        invariant
            i <= cs.len(),
            cs@ == value@,
            forall|k: int| 0 <= k < i ==> is_base64_char(#[trigger] cs@[k]),
        decreases cs.len() - i,
    {
        let c = cs[i];
        if !(is_ascii_alnum(c) || c == '+' || c == '/' || c == '=' || c == '\n' || c == '\r') {
            assert(!is_base64_char(cs@[i as int]));
            return false;
        }
        i += 1;
    }
    true
}

/// The media type and payload of a data URL: the text after the first `,`
/// is the payload; the media type is the header's text between `data:` and
/// the first `;`, or `image/jpeg` when the header does not start with
/// `data:`. Without a `,` the whole text is the payload of a JPEG.
pub open spec fn data_url_parts(s: Seq<char>) -> (Seq<char>, Seq<char>) {
    let c = first_index_of(s, ',');
    if c < s.len() {
        let header = s.take(c);
        let media = if has_prefix(header, "data:"@) {
            let rest = header.skip(5);
            rest.take(first_index_of(rest, ';'))
        } else {
            "image/jpeg"@
        };
        (media, s.skip(c + 1))
    } else {
        ("image/jpeg"@, s)
    }
}

fn index_of(cs: &Vec<char>, c: char) -> (i: usize)
    ensures
        i == first_index_of(cs@, c),
        i <= cs.len(),
{
    let mut i: usize = 0;
    while i < cs.len() && cs[i] != c
        invariant
            i <= cs.len(),
            forall|k: int| 0 <= k < i ==> cs@[k] != c,
        decreases cs.len() - i,
    {
        i += 1;
    }
    proof {
        lemma_first_index_of(cs@, c, i as int);
    }
    i
}

/// Splits a data URL into its media type and its base64 payload.
pub fn parse_data_url(data_url: &str) -> (r: (String, String))
    ensures
        (r.0@, r.1@) == data_url_parts(data_url@),
{
    let cs = chars_of(data_url);
    let c = index_of(&cs, ',');
    if c < cs.len() {
        let header = slice_chars(&cs, 0, c);
        let payload = slice_chars(&cs, c + 1, cs.len());
        assert(header@ =~= cs@.take(c as int));
        assert(payload@ =~= cs@.skip(c + 1));
        proof {
            reveal_strlit("data:");
        }
        let media = if starts_with(&header, "data:") {
            let rest = slice_chars(&header, 5, header.len());
            assert(rest@ =~= header@.skip(5));
            let semi = index_of(&rest, ';');
            let m = slice_chars(&rest, 0, semi);
            assert(m@ =~= rest@.take(semi as int));
            string_of(&m)
        } else {
            owned("image/jpeg")
        };
        (media, string_of(&payload))
    } else {
        (owned("image/jpeg"), string_of(&cs))
    }
}

/// How a cleaned-up portrait source is loaded.
#[derive(Clone, Copy, Debug, PartialEq, Eq, Structural)]
pub enum SourceKind {
    /// An inline `data:image/...` URL.
    DataUrl,
    /// An `http://` or `https://` URL to fetch.
    Web,
    /// A file on disk.
    File,
    /// Raw base64 image data.
    Base64,
    /// None of the above: the input is refused.
    Unsupported,
}

/// The kind of a cleaned-up source, given whether a file exists at that path.
pub open spec fn source_kind(s: Seq<char>, exists: bool) -> SourceKind {
    if has_prefix(s, "data:image/"@) {
        SourceKind::DataUrl
    } else if has_prefix(s, "http://"@) || has_prefix(s, "https://"@) {
        SourceKind::Web
    } else if exists {
        SourceKind::File
    } else if looks_base64(s) {
        SourceKind::Base64
    } else {
        SourceKind::Unsupported
    }
}

/// How a cleaned-up source is to be loaded; `exists` tells whether a file
/// exists at that path.
pub fn classify_source(normalized: &str, exists: bool) -> (k: SourceKind)
    ensures
        k == source_kind(normalized@, exists),
{
    let cs = chars_of(normalized);
    if starts_with(&cs, "data:image/") {
        SourceKind::DataUrl
    } else if starts_with(&cs, "http://") || starts_with(&cs, "https://") {
        SourceKind::Web
    } else if exists {
        SourceKind::File
    } else if looks_like_base64(normalized) {
        SourceKind::Base64
    } else {
        SourceKind::Unsupported
    }
}

/// The source type recorded for a loaded portrait: `url` for anything that
/// starts with `http`, `data-url` for inline images, `path` for files and
/// `base64` otherwise.
pub open spec fn source_type_text(s: Seq<char>, exists: bool) -> Seq<char> {
    if has_prefix(s, "http"@) {
        "url"@
    } else if has_prefix(s, "data:image/"@) {
        "data-url"@
    } else if exists {
        "path"@
    } else {
        "base64"@
    }
}

/// The source type recorded for a loaded portrait (see [`source_type_text`]).
pub fn source_type_label(normalized: &str, exists: bool) -> (r: &'static str)
    ensures
        r@ == source_type_text(normalized@, exists),
{
    let cs = chars_of(normalized);
    if starts_with(&cs, "http") {
        "url"
    } else if starts_with(&cs, "data:image/") {
        "data-url"
    } else if exists {
        "path"
    } else {
        "base64"
    }
}

/// The base64 payload of a data URL: the text after its first `,`, or
/// `None` when there is no `,` (an invalid data URL).
pub fn data_url_payload(normalized: &str) -> (r: Option<String>)
    ensures
        match r {
            Some(p) => first_index_of(normalized@, ',') < normalized@.len() && p@
                == normalized@.skip(first_index_of(normalized@, ',') + 1),
            None => first_index_of(normalized@, ',') == normalized@.len(),
        },
{
    let cs = chars_of(normalized);
    let c = index_of(&cs, ',');
    if c < cs.len() {
        let p = slice_chars(&cs, c + 1, cs.len());
        assert(p@ =~= cs@.skip(c + 1));
        Some(string_of(&p))
    } else {
        None
    }
}

/// `s` without its line-break characters (`\n` and `\r`).
pub open spec fn strip_line_breaks(s: Seq<char>) -> Seq<char>
    decreases s.len(),
{
    if s.len() == 0 {
        s
    } else if s.last() == '\n' || s.last() == '\r' {
        strip_line_breaks(s.drop_last())
    } else {
        strip_line_breaks(s.drop_last()).push(s.last())
    }
}

fn strip_breaks(cs: &Vec<char>) -> (r: Vec<char>)
    ensures
        r@ == strip_line_breaks(cs@),
{
    let mut out: Vec<char> = Vec::new();
    let mut i: usize = 0;
    while i < cs.len()
        invariant
            i <= cs.len(),
            out@ == strip_line_breaks(cs@.take(i as int)),
        decreases cs.len() - i,
    {
        assert(cs@.take(i + 1).drop_last() =~= cs@.take(i as int));
        if cs[i] != '\n' && cs[i] != '\r' {
            out.push(cs[i]);
        }
        i += 1;
    }
    assert(cs@.take(cs.len() as int) =~= cs@);
    out
}

/// Raw base64 text with its line breaks removed, ready for decoding.
pub fn base64_without_line_breaks(value: &str) -> (r: String)
    ensures
        r@ == strip_line_breaks(value@),
{
    let cs = chars_of(value);
    let out = strip_breaks(&cs);
    string_of(&out)
}

/// The label a portrait is shown under: the label given by the user when it
/// is not empty, else the label taken from its source, else the side's name.
pub open spec fn portrait_label_text(
    label: Option<Seq<char>>,
    source: Seq<char>,
    home: Option<Seq<char>>,
    side: Seq<char>,
) -> Seq<char> {
    match label {
        Some(l) if l.len() > 0 => l,
        _ => match source_label(source, home) {
            Some(l) => l,
            None => side,
        },
    }
}

/// The label a portrait is shown under (see [`portrait_label_text`]).
pub fn portrait_label(label: Option<&str>, source: &str, home: Option<&str>, side: &str) -> (r:
    String)
    requires
        !is_lone_quote(source@),
    ensures
        r@ == portrait_label_text(opt_view(label), source@, opt_view(home), side@),
{
    match label {
        Some(l) => {
            let lc = chars_of(l);
            if lc.len() > 0 {
                return owned(l);
            }
        },
        None => {},
    }
    match label_from_source(source, home) {
        Some(l) => l,
        None => owned(side),
    }
}

/// A path as dropped into the terminal: trimmed, stripped of surrounding
/// single and then double quotes, trimmed again, with the backslash escapes
/// of spaces, parentheses and brackets undone.
pub open spec fn cleaned_path(input: Seq<char>) -> Seq<char> {
    let t = trim_spec(trim_char_spec(trim_char_spec(trim_spec(input), '\''), '"'));
    replace_spec(
        replace_spec(
            replace_spec(replace_spec(replace_spec(t, "\\ "@, " "@), "\\("@, "("@), "\\)"@, ")"@),
            "\\["@,
            "["@,
        ),
        "\\]"@,
        "]"@,
    )
}

/// Cleans up a path dropped or pasted into the terminal (see [`cleaned_path`]).
pub fn clean_path(input: &str) -> (r: String)
    ensures
        r@ == cleaned_path(input@),
{
    let cs = chars_of(input);
    let a = trim_chars(&cs);
    let b = trim_char(&a, '\'');
    let c = trim_char(&b, '"');
    let t = trim_chars(&c);
    proof {
        reveal_strlit("\\ ");
        reveal_strlit("\\(");
        reveal_strlit("\\)");
        reveal_strlit("\\[");
        reveal_strlit("\\]");
    }
    let r1 = replace_all(&t, "\\ ", " ");
    let r2 = replace_all(&r1, "\\(", "(");
    let r3 = replace_all(&r2, "\\)", ")");
    let r4 = replace_all(&r3, "\\[", "[");
    let r5 = replace_all(&r4, "\\]", "]");
    string_of(&r5)
}

/// A line of input with surrounding white space removed.
pub fn normalize_input(value: String) -> (r: String)
    ensures
        r@ == trim_spec(value@),
{
    crate::text::trim(value.as_str())
}

/// `lines` with `line` appended, trimmed, unless trimming leaves it empty.
pub open spec fn push_line(lines: Seq<Seq<char>>, line: Seq<char>) -> Seq<Seq<char>> {
    if trim_spec(line).len() > 0 {
        lines.push(trim_spec(line))
    } else {
        lines
    }
}

/// The lines finished so far and the line being read, after reading `s`;
/// `\r` is dropped and `\n` ends a line.
pub open spec fn lines_state(s: Seq<char>) -> (Seq<Seq<char>>, Seq<char>)
    decreases s.len(),
{
    if s.len() == 0 {
        (Seq::empty(), Seq::empty())
    } else {
        let (lines, cur) = lines_state(s.drop_last());
        let c = s.last();
        if c == '\r' {
            (lines, cur)
        } else if c == '\n' {
            (push_line(lines, cur), Seq::empty())
        } else {
            (lines, cur.push(c))
        }
    }
}

/// The non-empty lines of `s`, each trimmed, in order (`\r` ignored).
pub open spec fn input_lines(s: Seq<char>) -> Seq<Seq<char>> {
    push_line(lines_state(s).0, lines_state(s).1)
}

proof fn lemma_lines_state_trimmed(s: Seq<char>)
    ensures
        forall|i: int|
            0 <= i < lines_state(s).0.len() ==> (#[trigger] lines_state(s).0[i]).len() > 0
                && trim_spec(lines_state(s).0[i]) == lines_state(s).0[i],
    decreases s.len(),
{
    if s.len() > 0 {
        let d = s.drop_last();
        lemma_lines_state_trimmed(d);
        let (lines, cur) = lines_state(d);
        crate::text::lemma_trim_idempotent(cur);
    }
}

/// Every line read from piped or pasted text is non-empty and trimmed.
pub proof fn lemma_input_lines_trimmed(s: Seq<char>)
    ensures
        forall|i: int|
            0 <= i < input_lines(s).len() ==> (#[trigger] input_lines(s)[i]).len() > 0 && trim_spec(
                input_lines(s)[i],
            ) == input_lines(s)[i],
{
    lemma_lines_state_trimmed(s);
    crate::text::lemma_trim_idempotent(lines_state(s).1);
}

/// Views of a vector of strings.
pub open spec fn string_views(v: Seq<String>) -> Seq<Seq<char>> {
    Seq::new(v.len(), |i: int| v[i]@)
}

fn push_trimmed(lines: &mut Vec<String>, cur: &Vec<char>)
    ensures
        string_views(final(lines)@) == push_line(string_views(old(lines)@), cur@),
{
    let t = trim_chars(cur);
    if t.len() > 0 {
        let ghost before = string_views(lines@);
        lines.push(string_of(&t));
        assert(string_views(lines@) =~= before.push(t@));
    }
}

/// The non-empty, trimmed lines of piped or pasted text (see [`input_lines`]).
pub fn split_input_lines(input: &str) -> (r: Vec<String>)
    ensures
        string_views(r@) == input_lines(input@),
{
    let cs = chars_of(input);
    let mut lines: Vec<String> = Vec::new();
    let mut cur: Vec<char> = Vec::new();
    let mut i: usize = 0;
    assert(string_views(lines@) =~= Seq::<Seq<char>>::empty());
    while i < cs.len()
        invariant
            i <= cs.len(),
            cs@ == input@,
            (string_views(lines@), cur@) == lines_state(cs@.take(i as int)),
        decreases cs.len() - i,
    {
        assert(cs@.take(i + 1).drop_last() =~= cs@.take(i as int));
        let c = cs[i];
        if c == '\r' {
        } else if c == '\n' {
            push_trimmed(&mut lines, &cur);
            cur = Vec::new();
        } else {
            cur.push(c);
        }
        i += 1;
    }
    assert(cs@.take(cs.len() as int) =~= cs@);
    push_trimmed(&mut lines, &cur);
    lines
}

/// Fills in the portrait sources still missing from piped input: the first
/// piped line for the left one, the second for the right one.
pub fn fill_sources_from_lines(
    left: Option<String>,
    right: Option<String>,
    lines: &Vec<String>,
) -> (r: (Option<String>, Option<String>))
    ensures
        left is Some ==> r.0 == left,
        left is None ==> (r.0 is Some <==> lines@.len() > 0) && (lines@.len() > 0 ==> r.0->0@
            == lines@[0]@),
        right is Some ==> r.1 == right,
        right is None ==> (r.1 is Some <==> lines@.len() > 1) && (lines@.len() > 1 ==> r.1->0@
            == lines@[1]@),
{
    let l = match left {
        Some(v) => Some(v),
        None => if lines.len() > 0 {
            Some(lines[0].clone())
        } else {
            None
        },
    };
    let r = match right {
        Some(v) => Some(v),
        None => if lines.len() > 1 {
            Some(lines[1].clone())
        } else {
            None
        },
    };
    (l, r)
}

/// The two portrait sources of a battle, when both are given and not
/// empty; a battle needs two.
pub fn complete_sources(left: Option<String>, right: Option<String>) -> (r: Option<(String, String)>)
    ensures
        match r {
            Some((l, rt)) => left is Some && right is Some && l@ == left->0@ && rt@ == right->0@
                && l@.len() > 0 && rt@.len() > 0,
            None => !(left is Some && right is Some && left->0@.len() > 0 && right->0@.len() > 0),
        },
{
    match (left, right) {
        (Some(l), Some(r)) => {
            let lc = chars_of(l.as_str());
            let rc = chars_of(r.as_str());
            if lc.len() > 0 && rc.len() > 0 {
                Some((l, r))
            } else {
                None
            }
        },
        _ => None,
    }
}

/// The first two non-empty lines of pasted text, when it has two.
pub fn first_two_lines(text: &str) -> (r: Option<(String, String)>)
    ensures
        match r {
            Some((a, b)) => input_lines(text@).len() >= 2 && a@ == input_lines(text@)[0] && b@
                == input_lines(text@)[1],
            None => input_lines(text@).len() < 2,
        },
{
    let lines = split_input_lines(text);
    if lines.len() >= 2 {
        assert(string_views(lines@)[0] == lines@[0]@);
        assert(string_views(lines@)[1] == lines@[1]@);
        Some((lines[0].clone(), lines[1].clone()))
    } else {
        None
    }
}

/// Whether pasted text, once cleaned, replaces the input instead of being
/// appended to it: it looks like a path or URL (starts with `/`, `~`, `http`
/// or `data:`), or, where `quote_replaces`, starts with a quote.
pub open spec fn paste_replaces(cleaned: Seq<char>, quote_replaces: bool) -> bool {
    has_prefix(cleaned, "/"@) || has_prefix(cleaned, "~"@) || has_prefix(cleaned, "http"@)
        || has_prefix(cleaned, "data:"@) || (quote_replaces && (has_prefix(cleaned, "'"@)
        || has_prefix(cleaned, "\""@)))
}

/// The input after a paste: the pasted text without line breaks and trimmed
/// either replaces the input or is appended to it (see [`paste_replaces`]).
pub open spec fn pasted_input(current: Seq<char>, pasted: Seq<char>, quote_replaces: bool) -> Seq<
    char,
> {
    let cleaned = trim_spec(strip_line_breaks(pasted));
    if paste_replaces(cleaned, quote_replaces) {
        cleaned
    } else {
        current + cleaned
    }
}

/// Applies a paste to a text input (see [`pasted_input`]).
pub fn apply_paste(current: &str, pasted: &str, quote_replaces: bool) -> (r: String)
    ensures
        r@ == pasted_input(current@, pasted@, quote_replaces),
{
    let pc = chars_of(pasted);
    let stripped = strip_breaks(&pc);
    let cleaned = trim_chars(&stripped);
    let replaces = starts_with(&cleaned, "/") || starts_with(&cleaned, "~") || starts_with(
        &cleaned,
        "http",
    ) || starts_with(&cleaned, "data:") || (quote_replaces && (starts_with(&cleaned, "'")
        || starts_with(&cleaned, "\"")));
    if replaces {
        string_of(&cleaned)
    } else {
        let mut out = chars_of(current);
        push_chars(&mut out, &cleaned);
        string_of(&out)
    }
}

} // verus!
