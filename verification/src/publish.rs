//! Publishing and serving reports: content hashes, QR codes, the upload
//! services' requests and answers, and the local report server's routing.
use vstd::prelude::*;
use qrcode::render::unicode::Dense1x2;
use sha2::Digest;
use vstd::utf8::encode_utf8;
use crate::share::{url_encode, url_encoded};
use crate::sources::{file_name_within, last_dot, lemma_last_dot_at, stem_of_name};
use crate::text::{
    chars_of, has_prefix, owned, push_chars, push_str_chars, replace_first, replace_first_spec,
    slice_chars, starts_with, str_eq, string_of, trim_chars, trim_spec,
};

verus! {

broadcast use vstd::seq_lib::group_seq_properties;

/// The SHA-256 digest of a byte string.
pub uninterp spec fn sha256_digest(bytes: Seq<u8>) -> Seq<u8>;

/// `sha2::Sha256` over `bytes`: the 32-byte digest, a function of the bytes
/// alone.
#[verifier::external_body]
fn sha256(bytes: &[u8]) -> (d: Vec<u8>)
    ensures
        d@ == sha256_digest(bytes@),
        d@.len() == 32,
{
    let mut hasher = sha2::Sha256::new();
    hasher.update(bytes);
    hasher.finalize().to_vec()
}

/// The lowercase hexadecimal digit of a value below 16.
pub open spec fn hex_digit_lower(d: int) -> char {
    if d < 10 {
        (48 + d) as char
    } else {
        (87 + d) as char
    }
}

/// Bytes written as lowercase hexadecimal, two digits per byte.
pub open spec fn hex_lower(bytes: Seq<u8>) -> Seq<char>
    decreases bytes.len(),
{
    if bytes.len() == 0 {
        Seq::empty()
    } else {
        hex_lower(bytes.drop_last()) + seq![
            hex_digit_lower(bytes.last() as int / 16),
            hex_digit_lower(bytes.last() as int % 16),
        ]
    }
}

fn hex_char(d: u8) -> (c: char)
    requires
        d < 16,
    ensures
        c == hex_digit_lower(d as int),
{
    if d < 10 {
        (48 + d) as char
    } else {
        (87 + d) as char
    }
}

/// Every character of a hexadecimal digest is a lowercase hexadecimal digit.
pub proof fn lemma_hex_lower_digits(bytes: Seq<u8>)
    ensures
        hex_lower(bytes).len() == 2 * bytes.len(),
        forall|k: int|
            0 <= k < hex_lower(bytes).len() ==> ('0' <= #[trigger] hex_lower(bytes)[k] <= '9') || ('a'
                <= hex_lower(bytes)[k] <= 'f'),
    decreases bytes.len(),
{
    if bytes.len() > 0 {
        let d = bytes.drop_last();
        lemma_hex_lower_digits(d);
        let b = bytes.last();
        let h = hex_lower(bytes);
        let hd = hex_lower(d);
        assert forall|k: int| 0 <= k < h.len() implies ('0' <= #[trigger] h[k] <= '9') || ('a' <= h[k]
            <= 'f') by {
            if k < hd.len() {
                assert(h[k] == hd[k]);
            }
        }
    }
}

/// The content hash of a portrait: the SHA-256 digest of its bytes in
/// lowercase hexadecimal.
pub fn hash_bytes(bytes: &[u8]) -> (r: String)
    ensures
        r@ == hex_lower(sha256_digest(bytes@)),
        r@.len() == 64,
{
    let d = sha256(bytes);
    let mut out: Vec<char> = Vec::new();
    let mut i: usize = 0;
    while i < d.len()
        invariant
            i <= d.len(),
            out@ == hex_lower(d@.take(i as int)),
            out@.len() == 2 * i,
        decreases d.len() - i,
    {
        assert(d@.take(i + 1).drop_last() =~= d@.take(i as int));
        let b = d[i];
        out.push(hex_char(b / 16));
        out.push(hex_char(b % 16));
        i += 1;
    }
    assert(d@.take(d.len() as int) =~= d@);
    string_of(&out)
}

/// The terminal rendering of the QR code of a byte string, as `qrcode`
/// draws it with half-height blocks and inverted colours; `None` when the
/// data cannot be encoded.
pub uninterp spec fn qr_dense_render(bytes: Seq<u8>) -> Option<Seq<char>>;

/// `qrcode::QrCode::new` on the UTF-8 bytes of `text`, rendered with
/// `render::<unicode::Dense1x2>()` with dark and light swapped; `None`
/// when `QrCode::new` fails (the data is too long). The drawing is a
/// function of the bytes alone; nothing more is stated of it.
#[verifier::external_body]
fn qr_render(text: &str) -> (r: Option<String>)
    ensures
        match r {
            Some(s) => qr_dense_render(encode_utf8(text@)) == Some(s@),
            None => qr_dense_render(encode_utf8(text@)) is None,
        },
{
    qrcode::QrCode::new(text.as_bytes()).ok().map(
        |code| code.render::<Dense1x2>().dark_color(Dense1x2::Light).light_color(Dense1x2::Dark).build(),
    )
}

/// A QR code of `text` printable in a terminal; empty when `text` cannot be
/// encoded.
pub fn qr_ascii(text: &str) -> (r: String)
    ensures
        r@ == match qr_dense_render(encode_utf8(text@)) {
            Some(s) => s,
            None => Seq::empty(),
        },
{
    match qr_render(text) {
        Some(s) => s,
        None => String::new(),
    }
}

/// The decimal digits of a number.
pub open spec fn decimal_text(n: nat) -> Seq<char>
    decreases n,
{
    if n < 10 {
        seq![(48 + n) as char]
    } else {
        decimal_text(n / 10).push((48 + n % 10) as char)
    }
}

pub(crate) fn push_decimal(out: &mut Vec<char>, n: u64)
    ensures
        final(out)@ == old(out)@ + decimal_text(n as nat),
    decreases n,
{
    if n >= 10 {
        push_decimal(out, n / 10);
    }
    let d = (n % 10) as u8;
    out.push((48 + d) as char);
    assert(old(out)@ + decimal_text(n as nat) =~= out@);
}

/// The page a local report server shows first, for its port.
pub fn local_url(port: u16) -> (r: String)
    ensures
        r@ == "http://localhost:"@ + decimal_text(port as nat) + "/latest-battle.html"@,
{
    let mut out = chars_of("http://localhost:");
    push_decimal(&mut out, port as u64);
    push_str_chars(&mut out, "/latest-battle.html");
    string_of(&out)
}

/// The page a local report server shows first, as reached over the LAN.
pub fn lan_url(ip: &str, port: u16) -> (r: String)
    ensures
        r@ == "http://"@ + ip@ + ":"@ + decimal_text(port as nat) + "/latest-battle.html"@,
{
    let mut out = chars_of("http://");
    push_str_chars(&mut out, ip);
    out.push(':');
    push_decimal(&mut out, port as u64);
    push_str_chars(&mut out, "/latest-battle.html");
    assert(out@ =~= "http://"@ + ip@ + ":"@ + decimal_text(port as nat) + "/latest-battle.html"@)
        by {
        reveal_strlit(":");
    }
    string_of(&out)
}

/// `s` with every leading `/` removed.
pub open spec fn without_leading_slashes(s: Seq<char>) -> Seq<char>
    decreases s.len(),
{
    if s.len() > 0 && s[0] == '/' {
        without_leading_slashes(s.drop_first())
    } else {
        s
    }
}

/// The text of `s` before its first `?`.
pub open spec fn before_question(s: Seq<char>) -> Seq<char> {
    s.take(crate::reports::first_index_of(s, '?'))
}

/// The file a request to the report server asks for, relative to the
/// reports directory: the request path without its query and leading
/// slashes, or the latest battle page when that leaves nothing.
pub open spec fn served_file(url: Seq<char>) -> Seq<char> {
    let rel = without_leading_slashes(before_question(url));
    if rel.len() == 0 {
        "latest-battle.html"@
    } else {
        rel
    }
}

/// The file a request to the report server asks for (see [`served_file`]).
pub fn serve_relative_path(url: &str) -> (r: String)
    ensures
        r@ == served_file(url@),
{
    let cs = chars_of(url);
    let mut q: usize = 0;
    while q < cs.len() && cs[q] != '?'
        invariant
            q <= cs.len(),
            forall|k: int| 0 <= k < q ==> cs@[k] != '?',
        decreases cs.len() - q,
    {
        q += 1;
    }
    proof {
        crate::reports::lemma_first_index_of(cs@, '?', q as int);
    }
    let path = slice_chars(&cs, 0, q);
    assert(path@ =~= before_question(cs@));
    let mut a: usize = 0;
    while a < path.len() && path[a] == '/'
        invariant
            a <= path.len(),
            without_leading_slashes(path@.skip(a as int)) == without_leading_slashes(path@),
        decreases path.len() - a,
    {
        assert(path@.skip(a as int).drop_first() =~= path@.skip(a + 1));
        a += 1;
    }
    let rel = slice_chars(&path, a, path.len());
    assert(rel@ =~= path@.skip(a as int));
    if rel.len() == 0 {
        owned("latest-battle.html")
    } else {
        string_of(&rel)
    }
}

/// The extension of a file name (`Path::extension`): the text after its
/// last `.`, unless that `.` is the first character or there is none.
pub open spec fn extension_of_name(name: Seq<char>) -> Option<Seq<char>> {
    if last_dot(name) <= 0 {
        None
    } else {
        Some(name.skip(last_dot(name) + 1))
    }
}

/// The content type the report server sends for a file, by its extension.
pub open spec fn content_type_text(path: Seq<char>) -> Seq<char> {
    let ext = match file_name_within(path, path.len() as int) {
        Some(name) => extension_of_name(name),
        None => None,
    };
    match ext {
        Some(e) => if e == "html"@ {
            "text/html; charset=utf-8"@
        } else if e == "json"@ {
            "application/json"@
        } else if e == "png"@ {
            "image/png"@
        } else if e == "jpg"@ || e == "jpeg"@ {
            "image/jpeg"@
        } else {
            "application/octet-stream"@
        },
        None => "application/octet-stream"@,
    }
}

fn extension_of(name: &Vec<char>) -> (r: Option<Vec<char>>)
    ensures
        match r {
            Some(e) => extension_of_name(name@) == Some(e@),
            None => extension_of_name(name@) is None,
        },
{
    let mut d: usize = name.len();
    while d > 0 && name[d - 1] != '.'
        invariant
            d <= name.len(),
            forall|k: int| d <= k < name.len() ==> name@[k] != '.',
        decreases d,
    {
        d -= 1;
    }
    proof {
        lemma_last_dot_at(name@, d as int - 1);
    }
    if d <= 1 {
        None
    } else {
        let e = slice_chars(name, d, name.len());
        assert(e@ =~= name@.skip(d as int));
        Some(e)
    }
}

fn chars_is(cs: &Vec<char>, s: &str) -> (r: bool)
    ensures
        r == (cs@ == s@),
{
    let t = chars_of(s);
    crate::text::chars_equal(cs, &t)
}

/// The content type the report server sends for the file at `path`.
pub fn content_type_for(path: &str) -> (r: &'static str)
    ensures
        r@ == content_type_text(path@),
{
    let cs = chars_of(path);
    let ext = match crate::sources::file_name_of(&cs) {
        Some(name) => extension_of(&name),
        None => None,
    };
    match ext {
        Some(e) => {
            if chars_is(&e, "html") {
                "text/html; charset=utf-8"
            } else if chars_is(&e, "json") {
                "application/json"
            } else if chars_is(&e, "png") {
                "image/png"
            } else if chars_is(&e, "jpg") || chars_is(&e, "jpeg") {
                "image/jpeg"
            } else {
                "application/octet-stream"
            }
        },
        None => "application/octet-stream",
    }
}

/// The kind of upload the self-hosted share service takes for a MIME type:
/// `html`, `png` or `json`; `None` for anything else, which it refuses.
pub open spec fn share_kind_text(mime: Seq<char>) -> Option<Seq<char>> {
    if has_prefix(mime, "text/html"@) {
        Some("html"@)
    } else if mime == "image/png"@ {
        Some("png"@)
    } else if has_prefix(mime, "application/json"@) {
        Some("json"@)
    } else {
        None
    }
}

/// The kind of upload the self-hosted share service takes for a MIME type.
pub fn share_kind(mime: &str) -> (r: Option<&'static str>)
    ensures
        match r {
            Some(k) => share_kind_text(mime@) == Some(k@),
            None => share_kind_text(mime@) is None,
        },
{
    let cs = chars_of(mime);
    if starts_with(&cs, "text/html") {
        Some("html")
    } else if str_eq(mime, "image/png") {
        Some("png")
    } else if starts_with(&cs, "application/json") {
        Some("json")
    } else {
        None
    }
}

/// The upload address of the self-hosted share service, with the kind and
/// the URL-encoded file name as query.
pub fn share_endpoint(base_url: &str, kind: &str, filename: &str) -> (r: String)
    ensures
        r@ == base_url@ + "/share?kind="@ + kind@ + "&filename="@ + url_encoded(
            encode_utf8(filename@),
        ),
{
    let encoded = url_encode(filename);
    let mut out = chars_of(base_url);
    push_str_chars(&mut out, "/share?kind=");
    push_str_chars(&mut out, kind);
    push_str_chars(&mut out, "&filename=");
    push_str_chars(&mut out, encoded.as_str());
    string_of(&out)
}

/// The direct-download form of a tmpfiles.org link: its first
/// `tmpfiles.org/` becomes `tmpfiles.org/dl/`.
pub fn tmpfiles_direct_url(raw_url: &str) -> (r: String)
    ensures
        r@ == replace_first_spec(raw_url@, "tmpfiles.org/"@, "tmpfiles.org/dl/"@),
{
    let cs = chars_of(raw_url);
    proof {
        reveal_strlit("tmpfiles.org/");
    }
    let out = replace_first(&cs, "tmpfiles.org/", "tmpfiles.org/dl/");
    string_of(&out)
}

/// The link in a plain-text upload answer: the trimmed answer when it starts
/// with `http`; `None` when the answer is not a link.
pub fn plain_text_link(body: &str) -> (r: Option<String>)
    ensures
        match r {
            Some(u) => has_prefix(trim_spec(body@), "http"@) && u@ == trim_spec(body@),
            None => !has_prefix(trim_spec(body@), "http"@),
        },
{
    let cs = chars_of(body);
    let t = trim_chars(&cs);
    if starts_with(&t, "http") {
        Some(string_of(&t))
    } else {
        None
    }
}

/// The upload services tried after the self-hosted one, in order.
pub open spec fn fallback_provider_names() -> Seq<Seq<char>> {
    seq![
        "catbox.moe"@,
        "litterbox.catbox.moe (72h)"@,
        "tmpfiles.org"@,
        "file.io"@,
        "0x0.st"@,
    ]
}

/// The upload services tried after the self-hosted one, in order.
pub fn fallback_providers() -> (r: Vec<&'static str>)
    ensures
        r@.len() == 5,
        forall|i: int| 0 <= i < 5 ==> #[trigger] r@[i]@ == fallback_provider_names()[i],
{
    vec!["catbox.moe", "litterbox.catbox.moe (72h)", "tmpfiles.org", "file.io", "0x0.st"]
}

/// The upload services in the order they are tried: the self-hosted share
/// service first when one is configured, then the public ones.
pub open spec fn upload_plan_names(self_hosted: bool) -> Seq<Seq<char>> {
    if self_hosted {
        seq!["nomadamas.org"@] + fallback_provider_names()
    } else {
        fallback_provider_names()
    }
}

/// The upload services in the order they are tried (see [`upload_plan_names`]).
pub fn upload_plan(self_hosted: bool) -> (r: Vec<&'static str>)
    ensures
        r@.len() == upload_plan_names(self_hosted).len(),
        forall|i: int| 0 <= i < r@.len() ==> #[trigger] r@[i]@ == upload_plan_names(self_hosted)[i],
{
    let mut r: Vec<&'static str> = Vec::new();
    if self_hosted {
        r.push("nomadamas.org");
    }
    let rest = fallback_providers();
    let ghost start = r@;
    let mut i: usize = 0;
    while i < rest.len()
        invariant
            i <= rest.len(),
            rest@.len() == 5,
            forall|k: int| 0 <= k < 5 ==> #[trigger] rest@[k]@ == fallback_provider_names()[k],
            r@.len() == start.len() + i,
            forall|k: int| 0 <= k < start.len() ==> #[trigger] r@[k] == start[k],
            forall|k: int| 0 <= k < i ==> #[trigger] r@[start.len() + k]@ == fallback_provider_names()[k],
        decreases rest.len() - i,
    {
        r.push(rest[i]);
        i += 1;
    }
    proof {
        reveal_strlit("nomadamas.org");
        assert forall|k: int| 0 <= k < r@.len() implies #[trigger] r@[k]@ == upload_plan_names(self_hosted)[k] by {
            if self_hosted && k == 0 {
            } else {
                let j = if self_hosted { k - 1 } else { k };
                assert(r@[start.len() + j] == r@[k]);
            }
        }
    }
    r
}

/// Where an upload stands: the position in the plan being tried and the last
/// failure recorded.
pub struct UploadState {
    pub index: usize,
    pub last_error: Option<String>,
}

/// What to do next while uploading.
pub enum UploadDecision {
    /// Try the service at this position of the plan.
    Attempt(usize),
    /// The service at this position took the upload at this URL.
    Published(usize, String),
    /// Every service failed; report this message.
    GiveUp(String),
}

/// The start of an upload: try the first service, or give up when there is
/// none.
pub fn upload_start(plan_len: usize) -> (r: (UploadState, UploadDecision))
    ensures
        r.0.index == 0,
        r.0.last_error is None,
        plan_len > 0 ==> r.1 == UploadDecision::Attempt(0),
        plan_len == 0 ==> (r.1 matches UploadDecision::GiveUp(m) && m@
            == "All upload providers failed. Last error: unknown"@),
{
    let state = UploadState { index: 0, last_error: None };
    if plan_len > 0 {
        (state, UploadDecision::Attempt(0))
    } else {
        let m = all_providers_failed(None);
        proof {
            reveal_strlit("All upload providers failed. Last error: ");
            reveal_strlit("unknown");
            reveal_strlit("All upload providers failed. Last error: unknown");
        }
        assert(m@ =~= "All upload providers failed. Last error: unknown"@);
        (state, UploadDecision::GiveUp(m))
    }
}

/// The step after the service at `state.index` answered: the first service
/// that takes the upload wins and nothing more is tried; a failure is
/// recorded and the next service is tried, until none is left.
pub fn upload_step(plan: &Vec<&str>, state: UploadState, outcome: Result<String, String>) -> (r: (
    UploadState,
    UploadDecision,
))
    requires
        state.index < plan@.len(),
    ensures
        match outcome {
            Ok(url) => r.0.index == state.index && r.1 == UploadDecision::Published(
                state.index as usize,
                url,
            ),
            Err(reason) => {
                let e = plan@[state.index as int]@ + ": "@ + reason@;
                &&& r.0.index == state.index + 1
                &&& r.0.last_error matches Some(l) && l@ == e
                &&& state.index + 1 < plan@.len() ==> r.1 == UploadDecision::Attempt(
                    (state.index + 1) as usize,
                )
                &&& state.index + 1 == plan@.len() ==> (r.1 matches UploadDecision::GiveUp(m) && m@
                    == "All upload providers failed. Last error: "@ + e)
            },
        },
{
    match outcome {
        Ok(url) => {
            let i = state.index;
            (state, UploadDecision::Published(i, url))
        },
        Err(reason) => {
            let e = provider_error(plan[state.index], reason.as_str());
            let n = plan.len();
            assert(state.index < n);
            let next = state.index + 1;
            if next < plan.len() {
                (UploadState { index: next, last_error: Some(e) }, UploadDecision::Attempt(next))
            } else {
                let m = all_providers_failed(Some(e.as_str()));
                (UploadState { index: next, last_error: Some(e) }, UploadDecision::GiveUp(m))
            }
        },
    }
}

/// The error recorded when a service fails: its name, `: ` and the reason.
pub fn provider_error(name: &str, reason: &str) -> (r: String)
    ensures
        r@ == name@ + ": "@ + reason@,
{
    let mut out = chars_of(name);
    push_str_chars(&mut out, ": ");
    push_str_chars(&mut out, reason);
    string_of(&out)
}

/// The error reported when every upload service failed, naming the last
/// failure (or `unknown` when none was recorded).
pub fn all_providers_failed(last_error: Option<&str>) -> (r: String)
    ensures
        r@ == "All upload providers failed. Last error: "@ + match last_error {
            Some(e) => e@,
            None => "unknown"@,
        },
{
    let mut out = chars_of("All upload providers failed. Last error: ");
    match last_error {
        Some(e) => push_str_chars(&mut out, e),
        None => push_str_chars(&mut out, "unknown"),
    }
    string_of(&out)
}

/// The services a published share bundle came from.
pub fn provider_summary(page: &str, report: &str, image: &str) -> (r: String)
    ensures
        r@ == "page: "@ + page@ + " | report: "@ + report@ + " | image: "@ + image@,
{
    let mut out = chars_of("page: ");
    push_str_chars(&mut out, page);
    push_str_chars(&mut out, " | report: ");
    push_str_chars(&mut out, report);
    push_str_chars(&mut out, " | image: ");
    push_str_chars(&mut out, image);
    string_of(&out)
}

/// The share asset whose image previews a published bundle: the X asset,
/// else the first one; `None` when there is no asset.
pub fn preview_asset_index(platforms: &Vec<String>) -> (r: Option<usize>)
    ensures
        match r {
            Some(i) => i < platforms@.len() && ((platforms@[i as int]@ == "x"@ && forall|k: int|
                0 <= k < i ==> #[trigger] platforms@[k]@ != "x"@) || (i == 0 && forall|k: int|
                0 <= k < platforms@.len() ==> #[trigger] platforms@[k]@ != "x"@)),
            None => platforms@.len() == 0,
        },
{
    let mut i: usize = 0;
    while i < platforms.len()
        invariant
            i <= platforms.len(),
            forall|k: int| 0 <= k < i ==> #[trigger] platforms@[k]@ != "x"@,
        decreases platforms.len() - i,
    {
        if str_eq(platforms[i].as_str(), "x") {
            return Some(i);
        }
        i += 1;
    }
    if platforms.len() > 0 {
        Some(0)
    } else {
        None
    }
}

/// A report published on the web.
#[derive(Clone, Debug)]
pub struct PublishedReport {
    pub url: String,
    pub provider: String,
    pub qr_ascii: String,
}

/// A running local report server.
#[derive(Clone, Debug)]
pub struct ServeInfo {
    pub local_url: String,
    pub lan_url: Option<String>,
    pub qr_ascii: String,
    pub port: u16,
}

/// What a local report server announces: its local page, its LAN page when
/// the LAN address is known, and a QR code of the LAN page (or of the local
/// one without a LAN address).
pub fn serve_info(port: u16, lan_ip: Option<&str>) -> (r: ServeInfo)
    ensures
        r.port == port,
        r.local_url@ == "http://localhost:"@ + decimal_text(port as nat) + "/latest-battle.html"@,
        match lan_ip {
            Some(ip) => r.lan_url is Some && r.lan_url->0@ == "http://"@ + ip@ + ":"@
                + decimal_text(port as nat) + "/latest-battle.html"@,
            None => r.lan_url is None,
        },
        r.qr_ascii@ == match qr_dense_render(
            encode_utf8(
                match r.lan_url {
                    Some(u) => u@,
                    None => r.local_url@,
                },
            ),
        ) {
            Some(s) => s,
            None => Seq::empty(),
        },
{
    let local = local_url(port);
    let lan = match lan_ip {
        Some(ip) => Some(lan_url(ip, port)),
        None => None,
    };
    let qr = match &lan {
        Some(u) => qr_ascii(u.as_str()),
        None => qr_ascii(local.as_str()),
    };
    ServeInfo { local_url: local, lan_url: lan, qr_ascii: qr, port }
}

} // verus!
