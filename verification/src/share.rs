//! Social sharing: where each platform's share flow starts, the text put on
//! the clipboard, and the links offered once a battle is published.
use vstd::prelude::*;
use vstd::utf8::encode_utf8;
use crate::naming::{slug_of, slugify};
use crate::text::{chars_of, owned, push_str_chars, str_eq, string_of};

verus! {

/// A byte that URL encoding leaves as it is: ASCII letters, digits and
/// `-`, `.`, `_`, `~`.
pub open spec fn is_unreserved_byte(b: u8) -> bool {
    (48 <= b <= 57) || (65 <= b <= 90) || (97 <= b <= 122) || b == 45 || b == 46 || b == 95 || b
        == 126
}

/// The uppercase hexadecimal digit of a value below 16.
pub open spec fn hex_digit_upper(d: int) -> char {
    if d < 10 {
        (48 + d) as char
    } else {
        (55 + d) as char
    }
}

/// Percent-encoding of a byte string: unreserved bytes stay as they are,
/// every other byte becomes `%` and two uppercase hexadecimal digits.
pub open spec fn url_encoded(bytes: Seq<u8>) -> Seq<char>
    decreases bytes.len(),
{
    if bytes.len() == 0 {
        Seq::empty()
    } else {
        let b = bytes.last();
        let tail = if is_unreserved_byte(b) {
            seq![b as char]
        } else {
            seq!['%', hex_digit_upper(b as int / 16), hex_digit_upper(b as int % 16)]
        };
        url_encoded(bytes.drop_last()) + tail
    }
}

/// A character that can stand in a URL query as it is: an ASCII letter or
/// digit, `-`, `.`, `_`, `~`, or `%` of a percent escape.
pub open spec fn is_query_safe(c: char) -> bool {
    ('0' <= c <= '9') || ('a' <= c <= 'z') || ('A' <= c <= 'Z') || c == '-' || c == '.' || c == '_'
        || c == '~' || c == '%'
}

/// Percent-encoded text holds only characters that can stand in a URL
/// query as they are, so a share link never breaks on spaces, `&` or `#`.
pub proof fn lemma_url_encoded_safe(bytes: Seq<u8>)
    ensures
        forall|k: int| 0 <= k < url_encoded(bytes).len() ==> is_query_safe(#[trigger] url_encoded(bytes)[k]),
    decreases bytes.len(),
{
    if bytes.len() > 0 {
        let d = bytes.drop_last();
        lemma_url_encoded_safe(d);
        let e = url_encoded(bytes);
        let ed = url_encoded(d);
        let b = bytes.last();
        assert forall|k: int| 0 <= k < e.len() implies is_query_safe(#[trigger] e[k]) by {
            if k < ed.len() {
                assert(e[k] == ed[k]);
            } else if is_unreserved_byte(b) {
                assert(e[k] == b as char);
            }
        }
    }
}

/// `urlencoding::encode`: percent-encodes every byte of the UTF-8 text
/// except ASCII letters, digits and `-`, `_`, `.`, `~`, with uppercase
/// hexadecimal digits.
#[verifier::external_body]
pub(crate) fn url_encode(s: &str) -> (r: String)
    ensures
        r@ == url_encoded(encode_utf8(s@)),
{
    urlencoding::encode(s).into_owned()
}

/// The platforms a share bundle is made for, in order.
pub open spec fn platform_names() -> Seq<Seq<char>> {
    seq!["x"@, "linkedin"@, "instagram_post"@, "instagram_story"@, "tiktok"@, "pinterest"@]
}

/// The platforms a share bundle is made for, in order.
pub fn share_platforms() -> (r: Vec<&'static str>)
    ensures
        r@.len() == platform_names().len(),
        forall|i: int| 0 <= i < r@.len() ==> #[trigger] r@[i]@ == platform_names()[i],
{
    let r = vec!["x", "linkedin", "instagram_post", "instagram_story", "tiktok", "pinterest"];
    assert(r@.len() == 6);
    r
}

/// Where a platform's share flow starts, given the URL-encoded caption.
pub open spec fn share_url_text(platform: Seq<char>, encoded_caption: Seq<char>) -> Option<
    Seq<char>,
> {
    if platform == "x"@ {
        Some("https://twitter.com/intent/tweet?text="@ + encoded_caption)
    } else if platform == "linkedin"@ {
        Some("https://www.linkedin.com/feed/"@)
    } else if platform == "instagram_post"@ || platform == "instagram_story"@ {
        Some("https://www.instagram.com/"@)
    } else if platform == "tiktok"@ {
        Some("https://www.tiktok.com/upload"@)
    } else if platform == "pinterest"@ {
        Some("https://www.pinterest.com/pin-builder/"@)
    } else {
        None
    }
}

fn concat(a: &str, b: &str) -> (r: String)
    ensures
        r@ == a@ + b@,
{
    let mut cs = chars_of(a);
    push_str_chars(&mut cs, b);
    string_of(&cs)
}

/// The page a platform's share flow opens, with the caption prefilled where
/// the platform allows it; `None` for an unknown platform.
pub fn share_url(platform: &str, caption: &str) -> (r: Option<String>)
    ensures
        match r {
            Some(u) => share_url_text(platform@, url_encoded(encode_utf8(caption@))) == Some(u@),
            None => share_url_text(platform@, url_encoded(encode_utf8(caption@))) is None,
        },
{
    let encoded = url_encode(caption);
    if str_eq(platform, "x") {
        Some(concat("https://twitter.com/intent/tweet?text=", encoded.as_str()))
    } else if str_eq(platform, "linkedin") {
        Some(owned("https://www.linkedin.com/feed/"))
    } else if str_eq(platform, "instagram_post") || str_eq(platform, "instagram_story") {
        Some(owned("https://www.instagram.com/"))
    } else if str_eq(platform, "tiktok") {
        Some(owned("https://www.tiktok.com/upload"))
    } else if str_eq(platform, "pinterest") {
        Some(owned("https://www.pinterest.com/pin-builder/"))
    } else {
        None
    }
}

/// The note shown next to a platform's share asset.
pub open spec fn share_note_text(platform: Seq<char>) -> Seq<char> {
    if platform == "x"@ {
        "Publishes a public share page first, then opens a prefilled X composer when possible."@
    } else if platform == "linkedin"@ {
        "Publishes a public share page first, then opens a LinkedIn share link."@
    } else if platform == "instagram_post"@ {
        "Publishes a public image URL and copies the caption. Finish the upload in Instagram."@
    } else if platform == "instagram_story"@ {
        "Publishes a public image URL and copies the caption. Finish the upload in Instagram Story."@
    } else if platform == "tiktok"@ {
        "Publishes a public image URL and copies the caption. Finish the upload in TikTok."@
    } else if platform == "pinterest"@ {
        "Publishes a public share page and image, then opens Pinterest pin creation when possible."@
    } else {
        "Generated social share asset."@
    }
}

/// The note shown next to a platform's share asset.
pub fn share_note(platform: &str) -> (r: &'static str)
    ensures
        r@ == share_note_text(platform@),
{
    if str_eq(platform, "x") {
        "Publishes a public share page first, then opens a prefilled X composer when possible."
    } else if str_eq(platform, "linkedin") {
        "Publishes a public share page first, then opens a LinkedIn share link."
    } else if str_eq(platform, "instagram_post") {
        "Publishes a public image URL and copies the caption. Finish the upload in Instagram."
    } else if str_eq(platform, "instagram_story") {
        "Publishes a public image URL and copies the caption. Finish the upload in Instagram Story."
    } else if str_eq(platform, "tiktok") {
        "Publishes a public image URL and copies the caption. Finish the upload in TikTok."
    } else if str_eq(platform, "pinterest") {
        "Publishes a public share page and image, then opens Pinterest pin creation when possible."
    } else {
        "Generated social share asset."
    }
}

/// Whether a platform takes an uploaded image rather than a link.
pub open spec fn is_image_platform(platform: Seq<char>) -> bool {
    platform == "instagram_post"@ || platform == "instagram_story"@ || platform == "tiktok"@
}

/// The text copied for sharing: the caption and, two lines below, the share
/// page for link platforms, or the public image and report for image
/// platforms.
pub open spec fn clipboard_text(
    platform: Seq<char>,
    caption: Seq<char>,
    page: Seq<char>,
    image: Seq<char>,
    report: Seq<char>,
) -> Seq<char> {
    if is_image_platform(platform) {
        caption + "\n\nPublic image: "@ + image + "\nBattle report: "@ + report
    } else {
        caption + "\n\n"@ + page
    }
}

/// The text copied to the clipboard when sharing to `platform` (see
/// [`clipboard_text`]).
pub fn share_clipboard_text(
    platform: &str,
    caption: &str,
    share_page_url: &str,
    preview_image_url: &str,
    report_url: &str,
) -> (r: String)
    ensures
        r@ == clipboard_text(platform@, caption@, share_page_url@, preview_image_url@, report_url@),
{
    let mut out = chars_of(caption);
    if str_eq(platform, "instagram_post") || str_eq(platform, "instagram_story") || str_eq(
        platform,
        "tiktok",
    ) {
        push_str_chars(&mut out, "\n\nPublic image: ");
        push_str_chars(&mut out, preview_image_url);
        push_str_chars(&mut out, "\nBattle report: ");
        push_str_chars(&mut out, report_url);
    } else {
        push_str_chars(&mut out, "\n\n");
        push_str_chars(&mut out, share_page_url);
    }
    string_of(&out)
}

/// A platform's share link on a published share page.
#[derive(Clone, Debug)]
pub struct SocialShareLink {
    pub platform: String,
    pub share_url: Option<String>,
    pub note: String,
}

/// A link's platform, share URL and note, as plain values.
pub open spec fn link_view(l: SocialShareLink) -> (Seq<char>, Option<Seq<char>>, Seq<char>) {
    (
        l.platform@,
        match l.share_url {
            Some(u) => Some(u@),
            None => None,
        },
        l.note@,
    )
}

/// The share links offered for a published page, given the URL-encoded
/// page URL, image URL and caption: prefilled X, LinkedIn and Pinterest
/// flows, and notes for the platforms that cannot be prefilled.
pub open spec fn social_links(page: Seq<char>, media: Seq<char>, text: Seq<char>) -> Seq<
    (Seq<char>, Option<Seq<char>>, Seq<char>),
> {
    seq![
        ("x"@, Some("https://twitter.com/intent/tweet?text="@ + text + "&url="@ + page),
        "Opens a prefilled X post with the public BetterThanYou share page."@),
        ("linkedin"@, Some("https://www.linkedin.com/sharing/share-offsite/?url="@ + page),
        "Opens the LinkedIn offsite share flow for the public BetterThanYou page."@),
        ("instagram_post"@, None,
        "Instagram web does not support fully automatic external posting. Use the published image URL and copied caption."@),
        ("instagram_story"@, None,
        "Instagram Story web posting is not exposed as a public share intent. Use the published image URL and copied caption."@),
        ("tiktok"@, None,
        "TikTok web upload cannot be prefilled from a public share intent. Use the published image URL and copied caption."@),
        ("pinterest"@, Some("https://www.pinterest.com/pin/create/button/?url="@ + page + "&media="@
            + media + "&description="@ + text),
        "Opens Pinterest pin creation with the public preview image and share page."@),
    ]
}

fn link(platform: &str, share_url: Option<String>, note: &str) -> (l: SocialShareLink)
    ensures
        l.platform@ == platform@,
        l.share_url == share_url,
        l.note@ == note@,
{
    SocialShareLink { platform: owned(platform), share_url, note: owned(note) }
}

/// The share links offered once a battle's page and preview image are
/// published (see [`social_links`]).
pub fn build_social_share_links(page_url: &str, preview_image_url: &str, caption: &str) -> (r: Vec<
    SocialShareLink,
>)
    ensures
        r@.len() == 6,
        forall|i: int|
            0 <= i < 6 ==> link_view(#[trigger] r@[i]) == social_links(
                url_encoded(encode_utf8(page_url@)),
                url_encoded(encode_utf8(preview_image_url@)),
                url_encoded(encode_utf8(caption@)),
            )[i],
{
    let page = url_encode(page_url);
    let media = url_encode(preview_image_url);
    let text = url_encode(caption);
    let mut x = chars_of("https://twitter.com/intent/tweet?text=");
    push_str_chars(&mut x, text.as_str());
    push_str_chars(&mut x, "&url=");
    push_str_chars(&mut x, page.as_str());
    let mut li = chars_of("https://www.linkedin.com/sharing/share-offsite/?url=");
    push_str_chars(&mut li, page.as_str());
    let mut pin = chars_of("https://www.pinterest.com/pin/create/button/?url=");
    push_str_chars(&mut pin, page.as_str());
    push_str_chars(&mut pin, "&media=");
    push_str_chars(&mut pin, media.as_str());
    push_str_chars(&mut pin, "&description=");
    push_str_chars(&mut pin, text.as_str());
    let r = vec![
        link(
            "x",
            Some(string_of(&x)),
            "Opens a prefilled X post with the public BetterThanYou share page.",
        ),
        link(
            "linkedin",
            Some(string_of(&li)),
            "Opens the LinkedIn offsite share flow for the public BetterThanYou page.",
        ),
        link(
            "instagram_post",
            None,
            "Instagram web does not support fully automatic external posting. Use the published image URL and copied caption.",
        ),
        link(
            "instagram_story",
            None,
            "Instagram Story web posting is not exposed as a public share intent. Use the published image URL and copied caption.",
        ),
        link(
            "tiktok",
            None,
            "TikTok web upload cannot be prefilled from a public share intent. Use the published image URL and copied caption.",
        ),
        link(
            "pinterest",
            Some(string_of(&pin)),
            "Opens Pinterest pin creation with the public preview image and share page.",
        ),
    ];
    let ghost want = social_links(page@, media@, text@);
    assert(link_view(r@[0]) == want[0]);
    assert(link_view(r@[1]) == want[1]);
    assert(link_view(r@[2]) == want[2]);
    assert(link_view(r@[3]) == want[3]);
    assert(link_view(r@[4]) == want[4]);
    assert(link_view(r@[5]) == want[5]);
    r
}

/// The position of the first link for `platform`, or the number of links.
pub open spec fn first_link_index(links: Seq<SocialShareLink>, platform: Seq<char>) -> int
    decreases links.len(),
{
    if links.len() == 0 {
        0
    } else if links[0].platform@ == platform {
        0
    } else {
        1 + first_link_index(links.drop_first(), platform)
    }
}

proof fn lemma_first_link_index(links: Seq<SocialShareLink>, platform: Seq<char>, i: int)
    requires
        0 <= i <= links.len(),
        forall|k: int| 0 <= k < i ==> #[trigger] links[k].platform@ != platform,
        i == links.len() || links[i].platform@ == platform,
    ensures
        first_link_index(links, platform) == i,
    decreases i,
{
    if i > 0 {
        let d = links.drop_first();
        assert(links[0].platform@ != platform);
        assert forall|k: int| 0 <= k < i - 1 implies #[trigger] d[k].platform@ != platform by {
            assert(d[k] == links[k + 1]);
        }
        lemma_first_link_index(d, platform, i - 1);
    }
}

/// The page opened when sharing to a platform: the share URL of the first
/// published link for it, else the asset's own share URL, else the share
/// page itself.
pub open spec fn open_url_for(
    links: Seq<SocialShareLink>,
    platform: Seq<char>,
    open_url: Option<Seq<char>>,
    page: Seq<char>,
) -> Seq<char> {
    let i = first_link_index(links, platform);
    if i < links.len() && links[i].share_url is Some {
        links[i].share_url->0@
    } else {
        match open_url {
            Some(u) => u,
            None => page,
        }
    }
}

/// The page opened when sharing to a platform (see [`open_url_for`]).
pub fn platform_open_url(
    links: &Vec<SocialShareLink>,
    platform: &str,
    open_url: Option<&str>,
    page: &str,
) -> (r: String)
    ensures
        r@ == open_url_for(
            links@,
            platform@,
            match open_url {
                Some(u) => Some(u@),
                None => None,
            },
            page@,
        ),
{
    let mut i: usize = 0;
    while i < links.len() && !str_eq(links[i].platform.as_str(), platform)
        invariant
            i <= links.len(),
            forall|k: int| 0 <= k < i ==> #[trigger] links@[k].platform@ != platform@,
        decreases links.len() - i,
    {
        i += 1;
    }
    proof {
        lemma_first_link_index(links@, platform@, i as int);
    }
    if i < links.len() {
        match &links[i].share_url {
            Some(u) => {
                return u.clone();
            },
            None => {},
        }
    }
    match open_url {
        Some(u) => owned(u),
        None => owned(page),
    }
}

/// The pixel size of the share image for a platform.
pub open spec fn dimensions_of(platform: Seq<char>) -> (u32, u32) {
    if platform == "x"@ {
        (1600, 900)
    } else if platform == "linkedin"@ {
        (1200, 627)
    } else if platform == "instagram_post"@ {
        (1080, 1350)
    } else if platform == "instagram_story"@ || platform == "tiktok"@ {
        (1080, 1920)
    } else if platform == "pinterest"@ {
        (1000, 1500)
    } else {
        (1200, 900)
    }
}

/// The pixel size of the share image for a platform.
pub fn platform_dimensions(platform: &str) -> (r: (u32, u32))
    ensures
        r == dimensions_of(platform@),
{
    if str_eq(platform, "x") {
        (1600, 900)
    } else if str_eq(platform, "linkedin") {
        (1200, 627)
    } else if str_eq(platform, "instagram_post") {
        (1080, 1350)
    } else if str_eq(platform, "instagram_story") || str_eq(platform, "tiktok") {
        (1080, 1920)
    } else if str_eq(platform, "pinterest") {
        (1000, 1500)
    } else {
        (1200, 900)
    }
}

/// What a platform's caption adds after the common text.
pub open spec fn caption_tail(platform: Seq<char>) -> Seq<char> {
    if platform == "x"@ {
        "\n\n#BetterThanYou #AIPortraits #PortraitBattle"@
    } else if platform == "linkedin"@ {
        "\n\nGenerated with BetterThanYou \u{2014} CLI portrait battle tool. #AI #Portraits"@
    } else if platform == "instagram_post"@ {
        "\n\n#BetterThanYou #PortraitBattle #AIPortraits #AIArt"@
    } else if platform == "instagram_story"@ {
        "\n\n#BetterThanYou"@
    } else if platform == "tiktok"@ {
        "\n\n#BetterThanYou #AIPortraits #FYP"@
    } else if platform == "pinterest"@ {
        "\n\nBetterThanYou portrait battle."@
    } else {
        ""@
    }
}

/// A platform's caption: the common text followed by the platform's hashtags
/// or tagline (see [`caption_tail`]).
pub fn platform_caption(core: &str, platform: &str) -> (r: String)
    ensures
        r@ == core@ + caption_tail(platform@),
{
    let tail = if str_eq(platform, "x") {
        "\n\n#BetterThanYou #AIPortraits #PortraitBattle"
    } else if str_eq(platform, "linkedin") {
        "\n\nGenerated with BetterThanYou \u{2014} CLI portrait battle tool. #AI #Portraits"
    } else if str_eq(platform, "instagram_post") {
        "\n\n#BetterThanYou #PortraitBattle #AIPortraits #AIArt"
    } else if str_eq(platform, "instagram_story") {
        "\n\n#BetterThanYou"
    } else if str_eq(platform, "tiktok") {
        "\n\n#BetterThanYou #AIPortraits #FYP"
    } else if str_eq(platform, "pinterest") {
        "\n\nBetterThanYou portrait battle."
    } else {
        ""
    };
    concat(core, tail)
}

/// The directory a battle's share pack is written to: the slug of its id
/// followed by `-share`.
pub fn share_dir_name(battle_id: &str) -> (r: String)
    ensures
        r@ == slug_of(battle_id@) + "-share"@,
{
    let slug = slugify(battle_id);
    concat(slug.as_str(), "-share")
}

/// The file name a battle's public share page is published under.
pub fn share_page_file_name(battle_id: &str) -> (r: String)
    ensures
        r@ == slug_of(battle_id@) + "-share-page.html"@,
{
    let slug = slugify(battle_id);
    concat(slug.as_str(), "-share-page.html")
}

/// What is copied when sharing. For the image platforms (Instagram posts and
/// stories, TikTok), which take an uploaded picture rather than a link, the
/// caption is followed by the public image's URL and the report's URL; for
/// every other platform, by the share page's URL alone. Either way the text
/// starts with the caption.
pub proof fn lemma_clipboard_by_platform(
    platform: Seq<char>,
    caption: Seq<char>,
    page: Seq<char>,
    image: Seq<char>,
    report: Seq<char>,
)
    ensures
        (platform == "instagram_post"@ || platform == "instagram_story"@ || platform
            == "tiktok"@) ==> clipboard_text(platform, caption, page, image, report) == caption
            + "\n\nPublic image: "@ + image + "\nBattle report: "@ + report,
        !(platform == "instagram_post"@ || platform == "instagram_story"@ || platform
            == "tiktok"@) ==> clipboard_text(platform, caption, page, image, report) == caption
            + "\n\n"@ + page,
        clipboard_text(platform, caption, page, image, report).subrange(0, caption.len() as int)
            == caption,
{
    let r = clipboard_text(platform, caption, page, image, report);
    if is_image_platform(platform) {
        assert(r.subrange(0, caption.len() as int) =~= caption);
    } else {
        assert(r.subrange(0, caption.len() as int) =~= caption);
    }
}

} // verus!
