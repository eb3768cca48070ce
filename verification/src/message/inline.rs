//! Embedding inline attachments into the HTML body of a message: each
//! `cid:` reference whose attachment was fetched becomes a `data:` URI.
use vstd::prelude::*;
use crate::message::content::AttachmentInfo;
use crate::section::{Encoding, ImapAttachment};
use crate::text::{
    ascii_lower, chars_of, concat_str, contains_seq, push_char, replace_all, replace_seq, str_contains,
    string_from_range, trim, trim_bounds,
};

verus! {

/// What `mime_guess::from_ext(ext).first_or_octet_stream()` renders as text.
pub uninterp spec fn mime_for_extension(ext: Seq<char>) -> Seq<char>;

/// Calls `mime_guess::from_ext` and `MimeGuess::first_or_octet_stream`, and
/// renders the type with `Display`. Claimed: the result depends on the
/// extension alone (the crate looks it up in a static table), and an empty
/// extension, which the crate maps to no type, gives
/// `application/octet-stream`. Which type a known extension maps to is not
/// stated.
#[verifier::external_body]
fn guess_mime(ext: &str) -> (r: String)
    ensures
        r@ == mime_for_extension(ext@),
        ext@.len() == 0 ==> r@ == "application/octet-stream"@,
{
    mime_guess::from_ext(ext).first_or_octet_stream().to_string()
}

/// ASCII lower-casing of a whole string (`str::to_ascii_lowercase`).
pub open spec fn lower_seq(s: Seq<char>) -> Seq<char> {
    s.map_values(|c: char| ascii_lower(c))
}

pub fn to_ascii_lowercase(s: &str) -> (r: String)
    ensures
        r@ == lower_seq(s@),
{
    let v = chars_of(s);
    let mut r = String::new();
    let mut i: usize = 0;
    while i < v.len()
        invariant
            v@ == s@,
            i <= v@.len(),
            r@ == lower_seq(s@.take(i as int)),
        decreases v.len() - i,
    {
        push_char(&mut r, crate::text::lower_char(v[i]));
        i = i + 1;
        assert(r@ =~= lower_seq(s@.take(i as int)));
    }
    assert(s@.take(i as int) =~= s@);
    r
}

/// The MIME type under which an inline attachment is embedded: the guess for
/// its lower-cased subtype.
pub fn inline_mime_type(file_type: &str) -> (r: String)
    ensures
        r@ == mime_for_extension(lower_seq(file_type@)),
{
    let lower = to_ascii_lowercase(file_type);
    guess_mime(lower.as_str())
}

pub open spec fn is_angle(c: char) -> bool {
    c == '<' || c == '>'
}

/// `s` without its leading angle brackets.
pub open spec fn strip_angles_start(s: Seq<char>) -> Seq<char>
    decreases s.len(),
{
    if s.len() > 0 && is_angle(s[0]) {
        strip_angles_start(s.drop_first())
    } else {
        s
    }
}

/// `s` without its trailing angle brackets.
pub open spec fn strip_angles_end(s: Seq<char>) -> Seq<char>
    decreases s.len(),
{
    if s.len() > 0 && is_angle(s.last()) {
        strip_angles_end(s.drop_last())
    } else {
        s
    }
}

/// A content id with the angle brackets around it removed
/// (`trim_matches(|c| c == '<' || c == '>')`).
pub open spec fn bare_content_id(s: Seq<char>) -> Seq<char> {
    strip_angles_end(strip_angles_start(s))
}

pub fn strip_angles(s: &str) -> (r: String)
    ensures
        r@ == bare_content_id(s@),
{
    let v = chars_of(s);
    let n = v.len();
    let mut i: usize = 0;
    assert(v@.skip(0) =~= v@);
    while i < n && (v[i] == '<' || v[i] == '>')
        invariant
            i <= n == v@.len(),
            v@ == s@,
            strip_angles_start(v@) == strip_angles_start(v@.skip(i as int)),
        decreases n - i,
    {
        assert(v@.skip(i as int).drop_first() =~= v@.skip(i + 1));
        i = i + 1;
    }
    assert(strip_angles_start(v@.skip(i as int)) == v@.skip(i as int));
    let ghost t = v@.skip(i as int);
    let mut j: usize = n;
    while j > i && (v[j - 1] == '<' || v[j - 1] == '>')
        invariant
            i <= j <= n == v@.len(),
            t == v@.skip(i as int),
            strip_angles_end(t) == strip_angles_end(v@.subrange(i as int, j as int)),
        decreases j,
    {
        assert(v@.subrange(i as int, j as int).drop_last() =~= v@.subrange(i as int, j - 1));
        j = j - 1;
    }
    assert(v@.subrange(i as int, n as int) =~= t);
    string_from_range(&v, i, j)
}

/// `s` with every line feed and carriage return removed.
pub open spec fn without_line_breaks(s: Seq<char>) -> Seq<char>
    decreases s.len(),
{
    if s.len() == 0 {
        s
    } else if s.last() == '\n' || s.last() == '\r' {
        without_line_breaks(s.drop_last())
    } else {
        without_line_breaks(s.drop_last()).push(s.last())
    }
}

fn remove_line_breaks(s: &str) -> (r: Vec<char>)
    ensures
        r@ == without_line_breaks(s@),
{
    let v = chars_of(s);
    let mut r: Vec<char> = Vec::new();
    let mut i: usize = 0;
    while i < v.len()
        invariant
            v@ == s@,
            i <= v@.len(),
            r@ == without_line_breaks(s@.take(i as int)),
        decreases v.len() - i,
    {
        assert(s@.take(i + 1).drop_last() =~= s@.take(i as int));
        if v[i] != '\n' && v[i] != '\r' {
            r.push(v[i]);
        }
        i = i + 1;
    }
    assert(s@.take(i as int) =~= s@);
    r
}

/// The content id under which an attachment is embedded, if it is embedded at
/// all: only inline, Base64-encoded attachments that carry a content id are.
pub open spec fn inline_content_id(a: ImapAttachment) -> Option<Seq<char>> {
    if a.inline && a.transfer_encoding == Encoding::Base64 {
        match a.content_id {
            Some(c) => Some(bare_content_id(c@)),
            None => None,
        }
    } else {
        None
    }
}

/// The content id of an attachment that the HTML refers to and that should be
/// fetched and embedded; `None` where there is nothing to do for it.
pub fn inline_target(html: &str, attachment: &ImapAttachment) -> (r: Option<String>)
    ensures
        match inline_content_id(*attachment) {
            Some(cid) => if contains_seq(html@, cid) {
                r matches Some(c) && c@ == cid
            } else {
                r is None
            },
            None => r is None,
        },
{
    if !attachment.inline {
        return None;
    }
    match attachment.transfer_encoding {
        Encoding::Base64 => {},
        _ => return None,
    }
    match &attachment.content_id {
        Some(c) => {
            let cid = strip_angles(c.as_str());
            if str_contains(html, cid.as_str()) {
                Some(cid)
            } else {
                None
            }
        },
        None => None,
    }
}

/// The HTML with every `cid:<cid>` replaced by a `data:` URI carrying the
/// Base64 content (line breaks removed, whitespace trimmed) under `mime`.
pub open spec fn embedded_html(
    html: Seq<char>,
    cid: Seq<char>,
    mime: Seq<char>,
    content: Seq<char>,
) -> Seq<char> {
    replace_seq(
        html,
        "cid:"@ + cid,
        "data:"@ + mime + ";base64,"@ + trim(without_line_breaks(content)),
    )
}

pub fn embed_content(html: &str, cid: &str, mime: &str, content: &str) -> (r: String)
    ensures
        r@ == embedded_html(html@, cid@, mime@, content@),
{
    let pattern = concat_str("cid:", cid);
    let cleaned = remove_line_breaks(content);
    let (a, b) = trim_bounds(&cleaned);
    let body = string_from_range(&cleaned, a, b);
    let mut uri = concat_str("data:", mime);
    uri.append(";base64,");
    uri.append(body.as_str());
    proof {
        reveal_strlit("cid:");
        reveal_strlit("data:");
        reveal_strlit(";base64,");
    }
    assert(pattern@.len() > 0);
    replace_all(html, pattern.as_str(), uri.as_str())
}

/// Embeds the fetched Base64 content of an inline attachment into the HTML
/// under the MIME type guessed from the attachment's subtype; the HTML is left
/// as it is when the attachment is not one to embed.
pub fn embed_inline_attachment(html: &str, attachment: &ImapAttachment, content: &str) -> (r: String)
    ensures
        match inline_content_id(*attachment) {
            Some(cid) => r@ == embedded_html(
                html@,
                cid,
                mime_for_extension(lower_seq(attachment.file_type@)),
                content@,
            ),
            None => r@ == html@,
        },
{
    if !attachment.inline {
        return html.to_owned();
    }
    match attachment.transfer_encoding {
        Encoding::Base64 => {},
        _ => return html.to_owned(),
    }
    match &attachment.content_id {
        Some(c) => {
            let cid = strip_angles(c.as_str());
            let mime = inline_mime_type(attachment.file_type.as_str());
            embed_content(html, cid.as_str(), mime.as_str(), content)
        },
        None => html.to_owned(),
    }
}


/// Embeds the Base64 data of an inline attachment of a Gmail message into the
/// HTML under the attachment's own MIME type; attachments that are not inline,
/// or carry no content id, leave the HTML as it is.
pub fn embed_gmail_attachment(html: &str, attachment: &AttachmentInfo, encoded: &str) -> (r: String)
    ensures
        if attachment.inline && attachment.content_id@.len() > 0 {
            r@ == replace_seq(
                html@,
                "cid:"@ + attachment.content_id@,
                "data:"@ + attachment.file_type@ + ";base64,"@ + encoded@,
            )
        } else {
            r@ == html@
        },
{
    if !attachment.inline || attachment.content_id.as_str().is_empty() {
        return html.to_owned();
    }
    let pattern = concat_str("cid:", attachment.content_id.as_str());
    let mut uri = concat_str("data:", attachment.file_type.as_str());
    uri.append(";base64,");
    uri.append(encoded);
    proof {
        reveal_strlit("cid:");
    }
    replace_all(html, pattern.as_str(), uri.as_str())
}

} // verus!
