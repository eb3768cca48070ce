use rustmailer_core::message::content::AttachmentInfo;
use rustmailer_core::message::inline::{
    embed_content, embed_gmail_attachment, embed_inline_attachment, inline_mime_type,
    inline_target, strip_angles, to_ascii_lowercase,
};
use rustmailer_core::section::{Encoding, ImapAttachment, SegmentPath};

#[test]
fn test_all_mime_types() {
    assert_eq!(inline_mime_type("png"), "image/png");
    assert_eq!(inline_mime_type("jpeg"), "image/jpeg");
    assert_eq!(inline_mime_type("jpg"), "image/jpeg");
    assert_eq!(inline_mime_type("json"), "application/json");
    assert_eq!(inline_mime_type("txt"), "text/plain");
    assert_eq!(inline_mime_type("unknown"), "application/octet-stream");
    assert_eq!(inline_mime_type("PNG"), "image/png");
    assert_eq!(inline_mime_type("JpG"), "image/jpeg");
    assert_eq!(inline_mime_type("mp4"), "video/mp4");
    assert_eq!(inline_mime_type("webm"), "video/webm");
    assert_eq!(inline_mime_type("avi"), "video/x-msvideo");
}

#[test]
fn an_empty_subtype_falls_back_to_octet_stream() {
    assert_eq!(inline_mime_type(""), "application/octet-stream");
    assert_eq!(to_ascii_lowercase("AbC-é"), "abc-é");
}

fn inline_png(cid: Option<&str>, encoding: Encoding, inline: bool) -> ImapAttachment {
    ImapAttachment::new(
        "t".into(),
        SegmentPath::new(vec![2]),
        Some("logo.png".into()),
        10,
        "PNG".into(),
        encoding,
        inline,
        cid.map(|s| s.to_string()),
    )
}

#[test]
fn content_ids_lose_their_angle_brackets() {
    assert_eq!(strip_angles("<logo@x>"), "logo@x");
    assert_eq!(strip_angles("<<a>>"), "a");
    assert_eq!(strip_angles("<>"), "");
    assert_eq!(strip_angles("plain"), "plain");
}

#[test]
fn only_referenced_base64_inline_parts_are_targets() {
    let html = "<img src=\"cid:logo@x\">";
    let att = inline_png(Some("<logo@x>"), Encoding::Base64, true);
    assert_eq!(inline_target(html, &att), Some("logo@x".to_string()));
    assert_eq!(inline_target("<p>no image</p>", &att), None);
    let qp = inline_png(Some("<logo@x>"), Encoding::QuotedPrintable, true);
    assert_eq!(inline_target(html, &qp), None);
    let not_inline = inline_png(Some("<logo@x>"), Encoding::Base64, false);
    assert_eq!(inline_target(html, &not_inline), None);
    let no_cid = inline_png(None, Encoding::Base64, true);
    assert_eq!(inline_target(html, &no_cid), None);
}

#[test]
fn inline_parts_become_data_uris() {
    let html = "<img src=\"cid:logo@x\"><img src=\"cid:logo@x\">";
    let att = inline_png(Some("<logo@x>"), Encoding::Base64, true);
    let out = embed_inline_attachment(html, &att, "  iVBO\r\nRw0K\n ");
    assert_eq!(
        out,
        "<img src=\"data:image/png;base64,iVBORw0K\"><img src=\"data:image/png;base64,iVBORw0K\">"
    );
    let qp = inline_png(Some("<logo@x>"), Encoding::QuotedPrintable, true);
    assert_eq!(embed_inline_attachment(html, &qp, "AAAA"), html);
    assert_eq!(
        embed_content("a cid:1 b", "1", "text/plain", "QQ=="),
        "a data:text/plain;base64,QQ== b"
    );
}

#[test]
fn gmail_inline_parts_keep_their_type() {
    let att = AttachmentInfo {
        file_type: "image/gif".into(),
        transfer_encoding: "base64".into(),
        content_id: "c1".into(),
        inline: true,
        filename: "a.gif".into(),
        id: "x".into(),
        size: 3,
    };
    assert_eq!(
        embed_gmail_attachment("<img src=cid:c1>", &att, "R0lG"),
        "<img src=data:image/gif;base64,R0lG>"
    );
    let no_cid = AttachmentInfo { content_id: String::new(), ..att.clone() };
    assert_eq!(embed_gmail_attachment("<img src=cid:c1>", &no_cid, "R0lG"), "<img src=cid:c1>");
    let attached = AttachmentInfo { inline: false, ..att };
    assert_eq!(embed_gmail_attachment("<img src=cid:c1>", &attached, "R0lG"), "<img src=cid:c1>");
}
