use rustmailer_core::address::Addr;
use rustmailer_core::imap::EnvelopeFlags;
use rustmailer_core::message::append::{
    drafts_mailbox, reply_recipients, reply_subject, AppendReplyToDraftRequest,
};
use rustmailer_core::message::attachment::{
    attachment_diskcache_key, exceeds_attachment_limit, find_attachment_by_path,
    find_gmail_attachment, gmail_attachment_diskcache_key, inline_attachment_diskcache_key,
    AttachmentRequest, MAX_ATTACHMENT_SIZE,
};
use rustmailer_core::message::content::{
    cached_html, cached_plain_text, cached_text_length, email_content_diskcache_key,
    first_section, gmail_content_diskcache_key, limit_plain_text, to_string, AttachmentInfo,
    FullMessageContent, MessageContentRequest, PlainText, MAX_BODY_SIZE,
};
use rustmailer_core::message::delete::{
    imap_delete_targets, trash_action, MailboxRoles, MessageDeleteRequest, TrashAction,
};
use rustmailer_core::message::flag::{FlagAction, FlagMessageRequest};
use rustmailer_core::message::full::{
    exceeds_email_limit, gmail_raw_email_diskcache_key, raw_email_diskcache_key,
    raw_email_source, RawEmailSource,
};
use rustmailer_core::message::list::{
    decode_page_token, local_page, next_page_cursor, remote_page, total_pages, validate_page_size, validate_pagination_params,
    PageError,
};
use rustmailer_core::message::transfer::{
    check_gmail_ids, gmail_label_changes, imap_transfer_uids, MailboxTransferRequest,
    MessageTransfer,
};
use rustmailer_core::message::{parse_uid, parse_uid_list, MailerType, RequestError};
use rustmailer_core::section::{EmailBodyPart, Encoding, ImapAttachment, PartType, SegmentPath};

fn strings(v: &[&str]) -> Vec<String> {
    v.iter().map(|s| s.to_string()).collect()
}

#[test]
fn uids_are_parsed_like_u32() {
    assert_eq!(parse_uid("42"), Some(42));
    assert_eq!(parse_uid("x"), None);
    assert_eq!(parse_uid_list(&strings(&["1", "2"])), Ok(vec![1, 2]));
    assert_eq!(parse_uid_list(&Vec::new()), Err(RequestError::EmptyIds));
    assert_eq!(
        parse_uid_list(&strings(&["1", "b", "c"])),
        Err(RequestError::InvalidUid("b".to_string()))
    );
}

#[test]
fn content_requests_follow_the_account_protocol() {
    let imap = MessageContentRequest {
        mailbox: Some("INBOX".into()),
        id: "12".into(),
        max_length: None,
        sections: Some(vec![]),
        inline: None,
    };
    assert_eq!(imap.validate(MailerType::ImapSmtp), Ok(()));
    assert_eq!(imap.validate(MailerType::GmailApi), Err(RequestError::MailboxNotAllowed));
    let bad_uid = MessageContentRequest { id: "abc".into(), ..imap.clone() };
    assert_eq!(bad_uid.validate(MailerType::ImapSmtp), Err(RequestError::InvalidImapUid));
    let no_sections = MessageContentRequest { sections: None, ..imap.clone() };
    assert_eq!(no_sections.validate(MailerType::ImapSmtp), Err(RequestError::SectionsRequired));
    let no_mailbox = MessageContentRequest { mailbox: None, ..imap.clone() };
    assert_eq!(no_mailbox.validate(MailerType::ImapSmtp), Err(RequestError::MailboxRequired));
    let gmail = MessageContentRequest { mailbox: None, sections: None, ..imap.clone() };
    assert_eq!(gmail.validate(MailerType::GmailApi), Ok(()));
    let gmail_inline = MessageContentRequest { inline: Some(vec![]), ..gmail.clone() };
    assert_eq!(gmail_inline.validate(MailerType::GmailApi), Err(RequestError::InlineNotAllowed));
    let gmail_sections = MessageContentRequest { sections: Some(vec![]), ..gmail };
    assert_eq!(
        gmail_sections.validate(MailerType::GmailApi),
        Err(RequestError::SectionsNotAllowed)
    );
}

fn info(content_id: &str, inline: bool) -> AttachmentInfo {
    AttachmentInfo {
        file_type: "image/png".into(),
        transfer_encoding: "base64".into(),
        content_id: content_id.into(),
        inline,
        filename: "a.png".into(),
        id: "first-fetch-id".into(),
        size: 10,
    }
}

#[test]
fn attachment_hash_ignores_the_gmail_id() {
    let a = info("c1", true);
    let b = AttachmentInfo { id: "second-fetch-id".into(), ..a.clone() };
    let c = AttachmentInfo { size: 11, ..a.clone() };
    assert_eq!(a.hash(), b.hash());
    assert_ne!(a.hash(), c.hash());
    let list = vec![c.clone(), b.clone()];
    assert_eq!(find_gmail_attachment(&list, &a), Some(1));
    assert_eq!(find_gmail_attachment(&vec![c], &a), None);
}

#[test]
fn attachment_requests_and_keys() {
    let att = ImapAttachment::new(
        "id".into(),
        SegmentPath::new(vec![1, 2]),
        Some("a.pdf".into()),
        100,
        "pdf".into(),
        Encoding::Base64,
        false,
        None,
    );
    let req = AttachmentRequest {
        mailbox: Some("INBOX".into()),
        attachment: Some(att.clone()),
        id: "9".into(),
        attachment_info: None,
        filename: None,
    };
    assert_eq!(req.validate(MailerType::ImapSmtp), Ok(()));
    assert_eq!(req.validate(MailerType::GmailApi), Err(RequestError::AttachmentInfoRequired));
    let missing = AttachmentRequest { attachment: None, ..req.clone() };
    assert_eq!(
        missing.validate(MailerType::ImapSmtp),
        Err(RequestError::ImapAttachmentFieldsRequired)
    );
    let bad = AttachmentRequest { id: "nine".into(), ..req };
    assert_eq!(bad.validate(MailerType::ImapSmtp), Err(RequestError::InvalidImapUid));
    assert_eq!(
        attachment_diskcache_key(7, "INBOX", 9, SegmentPath::new(vec![1, 2])),
        "email_attachment_7_INBOX_9_1.2"
    );
    assert_eq!(
        inline_attachment_diskcache_key(7, "INBOX", 9, SegmentPath::new(vec![3])),
        "email_inline_attachment_7_INBOX_9_3"
    );
    let g = info("c", false);
    assert_eq!(
        gmail_attachment_diskcache_key(7, "m1", &g),
        format!("gmail_attachment_7_m1_{}", g.hash())
    );
    assert!(exceeds_attachment_limit(MAX_ATTACHMENT_SIZE));
    assert!(!exceeds_attachment_limit(MAX_ATTACHMENT_SIZE - 1));
    let other = ImapAttachment { path: SegmentPath::new(vec![2]), ..att.clone() };
    let list = vec![other, att];
    assert_eq!(find_attachment_by_path(&list, &SegmentPath::new(vec![1, 2])), Some(1));
    assert_eq!(find_attachment_by_path(&list, &SegmentPath::new(vec![1])), None);
}

#[test]
fn content_keys_and_text() {
    assert_eq!(
        email_content_diskcache_key(1, "INBOX", 5, SegmentPath::new(vec![1])),
        "email_content_1_INBOX_5_1"
    );
    assert_eq!(gmail_content_diskcache_key(1, "abc"), "gmail_content_1_abc");
    assert_eq!(to_string("héllo".as_bytes()), "héllo");
    assert_eq!(to_string(&[0xff, 0xfe]), "???");
    let full = FullMessageContent {
        plain: Some(PlainText { content: "p".into(), truncated: false }),
        html: None,
        attachments: None,
    };
    assert_eq!(full.plain(), Some("p"));
    assert_eq!(full.html(), None);
}

#[test]
fn plain_text_is_cut_at_the_limit() {
    let cut = limit_plain_text("hello world".into(), Some(5));
    assert_eq!(cut, PlainText { content: "hello".into(), truncated: true });
    let kept = limit_plain_text("hello".into(), Some(5));
    assert_eq!(kept, PlainText { content: "hello".into(), truncated: false });
    let unlimited = limit_plain_text("hello".into(), None);
    assert!(!unlimited.truncated);
    assert_eq!(cached_text_length(Some(10), 100), 10);
    assert_eq!(cached_text_length(Some(1000), 100), 100);
    assert_eq!(cached_text_length(Some(usize::MAX), usize::MAX), MAX_BODY_SIZE);
    assert_eq!(cached_text_length(None, 77), 77);
    let buffer = b"abcdef".to_vec();
    assert_eq!(
        cached_plain_text(&buffer, 3, 6),
        PlainText { content: "abc".into(), truncated: true }
    );
    assert_eq!(
        cached_plain_text(&buffer, 6, 6),
        PlainText { content: "abcdef".into(), truncated: false }
    );
    assert_eq!(cached_html(&buffer, 2), "ab");
}

#[test]
fn the_first_section_of_a_kind_is_found() {
    let part = |t: PartType| {
        EmailBodyPart::new("x".into(), t, SegmentPath::new(vec![1]), None, 1, Encoding::Unencoded)
    };
    let v = vec![part(PartType::Html), part(PartType::Plain), part(PartType::Html)];
    assert_eq!(first_section(&v, PartType::Plain), Some(1));
    assert_eq!(first_section(&v, PartType::Html), Some(0));
    assert_eq!(first_section(&vec![], PartType::Html), None);
}

#[test]
fn flag_requests_need_uids_and_an_action() {
    let action = FlagAction { add: Some(vec![EnvelopeFlags::Seen]), remove: None, overwrite: None };
    assert_eq!(action.validate(), Ok(()));
    assert_eq!(FlagAction::default().validate(), Err(RequestError::NoFlagAction));
    let req = FlagMessageRequest { uids: vec![], mailbox: "INBOX".into(), action };
    assert_eq!(req.validate(), Err(RequestError::EmptyUids));
    let req = FlagMessageRequest { uids: vec![1], ..req };
    assert_eq!(req.validate(), Ok(()));
}

#[test]
fn raw_downloads() {
    assert_eq!(raw_email_diskcache_key(1, "INBOX", 3), "imap_raw_email_1_INBOX_3");
    assert_eq!(gmail_raw_email_diskcache_key(1, "m"), "gmail_raw_email_1_m");
    assert_eq!(
        raw_email_source(MailerType::ImapSmtp, Some("INBOX"), "3"),
        Ok(RawEmailSource::Imap { mailbox: "INBOX".into(), uid: 3 })
    );
    assert_eq!(
        raw_email_source(MailerType::ImapSmtp, None, "3"),
        Err(RequestError::MailboxRequired)
    );
    assert_eq!(
        raw_email_source(MailerType::ImapSmtp, Some("INBOX"), "x"),
        Err(RequestError::InvalidImapUid)
    );
    assert_eq!(
        raw_email_source(MailerType::GmailApi, None, "abc"),
        Ok(RawEmailSource::Gmail { mid: "abc".into() })
    );
    assert!(!exceeds_email_limit(10));
    assert!(exceeds_email_limit(u32::MAX));
}

#[test]
fn deleting_goes_to_trash_first_then_junk() {
    let mb = |name: &str, trash: bool, junk: bool| MailboxRoles {
        name: name.into(),
        trash,
        junk,
        drafts: false,
    };
    let all = vec![mb("INBOX", false, false), mb("Spam", false, true), mb("Bin", true, false)];
    assert_eq!(trash_action(&all, "INBOX"), TrashAction::MoveTo("Bin".into()));
    assert_eq!(trash_action(&all, "Bin"), TrashAction::DeleteDirectly);
    assert_eq!(trash_action(&all, "Spam"), TrashAction::DeleteDirectly);
    let junk_only = vec![mb("INBOX", false, false), mb("Spam", false, true)];
    assert_eq!(trash_action(&junk_only, "INBOX"), TrashAction::MoveTo("Spam".into()));
    let none = vec![mb("INBOX", false, false)];
    assert_eq!(trash_action(&none, "INBOX"), TrashAction::DeleteDirectly);

    let req = MessageDeleteRequest { ids: strings(&["5", "6"]), mailbox: Some("INBOX".into()) };
    assert_eq!(imap_delete_targets(&req), Ok(("INBOX".to_string(), vec![5, 6])));
    let req = MessageDeleteRequest { ids: vec![], mailbox: Some("INBOX".into()) };
    assert_eq!(imap_delete_targets(&req), Err(RequestError::EmptyIds));
    let req = MessageDeleteRequest { ids: strings(&["5"]), mailbox: None };
    assert_eq!(imap_delete_targets(&req), Err(RequestError::MailboxRequired));
    let req = MessageDeleteRequest { ids: strings(&["x"]), mailbox: Some("INBOX".into()) };
    assert_eq!(imap_delete_targets(&req), Err(RequestError::InvalidUid("x".into())));
}

#[test]
fn replies_go_to_reply_to_else_the_sender() {
    let req = AppendReplyToDraftRequest {
        mailbox_name: Some("INBOX".into()),
        id: "5".into(),
        preview: None,
        text: Some("hi".into()),
        html: None,
    };
    assert_eq!(req.validate(false), Ok(()));
    let bad = AppendReplyToDraftRequest { id: "five".into(), ..req.clone() };
    assert_eq!(bad.validate(false), Err(RequestError::InvalidImapUid));
    assert_eq!(bad.validate(true), Ok(()));
    let empty = AppendReplyToDraftRequest { mailbox_name: Some(String::new()), ..req.clone() };
    assert_eq!(empty.validate(false), Err(RequestError::MailboxNameRequired));
    let none = AppendReplyToDraftRequest { mailbox_name: None, ..req };
    assert_eq!(none.validate(false), Err(RequestError::MailboxNameRequired));

    let a = |s: &str| Addr { name: None, address: Some(s.into()) };
    assert_eq!(
        reply_recipients(&Some(vec![a("r@x")]), &Some(a("f@x"))),
        Ok(vec![a("r@x")])
    );
    assert_eq!(reply_recipients(&Some(vec![]), &Some(a("f@x"))), Ok(vec![a("f@x")]));
    assert_eq!(reply_recipients(&None, &Some(a("f@x"))), Ok(vec![a("f@x")]));
    assert_eq!(reply_recipients(&None, &None), Err(RequestError::ReplyRecipientsMissing));
    assert_eq!(reply_subject(Some("Hello")), "Re: Hello");
    assert_eq!(reply_subject(None), "Re: ");
    let boxes = vec![
        MailboxRoles { name: "INBOX".into(), trash: false, junk: false, drafts: false },
        MailboxRoles { name: "Drafts".into(), trash: false, junk: false, drafts: true },
    ];
    assert_eq!(drafts_mailbox(&boxes), Some(1));
    assert_eq!(drafts_mailbox(&vec![]), None);
}

#[test]
fn paging_parameters_and_cursors() {
    assert_eq!(validate_page_size(0), Err(RequestError::PageSizeZero));
    assert_eq!(validate_page_size(501), Err(RequestError::PageSizeTooLarge));
    assert_eq!(validate_page_size(500), Ok(()));
    assert_eq!(validate_pagination_params(0, 10), Err(RequestError::PageParamsZero));
    assert_eq!(validate_pagination_params(1, 0), Err(RequestError::PageParamsZero));
    assert_eq!(validate_pagination_params(1, 600), Err(RequestError::PageSizeTooLarge));
    assert_eq!(validate_pagination_params(2, 50), Ok(()));
    assert_eq!(total_pages(0, 10), 0);
    assert_eq!(total_pages(10, 10), 1);
    assert_eq!(total_pages(11, 10), 2);
    let page = remote_page(1, 10, 25);
    assert_eq!(page.total_pages, Some(3));
    assert_eq!(page.next_page_token, Some("Mg".to_string()));
    let last = remote_page(3, 10, 25);
    assert_eq!(last.next_page_token, None);
    let empty = remote_page(1, 10, 0);
    assert_eq!(empty.total_pages, Some(0));
    assert_eq!(empty.next_page_token, None);
    let local = local_page(2, Some(10), 30, Some(3)).unwrap();
    assert_eq!(local.next_page_token, Some("Mw".to_string()));
    assert_eq!(local_page(1, Some(10), 30, None), Err(PageError::TotalPagesMissing));
    assert_eq!(local_page(1, Some(10), 0, None).unwrap().total_pages, None);
}

#[test]
fn page_cursors_read_back() {
    assert_eq!(decode_page_token(None), Ok(1));
    assert_eq!(decode_page_token(Some("Mg")), Ok(2));
    assert_eq!(decode_page_token(Some("MTI")), Ok(12));
    assert_eq!(decode_page_token(Some("!!")), Err(RequestError::InvalidPageToken));
    assert_eq!(decode_page_token(Some("YWI")), Err(RequestError::InvalidPageToken));
    for page in [1u64, 9, 99, 12345] {
        let cursor = next_page_cursor(page, page + 10).unwrap();
        assert_eq!(decode_page_token(Some(&cursor)), Ok(page + 1));
    }
    assert_eq!(next_page_cursor(4, 4), None);
}

#[test]
fn transfers() {
    let req = MailboxTransferRequest {
        ids: strings(&["1", "2"]),
        current_mailbox: "INBOX".into(),
        target_mailbox: "Archive".into(),
    };
    assert_eq!(imap_transfer_uids(&req), Ok(vec![1, 2]));
    assert_eq!(check_gmail_ids(&req), Ok(()));
    let many = MailboxTransferRequest { ids: vec!["m".to_string(); 501], ..req.clone() };
    assert_eq!(check_gmail_ids(&many), Err(RequestError::TooManyGmailIds(501)));
    let none = MailboxTransferRequest { ids: vec![], ..req.clone() };
    assert_eq!(check_gmail_ids(&none), Err(RequestError::GmailIdsRequired));
    assert_eq!(
        gmail_label_changes(MessageTransfer::Move, &req, Some("L2"), Some("L1")),
        Ok((vec!["L2".to_string()], vec!["L1".to_string()]))
    );
    assert_eq!(
        gmail_label_changes(MessageTransfer::Copy, &req, Some("L2"), None),
        Ok((vec!["L2".to_string()], vec![]))
    );
    assert_eq!(
        gmail_label_changes(MessageTransfer::Move, &req, Some("L2"), None),
        Err(RequestError::CurrentLabelNotFound("INBOX".into()))
    );
    assert_eq!(
        gmail_label_changes(MessageTransfer::Copy, &req, None, None),
        Err(RequestError::TargetLabelNotFound("Archive".into()))
    );
}
