//! Attachment download requests and the cache keys of attachments.
use vstd::prelude::*;
use crate::message::{is_u32_text, parse_uid, MailerType, RequestError};
use crate::message::content::{attachment_fingerprint, text_hash, AttachmentInfo};
use crate::section::{dotted, ImapAttachment, SegmentPath};
use crate::text::{decimal, u64_to_decimal};

verus! {

/// Attachments of 50 MB and more are not downloaded.
pub const MAX_ATTACHMENT_SIZE: usize = 52428800;

/// Request for one attachment of a message.
#[derive(Clone, Debug, Default, PartialEq, Eq)]
pub struct AttachmentRequest {
    /// IMAP only: the mailbox of the message.
    pub mailbox: Option<String>,
    /// IMAP only: the attachment's metadata.
    pub attachment: Option<ImapAttachment>,
    /// The IMAP UID as decimal text, or the Gmail message id.
    pub id: String,
    /// Gmail API only: the attachment's metadata.
    pub attachment_info: Option<AttachmentInfo>,
    /// Gmail API only: the original file name.
    pub filename: Option<String>,
}

pub open spec fn attachment_request_check(r: AttachmentRequest, mailer: MailerType) -> Result<
    (),
    RequestError,
> {
    match mailer {
        MailerType::GmailApi => if r.attachment_info is None {
            Err(RequestError::AttachmentInfoRequired)
        } else {
            Ok(())
        },
        _ => if r.mailbox is None || r.attachment is None {
            Err(RequestError::ImapAttachmentFieldsRequired)
        } else if !is_u32_text(r.id@) {
            Err(RequestError::InvalidImapUid)
        } else {
            Ok(())
        },
    }
}

impl AttachmentRequest {
    /// Checks that the request carries what the account's protocol needs. Graph
    /// API accounts are not handled.
    pub fn validate(&self, mailer: MailerType) -> (r: Result<(), RequestError>)
        requires
            mailer != MailerType::GraphApi,
        ensures
            r == attachment_request_check(*self, mailer),
    {
        match mailer {
            MailerType::GmailApi => {
                if self.attachment_info.is_none() {
                    return Err(RequestError::AttachmentInfoRequired);
                }
            },
            _ => {
                if self.mailbox.is_none() || self.attachment.is_none() {
                    return Err(RequestError::ImapAttachmentFieldsRequired);
                }
                if parse_uid(self.id.as_str()).is_none() {
                    return Err(RequestError::InvalidImapUid);
                }
            },
        }
        Ok(())
    }
}

pub open spec fn imap_key(
    prefix: Seq<char>,
    account_id: u64,
    mailbox_name: Seq<char>,
    uid: u32,
    path: Seq<u64>,
) -> Seq<char> {
    prefix + decimal(account_id as nat) + "_"@ + mailbox_name + "_"@ + decimal(uid as nat) + "_"@
        + dotted(path)
}

fn imap_part_key(
    prefix: &str,
    account_id: u64,
    mailbox_name: &str,
    uid: u32,
    segment_path: &SegmentPath,
) -> (r: String)
    ensures
        r@ == imap_key(prefix@, account_id, mailbox_name@, uid, segment_path.segments@),
{
    let mut s = prefix.to_owned();
    s.append(u64_to_decimal(account_id).as_str());
    s.append("_");
    s.append(mailbox_name);
    s.append("_");
    s.append(u64_to_decimal(uid as u64).as_str());
    s.append("_");
    s.append(segment_path.to_string().as_str());
    assert(s@ =~= imap_key(prefix@, account_id, mailbox_name@, uid, segment_path.segments@));
    s
}

/// The cache key of a decoded IMAP attachment.
pub fn attachment_diskcache_key(
    account_id: u64,
    mailbox_name: &str,
    uid: u32,
    segment_path: SegmentPath,
) -> (r: String)
    ensures
        r@ == imap_key("email_attachment_"@, account_id, mailbox_name@, uid, segment_path.segments@),
{
    imap_part_key("email_attachment_", account_id, mailbox_name, uid, &segment_path)
}

/// The cache key of the still-encoded content of an inline IMAP attachment.
pub fn inline_attachment_diskcache_key(
    account_id: u64,
    mailbox_name: &str,
    uid: u32,
    segment_path: SegmentPath,
) -> (r: String)
    ensures
        r@ == imap_key(
            "email_inline_attachment_"@,
            account_id,
            mailbox_name@,
            uid,
            segment_path.segments@,
        ),
{
    imap_part_key("email_inline_attachment_", account_id, mailbox_name, uid, &segment_path)
}

pub open spec fn gmail_key(prefix: Seq<char>, account_id: u64, mid: Seq<char>, info: AttachmentInfo) -> Seq<
    char,
> {
    prefix + decimal(account_id as nat) + "_"@ + mid + "_"@ + decimal(
        text_hash(attachment_fingerprint(info)) as nat,
    )
}

fn gmail_part_key(prefix: &str, account_id: u64, mid: &str, info: &AttachmentInfo) -> (r: String)
    ensures
        r@ == gmail_key(prefix@, account_id, mid@, *info),
{
    let mut s = prefix.to_owned();
    s.append(u64_to_decimal(account_id).as_str());
    s.append("_");
    s.append(mid);
    s.append("_");
    s.append(u64_to_decimal(info.hash()).as_str());
    s
}

/// The cache key of a decoded Gmail attachment.
pub fn gmail_attachment_diskcache_key(
    account_id: u64,
    mid: &str,
    attachment_info: &AttachmentInfo,
) -> (r: String)
    ensures
        r@ == gmail_key("gmail_attachment_"@, account_id, mid@, *attachment_info),
{
    gmail_part_key("gmail_attachment_", account_id, mid, attachment_info)
}

/// The cache key of the Base64 content of an inline Gmail attachment.
pub fn gmail_inline_attachment_diskcache_key(
    account_id: u64,
    mid: &str,
    attachment_info: &AttachmentInfo,
) -> (r: String)
    ensures
        r@ == gmail_key("gmail_inline_attachment_"@, account_id, mid@, *attachment_info),
{
    gmail_part_key("gmail_inline_attachment_", account_id, mid, attachment_info)
}

/// Whether an attachment of `size` bytes is too large to download.
pub fn exceeds_attachment_limit(size: usize) -> (r: bool)
    ensures
        r == (size >= MAX_ATTACHMENT_SIZE),
{
    size >= MAX_ATTACHMENT_SIZE
}


fn same_segments(a: &Vec<u64>, b: &Vec<u64>) -> (r: bool)
    ensures
        r == (a@ == b@),
{
    if a.len() != b.len() {
        return false;
    }
    let mut i: usize = 0;
    while i < a.len()
        invariant
            a@.len() == b@.len(),
            i <= a@.len(),
            forall|k: int| 0 <= k < i ==> a@[k] == b@[k],
        decreases a.len() - i,
    {
        if a[i] != b[i] {
            return false;
        }
        i = i + 1;
    }
    assert(a@ =~= b@);
    true
}

/// The first attachment of a message at the given section path.
pub fn find_attachment_by_path(attachments: &Vec<ImapAttachment>, path: &SegmentPath) -> (r: Option<
    usize,
>)
    ensures
        match r {
            Some(i) => i < attachments@.len() && attachments@[i as int].path.segments@
                == path.segments@ && forall|j: int|
                0 <= j < i ==> (#[trigger] attachments@[j]).path.segments@ != path.segments@,
            None => forall|j: int|
                0 <= j < attachments@.len() ==> (#[trigger] attachments@[j]).path.segments@
                    != path.segments@,
        },
{
    let mut i: usize = 0;
    while i < attachments.len()
        invariant
            i <= attachments@.len(),
            forall|j: int|
                0 <= j < i ==> (#[trigger] attachments@[j]).path.segments@ != path.segments@,
        decreases attachments.len() - i,
    {
        if same_segments(&attachments[i].path.segments, &path.segments) {
            return Some(i);
        }
        i = i + 1;
    }
    None
}

/// The first attachment of a Gmail message with the same hash as the one asked
/// for (attachment ids differ between two fetches of a message, hashes do
/// not).
pub fn find_gmail_attachment(attachments: &Vec<AttachmentInfo>, target: &AttachmentInfo) -> (r:
    Option<usize>)
    ensures
        match r {
            Some(i) => i < attachments@.len() && text_hash(attachment_fingerprint(attachments@[i as int]))
                == text_hash(attachment_fingerprint(*target)) && forall|j: int|
                0 <= j < i ==> text_hash(attachment_fingerprint(#[trigger] attachments@[j])) != text_hash(
                    attachment_fingerprint(*target),
                ),
            None => forall|j: int|
                0 <= j < attachments@.len() ==> text_hash(
                    attachment_fingerprint(#[trigger] attachments@[j]),
                ) != text_hash(attachment_fingerprint(*target)),
        },
{
    let wanted = target.hash();
    let mut i: usize = 0;
    while i < attachments.len()
        invariant
            i <= attachments@.len(),
            wanted == text_hash(attachment_fingerprint(*target)),
            forall|j: int|
                0 <= j < i ==> text_hash(attachment_fingerprint(#[trigger] attachments@[j])) != wanted,
        decreases attachments.len() - i,
    {
        if attachments[i].hash() == wanted {
            return Some(i);
        }
        i = i + 1;
    }
    None
}

} // verus!
