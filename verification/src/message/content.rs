//! Content requests, attachment metadata of Gmail messages, and the cache keys
//! of fetched bodies.
use vstd::prelude::*;
use vstd::utf8::{decode_utf8, encode_utf8, is_char_boundary, valid_utf8};
use crate::message::{is_u32_text, parse_uid, MailerType, RequestError};
use crate::section::{dotted, EmailBodyPart, ImapAttachment, PartType, SegmentPath};
use crate::text::{decimal, u64_to_decimal};

verus! {

/// Request for the plain-text and HTML content of a message.
#[derive(Clone, Debug, Default, PartialEq, Eq)]
pub struct MessageContentRequest {
    /// Required for IMAP accounts, refused for Gmail API accounts.
    pub mailbox: Option<String>,
    /// The IMAP UID as decimal text, or the Gmail message id.
    pub id: String,
    pub max_length: Option<usize>,
    /// Required for IMAP accounts, refused for Gmail API accounts.
    pub sections: Option<Vec<EmailBodyPart>>,
    /// Inline attachments to embed; IMAP accounts only.
    pub inline: Option<Vec<ImapAttachment>>,
}

pub open spec fn content_request_check(r: MessageContentRequest, mailer: MailerType) -> Result<
    (),
    RequestError,
> {
    match mailer {
        MailerType::GmailApi => if r.mailbox is Some {
            Err(RequestError::MailboxNotAllowed)
        } else if r.sections is Some {
            Err(RequestError::SectionsNotAllowed)
        } else if r.inline is Some {
            Err(RequestError::InlineNotAllowed)
        } else {
            Ok(())
        },
        _ => if r.mailbox is None {
            Err(RequestError::MailboxRequired)
        } else if !is_u32_text(r.id@) {
            Err(RequestError::InvalidImapUid)
        } else if r.sections is None {
            Err(RequestError::SectionsRequired)
        } else {
            Ok(())
        },
    }
}

impl MessageContentRequest {
    /// Checks that the request carries what the account's protocol needs.
    pub fn validate(&self, mailer: MailerType) -> (r: Result<(), RequestError>)
        requires
            mailer != MailerType::GraphApi,
        ensures
            r == content_request_check(*self, mailer),
    {
        match mailer {
            MailerType::GmailApi => {
                if self.mailbox.is_some() {
                    return Err(RequestError::MailboxNotAllowed);
                }
                if self.sections.is_some() {
                    return Err(RequestError::SectionsNotAllowed);
                }
                if self.inline.is_some() {
                    return Err(RequestError::InlineNotAllowed);
                }
            },
            _ => {
                if self.mailbox.is_none() {
                    return Err(RequestError::MailboxRequired);
                }
                if parse_uid(self.id.as_str()).is_none() {
                    return Err(RequestError::InvalidImapUid);
                }
                if self.sections.is_none() {
                    return Err(RequestError::SectionsRequired);
                }
            },
        }
        Ok(())
    }
}

/// Metadata of an attachment of a Gmail message.
#[derive(Clone, Debug, Default, PartialEq, Eq)]
pub struct AttachmentInfo {
    pub file_type: String,
    pub transfer_encoding: String,
    pub content_id: String,
    pub inline: bool,
    pub filename: String,
    /// The Gmail attachment id; it may differ between two fetches of the same
    /// message, so it takes no part in the hash.
    pub id: String,
    pub size: u32,
}

/// The hash of a string under the standard library's default hasher.
pub uninterp spec fn text_hash(s: Seq<char>) -> u64;

/// Calls `BuildHasher::hash_one` of `BuildHasherDefault<DefaultHasher>` on the
/// string. Claimed: the hash is a function of the text.
#[verifier::external_body]
fn hash_text(s: &str) -> (r: u64)
    ensures
        r == text_hash(s@),
{
    std::hash::BuildHasher::hash_one(
        &std::hash::BuildHasherDefault::<std::collections::hash_map::DefaultHasher>::default(),
        s,
    )
}

pub open spec fn bool_text(b: bool) -> Seq<char> {
    if b {
        "true"@
    } else {
        "false"@
    }
}

/// The text that identifies an attachment: its type, encoding, content id,
/// inline flag, file name and size joined by `|`.
pub open spec fn attachment_fingerprint(a: AttachmentInfo) -> Seq<char> {
    a.file_type@ + "|"@ + a.transfer_encoding@ + "|"@ + a.content_id@ + "|"@ + bool_text(a.inline)
        + "|"@ + a.filename@ + "|"@ + decimal(a.size as nat)
}

impl AttachmentInfo {
    /// The hash of the attachment's fingerprint.
    pub fn hash(&self) -> (r: u64)
        ensures
            r == text_hash(attachment_fingerprint(*self)),
    {
        let mut s = self.file_type.clone();
        s.append("|");
        s.append(self.transfer_encoding.as_str());
        s.append("|");
        s.append(self.content_id.as_str());
        s.append("|");
        if self.inline {
            s.append("true");
        } else {
            s.append("false");
        }
        s.append("|");
        s.append(self.filename.as_str());
        s.append("|");
        let size = u64_to_decimal(self.size as u64);
        s.append(size.as_str());
        assert(s@ =~= attachment_fingerprint(*self));
        hash_text(s.as_str())
    }
}

/// Two descriptions of one attachment that differ only in the Gmail id (which
/// changes between fetches of a message) hash alike.
pub proof fn lemma_hash_ignores_id(a: AttachmentInfo, b: AttachmentInfo)
    requires
        a == (AttachmentInfo { id: b.id, ..b }),
    ensures
        text_hash(attachment_fingerprint(a)) == text_hash(attachment_fingerprint(b)),
{
}

/// The plain text of a message, and whether it was cut short.
#[derive(Clone, Debug, Default, PartialEq, Eq)]
pub struct PlainText {
    pub content: String,
    pub truncated: bool,
}

/// The plain-text and HTML content of a message.
#[derive(Clone, Debug, Default, PartialEq, Eq)]
pub struct FullMessageContent {
    pub plain: Option<PlainText>,
    pub html: Option<String>,
    /// Always present for Gmail API accounts; absent for IMAP accounts.
    pub attachments: Option<Vec<AttachmentInfo>>,
}

impl FullMessageContent {
    pub fn html(&self) -> (r: Option<&str>)
        ensures
            match self.html {
                Some(h) => r matches Some(s) && s@ == h@,
                None => r is None,
            },
    {
        match &self.html {
            Some(h) => Some(h.as_str()),
            None => None,
        }
    }

    pub fn plain(&self) -> (r: Option<&str>)
        ensures
            match self.plain {
                Some(p) => r matches Some(s) && s@ == p.content@,
                None => r is None,
            },
    {
        match &self.plain {
            Some(p) => Some(p.content.as_str()),
            None => None,
        }
    }
}

pub open spec fn email_content_key(
    account_id: u64,
    mailbox_name: Seq<char>,
    uid: u32,
    path: Seq<u64>,
) -> Seq<char> {
    "email_content_"@ + decimal(account_id as nat) + "_"@ + mailbox_name + "_"@ + decimal(
        uid as nat,
    ) + "_"@ + dotted(path)
}

/// The cache key of a decoded text part of an IMAP message.
pub fn email_content_diskcache_key(
    account_id: u64,
    mailbox_name: &str,
    uid: u32,
    segment_path: SegmentPath,
) -> (r: String)
    ensures
        r@ == email_content_key(account_id, mailbox_name@, uid, segment_path.segments@),
{
    let mut s = "email_content_".to_owned();
    s.append(u64_to_decimal(account_id).as_str());
    s.append("_");
    s.append(mailbox_name);
    s.append("_");
    s.append(u64_to_decimal(uid as u64).as_str());
    s.append("_");
    s.append(segment_path.to_string().as_str());
    assert(s@ =~= email_content_key(account_id, mailbox_name@, uid, segment_path.segments@));
    s
}

/// The cache key of the content of a Gmail message.
pub fn gmail_content_diskcache_key(account_id: u64, mid: &str) -> (r: String)
    ensures
        r@ == "gmail_content_"@ + decimal(account_id as nat) + "_"@ + mid@,
{
    let mut s = "gmail_content_".to_owned();
    s.append(u64_to_decimal(account_id).as_str());
    s.append("_");
    s.append(mid);
    s
}

/// Calls `std::str::from_utf8`. Claimed, as its documentation states: a string
/// comes back exactly when the bytes are valid UTF-8, and it holds their
/// decoding.
#[verifier::external_body]
fn str_from_utf8(data: &[u8]) -> (r: Option<&str>)
    ensures
        r is Some <==> valid_utf8(data@),
        r matches Some(s) ==> s@ == decode_utf8(data@),
{
    std::str::from_utf8(data).ok()
}

/// The bytes as text when they are valid UTF-8, `???` otherwise.
pub open spec fn utf8_text(data: Seq<u8>) -> Seq<char> {
    if valid_utf8(data) {
        decode_utf8(data)
    } else {
        "???"@
    }
}

/// The bytes as text when they are valid UTF-8, `???` otherwise.
pub fn to_string(data: &[u8]) -> (r: String)
    ensures
        r@ == utf8_text(data@),
{
    match str_from_utf8(data) {
        Some(s) => s.to_owned(),
        None => "???".to_owned(),
    }
}


/// The most bytes of a cached plain-text body that are read at once.
pub const MAX_BODY_SIZE: usize = 2097152;

/// How many bytes of a cached plain-text body of `actual_size` bytes are read:
/// all of them without a limit, else the smallest of the limit, the size and
/// [`MAX_BODY_SIZE`].
pub open spec fn cached_read_length(max_length: Option<usize>, actual_size: usize) -> int {
    match max_length {
        Some(m) => vstd::math::min(vstd::math::min(m as int, actual_size as int), MAX_BODY_SIZE as int),
        None => actual_size as int,
    }
}

pub fn cached_text_length(max_length: Option<usize>, actual_size: usize) -> (r: usize)
    ensures
        r == cached_read_length(max_length, actual_size),
{
    match max_length {
        Some(m) => {
            let a = if m < actual_size {
                m
            } else {
                actual_size
            };
            if a < MAX_BODY_SIZE {
                a
            } else {
                MAX_BODY_SIZE
            }
        },
        None => actual_size,
    }
}

/// The plain text read from the cache: the first `bytes_read` bytes of the
/// buffer as text, cut short when fewer bytes than the part holds were read.
pub fn cached_plain_text(buffer: &[u8], bytes_read: usize, actual_size: usize) -> (r: PlainText)
    requires
        bytes_read <= buffer@.len(),
    ensures
        r.content@ == utf8_text(buffer@.subrange(0, bytes_read as int)),
        r.truncated == (bytes_read < actual_size),
{
    let read = vstd::slice::slice_subrange(buffer, 0, bytes_read);
    PlainText { content: to_string(read), truncated: bytes_read < actual_size }
}

/// The HTML read from the cache: the first `bytes_read` bytes of the buffer as
/// text.
pub fn cached_html(buffer: &[u8], bytes_read: usize) -> (r: String)
    requires
        bytes_read <= buffer@.len(),
    ensures
        r@ == utf8_text(buffer@.subrange(0, bytes_read as int)),
{
    let read = vstd::slice::slice_subrange(buffer, 0, bytes_read);
    to_string(read)
}

/// Whether a plain-text body is cut to `max_length` bytes: only when a limit is
/// given and the text is longer than it.
pub open spec fn exceeds_limit(content: Seq<char>, max_length: Option<usize>) -> bool {
    match max_length {
        Some(m) => encode_utf8(content).len() > m,
        None => false,
    }
}

/// Cuts a plain-text body to at most `max_length` bytes and records whether it
/// did. The cut must fall on a character boundary.
pub fn limit_plain_text(content: String, max_length: Option<usize>) -> (r: PlainText)
    requires
        match max_length {
            Some(m) => exceeds_limit(content@, max_length) ==> is_char_boundary(
                encode_utf8(content@),
                m as int,
            ),
            None => true,
        },
    ensures
        r.truncated == exceeds_limit(content@, max_length),
        !r.truncated ==> r.content@ == content@,
        match max_length {
            Some(m) => r.truncated ==> encode_utf8(r.content@) == encode_utf8(content@).subrange(
                0,
                m as int,
            ),
            None => true,
        },
{
    match max_length {
        Some(m) => {
            if content.as_str().as_bytes().len() > m {
                let (head, _) = content.as_str().split_at(m);
                PlainText { content: head.to_owned(), truncated: true }
            } else {
                PlainText { content, truncated: false }
            }
        },
        None => PlainText { content, truncated: false },
    }
}

/// The position of the first section of the given kind.
pub fn first_section(sections: &Vec<EmailBodyPart>, kind: PartType) -> (r: Option<usize>)
    ensures
        match r {
            Some(i) => i < sections@.len() && sections@[i as int].part_type == kind && forall|j: int|
                0 <= j < i ==> (#[trigger] sections@[j]).part_type != kind,
            None => forall|j: int|
                0 <= j < sections@.len() ==> (#[trigger] sections@[j]).part_type != kind,
        },
{
    let mut i: usize = 0;
    while i < sections.len()
        invariant
            i <= sections@.len(),
            forall|j: int| 0 <= j < i ==> (#[trigger] sections@[j]).part_type != kind,
        decreases sections.len() - i,
    {
        if sections[i].part_type == kind {
            return Some(i);
        }
        i = i + 1;
    }
    None
}

} // verus!
