//! What each kind of event carries.
use vstd::prelude::*;
use crate::address::Addr;
use crate::message::content::FullMessageContent;
use crate::section::ImapAttachment;

verus! {

/// The headers of the original message that a bounce or a feedback report
/// refers to.
#[derive(Clone, Debug, Default, PartialEq, Eq)]
pub struct RawEmailHeaders {
    pub message_id: Option<String>,
    pub subject: Option<String>,
    pub from: Option<String>,
    pub to: Option<Vec<String>>,
    /// Milliseconds since the Unix epoch.
    pub date: Option<i64>,
}

/// The delivery status report of a bounce.
#[derive(Clone, Debug, Default, PartialEq, Eq)]
pub struct DeliveryStatus {
    pub recipient: Option<String>,
    pub action: Option<String>,
    pub status: Option<String>,
    pub error_source: Option<String>,
    pub diagnostic_code: Option<String>,
    pub remote_mta: Option<String>,
    pub reporting_mta: Option<String>,
    pub received_from_mta: Option<String>,
    pub postfix_queue_id: Option<String>,
    pub arrival_date: Option<String>,
    pub original_message_id: Option<String>,
    pub postfix_sender: Option<String>,
}

/// An abuse or feedback report about a message.
#[derive(Clone, Debug, Default, PartialEq, Eq)]
pub struct FeedbackReport {
    pub feedback_type: Option<String>,
    pub version: Option<String>,
    pub user_agent: Option<String>,
    pub original_mail_from: Option<String>,
    pub original_rcpt_to: Option<String>,
    pub original_envelope_id: Option<String>,
    pub received_date: Option<String>,
    pub reported_domain: Option<String>,
    pub reported_uri: Option<String>,
    pub reporting_mta: Option<String>,
    pub source_ip: Option<String>,
    pub source_port: Option<String>,
    pub spf_dns: Option<String>,
    pub delivery_result: Option<String>,
    pub authentication_results: Option<String>,
    pub auth_failure: Option<String>,
    pub arrival_date: Option<String>,
}

/// A message appeared in a mailbox: new, appended, moved or copied there.
#[derive(Clone, Debug)]
pub struct EmailAddedToFolder {
    pub account_id: u64,
    pub account_email: String,
    pub mailbox_name: String,
    pub uid: u32,
    /// Milliseconds since the Unix epoch, as the server recorded it.
    pub internal_date: Option<i64>,
    /// Milliseconds since the Unix epoch, from the `Date` header.
    pub date: Option<i64>,
    /// Size in bytes.
    pub size: u32,
    pub flags: Vec<String>,
    pub cc: Option<Vec<Addr>>,
    pub bcc: Option<Vec<Addr>>,
    pub from: Option<Addr>,
    pub in_reply_to: Option<String>,
    pub sender: Option<Addr>,
    pub message_id: Option<String>,
    pub subject: Option<String>,
    pub message: FullMessageContent,
    pub thread_name: Option<String>,
    pub reply_to: Option<Vec<Addr>>,
    pub to: Option<Vec<Addr>>,
    pub attachments: Option<Vec<Attachment>>,
}

/// An attachment as an event reports it.
#[derive(Clone, Debug, PartialEq, Eq)]
pub struct Attachment {
    pub filename: Option<String>,
    pub inline: bool,
    /// Size in bytes.
    pub size: usize,
    /// The MIME type, such as `application/pdf`.
    pub file_type: String,
}

impl Attachment {
    /// The event's view of an attachment of a message.
    pub fn from_imap(value: ImapAttachment) -> (r: Attachment)
        ensures
            r.filename == value.filename,
            r.inline == value.inline,
            r.size == value.size,
            r.file_type == value.file_type,
    {
        Attachment {
            filename: value.filename,
            inline: value.inline,
            size: value.size,
            file_type: value.file_type,
        }
    }
}

/// The flags of a message changed.
#[derive(Clone, Debug)]
pub struct EmailFlagsChanged {
    pub account_id: u64,
    pub account_email: String,
    pub mailbox_name: String,
    pub uid: u32,
    pub from: Option<Addr>,
    pub to: Option<Vec<Addr>>,
    pub message_id: Option<String>,
    pub subject: Option<String>,
    pub internal_date: Option<i64>,
    pub date: Option<i64>,
    pub flags_added: Vec<String>,
    pub flags_removed: Vec<String>,
}

/// A message was handed to the SMTP server.
#[derive(Clone, Debug)]
pub struct EmailSentSuccess {
    pub account_id: u64,
    pub account_email: String,
    pub from: String,
    pub to: Vec<String>,
    pub subject: Option<String>,
    pub message_id: String,
}

/// Sending a message failed; one event per failed attempt.
#[derive(Clone, Debug)]
pub struct EmailSendingError {
    pub account_id: u64,
    pub account_email: String,
    pub from: String,
    pub to: Vec<String>,
    pub subject: Option<String>,
    pub message_id: String,
    pub error_msg: Option<String>,
    pub retry_count: Option<usize>,
    /// Milliseconds since the Unix epoch.
    pub scheduled_at: Option<i64>,
    pub task_id: u64,
    pub max_retries: Option<u32>,
}

/// Something changed about one mailbox, such as its UID validity.
#[derive(Clone, Debug)]
pub struct MailboxChange {
    pub account_id: u64,
    pub account_email: String,
    pub mailbox_name: String,
}

/// Mailboxes were deleted.
#[derive(Clone, Debug)]
pub struct MailboxDeletion {
    pub account_id: u64,
    pub account_email: String,
    pub mailbox_names: Vec<String>,
}

/// Mailboxes were created.
#[derive(Clone, Debug)]
pub struct MailboxCreation {
    pub account_id: u64,
    pub account_email: String,
    pub mailbox_names: Vec<String>,
}

/// Something happened to an account as a whole.
#[derive(Clone, Debug)]
pub struct AccountChange {
    pub account_id: u64,
    pub account_email: String,
}

/// A message bounced.
#[derive(Clone, Debug)]
pub struct EmailBounce {
    pub account_id: u64,
    pub account_email: String,
    pub mailbox_name: String,
    pub uid: u32,
    pub internal_date: Option<i64>,
    pub date: Option<i64>,
    pub from: Option<Addr>,
    pub subject: Option<String>,
    pub to: Option<Vec<Addr>>,
    pub original_headers: Option<RawEmailHeaders>,
    pub delivery_status: Option<DeliveryStatus>,
}

/// A feedback report about a message arrived.
#[derive(Clone, Debug)]
pub struct EmailFeedBackReport {
    pub account_id: u64,
    pub account_email: String,
    pub mailbox_name: String,
    pub uid: u32,
    pub internal_date: Option<i64>,
    pub date: Option<i64>,
    pub from: Option<Addr>,
    pub subject: Option<String>,
    pub to: Option<Vec<Addr>>,
    pub original_headers: Option<RawEmailHeaders>,
    pub feedback_report: Option<FeedbackReport>,
}

/// A recipient opened a message.
#[derive(Clone, Debug)]
pub struct EmailOpened {
    pub campaign_id: String,
    pub recipient: String,
    pub message_id: String,
    pub user_agent: String,
    pub remote_ip: Option<String>,
}

/// A recipient followed a link in a message.
#[derive(Clone, Debug)]
pub struct EmailLinkClicked {
    pub campaign_id: String,
    pub recipient: String,
    pub message_id: String,
    pub url: String,
    pub remote_ip: Option<String>,
    pub user_agent: String,
}

} // verus!
