//! Events that hooks deliver: their kinds, payloads and envelope, and the
//! example of each kind that the API documents.
use vstd::prelude::*;
use crate::address::Addr;
use crate::hook::payload::{
    AccountChange, Attachment, DeliveryStatus, EmailAddedToFolder, EmailBounce, EmailFeedBackReport,
    EmailFlagsChanged, EmailLinkClicked, EmailOpened, EmailSendingError, EmailSentSuccess,
    FeedbackReport, MailboxChange, MailboxCreation, MailboxDeletion, RawEmailHeaders,
};
use crate::message::content::{FullMessageContent, PlainText};
use crate::tokens::TokenSource;

verus! {

/// The kinds of event that a hook can watch.
#[derive(Clone, Copy, Debug, Hash, PartialEq, Eq, Structural)]
pub enum EventType {
    /// A message appeared in a mailbox: new, appended, moved or copied there.
    EmailAddedToFolder,
    /// The flags of a message changed (the `Recent` flag excepted).
    EmailFlagsChanged,
    /// A message was handed to the SMTP server.
    EmailSentSuccess,
    /// Sending a message to the SMTP server failed; one event per failed try.
    EmailSendingError,
    /// The UID validity of a mailbox changed.
    UIDValidityChange,
    /// A mailbox of the account was deleted.
    MailboxDeletion,
    /// A mailbox was created in the account.
    MailboxCreation,
    /// An account finished its first synchronisation.
    AccountFirstSyncCompleted,
    /// A message bounced.
    EmailBounce,
    /// A feedback report about a message arrived.
    EmailFeedBackReport,
    /// A recipient opened a message.
    EmailOpened,
    /// A recipient followed a link in a message.
    EmailLinkClicked,
}

impl Default for EventType {
    fn default() -> (r: EventType)
        ensures
            r == EventType::EmailAddedToFolder,
    {
        EventType::EmailAddedToFolder
    }
}

/// Every kind of event, in the order in which they are declared.
pub open spec fn all_event_types() -> Seq<EventType> {
    seq![
        EventType::EmailAddedToFolder,
        EventType::EmailFlagsChanged,
        EventType::EmailSentSuccess,
        EventType::EmailSendingError,
        EventType::UIDValidityChange,
        EventType::MailboxDeletion,
        EventType::MailboxCreation,
        EventType::AccountFirstSyncCompleted,
        EventType::EmailBounce,
        EventType::EmailFeedBackReport,
        EventType::EmailOpened,
        EventType::EmailLinkClicked,
    ]
}

/// The name of a kind of event, as it is displayed.
pub open spec fn event_type_name(e: EventType) -> Seq<char> {
    match e {
        EventType::EmailAddedToFolder => "EmailAddedToFolder"@,
        EventType::EmailFlagsChanged => "EmailFlagsChanged"@,
        EventType::EmailSentSuccess => "EmailSentSuccess"@,
        EventType::EmailSendingError => "EmailSendingError"@,
        EventType::UIDValidityChange => "UIDValidityChange"@,
        EventType::MailboxDeletion => "MailboxDeletion"@,
        EventType::MailboxCreation => "MailboxCreation"@,
        EventType::AccountFirstSyncCompleted => "AccountFirstSyncCompleted"@,
        EventType::EmailBounce => "EmailBounce"@,
        EventType::EmailFeedBackReport => "EmailFeedBackReport"@,
        EventType::EmailOpened => "EmailOpened"@,
        EventType::EmailLinkClicked => "EmailLinkClicked"@,
    }
}

impl EventType {
    /// The displayed name of the kind of event.
    pub fn to_string(&self) -> (r: String)
        ensures
            r@ == event_type_name(*self),
    {
        let s = match self {
            EventType::EmailAddedToFolder => "EmailAddedToFolder",
            EventType::EmailFlagsChanged => "EmailFlagsChanged",
            EventType::EmailSentSuccess => "EmailSentSuccess",
            EventType::EmailSendingError => "EmailSendingError",
            EventType::UIDValidityChange => "UIDValidityChange",
            EventType::MailboxDeletion => "MailboxDeletion",
            EventType::MailboxCreation => "MailboxCreation",
            EventType::AccountFirstSyncCompleted => "AccountFirstSyncCompleted",
            EventType::EmailBounce => "EmailBounce",
            EventType::EmailFeedBackReport => "EmailFeedBackReport",
            EventType::EmailOpened => "EmailOpened",
            EventType::EmailLinkClicked => "EmailLinkClicked",
        };
        s.to_owned()
    }
}

/// The data of an event; each variant belongs to one kind of event.
#[derive(Clone, Debug)]
pub enum EventPayload {
    EmailAddedToFolder(EmailAddedToFolder),
    EmailFlagsChanged(EmailFlagsChanged),
    EmailSentSuccess(EmailSentSuccess),
    EmailSendingError(EmailSendingError),
    UIDValidityChange(MailboxChange),
    MailboxDeletion(MailboxDeletion),
    MailboxCreation(MailboxCreation),
    AccountFirstSyncCompleted(AccountChange),
    EmailBounce(EmailBounce),
    EmailFeedBackReport(EmailFeedBackReport),
    EmailOpened(EmailOpened),
    EmailLinkClicked(EmailLinkClicked),
}

/// The address of the account that a payload concerns; campaign events
/// (opens and clicks) carry none.
pub open spec fn payload_account_email(p: EventPayload) -> Option<Seq<char>> {
    match p {
        EventPayload::EmailAddedToFolder(x) => Some(x.account_email@),
        EventPayload::EmailFlagsChanged(x) => Some(x.account_email@),
        EventPayload::EmailSentSuccess(x) => Some(x.account_email@),
        EventPayload::EmailSendingError(x) => Some(x.account_email@),
        EventPayload::UIDValidityChange(x) => Some(x.account_email@),
        EventPayload::MailboxDeletion(x) => Some(x.account_email@),
        EventPayload::MailboxCreation(x) => Some(x.account_email@),
        EventPayload::AccountFirstSyncCompleted(x) => Some(x.account_email@),
        EventPayload::EmailBounce(x) => Some(x.account_email@),
        EventPayload::EmailFeedBackReport(x) => Some(x.account_email@),
        EventPayload::EmailOpened(_) => None,
        EventPayload::EmailLinkClicked(_) => None,
    }
}

/// The kind of event that a payload belongs to.
pub open spec fn payload_kind(p: EventPayload) -> EventType {
    match p {
        EventPayload::EmailAddedToFolder(_) => EventType::EmailAddedToFolder,
        EventPayload::EmailFlagsChanged(_) => EventType::EmailFlagsChanged,
        EventPayload::EmailSentSuccess(_) => EventType::EmailSentSuccess,
        EventPayload::EmailSendingError(_) => EventType::EmailSendingError,
        EventPayload::UIDValidityChange(_) => EventType::UIDValidityChange,
        EventPayload::MailboxDeletion(_) => EventType::MailboxDeletion,
        EventPayload::MailboxCreation(_) => EventType::MailboxCreation,
        EventPayload::AccountFirstSyncCompleted(_) => EventType::AccountFirstSyncCompleted,
        EventPayload::EmailBounce(_) => EventType::EmailBounce,
        EventPayload::EmailFeedBackReport(_) => EventType::EmailFeedBackReport,
        EventPayload::EmailOpened(_) => EventType::EmailOpened,
        EventPayload::EmailLinkClicked(_) => EventType::EmailLinkClicked,
    }
}

/// An event as hooks receive it.
#[derive(Clone, Debug)]
pub struct RustMailerEvent {
    pub event_id: u64,
    pub event_type: EventType,
    /// The public URL of the instance that raised the event.
    pub instance_url: String,
    /// Milliseconds since the Unix epoch.
    pub timestamp: i64,
    pub payload: EventPayload,
}

impl RustMailerEvent {
    /// An event with the given fresh identifier, raised now by the instance at
    /// `instance_url`.
    pub fn new(
        event_type: EventType,
        payload: EventPayload,
        event_id: u64,
        instance_url: String,
        timestamp: i64,
    ) -> (r: RustMailerEvent)
        ensures
            r.event_id == event_id,
            r.event_type == event_type,
            r.payload == payload,
            r.instance_url == instance_url,
            r.timestamp == timestamp,
    {
        RustMailerEvent { event_id, event_type, instance_url, timestamp, payload }
    }
}

fn text(s: &str) -> (r: String)
    ensures
        r@ == s@,
{
    s.to_owned()
}

/// A list of exactly one address, `email`.
pub open spec fn one_recipient(v: Option<Vec<Addr>>, email: Seq<char>) -> bool {
    &&& v is Some
    &&& v->0@.len() == 1
    &&& v->0@[0].address is Some
    &&& v->0@[0].address->0@ == email
}

fn test_user(email: &str) -> (r: Addr)
    ensures
        r.name matches Some(n) && n@ == "Test User"@,
        r.address matches Some(a) && a@ == email@,
{
    Addr { name: Some(text("Test User")), address: Some(text(email)) }
}

fn one_addr(email: &str) -> (r: Vec<Addr>)
    ensures
        r@.len() == 1,
        r@[0].name matches Some(n) && n@ == "Test User"@,
        r@[0].address matches Some(a) && a@ == email@,
{
    let mut v: Vec<Addr> = Vec::new();
    v.push(test_user(email));
    v
}

fn one_text(s: &str) -> (r: Vec<String>)
    ensures
        r@.len() == 1 && r@[0]@ == s@,
{
    let mut v: Vec<String> = Vec::new();
    v.push(text(s));
    v
}

fn two_texts(a: &str, b: &str) -> (r: Vec<String>)
    ensures
        r@.len() == 2 && r@[0]@ == a@ && r@[1]@ == b@,
{
    let mut v: Vec<String> = Vec::new();
    v.push(text(a));
    v.push(text(b));
    v
}

/// The sample values of the example of a message added to a mailbox.
pub open spec fn added_example(p: EmailAddedToFolder, email: Seq<char>, timestamp: i64) -> bool {
    &&& p.account_email@ == email
    &&& p.mailbox_name@ == "INBOX"@
    &&& p.uid == 1001
    &&& p.internal_date == Some(timestamp)
    &&& p.date == Some(timestamp)
    &&& p.size == 2048
    &&& p.flags@.len() == 1 && p.flags@[0]@ == "\\Seen"@
    &&& p.bcc is None
    &&& p.from matches Some(a) && a.address matches Some(x) && x@ == "sender@example.com"@
    &&& one_recipient(p.to, "recipient@example.com"@)
    &&& one_recipient(p.cc, "cc@example.com"@)
    &&& p.message_id matches Some(m) && m@ == "<msg456@server.com>"@
    &&& p.subject matches Some(m) && m@ == "Meeting Notes"@
    &&& p.attachments matches Some(v) && v@.len() == 1 && v@[0].size == 1024
        && v@[0].file_type@ == "application/pdf"@
}

/// The sample values of the example of changed flags.
pub open spec fn flags_example(p: EmailFlagsChanged, email: Seq<char>, timestamp: i64) -> bool {
    &&& p.account_email@ == email
    &&& p.mailbox_name@ == "INBOX"@
    &&& p.uid == 1003
    &&& p.internal_date == Some(timestamp)
    &&& p.date == Some(timestamp)
    &&& p.from matches Some(a) && a.address matches Some(x) && x@ == "sender@example.com"@
    &&& one_recipient(p.to, "recipient@example.com"@)
    &&& p.message_id matches Some(m) && m@ == "<msg101@server.com>"@
    &&& p.subject matches Some(m) && m@ == "Updated Email"@
    &&& p.flags_added@.len() == 1 && p.flags_added@[0]@ == "\\Seen"@
    &&& p.flags_removed@.len() == 1 && p.flags_removed@[0]@ == "\\Flagged"@
}

/// The sample values of the example of a sent message.
pub open spec fn sent_example(p: EmailSentSuccess, email: Seq<char>) -> bool {
    &&& p.account_email@ == email
    &&& p.from@ == "user@example.com"@
    &&& p.to@.len() == 1 && p.to@[0]@ == "recipient@example.com"@
    &&& p.subject matches Some(m) && m@ == "Confirmation Email"@
    &&& p.message_id@ == "<msg202@server.com>"@
}

/// The sample values of the example of a failed send.
pub open spec fn send_error_example(p: EmailSendingError, email: Seq<char>, timestamp: i64) -> bool {
    &&& p.account_email@ == email
    &&& p.from@ == "user@example.com"@
    &&& p.to@.len() == 1 && p.to@[0]@ == "recipient@example.com"@
    &&& p.subject matches Some(m) && m@ == "Failed Email"@
    &&& p.message_id@ == "<msg303@server.com>"@
    &&& p.error_msg matches Some(m) && m@ == "SMTP timeout"@
    &&& p.retry_count == Some(2usize)
    &&& p.scheduled_at == Some(timestamp)
    &&& p.max_retries == Some(5u32)
}

/// The sample values of the example of a bounce.
pub open spec fn bounce_example(p: EmailBounce, email: Seq<char>, timestamp: i64) -> bool {
    &&& p.account_email@ == email
    &&& p.mailbox_name@ == "INBOX"@
    &&& p.uid == 1004
    &&& p.internal_date == Some(timestamp)
    &&& p.date == Some(timestamp)
    &&& p.subject matches Some(m) && m@ == "Undeliverable Email"@
    &&& one_recipient(p.to, "recipient@example.com"@)
    &&& p.original_headers matches Some(h) && h.subject matches Some(m) && m@ == "Meeting Notes"@
    &&& p.delivery_status matches Some(d) && d.status matches Some(m) && m@ == "5.0.0"@
}

/// The sample values of the example of a feedback report.
pub open spec fn feedback_example(p: EmailFeedBackReport, email: Seq<char>, timestamp: i64) -> bool {
    &&& p.account_email@ == email
    &&& p.mailbox_name@ == "INBOX"@
    &&& p.uid == 1004
    &&& p.internal_date == Some(timestamp)
    &&& p.date == Some(timestamp)
    &&& p.original_headers matches Some(h) && h.subject matches Some(m) && m@ == "Meeting Notes"@
    &&& p.feedback_report matches Some(f) && f.feedback_type matches Some(m) && m@ == "abuse"@
}

/// The sample values of the example of an opened campaign message.
pub open spec fn opened_example(p: EmailOpened) -> bool {
    &&& p.campaign_id@ == "camp_67890"@
    &&& p.recipient@ == "jane.doe@company.org"@
    &&& p.message_id@ == "msg_4567"@
}

/// The sample values of the example of a clicked campaign link.
pub open spec fn clicked_example(p: EmailLinkClicked) -> bool {
    &&& p.campaign_id@ == "camp_67890"@
    &&& p.recipient@ == "jane.doe@company.org"@
    &&& p.message_id@ == "msg_4567"@
    &&& p.url@ == "https://example.com/unsubscribe"@
}

/// The sample values of an example payload for the account `email`, raised at
/// `timestamp`.
pub open spec fn example_spec(p: EventPayload, email: Seq<char>, timestamp: i64) -> bool {
    match p {
        EventPayload::EmailAddedToFolder(x) => added_example(x, email, timestamp),
        EventPayload::EmailFlagsChanged(x) => flags_example(x, email, timestamp),
        EventPayload::EmailSentSuccess(x) => sent_example(x, email),
        EventPayload::EmailSendingError(x) => send_error_example(x, email, timestamp),
        EventPayload::UIDValidityChange(x) => x.account_email@ == email && x.mailbox_name@
            == "INBOX"@,
        EventPayload::MailboxDeletion(x) => x.account_email@ == email && x.mailbox_names@.len()
            == 1 && x.mailbox_names@[0]@ == "Trash"@,
        EventPayload::MailboxCreation(x) => x.account_email@ == email && x.mailbox_names@.len()
            == 1 && x.mailbox_names@[0]@ == "Projects"@,
        EventPayload::AccountFirstSyncCompleted(x) => x.account_email@ == email,
        EventPayload::EmailBounce(x) => bounce_example(x, email, timestamp),
        EventPayload::EmailFeedBackReport(x) => feedback_example(x, email, timestamp),
        EventPayload::EmailOpened(x) => opened_example(x),
        EventPayload::EmailLinkClicked(x) => clicked_example(x),
    }
}

/// The headers of the message that the bounce and feedback examples refer to:
/// a fresh message id, then a fixed subject, sender, two recipients and date.
fn example_headers<T: TokenSource>(tokens: &mut T) -> (r: RawEmailHeaders)
    ensures
        r.message_id is Some,
        r.subject matches Some(s) && s@ == "Meeting Notes"@,
        r.from matches Some(f) && f@ == "sender@example.com"@,
        r.to matches Some(t) && t@.len() == 2 && t@[0]@ == "recipient1@example.com"@
            && t@[1]@ == "recipient2@example.com"@,
        r.date == Some(1697059200000i64),
{
    RawEmailHeaders {
        message_id: Some(tokens.next_token(96)),
        subject: Some(text("Meeting Notes")),
        from: Some(text("sender@example.com")),
        to: Some(two_texts("recipient1@example.com", "recipient2@example.com")),
        date: Some(1697059200000),
    }
}

fn example_added<T: TokenSource>(tokens: &mut T, email: &str, timestamp: i64) -> (r: EventPayload)
    ensures
        r matches EventPayload::EmailAddedToFolder(p) && added_example(p, email@, timestamp),
{
    let mut attachments: Vec<Attachment> = Vec::new();
    attachments.push(
        Attachment {
            filename: Some(text("notes.pdf")),
            inline: false,
            size: 1024,
            file_type: text("application/pdf"),
        },
    );
    EventPayload::EmailAddedToFolder(
        EmailAddedToFolder {
            account_id: tokens.next_id(64),
            account_email: text(email),
            mailbox_name: text("INBOX"),
            uid: 1001,
            internal_date: Some(timestamp),
            date: Some(timestamp),
            size: 2048,
            flags: one_text("\\Seen"),
            cc: Some(one_addr("cc@example.com")),
            bcc: None,
            from: Some(test_user("sender@example.com")),
            in_reply_to: Some(text("<msg123@server.com>")),
            sender: Some(test_user("sender@example.com")),
            message_id: Some(text("<msg456@server.com>")),
            subject: Some(text("Meeting Notes")),
            message: FullMessageContent {
                plain: Some(
                    PlainText { content: text("Welcome to use rustmailer!"), truncated: false },
                ),
                html: Some(text("<p>Welcome to use rustmailer!</p>")),
                attachments: None,
            },
            thread_name: Some(text("Meeting Thread")),
            reply_to: Some(one_addr("reply@example.com")),
            to: Some(one_addr("recipient@example.com")),
            attachments: Some(attachments),
        },
    )
}

fn example_flags<T: TokenSource>(tokens: &mut T, email: &str, timestamp: i64) -> (r: EventPayload)
    ensures
        r matches EventPayload::EmailFlagsChanged(p) && flags_example(p, email@, timestamp),
{
    EventPayload::EmailFlagsChanged(
        EmailFlagsChanged {
            account_id: tokens.next_id(64),
            account_email: text(email),
            mailbox_name: text("INBOX"),
            uid: 1003,
            from: Some(test_user("sender@example.com")),
            to: Some(one_addr("recipient@example.com")),
            message_id: Some(text("<msg101@server.com>")),
            subject: Some(text("Updated Email")),
            internal_date: Some(timestamp),
            date: Some(timestamp),
            flags_added: one_text("\\Seen"),
            flags_removed: one_text("\\Flagged"),
        },
    )
}

fn example_sent<T: TokenSource>(tokens: &mut T, email: &str) -> (r: EventPayload)
    ensures
        r matches EventPayload::EmailSentSuccess(p) && sent_example(p, email@),
{
    EventPayload::EmailSentSuccess(
        EmailSentSuccess {
            account_id: tokens.next_id(64),
            account_email: text(email),
            from: text("user@example.com"),
            to: one_text("recipient@example.com"),
            subject: Some(text("Confirmation Email")),
            message_id: text("<msg202@server.com>"),
        },
    )
}

fn example_send_error<T: TokenSource>(tokens: &mut T, email: &str, timestamp: i64) -> (r:
    EventPayload)
    ensures
        r matches EventPayload::EmailSendingError(p) && send_error_example(p, email@, timestamp),
{
    let account_id = tokens.next_id(64);
    let task_id = tokens.next_id(96);
    EventPayload::EmailSendingError(
        EmailSendingError {
            account_id,
            account_email: text(email),
            from: text("user@example.com"),
            to: one_text("recipient@example.com"),
            subject: Some(text("Failed Email")),
            message_id: text("<msg303@server.com>"),
            error_msg: Some(text("SMTP timeout")),
            retry_count: Some(2),
            scheduled_at: Some(timestamp),
            task_id,
            max_retries: Some(5),
        },
    )
}

fn example_bounce<T: TokenSource>(tokens: &mut T, email: &str, timestamp: i64) -> (r: EventPayload)
    ensures
        r matches EventPayload::EmailBounce(p) && bounce_example(p, email@, timestamp),
{
    let account_id = tokens.next_id(64);
    let headers = example_headers(tokens);
    EventPayload::EmailBounce(
        EmailBounce {
            account_id,
            account_email: text(email),
            mailbox_name: text("INBOX"),
            uid: 1004,
            internal_date: Some(timestamp),
            date: Some(timestamp),
            from: Some(test_user("sender@example.com")),
            subject: Some(text("Undeliverable Email")),
            to: Some(one_addr("recipient@example.com")),
            original_headers: Some(headers),
            delivery_status: Some(
                DeliveryStatus {
                    recipient: Some(text("user@example.com")),
                    action: Some(text("failed")),
                    status: Some(text("5.0.0")),
                    error_source: Some(text("remote-mta")),
                    diagnostic_code: Some(text("smtp; 550 5.1.1 User unknown")),
                    remote_mta: Some(text("mail.example.com")),
                    reporting_mta: Some(text("mx1.example.org")),
                    received_from_mta: Some(text("localhost")),
                    postfix_queue_id: Some(text("ABCDEF12345")),
                    arrival_date: Some(text("2023-05-15T14:32:18Z")),
                    original_message_id: Some(text("<123456789@example.org>")),
                    postfix_sender: Some(text("sender@example.org")),
                },
            ),
        },
    )
}

fn example_feedback<T: TokenSource>(tokens: &mut T, email: &str, timestamp: i64) -> (r:
    EventPayload)
    ensures
        r matches EventPayload::EmailFeedBackReport(p) && feedback_example(p, email@, timestamp),
{
    let account_id = tokens.next_id(64);
    let headers = example_headers(tokens);
    EventPayload::EmailFeedBackReport(
        EmailFeedBackReport {
            account_id,
            account_email: text(email),
            mailbox_name: text("INBOX"),
            uid: 1004,
            internal_date: Some(timestamp),
            date: Some(timestamp),
            from: Some(test_user("sender@example.com")),
            subject: Some(text("Undeliverable Email")),
            to: Some(one_addr("recipient@example.com")),
            original_headers: Some(headers),
            feedback_report: Some(
                FeedbackReport {
                    feedback_type: Some(text("abuse")),
                    version: Some(text("1.0")),
                    user_agent: None,
                    original_mail_from: Some(text("sender@example.com")),
                    original_rcpt_to: Some(text("recipient@example.com")),
                    original_envelope_id: None,
                    received_date: Some(text("2023-10-12")),
                    reported_domain: Some(text("example.com")),
                    reported_uri: None,
                    reporting_mta: Some(text("mta.example.com")),
                    source_ip: Some(text("192.168.1.1")),
                    source_port: None,
                    spf_dns: None,
                    delivery_result: Some(text("failed")),
                    authentication_results: None,
                    auth_failure: None,
                    arrival_date: Some(text("2023-10-12T10:00:00Z")),
                },
            ),
        },
    )
}

fn example_opened() -> (r: EventPayload)
    ensures
        r matches EventPayload::EmailOpened(p) && opened_example(p),
{
    EventPayload::EmailOpened(
        EmailOpened {
            campaign_id: text("camp_67890"),
            recipient: text("jane.doe@company.org"),
            message_id: text("msg_4567"),
            user_agent: text(
                "Mozilla/5.0 (iPhone; CPU iPhone OS 16_0 like Mac OS X) Mobile/15E148",
            ),
            remote_ip: Some(text("203.0.113.10")),
        },
    )
}

fn example_clicked() -> (r: EventPayload)
    ensures
        r matches EventPayload::EmailLinkClicked(p) && clicked_example(p),
{
    EventPayload::EmailLinkClicked(
        EmailLinkClicked {
            campaign_id: text("camp_67890"),
            recipient: text("jane.doe@company.org"),
            message_id: text("msg_4567"),
            url: text("https://example.com/unsubscribe"),
            remote_ip: Some(text("203.0.113.10")),
            user_agent: text(
                "Mozilla/5.0 (iPhone; CPU iPhone OS 16_0 like Mac OS X) Mobile/15E148",
            ),
        },
    )
}

/// The example payload of one kind of event.
fn example_payload<T: TokenSource>(tokens: &mut T, kind: EventType, timestamp: i64) -> (r:
    EventPayload)
    ensures
        payload_kind(r) == kind,
        example_spec(r, "user@example.com"@, timestamp),
        payload_account_email(r) == (if kind == EventType::EmailOpened || kind
            == EventType::EmailLinkClicked {
            None
        } else {
            Some("user@example.com"@)
        }),
{
    let email = "user@example.com";
    match kind {
        EventType::EmailAddedToFolder => example_added(tokens, email, timestamp),
        EventType::EmailFlagsChanged => example_flags(tokens, email, timestamp),
        EventType::EmailSentSuccess => example_sent(tokens, email),
        EventType::EmailSendingError => example_send_error(tokens, email, timestamp),
        EventType::UIDValidityChange => EventPayload::UIDValidityChange(
            MailboxChange {
                account_id: tokens.next_id(64),
                account_email: text(email),
                mailbox_name: text("INBOX"),
            },
        ),
        EventType::MailboxDeletion => EventPayload::MailboxDeletion(
            MailboxDeletion {
                account_id: tokens.next_id(64),
                account_email: text(email),
                mailbox_names: one_text("Trash"),
            },
        ),
        EventType::MailboxCreation => EventPayload::MailboxCreation(
            MailboxCreation {
                account_id: tokens.next_id(64),
                account_email: text(email),
                mailbox_names: one_text("Projects"),
            },
        ),
        EventType::AccountFirstSyncCompleted => EventPayload::AccountFirstSyncCompleted(
            AccountChange { account_id: tokens.next_id(64), account_email: text(email) },
        ),
        EventType::EmailBounce => example_bounce(tokens, email, timestamp),
        EventType::EmailFeedBackReport => example_feedback(tokens, email, timestamp),
        EventType::EmailOpened => example_opened(),
        EventType::EmailLinkClicked => example_clicked(),
    }
}

fn all_event_types_exec() -> (r: Vec<EventType>)
    ensures
        r@ == all_event_types(),
{
    let r = vec![
        EventType::EmailAddedToFolder,
        EventType::EmailFlagsChanged,
        EventType::EmailSentSuccess,
        EventType::EmailSendingError,
        EventType::UIDValidityChange,
        EventType::MailboxDeletion,
        EventType::MailboxCreation,
        EventType::AccountFirstSyncCompleted,
        EventType::EmailBounce,
        EventType::EmailFeedBackReport,
        EventType::EmailOpened,
        EventType::EmailLinkClicked,
    ];
    assert(r@ =~= all_event_types());
    r
}

/// One example event of every kind, in the order of [`all_event_types`], each
/// raised at `timestamp` by the instance at `instance_url`, with fresh
/// identifiers drawn from `tokens`; the payload of each belongs to its kind
/// and, except for the campaign events, concerns the account
/// `user@example.com`.
pub fn event_examples<T: TokenSource>(tokens: &mut T, timestamp: i64, instance_url: &str) -> (r:
    Vec<RustMailerEvent>)
    ensures
        r@.len() == all_event_types().len(),
        forall|i: int|
            0 <= i < r@.len() ==> {
                &&& (#[trigger] r@[i]).event_type == all_event_types()[i]
                &&& payload_kind(r@[i].payload) == r@[i].event_type
                &&& r@[i].instance_url@ == instance_url@
                &&& r@[i].timestamp == timestamp
                &&& example_spec(r@[i].payload, "user@example.com"@, timestamp)
                &&& payload_account_email(r@[i].payload) == (if r@[i].event_type
                    == EventType::EmailOpened || r@[i].event_type == EventType::EmailLinkClicked {
                    None
                } else {
                    Some("user@example.com"@)
                })
            },
{
    let kinds = all_event_types_exec();
    let mut r: Vec<RustMailerEvent> = Vec::new();
    let mut i: usize = 0;
    while i < kinds.len()
        invariant
            kinds@ == all_event_types(),
            i <= kinds@.len(),
            r@.len() == i,
            forall|j: int|
                0 <= j < i ==> {
                    &&& (#[trigger] r@[j]).event_type == all_event_types()[j]
                    &&& payload_kind(r@[j].payload) == r@[j].event_type
                    &&& r@[j].instance_url@ == instance_url@
                    &&& r@[j].timestamp == timestamp
                    &&& example_spec(r@[j].payload, "user@example.com"@, timestamp)
                    &&& payload_account_email(r@[j].payload) == (if r@[j].event_type
                        == EventType::EmailOpened || r@[j].event_type
                        == EventType::EmailLinkClicked {
                        None
                    } else {
                        Some("user@example.com"@)
                    })
                },
        decreases kinds.len() - i,
    {
        let kind = kinds[i];
        let event_id = tokens.next_id(96);
        let payload = example_payload(tokens, kind, timestamp);
        r.push(
            RustMailerEvent {
                event_id,
                event_type: kind,
                instance_url: instance_url.to_owned(),
                timestamp,
                payload,
            },
        );
        i = i + 1;
    }
    r
}

} // verus!
