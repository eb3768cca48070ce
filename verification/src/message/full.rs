//! Raw (RFC 822) message downloads.
use vstd::prelude::*;
use crate::message::{is_u32_text, parse_uid, MailerType, RequestError};
use crate::text::{decimal, u64_to_decimal};

verus! {

/// Messages larger than 55 MB are not downloaded whole.
pub const MAX_EMAIL_TOTAL_SIZE: u32 = 57671680;

/// Request for the raw source of a message.
#[derive(Clone, Debug, Default, PartialEq, Eq)]
pub struct FullMessageRequest {
    pub mailbox: String,
    pub filename: String,
    pub uid: u32,
    pub max_length: Option<usize>,
}

pub open spec fn raw_email_key(account_id: u64, mailbox_name: Seq<char>, uid: u32) -> Seq<char> {
    "imap_raw_email_"@ + decimal(account_id as nat) + "_"@ + mailbox_name + "_"@ + decimal(
        uid as nat,
    )
}

/// The cache key of the raw source of an IMAP message.
pub fn raw_email_diskcache_key(account_id: u64, mailbox_name: &str, uid: u32) -> (r: String)
    ensures
        r@ == raw_email_key(account_id, mailbox_name@, uid),
{
    let mut s = "imap_raw_email_".to_owned();
    s.append(u64_to_decimal(account_id).as_str());
    s.append("_");
    s.append(mailbox_name);
    s.append("_");
    s.append(u64_to_decimal(uid as u64).as_str());
    s
}

/// The cache key of the raw source of a Gmail message.
pub fn gmail_raw_email_diskcache_key(account_id: u64, mid: &str) -> (r: String)
    ensures
        r@ == "gmail_raw_email_"@ + decimal(account_id as nat) + "_"@ + mid@,
{
    let mut s = "gmail_raw_email_".to_owned();
    s.append(u64_to_decimal(account_id).as_str());
    s.append("_");
    s.append(mid);
    s
}

/// Where a raw download is to be read from.
#[derive(Clone, Debug, PartialEq, Eq)]
pub enum RawEmailSource {
    /// An IMAP message: its mailbox and UID.
    Imap { mailbox: String, uid: u32 },
    /// A Gmail message id.
    Gmail { mid: String },
}

/// Decides where a raw download comes from: IMAP accounts need a mailbox and a
/// numeric UID; Gmail accounts take the id as the message id.
pub fn raw_email_source(mailer: MailerType, mailbox: Option<&str>, id: &str) -> (r: Result<
    RawEmailSource,
    RequestError,
>)
    requires
        mailer != MailerType::GraphApi,
    ensures
        mailer == MailerType::GmailApi ==> (r matches Ok(RawEmailSource::Gmail { mid }) && mid@
            == id@),
        mailer == MailerType::ImapSmtp ==> match mailbox {
            None => r == Err::<RawEmailSource, RequestError>(RequestError::MailboxRequired),
            Some(m) => if is_u32_text(id@) {
                r matches Ok(RawEmailSource::Imap { mailbox: mb, uid }) && mb@ == m@
                    && crate::text::parse_unsigned(id@, u32::MAX as nat) == Some(uid as nat)
            } else {
                r == Err::<RawEmailSource, RequestError>(RequestError::InvalidImapUid)
            },
        },
{
    match mailer {
        MailerType::GmailApi => Ok(RawEmailSource::Gmail { mid: id.to_owned() }),
        _ => {
            let m = match mailbox {
                Some(m) => m,
                None => return Err(RequestError::MailboxRequired),
            };
            match parse_uid(id) {
                Some(uid) => Ok(RawEmailSource::Imap { mailbox: m.to_owned(), uid }),
                None => Err(RequestError::InvalidImapUid),
            }
        },
    }
}

/// Whether a message of `size` bytes is too large to download whole.
pub fn exceeds_email_limit(size: u32) -> (r: bool)
    ensures
        r == (size > MAX_EMAIL_TOTAL_SIZE),
{
    size > MAX_EMAIL_TOTAL_SIZE
}

} // verus!
