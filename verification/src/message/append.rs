//! Saving a reply to a message as a draft: the request's rules and the parts
//! of the reply that follow from the original message.
use vstd::prelude::*;
use crate::address::{copy_addr, copy_addrs, Addr};
use crate::message::delete::MailboxRoles;
use crate::message::{is_u32_text, parse_uid, RequestError};
use crate::text::concat_str;

verus! {

/// Request to save a reply to a message as a draft.
#[derive(Clone, Debug, PartialEq, Eq)]
pub struct AppendReplyToDraftRequest {
    /// The mailbox (IMAP) or label (Gmail API) holding the original message.
    pub mailbox_name: Option<String>,
    /// The IMAP UID as decimal text, or the API message id.
    pub id: String,
    pub preview: Option<String>,
    pub text: Option<String>,
    pub html: Option<String>,
}

/// Where the draft was saved.
#[derive(Clone, Debug, Default, PartialEq, Eq)]
pub struct ReplyDraft {
    /// The UID (IMAP) or message id (APIs) of the draft.
    pub id: String,
    /// The drafts folder or label.
    pub draft_folder: String,
}

/// IMAP accounts need a numeric UID and a non-empty mailbox name, checked in
/// that order; API accounts need neither.
pub open spec fn reply_request_check(r: AppendReplyToDraftRequest, gmail_or_graph: bool) -> Result<
    (),
    RequestError,
> {
    if gmail_or_graph {
        Ok(())
    } else if !is_u32_text(r.id@) {
        Err(RequestError::InvalidImapUid)
    } else if !(r.mailbox_name matches Some(m) && m@.len() > 0) {
        Err(RequestError::MailboxNameRequired)
    } else {
        Ok(())
    }
}

impl AppendReplyToDraftRequest {
    pub fn validate(&self, gmail_or_graph: bool) -> (r: Result<(), RequestError>)
        ensures
            r == reply_request_check(*self, gmail_or_graph),
    {
        if !gmail_or_graph {
            if parse_uid(self.id.as_str()).is_none() {
                return Err(RequestError::InvalidImapUid);
            }
            let missing = match &self.mailbox_name {
                Some(m) => m.as_str().is_empty(),
                None => true,
            };
            if missing {
                return Err(RequestError::MailboxNameRequired);
            }
        }
        Ok(())
    }
}

/// Who a reply goes to: the `Reply-To` addresses when there are any, else the
/// sender; without either the reply cannot be written.
pub open spec fn reply_recipients_spec(reply_to: Option<Vec<Addr>>, from: Option<Addr>) -> Option<
    Seq<Addr>,
> {
    match reply_to {
        Some(v) if v@.len() > 0 => Some(v@),
        _ => match from {
            Some(a) => Some(seq![a]),
            None => None,
        },
    }
}

pub fn reply_recipients(reply_to: &Option<Vec<Addr>>, from: &Option<Addr>) -> (r: Result<
    Vec<Addr>,
    RequestError,
>)
    ensures
        match reply_recipients_spec(*reply_to, *from) {
            Some(to) => r matches Ok(v) && v@ == to,
            None => r == Err::<Vec<Addr>, RequestError>(RequestError::ReplyRecipientsMissing),
        },
{
    if let Some(v) = reply_to {
        if v.len() > 0 {
            return Ok(copy_addrs(v));
        }
    }
    match from {
        Some(a) => {
            let mut v: Vec<Addr> = Vec::new();
            v.push(copy_addr(a));
            assert(v@ =~= seq![*a]);
            Ok(v)
        },
        None => Err(RequestError::ReplyRecipientsMissing),
    }
}

/// The subject of a reply: `Re: ` and the original subject, or `Re: ` alone.
pub open spec fn reply_subject_spec(subject: Option<Seq<char>>) -> Seq<char> {
    match subject {
        Some(s) => "Re: "@ + s,
        None => "Re: "@,
    }
}

pub fn reply_subject(subject: Option<&str>) -> (r: String)
    ensures
        r@ == reply_subject_spec(
            match subject {
                Some(s) => Some(s@),
                None => None,
            },
        ),
{
    match subject {
        Some(s) => concat_str("Re: ", s),
        None => "Re: ".to_owned(),
    }
}

/// The first mailbox that carries the drafts role.
pub fn drafts_mailbox(mailboxes: &Vec<MailboxRoles>) -> (r: Option<usize>)
    ensures
        match r {
            Some(i) => i < mailboxes@.len() && mailboxes@[i as int].drafts && forall|j: int|
                0 <= j < i ==> !(#[trigger] mailboxes@[j]).drafts,
            None => forall|j: int| 0 <= j < mailboxes@.len() ==> !(#[trigger] mailboxes@[j]).drafts,
        },
{
    let mut i: usize = 0;
    while i < mailboxes.len()
        invariant
            i <= mailboxes@.len(),
            forall|j: int| 0 <= j < i ==> !(#[trigger] mailboxes@[j]).drafts,
        decreases mailboxes.len() - i,
    {
        if mailboxes[i].drafts {
            return Some(i);
        }
        i = i + 1;
    }
    None
}

} // verus!
