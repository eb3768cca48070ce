//! Moving and copying messages, for IMAP and Gmail API accounts.
use vstd::prelude::*;
use crate::message::{is_u32_text, parse_uid_list, MailerType, RequestError};
use crate::text::parse_unsigned;

verus! {

/// Request to move or copy messages, given by IMAP UID or Gmail message id.
#[derive(Clone, Debug, Default, PartialEq, Eq)]
pub struct MailboxTransferRequest {
    pub ids: Vec<String>,
    pub current_mailbox: String,
    pub target_mailbox: String,
}

#[derive(Clone, Copy, Debug, PartialEq, Eq, Structural)]
pub enum MessageTransfer {
    Move,
    Copy,
}

impl Default for MessageTransfer {
    fn default() -> (r: MessageTransfer)
        ensures
            r == MessageTransfer::Move,
    {
        MessageTransfer::Move
    }
}

/// Gmail's `batchModify` takes at most this many ids.
pub const GMAIL_BATCH_LIMIT: usize = 500;

/// The UIDs of an IMAP transfer: at least one, and every id a number.
pub fn imap_transfer_uids(payload: &MailboxTransferRequest) -> (r: Result<Vec<u32>, RequestError>)
    ensures
        payload.ids@.len() == 0 ==> r == Err::<Vec<u32>, RequestError>(RequestError::EmptyIds),
        r matches Ok(v) ==> v@.len() == payload.ids@.len() && forall|i: int|
            0 <= i < v@.len() ==> parse_unsigned(#[trigger] payload.ids@[i]@, u32::MAX as nat)
                == Some(v@[i] as nat),
        (payload.ids@.len() > 0 && forall|i: int|
            0 <= i < payload.ids@.len() ==> is_u32_text(#[trigger] payload.ids@[i]@)) ==> r is Ok,
{
    parse_uid_list(&payload.ids)
}

/// A Gmail transfer names between one and 500 messages.
pub fn check_gmail_ids(payload: &MailboxTransferRequest) -> (r: Result<(), RequestError>)
    ensures
        r == (if payload.ids@.len() == 0 {
            Err(RequestError::GmailIdsRequired)
        } else if payload.ids@.len() > 500 {
            Err(RequestError::TooManyGmailIds(payload.ids@.len() as usize))
        } else {
            Ok::<(), RequestError>(())
        }),
{
    if payload.ids.len() == 0 {
        return Err(RequestError::GmailIdsRequired);
    }
    if payload.ids.len() > GMAIL_BATCH_LIMIT {
        return Err(RequestError::TooManyGmailIds(payload.ids.len()));
    }
    Ok(())
}

/// The labels a Gmail transfer adds and removes, given the label ids found for
/// the target and current mailbox names: a copy adds the target label; a move
/// also removes the current one. A missing label is named in the error.
pub fn gmail_label_changes(
    transfer: MessageTransfer,
    payload: &MailboxTransferRequest,
    target_label: Option<&str>,
    current_label: Option<&str>,
) -> (r: Result<(Vec<String>, Vec<String>), RequestError>)
    ensures
        match target_label {
            None => r matches Err(RequestError::TargetLabelNotFound(n)) && n@
                == payload.target_mailbox@,
            Some(t) => match transfer {
                MessageTransfer::Copy => r matches Ok((add, remove)) && add@.len() == 1 && add@[0]@
                    == t@ && remove@.len() == 0,
                MessageTransfer::Move => match current_label {
                    None => r matches Err(RequestError::CurrentLabelNotFound(n)) && n@
                        == payload.current_mailbox@,
                    Some(c) => r matches Ok((add, remove)) && add@.len() == 1 && add@[0]@ == t@
                        && remove@.len() == 1 && remove@[0]@ == c@,
                },
            },
        },
{
    let t = match target_label {
        Some(t) => t,
        None => return Err(RequestError::TargetLabelNotFound(payload.target_mailbox.clone())),
    };
    let mut add: Vec<String> = Vec::new();
    add.push(t.to_owned());
    let mut remove: Vec<String> = Vec::new();
    match transfer {
        MessageTransfer::Copy => {},
        MessageTransfer::Move => match current_label {
            Some(c) => remove.push(c.to_owned()),
            None => return Err(RequestError::CurrentLabelNotFound(payload.current_mailbox.clone())),
        },
    }
    Ok((add, remove))
}

} // verus!
