//! Copying messages between mailboxes.
use vstd::prelude::*;

verus! {

/// Request to copy messages, given by UID, from one mailbox to another.
#[derive(Clone, Debug, Default, PartialEq, Eq)]
pub struct MailboxTransferRequest {
    pub uids: Vec<u32>,
    pub current_mailbox: String,
    pub target_mailbox: String,
}

} // verus!
