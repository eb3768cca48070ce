//! Requests that change the flags of messages.
use vstd::prelude::*;
use crate::imap::EnvelopeFlags;
use crate::message::RequestError;

verus! {

/// What to do to the flags of the messages: add, remove, or replace them.
#[derive(Clone, Debug, Default, PartialEq, Eq)]
pub struct FlagAction {
    pub add: Option<Vec<EnvelopeFlags>>,
    pub remove: Option<Vec<EnvelopeFlags>>,
    pub overwrite: Option<Vec<EnvelopeFlags>>,
}

impl FlagAction {
    /// At least one of the three lists must be given.
    pub fn validate(&self) -> (r: Result<(), RequestError>)
        ensures
            r == (if self.add is Some || self.remove is Some || self.overwrite is Some {
                Ok::<(), RequestError>(())
            } else {
                Err(RequestError::NoFlagAction)
            }),
    {
        if self.add.is_none() && self.remove.is_none() && self.overwrite.is_none() {
            return Err(RequestError::NoFlagAction);
        }
        Ok(())
    }
}

/// Request to change the flags of some messages of one mailbox.
#[derive(Clone, Debug, Default, PartialEq, Eq)]
pub struct FlagMessageRequest {
    pub uids: Vec<u32>,
    pub mailbox: String,
    pub action: FlagAction,
}

impl FlagMessageRequest {
    /// The UID list must not be empty, and the action must say what to do.
    pub fn validate(&self) -> (r: Result<(), RequestError>)
        ensures
            self.uids@.len() == 0 ==> r == Err::<(), RequestError>(RequestError::EmptyUids),
            self.uids@.len() > 0 ==> r == (if self.action.add is Some || self.action.remove is Some
                || self.action.overwrite is Some {
                Ok::<(), RequestError>(())
            } else {
                Err(RequestError::NoFlagAction)
            }),
    {
        if self.uids.len() == 0 {
            return Err(RequestError::EmptyUids);
        }
        self.action.validate()
    }
}

} // verus!
