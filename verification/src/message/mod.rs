//! Message-level requests: their validation rules and the keys under which
//! fetched content is cached.
pub mod append;
pub mod attachment;
pub mod content;
pub mod copy;
pub mod delete;
pub mod flag;
pub mod full;
pub mod inline;
pub mod list;
pub mod searching;
pub mod transfer;
pub mod unified;

use vstd::prelude::*;
use crate::text::{chars_of, parse_unsigned, parse_unsigned_chars};

verus! {

/// How an account talks to its mail server.
#[derive(Clone, Copy, Debug, PartialEq, Eq, Structural)]
pub enum MailerType {
    ImapSmtp,
    GmailApi,
    GraphApi,
}

/// Why a message request is refused; every one of them is an invalid-parameter
/// error.
#[derive(Clone, Debug, PartialEq, Eq)]
pub enum RequestError {
    ImapAttachmentFieldsRequired,
    InvalidImapUid,
    AttachmentInfoRequired,
    MailboxRequired,
    SectionsRequired,
    MailboxNotAllowed,
    SectionsNotAllowed,
    InlineNotAllowed,
    MailboxNameRequired,
    EmptyUids,
    NoFlagAction,
    PageParamsZero,
    PageSizeZero,
    PageSizeTooLarge,
    EmptyIds,
    InvalidUid(String),
    GmailIdsRequired,
    TooManyGmailIds(usize),
    TargetLabelNotFound(String),
    CurrentLabelNotFound(String),
    ReplyRecipientsMissing,
    NewNameRequired,
    NameOrColorRequired,
    InvalidPageToken,
}

/// `str::parse::<u32>` succeeds on `s`.
pub open spec fn is_u32_text(s: Seq<char>) -> bool {
    parse_unsigned(s, u32::MAX as nat) is Some
}

/// Parses an IMAP UID (`str::parse::<u32>`).
pub fn parse_uid(s: &str) -> (r: Option<u32>)
    ensures
        r matches Some(u) ==> parse_unsigned(s@, u32::MAX as nat) == Some(u as nat),
        r is None ==> parse_unsigned(s@, u32::MAX as nat) is None,
{
    let v = chars_of(s);
    match parse_unsigned_chars(&v, u32::MAX as u64) {
        Some(u) => Some(u as u32),
        None => None,
    }
}

/// Parses a list of IMAP UIDs given as text: an empty list is refused, and so is
/// the list when one of its ids is not a number (the first such id is named).
pub fn parse_uid_list(ids: &Vec<String>) -> (r: Result<Vec<u32>, RequestError>)
    ensures
        ids@.len() == 0 ==> r == Err::<Vec<u32>, RequestError>(RequestError::EmptyIds),
        r matches Ok(v) ==> ids@.len() > 0 && v@.len() == ids@.len() && forall|i: int|
            0 <= i < v@.len() ==> parse_unsigned(#[trigger] ids@[i]@, u32::MAX as nat) == Some(
                v@[i] as nat,
            ),
        (ids@.len() > 0 && forall|i: int| 0 <= i < ids@.len() ==> is_u32_text(#[trigger] ids@[i]@))
            ==> r is Ok,
        r matches Err(RequestError::InvalidUid(s)) ==> exists|k: int|
            0 <= k < ids@.len() && s@ == (#[trigger] ids@[k])@ && !is_u32_text(ids@[k]@) && forall|
                j: int,
            | 0 <= j < k ==> is_u32_text(#[trigger] ids@[j]@),
        r matches Err(e) ==> (e == RequestError::EmptyIds || e is InvalidUid),
{
    if ids.len() == 0 {
        return Err(RequestError::EmptyIds);
    }
    let mut out: Vec<u32> = Vec::new();
    let mut i: usize = 0;
    while i < ids.len()
        invariant
            i <= ids@.len(),
            out@.len() == i,
            forall|k: int| 0 <= k < i ==> parse_unsigned(#[trigger] ids@[k]@, u32::MAX as nat) == Some(
                out@[k] as nat,
            ),
        decreases ids.len() - i,
    {
        match parse_uid(ids[i].as_str()) {
            Some(u) => out.push(u),
            None => {
                assert forall|j: int| 0 <= j < i implies is_u32_text(#[trigger] ids@[j]@) by {
                    assert(parse_unsigned(ids@[j]@, u32::MAX as nat) == Some(out@[j] as nat));
                }
                return Err(RequestError::InvalidUid(ids[i].clone()));
            },
        }
        i = i + 1;
    }
    Ok(out)
}

} // verus!
