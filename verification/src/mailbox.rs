//! Creating and renaming mailboxes (labels, for Gmail API accounts).
use vstd::prelude::*;
use crate::message::{MailerType, RequestError};
use crate::text::str_eq;

verus! {

/// The colours of a Gmail label.
#[derive(Clone, Debug, Default, PartialEq, Eq)]
pub struct LabelColor {
    pub text_color: String,
    pub background_color: String,
}

/// Request to create a mailbox or label.
#[derive(Clone, Debug, Default, PartialEq, Eq)]
pub struct CreateMailboxRequest {
    /// The name; `/` separates the levels of an IMAP mailbox path.
    pub mailbox_name: String,
    /// The parent folder (Graph API accounts only).
    pub parent_id: Option<u64>,
    /// The label's colours (Gmail API accounts only).
    pub label_color: Option<LabelColor>,
}

/// Request to rename a mailbox, or to recolour a Gmail label.
#[derive(Clone, Debug, Default, PartialEq, Eq)]
pub struct MailboxUpdateRequest {
    pub current_name: String,
    pub new_name: Option<String>,
    pub label_color: Option<LabelColor>,
}

/// IMAP and Graph API accounts need a new name; Gmail API accounts need a new
/// name or new colours.
pub open spec fn mailbox_update_check(r: MailboxUpdateRequest, mailer: MailerType) -> Result<
    (),
    RequestError,
> {
    match mailer {
        MailerType::GmailApi => if r.new_name is None && r.label_color is None {
            Err(RequestError::NameOrColorRequired)
        } else {
            Ok(())
        },
        _ => if r.new_name is None {
            Err(RequestError::NewNameRequired)
        } else {
            Ok(())
        },
    }
}

impl MailboxUpdateRequest {
    pub fn validate(&self, mailer: MailerType) -> (r: Result<(), RequestError>)
        ensures
            r == mailbox_update_check(*self, mailer),
    {
        match mailer {
            MailerType::GmailApi => {
                if self.new_name.is_none() && self.label_color.is_none() {
                    return Err(RequestError::NameOrColorRequired);
                }
            },
            _ => {
                if self.new_name.is_none() {
                    return Err(RequestError::NewNameRequired);
                }
            },
        }
        Ok(())
    }
}

/// The first folder whose displayed name is `name`.
pub fn find_folder(display_names: &Vec<String>, name: &str) -> (r: Option<usize>)
    ensures
        match r {
            Some(i) => i < display_names@.len() && display_names@[i as int]@ == name@ && forall|j: int|
                0 <= j < i ==> (#[trigger] display_names@[j])@ != name@,
            None => forall|j: int|
                0 <= j < display_names@.len() ==> (#[trigger] display_names@[j])@ != name@,
        },
{
    let mut i: usize = 0;
    while i < display_names.len()
        invariant
            i <= display_names@.len(),
            forall|j: int| 0 <= j < i ==> (#[trigger] display_names@[j])@ != name@,
        decreases display_names.len() - i,
    {
        if str_eq(display_names[i].as_str(), name) {
            return Some(i);
        }
        i = i + 1;
    }
    None
}

} // verus!
