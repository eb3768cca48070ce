//! Deleting messages: moving them to the trash, or deleting them outright.
use vstd::prelude::*;
use crate::message::{is_u32_text, parse_uid_list, RequestError};
use crate::text::{parse_unsigned, str_eq};

verus! {

/// Request to delete messages: IMAP UIDs or API message ids.
#[derive(Clone, Debug, Default, PartialEq, Eq)]
pub struct MessageDeleteRequest {
    pub ids: Vec<String>,
    /// Required for IMAP accounts.
    pub mailbox: Option<String>,
}

/// The mailbox and UIDs that an IMAP deletion works on: the mailbox is checked
/// first, then the ids.
pub fn imap_delete_targets(request: &MessageDeleteRequest) -> (r: Result<
    (String, Vec<u32>),
    RequestError,
>)
    ensures
        request.mailbox is None ==> r == Err::<(String, Vec<u32>), RequestError>(
            RequestError::MailboxRequired,
        ),
        request.mailbox is Some && request.ids@.len() == 0 ==> r == Err::<
            (String, Vec<u32>),
            RequestError,
        >(RequestError::EmptyIds),
        request.mailbox is Some && request.ids@.len() > 0 && (forall|i: int|
            0 <= i < request.ids@.len() ==> is_u32_text(#[trigger] request.ids@[i]@)) ==> r is Ok,
        r matches Ok((mb, uids)) ==> request.mailbox matches Some(m) && mb@ == m@
            && uids@.len() == request.ids@.len() && forall|i: int|
            0 <= i < uids@.len() ==> parse_unsigned(
                #[trigger] request.ids@[i]@,
                u32::MAX as nat,
            ) == Some(uids@[i] as nat),
        r matches Err(RequestError::InvalidUid(s)) ==> exists|k: int|
            0 <= k < request.ids@.len() && s@ == (#[trigger] request.ids@[k])@ && !is_u32_text(
                request.ids@[k]@,
            ),
        r matches Err(e) ==> (e == RequestError::MailboxRequired || e == RequestError::EmptyIds
            || e is InvalidUid),
{
    let mailbox = match &request.mailbox {
        Some(m) => m.clone(),
        None => return Err(RequestError::MailboxRequired),
    };
    match parse_uid_list(&request.ids) {
        Ok(uids) => Ok((mailbox, uids)),
        Err(e) => Err(e),
    }
}

/// A mailbox and the special roles it carries.
#[derive(Clone, Debug, PartialEq, Eq)]
pub struct MailboxRoles {
    pub name: String,
    pub trash: bool,
    pub junk: bool,
    pub drafts: bool,
}

/// What to do with messages being deleted from a mailbox.
#[derive(Clone, Debug, PartialEq, Eq)]
pub enum TrashAction {
    /// Delete them where they are.
    DeleteDirectly,
    /// Move them to the named mailbox.
    MoveTo(String),
}

pub open spec fn is_trash_or_junk(m: MailboxRoles) -> bool {
    m.trash || m.junk
}

/// The mailbox carries the trash role (`trash`) or the junk role (`!trash`).
pub open spec fn has_role(m: MailboxRoles, trash: bool) -> bool {
    if trash {
        m.trash
    } else {
        m.junk
    }
}

/// The position of the first mailbox with the given role.
pub open spec fn first_with_role(ms: Seq<MailboxRoles>, trash: bool) -> Option<int>
    decreases ms.len(),
{
    if ms.len() == 0 {
        None
    } else if has_role(ms[0], trash) {
        Some(0)
    } else {
        match first_with_role(ms.drop_first(), trash) {
            Some(i) => Some(i + 1),
            None => None,
        }
    }
}

/// Messages are deleted directly when the account has no trash or junk
/// mailbox, or when they already sit in one; otherwise they move to the first
/// trash mailbox, or failing that to the first junk mailbox.
pub open spec fn trash_action_spec(ms: Seq<MailboxRoles>, current: Seq<char>) -> Option<Seq<char>> {
    if (forall|i: int| 0 <= i < ms.len() ==> !is_trash_or_junk(#[trigger] ms[i])) || (exists|i: int|
        0 <= i < ms.len() && is_trash_or_junk(#[trigger] ms[i]) && ms[i].name@ == current) {
        None
    } else {
        match first_with_role(ms, true) {
            Some(i) => Some(ms[i].name@),
            None => match first_with_role(ms, false) {
                Some(i) => Some(ms[i].name@),
                None => None,
            },
        }
    }
}

fn find_role(ms: &Vec<MailboxRoles>, trash: bool) -> (r: Option<usize>)
    ensures
        match r {
            Some(i) => first_with_role(ms@, trash) == Some(i as int) && i < ms@.len(),
            None => first_with_role(ms@, trash) is None,
        },
        r is None ==> forall|j: int| 0 <= j < ms@.len() ==> !has_role(#[trigger] ms@[j], trash),
{
    let mut i: usize = 0;
    assert(ms@.skip(0) =~= ms@);
    while i < ms.len()
        invariant
            i <= ms@.len(),
            forall|j: int| 0 <= j < i ==> !has_role(#[trigger] ms@[j], trash),
            match first_with_role(ms@.skip(i as int), trash) {
                Some(k) => first_with_role(ms@, trash) == Some(k + i),
                None => first_with_role(ms@, trash) is None,
            },
        decreases ms.len() - i,
    {
        assert(ms@.skip(i as int)[0] == ms@[i as int]);
        assert(ms@.skip(i as int).drop_first() =~= ms@.skip(i + 1));
        let has = if trash {
            ms[i].trash
        } else {
            ms[i].junk
        };
        if has {
            return Some(i);
        }
        i = i + 1;
    }
    None
}

/// Decides where messages being deleted from `current` go.
pub fn trash_action(mailboxes: &Vec<MailboxRoles>, current: &str) -> (r: TrashAction)
    ensures
        match trash_action_spec(mailboxes@, current@) {
            None => r == TrashAction::DeleteDirectly,
            Some(name) => r matches TrashAction::MoveTo(n) && n@ == name,
        },
{
    let mut any_role = false;
    let mut in_role = false;
    let mut i: usize = 0;
    while i < mailboxes.len()
        invariant
            i <= mailboxes@.len(),
            any_role == exists|j: int| 0 <= j < i && is_trash_or_junk(#[trigger] mailboxes@[j]),
            in_role == exists|j: int|
                0 <= j < i && is_trash_or_junk(#[trigger] mailboxes@[j]) && mailboxes@[j].name@
                    == current@,
        decreases mailboxes.len() - i,
    {
        let m = &mailboxes[i];
        if m.trash || m.junk {
            any_role = true;
            if str_eq(m.name.as_str(), current) {
                in_role = true;
            }
        }
        i = i + 1;
    }
    if !any_role || in_role {
        return TrashAction::DeleteDirectly;
    }
    match find_role(mailboxes, true) {
        Some(k) => TrashAction::MoveTo(mailboxes[k].name.clone()),
        None => match find_role(mailboxes, false) {
            Some(k) => TrashAction::MoveTo(mailboxes[k].name.clone()),
            None => {
                proof {
                    let j = choose|j: int|
                        0 <= j < mailboxes@.len() && is_trash_or_junk(#[trigger] mailboxes@[j]);
                    assert(!mailboxes@[j].trash);
                    assert(!mailboxes@[j].junk);
                }
                TrashAction::DeleteDirectly
            },
        },
    }
}

} // verus!
