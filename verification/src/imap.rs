//! IMAP-side types: message flags and the connection bookkeeping that the
//! library keeps about an account.
use vstd::prelude::*;
use crate::text::{concat_str, decimal, u64_to_decimal};

verus! {

/// The flags a message can carry.
#[derive(Clone, Debug, PartialEq, Eq)]
pub enum EnvelopeFlags {
    Seen,
    Answered,
    Flagged,
    Deleted,
    Draft,
    Recent,
    MayCreate,
    Custom(String),
}

/// Builds IMAP connections for one account.
#[derive(Debug)]
pub struct ImapConnectionManager {
    pub account_id: u64,
}

impl ImapConnectionManager {
    pub fn new(account_id: u64) -> (r: ImapConnectionManager)
        ensures
            r.account_id == account_id,
    {
        ImapConnectionManager { account_id }
    }
}

/// A stream wrapper that counts the bytes read and written.
pub struct StatsWrapper<T> {
    pub inner: T,
}

impl<T> StatsWrapper<T> {
    pub fn new(inner: T) -> (r: StatsWrapper<T>)
        ensures
            r.inner == inner,
    {
        StatsWrapper { inner }
    }
}


/// The message sequence numbers (first and last, counted from one) that page
/// `page` of `page_size` messages covers in a mailbox of `total` messages;
/// none when the page lies past the mailbox. Ascending pages count from the
/// oldest message, descending pages from the newest.
pub open spec fn sequence_window(page: u64, page_size: u64, total: u64, desc: bool) -> Option<(int, int)> {
    let skipped = (page - 1) * page_size;
    if total == 0 {
        None
    } else if desc {
        if skipped >= total {
            None
        } else {
            let end = total - skipped;
            let start = if end - (page_size - 1) >= 1 {
                end - (page_size - 1)
            } else {
                1
            };
            Some((start, end))
        }
    } else {
        let start = skipped + 1;
        if start > total {
            None
        } else {
            let end = if start + page_size - 1 <= total {
                start + page_size - 1
            } else {
                total as int
            };
            Some((start, end))
        }
    }
}

/// The sequence-number range of one page of a mailbox listing.
pub fn page_window(page: u64, page_size: u64, total: u64, desc: bool) -> (r: Option<(u64, u64)>)
    requires
        page > 0,
        page_size > 0,
        (page - 1) * page_size + page_size <= u64::MAX,
    ensures
        match sequence_window(page, page_size, total, desc) {
            Some((a, b)) => r == Some((a as u64, b as u64)),
            None => r is None,
        },
{
    if total == 0 {
        return None;
    }
    let skipped = (page - 1) * page_size;
    if desc {
        let end = total.saturating_sub(skipped);
        if end == 0 {
            return None;
        }
        let start = end.saturating_sub(page_size - 1);
        let start = if start < 1 {
            1
        } else {
            start
        };
        Some((start, end))
    } else {
        let start = skipped + 1;
        if start > total {
            return None;
        }
        let last = skipped + page_size;
        let end = if last < total {
            last
        } else {
            total
        };
        Some((start, end))
    }
}

/// Every page lies within the mailbox and holds at most `page_size`
/// messages; consecutive ascending pages follow each other without gap or
/// overlap, and so do consecutive descending pages, from the newest down.
pub proof fn lemma_pages_tile(page: u64, page_size: u64, total: u64, desc: bool)
    requires
        0 < page < u64::MAX,
        page_size > 0,
    ensures
        sequence_window(page, page_size, total, desc) matches Some((a, b)) ==> 1 <= a <= b <= total
            && b - a < page_size,
        !desc ==> match sequence_window((page + 1) as u64, page_size, total, false) {
            Some((c, _)) => match sequence_window(page, page_size, total, false) {
                Some((_, b)) => b == page * page_size && c == b + 1,
                None => false,
            },
            None => true,
        },
        desc ==> match sequence_window((page + 1) as u64, page_size, total, true) {
            Some((_, d)) => match sequence_window(page, page_size, total, true) {
                Some((a, _)) => a == total - page * page_size + 1 && d == a - 1,
                None => false,
            },
            None => true,
        },
{
    let next = (page + 1) as u64;
    assert(next - 1 == page);
    assert(page * page_size == (page - 1) * page_size + page_size) by (nonlinear_arith);
    assert((page - 1) * page_size >= 0) by (nonlinear_arith)
        requires
            page > 0,
            page_size > 0,
    ;
    assert((next - 1) * page_size == page * page_size);
}

/// A sequence set `start:end`.
pub fn sequence_set(start: u64, end: u64) -> (r: String)
    ensures
        r@ == decimal(start as nat) + ":"@ + decimal(end as nat),
{
    let mut r = u64_to_decimal(start);
    r.append(":");
    let e = u64_to_decimal(end);
    r.append(e.as_str());
    r
}

/// The UID set of every message from `start_uid` on: `start_uid:*`.
pub fn uids_from(start_uid: u32) -> (r: String)
    requires
        start_uid > 0,
    ensures
        r@ == decimal(start_uid as nat) + ":*"@,
{
    let mut r = u64_to_decimal(start_uid as u64);
    r.append(":*");
    r
}

/// What could not be read of a fetched message's `Message-ID`.
#[derive(Clone, Copy, Debug, PartialEq, Eq, Structural)]
pub enum HeaderProblem {
    /// The fetch carries no header.
    MissingHeader,
    /// The header does not parse.
    Unparsable,
    /// The header has no `Message-ID`.
    NoMessageId,
}

/// One message of a mailbox as fetched for a lookup by `Message-ID`.
#[derive(Debug, PartialEq, Eq)]
pub struct MessageIdEntry {
    pub uid: Option<u32>,
    pub message_id: Result<String, HeaderProblem>,
}

/// Why a lookup by `Message-ID` failed.
#[derive(Clone, Debug, PartialEq, Eq)]
pub enum LookupError {
    /// A fetched message has no UID.
    MissingUid,
    /// The `Message-ID` of the message with this UID could not be read.
    Header(u32, HeaderProblem),
    /// No message has the `Message-ID`.
    NotFound,
}

/// The outcome of looking at the messages in order: the first that has no
/// UID, or whose `Message-ID` cannot be read, stops the lookup with an error;
/// the first whose `Message-ID` is the target gives its UID.
pub open spec fn lookup_spec(entries: Seq<MessageIdEntry>, target: Seq<char>) -> Result<u32, LookupError>
    decreases entries.len(),
{
    if entries.len() == 0 {
        Err(LookupError::NotFound)
    } else {
        let e = entries[0];
        match e.uid {
            None => Err(LookupError::MissingUid),
            Some(u) => match e.message_id {
                Err(p) => Err(LookupError::Header(u, p)),
                Ok(m) => if m@ == target {
                    Ok(u)
                } else {
                    lookup_spec(entries.drop_first(), target)
                },
            },
        }
    }
}

/// The UID of the message whose `Message-ID` is `target`.
pub fn uid_by_message_id(entries: &Vec<MessageIdEntry>, target: &str) -> (r: Result<u32, LookupError>)
    ensures
        r == lookup_spec(entries@, target@),
{
    let mut i: usize = 0;
    assert(entries@.skip(0) =~= entries@);
    while i < entries.len()
        invariant
            i <= entries@.len(),
            lookup_spec(entries@, target@) == lookup_spec(entries@.skip(i as int), target@),
        decreases entries.len() - i,
    {
        assert(entries@.skip(i as int).drop_first() =~= entries@.skip(i + 1));
        assert(entries@.skip(i as int)[0] == entries@[i as int]);
        let e = &entries[i];
        match e.uid {
            None => return Err(LookupError::MissingUid),
            Some(u) => match &e.message_id {
                Err(p) => return Err(LookupError::Header(u, *p)),
                Ok(m) => {
                    if crate::text::str_eq(m.as_str(), target) {
                        return Ok(u);
                    }
                },
            },
        }
        i = i + 1;
    }
    Err(LookupError::NotFound)
}

/// How a `STORE` changes the flags of messages.
#[derive(Clone, Copy, Debug, PartialEq, Eq, Structural)]
pub enum FlagChange {
    /// Replace the flags.
    Overwrite,
    /// Add the flags.
    Add,
    /// Remove the flags.
    Remove,
}

/// Why flags cannot be stored.
#[derive(Clone, Copy, Debug, PartialEq, Eq, Structural)]
pub enum FlagStoreError {
    EmptyUidSet,
    EmptyMailboxName,
    EmptyFlagList,
}

/// The UID set and the mailbox of a `STORE` must not be empty.
pub fn check_store_target(uid_set: &str, mailbox_name: &str) -> (r: Result<(), FlagStoreError>)
    ensures
        uid_set@.len() == 0 ==> r == Err::<(), FlagStoreError>(FlagStoreError::EmptyUidSet),
        uid_set@.len() > 0 && mailbox_name@.len() == 0 ==> r == Err::<(), FlagStoreError>(
            FlagStoreError::EmptyMailboxName,
        ),
        uid_set@.len() > 0 && mailbox_name@.len() > 0 ==> r is Ok,
{
    if uid_set.is_empty() {
        return Err(FlagStoreError::EmptyUidSet);
    }
    if mailbox_name.is_empty() {
        return Err(FlagStoreError::EmptyMailboxName);
    }
    Ok(())
}

/// Items joined by single spaces.
pub open spec fn joined(items: Seq<Seq<char>>) -> Seq<char>
    decreases items.len(),
{
    if items.len() == 0 {
        Seq::empty()
    } else if items.len() == 1 {
        items[0]
    } else {
        joined(items.drop_last()) + " "@ + items.last()
    }
}

pub open spec fn change_prefix(change: FlagChange) -> Seq<char> {
    match change {
        FlagChange::Overwrite => "FLAGS ("@,
        FlagChange::Add => "+FLAGS ("@,
        FlagChange::Remove => "-FLAGS ("@,
    }
}

pub open spec fn texts(v: Seq<String>) -> Seq<Seq<char>> {
    v.map_values(|s: String| s@)
}

/// The data item of a `STORE`: `FLAGS`, `+FLAGS` or `-FLAGS` and the flags,
/// space-separated, in parentheses. The list must not be empty.
pub fn flag_store_item(change: FlagChange, flags: &Vec<String>) -> (r: Result<String, FlagStoreError>)
    ensures
        flags@.len() == 0 ==> r == Err::<String, FlagStoreError>(FlagStoreError::EmptyFlagList),
        flags@.len() > 0 ==> (r matches Ok(s) && s@ == change_prefix(change) + joined(
            texts(flags@),
        ) + ")"@),
{
    if flags.len() == 0 {
        return Err(FlagStoreError::EmptyFlagList);
    }
    let mut r = match change {
        FlagChange::Overwrite => "FLAGS (".to_owned(),
        FlagChange::Add => "+FLAGS (".to_owned(),
        FlagChange::Remove => "-FLAGS (".to_owned(),
    };
    let ghost head = r@;
    r.append(flags[0].as_str());
    let mut i: usize = 1;
    assert(texts(flags@).take(1) =~= seq![flags@[0]@]);
    while i < flags.len()
        invariant
            1 <= i <= flags@.len(),
            r@ == head + joined(texts(flags@).take(i as int)),
        decreases flags.len() - i,
    {
        assert(texts(flags@).take(i + 1).drop_last() =~= texts(flags@).take(i as int));
        r.append(" ");
        r.append(flags[i].as_str());
        i = i + 1;
        assert(r@ =~= head + joined(texts(flags@).take(i as int)));
    }
    assert(texts(flags@).take(i as int) =~= texts(flags@));
    r.append(")");
    Ok(r)
}


/// The data item of a `STORE` for a non-empty list of flags.
pub open spec fn store_item_text(change: FlagChange, flags: Seq<String>) -> Seq<char> {
    change_prefix(change) + joined(texts(flags)) + ")"@
}

/// The `STORE`s of a flag action, in the order they are sent, and the error
/// that ends the action after them, if any. The UID set and the mailbox come
/// first; an overwrite is one `STORE` and excludes adding and removing;
/// otherwise the added flags are stored before the removed ones, and an empty
/// list stops the action where it stands.
pub open spec fn store_plan_spec(
    uid_set: Seq<char>,
    mailbox_name: Seq<char>,
    add: Option<Seq<String>>,
    remove: Option<Seq<String>>,
    overwrite: Option<Seq<String>>,
) -> (Seq<Seq<char>>, Option<FlagStoreError>) {
    if uid_set.len() == 0 {
        (Seq::empty(), Some(FlagStoreError::EmptyUidSet))
    } else if mailbox_name.len() == 0 {
        (Seq::empty(), Some(FlagStoreError::EmptyMailboxName))
    } else {
        match overwrite {
            Some(f) => if f.len() == 0 {
                (Seq::empty(), Some(FlagStoreError::EmptyFlagList))
            } else {
                (seq![store_item_text(FlagChange::Overwrite, f)], None)
            },
            None => {
                let added: Seq<Seq<char>> = match add {
                    Some(a) if a.len() > 0 => seq![store_item_text(FlagChange::Add, a)],
                    _ => Seq::empty(),
                };
                match add {
                    Some(a) if a.len() == 0 => (Seq::empty(), Some(FlagStoreError::EmptyFlagList)),
                    _ => match remove {
                        Some(rm) => if rm.len() == 0 {
                            (added, Some(FlagStoreError::EmptyFlagList))
                        } else {
                            (added.push(store_item_text(FlagChange::Remove, rm)), None)
                        },
                        None => (added, None),
                    },
                }
            },
        }
    }
}

pub open spec fn opt_flags(v: Option<Vec<String>>) -> Option<Seq<String>> {
    match v {
        Some(f) => Some(f@),
        None => None,
    }
}

/// The `STORE` data items of a flag action, in the order they are sent, and
/// the error reported after them, if any (see [`store_plan_spec`]).
pub fn flag_store_plan(
    uid_set: &str,
    mailbox_name: &str,
    add: &Option<Vec<String>>,
    remove: &Option<Vec<String>>,
    overwrite: &Option<Vec<String>>,
) -> (r: (Vec<String>, Option<FlagStoreError>))
    ensures
        texts(r.0@) == store_plan_spec(
            uid_set@,
            mailbox_name@,
            opt_flags(*add),
            opt_flags(*remove),
            opt_flags(*overwrite),
        ).0,
        r.1 == store_plan_spec(
            uid_set@,
            mailbox_name@,
            opt_flags(*add),
            opt_flags(*remove),
            opt_flags(*overwrite),
        ).1,
{
    let mut items: Vec<String> = Vec::new();
    match check_store_target(uid_set, mailbox_name) {
        Ok(()) => {},
        Err(e) => {
            assert(texts(items@) =~= Seq::<Seq<char>>::empty());
            return (items, Some(e));
        },
    }
    if let Some(f) = overwrite {
        match flag_store_item(FlagChange::Overwrite, f) {
            Ok(item) => {
                items.push(item);
                assert(texts(items@) =~= seq![store_item_text(FlagChange::Overwrite, f@)]);
                return (items, None);
            },
            Err(e) => {
                assert(texts(items@) =~= Seq::<Seq<char>>::empty());
                return (items, Some(e));
            },
        }
    }
    if let Some(a) = add {
        match flag_store_item(FlagChange::Add, a) {
            Ok(item) => {
                items.push(item);
            },
            Err(e) => {
                assert(texts(items@) =~= Seq::<Seq<char>>::empty());
                return (items, Some(e));
            },
        }
    }
    let ghost added = texts(items@);
    assert(added =~= (match opt_flags(*add) {
        Some(a) if a.len() > 0 => seq![store_item_text(FlagChange::Add, a)],
        _ => Seq::<Seq<char>>::empty(),
    }));
    if let Some(rm) = remove {
        match flag_store_item(FlagChange::Remove, rm) {
            Ok(item) => {
                items.push(item);
                assert(texts(items@) =~= added.push(store_item_text(FlagChange::Remove, rm@)));
            },
            Err(e) => {
                return (items, Some(e));
            },
        }
    }
    (items, None)
}

/// A capability that an IMAP server announces.
#[derive(Clone, Debug, PartialEq, Eq)]
pub enum ServerCapability {
    Imap4rev1,
    /// An authentication mechanism (`AUTH=<mechanism>`).
    Auth(String),
    Atom(String),
}

/// How a capability is recorded.
pub open spec fn capability_text(c: ServerCapability) -> Seq<char> {
    match c {
        ServerCapability::Imap4rev1 => "IMAP4rev1"@,
        ServerCapability::Auth(v) => "AUTH="@ + v@,
        ServerCapability::Atom(v) => v@,
    }
}

pub fn capability_to_string(capability: &ServerCapability) -> (r: String)
    ensures
        r@ == capability_text(*capability),
{
    match capability {
        ServerCapability::Imap4rev1 => "IMAP4rev1".to_owned(),
        ServerCapability::Auth(v) => concat_str("AUTH=", v.as_str()),
        ServerCapability::Atom(v) => v.clone(),
    }
}

/// The server cannot be used: it does not speak IMAP4rev1.
#[derive(Clone, Copy, Debug, PartialEq, Eq, Structural)]
pub struct Imap4rev1Missing;

/// The server must announce IMAP4rev1.
pub fn check_capabilities(capabilities: &Vec<ServerCapability>) -> (r: Result<(), Imap4rev1Missing>)
    ensures
        r is Ok <==> exists|i: int|
            0 <= i < capabilities@.len() && #[trigger] capabilities@[i] == ServerCapability::Imap4rev1,
{
    let mut i: usize = 0;
    while i < capabilities.len()
        invariant
            i <= capabilities@.len(),
            forall|j: int| 0 <= j < i ==> #[trigger] capabilities@[j] != ServerCapability::Imap4rev1,
        decreases capabilities.len() - i,
    {
        match &capabilities[i] {
            ServerCapability::Imap4rev1 => return Ok(()),
            _ => {},
        }
        i = i + 1;
    }
    Err(Imap4rev1Missing)
}

/// How an account logs in to its IMAP server.
#[derive(Clone, Copy, Debug, PartialEq, Eq, Structural)]
pub enum AuthType {
    Password,
    OAuth2,
}

/// The secret an IMAP login uses.
#[derive(Clone, Debug, PartialEq, Eq)]
pub enum Credential {
    /// The stored (encrypted) password.
    Password(String),
    /// The OAuth2 access token.
    AccessToken(String),
}

/// Why an IMAP login cannot start.
#[derive(Clone, Copy, Debug, PartialEq, Eq, Structural)]
pub enum LoginError {
    /// Password login without a stored password.
    PasswordMissing,
    /// OAuth2 login before the authorisation completed.
    AccessTokenMissing,
}

/// The secret of a login: the stored password, or the account's access token.
pub fn login_credential(auth_type: AuthType, password: Option<String>, access_token: Option<String>) -> (r:
    Result<Credential, LoginError>)
    ensures
        match auth_type {
            AuthType::Password => match password {
                Some(p) => r == Ok::<Credential, LoginError>(Credential::Password(p)),
                None => r == Err::<Credential, LoginError>(LoginError::PasswordMissing),
            },
            AuthType::OAuth2 => match access_token {
                Some(t) => r == Ok::<Credential, LoginError>(Credential::AccessToken(t)),
                None => r == Err::<Credential, LoginError>(LoginError::AccessTokenMissing),
            },
        },
{
    match auth_type {
        AuthType::Password => match password {
            Some(p) => Ok(Credential::Password(p)),
            None => Err(LoginError::PasswordMissing),
        },
        AuthType::OAuth2 => match access_token {
            Some(t) => Ok(Credential::AccessToken(t)),
            None => Err(LoginError::AccessTokenMissing),
        },
    }
}

} // verus!
