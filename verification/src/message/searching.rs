//! Searching the messages of a mailbox on the IMAP server: the parameters,
//! the key under which the found UIDs are cached, and which page is served.
use vstd::prelude::*;
use crate::message::content::bool_text;
use crate::message::list::{
    next_page_cursor, next_page_spec, page_count, page_token, total_pages, validate_page_size,
    CursorPage, MAX_PAGE_SIZE,
};
use crate::message::RequestError;
use crate::search::{imap_command, res_view, search_safe, MessageSearch, SearchError};
use crate::text::{decimal, u64_to_decimal};

verus! {

/// A search expression and the mailbox to run it in.
#[derive(Debug, PartialEq, Eq)]
pub struct MessageSearchRequest {
    pub search: MessageSearch,
    /// Required for IMAP accounts; a label for Gmail API accounts.
    pub mailbox: Option<String>,
}

/// Why a search cannot run.
#[derive(Clone, Debug, PartialEq, Eq)]
pub enum SearchRequestError {
    Request(RequestError),
    Search(SearchError),
}

/// The key under which the UIDs that a search found are cached: account,
/// mailbox, page size, order and query, joined by `_`.
pub open spec fn search_cache_key(
    account_id: u64,
    mailbox: Seq<char>,
    page_size: u64,
    desc: bool,
    query: Seq<char>,
) -> Seq<char> {
    decimal(account_id as nat) + "_"@ + mailbox + "_"@ + decimal(page_size as nat) + "_"@
        + bool_text(desc) + "_"@ + query
}

/// The checks of an IMAP search, in order: the page size, the mailbox, then
/// the query built from the expression.
pub open spec fn imap_search_spec(r: MessageSearchRequest, page_size: u64) -> Result<
    (Seq<char>, Seq<char>),
    SearchRequestError,
> {
    if page_size == 0 {
        Err(SearchRequestError::Request(RequestError::PageSizeZero))
    } else if page_size > MAX_PAGE_SIZE {
        Err(SearchRequestError::Request(RequestError::PageSizeTooLarge))
    } else {
        match r.mailbox {
            None => Err(SearchRequestError::Request(RequestError::MailboxRequired)),
            Some(m) => match imap_command(r.search, true) {
                Ok(q) => Ok((m@, q)),
                Err(e) => Err(SearchRequestError::Search(e)),
            },
        }
    }
}

impl MessageSearchRequest {
    pub fn imap_search_cache_key(
        &self,
        account_id: u64,
        page_size: u64,
        desc: bool,
        mailbox: &str,
        search_query: &str,
    ) -> (r: String)
        ensures
            r@ == search_cache_key(account_id, mailbox@, page_size, desc, search_query@),
    {
        let mut r = u64_to_decimal(account_id);
        r.append("_");
        r.append(mailbox);
        r.append("_");
        let size = u64_to_decimal(page_size);
        r.append(size.as_str());
        r.append("_");
        if desc {
            r.append("true");
        } else {
            r.append("false");
        }
        r.append("_");
        r.append(search_query);
        r
    }

    /// The mailbox and the IMAP query of a search, after its checks.
    pub fn imap_search_plan(&self, page_size: u64) -> (r: Result<(String, String), SearchRequestError>)
        requires
            0 < page_size <= MAX_PAGE_SIZE && self.mailbox is Some ==> search_safe(self.search),
        ensures
            match r {
                Ok((m, q)) => imap_search_spec(*self, page_size) == Ok::<
                    (Seq<char>, Seq<char>),
                    SearchRequestError,
                >((m@, q@)),
                Err(e) => imap_search_spec(*self, page_size) == Err::<
                    (Seq<char>, Seq<char>),
                    SearchRequestError,
                >(e),
            },
    {
        match validate_page_size(page_size) {
            Ok(()) => {},
            Err(e) => return Err(SearchRequestError::Request(e)),
        }
        let mailbox = match &self.mailbox {
            Some(m) => m.clone(),
            None => return Err(SearchRequestError::Request(RequestError::MailboxRequired)),
        };
        match self.search.to_imap_command(true) {
            Ok(q) => Ok((mailbox, q)),
            Err(e) => Err(SearchRequestError::Search(e)),
        }
    }
}

/// One page of search results: which page of UIDs to fetch, if any, and the
/// cursor to report.
#[derive(Clone, Debug, PartialEq, Eq)]
pub struct SearchPage {
    /// The position of the page in the list of UID pages.
    pub slot: Option<usize>,
    pub cursor: CursorPage,
}

/// The page `page` (counted from one) of `total` search results: past the last
/// page there is nothing to fetch and no cursor; otherwise the page's UIDs are
/// fetched and the cursor points at the next page unless this one is the last.
pub fn search_result_page(page: u64, page_size: u64, total: u64) -> (r: SearchPage)
    requires
        page >= 1,
        page_size > 0,
    ensures
        r.cursor.page_size == Some(page_size),
        r.cursor.total_items == total,
        r.cursor.total_pages == Some(page_count(total as nat, page_size as nat) as u64),
        page > page_count(total as nat, page_size as nat) ==> r.slot is None
            && r.cursor.next_page_token is None,
        page <= page_count(total as nat, page_size as nat) ==> r.slot == Some((page - 1) as usize)
            && match next_page_spec(page, page_count(total as nat, page_size as nat) as u64) {
            Some(n) => r.cursor.next_page_token matches Some(t) && t@ == page_token(n),
            None => r.cursor.next_page_token is None,
        },
{
    let pages = total_pages(total, page_size);
    if page > pages {
        return SearchPage {
            slot: None,
            cursor: CursorPage {
                next_page_token: None,
                page_size: Some(page_size),
                total_items: total,
                total_pages: Some(pages),
            },
        };
    }
    SearchPage {
        slot: Some((page - 1) as usize),
        cursor: CursorPage {
            next_page_token: next_page_cursor(page, pages),
            page_size: Some(page_size),
            total_items: total,
            total_pages: Some(pages),
        },
    }
}

/// The answer to a search that found nothing on the server.
pub fn empty_search_page(page_size: u64) -> (r: CursorPage)
    ensures
        r == (CursorPage {
            next_page_token: None,
            page_size: Some(page_size),
            total_items: 0,
            total_pages: None,
        }),
{
    CursorPage { next_page_token: None, page_size: Some(page_size), total_items: 0, total_pages: None }
}

} // verus!
