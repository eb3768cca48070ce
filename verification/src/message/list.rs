//! Listing the messages of a mailbox page by page: the paging parameters and
//! the cursor that points at the next page.
use vstd::prelude::*;
use crate::message::RequestError;
use crate::text::{
    decimal, is_digit, lemma_decimal_digits, lemma_decimal_parses_back, parse_unsigned,
    parse_unsigned_chars, u64_to_decimal,
};

verus! {

/// The largest page that a listing serves.
pub const MAX_PAGE_SIZE: u64 = 500;

/// The page size of a cursor listing must be between 1 and [`MAX_PAGE_SIZE`].
pub fn validate_page_size(page_size: u64) -> (r: Result<(), RequestError>)
    ensures
        page_size == 0 ==> r == Err::<(), RequestError>(RequestError::PageSizeZero),
        page_size > MAX_PAGE_SIZE ==> r == Err::<(), RequestError>(RequestError::PageSizeTooLarge),
        0 < page_size <= MAX_PAGE_SIZE ==> r is Ok,
{
    if page_size == 0 {
        return Err(RequestError::PageSizeZero);
    }
    if page_size > MAX_PAGE_SIZE {
        return Err(RequestError::PageSizeTooLarge);
    }
    Ok(())
}

/// Both the page number and the page size of a numbered listing must be
/// positive, and the page size at most [`MAX_PAGE_SIZE`].
pub fn validate_pagination_params(page: u64, page_size: u64) -> (r: Result<(), RequestError>)
    ensures
        page == 0 || page_size == 0 ==> r == Err::<(), RequestError>(RequestError::PageParamsZero),
        page > 0 && page_size > MAX_PAGE_SIZE ==> r == Err::<(), RequestError>(
            RequestError::PageSizeTooLarge,
        ),
        page > 0 && 0 < page_size <= MAX_PAGE_SIZE ==> r is Ok,
{
    if page == 0 || page_size == 0 {
        return Err(RequestError::PageParamsZero);
    }
    if page_size > MAX_PAGE_SIZE {
        return Err(RequestError::PageSizeTooLarge);
    }
    Ok(())
}

/// The number of pages that `total` items fill, `page_size` to a page.
pub open spec fn page_count(total: nat, page_size: nat) -> nat
    recommends
        page_size > 0,
{
    if total % page_size == 0 {
        total / page_size
    } else {
        total / page_size + 1
    }
}

/// The page count is the least number of pages of `page_size` items that hold
/// `total` items: they hold them all, and one page fewer would not.
pub proof fn lemma_page_count_is_least(total: nat, page_size: nat)
    requires
        page_size > 0,
    ensures
        page_count(total, page_size) * page_size >= total,
        total > 0 ==> (page_count(total, page_size) - 1) * page_size < total,
        total == 0 ==> page_count(total, page_size) == 0,
{
    let q = total / page_size;
    let r = total % page_size;
    assert(total == q * page_size + r && 0 <= r < page_size) by (nonlinear_arith)
        requires
            page_size > 0,
            q == total / page_size,
            r == total % page_size,
    ;
    if r == 0 {
        assert(page_count(total, page_size) == q);
        if total > 0 {
            assert((q - 1) * page_size == q * page_size - page_size) by (nonlinear_arith);
        }
    } else {
        assert(page_count(total, page_size) == q + 1);
        assert((q + 1) * page_size == q * page_size + page_size) by (nonlinear_arith);
    }
    if total == 0 {
        assert(q == 0) by (nonlinear_arith)
            requires
                total == q * page_size + r,
                0 <= r < page_size,
                total == 0,
                page_size > 0,
        ;
    }
}

pub fn total_pages(total_items: u64, page_size: u64) -> (r: u64)
    requires
        page_size > 0,
    ensures
        r == page_count(total_items as nat, page_size as nat),
{
    let q = total_items / page_size;
    if total_items % page_size == 0 {
        q
    } else {
        assert(q < total_items) by (nonlinear_arith)
            requires
                q == total_items / page_size,
                page_size > 0,
                total_items % page_size != 0,
        ;
        q + 1
    }
}

/// The page after `page`, or none when `page` is the last one.
pub open spec fn next_page_spec(page: u64, total_pages: u64) -> Option<nat> {
    if page == total_pages {
        None
    } else {
        Some((page + 1) as nat)
    }
}

/// The URL-safe Base64 encoding, without padding, of the UTF-8 bytes of `text`.
pub uninterp spec fn url_safe_base64(text: Seq<char>) -> Seq<char>;

/// The bytes that URL-safe Base64 without padding decodes `text` into, if it
/// is such an encoding.
pub uninterp spec fn url_safe_base64_decode(text: Seq<char>) -> Option<Seq<u8>>;

/// Every character of `s` is ASCII.
pub open spec fn is_ascii_text(s: Seq<char>) -> bool {
    forall|i: int| 0 <= i < s.len() ==> (#[trigger] s[i] as int) < 128
}

/// Bytes read one for one as characters.
pub open spec fn bytes_as_chars(b: Seq<u8>) -> Seq<char> {
    b.map_values(|x: u8| x as char)
}

/// Decoding gave bytes that, read as characters, are `text`.
pub open spec fn decodes_to(decoded: Option<Seq<u8>>, text: Seq<char>) -> bool {
    &&& decoded is Some
    &&& bytes_as_chars(decoded->0) == text
}

/// Calls `Engine::encode` of `base64::engine::general_purpose::URL_SAFE_NO_PAD`
/// on the bytes of `text`. Claimed: the result is a function of the text, and
/// decoding it gives back the bytes of an ASCII text.
#[verifier::external_body]
fn encode_url_safe(text: &str) -> (r: String)
    ensures
        r@ == url_safe_base64(text@),
        is_ascii_text(text@) ==> decodes_to(url_safe_base64_decode(r@), text@),
{
    base64::Engine::encode(&base64::engine::general_purpose::URL_SAFE_NO_PAD, text)
}

/// Calls `Engine::decode` of `base64::engine::general_purpose::URL_SAFE_NO_PAD`
/// on the bytes of `text`. Claimed: the result is a function of the text, and
/// decoding the encoding of an ASCII text gives back that text's bytes.
#[verifier::external_body]
fn decode_url_safe(text: &str) -> (r: Option<Vec<u8>>)
    ensures
        r is Some <==> url_safe_base64_decode(text@) is Some,
        r matches Some(b) ==> url_safe_base64_decode(text@) == Some(b@),

{
    base64::Engine::decode(&base64::engine::general_purpose::URL_SAFE_NO_PAD, text).ok()
}

/// The cursor that names page `page`: the URL-safe Base64 of its number in
/// decimal.
pub open spec fn page_token(page: nat) -> Seq<char> {
    url_safe_base64(decimal(page))
}

/// The page that a cursor names: the first page without a cursor; otherwise
/// the number that the cursor's URL-safe Base64 decodes to, if it decodes to a
/// decimal number that fits in `u64`.
pub open spec fn page_of_token(token: Option<Seq<char>>) -> Option<nat> {
    match token {
        None => Some(1),
        Some(t) => match url_safe_base64_decode(t) {
            Some(b) => parse_unsigned(bytes_as_chars(b), u64::MAX as nat),
            None => None,
        },
    }
}

/// The cursor of the page after `page`, or none when `page` is the last page.
/// The cursor reads back as the page it names.
pub fn next_page_cursor(page: u64, total_pages: u64) -> (r: Option<String>)
    requires
        page != total_pages ==> page < u64::MAX,
    ensures
        match next_page_spec(page, total_pages) {
            Some(n) => r matches Some(t) && t@ == page_token(n),
            None => r is None,
        },
        r matches Some(t) ==> page_of_token(Some(t@)) == Some((page + 1) as nat),
{
    if page == total_pages {
        None
    } else {
        let text = u64_to_decimal(page + 1);
        let n: Ghost<nat> = Ghost((page + 1) as nat);
        proof {
            lemma_decimal_digits(n@);
            lemma_decimal_parses_back(n@, u64::MAX as nat);
            assert forall|i: int| 0 <= i < decimal(n@).len() implies (#[trigger] decimal(
                n@,
            )[i] as int) < 128 by {
                assert(is_digit(decimal(n@)[i]));
            }
        }
        Some(encode_url_safe(text.as_str()))
    }
}

/// The page that a listing's cursor asks for: page 1 without a cursor,
/// otherwise the number encoded in it; a cursor that does not decode to a
/// number is refused.
pub fn decode_page_token(token: Option<&str>) -> (r: Result<u64, RequestError>)
    ensures
        match page_of_token(
            match token {
                Some(t) => Some(t@),
                None => None,
            },
        ) {
            Some(p) => r == Ok::<u64, RequestError>(p as u64),
            None => r == Err::<u64, RequestError>(RequestError::InvalidPageToken),
        },
{
    let t = match token {
        None => return Ok(1),
        Some(t) => t,
    };
    let bytes = match decode_url_safe(t) {
        Some(b) => b,
        None => return Err(RequestError::InvalidPageToken),
    };
    let mut chars: Vec<char> = Vec::new();
    let mut i: usize = 0;
    while i < bytes.len()
        invariant
            i <= bytes@.len(),
            chars@ == bytes_as_chars(bytes@).take(i as int),
        decreases bytes@.len() - i,
    {
        chars.push(bytes[i] as char);
        i = i + 1;
        assert(chars@ =~= bytes_as_chars(bytes@).take(i as int));
    }
    assert(chars@ =~= bytes_as_chars(bytes@));
    match parse_unsigned_chars(&chars, u64::MAX) {
        Some(p) => Ok(p),
        None => Err(RequestError::InvalidPageToken),
    }
}

/// One page of a cursor listing, without its items.
#[derive(Clone, Debug, PartialEq, Eq)]
pub struct CursorPage {
    pub next_page_token: Option<String>,
    pub page_size: Option<u64>,
    pub total_items: u64,
    pub total_pages: Option<u64>,
}

/// A page of a listing fetched from the server: an empty mailbox reports no
/// cursor and zero pages; otherwise the pages are counted and the cursor points
/// at the next page unless this one is the last.
pub fn remote_page(page: u64, page_size: u64, total_items: u64) -> (r: CursorPage)
    requires
        page_size > 0,
        page < u64::MAX,
    ensures
        r.page_size == Some(page_size),
        r.total_items == total_items,
        total_items == 0 ==> r.next_page_token is None && r.total_pages == Some(0u64),
        total_items > 0 ==> r.total_pages == Some(page_count(total_items as nat, page_size as nat) as u64)
            && match next_page_spec(page, page_count(total_items as nat, page_size as nat) as u64) {
            Some(n) => r.next_page_token matches Some(t) && t@ == page_token(n),
            None => r.next_page_token is None,
        },
{
    if total_items == 0 {
        return CursorPage {
            next_page_token: None,
            page_size: Some(page_size),
            total_items: 0,
            total_pages: Some(0),
        };
    }
    let pages = total_pages(total_items, page_size);
    CursorPage {
        next_page_token: next_page_cursor(page, pages),
        page_size: Some(page_size),
        total_items,
        total_pages: Some(pages),
    }
}

/// Why a page of the local cache cannot be reported.
#[derive(Clone, Debug, PartialEq, Eq)]
pub enum PageError {
    /// The cache reported items but no page count.
    TotalPagesMissing,
    /// The Gmail API listing came without its `resultSizeEstimate`.
    ResultSizeEstimateMissing,
}

/// A page of a listing served from the local cache, from what the cache
/// reported: an empty listing has no cursor and no page count; otherwise the
/// page count must be there, and the cursor points at the next page unless this
/// one is the last.
pub fn local_page(page: u64, page_size: Option<u64>, total_items: u64, total_pages: Option<u64>) -> (r:
    Result<CursorPage, PageError>)
    requires
        page < u64::MAX,
    ensures
        total_items == 0 ==> r == Ok::<CursorPage, PageError>(
            CursorPage { next_page_token: None, page_size, total_items: 0, total_pages: None },
        ),
        total_items > 0 && total_pages is None ==> r == Err::<CursorPage, PageError>(
            PageError::TotalPagesMissing,
        ),
        total_items > 0 ==> match total_pages {
            Some(t) => r matches Ok(p) && p.page_size == page_size && p.total_items == total_items
                && p.total_pages == Some(t) && match next_page_spec(page, t) {
                Some(n) => p.next_page_token matches Some(c) && c@ == page_token(n),
                None => p.next_page_token is None,
            },
            None => true,
        },
{
    if total_items == 0 {
        return Ok(CursorPage { next_page_token: None, page_size, total_items: 0, total_pages: None });
    }
    match total_pages {
        Some(t) => Ok(
            CursorPage {
                next_page_token: next_page_cursor(page, t),
                page_size,
                total_items,
                total_pages: Some(t),
            },
        ),
        None => Err(PageError::TotalPagesMissing),
    }
}

/// A page of a Gmail API listing, from what the API reported: the estimated
/// number of messages (required), how many messages this page lists, and the
/// API's own cursor. A page that lists no message is reported empty, with no
/// cursor; otherwise the estimate is the total and the pages are counted from it.
pub fn gmail_page(
    page_size: u64,
    result_size_estimate: Option<u64>,
    listed: usize,
    next_page_token: Option<String>,
) -> (r: Result<CursorPage, PageError>)
    requires
        page_size > 0,
    ensures
        result_size_estimate is None ==> r == Err::<CursorPage, PageError>(
            PageError::ResultSizeEstimateMissing,
        ),
        result_size_estimate is Some && listed == 0 ==> r == Ok::<CursorPage, PageError>(
            CursorPage {
                next_page_token: None,
                page_size: Some(page_size),
                total_items: 0,
                total_pages: Some(0),
            },
        ),
        result_size_estimate is Some && listed > 0 ==> r == Ok::<CursorPage, PageError>(
            CursorPage {
                next_page_token,
                page_size: Some(page_size),
                total_items: result_size_estimate->0,
                total_pages: Some(
                    page_count(result_size_estimate->0 as nat, page_size as nat) as u64,
                ),
            },
        ),
{
    let total = match result_size_estimate {
        Some(t) => t,
        None => return Err(PageError::ResultSizeEstimateMissing),
    };
    if listed == 0 {
        return Ok(
            CursorPage {
                next_page_token: None,
                page_size: Some(page_size),
                total_items: 0,
                total_pages: Some(0),
            },
        );
    }
    let pages = total_pages(total, page_size);
    Ok(CursorPage { next_page_token, page_size: Some(page_size), total_items: total, total_pages: Some(pages) })
}

} // verus!
