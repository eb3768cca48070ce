use rustmailer_core::message::searching::{
    empty_search_page, search_result_page, MessageSearchRequest, SearchRequestError,
};
use rustmailer_core::message::unified::{AddressHit, UnifiedSearchRequest};
use rustmailer_core::message::RequestError;
use rustmailer_core::search::{Condition, Conditions, Logic, MessageSearch, Operator, SearchError};

fn cond(condition: Conditions, value: &str) -> MessageSearch {
    MessageSearch::Condition(Condition { condition, value: Some(value.to_string()) })
}

#[test]
fn a_standalone_date_is_quoted_and_a_nested_one_is_not() {
    assert_eq!(
        cond(Conditions::Before, "2024-03-05").to_imap_command(true).unwrap(),
        "BEFORE \"05-Mar-2024\""
    );
    let nested = MessageSearch::Logic(Logic {
        operator: Operator::And,
        children: vec![cond(Conditions::Before, "2024-03-05"), cond(Conditions::Seen, "")],
    });
    assert_eq!(nested.to_imap_command(true).unwrap(), "BEFORE 05-Mar-2024 SEEN");
}

#[test]
fn lone_quotes_cannot_be_quoted() {
    assert!(cond(Conditions::Subject, "hello").is_quotable());
    assert!(!cond(Conditions::Subject, " \" ").is_quotable());
    assert!(!cond(Conditions::Header, "X-A '").is_quotable());
    assert!(cond(Conditions::Header, "X-A b").is_quotable());
}

#[test]
fn imap_search_plans() {
    let req = MessageSearchRequest { search: cond(Conditions::Seen, ""), mailbox: Some("INBOX".into()) };
    assert_eq!(req.imap_search_plan(20), Ok(("INBOX".to_string(), "SEEN".to_string())));
    assert_eq!(
        req.imap_search_plan(0),
        Err(SearchRequestError::Request(RequestError::PageSizeZero))
    );
    assert_eq!(
        req.imap_search_plan(501),
        Err(SearchRequestError::Request(RequestError::PageSizeTooLarge))
    );
    let no_box = MessageSearchRequest { search: cond(Conditions::Seen, ""), mailbox: None };
    assert_eq!(
        no_box.imap_search_plan(20),
        Err(SearchRequestError::Request(RequestError::MailboxRequired))
    );
    let bad = MessageSearchRequest {
        search: cond(Conditions::Larger, "big"),
        mailbox: Some("INBOX".into()),
    };
    assert_eq!(bad.imap_search_plan(20), Err(SearchRequestError::Search(SearchError::InvalidNumber)));
    assert_eq!(
        req.imap_search_cache_key(3, 20, true, "INBOX", "SEEN"),
        "3_INBOX_20_true_SEEN"
    );
}

#[test]
fn search_result_pages() {
    let first = search_result_page(1, 10, 25);
    assert_eq!(first.slot, Some(0));
    assert_eq!(first.cursor.total_pages, Some(3));
    assert_eq!(first.cursor.next_page_token, Some("Mg".to_string()));
    let last = search_result_page(3, 10, 25);
    assert_eq!(last.slot, Some(2));
    assert_eq!(last.cursor.next_page_token, None);
    let past = search_result_page(4, 10, 25);
    assert_eq!(past.slot, None);
    assert_eq!(past.cursor.next_page_token, None);
    let none = empty_search_page(10);
    assert_eq!(none.total_items, 0);
    assert_eq!(none.total_pages, None);
}

fn hit(hash: u64, account: u64, date: Option<i64>) -> AddressHit {
    AddressHit { envelope_hash: hash, account_id: account, internal_date: date }
}

#[test]
fn unified_search_keeps_one_hit_per_message_in_time_order() {
    let req = UnifiedSearchRequest { accounts: None, email: "a@x".into(), after: None, before: None };
    let from = vec![hit(1, 10, Some(100)), hit(2, 10, Some(300))];
    let to = vec![hit(1, 11, Some(999)), hit(3, 10, Some(200))];
    let cc = vec![hit(4, 12, None)];
    let newest = req.matching_messages(&from, &to, &cc, true);
    assert_eq!(newest, vec![(2, 10, 300), (3, 10, 200), (1, 10, 100), (4, 12, 0)]);
    let oldest = req.matching_messages(&from, &to, &cc, false);
    assert_eq!(oldest, vec![(4, 12, 0), (1, 10, 100), (3, 10, 200), (2, 10, 300)]);
}

#[test]
fn unified_search_filters_by_time_and_account() {
    let req = UnifiedSearchRequest {
        accounts: Some(vec![10]),
        email: "a@x".into(),
        after: Some(150),
        before: Some(250),
    };
    assert!(req.qualifies(&hit(1, 10, Some(200))));
    assert!(!req.qualifies(&hit(1, 11, Some(200))));
    assert!(!req.qualifies(&hit(1, 10, Some(100))));
    assert!(!req.qualifies(&hit(1, 10, Some(300))));
    assert!(!req.qualifies(&hit(1, 10, None)));
    let from = vec![hit(1, 10, Some(100)), hit(2, 10, Some(200)), hit(3, 11, Some(200))];
    assert_eq!(req.matching_messages(&from, &vec![], &vec![], true), vec![(2, 10, 200)]);
}
