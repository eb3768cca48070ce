use rustmailer_core::hook::entity::{EventHooks, HookError, HookType, HttpConfig, HttpMethod};
use rustmailer_core::hook::events::EventType;
use rustmailer_core::message::searching::search_result_page;
use rustmailer_core::hook::task::record_delivery;
use rustmailer_core::imap::{flag_store_plan, FlagStoreError};
use rustmailer_core::license::{License, LicenseContent, LicenseType, DAY_MS};
use rustmailer_core::message::list::{gmail_page, CursorPage, PageError};
use rustmailer_core::message::unified::{page_slice, AddressHit, UnifiedSearchRequest};
use rustmailer_core::message::RequestError;
use rustmailer_core::oauth2::{
    refresh_decision, ExternalOAuth2Request, ExternalTokenError, OAuth2AccessToken, RefreshRefusal,
};
use rustmailer_core::overview::metrics::{snapshot_step, MetricCache, Reading, SeriesKey};
use rustmailer_core::search::{Condition, Conditions, Logic, MessageSearch, Operator, SearchError};

fn cond(condition: Conditions, value: &str) -> MessageSearch {
    MessageSearch::Condition(Condition { condition, value: Some(value.to_string()) })
}

fn logic(operator: Operator, children: Vec<MessageSearch>) -> MessageSearch {
    MessageSearch::Logic(Logic { operator, children })
}

fn lone() -> MessageSearch {
    cond(Conditions::Subject, "\"")
}

#[test]
fn values_that_are_never_reached_need_no_quoting() {
    let short_or = logic(Operator::Or, vec![lone()]);
    assert!(short_or.is_quotable());
    assert_eq!(short_or.to_imap_command(true), Err(SearchError::OrNeedsTwoConditions));
    let after_failure = logic(Operator::And, vec![cond(Conditions::Larger, "big"), lone()]);
    assert!(after_failure.is_quotable());
    assert_eq!(after_failure.to_imap_command(true), Err(SearchError::InvalidNumber));
    let reached = logic(Operator::And, vec![cond(Conditions::Seen, ""), lone()]);
    assert!(!reached.is_quotable());
    let or_from_back = logic(Operator::Or, vec![lone(), cond(Conditions::Larger, "x")]);
    assert!(or_from_back.is_quotable());
    assert_eq!(or_from_back.to_imap_command(true), Err(SearchError::InvalidNumber));
    let or_reached = logic(Operator::Or, vec![lone(), cond(Conditions::Seen, "")]);
    assert!(!or_reached.is_quotable());
}

fn hit(hash: u64, account: u64, date: i64) -> AddressHit {
    AddressHit { envelope_hash: hash, account_id: account, internal_date: Some(date) }
}

#[test]
fn unified_search_pages() {
    let request = UnifiedSearchRequest {
        accounts: None,
        email: "a@example.com".into(),
        after: None,
        before: None,
    };
    let from = vec![hit(1, 7, 100), hit(2, 7, 300), hit(3, 8, 200)];
    let to = vec![hit(1, 7, 999), hit(4, 8, 50)];
    let cc = vec![];
    assert_eq!(
        request.search_page(&from, &to, &cc, 0, 2, true),
        Err(RequestError::PageParamsZero)
    );
    assert_eq!(
        request.search_page(&from, &to, &cc, 1, 0, true),
        Err(RequestError::PageParamsZero)
    );
    assert_eq!(
        request.search_page(&from, &to, &cc, 1, 2, true),
        Ok(vec![(2, 7, 300), (3, 8, 200)])
    );
    assert_eq!(
        request.search_page(&from, &to, &cc, 2, 2, true),
        Ok(vec![(1, 7, 100), (4, 8, 50)])
    );
    assert_eq!(request.search_page(&from, &to, &cc, 3, 2, true), Ok(vec![]));
    assert_eq!(
        request.search_page(&from, &to, &cc, 1, 3, false),
        Ok(vec![(4, 8, 50), (1, 7, 100), (3, 8, 200)])
    );
    let all = vec![(1, 1, 1), (2, 2, 2), (3, 3, 3)];
    assert_eq!(page_slice(&all, 2, 2), Ok(vec![(3, 3, 3)]));
    assert_eq!(page_slice(&all, u64::MAX, u64::MAX), Ok(vec![]));
}

#[test]
fn gmail_listing_pages() {
    assert_eq!(gmail_page(10, None, 3, None), Err(PageError::ResultSizeEstimateMissing));
    assert_eq!(
        gmail_page(10, Some(40), 0, Some("next".into())),
        Ok(CursorPage { next_page_token: None, page_size: Some(10), total_items: 0, total_pages: Some(0) })
    );
    assert_eq!(
        gmail_page(10, Some(41), 10, Some("next".into())),
        Ok(CursorPage {
            next_page_token: Some("next".into()),
            page_size: Some(10),
            total_items: 41,
            total_pages: Some(5),
        })
    );
}

fn flags(v: &[&str]) -> Option<Vec<String>> {
    Some(v.iter().map(|s| s.to_string()).collect())
}

#[test]
fn flag_stores_come_in_order() {
    assert_eq!(
        flag_store_plan("", "INBOX", &flags(&["\\Seen"]), &None, &None),
        (vec![], Some(FlagStoreError::EmptyUidSet))
    );
    assert_eq!(
        flag_store_plan("1:5", "", &flags(&["\\Seen"]), &None, &None),
        (vec![], Some(FlagStoreError::EmptyMailboxName))
    );
    assert_eq!(
        flag_store_plan("1:5", "INBOX", &flags(&["\\Seen"]), &flags(&["\\Draft"]), &flags(&["\\Flagged", "\\Seen"])),
        (vec!["FLAGS (\\Flagged \\Seen)".to_string()], None)
    );
    assert_eq!(
        flag_store_plan("1:5", "INBOX", &flags(&["\\Seen"]), &flags(&["\\Draft"]), &None),
        (vec!["+FLAGS (\\Seen)".to_string(), "-FLAGS (\\Draft)".to_string()], None)
    );
    assert_eq!(
        flag_store_plan("1:5", "INBOX", &flags(&["\\Seen"]), &flags(&[]), &None),
        (vec!["+FLAGS (\\Seen)".to_string()], Some(FlagStoreError::EmptyFlagList))
    );
    assert_eq!(
        flag_store_plan("1:5", "INBOX", &flags(&[]), &flags(&["\\Draft"]), &None),
        (vec![], Some(FlagStoreError::EmptyFlagList))
    );
    assert_eq!(flag_store_plan("1", "INBOX", &None, &None, &None), (vec![], None));
}

#[test]
fn refreshes_are_refused_before_the_provider() {
    let token = OAuth2AccessToken {
        account_id: 3,
        oauth2_id: 9,
        refresh_token: Some("r".into()),
        ..Default::default()
    };
    assert_eq!(
        refresh_decision(false, &token),
        Err(RefreshRefusal::ClientDisabled { oauth2_id: 9 })
    );
    assert_eq!(refresh_decision(true, &token), Ok("r".to_string()));
    let bare = OAuth2AccessToken { refresh_token: None, ..token };
    assert_eq!(refresh_decision(true, &bare), Err(RefreshRefusal::MissingRefreshToken));
}

#[test]
fn deliveries_keep_the_counters_balanced() {
    let hook = EventHooks {
        id: 1,
        enabled: true,
        hook_type: HookType::Http,
        call_count: 5,
        success_count: 3,
        failure_count: 2,
        ..Default::default()
    };
    let ok = record_delivery(&hook, None, 10, 20);
    assert_eq!((ok.call_count, ok.success_count, ok.failure_count), (6, 4, 2));
    assert_eq!(ok.updated_at, 20);
    let bad = record_delivery(&ok, Some("timeout".into()), 30, 40);
    assert_eq!((bad.call_count, bad.success_count, bad.failure_count), (7, 4, 3));
    assert_eq!(bad.last_error, Some("timeout".to_string()));
    assert_eq!(bad.success_count + bad.failure_count, bad.call_count);
}

#[test]
fn snapshot_steps_advance_one_series() {
    let mut cache = MetricCache::new();
    let sent = SeriesKey { metric: "m".into(), label: "sent".into() };
    let queue = SeriesKey { metric: "q".into(), label: "email".into() };
    assert_eq!(snapshot_step(&mut cache, &sent, Reading::Counter(10), 5).value, 0);
    let s = snapshot_step(&mut cache, &sent, Reading::Counter(14), 6);
    assert_eq!((s.value, s.created_at), (4, 6));
    assert_eq!(s.metric, "m");
    assert_eq!(snapshot_step(&mut cache, &queue, Reading::Gauge(3), 7).value, 3);
    assert_eq!(cache.calculate_delta("m", "sent", 20), 6);
}

#[test]
fn renewals_need_only_the_expiry_they_count_from() {
    let current = License { license_type: LicenseType::Starter, expires_at: 2_000 * DAY_MS, ..License::trial(0) };
    let content = LicenseContent {
        issued_license_id: "L-1".into(),
        application_name: None,
        customer_name: None,
        created_at: i64::MAX - DAY_MS,
        license_type: LicenseType::Starter,
        max_accounts: None,
        duration_days: 30,
        ignore_existing_expiry: false,
    };
    let renewed = License::update(current, content, "f".into(), 1_000 * DAY_MS);
    assert_eq!(renewed.expires_at, 2_030 * DAY_MS);
}

#[test]
fn the_last_possible_page_is_answered_empty() {
    let past = search_result_page(u64::MAX, 10, 25);
    assert_eq!(past.slot, None);
    assert_eq!(past.cursor.next_page_token, None);
    assert_eq!(past.cursor.total_pages, Some(3));
    assert_eq!(past.cursor.total_items, 25);
    let only = search_result_page(u64::MAX, 1, u64::MAX);
    assert_eq!(only.slot, Some((u64::MAX - 1) as usize));
    assert_eq!(only.cursor.next_page_token, None);
}

fn new_hook(account_id: Option<u64>, vrl: Option<&str>) -> EventHooks {
    EventHooks {
        id: 1,
        account_id,
        enabled: true,
        hook_type: HookType::Http,
        http: Some(HttpConfig {
            target_url: "https://example.com/hook".into(),
            http_method: HttpMethod::Post,
            custom_headers: vec![],
        }),
        vrl_script: vrl.map(|s| s.to_string()),
        watched_events: vec![EventType::EmailBounce],
        ..Default::default()
    }
}

#[test]
fn new_hooks_are_checked_against_their_account() {
    let hook = new_hook(Some(7), None);
    assert_eq!(hook.validate(false, false, true), Err(HookError::AccountNotFound(7)));
    assert_eq!(hook.validate(true, true, true), Err(HookError::AccountHasHook));
    assert_eq!(hook.validate(true, false, false), Ok(()));
    let global = new_hook(None, Some(". = 1"));
    assert_eq!(global.validate(false, true, true), Ok(()));
    assert_eq!(global.validate(false, true, false), Err(HookError::InvalidVrlScript));
    let unwatched = EventHooks { watched_events: vec![], ..new_hook(Some(7), Some("x")) };
    assert_eq!(unwatched.validate(true, false, false), Err(HookError::NoWatchedEvents));
}

#[test]
fn external_tokens_need_a_configured_client() {
    let paired = ExternalOAuth2Request {
        oauth2_id: Some(4),
        access_token: Some("a".into()),
        refresh_token: Some("r".into()),
    };
    assert_eq!(paired.validate(true), Ok(()));
    assert_eq!(paired.validate(false), Err(ExternalTokenError::ClientNotFound(4)));
    let lone_id = ExternalOAuth2Request { refresh_token: None, ..paired.clone() };
    assert_eq!(lone_id.validate(true), Err(ExternalTokenError::RefreshTokenRequired));
    let lone_token = ExternalOAuth2Request { oauth2_id: None, ..paired };
    assert_eq!(lone_token.validate(true), Err(ExternalTokenError::ClientRequired));
    let access_only = ExternalOAuth2Request { oauth2_id: None, access_token: Some("a".into()), refresh_token: None };
    assert_eq!(access_only.validate(false), Ok(()));
}
