use rustmailer_core::hook::channel::{should_flush, Event, BATCH_SIZE};
use rustmailer_core::hook::entity::{
    apply_internal_update, apply_update, EventHooks, EventhookCreateRequest,
    EventhookUpdateRequest, HookError, HookType, HttpConfig, HttpMethod,
    InternalEventHookUpdateRequest,
};
use rustmailer_core::hook::events::{event_examples, EventPayload, EventType, RustMailerEvent};
use rustmailer_core::hook::http_client::{Decision, Outcome, RetryState};
use rustmailer_core::hook::nats::{
    NatsAuthType, NatsConfig, NatsConnectionManager, NatsCredentialError, NatsCredentials,
    NatsError,
};
use rustmailer_core::hook::payload::{AccountChange, Attachment};
use rustmailer_core::hook::task::{
    bounce_watched, check_delivery_config, event_watched, get_matching_hooks, request_headers,
    task_headers, watches_event, DeliveryError,
};
use rustmailer_core::section::{Encoding, ImapAttachment, SegmentPath};
use rustmailer_core::tokens::TokenSource;

struct Counter(u64);

impl TokenSource for Counter {
    fn next_token(&mut self, len: usize) -> String {
        self.0 += 1;
        format!("{:0>width$}", self.0, width = len.min(8))
    }

    fn next_id(&mut self, _bits: u32) -> u64 {
        self.0 += 1;
        self.0
    }
}

fn nats(namespace: &str, auth: NatsAuthType) -> NatsConfig {
    NatsConfig {
        host: "127.0.0.1".into(),
        port: 4222,
        auth_type: auth,
        token: None,
        username: None,
        password: None,
        stream_name: "events".into(),
        namespace: namespace.into(),
    }
}

fn http(url: &str) -> HttpConfig {
    HttpConfig { target_url: url.into(), http_method: HttpMethod::Post, custom_headers: vec![] }
}

fn hook(id: u64, enabled: bool, events: Vec<EventType>) -> EventHooks {
    EventHooks {
        id,
        enabled,
        hook_type: HookType::Http,
        http: Some(http("https://example.com/hook")),
        watched_events: events,
        ..Default::default()
    }
}

#[test]
fn event_types_display_their_names() {
    assert_eq!(EventType::EmailBounce.to_string(), "EmailBounce");
    assert_eq!(EventType::UIDValidityChange.to_string(), "UIDValidityChange");
    assert_eq!(EventType::default(), EventType::EmailAddedToFolder);
    assert_eq!(HookType::Nats.as_str(), "nats");
    assert_eq!(HttpMethod::Put.to_string(), "Put");
}

#[test]
fn tests_test1() {
    let mut ids = Counter(0);
    let examples = event_examples(&mut ids, 1700000000000, "https://mailer.example.com");
    println!("{:#?}", examples);
}

#[test]
fn every_kind_of_event_has_one_example() {
    let mut ids = Counter(0);
    let examples = event_examples(&mut ids, 1700000000000, "https://mailer.example.com");
    assert_eq!(examples.len(), 12);
    for e in &examples {
        assert_eq!(e.timestamp, 1700000000000);
        assert_eq!(e.instance_url, "https://mailer.example.com");
    }
    assert_eq!(examples[0].event_type, EventType::EmailAddedToFolder);
    assert!(matches!(examples[0].payload, EventPayload::EmailAddedToFolder(_)));
    assert_eq!(examples[8].event_type, EventType::EmailBounce);
    assert!(matches!(examples[8].payload, EventPayload::EmailBounce(_)));
    match &examples[2].payload {
        EventPayload::EmailSentSuccess(p) => {
            assert_eq!(p.account_email, "user@example.com");
            assert_eq!(p.message_id, "<msg202@server.com>");
        }
        _ => panic!("the third example is a sent message"),
    }
    let mut seen: Vec<u64> = examples.iter().map(|e| e.event_id).collect();
    seen.sort();
    seen.dedup();
    assert_eq!(seen.len(), 12);
}

#[test]
fn events_and_queue_entries_keep_what_they_are_given() {
    let payload = EventPayload::AccountFirstSyncCompleted(AccountChange {
        account_id: 5,
        account_email: "a@x".into(),
    });
    let e = RustMailerEvent::new(EventType::AccountFirstSyncCompleted, payload, 9, "u".into(), 3);
    assert_eq!(e.event_id, 9);
    let queued = Event::new(5, "a@x", e);
    assert_eq!(queued.account_email, "a@x");
    assert!(should_flush(BATCH_SIZE, 0));
    assert!(should_flush(1, 1000));
    assert!(!should_flush(1, 10));
    assert!(!should_flush(0, 5000));
    let att = ImapAttachment::new(
        "i".into(),
        SegmentPath::new(vec![1]),
        Some("f.pdf".into()),
        5,
        "pdf".into(),
        Encoding::Base64,
        false,
        None,
    );
    let a = Attachment::from_imap(att);
    assert_eq!(a.filename, Some("f.pdf".to_string()));
    assert_eq!(a.size, 5);
}

#[test]
fn nats_settings_are_checked() {
    assert_eq!(nats("events_1", NatsAuthType::NoAuth).validate(), Ok(()));
    assert_eq!(nats("1events", NatsAuthType::NoAuth).validate(), Err(NatsError::InvalidNamespace));
    assert_eq!(nats("ev.ents", NatsAuthType::NoAuth).validate(), Err(NatsError::InvalidNamespace));
    assert_eq!(
        nats("events", NatsAuthType::Password).validate(),
        Err(NatsError::PasswordCredentialsMissing)
    );
    assert_eq!(nats("events", NatsAuthType::Token).validate(), Err(NatsError::TokenMissing));
    let mut with_token = nats("events", NatsAuthType::Token);
    with_token.token = Some("t".into());
    assert_eq!(with_token.validate(), Ok(()));
    assert_eq!(with_token.url(), "nats://127.0.0.1:4222");
    assert_eq!(with_token.stream_subject(), "events.>");
    let manager = NatsConnectionManager::new(&with_token);
    assert_eq!(manager.config, with_token);
    assert_eq!(with_token.event_subject(EventType::EmailOpened), "events.EmailOpened");
    assert_eq!(with_token.credentials(), Ok(NatsCredentials::Token("t".into())));
    assert_eq!(nats("e", NatsAuthType::NoAuth).credentials(), Ok(NatsCredentials::Anonymous));
    let mut user_only = nats("e", NatsAuthType::Password);
    user_only.username = Some("u".into());
    assert_eq!(user_only.credentials(), Err(NatsCredentialError::PasswordMissing));
    assert_eq!(
        nats("e", NatsAuthType::Password).credentials(),
        Err(NatsCredentialError::UsernameMissing)
    );
    user_only.password = Some("p".into());
    assert_eq!(
        user_only.credentials(),
        Ok(NatsCredentials::UserPassword("u".into(), "p".into()))
    );
}

#[test]
fn hook_settings_are_checked_in_order() {
    let good = hook(1, true, vec![EventType::EmailBounce]);
    assert_eq!(good.check_settings(), Ok(()));
    let no_http = EventHooks { http: None, ..good.clone() };
    assert_eq!(no_http.check_settings(), Err(HookError::HttpConfigMissing));
    let nats_missing = EventHooks { hook_type: HookType::Nats, http: None, ..good.clone() };
    assert_eq!(nats_missing.check_settings(), Err(HookError::NatsConfigMissing));
    let both = EventHooks { nats: Some(nats("ev", NatsAuthType::NoAuth)), ..good.clone() };
    assert_eq!(both.check_settings(), Err(HookError::BothConfigured));
    let bad_url = EventHooks { http: Some(http("not a url")), ..good.clone() };
    assert_eq!(bad_url.check_settings(), Err(HookError::InvalidUrl));
    let mut headers = http("https://example.com");
    headers.custom_headers = vec![("X-Ok".into(), "v".into()), ("Bad Name".into(), "v".into())];
    let bad_name = EventHooks { http: Some(headers.clone()), ..good.clone() };
    assert_eq!(bad_name.check_settings(), Err(HookError::InvalidHeaderName("Bad Name".into())));
    headers.custom_headers = vec![("X-A".into(), "line\nbreak".into())];
    let bad_value = EventHooks { http: Some(headers), ..good.clone() };
    assert_eq!(bad_value.check_settings(), Err(HookError::InvalidHeaderValue("line\nbreak".into())));
    let nats_hook = EventHooks {
        hook_type: HookType::Nats,
        http: None,
        nats: Some(nats("9bad", NatsAuthType::NoAuth)),
        ..good.clone()
    };
    assert_eq!(nats_hook.check_settings(), Err(HookError::Nats(NatsError::InvalidNamespace)));
    let idle = EventHooks { watched_events: vec![], ..good };
    assert_eq!(idle.check_settings(), Err(HookError::NoWatchedEvents));
}

#[test]
fn hooks_are_created_and_updated() {
    let request = EventhookCreateRequest {
        account_id: Some(3),
        description: Some("d".into()),
        enabled: true,
        hook_type: HookType::Http,
        http: Some(http("https://example.com")),
        nats: None,
        vrl_script: None,
        watched_events: vec![EventType::EmailOpened],
        use_proxy: None,
    };
    let created = EventHooks::from_request(request, 77, Some("a@x".into()), 1000);
    assert_eq!(created.global, 0);
    assert_eq!(created.created_at, 1000);
    assert_eq!(created.call_count, 0);
    let global = EventHooks::from_request(EventhookCreateRequest::default(), 78, None, 5);
    assert_eq!(global.global, 1);

    let nothing = apply_update(&created, EventhookUpdateRequest::default(), 2000);
    assert_eq!(nothing, EventHooks { updated_at: 2000, ..created.clone() });
    let change = EventhookUpdateRequest {
        enabled: Some(false),
        watched_events: Some(vec![EventType::EmailBounce]),
        ..Default::default()
    };
    let changed = apply_update(&created, change, 3000);
    assert!(!changed.enabled);
    assert_eq!(changed.watched_events, vec![EventType::EmailBounce]);
    assert_eq!(changed.description, created.description);

    let started = apply_internal_update(&created, InternalEventHookUpdateRequest::call_started(), 4000);
    assert_eq!(started.call_count, 1);
    let ok = apply_internal_update(&started, InternalEventHookUpdateRequest::delivered(), 4001);
    assert_eq!((ok.call_count, ok.success_count, ok.failure_count), (1, 1, 0));
    let failed =
        apply_internal_update(&ok, InternalEventHookUpdateRequest::failed("boom".into()), 4002);
    assert_eq!(failed.failure_count, 1);
    assert_eq!(failed.last_error, Some("boom".to_string()));
    assert_eq!(failed.updated_at, 4002);
}

#[test]
fn events_reach_the_enabled_hooks_that_watch_them() {
    let own = Some(hook(1, true, vec![EventType::EmailAddedToFolder]));
    let globals = vec![
        hook(2, true, vec![EventType::EmailAddedToFolder, EventType::EmailBounce]),
        hook(3, false, vec![EventType::EmailAddedToFolder]),
        hook(4, true, vec![EventType::EmailFeedBackReport]),
    ];
    let ids = |v: Vec<EventHooks>| v.into_iter().map(|h| h.id).collect::<Vec<u64>>();
    assert_eq!(ids(get_matching_hooks(&own, &globals, EventType::EmailAddedToFolder)), vec![1, 2]);
    assert_eq!(ids(get_matching_hooks(&own, &globals, EventType::EmailBounce)), vec![2]);
    assert_eq!(ids(get_matching_hooks(&None, &globals, EventType::EmailOpened)), Vec::<u64>::new());
    assert!(event_watched(&own, &globals, EventType::EmailAddedToFolder));
    assert!(!event_watched(&own, &globals, EventType::EmailOpened));
    assert!(bounce_watched(&None, &globals));
    assert!(!bounce_watched(&own, &vec![globals[1].clone()]));
    assert!(watches_event(&globals[0], EventType::EmailBounce));
    assert!(!watches_event(&globals[1], EventType::EmailAddedToFolder));
}

#[test]
fn deliveries_need_their_configuration() {
    let h = hook(1, true, vec![EventType::EmailBounce]);
    assert_eq!(check_delivery_config(&h), Ok(()));
    let missing = EventHooks { http: None, ..h.clone() };
    assert_eq!(check_delivery_config(&missing), Err(DeliveryError::HttpConfigMissing));
    let nats_missing = EventHooks { hook_type: HookType::Nats, ..h.clone() };
    assert_eq!(check_delivery_config(&nats_missing), Err(DeliveryError::NatsConfigMissing));
    let config = http("https://example.com");
    assert!(request_headers(&config).is_none());
    let with = HttpConfig { custom_headers: vec![("A".into(), "b".into())], ..config };
    assert_eq!(request_headers(&with).map(|v| v.len()), Some(1));
    let headers = task_headers(12, 1000, Some(2), 1500);
    assert_eq!(
        headers,
        vec![
            ("X-Task-Id".to_string(), "12".to_string()),
            ("X-Task-Delay-MS".to_string(), "500".to_string()),
            ("X-Task-Retry-Count".to_string(), "2".to_string()),
        ]
    );
    assert_eq!(task_headers(1, 10, None, 5)[1].1, "-5");
}

#[test]
fn api_requests_are_tried_four_times_with_doubling_waits() {
    let s0 = RetryState::start();
    let (s1, d1) = s0.step(Outcome::Status(503), "");
    assert_eq!(d1, Decision::Retry(500));
    let (s2, d2) = s1.step(Outcome::TransportError, "");
    assert_eq!(d2, Decision::Retry(1000));
    let (s3, d3) = s2.step(Outcome::Status(400), "{\"reason\":\"failedPrecondition\"}");
    assert_eq!(d3, Decision::Retry(2000));
    let (_, d4) = s3.step(Outcome::Status(503), "");
    assert_eq!(d4, Decision::CallFailed);
    let (_, d4) = s3.step(Outcome::TransportError, "");
    assert_eq!(d4, Decision::RequestFailed);
    assert_eq!(s0.step(Outcome::Status(200), "").1, Decision::Accept);
    assert_eq!(s0.step(Outcome::Status(404), "").1, Decision::ClientError);
    assert_eq!(s0.step(Outcome::Status(400), "bad").1, Decision::ClientError);
    assert_eq!(s0.step(Outcome::Status(401), "").1, Decision::CallFailed);
}
