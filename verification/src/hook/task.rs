//! Which hooks receive an event: the hook of the event's account and the
//! global hooks, each only while it is enabled and watches the event's kind.
use vstd::prelude::*;
use crate::hook::entity::{
    apply_internal_update, copy_hook, counted_hook, same_hook, EventHooks, HookType, HttpConfig,
    InternalEventHookUpdateRequest,
};
use crate::text::{decimal, i64_to_decimal, signed_decimal, u64_to_decimal};
use crate::hook::events::EventType;

verus! {

/// The hook is enabled and watches the kind of event.
pub open spec fn watches(h: EventHooks, e: EventType) -> bool {
    h.enabled && h.watched_events@.contains(e)
}

/// The hooks of the list that receive the event, in their order.
pub open spec fn watching(hooks: Seq<EventHooks>, e: EventType) -> Seq<EventHooks>
    decreases hooks.len(),
{
    if hooks.len() == 0 {
        hooks
    } else if watches(hooks.last(), e) {
        watching(hooks.drop_last(), e).push(hooks.last())
    } else {
        watching(hooks.drop_last(), e)
    }
}

/// The hooks that receive an event: the account's hook first, if it receives
/// it, then the global hooks that do.
pub open spec fn matching_hooks(account: Option<EventHooks>, globals: Seq<EventHooks>, e: EventType) -> Seq<
    EventHooks,
> {
    own_hook(account, e) + watching(globals, e)
}

/// The account's hook, if it receives the event.
pub open spec fn own_hook(account: Option<EventHooks>, e: EventType) -> Seq<EventHooks> {
    match account {
        Some(h) => if watches(h, e) {
            seq![h]
        } else {
            Seq::empty()
        },
        None => Seq::empty(),
    }
}

/// Some hook receives the event.
pub open spec fn event_watched_spec(account: Option<EventHooks>, globals: Seq<EventHooks>, e: EventType) -> bool {
    (account matches Some(h) && watches(h, e)) || exists|i: int|
        0 <= i < globals.len() && watches(#[trigger] globals[i], e)
}

/// The hook is enabled and watches bounces or feedback reports.
pub open spec fn watches_bounces(h: EventHooks) -> bool {
    h.enabled && (h.watched_events@.contains(EventType::EmailBounce)
        || h.watched_events@.contains(EventType::EmailFeedBackReport))
}

/// Some hook receives bounces or feedback reports.
pub open spec fn bounce_watched_spec(account: Option<EventHooks>, globals: Seq<EventHooks>) -> bool {
    (account matches Some(h) && watches_bounces(h)) || exists|i: int|
        0 <= i < globals.len() && watches_bounces(#[trigger] globals[i])
}

fn contains_event(v: &Vec<EventType>, e: EventType) -> (r: bool)
    ensures
        r == v@.contains(e),
{
    let mut i: usize = 0;
    while i < v.len()
        invariant
            i <= v@.len(),
            forall|j: int| 0 <= j < i ==> v@[j] != e,
        decreases v.len() - i,
    {
        if v[i] == e {
            assert(v@[i as int] == e);
            return true;
        }
        i = i + 1;
    }
    false
}

/// The hook is enabled and watches the kind of event.
pub fn watches_event(h: &EventHooks, e: EventType) -> (r: bool)
    ensures
        r == watches(*h, e),
{
    h.enabled && contains_event(&h.watched_events, e)
}

/// Whether any hook receives events of this kind for the account whose hook
/// is `account`.
pub fn event_watched(account: &Option<EventHooks>, globals: &Vec<EventHooks>, e: EventType) -> (r:
    bool)
    ensures
        r == event_watched_spec(*account, globals@, e),
{
    let own = match account {
        Some(h) => watches_event(h, e),
        None => false,
    };
    if own {
        return true;
    }
    let mut i: usize = 0;
    while i < globals.len()
        invariant
            i <= globals@.len(),
            forall|j: int| 0 <= j < i ==> !watches(#[trigger] globals@[j], e),
        decreases globals.len() - i,
    {
        if watches_event(&globals[i], e) {
            return true;
        }
        i = i + 1;
    }
    false
}

/// Whether any hook receives bounces or feedback reports for the account
/// whose hook is `account`.
pub fn bounce_watched(account: &Option<EventHooks>, globals: &Vec<EventHooks>) -> (r: bool)
    ensures
        r == bounce_watched_spec(*account, globals@),
{
    let own = match account {
        Some(h) => h.enabled && (contains_event(&h.watched_events, EventType::EmailBounce)
            || contains_event(&h.watched_events, EventType::EmailFeedBackReport)),
        None => false,
    };
    if own {
        return true;
    }
    let mut i: usize = 0;
    while i < globals.len()
        invariant
            i <= globals@.len(),
            forall|j: int| 0 <= j < i ==> !watches_bounces(#[trigger] globals@[j]),
        decreases globals.len() - i,
    {
        let h = &globals[i];
        if h.enabled && (contains_event(&h.watched_events, EventType::EmailBounce)
            || contains_event(&h.watched_events, EventType::EmailFeedBackReport)) {
            assert(watches_bounces(globals@[i as int]));
            return true;
        }
        i = i + 1;
    }
    false
}

/// The hooks that receive an event of kind `e` raised for the account whose
/// hook is `account`: that hook first, if it receives it, then the global hooks
/// that do, in their order.
pub fn get_matching_hooks(account: &Option<EventHooks>, globals: &Vec<EventHooks>, e: EventType) -> (r:
    Vec<EventHooks>)
    ensures
        r@.len() == matching_hooks(*account, globals@, e).len(),
        forall|i: int|
            0 <= i < r@.len() ==> same_hook(#[trigger] r@[i], matching_hooks(*account, globals@, e)[i]),
{
    let mut r: Vec<EventHooks> = Vec::new();
    let ghost own: Seq<EventHooks> = own_hook(*account, e);
    if let Some(h) = account {
        if watches_event(h, e) {
            r.push(copy_hook(h));
        }
    }
    let mut i: usize = 0;
    while i < globals.len()
        invariant
            i <= globals@.len(),
            r@.len() == own.len() + watching(globals@.take(i as int), e).len(),
            forall|k: int|
                0 <= k < r@.len() ==> same_hook(
                    #[trigger] r@[k],
                    (own + watching(globals@.take(i as int), e))[k],
                ),
        decreases globals.len() - i,
    {
        let ghost prev = own + watching(globals@.take(i as int), e);
        assert(globals@.take(i + 1).drop_last() =~= globals@.take(i as int));
        assert(globals@.take(i + 1).last() == globals@[i as int]);
        if watches_event(&globals[i], e) {
            r.push(copy_hook(&globals[i]));
            assert(own + watching(globals@.take(i + 1), e) =~= prev.push(globals@[i as int]));
        } else {
            assert(own + watching(globals@.take(i + 1), e) =~= prev);
        }
        i = i + 1;
    }
    assert(globals@.take(i as int) =~= globals@);
    r
}

proof fn lemma_watching_members(hooks: Seq<EventHooks>, e: EventType)
    ensures
        forall|i: int| 0 <= i < watching(hooks, e).len() ==> watches(#[trigger] watching(hooks, e)[i], e),
        watching(hooks, e).len() > 0 <==> exists|i: int| 0 <= i < hooks.len() && watches(#[trigger] hooks[i], e),
    decreases hooks.len(),
{
    if hooks.len() > 0 {
        lemma_watching_members(hooks.drop_last(), e);
        if watches(hooks.last(), e) {
            assert(watches(hooks[hooks.len() - 1], e));
        } else if watching(hooks.drop_last(), e).len() > 0 {
            let i = choose|i: int| 0 <= i < hooks.drop_last().len() && watches(#[trigger] hooks.drop_last()[i], e);
            assert(hooks[i] == hooks.drop_last()[i]);
        } else {
            assert forall|i: int| 0 <= i < hooks.len() implies !watches(#[trigger] hooks[i], e) by {
                if i < hooks.len() - 1 {
                    assert(hooks[i] == hooks.drop_last()[i]);
                }
            }
        }
    }
}

/// An event is watched exactly when some hook would receive it: the check that
/// the mail sync makes before raising an event agrees with the hooks that the
/// event is then delivered to, and every hook that receives it is enabled and
/// watches its kind.
pub proof fn lemma_watched_iff_delivered(account: Option<EventHooks>, globals: Seq<EventHooks>, e: EventType)
    ensures
        event_watched_spec(account, globals, e) <==> matching_hooks(account, globals, e).len() > 0,
        forall|i: int|
            0 <= i < matching_hooks(account, globals, e).len() ==> watches(
                #[trigger] matching_hooks(account, globals, e)[i],
                e,
            ),
{
    lemma_watching_members(globals, e);
    let own = own_hook(account, e);
    assert forall|i: int|
        0 <= i < matching_hooks(account, globals, e).len() implies watches(
        #[trigger] matching_hooks(account, globals, e)[i],
        e,
    ) by {
        if i >= own.len() {
            assert(matching_hooks(account, globals, e)[i] == watching(globals, e)[i - own.len()]);
        }
    }
}

proof fn lemma_watching_includes(hooks: Seq<EventHooks>, e: EventType, j: int)
    requires
        0 <= j < hooks.len(),
        hooks[j].enabled,
        hooks[j].watched_events@.contains(e),
    ensures
        watching(hooks, e).contains(hooks[j]),
    decreases hooks.len(),
{
    if j == hooks.len() - 1 {
        assert(watching(hooks, e) == watching(hooks.drop_last(), e).push(hooks.last()));
        assert(watching(hooks, e)[watching(hooks, e).len() - 1] == hooks[j]);
    } else {
        assert(hooks.drop_last()[j] == hooks[j]);
        lemma_watching_includes(hooks.drop_last(), e, j);
        let k = choose|k: int| 0 <= k < watching(hooks.drop_last(), e).len() && watching(hooks.drop_last(), e)[k] == hooks[j];
        if watches(hooks.last(), e) {
            assert(watching(hooks, e)[k] == hooks[j]);
        }
    }
}

/// An event goes to exactly the enabled hooks that watch its kind: every hook
/// that receives it is enabled and lists its kind; every enabled global hook
/// that lists the kind receives it; and the account's own hook, when enabled
/// and listing the kind, receives it first. A disabled hook never receives an
/// event.
pub proof fn lemma_events_reach_enabled_watchers(
    account: Option<EventHooks>,
    globals: Seq<EventHooks>,
    e: EventType,
)
    ensures
        forall|i: int|
            0 <= i < matching_hooks(account, globals, e).len() ==> (#[trigger] matching_hooks(
                account,
                globals,
                e,
            )[i]).enabled && matching_hooks(account, globals, e)[i].watched_events@.contains(e),
        forall|j: int|
            0 <= j < globals.len() && (#[trigger] globals[j]).enabled
                && globals[j].watched_events@.contains(e) ==> matching_hooks(account, globals, e).contains(
                globals[j],
            ),
        account is Some && account->0.enabled && account->0.watched_events@.contains(e)
            ==> matching_hooks(account, globals, e).len() > 0 && matching_hooks(account, globals, e)[0]
            == account->0,
{
    lemma_watched_iff_delivered(account, globals, e);
    let own = own_hook(account, e);
    let m = matching_hooks(account, globals, e);
    assert forall|j: int|
        0 <= j < globals.len() && (#[trigger] globals[j]).enabled
            && globals[j].watched_events@.contains(e) implies m.contains(globals[j]) by {
        lemma_watching_includes(globals, e, j);
        let k = choose|k: int| 0 <= k < watching(globals, e).len() && watching(globals, e)[k] == globals[j];
        assert(m[own.len() + k] == globals[j]);
    }
}

/// Bounces are watched exactly when bounce events or feedback reports are.
pub proof fn lemma_bounce_watched(account: Option<EventHooks>, globals: Seq<EventHooks>)
    ensures
        bounce_watched_spec(account, globals) <==> event_watched_spec(
            account,
            globals,
            EventType::EmailBounce,
        ) || event_watched_spec(account, globals, EventType::EmailFeedBackReport),
{
    if bounce_watched_spec(account, globals) {
        if !(account matches Some(h) && (watches(h, EventType::EmailBounce) || watches(
            h,
            EventType::EmailFeedBackReport,
        ))) {
            let i = choose|i: int| 0 <= i < globals.len() && watches_bounces(#[trigger] globals[i]);
            assert(watches(globals[i], EventType::EmailBounce) || watches(
                globals[i],
                EventType::EmailFeedBackReport,
            ));
        }
    } else {
        assert forall|i: int| 0 <= i < globals.len() implies !watches(
            #[trigger] globals[i],
            EventType::EmailBounce,
        ) && !watches(globals[i], EventType::EmailFeedBackReport) by {
            assert(!watches_bounces(globals[i]));
        }
    }
}


/// How many times a delivery is retried.
pub const MAX_DELIVERY_RETRIES: u32 = 10;

/// The base of the exponential back-off between retries.
pub const RETRY_BACKOFF_BASE: u32 = 2;

impl InternalEventHookUpdateRequest {
    /// The bookkeeping when a delivery starts: one more call.
    pub fn call_started() -> (r: InternalEventHookUpdateRequest)
        ensures
            r == (InternalEventHookUpdateRequest {
                increase_call_count: Some(true),
                increase_success_count: None,
                increase_failure_count: None,
                last_error: None,
            }),
    {
        InternalEventHookUpdateRequest {
            increase_call_count: Some(true),
            increase_success_count: None,
            increase_failure_count: None,
            last_error: None,
        }
    }

    /// The bookkeeping of a delivery that succeeded.
    pub fn delivered() -> (r: InternalEventHookUpdateRequest)
        ensures
            r == (InternalEventHookUpdateRequest {
                increase_call_count: None,
                increase_success_count: Some(true),
                increase_failure_count: None,
                last_error: None,
            }),
    {
        InternalEventHookUpdateRequest {
            increase_call_count: None,
            increase_success_count: Some(true),
            increase_failure_count: None,
            last_error: None,
        }
    }

    /// The bookkeeping of a delivery that failed with `error`.
    pub fn failed(error: String) -> (r: InternalEventHookUpdateRequest)
        ensures
            r == (InternalEventHookUpdateRequest {
                increase_call_count: None,
                increase_success_count: None,
                increase_failure_count: Some(true),
                last_error: Some(error),
            }),
    {
        InternalEventHookUpdateRequest {
            increase_call_count: None,
            increase_success_count: None,
            increase_failure_count: Some(true),
            last_error: Some(error),
        }
    }
}

/// Why an event cannot be delivered by a hook.
#[derive(Clone, Copy, Debug, PartialEq, Eq, Structural)]
pub enum DeliveryError {
    /// An HTTP hook without its HTTP configuration.
    HttpConfigMissing,
    /// A NATS hook without its NATS configuration.
    NatsConfigMissing,
}

/// A hook can deliver when it has the configuration that its type needs.
pub fn check_delivery_config(hook: &EventHooks) -> (r: Result<(), DeliveryError>)
    ensures
        hook.hook_type == HookType::Http && hook.http is None ==> r == Err::<(), DeliveryError>(
            DeliveryError::HttpConfigMissing,
        ),
        hook.hook_type == HookType::Nats && hook.nats is None ==> r == Err::<(), DeliveryError>(
            DeliveryError::NatsConfigMissing,
        ),
        (hook.hook_type == HookType::Http && hook.http is Some) || (hook.hook_type == HookType::Nats
            && hook.nats is Some) ==> r is Ok,
{
    match hook.hook_type {
        HookType::Http => if hook.http.is_none() {
            Err(DeliveryError::HttpConfigMissing)
        } else {
            Ok(())
        },
        HookType::Nats => if hook.nats.is_none() {
            Err(DeliveryError::NatsConfigMissing)
        } else {
            Ok(())
        },
    }
}

/// The custom headers to send with a payload: none when the configuration
/// has none.
pub fn request_headers(config: &HttpConfig) -> (r: Option<&Vec<(String, String)>>)
    ensures
        config.custom_headers@.len() == 0 ==> r is None,
        config.custom_headers@.len() > 0 ==> r == Some(&config.custom_headers),
{
    if config.custom_headers.len() == 0 {
        None
    } else {
        Some(&config.custom_headers)
    }
}

/// The headers that identify a delivery task: its id, how long it waited
/// (from its creation to `now`, in milliseconds), and, after a retry, how
/// many retries there were.
pub fn task_headers(id: u64, created_at: i64, retry_count: Option<usize>, now: i64) -> (r: Vec<
    (String, String),
>)
    requires
        i64::MIN <= now - created_at <= i64::MAX,
    ensures
        r@.len() == (if retry_count is Some {
            3int
        } else {
            2int
        }),
        r@[0].0@ == "X-Task-Id"@ && r@[0].1@ == decimal(id as nat),
        r@[1].0@ == "X-Task-Delay-MS"@ && r@[1].1@ == signed_decimal(now - created_at),
        retry_count matches Some(n) ==> r@[2].0@ == "X-Task-Retry-Count"@ && r@[2].1@ == decimal(
            n as nat,
        ),
{
    let mut r: Vec<(String, String)> = Vec::new();
    r.push(("X-Task-Id".to_owned(), u64_to_decimal(id)));
    r.push(("X-Task-Delay-MS".to_owned(), i64_to_decimal(now - created_at)));
    if let Some(n) = retry_count {
        r.push(("X-Task-Retry-Count".to_owned(), u64_to_decimal(n as u64)));
    }
    r
}

/// The stored hook after one delivery: the call started at `started` and
/// ended at `finished`, delivered when `error` is none, failed with `error`
/// otherwise.
pub open spec fn after_delivery(old: EventHooks, error: Option<String>, started: i64, finished: i64) -> EventHooks {
    let begun = counted_hook(
        old,
        InternalEventHookUpdateRequest {
            increase_call_count: Some(true),
            increase_success_count: None,
            increase_failure_count: None,
            last_error: None,
        },
        started,
    );
    match error {
        None => counted_hook(
            begun,
            InternalEventHookUpdateRequest {
                increase_call_count: None,
                increase_success_count: Some(true),
                increase_failure_count: None,
                last_error: None,
            },
            finished,
        ),
        Some(e) => counted_hook(
            begun,
            InternalEventHookUpdateRequest {
                increase_call_count: None,
                increase_success_count: None,
                increase_failure_count: Some(true),
                last_error: Some(e),
            },
            finished,
        ),
    }
}

/// The bookkeeping of one delivery of an event to a hook: one more call, then
/// one more success, or one more failure with its error recorded.
pub fn record_delivery(hook: &EventHooks, error: Option<String>, started: i64, finished: i64) -> (r:
    EventHooks)
    requires
        hook.call_count < u64::MAX,
        hook.success_count < u64::MAX,
        hook.failure_count < u64::MAX,
    ensures
        same_hook(r, after_delivery(*hook, error, started, finished)),
        r.call_count == hook.call_count + 1,
        error is None ==> r.success_count == hook.success_count + 1 && r.failure_count
            == hook.failure_count && r.last_error == hook.last_error,
        error is Some ==> r.failure_count == hook.failure_count + 1 && r.success_count
            == hook.success_count && r.last_error == error,
        r.updated_at == finished,
{
    let begun = apply_internal_update(hook, InternalEventHookUpdateRequest::call_started(), started);
    match error {
        None => apply_internal_update(&begun, InternalEventHookUpdateRequest::delivered(), finished),
        Some(e) => apply_internal_update(&begun, InternalEventHookUpdateRequest::failed(e), finished),
    }
}

/// Every delivery counts as one call and as exactly one success or one
/// failure: a hook whose successes and failures add up to its calls keeps
/// that balance.
pub proof fn lemma_deliveries_balance(old: EventHooks, error: Option<String>, started: i64, finished: i64)
    requires
        old.call_count < u64::MAX,
        old.success_count < u64::MAX,
        old.failure_count < u64::MAX,
        old.success_count + old.failure_count == old.call_count,
    ensures
        ({
            let new = after_delivery(old, error, started, finished);
            &&& new.call_count == old.call_count + 1
            &&& new.success_count + new.failure_count == new.call_count
        }),
{
}

} // verus!
