//! Event hooks: how they are configured, the checks a configuration must pass,
//! and how updates and delivery counters change a stored hook.
use vstd::prelude::*;
use vstd::utf8::encode_utf8;
use crate::hook::events::EventType;
use crate::hook::nats::{copy_nats_config, nats_config_check, NatsConfig, NatsError};

verus! {

/// The HTTP method with which a payload is delivered.
#[derive(Clone, Copy, Debug, PartialEq, Eq, Structural)]
pub enum HttpMethod {
    Post,
    Put,
}

impl Default for HttpMethod {
    fn default() -> (r: HttpMethod)
        ensures
            r == HttpMethod::Post,
    {
        HttpMethod::Post
    }
}

impl HttpMethod {
    /// The displayed name of the method.
    pub fn to_string(&self) -> (r: String)
        ensures
            r@ == (match *self {
                HttpMethod::Post => "Post"@,
                HttpMethod::Put => "Put"@,
            }),
    {
        match self {
            HttpMethod::Post => "Post".to_owned(),
            HttpMethod::Put => "Put".to_owned(),
        }
    }
}

/// How a hook delivers events.
#[derive(Clone, Copy, Debug, PartialEq, Eq, Structural)]
pub enum HookType {
    /// Payloads are sent over HTTP.
    Http,
    /// Events are published to a NATS stream.
    Nats,
}

impl Default for HookType {
    fn default() -> (r: HookType)
        ensures
            r == HookType::Http,
    {
        HookType::Http
    }
}

impl HookType {
    /// The name under which deliveries of this kind are counted.
    pub fn as_str(&self) -> (r: &'static str)
        ensures
            r@ == (match *self {
                HookType::Http => "http"@,
                HookType::Nats => "nats"@,
            }),
    {
        match self {
            HookType::Http => "http",
            HookType::Nats => "nats",
        }
    }
}

/// Where and how an HTTP hook sends its payloads.
#[derive(Clone, Debug, Default, PartialEq, Eq)]
pub struct HttpConfig {
    pub target_url: String,
    pub http_method: HttpMethod,
    /// Extra request headers, in the ascending order of their names, each name
    /// once.
    pub custom_headers: Vec<(String, String)>,
}

/// A configured event hook, as it is stored.
#[derive(Clone, Debug, Default, PartialEq, Eq)]
pub struct EventHooks {
    pub id: u64,
    /// The account whose events the hook receives; none for a global hook.
    pub account_id: Option<u64>,
    /// The address of that account.
    pub email: Option<String>,
    pub description: Option<String>,
    /// Milliseconds since the Unix epoch.
    pub created_at: i64,
    /// Milliseconds since the Unix epoch.
    pub updated_at: i64,
    /// 1 for a global hook, which receives the events of every account; 0
    /// otherwise.
    pub global: u8,
    pub enabled: bool,
    pub hook_type: HookType,
    pub http: Option<HttpConfig>,
    pub nats: Option<NatsConfig>,
    /// A VRL program that rewrites each payload before delivery.
    pub vrl_script: Option<String>,
    /// How many deliveries were attempted.
    pub call_count: u64,
    /// How many deliveries succeeded.
    pub success_count: u64,
    /// How many deliveries failed.
    pub failure_count: u64,
    pub last_error: Option<String>,
    pub watched_events: Vec<EventType>,
    /// The proxy to connect through, if any.
    pub use_proxy: Option<u64>,
}

/// Request to create a hook.
#[derive(Clone, Debug, Default, PartialEq, Eq)]
pub struct EventhookCreateRequest {
    pub account_id: Option<u64>,
    pub description: Option<String>,
    pub enabled: bool,
    pub hook_type: HookType,
    pub http: Option<HttpConfig>,
    pub nats: Option<NatsConfig>,
    pub vrl_script: Option<String>,
    pub watched_events: Vec<EventType>,
    pub use_proxy: Option<u64>,
}

/// Request to change a hook; each field that is present replaces the stored
/// one.
#[derive(Clone, Debug, Default, PartialEq, Eq)]
pub struct EventhookUpdateRequest {
    pub description: Option<String>,
    pub enabled: Option<bool>,
    pub http: Option<HttpConfig>,
    pub nats: Option<NatsConfig>,
    pub vrl_script: Option<String>,
    pub watched_events: Option<Vec<EventType>>,
    pub use_proxy: Option<u64>,
}

/// The bookkeeping of one delivery: which counters go up, and the error to
/// record.
#[derive(Clone, Debug, Default, PartialEq, Eq)]
pub struct InternalEventHookUpdateRequest {
    pub increase_call_count: Option<bool>,
    pub increase_success_count: Option<bool>,
    pub increase_failure_count: Option<bool>,
    pub last_error: Option<String>,
}

pub fn copy_text(s: &Option<String>) -> (r: Option<String>)
    ensures
        r == *s,
{
    match s {
        Some(t) => Some(t.clone()),
        None => None,
    }
}

fn copy_headers(v: &Vec<(String, String)>) -> (r: Vec<(String, String)>)
    ensures
        r@ == v@,
{
    let mut r: Vec<(String, String)> = Vec::new();
    let mut i: usize = 0;
    while i < v.len()
        invariant
            i <= v@.len(),
            r@ == v@.take(i as int),
        decreases v.len() - i,
    {
        let (k, x) = &v[i];
        r.push((k.clone(), x.clone()));
        i = i + 1;
        assert(r@ =~= v@.take(i as int));
    }
    assert(v@.take(i as int) =~= v@);
    r
}

/// Two HTTP configurations say the same.
pub open spec fn same_http(a: HttpConfig, b: HttpConfig) -> bool {
    &&& a.target_url == b.target_url
    &&& a.http_method == b.http_method
    &&& a.custom_headers@ == b.custom_headers@
}

pub open spec fn same_opt_http(a: Option<HttpConfig>, b: Option<HttpConfig>) -> bool {
    match (a, b) {
        (Some(x), Some(y)) => same_http(x, y),
        (None, None) => true,
        _ => false,
    }
}

/// Two stored hooks say the same: equal fields, lists compared by their
/// contents.
pub open spec fn same_hook(a: EventHooks, b: EventHooks) -> bool {
    &&& a.id == b.id
    &&& a.account_id == b.account_id
    &&& a.email == b.email
    &&& a.description == b.description
    &&& a.created_at == b.created_at
    &&& a.updated_at == b.updated_at
    &&& a.global == b.global
    &&& a.enabled == b.enabled
    &&& a.hook_type == b.hook_type
    &&& same_opt_http(a.http, b.http)
    &&& a.nats == b.nats
    &&& a.vrl_script == b.vrl_script
    &&& a.call_count == b.call_count
    &&& a.success_count == b.success_count
    &&& a.failure_count == b.failure_count
    &&& a.last_error == b.last_error
    &&& a.watched_events@ == b.watched_events@
    &&& a.use_proxy == b.use_proxy
}

pub fn copy_http_config(c: &HttpConfig) -> (r: HttpConfig)
    ensures
        same_http(r, *c),
{
    HttpConfig {
        target_url: c.target_url.clone(),
        http_method: c.http_method,
        custom_headers: copy_headers(&c.custom_headers),
    }
}

pub fn copy_events(v: &Vec<EventType>) -> (r: Vec<EventType>)
    ensures
        r@ == v@,
{
    let mut r: Vec<EventType> = Vec::new();
    let mut i: usize = 0;
    while i < v.len()
        invariant
            i <= v@.len(),
            r@ == v@.take(i as int),
        decreases v.len() - i,
    {
        r.push(v[i]);
        i = i + 1;
        assert(r@ =~= v@.take(i as int));
    }
    assert(v@.take(i as int) =~= v@);
    r
}

/// A copy of a stored hook.
pub fn copy_hook(h: &EventHooks) -> (r: EventHooks)
    ensures
        same_hook(r, *h),
{
    EventHooks {
        id: h.id,
        account_id: h.account_id,
        email: copy_text(&h.email),
        description: copy_text(&h.description),
        created_at: h.created_at,
        updated_at: h.updated_at,
        global: h.global,
        enabled: h.enabled,
        hook_type: h.hook_type,
        http: match &h.http {
            Some(c) => Some(copy_http_config(c)),
            None => None,
        },
        nats: match &h.nats {
            Some(c) => Some(copy_nats_config(c)),
            None => None,
        },
        vrl_script: copy_text(&h.vrl_script),
        call_count: h.call_count,
        success_count: h.success_count,
        failure_count: h.failure_count,
        last_error: copy_text(&h.last_error),
        watched_events: copy_events(&h.watched_events),
        use_proxy: h.use_proxy,
    }
}

impl EventHooks {
    /// A new hook from a creation request: the given identifier, the account's
    /// address (for a hook of one account), created and updated `now`, global
    /// exactly when it belongs to no account, and no delivery counted yet.
    pub fn from_request(request: EventhookCreateRequest, id: u64, email: Option<String>, now: i64) -> (r:
        EventHooks)
        ensures
            r.id == id,
            r.account_id == request.account_id,
            r.email == email,
            r.description == request.description,
            r.created_at == now && r.updated_at == now,
            r.global == (if request.account_id is Some {
                0u8
            } else {
                1u8
            }),
            r.enabled == request.enabled,
            r.hook_type == request.hook_type,
            r.http == request.http,
            r.nats == request.nats,
            r.vrl_script == request.vrl_script,
            r.call_count == 0 && r.success_count == 0 && r.failure_count == 0,
            r.last_error is None,
            r.watched_events == request.watched_events,
            r.use_proxy == request.use_proxy,
    {
        let global: u8 = if request.account_id.is_some() {
            0
        } else {
            1
        };
        EventHooks {
            id,
            account_id: request.account_id,
            email,
            description: request.description,
            created_at: now,
            updated_at: now,
            global,
            enabled: request.enabled,
            hook_type: request.hook_type,
            http: request.http,
            nats: request.nats,
            vrl_script: request.vrl_script,
            call_count: 0,
            success_count: 0,
            failure_count: 0,
            last_error: None,
            watched_events: request.watched_events,
            use_proxy: request.use_proxy,
        }
    }
}

/// The stored hook after an update request at time `now`: each field that the
/// request carries replaces the stored one, and the update time is `now`.
pub open spec fn updated_hook(old: EventHooks, request: EventhookUpdateRequest, now: i64) -> EventHooks {
    EventHooks {
        description: if request.description is Some {
            request.description
        } else {
            old.description
        },
        enabled: match request.enabled {
            Some(e) => e,
            None => old.enabled,
        },
        http: if request.http is Some {
            request.http
        } else {
            old.http
        },
        nats: if request.nats is Some {
            request.nats
        } else {
            old.nats
        },
        vrl_script: if request.vrl_script is Some {
            request.vrl_script
        } else {
            old.vrl_script
        },
        use_proxy: if request.use_proxy is Some {
            request.use_proxy
        } else {
            old.use_proxy
        },
        watched_events: match request.watched_events {
            Some(w) => w,
            None => old.watched_events,
        },
        updated_at: now,
        ..old
    }
}

pub fn apply_update(old: &EventHooks, request: EventhookUpdateRequest, now: i64) -> (r: EventHooks)
    ensures
        same_hook(r, updated_hook(*old, request, now)),
{
    let mut new = copy_hook(old);
    if request.description.is_some() {
        new.description = request.description;
    }
    if let Some(enabled) = request.enabled {
        new.enabled = enabled;
    }
    if let Some(http) = request.http {
        new.http = Some(http);
    }
    if let Some(nats) = request.nats {
        new.nats = Some(nats);
    }
    if let Some(vrl_script) = request.vrl_script {
        new.vrl_script = Some(vrl_script);
    }
    if let Some(use_proxy) = request.use_proxy {
        new.use_proxy = Some(use_proxy);
    }
    if let Some(watched_events) = request.watched_events {
        new.watched_events = watched_events;
    }
    new.updated_at = now;
    new
}

/// The stored hook after the bookkeeping of a delivery at time `now`: each
/// counter that the request asks for goes up by one, the error is recorded when
/// one is given, and the update time is `now`.
pub open spec fn counted_hook(old: EventHooks, request: InternalEventHookUpdateRequest, now: i64) -> EventHooks {
    EventHooks {
        call_count: if request.increase_call_count == Some(true) {
            (old.call_count + 1) as u64
        } else {
            old.call_count
        },
        success_count: if request.increase_success_count == Some(true) {
            (old.success_count + 1) as u64
        } else {
            old.success_count
        },
        failure_count: if request.increase_failure_count == Some(true) {
            (old.failure_count + 1) as u64
        } else {
            old.failure_count
        },
        last_error: if request.last_error is Some {
            request.last_error
        } else {
            old.last_error
        },
        updated_at: now,
        ..old
    }
}

/// The counters that a request asks to increase have room to go up.
pub open spec fn counters_fit(old: EventHooks, request: InternalEventHookUpdateRequest) -> bool {
    &&& request.increase_call_count == Some(true) ==> old.call_count < u64::MAX
    &&& request.increase_success_count == Some(true) ==> old.success_count < u64::MAX
    &&& request.increase_failure_count == Some(true) ==> old.failure_count < u64::MAX
}

pub fn apply_internal_update(old: &EventHooks, request: InternalEventHookUpdateRequest, now: i64) -> (r:
    EventHooks)
    requires
        counters_fit(*old, request),
    ensures
        same_hook(r, counted_hook(*old, request, now)),
{
    let mut new = copy_hook(old);
    if let Some(true) = request.increase_call_count {
        new.call_count = new.call_count + 1;
    }
    if let Some(true) = request.increase_success_count {
        new.success_count = new.success_count + 1;
    }
    if let Some(true) = request.increase_failure_count {
        new.failure_count = new.failure_count + 1;
    }
    if request.last_error.is_some() {
        new.last_error = request.last_error;
    }
    new.updated_at = now;
    new
}


/// Whether `url::Url::parse` accepts the text.
pub uninterp spec fn url_parses(text: Seq<char>) -> bool;

/// Calls `url::Url::parse`. Claimed: whether it succeeds depends on the text
/// alone. Which texts parse is not stated.
#[verifier::external_body]
fn url_is_valid(text: &str) -> (r: bool)
    ensures
        r == url_parses(text@),
{
    url::Url::parse(text).is_ok()
}

/// Whether `http::HeaderName::from_bytes` accepts the bytes.
pub uninterp spec fn header_name_valid(bytes: Seq<u8>) -> bool;

/// Calls `http::HeaderName::from_bytes` on the UTF-8 bytes of the name.
/// Claimed: whether it succeeds depends on the bytes alone, and an empty name
/// is refused (the crate's `parse_hdr` rejects length zero). Which other names
/// pass is not stated.
#[verifier::external_body]
fn header_name_is_valid(name: &str) -> (r: bool)
    ensures
        r == header_name_valid(encode_utf8(name@)),
        encode_utf8(name@).len() == 0 ==> !r,
{
    http::HeaderName::from_bytes(name.as_bytes()).is_ok()
}

/// A byte that a header value may hold: a tab, or any byte from the space up
/// but DEL.
pub open spec fn header_value_byte(b: u8) -> bool {
    (b >= 32 && b != 127) || b == 9
}

pub open spec fn header_value_valid(text: Seq<char>) -> bool {
    forall|i: int| 0 <= i < encode_utf8(text).len() ==> header_value_byte(#[trigger] encode_utf8(text)[i])
}

/// Calls `http::HeaderValue::from_str`. Claimed, as the crate's
/// `try_from_generic` and `is_valid` show: it succeeds exactly when every UTF-8
/// byte of the text is a tab or at least 32 and not 127.
#[verifier::external_body]
fn header_value_is_valid(value: &str) -> (r: bool)
    ensures
        r == header_value_valid(value@),
{
    http::HeaderValue::from_str(value).is_ok()
}

/// Why the settings of a hook are refused.
#[derive(Clone, Debug, PartialEq, Eq)]
pub enum HookError {
    /// An HTTP hook needs an HTTP configuration.
    HttpConfigMissing,
    /// A NATS hook needs a NATS configuration.
    NatsConfigMissing,
    /// A hook has one configuration, not both.
    BothConfigured,
    /// The target URL does not parse.
    InvalidUrl,
    InvalidHeaderName(String),
    InvalidHeaderValue(String),
    Nats(NatsError),
    /// A hook watches at least one kind of event.
    NoWatchedEvents,
    /// The account that the hook is for does not exist.
    AccountNotFound(u64),
    /// The account that the hook is for has a hook already.
    AccountHasHook,
    /// The hook's VRL program does not compile.
    InvalidVrlScript,
}

/// The first refused custom header: its name is checked before its value.
pub open spec fn headers_check(hs: Seq<(String, String)>) -> Result<(), HookError>
    decreases hs.len(),
{
    if hs.len() == 0 {
        Ok(())
    } else if !header_name_valid(encode_utf8(hs[0].0@)) {
        Err(HookError::InvalidHeaderName(hs[0].0))
    } else if !header_value_valid(hs[0].1@) {
        Err(HookError::InvalidHeaderValue(hs[0].1))
    } else {
        headers_check(hs.drop_first())
    }
}

fn check_headers(hs: &Vec<(String, String)>) -> (r: Result<(), HookError>)
    ensures
        r == headers_check(hs@),
{
    let mut i: usize = 0;
    assert(hs@.skip(0) =~= hs@);
    while i < hs.len()
        invariant
            i <= hs@.len(),
            headers_check(hs@) == headers_check(hs@.skip(i as int)),
        decreases hs.len() - i,
    {
        assert(hs@.skip(i as int).drop_first() =~= hs@.skip(i + 1));
        let (name, value) = &hs[i];
        if !header_name_is_valid(name.as_str()) {
            return Err(HookError::InvalidHeaderName(name.clone()));
        }
        if !header_value_is_valid(value.as_str()) {
            return Err(HookError::InvalidHeaderValue(value.clone()));
        }
        i = i + 1;
    }
    Ok(())
}

/// The checks of a hook's settings, in order: the configuration that its type
/// needs, not both configurations, the target URL and the custom headers of an
/// HTTP configuration, the NATS configuration, and at least one watched kind of
/// event.
pub open spec fn hook_settings_check(h: EventHooks) -> Result<(), HookError> {
    if h.hook_type == HookType::Http && h.http is None {
        Err(HookError::HttpConfigMissing)
    } else if h.hook_type == HookType::Nats && h.nats is None {
        Err(HookError::NatsConfigMissing)
    } else if h.http is Some && h.nats is Some {
        Err(HookError::BothConfigured)
    } else if h.http matches Some(c) && !url_parses(c.target_url@) {
        Err(HookError::InvalidUrl)
    } else if h.http matches Some(c) && headers_check(c.custom_headers@) is Err {
        headers_check(h.http->0.custom_headers@)
    } else if h.nats matches Some(n) && nats_config_check(n) is Err {
        Err(HookError::Nats(nats_config_check(h.nats->0)->Err_0))
    } else if h.watched_events@.len() == 0 {
        Err(HookError::NoWatchedEvents)
    } else {
        Ok(())
    }
}

/// All the checks of a new hook, in order: the account it is for exists and
/// has no hook yet (only for a hook of one account), then its settings, then
/// its VRL program compiles (only when it has one). What the stores and the
/// VRL compiler answer comes in as `account_exists`, `account_has_hook` and
/// `vrl_compiles`.
pub open spec fn hook_validation(
    h: EventHooks,
    account_exists: bool,
    account_has_hook: bool,
    vrl_compiles: bool,
) -> Result<(), HookError> {
    if h.account_id is Some && !account_exists {
        Err(HookError::AccountNotFound(h.account_id->0))
    } else if h.account_id is Some && account_has_hook {
        Err(HookError::AccountHasHook)
    } else if hook_settings_check(h) is Err {
        hook_settings_check(h)
    } else if h.vrl_script is Some && !vrl_compiles {
        Err(HookError::InvalidVrlScript)
    } else {
        Ok(())
    }
}

impl EventHooks {
    /// Checks a new hook. The caller looks up whether the hook's account
    /// exists and already has a hook, and whether the VRL program compiles;
    /// each answer is consulted only where the check needs it.
    pub fn validate(&self, account_exists: bool, account_has_hook: bool, vrl_compiles: bool) -> (r:
        Result<(), HookError>)
        ensures
            r == hook_validation(*self, account_exists, account_has_hook, vrl_compiles),
    {
        if let Some(account_id) = self.account_id {
            if !account_exists {
                return Err(HookError::AccountNotFound(account_id));
            }
            if account_has_hook {
                return Err(HookError::AccountHasHook);
            }
        }
        match self.check_settings() {
            Ok(()) => {},
            Err(e) => return Err(e),
        }
        if self.vrl_script.is_some() && !vrl_compiles {
            return Err(HookError::InvalidVrlScript);
        }
        Ok(())
    }

    /// Checks the settings of a hook: the parts of [`EventHooks::validate`]
    /// that need nothing from outside.
    pub fn check_settings(&self) -> (r: Result<(), HookError>)
        ensures
            r == hook_settings_check(*self),
    {
        match self.hook_type {
            HookType::Http => {
                if self.http.is_none() {
                    return Err(HookError::HttpConfigMissing);
                }
            },
            HookType::Nats => {
                if self.nats.is_none() {
                    return Err(HookError::NatsConfigMissing);
                }
            },
        }
        if self.http.is_some() && self.nats.is_some() {
            return Err(HookError::BothConfigured);
        }
        if let Some(http) = &self.http {
            if !url_is_valid(http.target_url.as_str()) {
                return Err(HookError::InvalidUrl);
            }
            match check_headers(&http.custom_headers) {
                Ok(()) => {},
                Err(e) => return Err(e),
            }
        }
        if let Some(nats) = &self.nats {
            match nats.validate() {
                Ok(()) => {},
                Err(e) => return Err(HookError::Nats(e)),
            }
        }
        if self.watched_events.len() == 0 {
            return Err(HookError::NoWatchedEvents);
        }
        Ok(())
    }
}


/// An update request that carries no field.
pub open spec fn carries_nothing(request: EventhookUpdateRequest) -> bool {
    &&& request.description is None
    &&& request.enabled is None
    &&& request.http is None
    &&& request.nats is None
    &&& request.vrl_script is None
    &&& request.watched_events is None
    &&& request.use_proxy is None
}

/// An update that carries no field changes nothing but the update time.
pub proof fn lemma_empty_update_keeps_hook(old: EventHooks, request: EventhookUpdateRequest, now: i64)
    requires
        carries_nothing(request),
    ensures
        updated_hook(old, request, now) == (EventHooks { updated_at: now, ..old }),
{
}

/// Applying the same update twice gives what applying it once gives (at the
/// same time).
pub proof fn lemma_update_idempotent(old: EventHooks, request: EventhookUpdateRequest, now: i64)
    ensures
        updated_hook(updated_hook(old, request, now), request, now) == updated_hook(old, request, now),
{
}

/// The bookkeeping of a delivery never touches the settings of a hook: only
/// the counters, the last error and the update time change, and each counter
/// goes up by at most one.
pub proof fn lemma_bookkeeping_keeps_settings(old: EventHooks, request: InternalEventHookUpdateRequest, now: i64)
    requires
        counters_fit(old, request),
    ensures
        ({
            let new = counted_hook(old, request, now);
            &&& new == (EventHooks {
                call_count: new.call_count,
                success_count: new.success_count,
                failure_count: new.failure_count,
                last_error: new.last_error,
                updated_at: now,
                ..old
            })
            &&& old.call_count <= new.call_count <= old.call_count + 1
            &&& old.success_count <= new.success_count <= old.success_count + 1
            &&& old.failure_count <= new.failure_count <= old.failure_count + 1
        }),
{
}

/// An update replaces exactly the fields that it carries: a carried
/// description, enabled flag, HTTP or NATS configuration, VRL program, proxy
/// or list of watched events becomes the hook's; a field it does not carry
/// keeps its stored value; the identity, account, type, creation time and
/// counters never change; the update time becomes `now`.
pub proof fn lemma_update_replaces_carried_fields(
    old: EventHooks,
    request: EventhookUpdateRequest,
    now: i64,
)
    ensures
        ({
            let new = updated_hook(old, request, now);
            &&& (request.description matches Some(d) ==> new.description == Some(d))
            &&& (request.description is None ==> new.description == old.description)
            &&& (request.enabled matches Some(e) ==> new.enabled == e)
            &&& (request.enabled is None ==> new.enabled == old.enabled)
            &&& (request.http matches Some(h) ==> new.http == Some(h))
            &&& (request.http is None ==> new.http == old.http)
            &&& (request.nats matches Some(n) ==> new.nats == Some(n))
            &&& (request.nats is None ==> new.nats == old.nats)
            &&& (request.vrl_script matches Some(v) ==> new.vrl_script == Some(v))
            &&& (request.vrl_script is None ==> new.vrl_script == old.vrl_script)
            &&& (request.use_proxy matches Some(u) ==> new.use_proxy == Some(u))
            &&& (request.use_proxy is None ==> new.use_proxy == old.use_proxy)
            &&& (request.watched_events matches Some(w) ==> new.watched_events == w)
            &&& (request.watched_events is None ==> new.watched_events == old.watched_events)
            &&& new.id == old.id
            &&& new.account_id == old.account_id
            &&& new.email == old.email
            &&& new.hook_type == old.hook_type
            &&& new.global == old.global
            &&& new.created_at == old.created_at
            &&& new.call_count == old.call_count
            &&& new.success_count == old.success_count
            &&& new.failure_count == old.failure_count
            &&& new.last_error == old.last_error
            &&& new.updated_at == now
        }),
{
}

/// What `apply_update` returns carries the request's HTTP configuration when
/// the request has one (same target, method and headers).
pub proof fn lemma_applied_update_takes_http(
    old: EventHooks,
    request: EventhookUpdateRequest,
    now: i64,
    result: EventHooks,
)
    requires
        same_hook(result, updated_hook(old, request, now)),
        request.http is Some,
    ensures
        result.http is Some,
        result.http->0.target_url@ == request.http->0.target_url@,
        result.http->0.http_method == request.http->0.http_method,
        result.http->0.custom_headers@ == request.http->0.custom_headers@,
{
}

} // verus!
