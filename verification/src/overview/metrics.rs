//! Periodic snapshots of the server's counters: each snapshot records how much
//! every counter grew since the one before, and the current length of the task
//! queues.
use vstd::prelude::*;
use crate::text::concat_str;

verus! {

#[verifier::external_type_specification]
#[verifier::external_body]
#[verifier::reject_recursive_types(K)]
#[verifier::reject_recursive_types(V)]
#[verifier::reject_recursive_types(S)]
pub struct ExAHashMap<K, V, S>(ahash::AHashMap<K, V, S>);

#[verifier::external_type_specification]
#[verifier::external_body]
pub struct ExRandomState(ahash::RandomState);

/// The map of last values seen, by counter key.
pub type CounterMap = ahash::AHashMap<String, u64>;

/// No counter seen yet.
pub open spec fn no_counters() -> Map<Seq<char>, u64> {
    Map::empty()
}

/// The last value seen of each counter, by key.
pub uninterp spec fn last_values(m: CounterMap) -> Map<Seq<char>, u64>;

/// Calls `ahash::AHashMap::new`. Claimed: the map is empty.
#[verifier::external_body]
fn new_value_map() -> (r: CounterMap)
    ensures
        last_values(r) == no_counters(),
{
    ahash::AHashMap::new()
}

/// Calls `ahash::AHashMap::get` (a `std::collections::HashMap` lookup).
/// Claimed: the value stored under the key, if there is one.
#[verifier::external_body]
fn value_of(m: &CounterMap, key: &str) -> (r: Option<u64>)
    ensures
        r == stored(last_values(*m), key@),
{
    m.get(key).copied()
}

/// Calls `ahash::AHashMap::insert`. Claimed: the key now maps to the value and
/// every other key is unchanged.
#[verifier::external_body]
fn store_value(m: &mut CounterMap, key: String, value: u64)
    ensures
        last_values(*final(m)) == last_values(*old(m)).insert(key@, value),
{
    m.insert(key, value);
}

/// The value stored under a key, if any.
pub open spec fn stored(m: Map<Seq<char>, u64>, key: Seq<char>) -> Option<u64> {
    if m.dom().contains(key) {
        Some(m[key])
    } else {
        None
    }
}

/// How much a counter grew since it was last seen: nothing the first time; the
/// whole value after a reset (a value below the last one).
pub open spec fn growth(last: Option<u64>, current: u64) -> u64 {
    match last {
        Some(l) => if current >= l {
            (current - l) as u64
        } else {
            current
        },
        None => 0,
    }
}

/// The key under which a counter is remembered: its metric name, `_`, and its
/// label.
pub open spec fn counter_key(metric: Seq<char>, label: Seq<char>) -> Seq<char> {
    metric + "_"@ + label
}

/// The last value seen of each counter.
pub struct MetricCache {
    pub last: CounterMap,
}

impl MetricCache {
    pub open spec fn view(&self) -> Map<Seq<char>, u64> {
        last_values(self.last)
    }

    /// A cache that has seen nothing yet.
    pub fn new() -> (r: MetricCache)
        ensures
            r.view() == no_counters(),
    {
        MetricCache { last: new_value_map() }
    }

    /// How much the counter grew since it was last seen; the current value is
    /// remembered.
    pub fn calculate_delta(&mut self, metric_name: &str, label: &str, current_value: u64) -> (r: u64)
        ensures
            r == growth(stored(old(self).view(), counter_key(metric_name@, label@)), current_value),
            final(self).view() == old(self).view().insert(
                counter_key(metric_name@, label@),
                current_value,
            ),
    {
        let mut key = concat_str(metric_name, "_");
        key.append(label);
        let delta = match value_of(&self.last, key.as_str()) {
            Some(last) => {
                if current_value >= last {
                    current_value - last
                } else {
                    current_value
                }
            },
            None => 0,
        };
        store_value(&mut self.last, key, current_value);
        delta
    }
}

/// Seeing the same value of a counter twice in a row records no growth the
/// second time.
pub proof fn lemma_unchanged_counter_grows_nothing(m: Map<Seq<char>, u64>, key: Seq<char>, v: u64)
    ensures
        growth(stored(m.insert(key, v), key), v) == 0,
{
}

/// Between two snapshots the recorded growth and the value last seen add up
/// to the current value, unless the counter was reset or is seen for the first
/// time.
pub proof fn lemma_growth_adds_up(last: u64, current: u64)
    requires
        last <= current,
    ensures
        last + growth(Some(last), current) == current,
{
}

/// What the snapshot reads of one series.
#[derive(Clone, Copy, Debug, PartialEq, Eq, Structural)]
pub enum Reading {
    /// A counter that only grows (until a restart resets it).
    Counter(u64),
    /// A gauge such as the length of a queue.
    Gauge(i64),
}

/// One value to store for one series at one moment.
#[derive(Clone, Debug, PartialEq, Eq)]
pub struct MetricSample {
    pub metric: String,
    pub value: u64,
    pub label: String,
    /// Milliseconds since the Unix epoch.
    pub created_at: i64,
}

/// A stored value of a series.
#[derive(Clone, Debug, Default, PartialEq, Eq)]
pub struct DailyMetrics {
    pub id: u64,
    pub metric: String,
    /// Milliseconds since the Unix epoch.
    pub created_at: i64,
    pub value: u64,
    pub label: String,
}

impl DailyMetrics {
    /// The stored form of a sample, under a fresh identifier.
    pub fn from_sample(id: u64, sample: MetricSample) -> (r: DailyMetrics)
        ensures
            r.id == id,
            r.metric == sample.metric,
            r.created_at == sample.created_at,
            r.value == sample.value,
            r.label == sample.label,
    {
        DailyMetrics {
            id,
            metric: sample.metric,
            created_at: sample.created_at,
            value: sample.value,
            label: sample.label,
        }
    }
}

pub open spec fn imap_traffic() -> Seq<char> {
    "rustmailer_imap_traffic_total"@
}

pub open spec fn email_sent() -> Seq<char> {
    "rustmailer_email_sent_total"@
}

pub open spec fn email_sent_bytes() -> Seq<char> {
    "rustmailer_email_sent_bytes"@
}

pub open spec fn new_email_arrival() -> Seq<char> {
    "rustmailer_new_email_arrival_total"@
}

pub open spec fn mail_flag_change() -> Seq<char> {
    "rustmailer_mail_flag_change_total"@
}

pub open spec fn email_opens() -> Seq<char> {
    "rustmailer_email_opens_total"@
}

pub open spec fn email_clicks() -> Seq<char> {
    "rustmailer_email_clicks_total"@
}

pub open spec fn event_dispatch() -> Seq<char> {
    "rustmailer_event_dispatch_total_by_type_status_and_destination"@
}

pub open spec fn task_queue_length() -> Seq<char> {
    "rustmailer_task_queue_length"@
}

/// The series that a snapshot records, in order: metric name and label.
pub open spec fn snapshot_table() -> Seq<(Seq<char>, Seq<char>)> {
    seq![
        (imap_traffic(), "sent"@),
        (imap_traffic(), "received"@),
        (task_queue_length(), "email"@),
        (task_queue_length(), "hook"@),
        (email_sent(), "success"@),
        (email_sent(), "failure"@),
        (email_sent_bytes(), ""@),
        (new_email_arrival(), ""@),
        (mail_flag_change(), ""@),
        (email_opens(), ""@),
        (email_clicks(), ""@),
        (event_dispatch(), "success_http"@),
        (event_dispatch(), "success_nats"@),
        (event_dispatch(), "failure_http"@),
        (event_dispatch(), "failure_nats"@),
    ]
}

/// One series of the snapshot table.
#[derive(Clone, Debug, PartialEq, Eq)]
pub struct SeriesKey {
    pub metric: String,
    pub label: String,
}

fn series_key(metric: &str, label: &str) -> (r: SeriesKey)
    ensures
        r.metric@ == metric@,
        r.label@ == label@,
{
    SeriesKey { metric: metric.to_owned(), label: label.to_owned() }
}

/// The series that a snapshot records, in order; the two task queues are
/// gauges, the others counters.
pub fn snapshot_series() -> (r: Vec<SeriesKey>)
    ensures
        r@.len() == snapshot_table().len(),
        forall|i: int|
            0 <= i < r@.len() ==> (#[trigger] r@[i]).metric@ == snapshot_table()[i].0
                && r@[i].label@ == snapshot_table()[i].1,
{
    let mut r: Vec<SeriesKey> = Vec::new();
    r.push(series_key("rustmailer_imap_traffic_total", "sent"));
    r.push(series_key("rustmailer_imap_traffic_total", "received"));
    r.push(series_key("rustmailer_task_queue_length", "email"));
    r.push(series_key("rustmailer_task_queue_length", "hook"));
    r.push(series_key("rustmailer_email_sent_total", "success"));
    r.push(series_key("rustmailer_email_sent_total", "failure"));
    r.push(series_key("rustmailer_email_sent_bytes", ""));
    r.push(series_key("rustmailer_new_email_arrival_total", ""));
    r.push(series_key("rustmailer_mail_flag_change_total", ""));
    r.push(series_key("rustmailer_email_opens_total", ""));
    r.push(series_key("rustmailer_email_clicks_total", ""));
    r.push(series_key("rustmailer_event_dispatch_total_by_type_status_and_destination", "success_http"));
    r.push(series_key("rustmailer_event_dispatch_total_by_type_status_and_destination", "success_nats"));
    r.push(series_key("rustmailer_event_dispatch_total_by_type_status_and_destination", "failure_http"));
    r.push(series_key("rustmailer_event_dispatch_total_by_type_status_and_destination", "failure_nats"));
    r
}

/// The cache after the first `n` readings of a snapshot: every counter read so
/// far is remembered at its current value; gauges are not remembered.
pub open spec fn cache_through(
    c: Map<Seq<char>, u64>,
    keys: Seq<SeriesKey>,
    readings: Seq<Reading>,
    n: int,
) -> Map<Seq<char>, u64>
    decreases n,
{
    if n <= 0 {
        c
    } else {
        let prev = cache_through(c, keys, readings, n - 1);
        match readings[n - 1] {
            Reading::Counter(v) => prev.insert(
                counter_key(keys[n - 1].metric@, keys[n - 1].label@),
                v,
            ),
            Reading::Gauge(_) => prev,
        }
    }
}

/// The value that a snapshot stores for the `i`-th series: the growth of a
/// counter since it was last seen, or the current value of a gauge.
pub open spec fn sample_value(
    c: Map<Seq<char>, u64>,
    keys: Seq<SeriesKey>,
    readings: Seq<Reading>,
    i: int,
) -> u64 {
    match readings[i] {
        Reading::Counter(v) => growth(
            stored(cache_through(c, keys, readings, i), counter_key(keys[i].metric@, keys[i].label@)),
            v,
        ),
        Reading::Gauge(g) => g as u64,
    }
}

/// The sample of one series at `now`, from what was read of it: the growth of
/// a counter since it was last seen (which is then remembered), or the value of
/// a gauge (nothing remembered). A snapshot takes one such step per series and
/// stores each sample before taking the next step.
pub fn snapshot_step(cache: &mut MetricCache, key: &SeriesKey, reading: Reading, now: i64) -> (r:
    MetricSample)
    ensures
        r.metric@ == key.metric@,
        r.label@ == key.label@,
        r.created_at == now,
        match reading {
            Reading::Counter(v) => {
                &&& r.value == growth(stored(old(cache).view(), counter_key(key.metric@, key.label@)), v)
                &&& final(cache).view() == old(cache).view().insert(
                    counter_key(key.metric@, key.label@),
                    v,
                )
            },
            Reading::Gauge(g) => r.value == g as u64 && final(cache).view() == old(cache).view(),
        },
{
    let value = match reading {
        Reading::Counter(v) => cache.calculate_delta(key.metric.as_str(), key.label.as_str(), v),
        Reading::Gauge(g) => g as u64,
    };
    MetricSample { metric: key.metric.clone(), value, label: key.label.clone(), created_at: now }
}

/// The samples of one snapshot taken at `now`, one per series in order, from
/// what was read of each.
pub fn record_snapshot(
    cache: &mut MetricCache,
    keys: &Vec<SeriesKey>,
    readings: &Vec<Reading>,
    now: i64,
) -> (r: Vec<MetricSample>)
    requires
        keys@.len() == readings@.len(),
    ensures
        r@.len() == keys@.len(),
        forall|i: int|
            0 <= i < r@.len() ==> {
                &&& (#[trigger] r@[i]).metric@ == keys@[i].metric@
                &&& r@[i].label@ == keys@[i].label@
                &&& r@[i].created_at == now
                &&& r@[i].value == sample_value(old(cache).view(), keys@, readings@, i)
            },
        final(cache).view() == cache_through(old(cache).view(), keys@, readings@, keys@.len() as int),
{
    let ghost start = cache.view();
    let mut r: Vec<MetricSample> = Vec::new();
    let mut i: usize = 0;
    while i < keys.len()
        invariant
            keys@.len() == readings@.len(),
            i <= keys@.len(),
            r@.len() == i,
            cache.view() == cache_through(start, keys@, readings@, i as int),
            forall|k: int|
                0 <= k < i ==> {
                    &&& (#[trigger] r@[k]).metric@ == keys@[k].metric@
                    &&& r@[k].label@ == keys@[k].label@
                    &&& r@[k].created_at == now
                    &&& r@[k].value == sample_value(start, keys@, readings@, k)
                },
        decreases keys.len() - i,
    {
        let sample = snapshot_step(cache, &keys[i], readings[i], now);
        r.push(sample);
        i = i + 1;
    }
    r
}

/// How long the stored samples are kept, in milliseconds.
pub const METRIC_RETENTION_MS: i64 = 86400000;

/// Samples created before this moment are removed by the cleaner.
pub fn retention_cutoff(now: i64) -> (r: i64)
    requires
        now >= i64::MIN + METRIC_RETENTION_MS,
    ensures
        r == now - METRIC_RETENTION_MS,
{
    now - METRIC_RETENTION_MS
}

/// Saves the samples of the counters every minute.
pub struct MetricsSaveTask;

/// Removes old samples every five minutes.
pub struct MetricsCleanTask;

} // verus!
