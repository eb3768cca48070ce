//! The overview page: counts of pending work and accounts, and the time series
//! of the server's activity built from the stored metric samples.
pub mod metrics;
pub mod series;

use vstd::prelude::*;
use crate::overview::metrics::{
    email_clicks, email_opens, email_sent, email_sent_bytes, event_dispatch, imap_traffic,
    mail_flag_change, new_email_arrival, snapshot_table, task_queue_length, DailyMetrics,
};
use crate::overview::series::{sort_points, stably_sorted, TimeSeriesPoint};
use crate::text::str_eq;

verus! {

/// The time series of the overview, one per kind of activity.
#[derive(Clone, Debug, Default, PartialEq, Eq)]
pub struct MetricsTimeSeries {
    pub imap_traffic_sent: Vec<TimeSeriesPoint>,
    pub imap_traffic_received: Vec<TimeSeriesPoint>,
    pub email_sent_success: Vec<TimeSeriesPoint>,
    pub email_sent_failure: Vec<TimeSeriesPoint>,
    pub email_sent_bytes: Vec<TimeSeriesPoint>,
    pub new_email_arrival: Vec<TimeSeriesPoint>,
    pub mail_flag_change: Vec<TimeSeriesPoint>,
    pub email_opens: Vec<TimeSeriesPoint>,
    pub email_clicks: Vec<TimeSeriesPoint>,
    pub event_dispatch_success_http: Vec<TimeSeriesPoint>,
    pub event_dispatch_success_nats: Vec<TimeSeriesPoint>,
    pub event_dispatch_failure_http: Vec<TimeSeriesPoint>,
    pub event_dispatch_failure_nats: Vec<TimeSeriesPoint>,
    pub email_task_queue_length: Vec<TimeSeriesPoint>,
    pub hook_task_queue_length: Vec<TimeSeriesPoint>,
}

/// How many series the overview has.
pub const SERIES_COUNT: usize = 15;

/// The `k`-th series, in the order of the fields.
pub open spec fn series(ts: MetricsTimeSeries, k: int) -> Seq<TimeSeriesPoint> {
    if k == 0 {
        ts.imap_traffic_sent@
    } else if k == 1 {
        ts.imap_traffic_received@
    } else if k == 2 {
        ts.email_sent_success@
    } else if k == 3 {
        ts.email_sent_failure@
    } else if k == 4 {
        ts.email_sent_bytes@
    } else if k == 5 {
        ts.new_email_arrival@
    } else if k == 6 {
        ts.mail_flag_change@
    } else if k == 7 {
        ts.email_opens@
    } else if k == 8 {
        ts.email_clicks@
    } else if k == 9 {
        ts.event_dispatch_success_http@
    } else if k == 10 {
        ts.event_dispatch_success_nats@
    } else if k == 11 {
        ts.event_dispatch_failure_http@
    } else if k == 12 {
        ts.event_dispatch_failure_nats@
    } else if k == 13 {
        ts.email_task_queue_length@
    } else {
        ts.hook_task_queue_length@
    }
}

/// The series that a stored sample belongs to, if any: counters with a label
/// go by metric and label, the unlabelled counters by metric alone.
pub open spec fn series_index(metric: Seq<char>, label: Seq<char>) -> Option<int> {
    if metric == imap_traffic() && label == "sent"@ {
        Some(0)
    } else if metric == imap_traffic() && label == "received"@ {
        Some(1)
    } else if metric == email_sent() && label == "success"@ {
        Some(2)
    } else if metric == email_sent() && label == "failure"@ {
        Some(3)
    } else if metric == email_sent_bytes() {
        Some(4)
    } else if metric == new_email_arrival() {
        Some(5)
    } else if metric == mail_flag_change() {
        Some(6)
    } else if metric == email_opens() {
        Some(7)
    } else if metric == email_clicks() {
        Some(8)
    } else if metric == event_dispatch() && label == "success_http"@ {
        Some(9)
    } else if metric == event_dispatch() && label == "success_nats"@ {
        Some(10)
    } else if metric == event_dispatch() && label == "failure_http"@ {
        Some(11)
    } else if metric == event_dispatch() && label == "failure_nats"@ {
        Some(12)
    } else if metric == task_queue_length() && label == "email"@ {
        Some(13)
    } else if metric == task_queue_length() && label == "hook"@ {
        Some(14)
    } else {
        None
    }
}

/// The points of series `k`, from the stored samples in their order.
pub open spec fn points_of(records: Seq<DailyMetrics>, k: int) -> Seq<TimeSeriesPoint>
    decreases records.len(),
{
    if records.len() == 0 {
        Seq::empty()
    } else {
        let last = records.last();
        if series_index(last.metric@, last.label@) == Some(k) {
            points_of(records.drop_last(), k).push(
                TimeSeriesPoint { timestamp: last.created_at, value: last.value },
            )
        } else {
            points_of(records.drop_last(), k)
        }
    }
}

/// The points of the samples in `records` whose metric is `metric` and, when
/// `label` is given, whose label is `label`, in the order of the samples.
pub open spec fn samples_named(
    records: Seq<DailyMetrics>,
    metric: Seq<char>,
    label: Option<Seq<char>>,
) -> Seq<TimeSeriesPoint>
    decreases records.len(),
{
    if records.len() == 0 {
        Seq::empty()
    } else {
        let last = records.last();
        let prev = samples_named(records.drop_last(), metric, label);
        if last.metric@ == metric && (label is None || last.label@ == label->0) {
            prev.push(TimeSeriesPoint { timestamp: last.created_at, value: last.value })
        } else {
            prev
        }
    }
}

proof fn lemma_name_facts()
    ensures
        "rustmailer_imap_traffic_total"@.len() == 29 && "rustmailer_imap_traffic_total"@[22] == 'c',
        "rustmailer_email_sent_total"@.len() == 27 && "rustmailer_email_sent_total"@[22] == 't',
        "rustmailer_email_sent_bytes"@.len() == 27 && "rustmailer_email_sent_bytes"@[22] == 'b',
        "rustmailer_new_email_arrival_total"@.len() == 34 && "rustmailer_new_email_arrival_total"@[22] == 'r',
        "rustmailer_mail_flag_change_total"@.len() == 33 && "rustmailer_mail_flag_change_total"@[22] == 'h',
        "rustmailer_email_opens_total"@.len() == 28 && "rustmailer_email_opens_total"@[22] == '_',
        "rustmailer_email_clicks_total"@.len() == 29 && "rustmailer_email_clicks_total"@[22] == 's',
        "rustmailer_event_dispatch_total_by_type_status_and_destination"@.len() == 62 && "rustmailer_event_dispatch_total_by_type_status_and_destination"@[22] == 't',
        "rustmailer_task_queue_length"@.len() == 28 && "rustmailer_task_queue_length"@[22] == 'l',
        "sent"@.len() == 4 && "sent"@[0] == 's',
        "received"@.len() == 8 && "received"@[0] == 'r',
        "success"@.len() == 7 && "success"@[0] == 's',
        "failure"@.len() == 7 && "failure"@[0] == 'f',
        "success_http"@.len() == 12 && "success_http"@[0] == 's' && "success_http"@[8] == 'h',
        "success_nats"@.len() == 12 && "success_nats"@[0] == 's' && "success_nats"@[8] == 'n',
        "failure_http"@.len() == 12 && "failure_http"@[0] == 'f' && "failure_http"@[8] == 'h',
        "failure_nats"@.len() == 12 && "failure_nats"@[0] == 'f' && "failure_nats"@[8] == 'n',
        "email"@.len() == 5 && "email"@[0] == 'e',
        "hook"@.len() == 4 && "hook"@[0] == 'h',
{
    reveal_strlit("rustmailer_imap_traffic_total");
    reveal_strlit("rustmailer_email_sent_total");
    reveal_strlit("rustmailer_email_sent_bytes");
    reveal_strlit("rustmailer_new_email_arrival_total");
    reveal_strlit("rustmailer_mail_flag_change_total");
    reveal_strlit("rustmailer_email_opens_total");
    reveal_strlit("rustmailer_email_clicks_total");
    reveal_strlit("rustmailer_event_dispatch_total_by_type_status_and_destination");
    reveal_strlit("rustmailer_task_queue_length");
    reveal_strlit("sent");
    reveal_strlit("received");
    reveal_strlit("success");
    reveal_strlit("failure");
    reveal_strlit("success_http");
    reveal_strlit("success_nats");
    reveal_strlit("failure_http");
    reveal_strlit("failure_nats");
    reveal_strlit("email");
    reveal_strlit("hook");
}

/// Which stored samples each series takes: by metric name, and by label where
/// the metric has several series.
proof fn lemma_series_names()
    ensures
        forall|m: Seq<char>, l: Seq<char>| #[trigger] series_index(m, l) == Some(0int) <==> (m == "rustmailer_imap_traffic_total"@ && l == "sent"@),
        forall|m: Seq<char>, l: Seq<char>| #[trigger] series_index(m, l) == Some(1int) <==> (m == "rustmailer_imap_traffic_total"@ && l == "received"@),
        forall|m: Seq<char>, l: Seq<char>| #[trigger] series_index(m, l) == Some(2int) <==> (m == "rustmailer_email_sent_total"@ && l == "success"@),
        forall|m: Seq<char>, l: Seq<char>| #[trigger] series_index(m, l) == Some(3int) <==> (m == "rustmailer_email_sent_total"@ && l == "failure"@),
        forall|m: Seq<char>, l: Seq<char>| #[trigger] series_index(m, l) == Some(4int) <==> (m == "rustmailer_email_sent_bytes"@),
        forall|m: Seq<char>, l: Seq<char>| #[trigger] series_index(m, l) == Some(5int) <==> (m == "rustmailer_new_email_arrival_total"@),
        forall|m: Seq<char>, l: Seq<char>| #[trigger] series_index(m, l) == Some(6int) <==> (m == "rustmailer_mail_flag_change_total"@),
        forall|m: Seq<char>, l: Seq<char>| #[trigger] series_index(m, l) == Some(7int) <==> (m == "rustmailer_email_opens_total"@),
        forall|m: Seq<char>, l: Seq<char>| #[trigger] series_index(m, l) == Some(8int) <==> (m == "rustmailer_email_clicks_total"@),
        forall|m: Seq<char>, l: Seq<char>| #[trigger] series_index(m, l) == Some(9int) <==> (m == "rustmailer_event_dispatch_total_by_type_status_and_destination"@ && l == "success_http"@),
        forall|m: Seq<char>, l: Seq<char>| #[trigger] series_index(m, l) == Some(10int) <==> (m == "rustmailer_event_dispatch_total_by_type_status_and_destination"@ && l == "success_nats"@),
        forall|m: Seq<char>, l: Seq<char>| #[trigger] series_index(m, l) == Some(11int) <==> (m == "rustmailer_event_dispatch_total_by_type_status_and_destination"@ && l == "failure_http"@),
        forall|m: Seq<char>, l: Seq<char>| #[trigger] series_index(m, l) == Some(12int) <==> (m == "rustmailer_event_dispatch_total_by_type_status_and_destination"@ && l == "failure_nats"@),
        forall|m: Seq<char>, l: Seq<char>| #[trigger] series_index(m, l) == Some(13int) <==> (m == "rustmailer_task_queue_length"@ && l == "email"@),
        forall|m: Seq<char>, l: Seq<char>| #[trigger] series_index(m, l) == Some(14int) <==> (m == "rustmailer_task_queue_length"@ && l == "hook"@),
{
    lemma_name_facts();
}

proof fn lemma_points_named(records: Seq<DailyMetrics>, k: int, metric: Seq<char>, label: Option<Seq<char>>)
    requires
        forall|m: Seq<char>, l: Seq<char>|
            #[trigger] series_index(m, l) == Some(k) <==> (m == metric && (label is None || l == label->0)),
    ensures
        points_of(records, k) == samples_named(records, metric, label),
    decreases records.len(),
{
    if records.len() > 0 {
        let last = records.last();
        assert(series_index(last.metric@, last.label@) == Some(k) <==> (last.metric@ == metric && (
            label is None || last.label@ == label->0)));
        lemma_points_named(records.drop_last(), k, metric, label);
    }
}

/// Each series of the overview collects exactly the stored samples named for
/// it, in their order: `email_sent_success` the samples of
/// `rustmailer_email_sent_total` labelled `success`, `email_sent_failure`
/// those labelled `failure`, and so on for every series.
pub proof fn lemma_series_collect_their_samples(records: Seq<DailyMetrics>, ts: MetricsTimeSeries)
    requires
        forall|k: int| 0 <= k < SERIES_COUNT ==> #[trigger] series(ts, k) == points_of(records, k),
    ensures
        ts.imap_traffic_sent@ == samples_named(records, "rustmailer_imap_traffic_total"@, Some("sent"@)),
        ts.imap_traffic_received@ == samples_named(records, "rustmailer_imap_traffic_total"@, Some("received"@)),
        ts.email_sent_success@ == samples_named(records, "rustmailer_email_sent_total"@, Some("success"@)),
        ts.email_sent_failure@ == samples_named(records, "rustmailer_email_sent_total"@, Some("failure"@)),
        ts.email_sent_bytes@ == samples_named(records, "rustmailer_email_sent_bytes"@, None),
        ts.new_email_arrival@ == samples_named(records, "rustmailer_new_email_arrival_total"@, None),
        ts.mail_flag_change@ == samples_named(records, "rustmailer_mail_flag_change_total"@, None),
        ts.email_opens@ == samples_named(records, "rustmailer_email_opens_total"@, None),
        ts.email_clicks@ == samples_named(records, "rustmailer_email_clicks_total"@, None),
        ts.event_dispatch_success_http@ == samples_named(records, "rustmailer_event_dispatch_total_by_type_status_and_destination"@, Some("success_http"@)),
        ts.event_dispatch_success_nats@ == samples_named(records, "rustmailer_event_dispatch_total_by_type_status_and_destination"@, Some("success_nats"@)),
        ts.event_dispatch_failure_http@ == samples_named(records, "rustmailer_event_dispatch_total_by_type_status_and_destination"@, Some("failure_http"@)),
        ts.event_dispatch_failure_nats@ == samples_named(records, "rustmailer_event_dispatch_total_by_type_status_and_destination"@, Some("failure_nats"@)),
        ts.email_task_queue_length@ == samples_named(records, "rustmailer_task_queue_length"@, Some("email"@)),
        ts.hook_task_queue_length@ == samples_named(records, "rustmailer_task_queue_length"@, Some("hook"@)),
{
    lemma_series_names();
    lemma_points_named(records, 0, "rustmailer_imap_traffic_total"@, Some("sent"@));
    lemma_points_named(records, 1, "rustmailer_imap_traffic_total"@, Some("received"@));
    lemma_points_named(records, 2, "rustmailer_email_sent_total"@, Some("success"@));
    lemma_points_named(records, 3, "rustmailer_email_sent_total"@, Some("failure"@));
    lemma_points_named(records, 4, "rustmailer_email_sent_bytes"@, None);
    lemma_points_named(records, 5, "rustmailer_new_email_arrival_total"@, None);
    lemma_points_named(records, 6, "rustmailer_mail_flag_change_total"@, None);
    lemma_points_named(records, 7, "rustmailer_email_opens_total"@, None);
    lemma_points_named(records, 8, "rustmailer_email_clicks_total"@, None);
    lemma_points_named(records, 9, "rustmailer_event_dispatch_total_by_type_status_and_destination"@, Some("success_http"@));
    lemma_points_named(records, 10, "rustmailer_event_dispatch_total_by_type_status_and_destination"@, Some("success_nats"@));
    lemma_points_named(records, 11, "rustmailer_event_dispatch_total_by_type_status_and_destination"@, Some("failure_http"@));
    lemma_points_named(records, 12, "rustmailer_event_dispatch_total_by_type_status_and_destination"@, Some("failure_nats"@));
    lemma_points_named(records, 13, "rustmailer_task_queue_length"@, Some("email"@));
    lemma_points_named(records, 14, "rustmailer_task_queue_length"@, Some("hook"@));
    assert(series(ts, 0) == points_of(records, 0));
    assert(series(ts, 1) == points_of(records, 1));
    assert(series(ts, 2) == points_of(records, 2));
    assert(series(ts, 3) == points_of(records, 3));
    assert(series(ts, 4) == points_of(records, 4));
    assert(series(ts, 5) == points_of(records, 5));
    assert(series(ts, 6) == points_of(records, 6));
    assert(series(ts, 7) == points_of(records, 7));
    assert(series(ts, 8) == points_of(records, 8));
    assert(series(ts, 9) == points_of(records, 9));
    assert(series(ts, 10) == points_of(records, 10));
    assert(series(ts, 11) == points_of(records, 11));
    assert(series(ts, 12) == points_of(records, 12));
    assert(series(ts, 13) == points_of(records, 13));
    assert(series(ts, 14) == points_of(records, 14));
}

/// The overview series that the `i`-th series of a snapshot feeds.
pub open spec fn snapshot_slot(i: int) -> int {
    if i == 0 {
        0
    } else if i == 1 {
        1
    } else if i == 2 {
        13
    } else if i == 3 {
        14
    } else if i == 4 {
        2
    } else if i == 5 {
        3
    } else if i == 6 {
        4
    } else if i == 7 {
        5
    } else if i == 8 {
        6
    } else if i == 9 {
        7
    } else if i == 10 {
        8
    } else if i == 11 {
        9
    } else if i == 12 {
        10
    } else if i == 13 {
        11
    } else if i == 14 {
        12
    } else {
        -1
    }
}

/// What a snapshot stores is what the overview shows: each of the fifteen
/// series that a snapshot records lands in its own overview series, and no two
/// land in the same one.
pub proof fn lemma_snapshots_feed_the_overview()
    ensures
        forall|i: int|
            0 <= i < 15 ==> series_index(snapshot_table()[i].0, snapshot_table()[i].1) == Some(
                #[trigger] snapshot_slot(i),
            ),
        forall|i: int, j: int|
            0 <= i < 15 && 0 <= j < 15 && i != j ==> #[trigger] snapshot_slot(i) != #[trigger] snapshot_slot(j),
{
    lemma_series_names();
    let t = snapshot_table();
    assert forall|i: int| 0 <= i < 15 implies series_index(t[i].0, t[i].1) == Some(
        #[trigger] snapshot_slot(i),
    ) by {
        let k = snapshot_slot(i);
        assert(series_index(t[i].0, t[i].1) == Some(k));
    }
}

fn series_index_exec(metric: &str, label: &str) -> (r: Option<usize>)
    ensures
        match series_index(metric@, label@) {
            Some(k) => r == Some(k as usize),
            None => r is None,
        },
{
    let imap = "rustmailer_imap_traffic_total";
    let sent = "rustmailer_email_sent_total";
    let dispatch = "rustmailer_event_dispatch_total_by_type_status_and_destination";
    let queue = "rustmailer_task_queue_length";
    if str_eq(metric, imap) && str_eq(label, "sent") {
        Some(0)
    } else if str_eq(metric, imap) && str_eq(label, "received") {
        Some(1)
    } else if str_eq(metric, sent) && str_eq(label, "success") {
        Some(2)
    } else if str_eq(metric, sent) && str_eq(label, "failure") {
        Some(3)
    } else if str_eq(metric, "rustmailer_email_sent_bytes") {
        Some(4)
    } else if str_eq(metric, "rustmailer_new_email_arrival_total") {
        Some(5)
    } else if str_eq(metric, "rustmailer_mail_flag_change_total") {
        Some(6)
    } else if str_eq(metric, "rustmailer_email_opens_total") {
        Some(7)
    } else if str_eq(metric, "rustmailer_email_clicks_total") {
        Some(8)
    } else if str_eq(metric, dispatch) && str_eq(label, "success_http") {
        Some(9)
    } else if str_eq(metric, dispatch) && str_eq(label, "success_nats") {
        Some(10)
    } else if str_eq(metric, dispatch) && str_eq(label, "failure_http") {
        Some(11)
    } else if str_eq(metric, dispatch) && str_eq(label, "failure_nats") {
        Some(12)
    } else if str_eq(metric, queue) && str_eq(label, "email") {
        Some(13)
    } else if str_eq(metric, queue) && str_eq(label, "hook") {
        Some(14)
    } else {
        None
    }
}

impl MetricsTimeSeries {
    /// Fifteen empty series.
    pub fn new() -> (r: MetricsTimeSeries)
        ensures
            forall|k: int| 0 <= k < SERIES_COUNT ==> #[trigger] series(r, k).len() == 0,
    {
        MetricsTimeSeries {
            imap_traffic_sent: Vec::new(),
            imap_traffic_received: Vec::new(),
            email_sent_success: Vec::new(),
            email_sent_failure: Vec::new(),
            email_sent_bytes: Vec::new(),
            new_email_arrival: Vec::new(),
            mail_flag_change: Vec::new(),
            email_opens: Vec::new(),
            email_clicks: Vec::new(),
            event_dispatch_success_http: Vec::new(),
            event_dispatch_success_nats: Vec::new(),
            event_dispatch_failure_http: Vec::new(),
            event_dispatch_failure_nats: Vec::new(),
            email_task_queue_length: Vec::new(),
            hook_task_queue_length: Vec::new(),
        }
    }

    fn push_to(&mut self, k: usize, p: TimeSeriesPoint)
        requires
            k < SERIES_COUNT,
        ensures
            forall|j: int|
                0 <= j < SERIES_COUNT ==> #[trigger] series(*final(self), j) == if j == k {
                    series(*old(self), j).push(p)
                } else {
                    series(*old(self), j)
                },
    {
        if k == 0 {
            self.imap_traffic_sent.push(p);
        } else if k == 1 {
            self.imap_traffic_received.push(p);
        } else if k == 2 {
            self.email_sent_success.push(p);
        } else if k == 3 {
            self.email_sent_failure.push(p);
        } else if k == 4 {
            self.email_sent_bytes.push(p);
        } else if k == 5 {
            self.new_email_arrival.push(p);
        } else if k == 6 {
            self.mail_flag_change.push(p);
        } else if k == 7 {
            self.email_opens.push(p);
        } else if k == 8 {
            self.email_clicks.push(p);
        } else if k == 9 {
            self.event_dispatch_success_http.push(p);
        } else if k == 10 {
            self.event_dispatch_success_nats.push(p);
        } else if k == 11 {
            self.event_dispatch_failure_http.push(p);
        } else if k == 12 {
            self.event_dispatch_failure_nats.push(p);
        } else if k == 13 {
            self.email_task_queue_length.push(p);
        } else {
            self.hook_task_queue_length.push(p);
        }
    }

    /// The series built from the stored samples: each sample that belongs to a
    /// series becomes a point of it, in the order of the samples.
    pub fn from_records(records: &Vec<DailyMetrics>) -> (r: MetricsTimeSeries)
        ensures
            forall|k: int| 0 <= k < SERIES_COUNT ==> #[trigger] series(r, k) == points_of(records@, k),
    {
        let mut result = MetricsTimeSeries::new();
        let mut i: usize = 0;
        while i < records.len()
            invariant
                i <= records@.len(),
                forall|k: int|
                    0 <= k < SERIES_COUNT ==> #[trigger] series(result, k) == points_of(
                        records@.take(i as int),
                        k,
                    ),
            decreases records.len() - i,
        {
            let record = &records[i];
            let point = TimeSeriesPoint { timestamp: record.created_at, value: record.value };
            proof {
                assert(records@.take(i + 1).drop_last() =~= records@.take(i as int));
                assert(records@.take(i + 1).last() == records@[i as int]);
            }
            match series_index_exec(record.metric.as_str(), record.label.as_str()) {
                Some(k) => {
                    result.push_to(k, point);
                },
                None => {},
            }
            i = i + 1;
        }
        proof {
            assert(records@.take(i as int) =~= records@);
        }
        result
    }

    /// Orders the points of every series by time, points of equal time in
    /// their order, except the two task-queue series, which keep their order.
    pub fn sort_by_timestamp(&mut self)
        ensures
            forall|k: int| 0 <= k < 13 ==> stably_sorted(#[trigger] series(*final(self), k), series(*old(self), k)),
            series(*final(self), 13) == series(*old(self), 13),
            series(*final(self), 14) == series(*old(self), 14),
    {
        self.imap_traffic_sent = sort_points(&self.imap_traffic_sent);
        self.imap_traffic_received = sort_points(&self.imap_traffic_received);
        self.email_sent_success = sort_points(&self.email_sent_success);
        self.email_sent_failure = sort_points(&self.email_sent_failure);
        self.email_sent_bytes = sort_points(&self.email_sent_bytes);
        self.new_email_arrival = sort_points(&self.new_email_arrival);
        self.mail_flag_change = sort_points(&self.mail_flag_change);
        self.email_opens = sort_points(&self.email_opens);
        self.email_clicks = sort_points(&self.email_clicks);
        self.event_dispatch_success_http = sort_points(&self.event_dispatch_success_http);
        self.event_dispatch_success_nats = sort_points(&self.event_dispatch_success_nats);
        self.event_dispatch_failure_http = sort_points(&self.event_dispatch_failure_http);
        self.event_dispatch_failure_nats = sort_points(&self.event_dispatch_failure_nats);
    }
}

/// The overview page.
#[derive(Clone, Debug, Default, PartialEq, Eq)]
pub struct Overview {
    pub pending_email_task_num: usize,
    pub pending_hook_task_num: usize,
    pub account_num: usize,
    /// Milliseconds since the server started.
    pub uptime: i64,
    pub rustmailer_version: String,
    pub time_series: MetricsTimeSeries,
}

impl Overview {
    /// The overview from its counts and the stored samples, with the series
    /// ordered by time.
    pub fn assemble(
        pending_email_task_num: usize,
        pending_hook_task_num: usize,
        account_num: usize,
        uptime: i64,
        rustmailer_version: String,
        records: &Vec<DailyMetrics>,
    ) -> (r: Overview)
        ensures
            r.pending_email_task_num == pending_email_task_num,
            r.pending_hook_task_num == pending_hook_task_num,
            r.account_num == account_num,
            r.uptime == uptime,
            r.rustmailer_version == rustmailer_version,
            forall|k: int| 0 <= k < 13 ==> stably_sorted(#[trigger] series(r.time_series, k), points_of(records@, k)),
            series(r.time_series, 13) == points_of(records@, 13),
            series(r.time_series, 14) == points_of(records@, 14),
    {
        let mut time_series = MetricsTimeSeries::from_records(records);
        time_series.sort_by_timestamp();
        Overview {
            pending_email_task_num,
            pending_hook_task_num,
            account_num,
            uptime,
            rustmailer_version,
            time_series,
        }
    }
}

} // verus!
