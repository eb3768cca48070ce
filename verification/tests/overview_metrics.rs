use rustmailer_core::overview::metrics::{
    record_snapshot, retention_cutoff, snapshot_series, DailyMetrics, MetricCache, MetricSample,
    Reading,
};
use rustmailer_core::overview::series::{sort_points, TimeSeriesPoint};
use rustmailer_core::overview::{MetricsTimeSeries, Overview};

fn p(timestamp: i64, value: u64) -> TimeSeriesPoint {
    TimeSeriesPoint { timestamp, value }
}

#[test]
fn counters_record_their_growth() {
    let mut cache = MetricCache::new();
    assert_eq!(cache.calculate_delta("m", "l", 10), 0);
    assert_eq!(cache.calculate_delta("m", "l", 15), 5);
    assert_eq!(cache.calculate_delta("m", "l", 15), 0);
    assert_eq!(cache.calculate_delta("m", "l", 3), 3);
    assert_eq!(cache.calculate_delta("m", "other", 7), 0);
    assert_eq!(cache.calculate_delta("m", "l", 4), 1);
}

#[test]
fn a_snapshot_stores_one_sample_per_series() {
    let series = snapshot_series();
    assert_eq!(series.len(), 15);
    assert_eq!(series[0].metric, "rustmailer_imap_traffic_total");
    assert_eq!(series[0].label, "sent");
    assert_eq!(series[14].label, "failure_nats");
    let mut cache = MetricCache::new();
    let mut readings: Vec<Reading> = (0..15).map(|i| Reading::Counter(100 + i)).collect();
    readings[2] = Reading::Gauge(4);
    readings[3] = Reading::Gauge(-1);
    let first = record_snapshot(&mut cache, &series, &readings, 1000);
    assert_eq!(first.len(), 15);
    assert!(first.iter().all(|s| s.created_at == 1000));
    assert_eq!(first[0].value, 0);
    assert_eq!(first[2].value, 4);
    assert_eq!(first[3].value, u64::MAX);
    readings[0] = Reading::Counter(130);
    let second = record_snapshot(&mut cache, &series, &readings, 2000);
    assert_eq!(second[0].value, 30);
    assert_eq!(second[1].value, 0);
    assert_eq!(second[2].value, 4);
    let stored = DailyMetrics::from_sample(
        9,
        MetricSample { metric: "m".into(), value: 1, label: "l".into(), created_at: 5 },
    );
    assert_eq!(stored.id, 9);
    assert_eq!(retention_cutoff(100000000), 100000000 - 86400000);
}

#[test]
fn points_are_sorted_stably_by_time() {
    let v = vec![p(3, 1), p(1, 2), p(3, 3), p(2, 4), p(1, 5)];
    assert_eq!(sort_points(&v), vec![p(1, 2), p(1, 5), p(2, 4), p(3, 1), p(3, 3)]);
    assert_eq!(sort_points(&vec![]), vec![]);
}

fn rec(metric: &str, label: &str, at: i64, value: u64) -> DailyMetrics {
    DailyMetrics { id: 0, metric: metric.into(), created_at: at, value, label: label.into() }
}

#[test]
fn samples_are_sorted_into_series() {
    let records = vec![
        rec("rustmailer_imap_traffic_total", "sent", 20, 1),
        rec("rustmailer_imap_traffic_total", "received", 10, 2),
        rec("rustmailer_imap_traffic_total", "sent", 10, 3),
        rec("rustmailer_email_sent_bytes", "", 5, 4),
        rec("rustmailer_event_dispatch_total_by_type_status_and_destination", "failure_nats", 1, 5),
        rec("rustmailer_task_queue_length", "hook", 9, 6),
        rec("rustmailer_task_queue_length", "hook", 3, 7),
        rec("unknown", "", 1, 8),
    ];
    let series = MetricsTimeSeries::from_records(&records);
    assert_eq!(series.imap_traffic_sent, vec![p(20, 1), p(10, 3)]);
    assert_eq!(series.imap_traffic_received, vec![p(10, 2)]);
    assert_eq!(series.email_sent_bytes, vec![p(5, 4)]);
    assert_eq!(series.event_dispatch_failure_nats, vec![p(1, 5)]);
    assert_eq!(series.hook_task_queue_length, vec![p(9, 6), p(3, 7)]);
    let overview = Overview::assemble(1, 2, 3, 4, "1.0".into(), &records);
    assert_eq!(overview.time_series.imap_traffic_sent, vec![p(10, 3), p(20, 1)]);
    assert_eq!(overview.time_series.hook_task_queue_length, vec![p(9, 6), p(3, 7)]);
    assert_eq!(overview.account_num, 3);
    let empty = MetricsTimeSeries::new();
    assert!(empty.email_clicks.is_empty());
}
