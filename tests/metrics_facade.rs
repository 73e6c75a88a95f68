use broker_core::facade::BrokerMetrics;
use broker_core::ids::{CounterId, GaugeId, HistogramId, SeriesId};
use broker_core::registry::{InstrumentDesc, InstrumentKind, InstrumentRegistry, MetricUnit, MetricsError};

fn fresh() -> BrokerMetrics {
    let mut slot = None;
    BrokerMetrics::initialize(&mut slot).unwrap();
    slot.unwrap()
}

#[test]
fn dropped_messages_are_counted_by_reason() {
    let mut m = fresh();
    m.record_message_dropped("queue_full");
    m.record_message_dropped("queue_full");
    m.record_message_dropped("queue_full");
    m.record_message_dropped("invalid_recipient");
    assert_eq!(m.counter_value(CounterId::MessagesDropped), 4);
    assert_eq!(m.series_value(SeriesId::DroppedReason, "queue_full"), 3);
    assert_eq!(m.series_value(SeriesId::DroppedReason, "invalid_recipient"), 1);
    assert_eq!(m.series_value(SeriesId::DroppedReason, "other"), 0);
    assert_eq!(m.series_value(SeriesId::FailedReason, "queue_full"), 0);
}

#[test]
fn counter_increments_are_not_lost() {
    let mut m = fresh();
    for _ in 0..1000 {
        m.record_message_received();
    }
    assert_eq!(m.counter_value(CounterId::MessagesReceived), 1000);
    assert_eq!(m.counter_value(CounterId::MessagesInvalid), 0);
}

#[test]
fn every_instrument_is_described_once() {
    let m = fresh();
    let r = m.registry();
    assert_eq!(r.len(), 24);
    let d = r.lookup("broker_messages_received_total").unwrap();
    assert_eq!(d.kind, InstrumentKind::Counter);
    assert_eq!(d.help, "Total number of messages received");
    assert!(d.label_keys.is_empty());
    let ingress = r.lookup("broker_ingress_latency_seconds").unwrap();
    assert_eq!(ingress.help, "Ingress processing latency");
    assert_eq!(ingress.buckets, vec![1000, 5000, 10000, 25000, 50000, 100000, 250000, 500000, 1000000]);
    let shard = r.lookup("broker_routing_shard_operations").unwrap();
    assert_eq!(shard.kind, InstrumentKind::Counter);
    assert_eq!(shard.label_keys, vec!["shard_id".to_string()]);
    let h = r.lookup("broker_fanout_latency_seconds").unwrap();
    assert_eq!(h.kind, InstrumentKind::Histogram);
    assert_eq!(h.unit, Some(MetricUnit::Seconds));
    assert_eq!(h.buckets, vec![1000, 5000, 10000, 25000, 50000, 100000, 250000, 500000, 1000000]);
    let rc = r.lookup("broker_fanout_recipients_per_message").unwrap();
    assert_eq!(rc.buckets, vec![1, 10, 100, 1000, 10000, 100000]);
    assert_eq!(rc.unit, None);
    assert_eq!(r.lookup("broker_active_topics").unwrap().kind, InstrumentKind::Gauge);
    assert!(r.lookup("broker_unknown").is_none());
    for i in 0..r.len() {
        let name = r.get(i).name.clone();
        assert_eq!(r.position(&name), Some(i));
    }
}

#[test]
fn describing_a_name_twice_is_refused() {
    let mut r = InstrumentRegistry::new();
    let d = InstrumentDesc {
        name: "x_total".to_string(),
        kind: InstrumentKind::Counter,
        help: "x".to_string(),
        unit: None,
        buckets: vec![],
        label_keys: vec![],
    };
    assert_eq!(r.describe(d.clone()), Ok(()));
    let again = InstrumentDesc { help: "other".to_string(), ..d };
    assert_eq!(r.describe(again), Err(MetricsError::AlreadyDescribed("x_total".to_string())));
    assert_eq!(r.len(), 1);
    assert_eq!(r.lookup("x_total").unwrap().help, "x");
}

#[test]
fn initialize_twice_keeps_the_first_registry() {
    let mut slot: Option<BrokerMetrics> = None;
    assert_eq!(BrokerMetrics::initialize(&mut slot), Ok(()));
    slot.as_mut().unwrap().record_backpressure_event();
    assert_eq!(BrokerMetrics::initialize(&mut slot), Ok(()));
    let m = slot.unwrap();
    assert_eq!(m.counter_value(CounterId::BackpressureEvents), 1);
    assert_eq!(m.registry().len(), 24);
}

#[test]
fn recorded_timer_observes_once() {
    let mut m = fresh();
    let t = m.start_processing_timer();
    t.record(&mut m);
    let h = m.histogram_tally(HistogramId::ProcessingLatency);
    assert_eq!(h.observations(), 1);
    assert!(h.total() < 10_000_000);
}

#[test]
fn dropped_timer_observes_nothing() {
    let m = fresh();
    let t = m.start_processing_timer();
    drop(t);
    assert_eq!(m.histogram_tally(HistogramId::ProcessingLatency).observations(), 0);
}

#[test]
fn latency_lands_in_cumulative_buckets() {
    let mut m = fresh();
    m.record_ingress_latency(3000);
    m.record_ingress_latency(600000);
    let h = m.histogram_tally(HistogramId::IngressLatency);
    assert_eq!(h.observations(), 2);
    assert_eq!(h.total(), 603000);
    assert_eq!(h.bucket_len(), 9);
    assert_eq!(h.bucket_count(8), 2);
    assert_eq!(h.bucket_count(0), 0);
    assert_eq!(h.bucket_count(1), 1);
    assert_eq!(h.bucket_count(7), 1);
    assert_eq!(m.histogram_tally(HistogramId::EgressLatency).observations(), 0);
}

#[test]
fn fanout_updates_counter_and_both_histograms() {
    let mut m = fresh();
    m.record_fanout_operation(250, 2000);
    assert_eq!(m.counter_value(CounterId::FanoutOperations), 1);
    let lat = m.histogram_tally(HistogramId::FanoutLatency);
    assert_eq!(lat.total(), 2000);
    assert_eq!(lat.bucket_count(0), 0);
    assert_eq!(lat.bucket_count(1), 1);
    let rec = m.histogram_tally(HistogramId::FanoutRecipients);
    assert_eq!(rec.total(), 250);
    assert_eq!(rec.bucket_count(2), 0);
    assert_eq!(rec.bucket_count(3), 1);
}

#[test]
fn sent_and_published_add_their_counts() {
    let mut m = fresh();
    m.record_message_sent(5);
    m.record_message_sent(7);
    m.record_nats_published(3);
    assert_eq!(m.counter_value(CounterId::MessagesSent), 12);
    assert_eq!(m.counter_value(CounterId::NatsPublished), 3);
}

#[test]
fn counters_wrap_at_the_top() {
    let mut m = fresh();
    m.record_message_sent(u64::MAX);
    m.record_message_sent(2);
    assert_eq!(m.counter_value(CounterId::MessagesSent), 1);
}

#[test]
fn reason_keyed_failures_errors_and_rate_limits() {
    let mut m = fresh();
    m.record_message_failed("timeout");
    m.record_nats_error("disconnected");
    m.record_nats_error("disconnected");
    m.record_rate_limit_hit("user-1");
    m.record_message_invalid();
    m.record_routing_cache_miss();
    assert_eq!(m.counter_value(CounterId::MessagesFailed), 1);
    assert_eq!(m.series_value(SeriesId::FailedReason, "timeout"), 1);
    assert_eq!(m.counter_value(CounterId::NatsErrors), 2);
    assert_eq!(m.series_value(SeriesId::NatsErrorType, "disconnected"), 2);
    assert_eq!(m.counter_value(CounterId::RateLimitHits), 1);
    assert_eq!(m.series_value(SeriesId::RateLimitUser, "user-1"), 1);
    assert_eq!(m.counter_value(CounterId::MessagesInvalid), 1);
    assert_eq!(m.counter_value(CounterId::RoutingCacheMisses), 1);
}

#[test]
fn gauges_hold_the_last_value() {
    let mut m = fresh();
    m.update_active_connections(10);
    m.update_active_connections(-3);
    m.update_active_topics(i64::MAX);
    assert_eq!(m.gauge_value(GaugeId::ActiveConnections), -3);
    assert_eq!(m.gauge_value(GaugeId::ActiveTopics), i64::MAX);
    assert_eq!(m.gauge_value(GaugeId::MemoryUsageBytes), 0);
}

#[test]
fn shard_operations_are_counted_per_shard() {
    let mut m = fresh();
    m.record_shard_operation(7);
    m.record_shard_operation(7);
    m.record_shard_operation(12);
    assert_eq!(m.series_value(SeriesId::ShardOperations, "7"), 2);
    assert_eq!(m.series_value(SeriesId::ShardOperations, "12"), 1);
    assert_eq!(m.series_value(SeriesId::ShardOperations, "1"), 0);
}
