//! The fixed set of instruments the broker exposes, with their names,
//! help texts, units and bucket bounds.

use vstd::prelude::*;
use crate::registry::MetricUnit;

verus! {

pub const NUM_COUNTERS: usize = 14;
pub const NUM_GAUGES: usize = 4;
pub const NUM_HISTOGRAMS: usize = 5;
pub const NUM_SERIES: usize = 5;

#[derive(Clone, Copy, Debug, PartialEq, Eq, Structural)]
pub enum CounterId {
    MessagesReceived,
    MessagesInvalid,
    MessagesDropped,
    MessagesSent,
    MessagesFailed,
    MessagesQueued,
    FanoutOperations,
    RoutingCacheHits,
    RoutingCacheMisses,
    NatsPublished,
    NatsConsumed,
    NatsErrors,
    RateLimitHits,
    BackpressureEvents,
}

#[derive(Clone, Copy, Debug, PartialEq, Eq, Structural)]
pub enum GaugeId {
    ActiveConnections,
    ActiveTopics,
    MemoryUsageBytes,
    CpuUsagePercent,
}

#[derive(Clone, Copy, Debug, PartialEq, Eq, Structural)]
pub enum HistogramId {
    FanoutLatency,
    FanoutRecipients,
    IngressLatency,
    EgressLatency,
    ProcessingLatency,
}

/// Counters broken down by a label, beside the primary counter of the
/// same event.
#[derive(Clone, Copy, Debug, PartialEq, Eq, Structural)]
pub enum SeriesId {
    DroppedReason,
    FailedReason,
    NatsErrorType,
    RateLimitUser,
    /// Operations per routing shard, keyed by `shard_id`.
    ShardOperations,
}

impl CounterId {
    pub open spec fn idx(self) -> int {
        match self {
            CounterId::MessagesReceived => 0,
            CounterId::MessagesInvalid => 1,
            CounterId::MessagesDropped => 2,
            CounterId::MessagesSent => 3,
            CounterId::MessagesFailed => 4,
            CounterId::MessagesQueued => 5,
            CounterId::FanoutOperations => 6,
            CounterId::RoutingCacheHits => 7,
            CounterId::RoutingCacheMisses => 8,
            CounterId::NatsPublished => 9,
            CounterId::NatsConsumed => 10,
            CounterId::NatsErrors => 11,
            CounterId::RateLimitHits => 12,
            CounterId::BackpressureEvents => 13,
        }
    }

    pub open spec fn at_spec(i: int) -> CounterId {
        if i == 0 { CounterId::MessagesReceived }
        else if i == 1 { CounterId::MessagesInvalid }
        else if i == 2 { CounterId::MessagesDropped }
        else if i == 3 { CounterId::MessagesSent }
        else if i == 4 { CounterId::MessagesFailed }
        else if i == 5 { CounterId::MessagesQueued }
        else if i == 6 { CounterId::FanoutOperations }
        else if i == 7 { CounterId::RoutingCacheHits }
        else if i == 8 { CounterId::RoutingCacheMisses }
        else if i == 9 { CounterId::NatsPublished }
        else if i == 10 { CounterId::NatsConsumed }
        else if i == 11 { CounterId::NatsErrors }
        else if i == 12 { CounterId::RateLimitHits }
        else { CounterId::BackpressureEvents }
    }

    pub proof fn lemma_at_spec(i: int)
        requires
            0 <= i < NUM_COUNTERS,
        ensures
            Self::at_spec(i).idx() == i,
    {
    }

    pub proof fn lemma_idx(self)
        ensures
            0 <= self.idx() < NUM_COUNTERS,
            Self::at_spec(self.idx()) == self,
    {
    }

    /// The id at position `i` of the counter table.
    pub fn at(i: usize) -> (r: CounterId)
        requires
            i < NUM_COUNTERS,
        ensures
            r.idx() == i,
            r == Self::at_spec(i as int),
    {
        if i == 0 { CounterId::MessagesReceived }
        else if i == 1 { CounterId::MessagesInvalid }
        else if i == 2 { CounterId::MessagesDropped }
        else if i == 3 { CounterId::MessagesSent }
        else if i == 4 { CounterId::MessagesFailed }
        else if i == 5 { CounterId::MessagesQueued }
        else if i == 6 { CounterId::FanoutOperations }
        else if i == 7 { CounterId::RoutingCacheHits }
        else if i == 8 { CounterId::RoutingCacheMisses }
        else if i == 9 { CounterId::NatsPublished }
        else if i == 10 { CounterId::NatsConsumed }
        else if i == 11 { CounterId::NatsErrors }
        else if i == 12 { CounterId::RateLimitHits }
        else { CounterId::BackpressureEvents }
    }

    /// Position in the counter table.
    pub fn slot(self) -> (r: usize)
        ensures
            r == self.idx(),
            r < NUM_COUNTERS,
    {
        match self {
            CounterId::MessagesReceived => 0,
            CounterId::MessagesInvalid => 1,
            CounterId::MessagesDropped => 2,
            CounterId::MessagesSent => 3,
            CounterId::MessagesFailed => 4,
            CounterId::MessagesQueued => 5,
            CounterId::FanoutOperations => 6,
            CounterId::RoutingCacheHits => 7,
            CounterId::RoutingCacheMisses => 8,
            CounterId::NatsPublished => 9,
            CounterId::NatsConsumed => 10,
            CounterId::NatsErrors => 11,
            CounterId::RateLimitHits => 12,
            CounterId::BackpressureEvents => 13,
        }
    }

    pub open spec fn spec_name(self) -> Seq<char> {
        match self {
            CounterId::MessagesReceived => "broker_messages_received_total"@,
            CounterId::MessagesInvalid => "broker_messages_invalid_total"@,
            CounterId::MessagesDropped => "broker_messages_dropped_total"@,
            CounterId::MessagesSent => "broker_messages_sent_total"@,
            CounterId::MessagesFailed => "broker_messages_failed_total"@,
            CounterId::MessagesQueued => "broker_messages_queued_total"@,
            CounterId::FanoutOperations => "broker_fanout_operations_total"@,
            CounterId::RoutingCacheHits => "broker_routing_cache_hits"@,
            CounterId::RoutingCacheMisses => "broker_routing_cache_misses"@,
            CounterId::NatsPublished => "broker_nats_published_total"@,
            CounterId::NatsConsumed => "broker_nats_consumed_total"@,
            CounterId::NatsErrors => "broker_nats_errors_total"@,
            CounterId::RateLimitHits => "broker_rate_limit_hits_total"@,
            CounterId::BackpressureEvents => "broker_backpressure_events_total"@,
        }
    }

    pub fn name(self) -> (r: &'static str)
        ensures
            r@ == self.spec_name(),
    {
        match self {
            CounterId::MessagesReceived => "broker_messages_received_total",
            CounterId::MessagesInvalid => "broker_messages_invalid_total",
            CounterId::MessagesDropped => "broker_messages_dropped_total",
            CounterId::MessagesSent => "broker_messages_sent_total",
            CounterId::MessagesFailed => "broker_messages_failed_total",
            CounterId::MessagesQueued => "broker_messages_queued_total",
            CounterId::FanoutOperations => "broker_fanout_operations_total",
            CounterId::RoutingCacheHits => "broker_routing_cache_hits",
            CounterId::RoutingCacheMisses => "broker_routing_cache_misses",
            CounterId::NatsPublished => "broker_nats_published_total",
            CounterId::NatsConsumed => "broker_nats_consumed_total",
            CounterId::NatsErrors => "broker_nats_errors_total",
            CounterId::RateLimitHits => "broker_rate_limit_hits_total",
            CounterId::BackpressureEvents => "broker_backpressure_events_total",
        }
    }

    pub open spec fn spec_help(self) -> Seq<char> {
        match self {
            CounterId::MessagesReceived => "Total number of messages received"@,
            CounterId::MessagesInvalid => "Total number of invalid messages rejected"@,
            CounterId::MessagesDropped => "Total number of messages dropped due to backpressure"@,
            CounterId::MessagesSent => "Total number of messages sent to recipients"@,
            CounterId::MessagesFailed => "Total number of messages that failed to send"@,
            CounterId::MessagesQueued => "Total number of messages queued for offline users"@,
            CounterId::FanoutOperations => "Total number of fanout operations"@,
            CounterId::RoutingCacheHits => "Routing cache hits"@,
            CounterId::RoutingCacheMisses => "Routing cache misses"@,
            CounterId::NatsPublished => "Total messages published to NATS"@,
            CounterId::NatsConsumed => "Total messages consumed from NATS"@,
            CounterId::NatsErrors => "Total NATS communication errors"@,
            CounterId::RateLimitHits => "Total rate limit hits"@,
            CounterId::BackpressureEvents => "Total backpressure events"@,
        }
    }

    pub fn help(self) -> (r: &'static str)
        ensures
            r@ == self.spec_help(),
    {
        match self {
            CounterId::MessagesReceived => "Total number of messages received",
            CounterId::MessagesInvalid => "Total number of invalid messages rejected",
            CounterId::MessagesDropped => "Total number of messages dropped due to backpressure",
            CounterId::MessagesSent => "Total number of messages sent to recipients",
            CounterId::MessagesFailed => "Total number of messages that failed to send",
            CounterId::MessagesQueued => "Total number of messages queued for offline users",
            CounterId::FanoutOperations => "Total number of fanout operations",
            CounterId::RoutingCacheHits => "Routing cache hits",
            CounterId::RoutingCacheMisses => "Routing cache misses",
            CounterId::NatsPublished => "Total messages published to NATS",
            CounterId::NatsConsumed => "Total messages consumed from NATS",
            CounterId::NatsErrors => "Total NATS communication errors",
            CounterId::RateLimitHits => "Total rate limit hits",
            CounterId::BackpressureEvents => "Total backpressure events",
        }
    }
}

impl GaugeId {
    pub open spec fn idx(self) -> int {
        match self {
            GaugeId::ActiveConnections => 0,
            GaugeId::ActiveTopics => 1,
            GaugeId::MemoryUsageBytes => 2,
            GaugeId::CpuUsagePercent => 3,
        }
    }

    pub open spec fn at_spec(i: int) -> GaugeId {
        if i == 0 { GaugeId::ActiveConnections }
        else if i == 1 { GaugeId::ActiveTopics }
        else if i == 2 { GaugeId::MemoryUsageBytes }
        else { GaugeId::CpuUsagePercent }
    }

    pub proof fn lemma_at_spec(i: int)
        requires
            0 <= i < NUM_GAUGES,
        ensures
            Self::at_spec(i).idx() == i,
    {
    }

    pub proof fn lemma_idx(self)
        ensures
            0 <= self.idx() < NUM_GAUGES,
            Self::at_spec(self.idx()) == self,
    {
    }

    /// The id at position `i` of the gauge table.
    pub fn at(i: usize) -> (r: GaugeId)
        requires
            i < NUM_GAUGES,
        ensures
            r.idx() == i,
            r == Self::at_spec(i as int),
    {
        if i == 0 { GaugeId::ActiveConnections }
        else if i == 1 { GaugeId::ActiveTopics }
        else if i == 2 { GaugeId::MemoryUsageBytes }
        else { GaugeId::CpuUsagePercent }
    }

    /// Position in the gauge table.
    pub fn slot(self) -> (r: usize)
        ensures
            r == self.idx(),
            r < NUM_GAUGES,
    {
        match self {
            GaugeId::ActiveConnections => 0,
            GaugeId::ActiveTopics => 1,
            GaugeId::MemoryUsageBytes => 2,
            GaugeId::CpuUsagePercent => 3,
        }
    }

    pub open spec fn spec_name(self) -> Seq<char> {
        match self {
            GaugeId::ActiveConnections => "broker_active_connections"@,
            GaugeId::ActiveTopics => "broker_active_topics"@,
            GaugeId::MemoryUsageBytes => "broker_memory_usage_bytes"@,
            GaugeId::CpuUsagePercent => "broker_cpu_usage_percent"@,
        }
    }

    pub fn name(self) -> (r: &'static str)
        ensures
            r@ == self.spec_name(),
    {
        match self {
            GaugeId::ActiveConnections => "broker_active_connections",
            GaugeId::ActiveTopics => "broker_active_topics",
            GaugeId::MemoryUsageBytes => "broker_memory_usage_bytes",
            GaugeId::CpuUsagePercent => "broker_cpu_usage_percent",
        }
    }

    pub open spec fn spec_help(self) -> Seq<char> {
        match self {
            GaugeId::ActiveConnections => "Number of active connections to gateways"@,
            GaugeId::ActiveTopics => "Number of active routing topics"@,
            GaugeId::MemoryUsageBytes => "Memory usage in bytes"@,
            GaugeId::CpuUsagePercent => "CPU usage percentage"@,
        }
    }

    pub fn help(self) -> (r: &'static str)
        ensures
            r@ == self.spec_help(),
    {
        match self {
            GaugeId::ActiveConnections => "Number of active connections to gateways",
            GaugeId::ActiveTopics => "Number of active routing topics",
            GaugeId::MemoryUsageBytes => "Memory usage in bytes",
            GaugeId::CpuUsagePercent => "CPU usage percentage",
        }
    }
}

impl HistogramId {
    pub open spec fn idx(self) -> int {
        match self {
            HistogramId::FanoutLatency => 0,
            HistogramId::FanoutRecipients => 1,
            HistogramId::IngressLatency => 2,
            HistogramId::EgressLatency => 3,
            HistogramId::ProcessingLatency => 4,
        }
    }

    pub open spec fn at_spec(i: int) -> HistogramId {
        if i == 0 { HistogramId::FanoutLatency }
        else if i == 1 { HistogramId::FanoutRecipients }
        else if i == 2 { HistogramId::IngressLatency }
        else if i == 3 { HistogramId::EgressLatency }
        else { HistogramId::ProcessingLatency }
    }

    pub proof fn lemma_at_spec(i: int)
        requires
            0 <= i < NUM_HISTOGRAMS,
        ensures
            Self::at_spec(i).idx() == i,
    {
    }

    pub proof fn lemma_idx(self)
        ensures
            0 <= self.idx() < NUM_HISTOGRAMS,
            Self::at_spec(self.idx()) == self,
    {
    }

    /// The id at position `i` of the histogram table.
    pub fn at(i: usize) -> (r: HistogramId)
        requires
            i < NUM_HISTOGRAMS,
        ensures
            r.idx() == i,
            r == Self::at_spec(i as int),
    {
        if i == 0 { HistogramId::FanoutLatency }
        else if i == 1 { HistogramId::FanoutRecipients }
        else if i == 2 { HistogramId::IngressLatency }
        else if i == 3 { HistogramId::EgressLatency }
        else { HistogramId::ProcessingLatency }
    }

    /// Position in the histogram table.
    pub fn slot(self) -> (r: usize)
        ensures
            r == self.idx(),
            r < NUM_HISTOGRAMS,
    {
        match self {
            HistogramId::FanoutLatency => 0,
            HistogramId::FanoutRecipients => 1,
            HistogramId::IngressLatency => 2,
            HistogramId::EgressLatency => 3,
            HistogramId::ProcessingLatency => 4,
        }
    }

    pub open spec fn spec_name(self) -> Seq<char> {
        match self {
            HistogramId::FanoutLatency => "broker_fanout_latency_seconds"@,
            HistogramId::FanoutRecipients => "broker_fanout_recipients_per_message"@,
            HistogramId::IngressLatency => "broker_ingress_latency_seconds"@,
            HistogramId::EgressLatency => "broker_egress_latency_seconds"@,
            HistogramId::ProcessingLatency => "broker_processing_latency_seconds"@,
        }
    }

    pub fn name(self) -> (r: &'static str)
        ensures
            r@ == self.spec_name(),
    {
        match self {
            HistogramId::FanoutLatency => "broker_fanout_latency_seconds",
            HistogramId::FanoutRecipients => "broker_fanout_recipients_per_message",
            HistogramId::IngressLatency => "broker_ingress_latency_seconds",
            HistogramId::EgressLatency => "broker_egress_latency_seconds",
            HistogramId::ProcessingLatency => "broker_processing_latency_seconds",
        }
    }

    pub open spec fn spec_help(self) -> Seq<char> {
        match self {
            HistogramId::FanoutLatency => "Fanout operation latency in seconds"@,
            HistogramId::FanoutRecipients => "Number of recipients per fanout operation"@,
            HistogramId::IngressLatency => "Ingress processing latency"@,
            HistogramId::EgressLatency => "Egress processing latency"@,
            HistogramId::ProcessingLatency => "Message processing latency"@,
        }
    }

    pub fn help(self) -> (r: &'static str)
        ensures
            r@ == self.spec_help(),
    {
        match self {
            HistogramId::FanoutLatency => "Fanout operation latency in seconds",
            HistogramId::FanoutRecipients => "Number of recipients per fanout operation",
            HistogramId::IngressLatency => "Ingress processing latency",
            HistogramId::EgressLatency => "Egress processing latency",
            HistogramId::ProcessingLatency => "Message processing latency",
        }
    }

    /// Whether observations are latencies in microseconds (exported in
    /// seconds) rather than plain counts.
    pub open spec fn spec_is_latency(self) -> bool {
        self != HistogramId::FanoutRecipients
    }

    pub fn is_latency(self) -> (r: bool)
        ensures
            r == self.spec_is_latency(),
    {
        match self {
            HistogramId::FanoutRecipients => false,
            _ => true,
        }
    }

    pub open spec fn spec_unit(self) -> Option<MetricUnit> {
        if self.spec_is_latency() { Some(MetricUnit::Seconds) } else { None }
    }

    pub fn unit(self) -> (r: Option<MetricUnit>)
        ensures
            r == self.spec_unit(),
    {
        if self.is_latency() { Some(MetricUnit::Seconds) } else { None }
    }

    /// Upper bucket bounds: microseconds for latencies (1 ms to 1 s),
    /// recipients for a fanout (1 to 100000).
    pub open spec fn spec_bounds(self) -> Seq<u64> {
        if self.spec_is_latency() {
            seq![1000, 5000, 10000, 25000, 50000, 100000, 250000, 500000, 1000000]
        } else {
            seq![1, 10, 100, 1000, 10000, 100000]
        }
    }

    pub fn bucket_bounds(self) -> (r: Vec<u64>)
        ensures
            r@ == self.spec_bounds(),
    {
        let v = if self.is_latency() {
            vec![1000, 5000, 10000, 25000, 50000, 100000, 250000, 500000, 1000000]
        } else {
            vec![1, 10, 100, 1000, 10000, 100000]
        };
        assert(v@ =~= self.spec_bounds());
        v
    }
}

impl SeriesId {
    pub open spec fn idx(self) -> int {
        match self {
            SeriesId::DroppedReason => 0,
            SeriesId::FailedReason => 1,
            SeriesId::NatsErrorType => 2,
            SeriesId::RateLimitUser => 3,
            SeriesId::ShardOperations => 4,
        }
    }

    /// Position in the series table.
    pub fn slot(self) -> (r: usize)
        ensures
            r == self.idx(),
            r < NUM_SERIES,
    {
        match self {
            SeriesId::DroppedReason => 0,
            SeriesId::FailedReason => 1,
            SeriesId::NatsErrorType => 2,
            SeriesId::RateLimitUser => 3,
            SeriesId::ShardOperations => 4,
        }
    }

    pub fn name(self) -> (r: &'static str)
        ensures
            self == SeriesId::ShardOperations ==> r@ == shard_counter_name(),
    {
        match self {
            SeriesId::DroppedReason => "broker_messages_dropped_reason",
            SeriesId::FailedReason => "broker_messages_failed_reason",
            SeriesId::NatsErrorType => "broker_nats_error_types",
            SeriesId::RateLimitUser => "broker_rate_limit_hits_user",
            SeriesId::ShardOperations => "broker_routing_shard_operations",
        }
    }

    /// The label key of the breakdown.
    pub fn label_key(self) -> (r: &'static str)
        ensures
            self == SeriesId::ShardOperations ==> r@ == "shard_id"@,
    {
        match self {
            SeriesId::DroppedReason => "reason",
            SeriesId::FailedReason => "reason",
            SeriesId::NatsErrorType => "error",
            SeriesId::RateLimitUser => "user_id",
            SeriesId::ShardOperations => "shard_id",
        }
    }
}

/// The name of the per-shard operations counter, the one breakdown that is
/// described to the registry: a counter vector keyed by `shard_id`.
pub open spec fn shard_counter_name() -> Seq<char> {
    "broker_routing_shard_operations"@
}

pub open spec fn shard_counter_help() -> Seq<char> {
    "Operations per routing shard"@
}

pub fn shard_counter_help_text() -> (r: &'static str)
    ensures
        r@ == shard_counter_help(),
{
    "Operations per routing shard"
}

/// No two instruments of the tables share a name, within a kind or across
/// kinds.
pub proof fn lemma_instrument_names_distinct()
    ensures
        forall|a: CounterId, b: CounterId| a != b ==> #[trigger] a.spec_name() != #[trigger] b.spec_name(),
        forall|a: GaugeId, b: GaugeId| a != b ==> #[trigger] a.spec_name() != #[trigger] b.spec_name(),
        forall|a: HistogramId, b: HistogramId| a != b ==> #[trigger] a.spec_name() != #[trigger] b.spec_name(),
        forall|a: CounterId, b: GaugeId| #[trigger] a.spec_name() != #[trigger] b.spec_name(),
        forall|a: CounterId, b: HistogramId| #[trigger] a.spec_name() != #[trigger] b.spec_name(),
        forall|a: GaugeId, b: HistogramId| #[trigger] a.spec_name() != #[trigger] b.spec_name(),
        forall|a: CounterId| #[trigger] a.spec_name() != shard_counter_name(),
        forall|a: GaugeId| #[trigger] a.spec_name() != shard_counter_name(),
        forall|a: HistogramId| #[trigger] a.spec_name() != shard_counter_name(),
{
    assert("broker_messages_received_total"@[16] != "broker_messages_invalid_total"@[16]) by {
        reveal_strlit("broker_messages_received_total");
        reveal_strlit("broker_messages_invalid_total");
    }
    assert("broker_messages_received_total"@[16] != "broker_messages_dropped_total"@[16]) by {
        reveal_strlit("broker_messages_received_total");
        reveal_strlit("broker_messages_dropped_total");
    }
    assert("broker_messages_received_total"@[16] != "broker_messages_sent_total"@[16]) by {
        reveal_strlit("broker_messages_received_total");
        reveal_strlit("broker_messages_sent_total");
    }
    assert("broker_messages_received_total"@[16] != "broker_messages_failed_total"@[16]) by {
        reveal_strlit("broker_messages_received_total");
        reveal_strlit("broker_messages_failed_total");
    }
    assert("broker_messages_received_total"@[16] != "broker_messages_queued_total"@[16]) by {
        reveal_strlit("broker_messages_received_total");
        reveal_strlit("broker_messages_queued_total");
    }
    assert("broker_messages_received_total"@[7] != "broker_fanout_operations_total"@[7]) by {
        reveal_strlit("broker_messages_received_total");
        reveal_strlit("broker_fanout_operations_total");
    }
    assert("broker_messages_received_total"@[7] != "broker_routing_cache_hits"@[7]) by {
        reveal_strlit("broker_messages_received_total");
        reveal_strlit("broker_routing_cache_hits");
    }
    assert("broker_messages_received_total"@[7] != "broker_routing_cache_misses"@[7]) by {
        reveal_strlit("broker_messages_received_total");
        reveal_strlit("broker_routing_cache_misses");
    }
    assert("broker_messages_received_total"@[7] != "broker_nats_published_total"@[7]) by {
        reveal_strlit("broker_messages_received_total");
        reveal_strlit("broker_nats_published_total");
    }
    assert("broker_messages_received_total"@[7] != "broker_nats_consumed_total"@[7]) by {
        reveal_strlit("broker_messages_received_total");
        reveal_strlit("broker_nats_consumed_total");
    }
    assert("broker_messages_received_total"@[7] != "broker_nats_errors_total"@[7]) by {
        reveal_strlit("broker_messages_received_total");
        reveal_strlit("broker_nats_errors_total");
    }
    assert("broker_messages_received_total"@[7] != "broker_rate_limit_hits_total"@[7]) by {
        reveal_strlit("broker_messages_received_total");
        reveal_strlit("broker_rate_limit_hits_total");
    }
    assert("broker_messages_received_total"@[7] != "broker_backpressure_events_total"@[7]) by {
        reveal_strlit("broker_messages_received_total");
        reveal_strlit("broker_backpressure_events_total");
    }
    assert("broker_messages_invalid_total"@[16] != "broker_messages_dropped_total"@[16]) by {
        reveal_strlit("broker_messages_invalid_total");
        reveal_strlit("broker_messages_dropped_total");
    }
    assert("broker_messages_invalid_total"@[16] != "broker_messages_sent_total"@[16]) by {
        reveal_strlit("broker_messages_invalid_total");
        reveal_strlit("broker_messages_sent_total");
    }
    assert("broker_messages_invalid_total"@[16] != "broker_messages_failed_total"@[16]) by {
        reveal_strlit("broker_messages_invalid_total");
        reveal_strlit("broker_messages_failed_total");
    }
    assert("broker_messages_invalid_total"@[16] != "broker_messages_queued_total"@[16]) by {
        reveal_strlit("broker_messages_invalid_total");
        reveal_strlit("broker_messages_queued_total");
    }
    assert("broker_messages_invalid_total"@[7] != "broker_fanout_operations_total"@[7]) by {
        reveal_strlit("broker_messages_invalid_total");
        reveal_strlit("broker_fanout_operations_total");
    }
    assert("broker_messages_invalid_total"@[7] != "broker_routing_cache_hits"@[7]) by {
        reveal_strlit("broker_messages_invalid_total");
        reveal_strlit("broker_routing_cache_hits");
    }
    assert("broker_messages_invalid_total"@[7] != "broker_routing_cache_misses"@[7]) by {
        reveal_strlit("broker_messages_invalid_total");
        reveal_strlit("broker_routing_cache_misses");
    }
    assert("broker_messages_invalid_total"@[7] != "broker_nats_published_total"@[7]) by {
        reveal_strlit("broker_messages_invalid_total");
        reveal_strlit("broker_nats_published_total");
    }
    assert("broker_messages_invalid_total"@[7] != "broker_nats_consumed_total"@[7]) by {
        reveal_strlit("broker_messages_invalid_total");
        reveal_strlit("broker_nats_consumed_total");
    }
    assert("broker_messages_invalid_total"@[7] != "broker_nats_errors_total"@[7]) by {
        reveal_strlit("broker_messages_invalid_total");
        reveal_strlit("broker_nats_errors_total");
    }
    assert("broker_messages_invalid_total"@[7] != "broker_rate_limit_hits_total"@[7]) by {
        reveal_strlit("broker_messages_invalid_total");
        reveal_strlit("broker_rate_limit_hits_total");
    }
    assert("broker_messages_invalid_total"@[7] != "broker_backpressure_events_total"@[7]) by {
        reveal_strlit("broker_messages_invalid_total");
        reveal_strlit("broker_backpressure_events_total");
    }
    assert("broker_messages_dropped_total"@[16] != "broker_messages_sent_total"@[16]) by {
        reveal_strlit("broker_messages_dropped_total");
        reveal_strlit("broker_messages_sent_total");
    }
    assert("broker_messages_dropped_total"@[16] != "broker_messages_failed_total"@[16]) by {
        reveal_strlit("broker_messages_dropped_total");
        reveal_strlit("broker_messages_failed_total");
    }
    assert("broker_messages_dropped_total"@[16] != "broker_messages_queued_total"@[16]) by {
        reveal_strlit("broker_messages_dropped_total");
        reveal_strlit("broker_messages_queued_total");
    }
    assert("broker_messages_dropped_total"@[7] != "broker_fanout_operations_total"@[7]) by {
        reveal_strlit("broker_messages_dropped_total");
        reveal_strlit("broker_fanout_operations_total");
    }
    assert("broker_messages_dropped_total"@[7] != "broker_routing_cache_hits"@[7]) by {
        reveal_strlit("broker_messages_dropped_total");
        reveal_strlit("broker_routing_cache_hits");
    }
    assert("broker_messages_dropped_total"@[7] != "broker_routing_cache_misses"@[7]) by {
        reveal_strlit("broker_messages_dropped_total");
        reveal_strlit("broker_routing_cache_misses");
    }
    assert("broker_messages_dropped_total"@[7] != "broker_nats_published_total"@[7]) by {
        reveal_strlit("broker_messages_dropped_total");
        reveal_strlit("broker_nats_published_total");
    }
    assert("broker_messages_dropped_total"@[7] != "broker_nats_consumed_total"@[7]) by {
        reveal_strlit("broker_messages_dropped_total");
        reveal_strlit("broker_nats_consumed_total");
    }
    assert("broker_messages_dropped_total"@[7] != "broker_nats_errors_total"@[7]) by {
        reveal_strlit("broker_messages_dropped_total");
        reveal_strlit("broker_nats_errors_total");
    }
    assert("broker_messages_dropped_total"@[7] != "broker_rate_limit_hits_total"@[7]) by {
        reveal_strlit("broker_messages_dropped_total");
        reveal_strlit("broker_rate_limit_hits_total");
    }
    assert("broker_messages_dropped_total"@[7] != "broker_backpressure_events_total"@[7]) by {
        reveal_strlit("broker_messages_dropped_total");
        reveal_strlit("broker_backpressure_events_total");
    }
    assert("broker_messages_sent_total"@[16] != "broker_messages_failed_total"@[16]) by {
        reveal_strlit("broker_messages_sent_total");
        reveal_strlit("broker_messages_failed_total");
    }
    assert("broker_messages_sent_total"@[16] != "broker_messages_queued_total"@[16]) by {
        reveal_strlit("broker_messages_sent_total");
        reveal_strlit("broker_messages_queued_total");
    }
    assert("broker_messages_sent_total"@[7] != "broker_fanout_operations_total"@[7]) by {
        reveal_strlit("broker_messages_sent_total");
        reveal_strlit("broker_fanout_operations_total");
    }
    assert("broker_messages_sent_total"@[7] != "broker_routing_cache_hits"@[7]) by {
        reveal_strlit("broker_messages_sent_total");
        reveal_strlit("broker_routing_cache_hits");
    }
    assert("broker_messages_sent_total"@[7] != "broker_routing_cache_misses"@[7]) by {
        reveal_strlit("broker_messages_sent_total");
        reveal_strlit("broker_routing_cache_misses");
    }
    assert("broker_messages_sent_total"@[7] != "broker_nats_published_total"@[7]) by {
        reveal_strlit("broker_messages_sent_total");
        reveal_strlit("broker_nats_published_total");
    }
    assert("broker_messages_sent_total"@[7] != "broker_nats_consumed_total"@[7]) by {
        reveal_strlit("broker_messages_sent_total");
        reveal_strlit("broker_nats_consumed_total");
    }
    assert("broker_messages_sent_total"@[7] != "broker_nats_errors_total"@[7]) by {
        reveal_strlit("broker_messages_sent_total");
        reveal_strlit("broker_nats_errors_total");
    }
    assert("broker_messages_sent_total"@[7] != "broker_rate_limit_hits_total"@[7]) by {
        reveal_strlit("broker_messages_sent_total");
        reveal_strlit("broker_rate_limit_hits_total");
    }
    assert("broker_messages_sent_total"@[7] != "broker_backpressure_events_total"@[7]) by {
        reveal_strlit("broker_messages_sent_total");
        reveal_strlit("broker_backpressure_events_total");
    }
    assert("broker_messages_failed_total"@[16] != "broker_messages_queued_total"@[16]) by {
        reveal_strlit("broker_messages_failed_total");
        reveal_strlit("broker_messages_queued_total");
    }
    assert("broker_messages_failed_total"@[7] != "broker_fanout_operations_total"@[7]) by {
        reveal_strlit("broker_messages_failed_total");
        reveal_strlit("broker_fanout_operations_total");
    }
    assert("broker_messages_failed_total"@[7] != "broker_routing_cache_hits"@[7]) by {
        reveal_strlit("broker_messages_failed_total");
        reveal_strlit("broker_routing_cache_hits");
    }
    assert("broker_messages_failed_total"@[7] != "broker_routing_cache_misses"@[7]) by {
        reveal_strlit("broker_messages_failed_total");
        reveal_strlit("broker_routing_cache_misses");
    }
    assert("broker_messages_failed_total"@[7] != "broker_nats_published_total"@[7]) by {
        reveal_strlit("broker_messages_failed_total");
        reveal_strlit("broker_nats_published_total");
    }
    assert("broker_messages_failed_total"@[7] != "broker_nats_consumed_total"@[7]) by {
        reveal_strlit("broker_messages_failed_total");
        reveal_strlit("broker_nats_consumed_total");
    }
    assert("broker_messages_failed_total"@[7] != "broker_nats_errors_total"@[7]) by {
        reveal_strlit("broker_messages_failed_total");
        reveal_strlit("broker_nats_errors_total");
    }
    assert("broker_messages_failed_total"@[7] != "broker_rate_limit_hits_total"@[7]) by {
        reveal_strlit("broker_messages_failed_total");
        reveal_strlit("broker_rate_limit_hits_total");
    }
    assert("broker_messages_failed_total"@[7] != "broker_backpressure_events_total"@[7]) by {
        reveal_strlit("broker_messages_failed_total");
        reveal_strlit("broker_backpressure_events_total");
    }
    assert("broker_messages_queued_total"@[7] != "broker_fanout_operations_total"@[7]) by {
        reveal_strlit("broker_messages_queued_total");
        reveal_strlit("broker_fanout_operations_total");
    }
    assert("broker_messages_queued_total"@[7] != "broker_routing_cache_hits"@[7]) by {
        reveal_strlit("broker_messages_queued_total");
        reveal_strlit("broker_routing_cache_hits");
    }
    assert("broker_messages_queued_total"@[7] != "broker_routing_cache_misses"@[7]) by {
        reveal_strlit("broker_messages_queued_total");
        reveal_strlit("broker_routing_cache_misses");
    }
    assert("broker_messages_queued_total"@[7] != "broker_nats_published_total"@[7]) by {
        reveal_strlit("broker_messages_queued_total");
        reveal_strlit("broker_nats_published_total");
    }
    assert("broker_messages_queued_total"@[7] != "broker_nats_consumed_total"@[7]) by {
        reveal_strlit("broker_messages_queued_total");
        reveal_strlit("broker_nats_consumed_total");
    }
    assert("broker_messages_queued_total"@[7] != "broker_nats_errors_total"@[7]) by {
        reveal_strlit("broker_messages_queued_total");
        reveal_strlit("broker_nats_errors_total");
    }
    assert("broker_messages_queued_total"@[7] != "broker_rate_limit_hits_total"@[7]) by {
        reveal_strlit("broker_messages_queued_total");
        reveal_strlit("broker_rate_limit_hits_total");
    }
    assert("broker_messages_queued_total"@[7] != "broker_backpressure_events_total"@[7]) by {
        reveal_strlit("broker_messages_queued_total");
        reveal_strlit("broker_backpressure_events_total");
    }
    assert("broker_fanout_operations_total"@[7] != "broker_routing_cache_hits"@[7]) by {
        reveal_strlit("broker_fanout_operations_total");
        reveal_strlit("broker_routing_cache_hits");
    }
    assert("broker_fanout_operations_total"@[7] != "broker_routing_cache_misses"@[7]) by {
        reveal_strlit("broker_fanout_operations_total");
        reveal_strlit("broker_routing_cache_misses");
    }
    assert("broker_fanout_operations_total"@[7] != "broker_nats_published_total"@[7]) by {
        reveal_strlit("broker_fanout_operations_total");
        reveal_strlit("broker_nats_published_total");
    }
    assert("broker_fanout_operations_total"@[7] != "broker_nats_consumed_total"@[7]) by {
        reveal_strlit("broker_fanout_operations_total");
        reveal_strlit("broker_nats_consumed_total");
    }
    assert("broker_fanout_operations_total"@[7] != "broker_nats_errors_total"@[7]) by {
        reveal_strlit("broker_fanout_operations_total");
        reveal_strlit("broker_nats_errors_total");
    }
    assert("broker_fanout_operations_total"@[7] != "broker_rate_limit_hits_total"@[7]) by {
        reveal_strlit("broker_fanout_operations_total");
        reveal_strlit("broker_rate_limit_hits_total");
    }
    assert("broker_fanout_operations_total"@[7] != "broker_backpressure_events_total"@[7]) by {
        reveal_strlit("broker_fanout_operations_total");
        reveal_strlit("broker_backpressure_events_total");
    }
    assert("broker_routing_cache_hits"@[21] != "broker_routing_cache_misses"@[21]) by {
        reveal_strlit("broker_routing_cache_hits");
        reveal_strlit("broker_routing_cache_misses");
    }
    assert("broker_routing_cache_hits"@[7] != "broker_nats_published_total"@[7]) by {
        reveal_strlit("broker_routing_cache_hits");
        reveal_strlit("broker_nats_published_total");
    }
    assert("broker_routing_cache_hits"@[7] != "broker_nats_consumed_total"@[7]) by {
        reveal_strlit("broker_routing_cache_hits");
        reveal_strlit("broker_nats_consumed_total");
    }
    assert("broker_routing_cache_hits"@[7] != "broker_nats_errors_total"@[7]) by {
        reveal_strlit("broker_routing_cache_hits");
        reveal_strlit("broker_nats_errors_total");
    }
    assert("broker_routing_cache_hits"@[8] != "broker_rate_limit_hits_total"@[8]) by {
        reveal_strlit("broker_routing_cache_hits");
        reveal_strlit("broker_rate_limit_hits_total");
    }
    assert("broker_routing_cache_hits"@[7] != "broker_backpressure_events_total"@[7]) by {
        reveal_strlit("broker_routing_cache_hits");
        reveal_strlit("broker_backpressure_events_total");
    }
    assert("broker_routing_cache_misses"@[7] != "broker_nats_published_total"@[7]) by {
        reveal_strlit("broker_routing_cache_misses");
        reveal_strlit("broker_nats_published_total");
    }
    assert("broker_routing_cache_misses"@[7] != "broker_nats_consumed_total"@[7]) by {
        reveal_strlit("broker_routing_cache_misses");
        reveal_strlit("broker_nats_consumed_total");
    }
    assert("broker_routing_cache_misses"@[7] != "broker_nats_errors_total"@[7]) by {
        reveal_strlit("broker_routing_cache_misses");
        reveal_strlit("broker_nats_errors_total");
    }
    assert("broker_routing_cache_misses"@[8] != "broker_rate_limit_hits_total"@[8]) by {
        reveal_strlit("broker_routing_cache_misses");
        reveal_strlit("broker_rate_limit_hits_total");
    }
    assert("broker_routing_cache_misses"@[7] != "broker_backpressure_events_total"@[7]) by {
        reveal_strlit("broker_routing_cache_misses");
        reveal_strlit("broker_backpressure_events_total");
    }
    assert("broker_nats_published_total"@[12] != "broker_nats_consumed_total"@[12]) by {
        reveal_strlit("broker_nats_published_total");
        reveal_strlit("broker_nats_consumed_total");
    }
    assert("broker_nats_published_total"@[12] != "broker_nats_errors_total"@[12]) by {
        reveal_strlit("broker_nats_published_total");
        reveal_strlit("broker_nats_errors_total");
    }
    assert("broker_nats_published_total"@[7] != "broker_rate_limit_hits_total"@[7]) by {
        reveal_strlit("broker_nats_published_total");
        reveal_strlit("broker_rate_limit_hits_total");
    }
    assert("broker_nats_published_total"@[7] != "broker_backpressure_events_total"@[7]) by {
        reveal_strlit("broker_nats_published_total");
        reveal_strlit("broker_backpressure_events_total");
    }
    assert("broker_nats_consumed_total"@[12] != "broker_nats_errors_total"@[12]) by {
        reveal_strlit("broker_nats_consumed_total");
        reveal_strlit("broker_nats_errors_total");
    }
    assert("broker_nats_consumed_total"@[7] != "broker_rate_limit_hits_total"@[7]) by {
        reveal_strlit("broker_nats_consumed_total");
        reveal_strlit("broker_rate_limit_hits_total");
    }
    assert("broker_nats_consumed_total"@[7] != "broker_backpressure_events_total"@[7]) by {
        reveal_strlit("broker_nats_consumed_total");
        reveal_strlit("broker_backpressure_events_total");
    }
    assert("broker_nats_errors_total"@[7] != "broker_rate_limit_hits_total"@[7]) by {
        reveal_strlit("broker_nats_errors_total");
        reveal_strlit("broker_rate_limit_hits_total");
    }
    assert("broker_nats_errors_total"@[7] != "broker_backpressure_events_total"@[7]) by {
        reveal_strlit("broker_nats_errors_total");
        reveal_strlit("broker_backpressure_events_total");
    }
    assert("broker_rate_limit_hits_total"@[7] != "broker_backpressure_events_total"@[7]) by {
        reveal_strlit("broker_rate_limit_hits_total");
        reveal_strlit("broker_backpressure_events_total");
    }
    assert("broker_active_connections"@[14] != "broker_active_topics"@[14]) by {
        reveal_strlit("broker_active_connections");
        reveal_strlit("broker_active_topics");
    }
    assert("broker_active_connections"@[7] != "broker_memory_usage_bytes"@[7]) by {
        reveal_strlit("broker_active_connections");
        reveal_strlit("broker_memory_usage_bytes");
    }
    assert("broker_active_connections"@[7] != "broker_cpu_usage_percent"@[7]) by {
        reveal_strlit("broker_active_connections");
        reveal_strlit("broker_cpu_usage_percent");
    }
    assert("broker_active_topics"@[7] != "broker_memory_usage_bytes"@[7]) by {
        reveal_strlit("broker_active_topics");
        reveal_strlit("broker_memory_usage_bytes");
    }
    assert("broker_active_topics"@[7] != "broker_cpu_usage_percent"@[7]) by {
        reveal_strlit("broker_active_topics");
        reveal_strlit("broker_cpu_usage_percent");
    }
    assert("broker_memory_usage_bytes"@[7] != "broker_cpu_usage_percent"@[7]) by {
        reveal_strlit("broker_memory_usage_bytes");
        reveal_strlit("broker_cpu_usage_percent");
    }
    assert("broker_fanout_latency_seconds"@[14] != "broker_fanout_recipients_per_message"@[14]) by {
        reveal_strlit("broker_fanout_latency_seconds");
        reveal_strlit("broker_fanout_recipients_per_message");
    }
    assert("broker_fanout_latency_seconds"@[7] != "broker_ingress_latency_seconds"@[7]) by {
        reveal_strlit("broker_fanout_latency_seconds");
        reveal_strlit("broker_ingress_latency_seconds");
    }
    assert("broker_fanout_latency_seconds"@[7] != "broker_egress_latency_seconds"@[7]) by {
        reveal_strlit("broker_fanout_latency_seconds");
        reveal_strlit("broker_egress_latency_seconds");
    }
    assert("broker_fanout_latency_seconds"@[7] != "broker_processing_latency_seconds"@[7]) by {
        reveal_strlit("broker_fanout_latency_seconds");
        reveal_strlit("broker_processing_latency_seconds");
    }
    assert("broker_fanout_recipients_per_message"@[7] != "broker_ingress_latency_seconds"@[7]) by {
        reveal_strlit("broker_fanout_recipients_per_message");
        reveal_strlit("broker_ingress_latency_seconds");
    }
    assert("broker_fanout_recipients_per_message"@[7] != "broker_egress_latency_seconds"@[7]) by {
        reveal_strlit("broker_fanout_recipients_per_message");
        reveal_strlit("broker_egress_latency_seconds");
    }
    assert("broker_fanout_recipients_per_message"@[7] != "broker_processing_latency_seconds"@[7]) by {
        reveal_strlit("broker_fanout_recipients_per_message");
        reveal_strlit("broker_processing_latency_seconds");
    }
    assert("broker_ingress_latency_seconds"@[7] != "broker_egress_latency_seconds"@[7]) by {
        reveal_strlit("broker_ingress_latency_seconds");
        reveal_strlit("broker_egress_latency_seconds");
    }
    assert("broker_ingress_latency_seconds"@[7] != "broker_processing_latency_seconds"@[7]) by {
        reveal_strlit("broker_ingress_latency_seconds");
        reveal_strlit("broker_processing_latency_seconds");
    }
    assert("broker_egress_latency_seconds"@[7] != "broker_processing_latency_seconds"@[7]) by {
        reveal_strlit("broker_egress_latency_seconds");
        reveal_strlit("broker_processing_latency_seconds");
    }
    assert("broker_messages_received_total"@[7] != "broker_active_connections"@[7]) by {
        reveal_strlit("broker_messages_received_total");
        reveal_strlit("broker_active_connections");
    }
    assert("broker_messages_received_total"@[7] != "broker_active_topics"@[7]) by {
        reveal_strlit("broker_messages_received_total");
        reveal_strlit("broker_active_topics");
    }
    assert("broker_messages_received_total"@[9] != "broker_memory_usage_bytes"@[9]) by {
        reveal_strlit("broker_messages_received_total");
        reveal_strlit("broker_memory_usage_bytes");
    }
    assert("broker_messages_received_total"@[7] != "broker_cpu_usage_percent"@[7]) by {
        reveal_strlit("broker_messages_received_total");
        reveal_strlit("broker_cpu_usage_percent");
    }
    assert("broker_messages_invalid_total"@[7] != "broker_active_connections"@[7]) by {
        reveal_strlit("broker_messages_invalid_total");
        reveal_strlit("broker_active_connections");
    }
    assert("broker_messages_invalid_total"@[7] != "broker_active_topics"@[7]) by {
        reveal_strlit("broker_messages_invalid_total");
        reveal_strlit("broker_active_topics");
    }
    assert("broker_messages_invalid_total"@[9] != "broker_memory_usage_bytes"@[9]) by {
        reveal_strlit("broker_messages_invalid_total");
        reveal_strlit("broker_memory_usage_bytes");
    }
    assert("broker_messages_invalid_total"@[7] != "broker_cpu_usage_percent"@[7]) by {
        reveal_strlit("broker_messages_invalid_total");
        reveal_strlit("broker_cpu_usage_percent");
    }
    assert("broker_messages_dropped_total"@[7] != "broker_active_connections"@[7]) by {
        reveal_strlit("broker_messages_dropped_total");
        reveal_strlit("broker_active_connections");
    }
    assert("broker_messages_dropped_total"@[7] != "broker_active_topics"@[7]) by {
        reveal_strlit("broker_messages_dropped_total");
        reveal_strlit("broker_active_topics");
    }
    assert("broker_messages_dropped_total"@[9] != "broker_memory_usage_bytes"@[9]) by {
        reveal_strlit("broker_messages_dropped_total");
        reveal_strlit("broker_memory_usage_bytes");
    }
    assert("broker_messages_dropped_total"@[7] != "broker_cpu_usage_percent"@[7]) by {
        reveal_strlit("broker_messages_dropped_total");
        reveal_strlit("broker_cpu_usage_percent");
    }
    assert("broker_messages_sent_total"@[7] != "broker_active_connections"@[7]) by {
        reveal_strlit("broker_messages_sent_total");
        reveal_strlit("broker_active_connections");
    }
    assert("broker_messages_sent_total"@[7] != "broker_active_topics"@[7]) by {
        reveal_strlit("broker_messages_sent_total");
        reveal_strlit("broker_active_topics");
    }
    assert("broker_messages_sent_total"@[9] != "broker_memory_usage_bytes"@[9]) by {
        reveal_strlit("broker_messages_sent_total");
        reveal_strlit("broker_memory_usage_bytes");
    }
    assert("broker_messages_sent_total"@[7] != "broker_cpu_usage_percent"@[7]) by {
        reveal_strlit("broker_messages_sent_total");
        reveal_strlit("broker_cpu_usage_percent");
    }
    assert("broker_messages_failed_total"@[7] != "broker_active_connections"@[7]) by {
        reveal_strlit("broker_messages_failed_total");
        reveal_strlit("broker_active_connections");
    }
    assert("broker_messages_failed_total"@[7] != "broker_active_topics"@[7]) by {
        reveal_strlit("broker_messages_failed_total");
        reveal_strlit("broker_active_topics");
    }
    assert("broker_messages_failed_total"@[9] != "broker_memory_usage_bytes"@[9]) by {
        reveal_strlit("broker_messages_failed_total");
        reveal_strlit("broker_memory_usage_bytes");
    }
    assert("broker_messages_failed_total"@[7] != "broker_cpu_usage_percent"@[7]) by {
        reveal_strlit("broker_messages_failed_total");
        reveal_strlit("broker_cpu_usage_percent");
    }
    assert("broker_messages_queued_total"@[7] != "broker_active_connections"@[7]) by {
        reveal_strlit("broker_messages_queued_total");
        reveal_strlit("broker_active_connections");
    }
    assert("broker_messages_queued_total"@[7] != "broker_active_topics"@[7]) by {
        reveal_strlit("broker_messages_queued_total");
        reveal_strlit("broker_active_topics");
    }
    assert("broker_messages_queued_total"@[9] != "broker_memory_usage_bytes"@[9]) by {
        reveal_strlit("broker_messages_queued_total");
        reveal_strlit("broker_memory_usage_bytes");
    }
    assert("broker_messages_queued_total"@[7] != "broker_cpu_usage_percent"@[7]) by {
        reveal_strlit("broker_messages_queued_total");
        reveal_strlit("broker_cpu_usage_percent");
    }
    assert("broker_fanout_operations_total"@[7] != "broker_active_connections"@[7]) by {
        reveal_strlit("broker_fanout_operations_total");
        reveal_strlit("broker_active_connections");
    }
    assert("broker_fanout_operations_total"@[7] != "broker_active_topics"@[7]) by {
        reveal_strlit("broker_fanout_operations_total");
        reveal_strlit("broker_active_topics");
    }
    assert("broker_fanout_operations_total"@[7] != "broker_memory_usage_bytes"@[7]) by {
        reveal_strlit("broker_fanout_operations_total");
        reveal_strlit("broker_memory_usage_bytes");
    }
    assert("broker_fanout_operations_total"@[7] != "broker_cpu_usage_percent"@[7]) by {
        reveal_strlit("broker_fanout_operations_total");
        reveal_strlit("broker_cpu_usage_percent");
    }
    assert("broker_routing_cache_hits"@[7] != "broker_active_connections"@[7]) by {
        reveal_strlit("broker_routing_cache_hits");
        reveal_strlit("broker_active_connections");
    }
    assert("broker_routing_cache_hits"@[7] != "broker_active_topics"@[7]) by {
        reveal_strlit("broker_routing_cache_hits");
        reveal_strlit("broker_active_topics");
    }
    assert("broker_routing_cache_hits"@[7] != "broker_memory_usage_bytes"@[7]) by {
        reveal_strlit("broker_routing_cache_hits");
        reveal_strlit("broker_memory_usage_bytes");
    }
    assert("broker_routing_cache_hits"@[7] != "broker_cpu_usage_percent"@[7]) by {
        reveal_strlit("broker_routing_cache_hits");
        reveal_strlit("broker_cpu_usage_percent");
    }
    assert("broker_routing_cache_misses"@[7] != "broker_active_connections"@[7]) by {
        reveal_strlit("broker_routing_cache_misses");
        reveal_strlit("broker_active_connections");
    }
    assert("broker_routing_cache_misses"@[7] != "broker_active_topics"@[7]) by {
        reveal_strlit("broker_routing_cache_misses");
        reveal_strlit("broker_active_topics");
    }
    assert("broker_routing_cache_misses"@[7] != "broker_memory_usage_bytes"@[7]) by {
        reveal_strlit("broker_routing_cache_misses");
        reveal_strlit("broker_memory_usage_bytes");
    }
    assert("broker_routing_cache_misses"@[7] != "broker_cpu_usage_percent"@[7]) by {
        reveal_strlit("broker_routing_cache_misses");
        reveal_strlit("broker_cpu_usage_percent");
    }
    assert("broker_nats_published_total"@[7] != "broker_active_connections"@[7]) by {
        reveal_strlit("broker_nats_published_total");
        reveal_strlit("broker_active_connections");
    }
    assert("broker_nats_published_total"@[7] != "broker_active_topics"@[7]) by {
        reveal_strlit("broker_nats_published_total");
        reveal_strlit("broker_active_topics");
    }
    assert("broker_nats_published_total"@[7] != "broker_memory_usage_bytes"@[7]) by {
        reveal_strlit("broker_nats_published_total");
        reveal_strlit("broker_memory_usage_bytes");
    }
    assert("broker_nats_published_total"@[7] != "broker_cpu_usage_percent"@[7]) by {
        reveal_strlit("broker_nats_published_total");
        reveal_strlit("broker_cpu_usage_percent");
    }
    assert("broker_nats_consumed_total"@[7] != "broker_active_connections"@[7]) by {
        reveal_strlit("broker_nats_consumed_total");
        reveal_strlit("broker_active_connections");
    }
    assert("broker_nats_consumed_total"@[7] != "broker_active_topics"@[7]) by {
        reveal_strlit("broker_nats_consumed_total");
        reveal_strlit("broker_active_topics");
    }
    assert("broker_nats_consumed_total"@[7] != "broker_memory_usage_bytes"@[7]) by {
        reveal_strlit("broker_nats_consumed_total");
        reveal_strlit("broker_memory_usage_bytes");
    }
    assert("broker_nats_consumed_total"@[7] != "broker_cpu_usage_percent"@[7]) by {
        reveal_strlit("broker_nats_consumed_total");
        reveal_strlit("broker_cpu_usage_percent");
    }
    assert("broker_nats_errors_total"@[7] != "broker_active_connections"@[7]) by {
        reveal_strlit("broker_nats_errors_total");
        reveal_strlit("broker_active_connections");
    }
    assert("broker_nats_errors_total"@[7] != "broker_active_topics"@[7]) by {
        reveal_strlit("broker_nats_errors_total");
        reveal_strlit("broker_active_topics");
    }
    assert("broker_nats_errors_total"@[7] != "broker_memory_usage_bytes"@[7]) by {
        reveal_strlit("broker_nats_errors_total");
        reveal_strlit("broker_memory_usage_bytes");
    }
    assert("broker_nats_errors_total"@[7] != "broker_cpu_usage_percent"@[7]) by {
        reveal_strlit("broker_nats_errors_total");
        reveal_strlit("broker_cpu_usage_percent");
    }
    assert("broker_rate_limit_hits_total"@[7] != "broker_active_connections"@[7]) by {
        reveal_strlit("broker_rate_limit_hits_total");
        reveal_strlit("broker_active_connections");
    }
    assert("broker_rate_limit_hits_total"@[7] != "broker_active_topics"@[7]) by {
        reveal_strlit("broker_rate_limit_hits_total");
        reveal_strlit("broker_active_topics");
    }
    assert("broker_rate_limit_hits_total"@[7] != "broker_memory_usage_bytes"@[7]) by {
        reveal_strlit("broker_rate_limit_hits_total");
        reveal_strlit("broker_memory_usage_bytes");
    }
    assert("broker_rate_limit_hits_total"@[7] != "broker_cpu_usage_percent"@[7]) by {
        reveal_strlit("broker_rate_limit_hits_total");
        reveal_strlit("broker_cpu_usage_percent");
    }
    assert("broker_backpressure_events_total"@[7] != "broker_active_connections"@[7]) by {
        reveal_strlit("broker_backpressure_events_total");
        reveal_strlit("broker_active_connections");
    }
    assert("broker_backpressure_events_total"@[7] != "broker_active_topics"@[7]) by {
        reveal_strlit("broker_backpressure_events_total");
        reveal_strlit("broker_active_topics");
    }
    assert("broker_backpressure_events_total"@[7] != "broker_memory_usage_bytes"@[7]) by {
        reveal_strlit("broker_backpressure_events_total");
        reveal_strlit("broker_memory_usage_bytes");
    }
    assert("broker_backpressure_events_total"@[7] != "broker_cpu_usage_percent"@[7]) by {
        reveal_strlit("broker_backpressure_events_total");
        reveal_strlit("broker_cpu_usage_percent");
    }
    assert("broker_messages_received_total"@[7] != "broker_fanout_latency_seconds"@[7]) by {
        reveal_strlit("broker_messages_received_total");
        reveal_strlit("broker_fanout_latency_seconds");
    }
    assert("broker_messages_received_total"@[7] != "broker_fanout_recipients_per_message"@[7]) by {
        reveal_strlit("broker_messages_received_total");
        reveal_strlit("broker_fanout_recipients_per_message");
    }
    assert("broker_messages_received_total"@[7] != "broker_ingress_latency_seconds"@[7]) by {
        reveal_strlit("broker_messages_received_total");
        reveal_strlit("broker_ingress_latency_seconds");
    }
    assert("broker_messages_received_total"@[7] != "broker_egress_latency_seconds"@[7]) by {
        reveal_strlit("broker_messages_received_total");
        reveal_strlit("broker_egress_latency_seconds");
    }
    assert("broker_messages_received_total"@[7] != "broker_processing_latency_seconds"@[7]) by {
        reveal_strlit("broker_messages_received_total");
        reveal_strlit("broker_processing_latency_seconds");
    }
    assert("broker_messages_invalid_total"@[7] != "broker_fanout_latency_seconds"@[7]) by {
        reveal_strlit("broker_messages_invalid_total");
        reveal_strlit("broker_fanout_latency_seconds");
    }
    assert("broker_messages_invalid_total"@[7] != "broker_fanout_recipients_per_message"@[7]) by {
        reveal_strlit("broker_messages_invalid_total");
        reveal_strlit("broker_fanout_recipients_per_message");
    }
    assert("broker_messages_invalid_total"@[7] != "broker_ingress_latency_seconds"@[7]) by {
        reveal_strlit("broker_messages_invalid_total");
        reveal_strlit("broker_ingress_latency_seconds");
    }
    assert("broker_messages_invalid_total"@[7] != "broker_egress_latency_seconds"@[7]) by {
        reveal_strlit("broker_messages_invalid_total");
        reveal_strlit("broker_egress_latency_seconds");
    }
    assert("broker_messages_invalid_total"@[7] != "broker_processing_latency_seconds"@[7]) by {
        reveal_strlit("broker_messages_invalid_total");
        reveal_strlit("broker_processing_latency_seconds");
    }
    assert("broker_messages_dropped_total"@[7] != "broker_fanout_latency_seconds"@[7]) by {
        reveal_strlit("broker_messages_dropped_total");
        reveal_strlit("broker_fanout_latency_seconds");
    }
    assert("broker_messages_dropped_total"@[7] != "broker_fanout_recipients_per_message"@[7]) by {
        reveal_strlit("broker_messages_dropped_total");
        reveal_strlit("broker_fanout_recipients_per_message");
    }
    assert("broker_messages_dropped_total"@[7] != "broker_ingress_latency_seconds"@[7]) by {
        reveal_strlit("broker_messages_dropped_total");
        reveal_strlit("broker_ingress_latency_seconds");
    }
    assert("broker_messages_dropped_total"@[7] != "broker_egress_latency_seconds"@[7]) by {
        reveal_strlit("broker_messages_dropped_total");
        reveal_strlit("broker_egress_latency_seconds");
    }
    assert("broker_messages_dropped_total"@[7] != "broker_processing_latency_seconds"@[7]) by {
        reveal_strlit("broker_messages_dropped_total");
        reveal_strlit("broker_processing_latency_seconds");
    }
    assert("broker_messages_sent_total"@[7] != "broker_fanout_latency_seconds"@[7]) by {
        reveal_strlit("broker_messages_sent_total");
        reveal_strlit("broker_fanout_latency_seconds");
    }
    assert("broker_messages_sent_total"@[7] != "broker_fanout_recipients_per_message"@[7]) by {
        reveal_strlit("broker_messages_sent_total");
        reveal_strlit("broker_fanout_recipients_per_message");
    }
    assert("broker_messages_sent_total"@[7] != "broker_ingress_latency_seconds"@[7]) by {
        reveal_strlit("broker_messages_sent_total");
        reveal_strlit("broker_ingress_latency_seconds");
    }
    assert("broker_messages_sent_total"@[7] != "broker_egress_latency_seconds"@[7]) by {
        reveal_strlit("broker_messages_sent_total");
        reveal_strlit("broker_egress_latency_seconds");
    }
    assert("broker_messages_sent_total"@[7] != "broker_processing_latency_seconds"@[7]) by {
        reveal_strlit("broker_messages_sent_total");
        reveal_strlit("broker_processing_latency_seconds");
    }
    assert("broker_messages_failed_total"@[7] != "broker_fanout_latency_seconds"@[7]) by {
        reveal_strlit("broker_messages_failed_total");
        reveal_strlit("broker_fanout_latency_seconds");
    }
    assert("broker_messages_failed_total"@[7] != "broker_fanout_recipients_per_message"@[7]) by {
        reveal_strlit("broker_messages_failed_total");
        reveal_strlit("broker_fanout_recipients_per_message");
    }
    assert("broker_messages_failed_total"@[7] != "broker_ingress_latency_seconds"@[7]) by {
        reveal_strlit("broker_messages_failed_total");
        reveal_strlit("broker_ingress_latency_seconds");
    }
    assert("broker_messages_failed_total"@[7] != "broker_egress_latency_seconds"@[7]) by {
        reveal_strlit("broker_messages_failed_total");
        reveal_strlit("broker_egress_latency_seconds");
    }
    assert("broker_messages_failed_total"@[7] != "broker_processing_latency_seconds"@[7]) by {
        reveal_strlit("broker_messages_failed_total");
        reveal_strlit("broker_processing_latency_seconds");
    }
    assert("broker_messages_queued_total"@[7] != "broker_fanout_latency_seconds"@[7]) by {
        reveal_strlit("broker_messages_queued_total");
        reveal_strlit("broker_fanout_latency_seconds");
    }
    assert("broker_messages_queued_total"@[7] != "broker_fanout_recipients_per_message"@[7]) by {
        reveal_strlit("broker_messages_queued_total");
        reveal_strlit("broker_fanout_recipients_per_message");
    }
    assert("broker_messages_queued_total"@[7] != "broker_ingress_latency_seconds"@[7]) by {
        reveal_strlit("broker_messages_queued_total");
        reveal_strlit("broker_ingress_latency_seconds");
    }
    assert("broker_messages_queued_total"@[7] != "broker_egress_latency_seconds"@[7]) by {
        reveal_strlit("broker_messages_queued_total");
        reveal_strlit("broker_egress_latency_seconds");
    }
    assert("broker_messages_queued_total"@[7] != "broker_processing_latency_seconds"@[7]) by {
        reveal_strlit("broker_messages_queued_total");
        reveal_strlit("broker_processing_latency_seconds");
    }
    assert("broker_fanout_operations_total"@[14] != "broker_fanout_latency_seconds"@[14]) by {
        reveal_strlit("broker_fanout_operations_total");
        reveal_strlit("broker_fanout_latency_seconds");
    }
    assert("broker_fanout_operations_total"@[14] != "broker_fanout_recipients_per_message"@[14]) by {
        reveal_strlit("broker_fanout_operations_total");
        reveal_strlit("broker_fanout_recipients_per_message");
    }
    assert("broker_fanout_operations_total"@[7] != "broker_ingress_latency_seconds"@[7]) by {
        reveal_strlit("broker_fanout_operations_total");
        reveal_strlit("broker_ingress_latency_seconds");
    }
    assert("broker_fanout_operations_total"@[7] != "broker_egress_latency_seconds"@[7]) by {
        reveal_strlit("broker_fanout_operations_total");
        reveal_strlit("broker_egress_latency_seconds");
    }
    assert("broker_fanout_operations_total"@[7] != "broker_processing_latency_seconds"@[7]) by {
        reveal_strlit("broker_fanout_operations_total");
        reveal_strlit("broker_processing_latency_seconds");
    }
    assert("broker_routing_cache_hits"@[7] != "broker_fanout_latency_seconds"@[7]) by {
        reveal_strlit("broker_routing_cache_hits");
        reveal_strlit("broker_fanout_latency_seconds");
    }
    assert("broker_routing_cache_hits"@[7] != "broker_fanout_recipients_per_message"@[7]) by {
        reveal_strlit("broker_routing_cache_hits");
        reveal_strlit("broker_fanout_recipients_per_message");
    }
    assert("broker_routing_cache_hits"@[7] != "broker_ingress_latency_seconds"@[7]) by {
        reveal_strlit("broker_routing_cache_hits");
        reveal_strlit("broker_ingress_latency_seconds");
    }
    assert("broker_routing_cache_hits"@[7] != "broker_egress_latency_seconds"@[7]) by {
        reveal_strlit("broker_routing_cache_hits");
        reveal_strlit("broker_egress_latency_seconds");
    }
    assert("broker_routing_cache_hits"@[7] != "broker_processing_latency_seconds"@[7]) by {
        reveal_strlit("broker_routing_cache_hits");
        reveal_strlit("broker_processing_latency_seconds");
    }
    assert("broker_routing_cache_misses"@[7] != "broker_fanout_latency_seconds"@[7]) by {
        reveal_strlit("broker_routing_cache_misses");
        reveal_strlit("broker_fanout_latency_seconds");
    }
    assert("broker_routing_cache_misses"@[7] != "broker_fanout_recipients_per_message"@[7]) by {
        reveal_strlit("broker_routing_cache_misses");
        reveal_strlit("broker_fanout_recipients_per_message");
    }
    assert("broker_routing_cache_misses"@[7] != "broker_ingress_latency_seconds"@[7]) by {
        reveal_strlit("broker_routing_cache_misses");
        reveal_strlit("broker_ingress_latency_seconds");
    }
    assert("broker_routing_cache_misses"@[7] != "broker_egress_latency_seconds"@[7]) by {
        reveal_strlit("broker_routing_cache_misses");
        reveal_strlit("broker_egress_latency_seconds");
    }
    assert("broker_routing_cache_misses"@[7] != "broker_processing_latency_seconds"@[7]) by {
        reveal_strlit("broker_routing_cache_misses");
        reveal_strlit("broker_processing_latency_seconds");
    }
    assert("broker_nats_published_total"@[7] != "broker_fanout_latency_seconds"@[7]) by {
        reveal_strlit("broker_nats_published_total");
        reveal_strlit("broker_fanout_latency_seconds");
    }
    assert("broker_nats_published_total"@[7] != "broker_fanout_recipients_per_message"@[7]) by {
        reveal_strlit("broker_nats_published_total");
        reveal_strlit("broker_fanout_recipients_per_message");
    }
    assert("broker_nats_published_total"@[7] != "broker_ingress_latency_seconds"@[7]) by {
        reveal_strlit("broker_nats_published_total");
        reveal_strlit("broker_ingress_latency_seconds");
    }
    assert("broker_nats_published_total"@[7] != "broker_egress_latency_seconds"@[7]) by {
        reveal_strlit("broker_nats_published_total");
        reveal_strlit("broker_egress_latency_seconds");
    }
    assert("broker_nats_published_total"@[7] != "broker_processing_latency_seconds"@[7]) by {
        reveal_strlit("broker_nats_published_total");
        reveal_strlit("broker_processing_latency_seconds");
    }
    assert("broker_nats_consumed_total"@[7] != "broker_fanout_latency_seconds"@[7]) by {
        reveal_strlit("broker_nats_consumed_total");
        reveal_strlit("broker_fanout_latency_seconds");
    }
    assert("broker_nats_consumed_total"@[7] != "broker_fanout_recipients_per_message"@[7]) by {
        reveal_strlit("broker_nats_consumed_total");
        reveal_strlit("broker_fanout_recipients_per_message");
    }
    assert("broker_nats_consumed_total"@[7] != "broker_ingress_latency_seconds"@[7]) by {
        reveal_strlit("broker_nats_consumed_total");
        reveal_strlit("broker_ingress_latency_seconds");
    }
    assert("broker_nats_consumed_total"@[7] != "broker_egress_latency_seconds"@[7]) by {
        reveal_strlit("broker_nats_consumed_total");
        reveal_strlit("broker_egress_latency_seconds");
    }
    assert("broker_nats_consumed_total"@[7] != "broker_processing_latency_seconds"@[7]) by {
        reveal_strlit("broker_nats_consumed_total");
        reveal_strlit("broker_processing_latency_seconds");
    }
    assert("broker_nats_errors_total"@[7] != "broker_fanout_latency_seconds"@[7]) by {
        reveal_strlit("broker_nats_errors_total");
        reveal_strlit("broker_fanout_latency_seconds");
    }
    assert("broker_nats_errors_total"@[7] != "broker_fanout_recipients_per_message"@[7]) by {
        reveal_strlit("broker_nats_errors_total");
        reveal_strlit("broker_fanout_recipients_per_message");
    }
    assert("broker_nats_errors_total"@[7] != "broker_ingress_latency_seconds"@[7]) by {
        reveal_strlit("broker_nats_errors_total");
        reveal_strlit("broker_ingress_latency_seconds");
    }
    assert("broker_nats_errors_total"@[7] != "broker_egress_latency_seconds"@[7]) by {
        reveal_strlit("broker_nats_errors_total");
        reveal_strlit("broker_egress_latency_seconds");
    }
    assert("broker_nats_errors_total"@[7] != "broker_processing_latency_seconds"@[7]) by {
        reveal_strlit("broker_nats_errors_total");
        reveal_strlit("broker_processing_latency_seconds");
    }
    assert("broker_rate_limit_hits_total"@[7] != "broker_fanout_latency_seconds"@[7]) by {
        reveal_strlit("broker_rate_limit_hits_total");
        reveal_strlit("broker_fanout_latency_seconds");
    }
    assert("broker_rate_limit_hits_total"@[7] != "broker_fanout_recipients_per_message"@[7]) by {
        reveal_strlit("broker_rate_limit_hits_total");
        reveal_strlit("broker_fanout_recipients_per_message");
    }
    assert("broker_rate_limit_hits_total"@[7] != "broker_ingress_latency_seconds"@[7]) by {
        reveal_strlit("broker_rate_limit_hits_total");
        reveal_strlit("broker_ingress_latency_seconds");
    }
    assert("broker_rate_limit_hits_total"@[7] != "broker_egress_latency_seconds"@[7]) by {
        reveal_strlit("broker_rate_limit_hits_total");
        reveal_strlit("broker_egress_latency_seconds");
    }
    assert("broker_rate_limit_hits_total"@[7] != "broker_processing_latency_seconds"@[7]) by {
        reveal_strlit("broker_rate_limit_hits_total");
        reveal_strlit("broker_processing_latency_seconds");
    }
    assert("broker_backpressure_events_total"@[7] != "broker_fanout_latency_seconds"@[7]) by {
        reveal_strlit("broker_backpressure_events_total");
        reveal_strlit("broker_fanout_latency_seconds");
    }
    assert("broker_backpressure_events_total"@[7] != "broker_fanout_recipients_per_message"@[7]) by {
        reveal_strlit("broker_backpressure_events_total");
        reveal_strlit("broker_fanout_recipients_per_message");
    }
    assert("broker_backpressure_events_total"@[7] != "broker_ingress_latency_seconds"@[7]) by {
        reveal_strlit("broker_backpressure_events_total");
        reveal_strlit("broker_ingress_latency_seconds");
    }
    assert("broker_backpressure_events_total"@[7] != "broker_egress_latency_seconds"@[7]) by {
        reveal_strlit("broker_backpressure_events_total");
        reveal_strlit("broker_egress_latency_seconds");
    }
    assert("broker_backpressure_events_total"@[7] != "broker_processing_latency_seconds"@[7]) by {
        reveal_strlit("broker_backpressure_events_total");
        reveal_strlit("broker_processing_latency_seconds");
    }
    assert("broker_active_connections"@[7] != "broker_fanout_latency_seconds"@[7]) by {
        reveal_strlit("broker_active_connections");
        reveal_strlit("broker_fanout_latency_seconds");
    }
    assert("broker_active_connections"@[7] != "broker_fanout_recipients_per_message"@[7]) by {
        reveal_strlit("broker_active_connections");
        reveal_strlit("broker_fanout_recipients_per_message");
    }
    assert("broker_active_connections"@[7] != "broker_ingress_latency_seconds"@[7]) by {
        reveal_strlit("broker_active_connections");
        reveal_strlit("broker_ingress_latency_seconds");
    }
    assert("broker_active_connections"@[7] != "broker_egress_latency_seconds"@[7]) by {
        reveal_strlit("broker_active_connections");
        reveal_strlit("broker_egress_latency_seconds");
    }
    assert("broker_active_connections"@[7] != "broker_processing_latency_seconds"@[7]) by {
        reveal_strlit("broker_active_connections");
        reveal_strlit("broker_processing_latency_seconds");
    }
    assert("broker_active_topics"@[7] != "broker_fanout_latency_seconds"@[7]) by {
        reveal_strlit("broker_active_topics");
        reveal_strlit("broker_fanout_latency_seconds");
    }
    assert("broker_active_topics"@[7] != "broker_fanout_recipients_per_message"@[7]) by {
        reveal_strlit("broker_active_topics");
        reveal_strlit("broker_fanout_recipients_per_message");
    }
    assert("broker_active_topics"@[7] != "broker_ingress_latency_seconds"@[7]) by {
        reveal_strlit("broker_active_topics");
        reveal_strlit("broker_ingress_latency_seconds");
    }
    assert("broker_active_topics"@[7] != "broker_egress_latency_seconds"@[7]) by {
        reveal_strlit("broker_active_topics");
        reveal_strlit("broker_egress_latency_seconds");
    }
    assert("broker_active_topics"@[7] != "broker_processing_latency_seconds"@[7]) by {
        reveal_strlit("broker_active_topics");
        reveal_strlit("broker_processing_latency_seconds");
    }
    assert("broker_memory_usage_bytes"@[7] != "broker_fanout_latency_seconds"@[7]) by {
        reveal_strlit("broker_memory_usage_bytes");
        reveal_strlit("broker_fanout_latency_seconds");
    }
    assert("broker_memory_usage_bytes"@[7] != "broker_fanout_recipients_per_message"@[7]) by {
        reveal_strlit("broker_memory_usage_bytes");
        reveal_strlit("broker_fanout_recipients_per_message");
    }
    assert("broker_memory_usage_bytes"@[7] != "broker_ingress_latency_seconds"@[7]) by {
        reveal_strlit("broker_memory_usage_bytes");
        reveal_strlit("broker_ingress_latency_seconds");
    }
    assert("broker_memory_usage_bytes"@[7] != "broker_egress_latency_seconds"@[7]) by {
        reveal_strlit("broker_memory_usage_bytes");
        reveal_strlit("broker_egress_latency_seconds");
    }
    assert("broker_memory_usage_bytes"@[7] != "broker_processing_latency_seconds"@[7]) by {
        reveal_strlit("broker_memory_usage_bytes");
        reveal_strlit("broker_processing_latency_seconds");
    }
    assert("broker_cpu_usage_percent"@[7] != "broker_fanout_latency_seconds"@[7]) by {
        reveal_strlit("broker_cpu_usage_percent");
        reveal_strlit("broker_fanout_latency_seconds");
    }
    assert("broker_cpu_usage_percent"@[7] != "broker_fanout_recipients_per_message"@[7]) by {
        reveal_strlit("broker_cpu_usage_percent");
        reveal_strlit("broker_fanout_recipients_per_message");
    }
    assert("broker_cpu_usage_percent"@[7] != "broker_ingress_latency_seconds"@[7]) by {
        reveal_strlit("broker_cpu_usage_percent");
        reveal_strlit("broker_ingress_latency_seconds");
    }
    assert("broker_cpu_usage_percent"@[7] != "broker_egress_latency_seconds"@[7]) by {
        reveal_strlit("broker_cpu_usage_percent");
        reveal_strlit("broker_egress_latency_seconds");
    }
    assert("broker_cpu_usage_percent"@[7] != "broker_processing_latency_seconds"@[7]) by {
        reveal_strlit("broker_cpu_usage_percent");
        reveal_strlit("broker_processing_latency_seconds");
    }
    assert("broker_messages_received_total"@[7] != "broker_routing_shard_operations"@[7]) by {
        reveal_strlit("broker_messages_received_total");
        reveal_strlit("broker_routing_shard_operations");
    }
    assert("broker_messages_invalid_total"@[7] != "broker_routing_shard_operations"@[7]) by {
        reveal_strlit("broker_messages_invalid_total");
        reveal_strlit("broker_routing_shard_operations");
    }
    assert("broker_messages_dropped_total"@[7] != "broker_routing_shard_operations"@[7]) by {
        reveal_strlit("broker_messages_dropped_total");
        reveal_strlit("broker_routing_shard_operations");
    }
    assert("broker_messages_sent_total"@[7] != "broker_routing_shard_operations"@[7]) by {
        reveal_strlit("broker_messages_sent_total");
        reveal_strlit("broker_routing_shard_operations");
    }
    assert("broker_messages_failed_total"@[7] != "broker_routing_shard_operations"@[7]) by {
        reveal_strlit("broker_messages_failed_total");
        reveal_strlit("broker_routing_shard_operations");
    }
    assert("broker_messages_queued_total"@[7] != "broker_routing_shard_operations"@[7]) by {
        reveal_strlit("broker_messages_queued_total");
        reveal_strlit("broker_routing_shard_operations");
    }
    assert("broker_fanout_operations_total"@[7] != "broker_routing_shard_operations"@[7]) by {
        reveal_strlit("broker_fanout_operations_total");
        reveal_strlit("broker_routing_shard_operations");
    }
    assert("broker_routing_cache_hits"@[15] != "broker_routing_shard_operations"@[15]) by {
        reveal_strlit("broker_routing_cache_hits");
        reveal_strlit("broker_routing_shard_operations");
    }
    assert("broker_routing_cache_misses"@[15] != "broker_routing_shard_operations"@[15]) by {
        reveal_strlit("broker_routing_cache_misses");
        reveal_strlit("broker_routing_shard_operations");
    }
    assert("broker_nats_published_total"@[7] != "broker_routing_shard_operations"@[7]) by {
        reveal_strlit("broker_nats_published_total");
        reveal_strlit("broker_routing_shard_operations");
    }
    assert("broker_nats_consumed_total"@[7] != "broker_routing_shard_operations"@[7]) by {
        reveal_strlit("broker_nats_consumed_total");
        reveal_strlit("broker_routing_shard_operations");
    }
    assert("broker_nats_errors_total"@[7] != "broker_routing_shard_operations"@[7]) by {
        reveal_strlit("broker_nats_errors_total");
        reveal_strlit("broker_routing_shard_operations");
    }
    assert("broker_rate_limit_hits_total"@[8] != "broker_routing_shard_operations"@[8]) by {
        reveal_strlit("broker_rate_limit_hits_total");
        reveal_strlit("broker_routing_shard_operations");
    }
    assert("broker_backpressure_events_total"@[7] != "broker_routing_shard_operations"@[7]) by {
        reveal_strlit("broker_backpressure_events_total");
        reveal_strlit("broker_routing_shard_operations");
    }
    assert("broker_active_connections"@[7] != "broker_routing_shard_operations"@[7]) by {
        reveal_strlit("broker_active_connections");
        reveal_strlit("broker_routing_shard_operations");
    }
    assert("broker_active_topics"@[7] != "broker_routing_shard_operations"@[7]) by {
        reveal_strlit("broker_active_topics");
        reveal_strlit("broker_routing_shard_operations");
    }
    assert("broker_memory_usage_bytes"@[7] != "broker_routing_shard_operations"@[7]) by {
        reveal_strlit("broker_memory_usage_bytes");
        reveal_strlit("broker_routing_shard_operations");
    }
    assert("broker_cpu_usage_percent"@[7] != "broker_routing_shard_operations"@[7]) by {
        reveal_strlit("broker_cpu_usage_percent");
        reveal_strlit("broker_routing_shard_operations");
    }
    assert("broker_fanout_latency_seconds"@[7] != "broker_routing_shard_operations"@[7]) by {
        reveal_strlit("broker_fanout_latency_seconds");
        reveal_strlit("broker_routing_shard_operations");
    }
    assert("broker_fanout_recipients_per_message"@[7] != "broker_routing_shard_operations"@[7]) by {
        reveal_strlit("broker_fanout_recipients_per_message");
        reveal_strlit("broker_routing_shard_operations");
    }
    assert("broker_ingress_latency_seconds"@[7] != "broker_routing_shard_operations"@[7]) by {
        reveal_strlit("broker_ingress_latency_seconds");
        reveal_strlit("broker_routing_shard_operations");
    }
    assert("broker_egress_latency_seconds"@[7] != "broker_routing_shard_operations"@[7]) by {
        reveal_strlit("broker_egress_latency_seconds");
        reveal_strlit("broker_routing_shard_operations");
    }
    assert("broker_processing_latency_seconds"@[7] != "broker_routing_shard_operations"@[7]) by {
        reveal_strlit("broker_processing_latency_seconds");
        reveal_strlit("broker_routing_shard_operations");
    }
}

} // verus!
