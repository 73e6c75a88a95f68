//! Properties that relate several calls or hold of all inputs.

use vstd::prelude::*;
use crate::config::{merged_valid, BrokerConfig, opt_text, opt_number};
use crate::facade::BrokerMetrics;
use crate::ids::{CounterId, GaugeId, HistogramId};
use crate::registry::{has_name, InstrumentDesc, names_unique};
use crate::sources::{lemma_comma_split_unique, layered_value, Entry, source_value, text_or, Source};

verus! {

/// Precedence: when source `i` holds `key` and no higher-ranked source
/// does, the merged value of `key` is the one of source `i`, whatever the
/// lower-ranked sources hold.
pub proof fn law_highest_source_wins(srcs: Seq<Source>, i: int, key: Seq<char>)
    requires
        0 <= i < srcs.len(),
        source_value(srcs[i].entries@, key) is Some,
        forall|j: int| i < j < srcs.len() ==> source_value((#[trigger] srcs[j]).entries@, key) is None,
    ensures
        layered_value(srcs, key) == source_value(srcs[i].entries@, key),
    decreases srcs.len(),
{
    if i < srcs.len() - 1 {
        let rest = srcs.drop_last();
        assert forall|j: int| i < j < rest.len() implies source_value((#[trigger] rest[j]).entries@, key) is None by {
            assert(rest[j] == srcs[j]);
        }
        assert(source_value(srcs[srcs.len() - 1].entries@, key) is None);
        law_highest_source_wins(rest, i, key);
    }
}

/// Fall-through: a key that no source holds has no merged value, so the
/// field takes its default.
pub proof fn law_absent_key_takes_default(srcs: Seq<Source>, key: Seq<char>, default: Seq<char>)
    requires
        forall|j: int| 0 <= j < srcs.len() ==> source_value((#[trigger] srcs[j]).entries@, key) is None,
    ensures
        layered_value(srcs, key) is None,
        text_or(srcs, key, default) == default,
    decreases srcs.len(),
{
    if srcs.len() > 0 {
        let rest = srcs.drop_last();
        assert forall|j: int| 0 <= j < rest.len() implies source_value((#[trigger] rest[j]).entries@, key) is None by {
            assert(rest[j] == srcs[j]);
        }
        assert(source_value(srcs[srcs.len() - 1].entries@, key) is None);
        law_absent_key_takes_default(rest, key, default);
    }
}

/// When every entry of a source carries `key`, the source gives no value
/// to any other key.
pub proof fn law_source_holds_only_its_keys(s: Seq<Entry>, key: Seq<char>, other: Seq<char>)
    requires
        forall|e: int| 0 <= e < s.len() ==> (#[trigger] s[e]).key@ == key,
        other != key,
    ensures
        source_value(s, other) is None,
    decreases s.len(),
{
    if s.len() > 0 {
        let rest = s.drop_last();
        assert forall|e: int| 0 <= e < rest.len() implies (#[trigger] rest[e]).key@ == key by {
            assert(rest[e] == s[e]);
        }
        assert(s[s.len() - 1].key@ == key);
        law_source_holds_only_its_keys(rest, key, other);
    }
}

/// Overriding one key leaves every other key to its default: when every
/// entry of every source carries `key`, any other key has no merged value,
/// so `BrokerConfig::load` gives it its default.
pub proof fn law_single_key_override(srcs: Seq<Source>, key: Seq<char>, other: Seq<char>, default: Seq<char>)
    requires
        forall|j: int, e: int|
            0 <= j < srcs.len() && 0 <= e < srcs[j].entries@.len() ==> (#[trigger] srcs[j].entries@[e]).key@ == key,
        other != key,
    ensures
        layered_value(srcs, other) is None,
        text_or(srcs, other, default) == default,
{
    assert forall|j: int| 0 <= j < srcs.len() implies source_value((#[trigger] srcs[j]).entries@, other) is None by {
        assert forall|e: int| 0 <= e < srcs[j].entries@.len() implies (#[trigger] srcs[j].entries@[e]).key@ == key by {}
        law_source_holds_only_its_keys(srcs[j].entries@, key, other);
    }
    law_absent_key_takes_default(srcs, other, default);
}

/// A production environment without TLS material for transport or API
/// fails validation, so `BrokerConfig::load` returns an error.
pub proof fn law_production_requires_tls(srcs: Seq<Source>, environment: Seq<char>, broker_id: Seq<char>)
    requires
        text_or(srcs, "environment"@, environment) == "production"@,
        layered_value(srcs, "nats.tls_cert"@) is None || layered_value(srcs, "nats.tls_key"@) is None
            || layered_value(srcs, "api.grpc_tls_cert"@) is None || layered_value(srcs, "api.grpc_tls_key"@) is None,
    ensures
        !merged_valid(srcs, environment, broker_id),
{
}

/// Two configurations that both match the same sources with the same
/// environment and broker id hold the same values in every field.
pub proof fn law_resolution_deterministic(
    a: BrokerConfig,
    b: BrokerConfig,
    srcs: Seq<Source>,
    environment: Seq<char>,
    broker_id: Seq<char>,
)
    requires
        a.matches_sources(srcs, environment, broker_id),
        b.matches_sources(srcs, environment, broker_id),
    ensures
        a.broker_id@ == b.broker_id@,
        a.environment@ == b.environment@,
        a.nats.servers@.map_values(|s: String| s@) == b.nats.servers@.map_values(|s: String| s@),
        opt_text(a.nats.username) == opt_text(b.nats.username),
        opt_text(a.nats.password) == opt_text(b.nats.password),
        opt_text(a.nats.token) == opt_text(b.nats.token),
        opt_text(a.nats.tls_cert) == opt_text(b.nats.tls_cert),
        opt_text(a.nats.tls_key) == opt_text(b.nats.tls_key),
        opt_text(a.nats.tls_ca) == opt_text(b.nats.tls_ca),
        a.nats.ingress_topic@ == b.nats.ingress_topic@,
        a.nats.egress_user_prefix@ == b.nats.egress_user_prefix@,
        a.nats.egress_group_prefix@ == b.nats.egress_group_prefix@,
        a.nats.control_topic@ == b.nats.control_topic@,
        a.nats.stream_name@ == b.nats.stream_name@,
        a.nats.consumer_name@ == b.nats.consumer_name@,
        a.nats.connect_timeout == b.nats.connect_timeout,
        a.nats.reconnect_delay == b.nats.reconnect_delay,
        opt_number(a.nats.max_reconnects) == opt_number(b.nats.max_reconnects),
        a.api.grpc_addr@ == b.api.grpc_addr@,
        a.api.rest_addr@ == b.api.rest_addr@,
        opt_text(a.api.grpc_tls_cert) == opt_text(b.api.grpc_tls_cert),
        opt_text(a.api.grpc_tls_key) == opt_text(b.api.grpc_tls_key),
        a.api.max_concurrent_streams == b.api.max_concurrent_streams,
        a.api.max_frame_size == b.api.max_frame_size,
        a.routing.shard_count == b.routing.shard_count,
        a.routing.fanout_batch_size == b.routing.fanout_batch_size,
        a.routing.fanout_parallelism == b.routing.fanout_parallelism,
        a.routing.presence_ttl == b.routing.presence_ttl,
        a.routing.typing_ttl == b.routing.typing_ttl,
        a.routing.cache_size == b.routing.cache_size,
        a.routing.bloom_filter_size == b.routing.bloom_filter_size,
        a.metrics.prometheus_addr@ == b.metrics.prometheus_addr@,
        a.metrics.log_level@ == b.metrics.log_level@,
        a.metrics.enable_tracing == b.metrics.enable_tracing,
        opt_text(a.metrics.otel_endpoint) == opt_text(b.metrics.otel_endpoint),
        a.limits.messages_per_second == b.limits.messages_per_second,
        a.limits.burst_size == b.limits.burst_size,
        a.limits.max_message_size == b.limits.max_message_size,
        a.limits.max_recipients_per_message == b.limits.max_recipients_per_message,
        a.limits.max_group_size == b.limits.max_group_size,
        a.limits.user_message_limit == b.limits.user_message_limit,
        a.limits.user_message_window == b.limits.user_message_window,
        a.limits.connection_limit_per_user == b.limits.connection_limit_per_user,
{
    lemma_comma_split_unique(
        text_or(srcs, "nats.servers"@, "nats://localhost:4222"@),
        a.nats.servers@.map_values(|s: String| s@),
        b.nats.servers@.map_values(|s: String| s@),
    );
}

/// A description added under a fresh name is found under that name, and
/// only there, with the metadata it was described with; the names stay
/// unique.
pub proof fn law_described_is_retrievable(s: Seq<InstrumentDesc>, d: InstrumentDesc)
    requires
        names_unique(s),
        !has_name(s, d.name@),
    ensures
        names_unique(s.push(d)),
        has_name(s.push(d), d.name@),
        forall|i: int| 0 <= i < s.len() + 1 && (#[trigger] s.push(d)[i]).name@ == d.name@ ==> s.push(d)[i] == d,
{
    let t = s.push(d);
    assert(t[s.len() as int] == d);
    assert forall|i: int, j: int| 0 <= i < t.len() && 0 <= j < t.len() && i != j implies (#[trigger] t[i]).name@
        != (#[trigger] t[j]).name@ by {
        if i < s.len() && j < s.len() {
            assert(t[i] == s[i] && t[j] == s[j]);
        } else if i < s.len() {
            assert(t[i] == s[i]);
        } else if j < s.len() {
            assert(t[j] == s[j]);
        }
    }
    assert forall|i: int| 0 <= i < s.len() + 1 && (#[trigger] t[i]).name@ == d.name@ implies t[i] == d by {
        if i < s.len() {
            assert(t[i] == s[i]);
        }
    }
}

/// In a registry with unique names, a described name is found at exactly
/// one position.
pub proof fn law_name_found_once(s: Seq<InstrumentDesc>, i: int, j: int)
    requires
        names_unique(s),
        0 <= i < s.len(),
        0 <= j < s.len(),
        s[i].name@ == s[j].name@,
    ensures
        i == j,
{
}

/// Once `BrokerMetrics::initialize` has filled a slot, every instrument of the tables is described
/// exactly once: one description carries its name, with its kind, help
/// text, unit and bucket bounds.
pub proof fn law_each_instrument_described_once(m: BrokerMetrics)
    requires
        m.wf(),
        m.describes_all(),
    ensures
        forall|i: int, j: int|
            0 <= i < m.descriptions().len() && 0 <= j < m.descriptions().len()
                && (#[trigger] m.descriptions()[i]).name@ == (#[trigger] m.descriptions()[j]).name@ ==> i == j,
        forall|c: CounterId| #[trigger] m.describes_counter(c),
        forall|g: GaugeId| #[trigger] m.describes_gauge(g),
        forall|h: HistogramId| #[trigger] m.describes_histogram(h),
{
    m.lemma_registry_unique();
}

/// `n` calls that each add one to counter `c` (of any callers, in any
/// order) leave it `n` above where it started, while that fits in a `u64`.
pub proof fn law_increments_accumulate(states: Seq<BrokerMetrics>, c: CounterId)
    requires
        states.len() >= 1,
        forall|i: int| 0 <= i < states.len() - 1 ==> (#[trigger] states[i + 1]).bumped(&states[i], c, 1),
        states[0].counter(c) + states.len() - 1 <= u64::MAX,
    ensures
        states.last().counter(c) == states[0].counter(c) + states.len() - 1,
    decreases states.len(),
{
    if states.len() > 1 {
        let rest = states.drop_last();
        assert forall|i: int| 0 <= i < rest.len() - 1 implies (#[trigger] rest[i + 1]).bumped(&rest[i], c, 1) by {
            assert(rest[i + 1] == states[i + 1]);
            assert(rest[i] == states[i]);
        }
        law_increments_accumulate(rest, c);
        let i = states.len() - 2;
        assert(states[i + 1].bumped(&states[i], c, 1));
        assert(rest.last() == states[i]);
    }
}

} // verus!
