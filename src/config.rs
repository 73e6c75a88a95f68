//! The broker's configuration: its schema, and its resolution from ranked
//! sources over built-in defaults, followed by validation.

use vstd::prelude::*;
use vstd::string::StringExecFns;
use crate::checks::{has_no_empty_item, is_known_environment, is_socket_address, known_environment, no_empty_item, socket_address_ok};
use crate::sources::{
    flag_or, flag_readable, is_comma_split, layered_value, number_or, number_readable, read_flag, read_number,
    join_commas, join_with_commas, read_optional, read_text, split_commas, text_or, ConfigError, Source, decimal_value,
};

verus! {

pub open spec fn opt_text(o: Option<String>) -> Option<Seq<char>> {
    match o {
        Some(s) => Some(s@),
        None => None,
    }
}

pub open spec fn opt_number(o: Option<usize>) -> Option<nat> {
    match o {
        Some(n) => Some(n as nat),
        None => None,
    }
}

/// The number under `key`, if any source holds it.
pub open spec fn optional_number(srcs: Seq<Source>, key: Seq<char>) -> Option<nat> {
    match layered_value(srcs, key) {
        Some(v) => Some(decimal_value(v)),
        None => None,
    }
}

/// The number under `key`, at most `usize::MAX`, if any source holds it.
pub fn read_optional_usize(sources: &Vec<Source>, key: &str) -> (r: Result<Option<usize>, ConfigError>)
    ensures
        r is Ok <==> number_readable(sources@, key@, usize::MAX as nat),
        r matches Ok(v) ==> opt_number(v) == optional_number(sources@, key@),
        r matches Err(e) ==> (e matches ConfigError::Malformed(k) && k@ == key@),
{
    match read_optional(sources, key) {
        None => Ok(None),
        Some(_) => match read_number(sources, key, 0, usize::MAX as u64) {
            Ok(n) => Ok(Some(n as usize)),
            Err(e) => Err(e),
        },
    }
}
/// Transport: servers, credentials, TLS material, topics and timeouts.
#[derive(Clone, Debug)]
pub struct NatsConfig {
    /// Server URLs.
    pub servers: Vec<String>,
    pub username: Option<String>,
    pub password: Option<String>,
    pub token: Option<String>,
    pub tls_cert: Option<String>,
    pub tls_key: Option<String>,
    pub tls_ca: Option<String>,
    pub ingress_topic: String,
    pub egress_user_prefix: String,
    pub egress_group_prefix: String,
    pub control_topic: String,
    pub stream_name: String,
    pub consumer_name: String,
    /// Seconds.
    pub connect_timeout: u64,
    /// Seconds.
    pub reconnect_delay: u64,
    pub max_reconnects: Option<usize>,
}

/// API surface: bind addresses, TLS material and stream limits.
#[derive(Clone, Debug)]
pub struct ApiConfig {
    /// `host:port`.
    pub grpc_addr: String,
    /// `host:port`.
    pub rest_addr: String,
    pub grpc_tls_cert: Option<String>,
    pub grpc_tls_key: Option<String>,
    pub max_concurrent_streams: u32,
    /// Bytes.
    pub max_frame_size: usize,
}

/// Routing tunables.
#[derive(Clone, Debug)]
pub struct RoutingConfig {
    pub shard_count: usize,
    pub fanout_batch_size: usize,
    pub fanout_parallelism: usize,
    /// Seconds.
    pub presence_ttl: u64,
    /// Seconds.
    pub typing_ttl: u64,
    pub cache_size: usize,
    pub bloom_filter_size: usize,
}

/// Observability: exporter address, log level and tracing.
#[derive(Clone, Debug)]
pub struct MetricsConfig {
    /// `host:port`.
    pub prometheus_addr: String,
    pub log_level: String,
    pub enable_tracing: bool,
    pub otel_endpoint: Option<String>,
}

/// Throughput and size ceilings.
#[derive(Clone, Debug)]
pub struct RateLimits {
    pub messages_per_second: u32,
    pub burst_size: u32,
    /// Bytes.
    pub max_message_size: usize,
    pub max_recipients_per_message: usize,
    pub max_group_size: usize,
    pub user_message_limit: u32,
    /// Seconds.
    pub user_message_window: u64,
    pub connection_limit_per_user: u32,
}

/// The resolved configuration, shared read-only once built.
#[derive(Clone, Debug)]
pub struct BrokerConfig {
    pub broker_id: String,
    pub environment: String,
    pub nats: NatsConfig,
    pub api: ApiConfig,
    pub routing: RoutingConfig,
    pub metrics: MetricsConfig,
    pub limits: RateLimits,
}

/// Every numeric and boolean value the sources hold reads as its field's
/// type.
pub open spec fn all_readable(srcs: Seq<Source>) -> bool {
    &&& number_readable(srcs, "nats.connect_timeout"@, u64::MAX as nat)
    &&& number_readable(srcs, "nats.reconnect_delay"@, u64::MAX as nat)
    &&& number_readable(srcs, "nats.max_reconnects"@, usize::MAX as nat)
    &&& number_readable(srcs, "api.max_concurrent_streams"@, u32::MAX as nat)
    &&& number_readable(srcs, "api.max_frame_size"@, usize::MAX as nat)
    &&& number_readable(srcs, "routing.shard_count"@, usize::MAX as nat)
    &&& number_readable(srcs, "routing.fanout_batch_size"@, usize::MAX as nat)
    &&& number_readable(srcs, "routing.fanout_parallelism"@, usize::MAX as nat)
    &&& number_readable(srcs, "routing.presence_ttl"@, u64::MAX as nat)
    &&& number_readable(srcs, "routing.typing_ttl"@, u64::MAX as nat)
    &&& number_readable(srcs, "routing.cache_size"@, usize::MAX as nat)
    &&& number_readable(srcs, "routing.bloom_filter_size"@, usize::MAX as nat)
    &&& flag_readable(srcs, "metrics.enable_tracing"@)
    &&& number_readable(srcs, "limits.messages_per_second"@, u32::MAX as nat)
    &&& number_readable(srcs, "limits.burst_size"@, u32::MAX as nat)
    &&& number_readable(srcs, "limits.max_message_size"@, usize::MAX as nat)
    &&& number_readable(srcs, "limits.max_recipients_per_message"@, usize::MAX as nat)
    &&& number_readable(srcs, "limits.max_group_size"@, usize::MAX as nat)
    &&& number_readable(srcs, "limits.user_message_limit"@, u32::MAX as nat)
    &&& number_readable(srcs, "limits.user_message_window"@, u64::MAX as nat)
    &&& number_readable(srcs, "limits.connection_limit_per_user"@, u32::MAX as nat)
}

/// The configuration merged from `srcs`, with `environment` and `broker_id`
/// as the defaults of those two keys, meets every invariant.
pub open spec fn merged_valid(srcs: Seq<Source>, environment: Seq<char>, broker_id: Seq<char>) -> bool {
    &&& text_or(srcs, "broker_id"@, broker_id).len() > 0
    &&& known_environment(text_or(srcs, "environment"@, environment))
    &&& text_or(srcs, "environment"@, environment) == "production"@ ==> layered_value(srcs, "nats.tls_cert"@) is Some && layered_value(srcs, "nats.tls_key"@) is Some && layered_value(srcs, "api.grpc_tls_cert"@) is Some && layered_value(srcs, "api.grpc_tls_key"@) is Some
    &&& number_or(srcs, "api.max_concurrent_streams"@, 10000) > 0
    &&& number_or(srcs, "api.max_frame_size"@, 1048576) > 0
    &&& number_or(srcs, "routing.shard_count"@, 64) > 0
    &&& number_or(srcs, "routing.fanout_batch_size"@, 100) > 0
    &&& number_or(srcs, "routing.fanout_parallelism"@, 16) > 0
    &&& number_or(srcs, "routing.cache_size"@, 10000) > 0
    &&& number_or(srcs, "routing.bloom_filter_size"@, 100000) > 0
    &&& number_or(srcs, "limits.messages_per_second"@, 10000) > 0
    &&& number_or(srcs, "limits.burst_size"@, 15000) > 0
    &&& number_or(srcs, "limits.max_message_size"@, 65536) > 0
    &&& number_or(srcs, "limits.max_recipients_per_message"@, 1000) > 0
    &&& number_or(srcs, "limits.max_group_size"@, 100000) > 0
    &&& number_or(srcs, "limits.user_message_limit"@, 100) > 0
    &&& number_or(srcs, "limits.user_message_window"@, 60) > 0
    &&& number_or(srcs, "limits.connection_limit_per_user"@, 10) > 0
    &&& socket_address_ok(text_or(srcs, "api.grpc_addr"@, "0.0.0.0:50051"@))
    &&& socket_address_ok(text_or(srcs, "api.rest_addr"@, "0.0.0.0:8080"@))
    &&& socket_address_ok(text_or(srcs, "metrics.prometheus_addr"@, "0.0.0.0:9090"@))
    &&& no_empty_item(text_or(srcs, "nats.servers"@, "nats://localhost:4222"@))
}

impl BrokerConfig {
    /// The invariants of a configuration: a non-empty server list with no
    /// empty item, a non-empty broker id, a known
    /// environment, TLS material for transport and API in production,
    /// positive sizes and limits, and well-formed bind addresses.
    pub open spec fn is_valid(&self) -> bool {
        &&& no_empty_item(join_commas(self.nats.servers@.map_values(|s: String| s@)))
        &&& self.broker_id@.len() > 0
        &&& known_environment(self.environment@)
        &&& self.environment@ == "production"@ ==> opt_text(self.nats.tls_cert) is Some && opt_text(self.nats.tls_key) is Some && opt_text(self.api.grpc_tls_cert) is Some && opt_text(self.api.grpc_tls_key) is Some
        &&& self.api.max_concurrent_streams as nat > 0
        &&& self.api.max_frame_size as nat > 0
        &&& self.routing.shard_count as nat > 0
        &&& self.routing.fanout_batch_size as nat > 0
        &&& self.routing.fanout_parallelism as nat > 0
        &&& self.routing.cache_size as nat > 0
        &&& self.routing.bloom_filter_size as nat > 0
        &&& self.limits.messages_per_second as nat > 0
        &&& self.limits.burst_size as nat > 0
        &&& self.limits.max_message_size as nat > 0
        &&& self.limits.max_recipients_per_message as nat > 0
        &&& self.limits.max_group_size as nat > 0
        &&& self.limits.user_message_limit as nat > 0
        &&& self.limits.user_message_window as nat > 0
        &&& self.limits.connection_limit_per_user as nat > 0
        &&& socket_address_ok(self.api.grpc_addr@)
        &&& socket_address_ok(self.api.rest_addr@)
        &&& socket_address_ok(self.metrics.prometheus_addr@)
    }

    /// Each field holds what the ranked `srcs` give its key, or the
    /// field's default; `environment` and `broker_id` are the defaults of
    /// those two keys.
    pub open spec fn matches_sources(&self, srcs: Seq<Source>, environment: Seq<char>, broker_id: Seq<char>) -> bool {
        &&& self.broker_id@ == text_or(srcs, "broker_id"@, broker_id)
        &&& self.environment@ == text_or(srcs, "environment"@, environment)
        &&& is_comma_split(text_or(srcs, "nats.servers"@, "nats://localhost:4222"@), self.nats.servers@.map_values(|s: String| s@))
        &&& opt_text(self.nats.username) == layered_value(srcs, "nats.username"@)
        &&& opt_text(self.nats.password) == layered_value(srcs, "nats.password"@)
        &&& opt_text(self.nats.token) == layered_value(srcs, "nats.token"@)
        &&& opt_text(self.nats.tls_cert) == layered_value(srcs, "nats.tls_cert"@)
        &&& opt_text(self.nats.tls_key) == layered_value(srcs, "nats.tls_key"@)
        &&& opt_text(self.nats.tls_ca) == layered_value(srcs, "nats.tls_ca"@)
        &&& self.nats.ingress_topic@ == text_or(srcs, "nats.ingress_topic"@, "broker.ingress"@)
        &&& self.nats.egress_user_prefix@ == text_or(srcs, "nats.egress_user_prefix"@, "gateway.user"@)
        &&& self.nats.egress_group_prefix@ == text_or(srcs, "nats.egress_group_prefix"@, "gateway.group"@)
        &&& self.nats.control_topic@ == text_or(srcs, "nats.control_topic"@, "broker.control"@)
        &&& self.nats.stream_name@ == text_or(srcs, "nats.stream_name"@, "messages"@)
        &&& self.nats.consumer_name@ == text_or(srcs, "nats.consumer_name"@, "broker-consumer"@)
        &&& self.nats.connect_timeout as nat == number_or(srcs, "nats.connect_timeout"@, 5)
        &&& self.nats.reconnect_delay as nat == number_or(srcs, "nats.reconnect_delay"@, 2)
        &&& opt_number(self.nats.max_reconnects) == optional_number(srcs, "nats.max_reconnects"@)
        &&& self.api.grpc_addr@ == text_or(srcs, "api.grpc_addr"@, "0.0.0.0:50051"@)
        &&& self.api.rest_addr@ == text_or(srcs, "api.rest_addr"@, "0.0.0.0:8080"@)
        &&& opt_text(self.api.grpc_tls_cert) == layered_value(srcs, "api.grpc_tls_cert"@)
        &&& opt_text(self.api.grpc_tls_key) == layered_value(srcs, "api.grpc_tls_key"@)
        &&& self.api.max_concurrent_streams as nat == number_or(srcs, "api.max_concurrent_streams"@, 10000)
        &&& self.api.max_frame_size as nat == number_or(srcs, "api.max_frame_size"@, 1048576)
        &&& self.routing.shard_count as nat == number_or(srcs, "routing.shard_count"@, 64)
        &&& self.routing.fanout_batch_size as nat == number_or(srcs, "routing.fanout_batch_size"@, 100)
        &&& self.routing.fanout_parallelism as nat == number_or(srcs, "routing.fanout_parallelism"@, 16)
        &&& self.routing.presence_ttl as nat == number_or(srcs, "routing.presence_ttl"@, 300)
        &&& self.routing.typing_ttl as nat == number_or(srcs, "routing.typing_ttl"@, 10)
        &&& self.routing.cache_size as nat == number_or(srcs, "routing.cache_size"@, 10000)
        &&& self.routing.bloom_filter_size as nat == number_or(srcs, "routing.bloom_filter_size"@, 100000)
        &&& self.metrics.prometheus_addr@ == text_or(srcs, "metrics.prometheus_addr"@, "0.0.0.0:9090"@)
        &&& self.metrics.log_level@ == text_or(srcs, "metrics.log_level"@, "info"@)
        &&& self.metrics.enable_tracing == flag_or(srcs, "metrics.enable_tracing"@, false)
        &&& opt_text(self.metrics.otel_endpoint) == layered_value(srcs, "metrics.otel_endpoint"@)
        &&& self.limits.messages_per_second as nat == number_or(srcs, "limits.messages_per_second"@, 10000)
        &&& self.limits.burst_size as nat == number_or(srcs, "limits.burst_size"@, 15000)
        &&& self.limits.max_message_size as nat == number_or(srcs, "limits.max_message_size"@, 65536)
        &&& self.limits.max_recipients_per_message as nat == number_or(srcs, "limits.max_recipients_per_message"@, 1000)
        &&& self.limits.max_group_size as nat == number_or(srcs, "limits.max_group_size"@, 100000)
        &&& self.limits.user_message_limit as nat == number_or(srcs, "limits.user_message_limit"@, 100)
        &&& self.limits.user_message_window as nat == number_or(srcs, "limits.user_message_window"@, 60)
        &&& self.limits.connection_limit_per_user as nat == number_or(srcs, "limits.connection_limit_per_user"@, 10)
    }

    /// Checks the invariants, naming the first one broken.
    pub fn validate(&self) -> (r: Result<(), ConfigError>)
        ensures
            r is Ok <==> self.is_valid(),
            r matches Err(e) ==> e is Invalid,
    {
        if !has_no_empty_item(&join_with_commas(&self.nats.servers)) {
            return Err(ConfigError::Invalid(String::from_str("nats.servers must list servers, none of them empty")));
        }
        if self.broker_id.as_str().unicode_len() == 0 {
            return Err(ConfigError::Invalid(String::from_str("broker_id must not be empty")));
        }
        if !is_known_environment(&self.environment) {
            return Err(ConfigError::Invalid(String::from_str("environment is not one of development, staging, production, test")));
        }
        if self.is_production() && (self.nats.tls_cert.is_none() || self.nats.tls_key.is_none() || self.api.grpc_tls_cert.is_none() || self.api.grpc_tls_key.is_none()) {
            return Err(ConfigError::Invalid(String::from_str("production requires TLS material for transport and API")));
        }
        if self.api.max_concurrent_streams == 0 {
            return Err(ConfigError::Invalid(String::from_str("api.max_concurrent_streams must be positive")));
        }
        if self.api.max_frame_size == 0 {
            return Err(ConfigError::Invalid(String::from_str("api.max_frame_size must be positive")));
        }
        if self.routing.shard_count == 0 {
            return Err(ConfigError::Invalid(String::from_str("routing.shard_count must be positive")));
        }
        if self.routing.fanout_batch_size == 0 {
            return Err(ConfigError::Invalid(String::from_str("routing.fanout_batch_size must be positive")));
        }
        if self.routing.fanout_parallelism == 0 {
            return Err(ConfigError::Invalid(String::from_str("routing.fanout_parallelism must be positive")));
        }
        if self.routing.cache_size == 0 {
            return Err(ConfigError::Invalid(String::from_str("routing.cache_size must be positive")));
        }
        if self.routing.bloom_filter_size == 0 {
            return Err(ConfigError::Invalid(String::from_str("routing.bloom_filter_size must be positive")));
        }
        if self.limits.messages_per_second == 0 {
            return Err(ConfigError::Invalid(String::from_str("limits.messages_per_second must be positive")));
        }
        if self.limits.burst_size == 0 {
            return Err(ConfigError::Invalid(String::from_str("limits.burst_size must be positive")));
        }
        if self.limits.max_message_size == 0 {
            return Err(ConfigError::Invalid(String::from_str("limits.max_message_size must be positive")));
        }
        if self.limits.max_recipients_per_message == 0 {
            return Err(ConfigError::Invalid(String::from_str("limits.max_recipients_per_message must be positive")));
        }
        if self.limits.max_group_size == 0 {
            return Err(ConfigError::Invalid(String::from_str("limits.max_group_size must be positive")));
        }
        if self.limits.user_message_limit == 0 {
            return Err(ConfigError::Invalid(String::from_str("limits.user_message_limit must be positive")));
        }
        if self.limits.user_message_window == 0 {
            return Err(ConfigError::Invalid(String::from_str("limits.user_message_window must be positive")));
        }
        if self.limits.connection_limit_per_user == 0 {
            return Err(ConfigError::Invalid(String::from_str("limits.connection_limit_per_user must be positive")));
        }
        if !is_socket_address(&self.api.grpc_addr) {
            return Err(ConfigError::Invalid(String::from_str("api.grpc_addr is not a host:port address")));
        }
        if !is_socket_address(&self.api.rest_addr) {
            return Err(ConfigError::Invalid(String::from_str("api.rest_addr is not a host:port address")));
        }
        if !is_socket_address(&self.metrics.prometheus_addr) {
            return Err(ConfigError::Invalid(String::from_str("metrics.prometheus_addr is not a host:port address")));
        }
        Ok(())
    }

    /// Resolves the configuration from `sources`, lowest precedence first
    /// (base file, environment file, local overrides, `BROKER__` variables).
    /// Keys no source holds take their defaults; `environment` and
    /// `broker_id` are the defaults of those two keys. A value that does not
    /// read as its field's type gives `Malformed`; a merged configuration
    /// that breaks an invariant gives `Invalid`.
    pub fn load(sources: &Vec<Source>, environment: &str, broker_id: &str) -> (r: Result<BrokerConfig, ConfigError>)
        ensures
            r is Ok <==> all_readable(sources@) && merged_valid(sources@, environment@, broker_id@),
            r matches Ok(c) ==> c.matches_sources(sources@, environment@, broker_id@) && c.is_valid(),
            r matches Err(e) && e is Malformed ==> !all_readable(sources@),
            r matches Err(e) && e is Invalid ==> all_readable(sources@) && !merged_valid(sources@, environment@, broker_id@),
    {
        let broker_id = read_text(sources, "broker_id", broker_id);
        let environment = read_text(sources, "environment", environment);
        let nats_servers = read_text(sources, "nats.servers", "nats://localhost:4222");
        let nats_username = read_optional(sources, "nats.username");
        let nats_password = read_optional(sources, "nats.password");
        let nats_token = read_optional(sources, "nats.token");
        let nats_tls_cert = read_optional(sources, "nats.tls_cert");
        let nats_tls_key = read_optional(sources, "nats.tls_key");
        let nats_tls_ca = read_optional(sources, "nats.tls_ca");
        let nats_ingress_topic = read_text(sources, "nats.ingress_topic", "broker.ingress");
        let nats_egress_user_prefix = read_text(sources, "nats.egress_user_prefix", "gateway.user");
        let nats_egress_group_prefix = read_text(sources, "nats.egress_group_prefix", "gateway.group");
        let nats_control_topic = read_text(sources, "nats.control_topic", "broker.control");
        let nats_stream_name = read_text(sources, "nats.stream_name", "messages");
        let nats_consumer_name = read_text(sources, "nats.consumer_name", "broker-consumer");
        let nats_connect_timeout = match read_number(sources, "nats.connect_timeout", 5, u64::MAX as u64) {
            Ok(n) => n,
            Err(e) => return Err(e),
        };
        let nats_reconnect_delay = match read_number(sources, "nats.reconnect_delay", 2, u64::MAX as u64) {
            Ok(n) => n,
            Err(e) => return Err(e),
        };
        let nats_max_reconnects = match read_optional_usize(sources, "nats.max_reconnects") {
            Ok(v) => v,
            Err(e) => return Err(e),
        };
        let api_grpc_addr = read_text(sources, "api.grpc_addr", "0.0.0.0:50051");
        let api_rest_addr = read_text(sources, "api.rest_addr", "0.0.0.0:8080");
        let api_grpc_tls_cert = read_optional(sources, "api.grpc_tls_cert");
        let api_grpc_tls_key = read_optional(sources, "api.grpc_tls_key");
        let api_max_concurrent_streams = match read_number(sources, "api.max_concurrent_streams", 10000, u32::MAX as u64) {
            Ok(n) => n as u32,
            Err(e) => return Err(e),
        };
        let api_max_frame_size = match read_number(sources, "api.max_frame_size", 1048576, usize::MAX as u64) {
            Ok(n) => n as usize,
            Err(e) => return Err(e),
        };
        let routing_shard_count = match read_number(sources, "routing.shard_count", 64, usize::MAX as u64) {
            Ok(n) => n as usize,
            Err(e) => return Err(e),
        };
        let routing_fanout_batch_size = match read_number(sources, "routing.fanout_batch_size", 100, usize::MAX as u64) {
            Ok(n) => n as usize,
            Err(e) => return Err(e),
        };
        let routing_fanout_parallelism = match read_number(sources, "routing.fanout_parallelism", 16, usize::MAX as u64) {
            Ok(n) => n as usize,
            Err(e) => return Err(e),
        };
        let routing_presence_ttl = match read_number(sources, "routing.presence_ttl", 300, u64::MAX as u64) {
            Ok(n) => n,
            Err(e) => return Err(e),
        };
        let routing_typing_ttl = match read_number(sources, "routing.typing_ttl", 10, u64::MAX as u64) {
            Ok(n) => n,
            Err(e) => return Err(e),
        };
        let routing_cache_size = match read_number(sources, "routing.cache_size", 10000, usize::MAX as u64) {
            Ok(n) => n as usize,
            Err(e) => return Err(e),
        };
        let routing_bloom_filter_size = match read_number(sources, "routing.bloom_filter_size", 100000, usize::MAX as u64) {
            Ok(n) => n as usize,
            Err(e) => return Err(e),
        };
        let metrics_prometheus_addr = read_text(sources, "metrics.prometheus_addr", "0.0.0.0:9090");
        let metrics_log_level = read_text(sources, "metrics.log_level", "info");
        let metrics_enable_tracing = match read_flag(sources, "metrics.enable_tracing", false) {
            Ok(b) => b,
            Err(e) => return Err(e),
        };
        let metrics_otel_endpoint = read_optional(sources, "metrics.otel_endpoint");
        let limits_messages_per_second = match read_number(sources, "limits.messages_per_second", 10000, u32::MAX as u64) {
            Ok(n) => n as u32,
            Err(e) => return Err(e),
        };
        let limits_burst_size = match read_number(sources, "limits.burst_size", 15000, u32::MAX as u64) {
            Ok(n) => n as u32,
            Err(e) => return Err(e),
        };
        let limits_max_message_size = match read_number(sources, "limits.max_message_size", 65536, usize::MAX as u64) {
            Ok(n) => n as usize,
            Err(e) => return Err(e),
        };
        let limits_max_recipients_per_message = match read_number(sources, "limits.max_recipients_per_message", 1000, usize::MAX as u64) {
            Ok(n) => n as usize,
            Err(e) => return Err(e),
        };
        let limits_max_group_size = match read_number(sources, "limits.max_group_size", 100000, usize::MAX as u64) {
            Ok(n) => n as usize,
            Err(e) => return Err(e),
        };
        let limits_user_message_limit = match read_number(sources, "limits.user_message_limit", 100, u32::MAX as u64) {
            Ok(n) => n as u32,
            Err(e) => return Err(e),
        };
        let limits_user_message_window = match read_number(sources, "limits.user_message_window", 60, u64::MAX as u64) {
            Ok(n) => n,
            Err(e) => return Err(e),
        };
        let limits_connection_limit_per_user = match read_number(sources, "limits.connection_limit_per_user", 10, u32::MAX as u64) {
            Ok(n) => n as u32,
            Err(e) => return Err(e),
        };
        let servers = split_commas(nats_servers.as_str());
        let config = BrokerConfig {
            broker_id,
            environment,
            nats: NatsConfig {
                servers: servers,
                username: nats_username,
                password: nats_password,
                token: nats_token,
                tls_cert: nats_tls_cert,
                tls_key: nats_tls_key,
                tls_ca: nats_tls_ca,
                ingress_topic: nats_ingress_topic,
                egress_user_prefix: nats_egress_user_prefix,
                egress_group_prefix: nats_egress_group_prefix,
                control_topic: nats_control_topic,
                stream_name: nats_stream_name,
                consumer_name: nats_consumer_name,
                connect_timeout: nats_connect_timeout,
                reconnect_delay: nats_reconnect_delay,
                max_reconnects: nats_max_reconnects,
            },
            api: ApiConfig {
                grpc_addr: api_grpc_addr,
                rest_addr: api_rest_addr,
                grpc_tls_cert: api_grpc_tls_cert,
                grpc_tls_key: api_grpc_tls_key,
                max_concurrent_streams: api_max_concurrent_streams,
                max_frame_size: api_max_frame_size,
            },
            routing: RoutingConfig {
                shard_count: routing_shard_count,
                fanout_batch_size: routing_fanout_batch_size,
                fanout_parallelism: routing_fanout_parallelism,
                presence_ttl: routing_presence_ttl,
                typing_ttl: routing_typing_ttl,
                cache_size: routing_cache_size,
                bloom_filter_size: routing_bloom_filter_size,
            },
            metrics: MetricsConfig {
                prometheus_addr: metrics_prometheus_addr,
                log_level: metrics_log_level,
                enable_tracing: metrics_enable_tracing,
                otel_endpoint: metrics_otel_endpoint,
            },
            limits: RateLimits {
                messages_per_second: limits_messages_per_second,
                burst_size: limits_burst_size,
                max_message_size: limits_max_message_size,
                max_recipients_per_message: limits_max_recipients_per_message,
                max_group_size: limits_max_group_size,
                user_message_limit: limits_user_message_limit,
                user_message_window: limits_user_message_window,
                connection_limit_per_user: limits_connection_limit_per_user,
            },
        };
        match config.validate() {
            Ok(()) => Ok(config),
            Err(e) => Err(e),
        }
    }

    /// Whether the environment is `production`.
    pub fn is_production(&self) -> (r: bool)
        ensures
            r == (self.environment@ == "production"@),
    {
        self.environment == String::from_str("production")
    }

    /// Whether TLS is required: in production.
    pub fn require_tls(&self) -> (r: bool)
        ensures
            r == (self.environment@ == "production"@),
    {
        self.is_production()
    }
}

} // verus!
