use broker_core::config::BrokerConfig;
use broker_core::identity::{broker_id_for, compose_broker_id, generate_broker_id};
use broker_core::sources::{lookup, parse_decimal, split_commas, ConfigError, Entry, Source};

fn source(pairs: &[(&str, &str)]) -> Source {
    Source {
        entries: pairs
            .iter()
            .map(|(k, v)| Entry { key: k.to_string(), value: v.to_string() })
            .collect(),
    }
}

fn production_tls() -> Source {
    source(&[
        ("environment", "production"),
        ("nats.tls_cert", "/etc/tls/nats.crt"),
        ("nats.tls_key", "/etc/tls/nats.key"),
        ("api.grpc_tls_cert", "/etc/tls/api.crt"),
        ("api.grpc_tls_key", "/etc/tls/api.key"),
    ])
}

#[test]
fn empty_sources_give_defaults() {
    let c = BrokerConfig::load(&vec![], "development", "host-1-2").unwrap();
    assert_eq!(c.routing.shard_count, 64);
    assert_eq!(c.limits.messages_per_second, 10000);
    assert_eq!(c.api.grpc_addr, "0.0.0.0:50051");
    assert_eq!(c.api.rest_addr, "0.0.0.0:8080");
    assert_eq!(c.metrics.prometheus_addr, "0.0.0.0:9090");
    assert_eq!(c.nats.servers, vec!["nats://localhost:4222".to_string()]);
    assert_eq!(c.nats.connect_timeout, 5);
    assert_eq!(c.routing.presence_ttl, 300);
    assert_eq!(c.limits.max_message_size, 65536);
    assert_eq!(c.nats.max_reconnects, None);
    assert_eq!(c.nats.tls_cert, None);
    assert!(!c.metrics.enable_tracing);
    assert_eq!(c.broker_id, "host-1-2");
    assert_eq!(c.environment, "development");
    assert!(!c.is_production());
    assert!(!c.require_tls());
}

#[test]
fn env_override_of_shard_count_keeps_other_defaults() {
    let env_vars = source(&[("routing.shard_count", "128")]);
    let c = BrokerConfig::load(&vec![env_vars], "development", "id").unwrap();
    let d = BrokerConfig::load(&vec![], "development", "id").unwrap();
    assert_eq!(c.routing.shard_count, 128);
    let mut c2 = c.clone();
    c2.routing.shard_count = 64;
    assert_eq!(format!("{:?}", c2), format!("{:?}", d));
}

#[test]
fn higher_source_overrides_lower() {
    let base = source(&[("routing.cache_size", "10"), ("metrics.log_level", "debug")]);
    let local = source(&[("routing.cache_size", "20")]);
    let c = BrokerConfig::load(&vec![base, local], "development", "id").unwrap();
    assert_eq!(c.routing.cache_size, 20);
    assert_eq!(c.metrics.log_level, "debug");
    assert_eq!(c.routing.bloom_filter_size, 100000);
}

#[test]
fn last_entry_of_a_source_wins() {
    let s = source(&[("routing.fanout_parallelism", "4"), ("routing.fanout_parallelism", "8")]);
    let c = BrokerConfig::load(&vec![s], "development", "id").unwrap();
    assert_eq!(c.routing.fanout_parallelism, 8);
}

#[test]
fn lookup_falls_through_to_lower_sources() {
    let srcs = vec![source(&[("a.b", "1")]), source(&[("c.d", "2")]), source(&[])];
    assert_eq!(lookup(&srcs, "a.b").map(|s| s.as_str()), Some("1"));
    assert_eq!(lookup(&srcs, "c.d").map(|s| s.as_str()), Some("2"));
    assert_eq!(lookup(&srcs, "e.f"), None);
}

#[test]
fn production_without_tls_fails() {
    let c = BrokerConfig::load(&vec![], "production", "id");
    assert!(matches!(c, Err(ConfigError::Invalid(_))));
    let half = source(&[("nats.tls_cert", "a"), ("nats.tls_key", "b")]);
    assert!(matches!(BrokerConfig::load(&vec![half], "production", "id"), Err(ConfigError::Invalid(_))));
}

#[test]
fn production_with_tls_succeeds() {
    let c = BrokerConfig::load(&vec![production_tls()], "development", "id").unwrap();
    assert!(c.is_production());
    assert!(c.require_tls());
    assert_eq!(c.api.grpc_tls_key.as_deref(), Some("/etc/tls/api.key"));
}

#[test]
fn resolving_twice_gives_same_config() {
    let srcs = vec![source(&[("limits.burst_size", "7"), ("nats.servers", "nats://a:1,nats://b:2")])];
    let a = BrokerConfig::load(&srcs, "staging", "fixed-1-1").unwrap();
    let b = BrokerConfig::load(&srcs, "staging", "fixed-1-1").unwrap();
    assert_eq!(format!("{:?}", a), format!("{:?}", b));
}

#[test]
fn malformed_number_is_reported_with_its_key() {
    let s = source(&[("routing.shard_count", "many")]);
    assert_eq!(
        BrokerConfig::load(&vec![s], "development", "id").unwrap_err(),
        ConfigError::Malformed("routing.shard_count".to_string())
    );
    let big = source(&[("limits.burst_size", "4294967296")]);
    assert_eq!(
        BrokerConfig::load(&vec![big], "development", "id").unwrap_err(),
        ConfigError::Malformed("limits.burst_size".to_string())
    );
}

#[test]
fn malformed_flag_is_reported() {
    let s = source(&[("metrics.enable_tracing", "yes")]);
    assert_eq!(
        BrokerConfig::load(&vec![s], "development", "id").unwrap_err(),
        ConfigError::Malformed("metrics.enable_tracing".to_string())
    );
    let t = source(&[("metrics.enable_tracing", "true")]);
    assert!(BrokerConfig::load(&vec![t], "development", "id").unwrap().metrics.enable_tracing);
}

#[test]
fn zero_shard_count_is_invalid() {
    let s = source(&[("routing.shard_count", "0")]);
    assert!(matches!(BrokerConfig::load(&vec![s], "development", "id"), Err(ConfigError::Invalid(_))));
}

#[test]
fn zero_limit_is_invalid() {
    let s = source(&[("limits.messages_per_second", "0")]);
    assert!(matches!(BrokerConfig::load(&vec![s], "development", "id"), Err(ConfigError::Invalid(_))));
}

#[test]
fn empty_broker_id_is_invalid() {
    assert!(matches!(BrokerConfig::load(&vec![], "development", ""), Err(ConfigError::Invalid(_))));
}

#[test]
fn unknown_environment_is_invalid() {
    assert!(matches!(BrokerConfig::load(&vec![], "qa", "id"), Err(ConfigError::Invalid(_))));
    assert!(BrokerConfig::load(&vec![], "test", "id").is_ok());
}

#[test]
fn bad_address_is_invalid() {
    for bad in ["0.0.0.0", ":80", "0.0.0.0:70000", "0.0.0.0:http", "localhost:80", "256.0.0.1:80", "01.2.3.4:80", "1.2.3:80", "1.2.3.4.5:80", "[]:80", "[::g]:80"] {
        let s = source(&[("api.rest_addr", bad)]);
        assert!(matches!(BrokerConfig::load(&vec![s], "development", "id"), Err(ConfigError::Invalid(_))), "{}", bad);
    }
    let v4 = source(&[("api.rest_addr", "10.0.255.1:8081")]);
    assert_eq!(BrokerConfig::load(&vec![v4], "development", "id").unwrap().api.rest_addr, "10.0.255.1:8081");
    let v6 = source(&[("api.rest_addr", "[::1]:8081")]);
    assert_eq!(BrokerConfig::load(&vec![v6], "development", "id").unwrap().api.rest_addr, "[::1]:8081");
}

#[test]
fn empty_server_list_is_invalid() {
    for bad in ["", ",", "nats://a:1,", "nats://a:1,,nats://b:2"] {
        let s = source(&[("nats.servers", bad)]);
        assert!(matches!(BrokerConfig::load(&vec![s], "development", "id"), Err(ConfigError::Invalid(_))), "{}", bad);
    }
}

#[test]
fn server_list_is_split_at_commas() {
    let s = source(&[("nats.servers", "nats://a:1,nats://b:2")]);
    let c = BrokerConfig::load(&vec![s], "development", "id").unwrap();
    assert_eq!(c.nats.servers, vec!["nats://a:1".to_string(), "nats://b:2".to_string()]);
    assert_eq!(split_commas("x"), vec!["x".to_string()]);
    assert_eq!(split_commas("a,,b"), vec!["a".to_string(), "".to_string(), "b".to_string()]);
}

#[test]
fn optional_number_is_read() {
    let s = source(&[("nats.max_reconnects", "12")]);
    let c = BrokerConfig::load(&vec![s], "development", "id").unwrap();
    assert_eq!(c.nats.max_reconnects, Some(12));
}

#[test]
fn broker_id_and_environment_come_from_sources_first() {
    let s = source(&[("broker_id", "explicit"), ("environment", "staging")]);
    let c = BrokerConfig::load(&vec![s], "development", "generated").unwrap();
    assert_eq!(c.broker_id, "explicit");
    assert_eq!(c.environment, "staging");
}

#[test]
fn decimal_parsing() {
    assert_eq!(parse_decimal("0", 10), Some(0));
    assert_eq!(parse_decimal("10", 10), Some(10));
    assert_eq!(parse_decimal("11", 10), None);
    assert_eq!(parse_decimal("", 10), None);
    assert_eq!(parse_decimal("1a", 10), None);
    assert_eq!(parse_decimal("18446744073709551615", u64::MAX), Some(u64::MAX));
    assert_eq!(parse_decimal("18446744073709551616", u64::MAX), None);
}

#[test]
fn broker_id_joins_host_pid_and_time() {
    assert_eq!(compose_broker_id("edge-7", 4242, 1700000000), "edge-7-4242-1700000000");
    assert_eq!(compose_broker_id("h", 0, 9), "h-0-9");
    let id = generate_broker_id(12, 345);
    assert!(id.ends_with("-12-345"));
    assert!(id.len() > "-12-345".len());
}

#[test]
fn failed_host_lookup_gives_unknown() {
    assert_eq!(broker_id_for(None, 1, 2), "unknown-1-2");
    assert_eq!(broker_id_for(Some("node".to_string()), 30, 40), "node-30-40");
}
