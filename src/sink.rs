//! The handles of the `metrics` crate's installed recorder, and the calls
//! made on them. Every call goes to whatever recorder the process
//! installed (none installed: the calls do nothing), so none of them
//! promises anything that verified code could read back.

use vstd::prelude::*;
use crate::registry::MetricUnit;

verus! {

#[verifier::external_type_specification]
#[verifier::external_body]
pub struct ExCounter(metrics::Counter);

#[verifier::external_type_specification]
#[verifier::external_body]
pub struct ExGauge(metrics::Gauge);

#[verifier::external_type_specification]
#[verifier::external_body]
pub struct ExHistogram(metrics::Histogram);

#[verifier::external_type_specification]
#[verifier::external_body]
pub struct ExInstant(std::time::Instant);

/// Relies on metrics::Recorder::describe_counter of the current recorder:
/// hands it the name, unit and help text.
#[verifier::external_body]
pub(crate) fn describe_counter(name: &str, help: &str, unit: Option<MetricUnit>) {
    let unit = match unit {
        Some(MetricUnit::Seconds) => Some(metrics::Unit::Seconds),
        None => None,
    };
    metrics::with_recorder(|r| r.describe_counter(name.to_string().into(), unit, help.to_string().into()))
}

/// Relies on metrics::Recorder::describe_gauge of the current recorder:
/// hands it the name, unit and help text.
#[verifier::external_body]
pub(crate) fn describe_gauge(name: &str, help: &str, unit: Option<MetricUnit>) {
    let unit = match unit {
        Some(MetricUnit::Seconds) => Some(metrics::Unit::Seconds),
        None => None,
    };
    metrics::with_recorder(|r| r.describe_gauge(name.to_string().into(), unit, help.to_string().into()))
}

/// Relies on metrics::Recorder::describe_histogram of the current recorder:
/// hands it the name, unit and help text.
#[verifier::external_body]
pub(crate) fn describe_histogram(name: &str, help: &str, unit: Option<MetricUnit>) {
    let unit = match unit {
        Some(MetricUnit::Seconds) => Some(metrics::Unit::Seconds),
        None => None,
    };
    metrics::with_recorder(|r| r.describe_histogram(name.to_string().into(), unit, help.to_string().into()))
}

/// Relies on metrics::Recorder::register_counter of the current recorder:
/// the handle of the counter with this name and these label pairs.
#[verifier::external_body]
pub(crate) fn register_counter(name: &str, labels: &Vec<(String, String)>) -> metrics::Counter {
    let labels: Vec<metrics::Label> =
        labels.iter().map(|(k, v)| metrics::Label::new(k.clone(), v.clone())).collect();
    let key = metrics::Key::from_parts(name.to_string(), labels);
    let meta = metrics::Metadata::new("broker_core", metrics::Level::INFO, None);
    metrics::with_recorder(|r| r.register_counter(&key, &meta))
}

/// Relies on metrics::Recorder::register_gauge of the current recorder:
/// the handle of the gauge with this name.
#[verifier::external_body]
pub(crate) fn register_gauge(name: &str) -> metrics::Gauge {
    let key = metrics::Key::from_name(name.to_string());
    let meta = metrics::Metadata::new("broker_core", metrics::Level::INFO, None);
    metrics::with_recorder(|r| r.register_gauge(&key, &meta))
}

/// Relies on metrics::Recorder::register_histogram of the current recorder:
/// the handle of the histogram with this name.
#[verifier::external_body]
pub(crate) fn register_histogram(name: &str) -> metrics::Histogram {
    let key = metrics::Key::from_name(name.to_string());
    let meta = metrics::Metadata::new("broker_core", metrics::Level::INFO, None);
    metrics::with_recorder(|r| r.register_histogram(&key, &meta))
}

/// Relies on metrics::Counter::increment: adds `n` to the counter.
#[verifier::external_body]
pub(crate) fn counter_increment(c: &metrics::Counter, n: u64) {
    c.increment(n)
}

/// Relies on metrics::Gauge::set: sets the gauge to `v`.
#[verifier::external_body]
pub(crate) fn gauge_set(g: &metrics::Gauge, v: i32) {
    g.set(v)
}

/// Relies on metrics::Histogram::record with a `Duration`: records the
/// duration of `micros` microseconds, in seconds.
#[verifier::external_body]
pub(crate) fn histogram_record_micros(h: &metrics::Histogram, micros: u64) {
    h.record(std::time::Duration::from_micros(micros))
}

/// Relies on metrics::Histogram::record with an integer: records `n`.
#[verifier::external_body]
pub(crate) fn histogram_record_count(h: &metrics::Histogram, n: u32) {
    h.record(n)
}

/// Relies on std::time::Instant::now: the current instant of the
/// monotonic clock.
#[verifier::external_body]
pub(crate) fn instant_now() -> std::time::Instant {
    std::time::Instant::now()
}

/// Relies on std::time::Instant::elapsed: whole microseconds since `start`.
#[verifier::external_body]
pub(crate) fn micros_since(start: &std::time::Instant) -> u128 {
    start.elapsed().as_micros()
}

} // verus!
