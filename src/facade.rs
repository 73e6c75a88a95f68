//! One method per broker event. Each updates the in-process tally of the
//! instrument it concerns, which tests and callers can read back, and
//! hands the same update to the recorder of the `metrics` crate.
//!
//! Methods take `&mut self`: a process shares one `BrokerMetrics` behind
//! its own lock, so concurrent callers never lose an update.

use vstd::prelude::*;
use crate::ids::{lemma_instrument_names_distinct, shard_counter_help, shard_counter_help_text, shard_counter_name, CounterId, GaugeId, HistogramId, SeriesId, NUM_COUNTERS, NUM_GAUGES, NUM_HISTOGRAMS, NUM_SERIES};
use crate::registry::{InstrumentDesc, InstrumentKind, InstrumentRegistry, MetricsError};
use crate::identity::{append_decimal, decimal_text};
use crate::sink;
use crate::tally::{HistogramTally, LabeledSeries};

verus! {

/// The value a gauge of the exporter is set to: `count` kept within the
/// range of `i32`, sign included.
pub open spec fn gauge_level(count: i64) -> i32 {
    if count < i32::MIN {
        i32::MIN
    } else if count > i32::MAX {
        i32::MAX
    } else {
        count as i32
    }
}

/// `n` kept within the range of `u32`.
pub open spec fn clamp_u32(n: u64) -> u32 {
    if n > u32::MAX { u32::MAX } else { n as u32 }
}

/// `n` kept within the range of `u64`.
pub open spec fn clamp_u64(n: u128) -> u64 {
    if n > u64::MAX { u64::MAX } else { n as u64 }
}

fn exported_gauge_level(count: i64) -> (r: i32)
    ensures
        r == gauge_level(count),
{
    if count < i32::MIN as i64 {
        i32::MIN
    } else if count > i32::MAX as i64 {
        i32::MAX
    } else {
        count as i32
    }
}

fn saturate_u32(n: u64) -> (r: u32)
    ensures
        r == clamp_u32(n),
{
    if n > u32::MAX as u64 { u32::MAX } else { n as u32 }
}

fn saturate_u64(n: u128) -> (r: u64)
    ensures
        r == clamp_u64(n),
{
    if n > u64::MAX as u128 { u64::MAX } else { n as u64 }
}

/// `d` describes counter `c` with its name, help text, no unit, no
/// buckets and no label keys.
pub open spec fn counter_desc_ok(d: InstrumentDesc, c: CounterId) -> bool {
    &&& d.name@ == c.spec_name()
    &&& d.kind == InstrumentKind::Counter
    &&& d.help@ == c.spec_help()
    &&& d.unit is None
    &&& d.buckets@.len() == 0
    &&& d.label_keys@.len() == 0
}

/// `d` describes gauge `g` with its name and help text.
pub open spec fn gauge_desc_ok(d: InstrumentDesc, g: GaugeId) -> bool {
    &&& d.name@ == g.spec_name()
    &&& d.kind == InstrumentKind::Gauge
    &&& d.help@ == g.spec_help()
    &&& d.unit is None
    &&& d.buckets@.len() == 0
    &&& d.label_keys@.len() == 0
}

/// `d` describes histogram `h` with its name, help text, unit and bounds.
pub open spec fn histogram_desc_ok(d: InstrumentDesc, h: HistogramId) -> bool {
    &&& d.name@ == h.spec_name()
    &&& d.kind == InstrumentKind::Histogram
    &&& d.help@ == h.spec_help()
    &&& d.unit == h.spec_unit()
    &&& d.buckets@ == h.spec_bounds()
    &&& d.label_keys@.len() == 0
}

/// `d` describes the per-shard counter vector, keyed by `shard_id` alone.
pub open spec fn shard_desc_ok(d: InstrumentDesc) -> bool {
    &&& d.name@ == shard_counter_name()
    &&& d.kind == InstrumentKind::Counter
    &&& d.help@ == shard_counter_help()
    &&& d.unit is None
    &&& d.buckets@.len() == 0
    &&& d.label_keys@.len() == 1
    &&& d.label_keys@[0]@ == "shard_id"@
}

/// The broker's instruments: their descriptions, the tallies of what each
/// was handed, and the recorder's handles.
pub struct BrokerMetrics {
    registry: InstrumentRegistry,
    counters: Vec<u64>,
    counter_handles: Vec<metrics::Counter>,
    gauges: Vec<i64>,
    gauge_handles: Vec<metrics::Gauge>,
    histograms: Vec<HistogramTally>,
    histogram_handles: Vec<metrics::Histogram>,
    series: Vec<LabeledSeries>,
}

impl BrokerMetrics {
    pub closed spec fn descriptions(&self) -> Seq<InstrumentDesc> {
        self.registry.view()
    }

    /// The descriptions carry unique names.
    pub proof fn lemma_registry_unique(&self)
        requires
            self.wf(),
        ensures
            crate::registry::names_unique(self.descriptions()),
    {
    }

    pub closed spec fn counter(&self, id: CounterId) -> u64 {
        self.counters@[id.idx()]
    }

    pub closed spec fn gauge(&self, id: GaugeId) -> i64 {
        self.gauges@[id.idx()]
    }

    pub closed spec fn histogram(&self, id: HistogramId) -> HistogramTally {
        self.histograms@[id.idx()]
    }

    pub closed spec fn series(&self, id: SeriesId) -> LabeledSeries {
        self.series@[id.idx()]
    }

    pub closed spec fn wf(&self) -> bool {
        &&& self.registry.wf()
        &&& self.counters@.len() == NUM_COUNTERS
        &&& self.counter_handles@.len() == NUM_COUNTERS
        &&& self.gauges@.len() == NUM_GAUGES
        &&& self.gauge_handles@.len() == NUM_GAUGES
        &&& self.histograms@.len() == NUM_HISTOGRAMS
        &&& self.histogram_handles@.len() == NUM_HISTOGRAMS
        &&& self.series@.len() == NUM_SERIES
        &&& forall|i: int| 0 <= i < NUM_HISTOGRAMS ==> (#[trigger] self.histograms@[i]).wf()
        &&& forall|i: int| 0 <= i < NUM_SERIES ==> (#[trigger] self.series@[i]).wf()
    }

    /// Everything but the listed instruments is as in `old`.
    pub open spec fn kept(
        &self,
        old: &Self,
        counters: Set<CounterId>,
        gauges: Set<GaugeId>,
        histograms: Set<HistogramId>,
        series: Set<SeriesId>,
    ) -> bool {
        &&& self.wf()
        &&& self.descriptions() == old.descriptions()
        &&& forall|c: CounterId| !counters.contains(c) ==> #[trigger] self.counter(c) == old.counter(c)
        &&& forall|g: GaugeId| !gauges.contains(g) ==> #[trigger] self.gauge(g) == old.gauge(g)
        &&& forall|h: HistogramId| !histograms.contains(h) ==> #[trigger] self.histogram(h) == old.histogram(h)
        &&& forall|s: SeriesId| !series.contains(s) ==> #[trigger] self.series(s) == old.series(s)
    }

    /// `h` of `self` is `h` of `old` with one more observation of `v`.
    pub open spec fn observed(&self, old: &Self, h: HistogramId, v: u64) -> bool {
        let a = old.histogram(h);
        let b = self.histogram(h);
        &&& b.wf()
        &&& b.bounds() == a.bounds()
        &&& b.count() == a.count().wrapping_add(1)
        &&& b.sum() == a.sum().wrapping_add(v)
        &&& b.buckets() == Seq::new(
            a.buckets().len(),
            |i: int| if v <= a.bounds()[i] { a.buckets()[i].wrapping_add(1) } else { a.buckets()[i] },
        )
    }

    /// `c` of `self` is `c` of `old` plus `n`, wrapping at `u64::MAX`.
    pub open spec fn bumped(&self, old: &Self, c: CounterId, n: u64) -> bool {
        self.counter(c) == old.counter(c).wrapping_add(n)
    }

    /// `label` of series `s` in `self` is that of `old` plus one, and no
    /// other label of it moved.
    pub open spec fn labelled(&self, old: &Self, s: SeriesId, label: Seq<char>) -> bool {
        &&& self.series(s).wf()
        &&& self.series(s).count_of(label) == old.series(s).count_of(label).wrapping_add(1)
        &&& forall|l: Seq<char>| l != label ==> #[trigger] self.series(s).count_of(l) == old.series(s).count_of(l)
    }

    fn bump(&mut self, c: CounterId, n: u64)
        requires
            old(self).wf(),
        ensures
            final(self).kept(old(self), set![c], Set::empty(), Set::empty(), Set::empty()),
            final(self).bumped(old(self), c, n),
    {
        let i = c.slot();
        let v = self.counters[i];
        self.counters.set(i, v.wrapping_add(n));
        sink::counter_increment(&self.counter_handles[i], n);
        assert forall|d: CounterId| d != c implies #[trigger] self.counter(d) == old(self).counter(d) by {
            assert(d.idx() != c.idx());
        }
    }

    fn observe(&mut self, h: HistogramId, v: u64)
        requires
            old(self).wf(),
        ensures
            final(self).kept(old(self), Set::empty(), Set::empty(), set![h], Set::empty()),
            final(self).observed(old(self), h, v),
    {
        let i = h.slot();
        let mut t = self.histograms.remove(i);
        t.observe(v);
        self.histograms.insert(i, t);
        if h.is_latency() {
            sink::histogram_record_micros(&self.histogram_handles[i], v);
        } else {
            sink::histogram_record_count(&self.histogram_handles[i], saturate_u32(v));
        }
        assert forall|k: int| 0 <= k < NUM_HISTOGRAMS implies (#[trigger] self.histograms@[k]).wf() by {
            if k != i {
                assert(self.histograms@[k] == old(self).histograms@[k]);
            }
        }
        assert forall|d: HistogramId| d != h implies #[trigger] self.histogram(d) == old(self).histogram(d) by {
            assert(d.idx() != h.idx());
        }
    }

    fn label(&mut self, s: SeriesId, label: &str)
        requires
            old(self).wf(),
        ensures
            final(self).kept(old(self), Set::empty(), Set::empty(), Set::empty(), set![s]),
            final(self).labelled(old(self), s, label@),
    {
        let i = s.slot();
        let mut t = self.series.remove(i);
        t.add(label, 1);
        self.series.insert(i, t);
        let pair = (String::from_str(s.label_key()), String::from_str(label));
        let handle = sink::register_counter(s.name(), &vec![pair]);
        sink::counter_increment(&handle, 1);
        assert forall|k: int| 0 <= k < NUM_SERIES implies (#[trigger] self.series@[k]).wf() by {
            if k != i {
                assert(self.series@[k] == old(self).series@[k]);
            }
        }
        assert forall|d: SeriesId| d != s implies #[trigger] self.series(d) == old(self).series(d) by {
            assert(d.idx() != s.idx());
        }
    }

    fn set_gauge(&mut self, g: GaugeId, v: i64)
        requires
            old(self).wf(),
        ensures
            final(self).kept(old(self), Set::empty(), set![g], Set::empty(), Set::empty()),
            final(self).gauge(g) == v,
    {
        let i = g.slot();
        self.gauges.set(i, v);
        sink::gauge_set(&self.gauge_handles[i], exported_gauge_level(v));
        assert forall|d: GaugeId| d != g implies #[trigger] self.gauge(d) == old(self).gauge(d) by {
            assert(d.idx() != g.idx());
        }
    }

    /// All instruments start at zero: counters, gauges, histograms and
    /// every label of every breakdown.
    pub open spec fn is_fresh(&self) -> bool {
        &&& forall|c: CounterId| #[trigger] self.counter(c) == 0
        &&& forall|g: GaugeId| #[trigger] self.gauge(g) == 0
        &&& forall|h: HistogramId|
            #![trigger self.histogram(h)]
            self.histogram(h).count() == 0 && self.histogram(h).sum() == 0
                && self.histogram(h).buckets() == Seq::new(self.histogram(h).bounds().len(), |i: int| 0u64)
        &&& forall|s: SeriesId, l: Seq<char>| #[trigger] self.series(s).count_of(l) == 0
    }

    /// Some description is that of counter `c`.
    pub open spec fn describes_counter(&self, c: CounterId) -> bool {
        exists|i: int| 0 <= i < self.descriptions().len() && counter_desc_ok(#[trigger] self.descriptions()[i], c)
    }

    /// Some description is that of gauge `g`.
    pub open spec fn describes_gauge(&self, g: GaugeId) -> bool {
        exists|i: int| 0 <= i < self.descriptions().len() && gauge_desc_ok(#[trigger] self.descriptions()[i], g)
    }

    /// Some description is that of histogram `h`.
    pub open spec fn describes_histogram(&self, h: HistogramId) -> bool {
        exists|i: int| 0 <= i < self.descriptions().len() && histogram_desc_ok(#[trigger] self.descriptions()[i], h)
    }

    /// Every instrument of the tables is described with its name, kind,
    /// help text, unit, bucket bounds and label keys.
    pub open spec fn describes_all(&self) -> bool {
        &&& forall|c: CounterId| #[trigger] self.describes_counter(c)
        &&& forall|g: GaugeId| #[trigger] self.describes_gauge(g)
        &&& forall|h: HistogramId| #[trigger] self.describes_histogram(h)
        &&& exists|i: int| 0 <= i < self.descriptions().len() && shard_desc_ok(#[trigger] self.descriptions()[i])
    }

    /// Describes every instrument to the registry and to the recorder, then
    /// takes a handle to each from the recorder. Only `initialize` calls it,
    /// and only for an empty slot, so nothing is described twice.
    pub(crate) fn new() -> (r: Result<Self, MetricsError>)
        ensures
            r matches Ok(m) && m.wf() && m.is_fresh() && m.describes_all()
                && m.descriptions().len() == NUM_COUNTERS + NUM_GAUGES + NUM_HISTOGRAMS + 1,
    {
        proof {
            lemma_instrument_names_distinct();
        }
        let mut registry = InstrumentRegistry::new();
        let mut counters: Vec<u64> = Vec::new();
        let mut counter_handles: Vec<metrics::Counter> = Vec::new();
        let mut i: usize = 0;
        while i < NUM_COUNTERS
            invariant
                i <= NUM_COUNTERS,
                registry.wf(),
                registry.view().len() == i,
                counters@.len() == i,
                counter_handles@.len() == i,
                forall|k: int| 0 <= k < i ==> #[trigger] counters@[k] == 0,
                forall|k: int| 0 <= k < i ==> counter_desc_ok(#[trigger] registry.view()[k], CounterId::at_spec(k)),
                forall|c: CounterId, d: CounterId| c != d ==> #[trigger] c.spec_name() != #[trigger] d.spec_name(),
            decreases NUM_COUNTERS - i,
        {
            let c = CounterId::at(i);
            let name = c.name();
            let d = InstrumentDesc {
                name: String::from_str(name),
                kind: InstrumentKind::Counter,
                help: String::from_str(c.help()),
                unit: None,
                buckets: Vec::new(),
                label_keys: Vec::new(),
            };
            proof {
                assert forall|k: int| 0 <= k < registry.view().len() implies (#[trigger] registry.view()[k]).name@ != d.name@ by {
                    CounterId::lemma_at_spec(k);
                    CounterId::lemma_at_spec(i as int);
                }
            }
            match registry.describe(d) {
                Ok(()) => {},
                Err(e) => return Err(e),
            }
            sink::describe_counter(name, c.help(), None);
            counter_handles.push(sink::register_counter(name, &Vec::new()));
            counters.push(0);
            i = i + 1;
        }
        let ghost nc = NUM_COUNTERS as int;
        let mut gauges: Vec<i64> = Vec::new();
        let mut gauge_handles: Vec<metrics::Gauge> = Vec::new();
        let mut i: usize = 0;
        while i < NUM_GAUGES
            invariant
                i <= NUM_GAUGES,
                nc == NUM_COUNTERS,
                registry.wf(),
                registry.view().len() == nc + i,
                gauges@.len() == i,
                gauge_handles@.len() == i,
                forall|k: int| 0 <= k < i ==> #[trigger] gauges@[k] == 0,
                forall|k: int| 0 <= k < nc ==> counter_desc_ok(#[trigger] registry.view()[k], CounterId::at_spec(k)),
                forall|k: int| nc <= k < nc + i ==> gauge_desc_ok(#[trigger] registry.view()[k], GaugeId::at_spec(k - nc)),
                forall|c: GaugeId, d: GaugeId| c != d ==> #[trigger] c.spec_name() != #[trigger] d.spec_name(),
                forall|c: CounterId, d: GaugeId| #[trigger] c.spec_name() != #[trigger] d.spec_name(),
            decreases NUM_GAUGES - i,
        {
            let g = GaugeId::at(i);
            let name = g.name();
            let d = InstrumentDesc {
                name: String::from_str(name),
                kind: InstrumentKind::Gauge,
                help: String::from_str(g.help()),
                unit: None,
                buckets: Vec::new(),
                label_keys: Vec::new(),
            };
            proof {
                assert forall|k: int| 0 <= k < registry.view().len() implies (#[trigger] registry.view()[k]).name@ != d.name@ by {
                    if k >= nc {
                        GaugeId::lemma_at_spec(k - nc);
                        GaugeId::lemma_at_spec(i as int);
                    }
                }
            }
            match registry.describe(d) {
                Ok(()) => {},
                Err(e) => return Err(e),
            }
            sink::describe_gauge(name, g.help(), None);
            gauge_handles.push(sink::register_gauge(name));
            gauges.push(0);
            i = i + 1;
        }
        let ghost ng = nc + NUM_GAUGES as int;
        let mut histograms: Vec<HistogramTally> = Vec::new();
        let mut histogram_handles: Vec<metrics::Histogram> = Vec::new();
        let mut i: usize = 0;
        while i < NUM_HISTOGRAMS
            invariant
                i <= NUM_HISTOGRAMS,
                nc == NUM_COUNTERS,
                ng == nc + NUM_GAUGES,
                registry.wf(),
                registry.view().len() == ng + i,
                histograms@.len() == i,
                histogram_handles@.len() == i,
                forall|k: int| 0 <= k < i ==> (#[trigger] histograms@[k]).wf() && histograms@[k].count() == 0
                    && histograms@[k].sum() == 0
                    && histograms@[k].buckets() == Seq::new(histograms@[k].bounds().len(), |j: int| 0u64),
                forall|k: int| 0 <= k < nc ==> counter_desc_ok(#[trigger] registry.view()[k], CounterId::at_spec(k)),
                forall|k: int| nc <= k < ng ==> gauge_desc_ok(#[trigger] registry.view()[k], GaugeId::at_spec(k - nc)),
                forall|k: int| ng <= k < ng + i ==> histogram_desc_ok(#[trigger] registry.view()[k], HistogramId::at_spec(k - ng)),
                forall|c: HistogramId, d: HistogramId| c != d ==> #[trigger] c.spec_name() != #[trigger] d.spec_name(),
                forall|c: CounterId, d: HistogramId| #[trigger] c.spec_name() != #[trigger] d.spec_name(),
                forall|c: GaugeId, d: HistogramId| #[trigger] c.spec_name() != #[trigger] d.spec_name(),
            decreases NUM_HISTOGRAMS - i,
        {
            let h = HistogramId::at(i);
            let name = h.name();
            let d = InstrumentDesc {
                name: String::from_str(name),
                kind: InstrumentKind::Histogram,
                help: String::from_str(h.help()),
                unit: h.unit(),
                buckets: h.bucket_bounds(),
                label_keys: Vec::new(),
            };
            proof {
                assert forall|k: int| 0 <= k < registry.view().len() implies (#[trigger] registry.view()[k]).name@ != d.name@ by {
                    if k >= ng {
                        HistogramId::lemma_at_spec(k - ng);
                        HistogramId::lemma_at_spec(i as int);
                    }
                }
            }
            match registry.describe(d) {
                Ok(()) => {},
                Err(e) => return Err(e),
            }
            sink::describe_histogram(name, h.help(), h.unit());
            histogram_handles.push(sink::register_histogram(name));
            histograms.push(HistogramTally::new(h.bucket_bounds()));
            i = i + 1;
        }
        let ghost nh = ng + NUM_HISTOGRAMS as int;
        let shard = SeriesId::ShardOperations;
        let d = InstrumentDesc {
            name: String::from_str(shard.name()),
            kind: InstrumentKind::Counter,
            help: String::from_str(shard_counter_help_text()),
            unit: None,
            buckets: Vec::new(),
            label_keys: vec![String::from_str(shard.label_key())],
        };
        proof {
            assert forall|k: int| 0 <= k < registry.view().len() implies (#[trigger] registry.view()[k]).name@ != d.name@ by {
                if k < nc {
                    assert(counter_desc_ok(registry.view()[k], CounterId::at_spec(k)));
                } else if k < ng {
                    assert(gauge_desc_ok(registry.view()[k], GaugeId::at_spec(k - nc)));
                } else {
                    assert(histogram_desc_ok(registry.view()[k], HistogramId::at_spec(k - ng)));
                }
            }
        }
        match registry.describe(d) {
            Ok(()) => {},
            Err(e) => return Err(e),
        }
        sink::describe_counter(shard.name(), shard_counter_help_text(), None);
        let series = vec![
            LabeledSeries::new(),
            LabeledSeries::new(),
            LabeledSeries::new(),
            LabeledSeries::new(),
            LabeledSeries::new(),
        ];
        let m = BrokerMetrics {
            registry,
            counters,
            counter_handles,
            gauges,
            gauge_handles,
            histograms,
            histogram_handles,
            series,
        };
        proof {
            assert forall|c: CounterId| #[trigger] m.describes_counter(c) by {
                c.lemma_idx();
                assert(counter_desc_ok(m.descriptions()[c.idx()], c));
            }
            assert forall|g: GaugeId| #[trigger] m.describes_gauge(g) by {
                g.lemma_idx();
                assert(gauge_desc_ok(m.descriptions()[nc + g.idx()], g));
            }
            assert forall|h: HistogramId| #[trigger] m.describes_histogram(h) by {
                h.lemma_idx();
                assert(histogram_desc_ok(m.descriptions()[ng + h.idx()], h));
            }
            assert(shard_desc_ok(m.descriptions()[nh]));
            assert forall|h: HistogramId| #![trigger m.histogram(h)] m.histogram(h).count() == 0 by {
                h.lemma_idx();
                assert(m.histograms@[h.idx()].count() == 0);
            }
        }
        Ok(m)
    }

    /// Builds the metrics in `slot` unless they are already there: a second
    /// call describes nothing again and leaves `slot` as it was.
    pub fn initialize(slot: &mut Option<BrokerMetrics>) -> (r: Result<(), MetricsError>)
        ensures
            old(slot).is_some() ==> r is Ok && *final(slot) == *old(slot),
            old(slot).is_none() ==> r is Ok && (*final(slot) matches Some(m) && m.wf() && m.is_fresh()
                && m.describes_all()),
    {
        if slot.is_some() {
            return Ok(());
        }
        match BrokerMetrics::new() {
            Ok(m) => {
                *slot = Some(m);
                Ok(())
            },
            Err(e) => Err(e),
        }
    }

    /// A message came in.
    pub fn record_message_received(&mut self)
        requires
            old(self).wf(),
        ensures
            final(self).kept(old(self), set![CounterId::MessagesReceived], Set::empty(), Set::empty(), Set::empty()),
            final(self).bumped(old(self), CounterId::MessagesReceived, 1),
    {
        self.bump(CounterId::MessagesReceived, 1);
    }

    /// A message was rejected as invalid.
    pub fn record_message_invalid(&mut self)
        requires
            old(self).wf(),
        ensures
            final(self).kept(old(self), set![CounterId::MessagesInvalid], Set::empty(), Set::empty(), Set::empty()),
            final(self).bumped(old(self), CounterId::MessagesInvalid, 1),
    {
        self.bump(CounterId::MessagesInvalid, 1);
    }

    /// A message was dropped for `reason`: the drop counter and the
    /// reason's entry of the breakdown each grow by one.
    pub fn record_message_dropped(&mut self, reason: &str)
        requires
            old(self).wf(),
        ensures
            final(self).kept(old(self), set![CounterId::MessagesDropped], Set::empty(), Set::empty(), set![SeriesId::DroppedReason]),
            final(self).bumped(old(self), CounterId::MessagesDropped, 1),
            final(self).labelled(old(self), SeriesId::DroppedReason, reason@),
    {
        self.bump(CounterId::MessagesDropped, 1);
        self.label(SeriesId::DroppedReason, reason);
    }

    /// A message went out to `recipient_count` recipients.
    pub fn record_message_sent(&mut self, recipient_count: u64)
        requires
            old(self).wf(),
        ensures
            final(self).kept(old(self), set![CounterId::MessagesSent], Set::empty(), Set::empty(), Set::empty()),
            final(self).bumped(old(self), CounterId::MessagesSent, recipient_count),
    {
        self.bump(CounterId::MessagesSent, recipient_count);
    }

    /// A message could not be sent, for `reason`.
    pub fn record_message_failed(&mut self, reason: &str)
        requires
            old(self).wf(),
        ensures
            final(self).kept(old(self), set![CounterId::MessagesFailed], Set::empty(), Set::empty(), set![SeriesId::FailedReason]),
            final(self).bumped(old(self), CounterId::MessagesFailed, 1),
            final(self).labelled(old(self), SeriesId::FailedReason, reason@),
    {
        self.bump(CounterId::MessagesFailed, 1);
        self.label(SeriesId::FailedReason, reason);
    }

    /// A fanout to `recipient_count` recipients took `latency_micros`
    /// microseconds. The tally keeps the exact count; the exporter's
    /// recipients histogram receives it held at most at `u32::MAX`.
    pub fn record_fanout_operation(&mut self, recipient_count: u64, latency_micros: u64)
        requires
            old(self).wf(),
        ensures
            final(self).kept(
                old(self),
                set![CounterId::FanoutOperations],
                Set::empty(),
                set![HistogramId::FanoutLatency, HistogramId::FanoutRecipients],
                Set::empty(),
            ),
            final(self).bumped(old(self), CounterId::FanoutOperations, 1),
            final(self).observed(old(self), HistogramId::FanoutLatency, latency_micros),
            final(self).observed(old(self), HistogramId::FanoutRecipients, recipient_count),
    {
        self.bump(CounterId::FanoutOperations, 1);
        self.observe(HistogramId::FanoutLatency, latency_micros);
        self.observe(HistogramId::FanoutRecipients, recipient_count);
    }

    /// A routing lookup was served from the cache.
    pub fn record_routing_cache_hit(&mut self)
        requires
            old(self).wf(),
        ensures
            final(self).kept(old(self), set![CounterId::RoutingCacheHits], Set::empty(), Set::empty(), Set::empty()),
            final(self).bumped(old(self), CounterId::RoutingCacheHits, 1),
    {
        self.bump(CounterId::RoutingCacheHits, 1);
    }

    /// A routing lookup missed the cache.
    pub fn record_routing_cache_miss(&mut self)
        requires
            old(self).wf(),
        ensures
            final(self).kept(old(self), set![CounterId::RoutingCacheMisses], Set::empty(), Set::empty(), Set::empty()),
            final(self).bumped(old(self), CounterId::RoutingCacheMisses, 1),
    {
        self.bump(CounterId::RoutingCacheMisses, 1);
    }

    /// `count` messages were published to the transport.
    pub fn record_nats_published(&mut self, count: u64)
        requires
            old(self).wf(),
        ensures
            final(self).kept(old(self), set![CounterId::NatsPublished], Set::empty(), Set::empty(), Set::empty()),
            final(self).bumped(old(self), CounterId::NatsPublished, count),
    {
        self.bump(CounterId::NatsPublished, count);
    }

    /// The transport reported an error of kind `error`.
    pub fn record_nats_error(&mut self, error: &str)
        requires
            old(self).wf(),
        ensures
            final(self).kept(old(self), set![CounterId::NatsErrors], Set::empty(), Set::empty(), set![SeriesId::NatsErrorType]),
            final(self).bumped(old(self), CounterId::NatsErrors, 1),
            final(self).labelled(old(self), SeriesId::NatsErrorType, error@),
    {
        self.bump(CounterId::NatsErrors, 1);
        self.label(SeriesId::NatsErrorType, error);
    }

    /// There are now `count` gateway connections. The exporter's gauge is
    /// set to `count` kept within the range of `i32`.
    pub fn update_active_connections(&mut self, count: i64)
        requires
            old(self).wf(),
        ensures
            final(self).kept(old(self), Set::empty(), set![GaugeId::ActiveConnections], Set::empty(), Set::empty()),
            final(self).gauge(GaugeId::ActiveConnections) == count,
    {
        self.set_gauge(GaugeId::ActiveConnections, count);
    }

    /// There are now `count` routing topics. The exporter's gauge is set to
    /// `count` kept within the range of `i32`.
    pub fn update_active_topics(&mut self, count: i64)
        requires
            old(self).wf(),
        ensures
            final(self).kept(old(self), Set::empty(), set![GaugeId::ActiveTopics], Set::empty(), Set::empty()),
            final(self).gauge(GaugeId::ActiveTopics) == count,
    {
        self.set_gauge(GaugeId::ActiveTopics, count);
    }

    /// `user_id` hit a rate limit.
    pub fn record_rate_limit_hit(&mut self, user_id: &str)
        requires
            old(self).wf(),
        ensures
            final(self).kept(old(self), set![CounterId::RateLimitHits], Set::empty(), Set::empty(), set![SeriesId::RateLimitUser]),
            final(self).bumped(old(self), CounterId::RateLimitHits, 1),
            final(self).labelled(old(self), SeriesId::RateLimitUser, user_id@),
    {
        self.bump(CounterId::RateLimitHits, 1);
        self.label(SeriesId::RateLimitUser, user_id);
    }

    /// An operation ran on routing shard `shard_id`: the entry of the
    /// per-shard counter vector labelled with the shard id in decimal grows
    /// by one.
    pub fn record_shard_operation(&mut self, shard_id: u64)
        requires
            old(self).wf(),
        ensures
            final(self).kept(old(self), Set::empty(), Set::empty(), Set::empty(), set![SeriesId::ShardOperations]),
            final(self).labelled(old(self), SeriesId::ShardOperations, decimal_text(shard_id as nat)),
    {
        let mut label = String::new();
        append_decimal(&mut label, shard_id);
        assert(label@ =~= decimal_text(shard_id as nat));
        self.label(SeriesId::ShardOperations, label.as_str());
    }

    /// Backpressure was applied.
    pub fn record_backpressure_event(&mut self)
        requires
            old(self).wf(),
        ensures
            final(self).kept(old(self), set![CounterId::BackpressureEvents], Set::empty(), Set::empty(), Set::empty()),
            final(self).bumped(old(self), CounterId::BackpressureEvents, 1),
    {
        self.bump(CounterId::BackpressureEvents, 1);
    }

    /// Ingress of one message took `latency_micros` microseconds.
    pub fn record_ingress_latency(&mut self, latency_micros: u64)
        requires
            old(self).wf(),
        ensures
            final(self).kept(old(self), Set::empty(), Set::empty(), set![HistogramId::IngressLatency], Set::empty()),
            final(self).observed(old(self), HistogramId::IngressLatency, latency_micros),
    {
        self.observe(HistogramId::IngressLatency, latency_micros);
    }

    /// Egress of one message took `latency_micros` microseconds.
    pub fn record_egress_latency(&mut self, latency_micros: u64)
        requires
            old(self).wf(),
        ensures
            final(self).kept(old(self), Set::empty(), Set::empty(), set![HistogramId::EgressLatency], Set::empty()),
            final(self).observed(old(self), HistogramId::EgressLatency, latency_micros),
    {
        self.observe(HistogramId::EgressLatency, latency_micros);
    }

    /// Processing of one message took `micros` microseconds.
    pub fn record_processing_latency(&mut self, micros: u64)
        requires
            old(self).wf(),
        ensures
            final(self).kept(old(self), Set::empty(), Set::empty(), set![HistogramId::ProcessingLatency], Set::empty()),
            final(self).observed(old(self), HistogramId::ProcessingLatency, micros),
    {
        self.observe(HistogramId::ProcessingLatency, micros);
    }

    /// A timer for one message's processing, started now.
    pub fn start_processing_timer(&self) -> (r: ProcessingTimer) {
        ProcessingTimer::new()
    }

    /// Current value of counter `id`.
    pub fn counter_value(&self, id: CounterId) -> (r: u64)
        requires
            self.wf(),
        ensures
            r == self.counter(id),
    {
        self.counters[id.slot()]
    }

    /// Current value of gauge `id`.
    pub fn gauge_value(&self, id: GaugeId) -> (r: i64)
        requires
            self.wf(),
        ensures
            r == self.gauge(id),
    {
        self.gauges[id.slot()]
    }

    /// The tally of histogram `id`.
    pub fn histogram_tally(&self, id: HistogramId) -> (r: &HistogramTally)
        requires
            self.wf(),
        ensures
            *r == self.histogram(id),
    {
        &self.histograms[id.slot()]
    }

    /// Count held for `label` in the breakdown `id`.
    pub fn series_value(&self, id: SeriesId, label: &str) -> (r: u64)
        requires
            self.wf(),
        ensures
            r == self.series(id).count_of(label@),
    {
        let i = id.slot();
        assert(self.series@[i as int].wf());
        self.series[i].get(label)
    }

    /// The described instruments.
    pub fn registry(&self) -> (r: &InstrumentRegistry)
        ensures
            r.view() == self.descriptions(),
            self.wf() ==> r.wf(),
    {
        &self.registry
    }
}

/// One in-flight measurement of message processing. `record` consumes it,
/// so it records at most once; a timer dropped unrecorded records nothing.
pub struct ProcessingTimer {
    start: std::time::Instant,
}

impl ProcessingTimer {
    fn new() -> Self {
        ProcessingTimer { start: sink::instant_now() }
    }

    /// Records the microseconds since the timer started (held at most at
    /// `u64::MAX`) as one observation of the processing-latency histogram.
    pub fn record(self, metrics: &mut BrokerMetrics)
        requires
            old(metrics).wf(),
        ensures
            final(metrics).kept(old(metrics), Set::empty(), Set::empty(), set![HistogramId::ProcessingLatency], Set::empty()),
            exists|v: u64| final(metrics).observed(old(metrics), HistogramId::ProcessingLatency, v),
    {
        let micros = saturate_u64(sink::micros_since(&self.start));
        metrics.record_processing_latency(micros);
    }
}

} // verus!
