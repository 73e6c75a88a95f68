//! The instrument registry: each instrument is described once, under a
//! name that no other instrument carries.

use vstd::prelude::*;
use vstd::string::StringExecFns;

verus! {

/// What an instrument measures and how its value moves.
#[derive(Clone, Copy, Debug, PartialEq, Eq, Structural)]
pub enum InstrumentKind {
    Counter,
    Gauge,
    Histogram,
}

/// The unit attached to an instrument's description.
#[derive(Clone, Copy, Debug, PartialEq, Eq, Structural)]
pub enum MetricUnit {
    Seconds,
}

/// Errors of the metrics layer.
#[derive(Clone, Debug, PartialEq, Eq)]
pub enum MetricsError {
    /// An instrument of this name has already been described.
    AlreadyDescribed(String),
}

/// The metadata an instrument is described with.
///
/// Histogram bucket bounds are upper bounds, in the histogram's base unit
/// (microseconds for latencies, a plain number for counts).
#[derive(Clone, Debug)]
pub struct InstrumentDesc {
    pub name: String,
    pub kind: InstrumentKind,
    pub help: String,
    pub unit: Option<MetricUnit>,
    pub buckets: Vec<u64>,
    /// Label keys of a counter vector, fixed when it is described; empty
    /// for a plain instrument.
    pub label_keys: Vec<String>,
}

/// True when some description in `s` carries the name `n`.
pub open spec fn has_name(s: Seq<InstrumentDesc>, n: Seq<char>) -> bool {
    exists|i: int| 0 <= i < s.len() && (#[trigger] s[i]).name@ == n
}

/// True when no two descriptions in `s` carry the same name.
pub open spec fn names_unique(s: Seq<InstrumentDesc>) -> bool {
    forall|i: int, j: int|
        0 <= i < s.len() && 0 <= j < s.len() && i != j ==> (#[trigger] s[i]).name@ != (#[trigger] s[j]).name@
}

/// The set of described instruments, in the order they were described.
pub struct InstrumentRegistry {
    descs: Vec<InstrumentDesc>,
}

impl InstrumentRegistry {
    pub closed spec fn view(&self) -> Seq<InstrumentDesc> {
        self.descs@
    }

    pub open spec fn wf(&self) -> bool {
        names_unique(self.view())
    }

    /// A registry with nothing described.
    pub fn new() -> (r: Self)
        ensures
            r.view() =~= Seq::<InstrumentDesc>::empty(),
            r.wf(),
    {
        InstrumentRegistry { descs: Vec::new() }
    }

    /// Number of described instruments.
    pub fn len(&self) -> (r: usize)
        ensures
            r == self.view().len(),
    {
        self.descs.len()
    }

    /// The description at position `i`, in order of description.
    pub fn get(&self, i: usize) -> (r: &InstrumentDesc)
        requires
            i < self.view().len(),
        ensures
            *r == self.view()[i as int],
    {
        &self.descs[i]
    }

    /// Position of the description named `name`, if there is one.
    pub fn position(&self, name: &str) -> (r: Option<usize>)
        requires
            self.wf(),
        ensures
            r is None <==> !has_name(self.view(), name@),
            r matches Some(i) ==> i < self.view().len() && self.view()[i as int].name@ == name@,
    {
        let needle = String::from_str(name);
        let mut i: usize = 0;
        while i < self.descs.len()
            invariant
                i <= self.descs@.len(),
                needle@ == name@,
                forall|k: int| 0 <= k < i ==> (#[trigger] self.descs@[k]).name@ != name@,
            decreases self.descs@.len() - i,
        {
            let cur = &self.descs[i];
            if cur.name == needle {
                assert(self.view()[i as int].name@ == name@);
                return Some(i);
            }
            assert(self.descs@[i as int].name@ != name@);
            i = i + 1;
        }
        None
    }

    /// The description named `name`, if there is one. With unique names
    /// there is at most one.
    pub fn lookup(&self, name: &str) -> (r: Option<&InstrumentDesc>)
        requires
            self.wf(),
        ensures
            r is None <==> !has_name(self.view(), name@),
            r matches Some(d) ==> d.name@ == name@ && exists|i: int|
                0 <= i < self.view().len() && self.view()[i] == *d,
    {
        match self.position(name) {
            Some(i) => Some(&self.descs[i]),
            None => None,
        }
    }

    /// Describes an instrument. A name that is already described is refused
    /// and the registry is left as it was.
    pub fn describe(&mut self, d: InstrumentDesc) -> (r: Result<(), MetricsError>)
        requires
            old(self).wf(),
        ensures
            final(self).wf(),
            has_name(old(self).view(), d.name@) ==> r is Err && final(self).view() == old(self).view(),
            !has_name(old(self).view(), d.name@) ==> r is Ok && final(self).view() == old(self).view().push(d),
    {
        match self.position(d.name.as_str()) {
            Some(_) => Err(MetricsError::AlreadyDescribed(d.name)),
            None => {
                self.descs.push(d);
                Ok(())
            }
        }
    }
}

} // verus!
