//! Metric samples exported by the daemon.
use vstd::prelude::*;
use crate::clock::now_utc;
use crate::domain::number::Real64;
use crate::text::concat2;

verus! {

#[derive(Debug)]
pub enum MetricValue {
    Gauge(Real64),
    Counter(u64),
    Histogram(Vec<Real64>),
}

#[derive(Debug)]
pub struct MetricLabel {
    pub name: String,
    pub value: String,
}

#[derive(Debug)]
pub struct MetricSample {
    pub name: String,
    pub value: MetricValue,
    pub labels: Vec<MetricLabel>,
    pub timestamp: String,
}

#[derive(Debug)]
pub struct MetricCollection {
    pub samples: Vec<MetricSample>,
    pub source: String,
}

/// `s` is the sample named `name` with value `value`, labelled only `service=<service>`,
/// and stamped with a non-empty timestamp.
pub open spec fn is_service_sample(
    s: MetricSample,
    name: Seq<char>,
    service: Seq<char>,
    value: MetricValue,
) -> bool {
    &&& s.name@ == name
    &&& s.value == value
    &&& s.labels@.len() == 1
    &&& s.labels@[0].name@ == "service"@
    &&& s.labels@[0].value@ == service
    &&& crate::clock::is_timestamp(s.timestamp@)
}

/// `after` is `before` with exactly one sample appended, which satisfies
/// `is_service_sample(.., name, service, value)`.
pub open spec fn appended_sample(
    before: MetricCollection,
    after: MetricCollection,
    name: Seq<char>,
    service: Seq<char>,
    value: MetricValue,
) -> bool {
    &&& after.source == before.source
    &&& after.samples@.len() == before.samples@.len() + 1
    &&& after.samples@.subrange(0, before.samples@.len() as int) == before.samples@
    &&& is_service_sample(after.samples@.last(), name, service, value)
}

impl MetricCollection {
    fn push_sample(self, name: String, service: &str, value: MetricValue) -> (c: Self)
        ensures
            appended_sample(self, c, name@, service@, value),
    {
        let mut c = self;
        let mut labels: Vec<MetricLabel> = Vec::new();
        labels.push(MetricLabel { name: "service".to_owned(), value: service.to_owned() });
        let timestamp = now_utc();
        let ghost before = c.samples@;
        c.samples.push(MetricSample { name, value, labels, timestamp });
        assert(c.samples@.subrange(0, before.len() as int) =~= before);
        c
    }

    /// Appends a `incident_count` gauge labelled `service=daemon`.
    pub fn with_incident_count(self, count: Real64) -> (c: Self)
        ensures
            appended_sample(self, c, "incident_count"@, "daemon"@, MetricValue::Gauge(count)),
    {
        self.push_sample("incident_count".to_owned(), "daemon", MetricValue::Gauge(count))
    }

    /// Appends a `safety_veto_count` gauge labelled `service=daemon`.
    pub fn with_safety_veto_count(self, count: Real64) -> (c: Self)
        ensures
            appended_sample(self, c, "safety_veto_count"@, "daemon"@, MetricValue::Gauge(count)),
    {
        self.push_sample("safety_veto_count".to_owned(), "daemon", MetricValue::Gauge(count))
    }

    /// Appends a `safety_escalations` gauge labelled `service=daemon`.
    pub fn with_safety_escalations(self, count: Real64) -> (c: Self)
        ensures
            appended_sample(self, c, "safety_escalations"@, "daemon"@, MetricValue::Gauge(count)),
    {
        self.push_sample("safety_escalations".to_owned(), "daemon", MetricValue::Gauge(count))
    }

    /// Appends a `safety_freeze_ticks` gauge labelled `service=daemon`.
    pub fn with_safety_freeze_ticks(self, count: Real64) -> (c: Self)
        ensures
            appended_sample(self, c, "safety_freeze_ticks"@, "daemon"@, MetricValue::Gauge(count)),
    {
        self.push_sample("safety_freeze_ticks".to_owned(), "daemon", MetricValue::Gauge(count))
    }

    /// Appends a `safety_selective_vetoes` gauge labelled `service=daemon`.
    pub fn with_safety_selective_vetoes(self, count: Real64) -> (c: Self)
        ensures
            appended_sample(self, c, "safety_selective_vetoes"@, "daemon"@, MetricValue::Gauge(count)),
    {
        self.push_sample("safety_selective_vetoes".to_owned(), "daemon", MetricValue::Gauge(count))
    }

    /// Appends a `safety_global_vetoes` gauge labelled `service=daemon`.
    pub fn with_safety_global_vetoes(self, count: Real64) -> (c: Self)
        ensures
            appended_sample(self, c, "safety_global_vetoes"@, "daemon"@, MetricValue::Gauge(count)),
    {
        self.push_sample("safety_global_vetoes".to_owned(), "daemon", MetricValue::Gauge(count))
    }

    /// Appends a `executor_successful_mutations` gauge labelled `service=daemon`.
    pub fn with_executor_successful_mutations(self, count: Real64) -> (c: Self)
        ensures
            appended_sample(self, c, "executor_successful_mutations"@, "daemon"@, MetricValue::Gauge(count)),
    {
        self.push_sample("executor_successful_mutations".to_owned(), "daemon", MetricValue::Gauge(count))
    }

    /// Appends a `executor_failed_mutations` gauge labelled `service=daemon`.
    pub fn with_executor_failed_mutations(self, count: Real64) -> (c: Self)
        ensures
            appended_sample(self, c, "executor_failed_mutations"@, "daemon"@, MetricValue::Gauge(count)),
    {
        self.push_sample("executor_failed_mutations".to_owned(), "daemon", MetricValue::Gauge(count))
    }

    /// Appends a `executor_rollback_count` gauge labelled `service=daemon`.
    pub fn with_executor_rollback_count(self, count: Real64) -> (c: Self)
        ensures
            appended_sample(self, c, "executor_rollback_count"@, "daemon"@, MetricValue::Gauge(count)),
    {
        self.push_sample("executor_rollback_count".to_owned(), "daemon", MetricValue::Gauge(count))
    }

    /// Appends a `executor_cpu_weight_changes` gauge labelled `service=daemon`.
    pub fn with_executor_cpu_weight_changes(self, count: Real64) -> (c: Self)
        ensures
            appended_sample(self, c, "executor_cpu_weight_changes"@, "daemon"@, MetricValue::Gauge(count)),
    {
        self.push_sample("executor_cpu_weight_changes".to_owned(), "daemon", MetricValue::Gauge(count))
    }

    /// Appends a `executor_cpu_max_changes` gauge labelled `service=daemon`.
    pub fn with_executor_cpu_max_changes(self, count: Real64) -> (c: Self)
        ensures
            appended_sample(self, c, "executor_cpu_max_changes"@, "daemon"@, MetricValue::Gauge(count)),
    {
        self.push_sample("executor_cpu_max_changes".to_owned(), "daemon", MetricValue::Gauge(count))
    }

    /// Appends a `executor_memory_max_changes` gauge labelled `service=daemon`.
    pub fn with_executor_memory_max_changes(self, count: Real64) -> (c: Self)
        ensures
            appended_sample(self, c, "executor_memory_max_changes"@, "daemon"@, MetricValue::Gauge(count)),
    {
        self.push_sample("executor_memory_max_changes".to_owned(), "daemon", MetricValue::Gauge(count))
    }

    /// Appends a `classification_count` gauge labelled `service=intelligence`.
    pub fn with_classification_count(self, count: Real64) -> (c: Self)
        ensures
            appended_sample(self, c, "classification_count"@, "intelligence"@, MetricValue::Gauge(count)),
    {
        self.push_sample("classification_count".to_owned(), "intelligence", MetricValue::Gauge(count))
    }

    /// Appends a `classification_<class>` gauge labelled `service=intelligence`.
    pub fn with_classification_class(self, class: &str, count: Real64) -> (c: Self)
        ensures
            appended_sample(
                self,
                c,
                "classification_"@ + class@,
                "intelligence"@,
                MetricValue::Gauge(count),
            ),
    {
        let name = concat2("classification_", class);
        self.push_sample(name, "intelligence", MetricValue::Gauge(count))
    }

    /// Appends a `recommendations_consumed` gauge labelled `service=bridge`.
    pub fn with_recommendations_consumed(self, count: Real64) -> (c: Self)
        ensures
            appended_sample(self, c, "recommendations_consumed"@, "bridge"@, MetricValue::Gauge(count)),
    {
        self.push_sample("recommendations_consumed".to_owned(), "bridge", MetricValue::Gauge(count))
    }

    /// Appends a `recommendations_ignored` gauge labelled `service=bridge`.
    pub fn with_recommendations_ignored(self, count: Real64) -> (c: Self)
        ensures
            appended_sample(self, c, "recommendations_ignored"@, "bridge"@, MetricValue::Gauge(count)),
    {
        self.push_sample("recommendations_ignored".to_owned(), "bridge", MetricValue::Gauge(count))
    }

    /// Appends a `recommendations_converted` gauge labelled `service=bridge`.
    pub fn with_recommendations_converted(self, count: Real64) -> (c: Self)
        ensures
            appended_sample(self, c, "recommendations_converted"@, "bridge"@, MetricValue::Gauge(count)),
    {
        self.push_sample("recommendations_converted".to_owned(), "bridge", MetricValue::Gauge(count))
    }

    /// Appends a `classifications_skipped_total` counter labelled `service=intelligence`.
    /// The count is the already-truncated integer value.
    pub fn with_classifications_skipped(self, count: u64) -> (c: Self)
        ensures
            appended_sample(
                self,
                c,
                "classifications_skipped_total"@,
                "intelligence"@,
                MetricValue::Counter(count),
            ),
    {
        self.push_sample(
            "classifications_skipped_total".to_owned(),
            "intelligence",
            MetricValue::Counter(count),
        )
    }
}


impl Clone for MetricLabel {
    fn clone(&self) -> (r: Self)
        ensures
            r == *self,
    {
        MetricLabel { name: self.name.clone(), value: self.value.clone() }
    }
}

/// `r` is a copy of `v`: the same variant and value (a histogram's samples compared as a
/// sequence).
pub open spec fn value_copy(r: MetricValue, v: MetricValue) -> bool {
    match (r, v) {
        (MetricValue::Gauge(a), MetricValue::Gauge(b)) => a == b,
        (MetricValue::Counter(a), MetricValue::Counter(b)) => a == b,
        (MetricValue::Histogram(a), MetricValue::Histogram(b)) => a@ == b@,
        _ => false,
    }
}

impl Clone for MetricValue {
    fn clone(&self) -> (r: Self)
        ensures
            value_copy(r, *self),
    {
        match self {
            MetricValue::Gauge(g) => MetricValue::Gauge(*g),
            MetricValue::Counter(c) => MetricValue::Counter(*c),
            MetricValue::Histogram(h) => {
                let v = h.clone();
                proof {
                    assert(v@ =~= h@);
                }
                MetricValue::Histogram(v)
            },
        }
    }
}

/// `r` is a copy of `s`.
pub open spec fn sample_copy(r: MetricSample, s: MetricSample) -> bool {
    &&& r.name == s.name
    &&& value_copy(r.value, s.value)
    &&& r.labels@ == s.labels@
    &&& r.timestamp == s.timestamp
}

impl Clone for MetricSample {
    fn clone(&self) -> (r: Self)
        ensures
            sample_copy(r, *self),
    {
        let labels = self.labels.clone();
        proof {
            assert(labels@ =~= self.labels@);
        }
        MetricSample {
            name: self.name.clone(),
            value: self.value.clone(),
            labels,
            timestamp: self.timestamp.clone(),
        }
    }
}

impl Clone for MetricCollection {
    fn clone(&self) -> (r: Self)
        ensures
            r.source == self.source,
            r.samples@.len() == self.samples@.len(),
            forall|i: int| 0 <= i < r.samples@.len() ==> sample_copy(#[trigger] r.samples@[i], self.samples@[i]),
    {
        MetricCollection { samples: self.samples.clone(), source: self.source.clone() }
    }
}

} // verus!
