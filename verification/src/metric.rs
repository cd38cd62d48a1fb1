//! Metrics that services export: which services export them and how they
//! are listed.
use vstd::prelude::*;
use crate::text::{lex_le, str_less_eq, decimal, decimal_string};

verus! {

/// The metrics export of a service: the path and port it is served on.
pub struct Metrics {
    pub path: String,
    pub port: u64,
}

/// A service as far as metrics are concerned: its identifier, its number of
/// instances and its metrics export, if any.
pub struct ServiceMetrics {
    pub service_id: String,
    pub instances: u64,
    pub metrics: Option<Metrics>,
}

impl View for ServiceMetrics {
    type V = (Seq<char>, u64, Option<(Seq<char>, u64)>);

    open spec fn view(&self) -> (Seq<char>, u64, Option<(Seq<char>, u64)>) {
        (self.service_id@, self.instances, match &self.metrics { Some(m) => Some((m.path@, m.port)), None => None })
    }
}

/// A service that exports metrics, as it is listed.
pub struct MetricUsage {
    pub service_id: String,
    pub instances: u64,
    pub path: String,
    pub port: u64,
}

impl View for MetricUsage {
    type V = (Seq<char>, u64, Seq<char>, u64);

    open spec fn view(&self) -> (Seq<char>, u64, Seq<char>, u64) {
        (self.service_id@, self.instances, self.path@, self.port)
    }
}

impl MetricUsage {
    /// A listed metrics export.
    pub fn new(service_id: String, instances: u64, path: String, port: u64) -> (m: Self)
        ensures
            m@ == (service_id@, instances, path@, port),
    {
        MetricUsage { service_id, instances, path, port }
    }
}

/// Views of a list of services.
pub open spec fn service_views(v: Seq<ServiceMetrics>) -> Seq<(Seq<char>, u64, Option<(Seq<char>, u64)>)> {
    v.map_values(|s: ServiceMetrics| s@)
}

/// Views of a list of metrics exports.
pub open spec fn usage_views(v: Seq<MetricUsage>) -> Seq<(Seq<char>, u64, Seq<char>, u64)> {
    v.map_values(|m: MetricUsage| m@)
}

/// Whether a service is listed: it exports metrics and it is started
/// (`include_started`) or stopped (`include_stopped`).
pub open spec fn is_listed(s: (Seq<char>, u64, Option<(Seq<char>, u64)>), include_started: bool, include_stopped: bool) -> bool {
    &&& (s.1 > 0 && include_started) || (s.1 == 0 && include_stopped)
    &&& s.2 is Some
}

/// The listed metrics exports of `services`, in the order of `services`.
pub open spec fn listed_usages(
    services: Seq<(Seq<char>, u64, Option<(Seq<char>, u64)>)>,
    include_started: bool,
    include_stopped: bool,
) -> Seq<(Seq<char>, u64, Seq<char>, u64)>
    decreases services.len(),
{
    if services.len() == 0 {
        Seq::empty()
    } else {
        let before = listed_usages(services.drop_last(), include_started, include_stopped);
        let s = services.last();
        if is_listed(s, include_started, include_stopped) {
            before.push((s.0, s.1, s.2.unwrap().0, s.2.unwrap().1))
        } else {
            before
        }
    }
}

/// Whether the exports are ordered by service identifier.
pub open spec fn sorted_by_service(u: Seq<(Seq<char>, u64, Seq<char>, u64)>) -> bool {
    forall|i: int, j: int| 0 <= i < j < u.len() ==> lex_le((#[trigger] u[i]).0, (#[trigger] u[j]).0)
}

/// Inserts `m` after the exports whose service identifier does not come after its own.
fn insert_sorted(usages: &mut Vec<MetricUsage>, m: MetricUsage)
    requires
        sorted_by_service(usage_views(old(usages)@)),
    ensures
        sorted_by_service(usage_views(final(usages)@)),
        usage_views(final(usages)@).to_multiset() == usage_views(old(usages)@).to_multiset().insert(m@),
{
    broadcast use vstd::seq_lib::group_to_multiset_ensures;
    let ghost before = usage_views(usages@);
    let ghost mv = m@;
    let mut p: usize = 0;
    while p < usages.len()
        invariant
            p <= usages.len(),
            before == usage_views(usages@),
            mv == m@,
            forall|i: int| 0 <= i < p ==> lex_le((#[trigger] usages@[i])@.0, m@.0),
        ensures
            p <= usages.len(),
            before == usage_views(usages@),
            forall|i: int| 0 <= i < p ==> lex_le((#[trigger] usages@[i])@.0, m@.0),
            p < usages.len() ==> !lex_le(usages@[p as int]@.0, m@.0),
        decreases usages.len() - p,
    {
        if !str_less_eq(usages[p].service_id.as_str(), m.service_id.as_str()) {
            break;
        }
        p = p + 1;
    }
    assert(p < usages.len() ==> !lex_le(before[p as int].0, mv.0));
    usages.insert(p, m);
    let ghost after = usage_views(usages@);
    assert(after =~= before.insert(p as int, mv));
    assert forall|a: int, b: int| 0 <= a < b < after.len() implies lex_le((#[trigger] after[a]).0, (#[trigger] after[b]).0) by {
        if a == p {
            assert(after[b] == before[b - 1]);
            crate::text::lemma_lex_total(before[p as int].0, mv.0);
            if b - 1 > p {
                crate::text::lemma_lex_transitive(mv.0, before[p as int].0, before[b - 1].0);
            }
        } else if b == p {
            assert(after[a] == before[a]);
            assert(before[a] == old(usages)@[a]@);
        } else {
            let oa = if a < p { a } else { a - 1 };
            let ob = if b < p { b } else { b - 1 };
            assert(after[a] == before[oa] && after[b] == before[ob]);
        }
    }
}

/// The services that export metrics and are started or stopped as asked, by
/// service identifier.
pub fn metrics_usage_from_services(services: &Vec<ServiceMetrics>, include_started: bool, include_stopped: bool) -> (usages: Vec<MetricUsage>)
    ensures
        sorted_by_service(usage_views(usages@)),
        usage_views(usages@).to_multiset() == listed_usages(service_views(services@), include_started, include_stopped).to_multiset(),
{
    broadcast use vstd::seq_lib::group_to_multiset_ensures;
    let mut usages: Vec<MetricUsage> = Vec::new();
    let mut i: usize = 0;
    assert(usage_views(usages@) =~= Seq::<(Seq<char>, u64, Seq<char>, u64)>::empty());
    assert(service_views(services@).take(0) =~= Seq::<(Seq<char>, u64, Option<(Seq<char>, u64)>)>::empty());
    while i < services.len()
        invariant
            i <= services.len(),
            sorted_by_service(usage_views(usages@)),
            usage_views(usages@).to_multiset()
                == listed_usages(service_views(services@).take(i as int), include_started, include_stopped).to_multiset(),
        decreases services.len() - i,
    {
        let s = &services[i];
        assert(service_views(services@).take(i + 1).drop_last() =~= service_views(services@).take(i as int));
        assert(service_views(services@).take(i + 1).last() == s@);
        if (s.instances > 0 && include_started) || (s.instances == 0 && include_stopped) {
            match &s.metrics {
                Some(metric) => {
                    let m = MetricUsage::new(s.service_id.clone(), s.instances, metric.path.clone(), metric.port);
                    let ghost before = usage_views(usages@);
                    assert(m@ == (s@.0, s@.1, s@.2.unwrap().0, s@.2.unwrap().1));
                    insert_sorted(&mut usages, m);
                    assert(listed_usages(service_views(services@).take(i + 1), include_started, include_stopped)
                        == listed_usages(service_views(services@).take(i as int), include_started, include_stopped).push(m@));
                    proof {
                        vstd::seq_lib::to_multiset_build(
                            listed_usages(service_views(services@).take(i as int), include_started, include_stopped),
                            m@,
                        );
                    }
                }
                None => {
                    assert(listed_usages(service_views(services@).take(i + 1), include_started, include_stopped)
                        == listed_usages(service_views(services@).take(i as int), include_started, include_stopped));
                }
            }
        } else {
            assert(listed_usages(service_views(services@).take(i + 1), include_started, include_stopped)
                == listed_usages(service_views(services@).take(i as int), include_started, include_stopped));
        }
        i = i + 1;
    }
    assert(service_views(services@).take(services.len() as int) =~= service_views(services@));
    usages
}

/// Labels under which metric exports are shown.
#[derive(Debug, PartialEq, Eq, Structural, Clone, Copy)]
pub enum MetricUsageLabel {
    Instances,
    Path,
    Port,
    Service,
}

impl MetricUsageLabel {
    /// The text under which the label is shown.
    pub open spec fn text(self) -> Seq<char> {
        match self {
            MetricUsageLabel::Instances => "#"@,
            MetricUsageLabel::Path => "path"@,
            MetricUsageLabel::Port => "port"@,
            MetricUsageLabel::Service => "service id"@,
        }
    }

    /// The text under which the label is shown.
    pub fn as_str(&self) -> (s: &'static str)
        ensures
            s@ == self.text(),
    {
        match self {
            MetricUsageLabel::Instances => "#",
            MetricUsageLabel::Path => "path",
            MetricUsageLabel::Port => "port",
            MetricUsageLabel::Service => "service id",
        }
    }

    /// Whether the label shows the identifier of the subject.
    pub fn is_target_label(&self) -> (b: bool)
        ensures
            !b,
    {
        false
    }
}


/// The text shown under `label` for a metrics export.
pub open spec fn metric_usage_text(m: (Seq<char>, u64, Seq<char>, u64), label: MetricUsageLabel) -> Seq<char> {
    match label {
        MetricUsageLabel::Service => m.0,
        MetricUsageLabel::Path => m.2,
        MetricUsageLabel::Instances => decimal(m.1 as nat),
        MetricUsageLabel::Port => decimal(m.3 as nat),
    }
}

impl MetricUsage {
    /// The text shown under `label`.
    pub fn value(&self, label: MetricUsageLabel) -> (s: String)
        ensures
            s@ == metric_usage_text(self@, label),
    {
        match label {
            MetricUsageLabel::Service => self.service_id.clone(),
            MetricUsageLabel::Path => self.path.clone(),
            MetricUsageLabel::Instances => decimal_string(self.instances),
            MetricUsageLabel::Port => decimal_string(self.port),
        }
    }
}

} // verus!
