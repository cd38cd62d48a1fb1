//! Node pools: how a node pool and the services that use it are shown.
use vstd::prelude::*;
use crate::text::{decimal, decimal_string, join, seq_join, views};
use crate::value::{Value, ValueView};

verus! {

/// A node pool as it is deployed: its gpu driver, as it is displayed, and
/// its maximum number of instances.
pub struct NodepoolActual {
    pub gpu_driver: String,
    pub max_instances: u64,
}

/// Labels under which node pools are shown.
#[derive(Debug, PartialEq, Eq, Structural, Clone, Copy)]
pub enum NodepoolLabel {
    GpuDriver,
    MaxInstances,
    NodeFeatures,
    ServiceId,
    ServiceInstances,
    Target,
}

impl NodepoolLabel {
    /// The text under which the label is shown.
    pub open spec fn text(self) -> Seq<char> {
        match self {
            NodepoolLabel::GpuDriver => "gpu driver"@,
            NodepoolLabel::MaxInstances => "maximum number of instances"@,
            NodepoolLabel::NodeFeatures => "node features"@,
            NodepoolLabel::ServiceId => "service id"@,
            NodepoolLabel::ServiceInstances => "service instances"@,
            NodepoolLabel::Target => "node pool id"@,
        }
    }

    /// The text under which the label is shown.
    pub fn as_str(&self) -> (s: &'static str)
        ensures
            s@ == self.text(),
    {
        match self {
            NodepoolLabel::GpuDriver => "gpu driver",
            NodepoolLabel::MaxInstances => "maximum number of instances",
            NodepoolLabel::NodeFeatures => "node features",
            NodepoolLabel::ServiceId => "service id",
            NodepoolLabel::ServiceInstances => "service instances",
            NodepoolLabel::Target => "node pool id",
        }
    }

    /// The text under which the label is shown as a column of a list.
    pub open spec fn list_text(self) -> Seq<char> {
        match self {
            NodepoolLabel::GpuDriver => "driver"@,
            NodepoolLabel::MaxInstances => "max instances"@,
            NodepoolLabel::NodeFeatures => "nodes"@,
            NodepoolLabel::ServiceId => "service id"@,
            NodepoolLabel::ServiceInstances => "# services"@,
            NodepoolLabel::Target => "node pool id"@,
        }
    }

    /// The text under which the label is shown as a column of a list.
    pub fn as_str_for_list(&self) -> (s: &'static str)
        ensures
            s@ == self.list_text(),
    {
        match self {
            NodepoolLabel::GpuDriver => "driver",
            NodepoolLabel::MaxInstances => "max instances",
            NodepoolLabel::NodeFeatures => "nodes",
            NodepoolLabel::ServiceId => "service id",
            NodepoolLabel::ServiceInstances => "# services",
            NodepoolLabel::Target => "node pool id",
        }
    }

    /// Whether the label shows the identifier of the subject.
    pub fn is_target_label(&self) -> (b: bool)
        ensures
            b == (*self == NodepoolLabel::Target),
    {
        match self {
            NodepoolLabel::Target => true,
            _ => false,
        }
    }
}


/// What is shown under `label` for a node pool with identifier `target_id`.
pub open spec fn nodepool_value_view(n: NodepoolActual, label: NodepoolLabel, target_id: Seq<char>) -> ValueView {
    match label {
        NodepoolLabel::GpuDriver => ValueView::Plain(n.gpu_driver@),
        NodepoolLabel::MaxInstances => ValueView::Plain(decimal(n.max_instances as nat)),
        NodepoolLabel::Target => ValueView::Target(target_id),
        _ => ValueView::NotApplicable,
    }
}

impl NodepoolActual {
    /// What is shown under `label` for this node pool, whose identifier is `target_id`.
    pub fn value(&self, label: NodepoolLabel, target_id: &str) -> (v: Value)
        ensures
            v@ == nodepool_value_view(*self, label, target_id@),
    {
        match label {
            NodepoolLabel::GpuDriver => Value::plain(self.gpu_driver.as_str()),
            NodepoolLabel::MaxInstances => Value::plain_number(self.max_instances),
            NodepoolLabel::Target => Value::target(target_id),
            _ => Value::NotApplicable,
        }
    }
}

/// What is shown under `label` for a service that uses a node pool, with its
/// number of instances.
pub open spec fn nodepool_service_value_view(service_id: Seq<char>, service_instances: u64, label: NodepoolLabel) -> ValueView {
    match label {
        NodepoolLabel::ServiceId => ValueView::Plain(service_id),
        NodepoolLabel::ServiceInstances => ValueView::Plain(decimal(service_instances as nat)),
        _ => ValueView::NotApplicable,
    }
}

/// What is shown under `label` for a service that uses a node pool.
pub fn nodepool_service_value(service_id: &str, service_instances: u64, label: NodepoolLabel) -> (v: Value)
    ensures
        v@ == nodepool_service_value_view(service_id@, service_instances, label),
{
    match label {
        NodepoolLabel::ServiceId => Value::plain(service_id),
        NodepoolLabel::ServiceInstances => Value::plain_number(service_instances),
        _ => Value::NotApplicable,
    }
}

/// What is shown under `label` for the use of node pool `target_id` by a
/// service, with the node features, as they are displayed, through which it
/// uses the pool.
pub open spec fn nodepool_usage_value_view(
    n: NodepoolActual,
    service_id: Seq<char>,
    service_instances: u64,
    node_features: Seq<Seq<char>>,
    label: NodepoolLabel,
    target_id: Seq<char>,
) -> ValueView {
    match label {
        NodepoolLabel::NodeFeatures => ValueView::Plain(seq_join(node_features, ", "@)),
        NodepoolLabel::ServiceId => ValueView::Target(service_id),
        NodepoolLabel::ServiceInstances => ValueView::Plain(decimal(service_instances as nat)),
        _ => nodepool_value_view(n, label, target_id),
    }
}

/// What is shown under `label` for the use of a node pool by a service.
pub fn nodepool_usage_value(
    nodepool: &NodepoolActual,
    service_id: &str,
    service_instances: u64,
    node_features: &Vec<String>,
    label: NodepoolLabel,
    target_id: &str,
) -> (v: Value)
    ensures
        v@ == nodepool_usage_value_view(*nodepool, service_id@, service_instances, views(node_features@), label, target_id@),
{
    match label {
        NodepoolLabel::NodeFeatures => Value::Plain(join(node_features, ", ")),
        NodepoolLabel::ServiceId => Value::target(service_id),
        NodepoolLabel::ServiceInstances => Value::plain_number(service_instances),
        _ => nodepool.value(label, target_id),
    }
}

} // verus!
