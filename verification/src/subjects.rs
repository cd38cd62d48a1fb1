//! What the subjects share: the allocation status of resources and the apps,
//! services and proxies that depend on a resource.
use vstd::prelude::*;
use crate::issues::{notification_strings, notification_texts, notification_views, AllocationStatus};
use crate::text::{decimal, join, seq_join, views};
use crate::value::{some_or_empty_view, Value, ValueView};

verus! {

/// An app, service, certificate, proxy or Trifonius application that depends
/// on a resource. Resources and injections are held as they are displayed.
pub enum Dependant {
    App { app_id: String, resources: Vec<String> },
    Application { application_id: String, instances: u64, injections: Vec<String> },
    Certificate { certificate_id: String, secret_kind: String },
    Proxy { proxy_id: String, instances: u64 },
    Trifonius { trifonius_id: String, instances: u64, injections: Vec<String> },
}

/// Lines joined by newlines.
pub open spec fn lines(parts: Seq<Seq<char>>) -> Seq<char> {
    seq_join(parts, "\n"@)
}

/// Labels under which the allocation status of a resource are shown.
#[derive(Debug, PartialEq, Eq, Structural, Clone, Copy)]
pub enum AllocationStatusLabel {
    DerivedFrom,
    Notifications,
    Provisioned,
    Target,
}

impl AllocationStatusLabel {
    /// The text under which the label is shown.
    pub open spec fn text(self) -> Seq<char> {
        match self {
            AllocationStatusLabel::DerivedFrom => "derived from"@,
            AllocationStatusLabel::Notifications => "notifications"@,
            AllocationStatusLabel::Provisioned => "provisioned"@,
            AllocationStatusLabel::Target => "target id"@,
        }
    }

    /// The text under which the label is shown.
    pub fn as_str(&self) -> (s: &'static str)
        ensures
            s@ == self.text(),
    {
        match self {
            AllocationStatusLabel::DerivedFrom => "derived from",
            AllocationStatusLabel::Notifications => "notifications",
            AllocationStatusLabel::Provisioned => "provisioned",
            AllocationStatusLabel::Target => "target id",
        }
    }

    /// Whether the label shows the identifier of the subject.
    pub fn is_target_label(&self) -> (b: bool)
        ensures
            b == (*self == AllocationStatusLabel::Target),
    {
        match self {
            AllocationStatusLabel::Target => true,
            _ => false,
        }
    }
}

/// Labels under which the apps, services and proxies that depend on a resource are shown.
#[derive(Debug, PartialEq, Eq, Structural, Clone, Copy)]
pub enum DependantLabel {
    Dependencies,
    DependantId,
    Injections,
    Instances,
    DependantKind,
    Resources,
    Target,
}

impl DependantLabel {
    /// The text under which the label is shown.
    pub open spec fn text(self) -> Seq<char> {
        match self {
            DependantLabel::Dependencies => "dependencies"@,
            DependantLabel::DependantId => "id"@,
            DependantLabel::Injections => "injections"@,
            DependantLabel::Instances => "instances"@,
            DependantLabel::DependantKind => "app/service"@,
            DependantLabel::Resources => "app/resources"@,
            DependantLabel::Target => "target id"@,
        }
    }

    /// The text under which the label is shown.
    pub fn as_str(&self) -> (s: &'static str)
        ensures
            s@ == self.text(),
    {
        match self {
            DependantLabel::Dependencies => "dependencies",
            DependantLabel::DependantId => "id",
            DependantLabel::Injections => "injections",
            DependantLabel::Instances => "instances",
            DependantLabel::DependantKind => "app/service",
            DependantLabel::Resources => "app/resources",
            DependantLabel::Target => "target id",
        }
    }

    /// The text under which the label is shown as a column of a list.
    pub open spec fn list_text(self) -> Seq<char> {
        match self {
            DependantLabel::Dependencies => "dependencies"@,
            DependantLabel::DependantId => "dependant"@,
            DependantLabel::Injections => "injections"@,
            DependantLabel::Instances => "#"@,
            DependantLabel::DependantKind => "kind"@,
            DependantLabel::Resources => "resources"@,
            DependantLabel::Target => "target id"@,
        }
    }

    /// The text under which the label is shown as a column of a list.
    pub fn as_str_for_list(&self) -> (s: &'static str)
        ensures
            s@ == self.list_text(),
    {
        match self {
            DependantLabel::Dependencies => "dependencies",
            DependantLabel::DependantId => "dependant",
            DependantLabel::Injections => "injections",
            DependantLabel::Instances => "#",
            DependantLabel::DependantKind => "kind",
            DependantLabel::Resources => "resources",
            DependantLabel::Target => "target id",
        }
    }

    /// Whether the label shows the identifier of the subject.
    pub fn is_target_label(&self) -> (b: bool)
        ensures
            b == (*self == DependantLabel::Target),
    {
        match self {
            DependantLabel::Target => true,
            _ => false,
        }
    }
}

/// The value shown under `label` for an allocation status.
pub open spec fn allocation_status_value_view(status: AllocationStatus, label: AllocationStatusLabel, target_id: Seq<char>) -> ValueView {
    match label {
        AllocationStatusLabel::DerivedFrom => some_or_empty_view(match status.derived_from { Some(d) => Some(d@), None => None }),
        AllocationStatusLabel::Notifications => if status.notifications@.len() == 0 {
            ValueView::Empty
        } else {
            ValueView::Plain(lines(notification_texts(notification_views(status.notifications@))))
        },
        AllocationStatusLabel::Provisioned => ValueView::Plain(crate::text::bool_text(status.provisioned)),
        AllocationStatusLabel::Target => ValueView::Target(target_id),
    }
}

/// The value shown under `label` for an allocation status.
pub fn allocation_status_value(status: &AllocationStatus, label: AllocationStatusLabel, target_id: &str) -> (v: Value)
    ensures
        v@ == allocation_status_value_view(*status, label, target_id@),
{
    match label {
        AllocationStatusLabel::DerivedFrom => match &status.derived_from {
            Some(d) => Value::plain(d.as_str()),
            None => Value::Empty,
        },
        AllocationStatusLabel::Notifications => {
            if status.notifications.len() == 0 {
                Value::Empty
            } else {
                let texts = notification_strings(&status.notifications);
                Value::Plain(join(&texts, "\n"))
            }
        }
        AllocationStatusLabel::Provisioned => Value::plain_bool(status.provisioned),
        AllocationStatusLabel::Target => Value::target(target_id),
    }
}

/// The value shown under `label` for a dependant.
pub open spec fn dependant_value_view(dependant: Dependant, label: DependantLabel, target_id: Seq<char>) -> ValueView {
    match dependant {
        Dependant::App { app_id, resources } => match label {
            DependantLabel::Dependencies => ValueView::Plain(lines(views(resources@))),
            DependantLabel::DependantId => ValueView::Target(app_id@),
            DependantLabel::DependantKind => ValueView::Plain("app"@),
            DependantLabel::Resources => ValueView::Plain(lines(views(resources@))),
            DependantLabel::Target => ValueView::Target(target_id),
            _ => ValueView::Empty,
        },
        Dependant::Application { application_id, instances, injections } => match label {
            DependantLabel::Dependencies => ValueView::Plain(lines(views(injections@))),
            DependantLabel::DependantId => ValueView::Target(application_id@),
            DependantLabel::Injections => ValueView::Plain(lines(views(injections@))),
            DependantLabel::Instances => ValueView::Plain(decimal(instances as nat)),
            DependantLabel::DependantKind => ValueView::Plain("service"@),
            DependantLabel::Resources => ValueView::Empty,
            DependantLabel::Target => ValueView::Target(target_id),
        },
        Dependant::Certificate { certificate_id, .. } => match label {
            DependantLabel::DependantId => ValueView::Target(certificate_id@),
            DependantLabel::DependantKind => ValueView::Plain("certificate"@),
            DependantLabel::Target => ValueView::Target(target_id),
            _ => ValueView::Empty,
        },
        Dependant::Proxy { proxy_id, instances } => match label {
            DependantLabel::DependantId => ValueView::Target(proxy_id@),
            DependantLabel::DependantKind => ValueView::Plain("proxy"@),
            DependantLabel::Instances => ValueView::Plain(decimal(instances as nat)),
            DependantLabel::Target => ValueView::Target(target_id),
            _ => ValueView::Empty,
        },
        Dependant::Trifonius { trifonius_id, instances, injections } => match label {
            DependantLabel::Dependencies => ValueView::Plain(lines(views(injections@))),
            DependantLabel::DependantId => ValueView::Target(trifonius_id@),
            DependantLabel::Injections => ValueView::Plain(lines(views(injections@))),
            DependantLabel::Instances => ValueView::Plain(decimal(instances as nat)),
            DependantLabel::DependantKind => ValueView::Plain("trifonius"@),
            DependantLabel::Target => ValueView::Target(target_id),
            _ => ValueView::Empty,
        },
    }
}

/// The value shown under `label` for an app, service or proxy that depends on a resource.
pub fn dependant_value(dependant: &Dependant, label: DependantLabel, target_id: &str) -> (v: Value)
    ensures
        v@ == dependant_value_view(*dependant, label, target_id@),
{
    match dependant {
        Dependant::App { app_id, resources } => match label {
            DependantLabel::Dependencies => Value::Plain(join(resources, "\n")),
            DependantLabel::DependantId => Value::target(app_id.as_str()),
            DependantLabel::DependantKind => Value::plain("app"),
            DependantLabel::Resources => Value::Plain(join(resources, "\n")),
            DependantLabel::Target => Value::target(target_id),
            _ => Value::Empty,
        },
        Dependant::Application { application_id, instances, injections } => match label {
            DependantLabel::Dependencies => Value::Plain(join(injections, "\n")),
            DependantLabel::DependantId => Value::target(application_id.as_str()),
            DependantLabel::Injections => Value::Plain(join(injections, "\n")),
            DependantLabel::Instances => Value::plain_number(*instances),
            DependantLabel::DependantKind => Value::plain("service"),
            DependantLabel::Resources => Value::Empty,
            DependantLabel::Target => Value::target(target_id),
        },
        Dependant::Certificate { certificate_id, .. } => match label {
            DependantLabel::DependantId => Value::target(certificate_id.as_str()),
            DependantLabel::DependantKind => Value::plain("certificate"),
            DependantLabel::Target => Value::target(target_id),
            _ => Value::Empty,
        },
        Dependant::Proxy { proxy_id, instances } => match label {
            DependantLabel::DependantId => Value::target(proxy_id.as_str()),
            DependantLabel::DependantKind => Value::plain("proxy"),
            DependantLabel::Instances => Value::plain_number(*instances),
            DependantLabel::Target => Value::target(target_id),
            _ => Value::Empty,
        },
        Dependant::Trifonius { trifonius_id, instances, injections } => match label {
            DependantLabel::Dependencies => Value::Plain(join(injections, "\n")),
            DependantLabel::DependantId => Value::target(trifonius_id.as_str()),
            DependantLabel::Injections => Value::Plain(join(injections, "\n")),
            DependantLabel::Instances => Value::plain_number(*instances),
            DependantLabel::DependantKind => Value::plain("trifonius"),
            DependantLabel::Target => Value::target(target_id),
            _ => Value::Empty,
        },
    }
}

} // verus!
