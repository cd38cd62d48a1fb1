//! Services: how a service configuration and the tasks of a service are shown.
use vstd::prelude::*;
use crate::platform::row_views;
use crate::text::{bool_text, bool_string, decimal, decimal_string, join, seq_join, views};
use crate::value::{Value, ValueView};

verus! {

/// The health check of a service: its protocol, port and path.
pub struct HealthCheck {
    pub protocol: Option<String>,
    pub port: u64,
    pub path: String,
}

/// The configuration of a service. Amounts of processors, streams and
/// topics are held as they are displayed; maps are held by their keys or
/// entries.
pub struct Application {
    pub cpus: String,
    pub env: Vec<(String, String)>,
    pub exposed_ports: Vec<String>,
    pub health_check: Option<HealthCheck>,
    pub image: String,
    pub instances: u64,
    pub mem: u64,
    /// The port and path of its metrics export.
    pub metrics: Option<(u64, String)>,
    pub needs_token: bool,
    pub readable_streams: Vec<String>,
    /// The names of its secrets.
    pub secrets: Vec<String>,
    pub single_instance: bool,
    pub spread_group: Option<String>,
    pub topics: Vec<String>,
    pub user: String,
    pub volumes: Vec<String>,
    pub writable_streams: Vec<String>,
}

/// Labels under which services are shown.
#[derive(Debug, PartialEq, Eq, Structural, Clone, Copy)]
pub enum ServiceLabel {
    Cpus,
    Env,
    ExposedPorts,
    HealthCheck,
    Image,
    Instances,
    Mem,
    Metrics,
    NeedsToken,
    ReadableStreams,
    Secrets,
    SingleInstance,
    SpreadGroup,
    Target,
    Tasks,
    Topics,
    User,
    Volumes,
    WritableStreams,
}

impl ServiceLabel {
    /// The text under which the label is shown.
    pub open spec fn text(self) -> Seq<char> {
        match self {
            ServiceLabel::Cpus => "cpus"@,
            ServiceLabel::Env => "env"@,
            ServiceLabel::ExposedPorts => "exposed ports"@,
            ServiceLabel::HealthCheck => "health check"@,
            ServiceLabel::Image => "image"@,
            ServiceLabel::Instances => "instances"@,
            ServiceLabel::Mem => "mem"@,
            ServiceLabel::Metrics => "metrics"@,
            ServiceLabel::NeedsToken => "needs token"@,
            ServiceLabel::ReadableStreams => "readable streams"@,
            ServiceLabel::Secrets => "secrets"@,
            ServiceLabel::SingleInstance => "single instance"@,
            ServiceLabel::SpreadGroup => "spread group"@,
            ServiceLabel::Target => "service id"@,
            ServiceLabel::Tasks => "tasks"@,
            ServiceLabel::Topics => "topics"@,
            ServiceLabel::User => "user"@,
            ServiceLabel::Volumes => "volumes"@,
            ServiceLabel::WritableStreams => "writable streams"@,
        }
    }

    /// The text under which the label is shown.
    pub fn as_str(&self) -> (s: &'static str)
        ensures
            s@ == self.text(),
    {
        match self {
            ServiceLabel::Cpus => "cpus",
            ServiceLabel::Env => "env",
            ServiceLabel::ExposedPorts => "exposed ports",
            ServiceLabel::HealthCheck => "health check",
            ServiceLabel::Image => "image",
            ServiceLabel::Instances => "instances",
            ServiceLabel::Mem => "mem",
            ServiceLabel::Metrics => "metrics",
            ServiceLabel::NeedsToken => "needs token",
            ServiceLabel::ReadableStreams => "readable streams",
            ServiceLabel::Secrets => "secrets",
            ServiceLabel::SingleInstance => "single instance",
            ServiceLabel::SpreadGroup => "spread group",
            ServiceLabel::Target => "service id",
            ServiceLabel::Tasks => "tasks",
            ServiceLabel::Topics => "topics",
            ServiceLabel::User => "user",
            ServiceLabel::Volumes => "volumes",
            ServiceLabel::WritableStreams => "writable streams",
        }
    }

    /// The text under which the label is shown as a column of a list.
    pub open spec fn list_text(self) -> Seq<char> {
        match self {
            ServiceLabel::Cpus => "cpus"@,
            ServiceLabel::Env => "env"@,
            ServiceLabel::ExposedPorts => "ports"@,
            ServiceLabel::HealthCheck => "health"@,
            ServiceLabel::Image => "image"@,
            ServiceLabel::Instances => "#"@,
            ServiceLabel::Mem => "mem"@,
            ServiceLabel::Metrics => "metrics"@,
            ServiceLabel::NeedsToken => "token"@,
            ServiceLabel::ReadableStreams => "readable streams"@,
            ServiceLabel::Secrets => "secrets"@,
            ServiceLabel::SingleInstance => "single"@,
            ServiceLabel::SpreadGroup => "spread group"@,
            ServiceLabel::Target => "service id"@,
            ServiceLabel::Tasks => "tasks"@,
            ServiceLabel::Topics => "topics"@,
            ServiceLabel::User => "user"@,
            ServiceLabel::Volumes => "volumes"@,
            ServiceLabel::WritableStreams => "writable streams"@,
        }
    }

    /// The text under which the label is shown as a column of a list.
    pub fn as_str_for_list(&self) -> (s: &'static str)
        ensures
            s@ == self.list_text(),
    {
        match self {
            ServiceLabel::Cpus => "cpus",
            ServiceLabel::Env => "env",
            ServiceLabel::ExposedPorts => "ports",
            ServiceLabel::HealthCheck => "health",
            ServiceLabel::Image => "image",
            ServiceLabel::Instances => "#",
            ServiceLabel::Mem => "mem",
            ServiceLabel::Metrics => "metrics",
            ServiceLabel::NeedsToken => "token",
            ServiceLabel::ReadableStreams => "readable streams",
            ServiceLabel::Secrets => "secrets",
            ServiceLabel::SingleInstance => "single",
            ServiceLabel::SpreadGroup => "spread group",
            ServiceLabel::Target => "service id",
            ServiceLabel::Tasks => "tasks",
            ServiceLabel::Topics => "topics",
            ServiceLabel::User => "user",
            ServiceLabel::Volumes => "volumes",
            ServiceLabel::WritableStreams => "writable streams",
        }
    }

    /// Whether the label shows the identifier of the subject.
    pub fn is_target_label(&self) -> (b: bool)
        ensures
            b == (*self == ServiceLabel::Target),
    {
        match self {
            ServiceLabel::Target => true,
            _ => false,
        }
    }
}

/// Labels under which service tasks are shown.
#[derive(Debug, PartialEq, Eq, Structural, Clone, Copy)]
pub enum TaskLabel {
    Healthy,
    HostIpAddress,
    _LastestLog,
    LastUpdateAt,
    StagedAt,
    StartedAt,
    State,
    StoppedAt,
    Target,
}

impl TaskLabel {
    /// The text under which the label is shown.
    pub open spec fn text(self) -> Seq<char> {
        match self {
            TaskLabel::Healthy => "healthy"@,
            TaskLabel::HostIpAddress => "host ip address"@,
            TaskLabel::_LastestLog => "latest log"@,
            TaskLabel::LastUpdateAt => "last update"@,
            TaskLabel::StagedAt => "staged"@,
            TaskLabel::StartedAt => "started"@,
            TaskLabel::State => "state"@,
            TaskLabel::StoppedAt => "stopped"@,
            TaskLabel::Target => "task id"@,
        }
    }

    /// The text under which the label is shown.
    pub fn as_str(&self) -> (s: &'static str)
        ensures
            s@ == self.text(),
    {
        match self {
            TaskLabel::Healthy => "healthy",
            TaskLabel::HostIpAddress => "host ip address",
            TaskLabel::_LastestLog => "latest log",
            TaskLabel::LastUpdateAt => "last update",
            TaskLabel::StagedAt => "staged",
            TaskLabel::StartedAt => "started",
            TaskLabel::State => "state",
            TaskLabel::StoppedAt => "stopped",
            TaskLabel::Target => "task id",
        }
    }

    /// The text under which the label is shown as a column of a list.
    pub open spec fn list_text(self) -> Seq<char> {
        match self {
            TaskLabel::Healthy => "healthy"@,
            TaskLabel::HostIpAddress => "host"@,
            TaskLabel::_LastestLog => "log"@,
            TaskLabel::LastUpdateAt => "update"@,
            TaskLabel::StagedAt => "staged"@,
            TaskLabel::StartedAt => "started"@,
            TaskLabel::State => "state"@,
            TaskLabel::StoppedAt => "stopped"@,
            TaskLabel::Target => "task id"@,
        }
    }

    /// The text under which the label is shown as a column of a list.
    pub fn as_str_for_list(&self) -> (s: &'static str)
        ensures
            s@ == self.list_text(),
    {
        match self {
            TaskLabel::Healthy => "healthy",
            TaskLabel::HostIpAddress => "host",
            TaskLabel::_LastestLog => "log",
            TaskLabel::LastUpdateAt => "update",
            TaskLabel::StagedAt => "staged",
            TaskLabel::StartedAt => "started",
            TaskLabel::State => "state",
            TaskLabel::StoppedAt => "stopped",
            TaskLabel::Target => "task id",
        }
    }

    /// Whether the label shows the identifier of the subject.
    pub fn is_target_label(&self) -> (b: bool)
        ensures
            b == (*self == TaskLabel::Target),
    {
        match self {
            TaskLabel::Target => true,
            _ => false,
        }
    }
}

/// Labels under which applications are shown.
#[derive(Debug, PartialEq, Eq, Structural, Clone, Copy)]
pub enum ApplicationLabel {
    Cpus,
    Env,
    ExposedPorts,
    HealthCheck,
    Image,
    Instances,
    Mem,
    Metrics,
    NeedsToken,
    ReadableStreams,
    Secrets,
    SingleInstance,
    SpreadGroup,
    Target,
    Tasks,
    Topics,
    User,
    Volumes,
    WritableStreams,
}

impl ApplicationLabel {
    /// The text under which the label is shown.
    pub open spec fn text(self) -> Seq<char> {
        match self {
            ApplicationLabel::Cpus => "cpus"@,
            ApplicationLabel::Env => "env"@,
            ApplicationLabel::ExposedPorts => "exposed ports"@,
            ApplicationLabel::HealthCheck => "health check"@,
            ApplicationLabel::Image => "image"@,
            ApplicationLabel::Instances => "instances"@,
            ApplicationLabel::Mem => "mem"@,
            ApplicationLabel::Metrics => "metrics"@,
            ApplicationLabel::NeedsToken => "needs token"@,
            ApplicationLabel::ReadableStreams => "readable streams"@,
            ApplicationLabel::Secrets => "secrets"@,
            ApplicationLabel::SingleInstance => "single instance"@,
            ApplicationLabel::SpreadGroup => "spread group"@,
            ApplicationLabel::Target => "application id"@,
            ApplicationLabel::Tasks => "tasks"@,
            ApplicationLabel::Topics => "topics"@,
            ApplicationLabel::User => "user"@,
            ApplicationLabel::Volumes => "volumes"@,
            ApplicationLabel::WritableStreams => "writable streams"@,
        }
    }

    /// The text under which the label is shown.
    pub fn as_str(&self) -> (s: &'static str)
        ensures
            s@ == self.text(),
    {
        match self {
            ApplicationLabel::Cpus => "cpus",
            ApplicationLabel::Env => "env",
            ApplicationLabel::ExposedPorts => "exposed ports",
            ApplicationLabel::HealthCheck => "health check",
            ApplicationLabel::Image => "image",
            ApplicationLabel::Instances => "instances",
            ApplicationLabel::Mem => "mem",
            ApplicationLabel::Metrics => "metrics",
            ApplicationLabel::NeedsToken => "needs token",
            ApplicationLabel::ReadableStreams => "readable streams",
            ApplicationLabel::Secrets => "secrets",
            ApplicationLabel::SingleInstance => "single instance",
            ApplicationLabel::SpreadGroup => "spread group",
            ApplicationLabel::Target => "application id",
            ApplicationLabel::Tasks => "tasks",
            ApplicationLabel::Topics => "topics",
            ApplicationLabel::User => "user",
            ApplicationLabel::Volumes => "volumes",
            ApplicationLabel::WritableStreams => "writable streams",
        }
    }

    /// The text under which the label is shown as a column of a list.
    pub open spec fn list_text(self) -> Seq<char> {
        match self {
            ApplicationLabel::Cpus => "cpus"@,
            ApplicationLabel::Env => "env"@,
            ApplicationLabel::ExposedPorts => "ports"@,
            ApplicationLabel::HealthCheck => "health"@,
            ApplicationLabel::Image => "image"@,
            ApplicationLabel::Instances => "#"@,
            ApplicationLabel::Mem => "mem"@,
            ApplicationLabel::Metrics => "metrics"@,
            ApplicationLabel::NeedsToken => "token"@,
            ApplicationLabel::ReadableStreams => "readable streams"@,
            ApplicationLabel::Secrets => "secrets"@,
            ApplicationLabel::SingleInstance => "single"@,
            ApplicationLabel::SpreadGroup => "spread group"@,
            ApplicationLabel::Target => "application id"@,
            ApplicationLabel::Tasks => "tasks"@,
            ApplicationLabel::Topics => "topics"@,
            ApplicationLabel::User => "user"@,
            ApplicationLabel::Volumes => "volumes"@,
            ApplicationLabel::WritableStreams => "writable streams"@,
        }
    }

    /// The text under which the label is shown as a column of a list.
    pub fn as_str_for_list(&self) -> (s: &'static str)
        ensures
            s@ == self.list_text(),
    {
        match self {
            ApplicationLabel::Cpus => "cpus",
            ApplicationLabel::Env => "env",
            ApplicationLabel::ExposedPorts => "ports",
            ApplicationLabel::HealthCheck => "health",
            ApplicationLabel::Image => "image",
            ApplicationLabel::Instances => "#",
            ApplicationLabel::Mem => "mem",
            ApplicationLabel::Metrics => "metrics",
            ApplicationLabel::NeedsToken => "token",
            ApplicationLabel::ReadableStreams => "readable streams",
            ApplicationLabel::Secrets => "secrets",
            ApplicationLabel::SingleInstance => "single",
            ApplicationLabel::SpreadGroup => "spread group",
            ApplicationLabel::Target => "application id",
            ApplicationLabel::Tasks => "tasks",
            ApplicationLabel::Topics => "topics",
            ApplicationLabel::User => "user",
            ApplicationLabel::Volumes => "volumes",
            ApplicationLabel::WritableStreams => "writable streams",
        }
    }

    /// Whether the label shows the identifier of the subject.
    pub fn is_target_label(&self) -> (b: bool)
        ensures
            b == (*self == ApplicationLabel::Target),
    {
        match self {
            ApplicationLabel::Target => true,
            _ => false,
        }
    }
}


/// The service label that shows what an application label shows.
pub open spec fn service_label_of(label: ApplicationLabel) -> ServiceLabel {
    match label {
        ApplicationLabel::Cpus => ServiceLabel::Cpus,
        ApplicationLabel::Env => ServiceLabel::Env,
        ApplicationLabel::ExposedPorts => ServiceLabel::ExposedPorts,
        ApplicationLabel::HealthCheck => ServiceLabel::HealthCheck,
        ApplicationLabel::Image => ServiceLabel::Image,
        ApplicationLabel::Instances => ServiceLabel::Instances,
        ApplicationLabel::Mem => ServiceLabel::Mem,
        ApplicationLabel::Metrics => ServiceLabel::Metrics,
        ApplicationLabel::NeedsToken => ServiceLabel::NeedsToken,
        ApplicationLabel::ReadableStreams => ServiceLabel::ReadableStreams,
        ApplicationLabel::Secrets => ServiceLabel::Secrets,
        ApplicationLabel::SingleInstance => ServiceLabel::SingleInstance,
        ApplicationLabel::SpreadGroup => ServiceLabel::SpreadGroup,
        ApplicationLabel::Target => ServiceLabel::Target,
        ApplicationLabel::Tasks => ServiceLabel::Tasks,
        ApplicationLabel::Topics => ServiceLabel::Topics,
        ApplicationLabel::User => ServiceLabel::User,
        ApplicationLabel::Volumes => ServiceLabel::Volumes,
        ApplicationLabel::WritableStreams => ServiceLabel::WritableStreams,
    }
}

impl ApplicationLabel {
    /// The service label that shows what this label shows.
    pub fn service_label(&self) -> (l: ServiceLabel)
        ensures
            l == service_label_of(*self),
    {
        match self {
            ApplicationLabel::Cpus => ServiceLabel::Cpus,
            ApplicationLabel::Env => ServiceLabel::Env,
            ApplicationLabel::ExposedPorts => ServiceLabel::ExposedPorts,
            ApplicationLabel::HealthCheck => ServiceLabel::HealthCheck,
            ApplicationLabel::Image => ServiceLabel::Image,
            ApplicationLabel::Instances => ServiceLabel::Instances,
            ApplicationLabel::Mem => ServiceLabel::Mem,
            ApplicationLabel::Metrics => ServiceLabel::Metrics,
            ApplicationLabel::NeedsToken => ServiceLabel::NeedsToken,
            ApplicationLabel::ReadableStreams => ServiceLabel::ReadableStreams,
            ApplicationLabel::Secrets => ServiceLabel::Secrets,
            ApplicationLabel::SingleInstance => ServiceLabel::SingleInstance,
            ApplicationLabel::SpreadGroup => ServiceLabel::SpreadGroup,
            ApplicationLabel::Target => ServiceLabel::Target,
            ApplicationLabel::Tasks => ServiceLabel::Tasks,
            ApplicationLabel::Topics => ServiceLabel::Topics,
            ApplicationLabel::User => ServiceLabel::User,
            ApplicationLabel::Volumes => ServiceLabel::Volumes,
            ApplicationLabel::WritableStreams => ServiceLabel::WritableStreams,
        }
    }
}

/// How a health check is shown: protocol, port and path.
pub open spec fn health_check_text(h: Option<HealthCheck>) -> Seq<char> {
    match h {
        Some(hc) => match hc.protocol {
            Some(p) => p@ + ":"@ + decimal(hc.port as nat) + "/"@ + hc.path@,
            None => decimal(hc.port as nat) + "/"@ + hc.path@,
        },
        None => Seq::empty(),
    }
}

/// How the image of a service is shown: by kind and name when it could be
/// parsed into those (`parsed`), as it is otherwise.
pub open spec fn image_text(image: Seq<char>, parsed: Option<(Seq<char>, Seq<char>)>) -> Seq<char> {
    match parsed {
        Some(p) => p.0 + ":"@ + p.1,
        None => image,
    }
}

/// What is shown under `label` for a service with identifier `service_id`,
/// given the kind and name of its image when it could be parsed.
pub open spec fn service_value_view(a: Application, label: ServiceLabel, service_id: Seq<char>, parsed_image: Option<(Seq<char>, Seq<char>)>) -> ValueView {
    match label {
        ServiceLabel::Cpus => ValueView::Plain(a.cpus@),
        ServiceLabel::Env => ValueView::Table(row_views(a.env@)),
        ServiceLabel::ExposedPorts => ValueView::Plain(seq_join(views(a.exposed_ports@), ","@)),
        ServiceLabel::HealthCheck => ValueView::Plain(health_check_text(a.health_check)),
        ServiceLabel::Image => ValueView::Plain(image_text(a.image@, parsed_image)),
        ServiceLabel::Instances => ValueView::Plain(decimal(a.instances as nat)),
        ServiceLabel::Mem => ValueView::Plain(decimal(a.mem as nat)),
        ServiceLabel::Metrics => ValueView::Plain(match a.metrics {
            Some(m) => decimal(m.0 as nat) + ":"@ + m.1@,
            None => Seq::empty(),
        }),
        ServiceLabel::NeedsToken => ValueView::Plain(bool_text(a.needs_token)),
        ServiceLabel::ReadableStreams => ValueView::Plain(seq_join(views(a.readable_streams@), ", "@)),
        ServiceLabel::Secrets => ValueView::Plain(seq_join(views(a.secrets@), ", "@)),
        ServiceLabel::SingleInstance => ValueView::Plain(bool_text(a.single_instance)),
        ServiceLabel::SpreadGroup => ValueView::Plain(match a.spread_group { Some(g) => g@, None => Seq::empty() }),
        ServiceLabel::Target => ValueView::Plain(service_id),
        ServiceLabel::Tasks => ValueView::Plain(Seq::empty()),
        ServiceLabel::Topics => ValueView::Plain(seq_join(views(a.topics@), ", "@)),
        ServiceLabel::User => ValueView::Plain(a.user@),
        ServiceLabel::Volumes => ValueView::Plain(seq_join(views(a.volumes@), ","@)),
        ServiceLabel::WritableStreams => ValueView::Plain(seq_join(views(a.writable_streams@), ", "@)),
    }
}

/// Copies rows of two strings.
fn copy_rows(rows: &Vec<(String, String)>) -> (res: Vec<(String, String)>)
    ensures
        row_views(res@) == row_views(rows@),
{
    let mut res: Vec<(String, String)> = Vec::new();
    let mut i: usize = 0;
    while i < rows.len()
        invariant
            i <= rows.len(),
            row_views(res@) == row_views(rows@).take(i as int),
        decreases rows.len() - i,
    {
        let ghost before = row_views(res@);
        res.push((rows[i].0.clone(), rows[i].1.clone()));
        assert(row_views(res@) =~= before.push((rows@[i as int].0@, rows@[i as int].1@)));
        assert(row_views(rows@).take(i + 1) =~= row_views(rows@).take(i as int).push((rows@[i as int].0@, rows@[i as int].1@)));
        i = i + 1;
    }
    assert(row_views(rows@).take(rows.len() as int) =~= row_views(rows@));
    res
}

impl Application {
    /// What is shown under `label` for this service, whose identifier is
    /// `service_id`, given the kind and name of its image when it could be
    /// parsed.
    pub fn value(&self, label: ServiceLabel, service_id: &str, parsed_image: Option<(&str, &str)>) -> (v: Value)
        ensures
            v@ == service_value_view(*self, label, service_id@, match parsed_image { Some(p) => Some((p.0@, p.1@)), None => None }),
    {
        match label {
            ServiceLabel::Cpus => Value::plain(self.cpus.as_str()),
            ServiceLabel::Env => Value::Table(copy_rows(&self.env)),
            ServiceLabel::ExposedPorts => Value::Plain(join(&self.exposed_ports, ",")),
            ServiceLabel::HealthCheck => match &self.health_check {
                Some(hc) => {
                    let mut s = match &hc.protocol {
                        Some(p) => {
                            let mut s = p.clone();
                            s.append(":");
                            s
                        }
                        None => String::new(),
                    };
                    let port = decimal_string(hc.port);
                    s.append(port.as_str());
                    s.append("/");
                    s.append(hc.path.as_str());
                    Value::Plain(s)
                }
                None => Value::Plain(String::new()),
            },
            ServiceLabel::Image => match parsed_image {
                Some((kind, image)) => {
                    let mut s = String::from_str(kind);
                    s.append(":");
                    s.append(image);
                    Value::Plain(s)
                }
                None => Value::plain(self.image.as_str()),
            },
            ServiceLabel::Instances => Value::Plain(decimal_string(self.instances)),
            ServiceLabel::Mem => Value::Plain(decimal_string(self.mem)),
            ServiceLabel::Metrics => match &self.metrics {
                Some((port, path)) => {
                    let mut s = decimal_string(*port);
                    s.append(":");
                    s.append(path.as_str());
                    Value::Plain(s)
                }
                None => Value::Plain(String::new()),
            },
            ServiceLabel::NeedsToken => Value::plain_bool(self.needs_token),
            ServiceLabel::ReadableStreams => Value::Plain(join(&self.readable_streams, ", ")),
            ServiceLabel::Secrets => Value::Plain(join(&self.secrets, ", ")),
            ServiceLabel::SingleInstance => Value::plain_bool(self.single_instance),
            ServiceLabel::SpreadGroup => match &self.spread_group {
                Some(g) => Value::plain(g.as_str()),
                None => Value::Plain(String::new()),
            },
            ServiceLabel::Target => Value::plain(service_id),
            ServiceLabel::Tasks => Value::Plain(String::new()),
            ServiceLabel::Topics => Value::Plain(join(&self.topics, ", ")),
            ServiceLabel::User => Value::plain(self.user.as_str()),
            ServiceLabel::Volumes => Value::Plain(join(&self.volumes, ",")),
            ServiceLabel::WritableStreams => Value::Plain(join(&self.writable_streams, ", ")),
        }
    }
}

/// A task of a service. Moments and states are held as they are displayed,
/// but for the last update, in milliseconds since the epoch.
pub struct Task {
    pub healthy: Option<bool>,
    pub host: String,
    pub logs: Option<String>,
    pub last_update: Option<i64>,
    pub staged_at: String,
    pub started_at: String,
    pub state: String,
    pub stopped_at: Option<String>,
}

/// The configured and the actual state of a task.
pub struct TaskStatus {
    pub actual: Option<Task>,
    pub configuration: Option<Task>,
}

/// The moment `millis` milliseconds after the epoch, in UTC, as `chrono`
/// displays it; `None` when it is out of range.
pub uninterp spec fn utc_datetime_text(millis: i64) -> Option<Seq<char>>;

/// Calls `chrono::DateTime::from_timestamp_millis` and displays the moment.
/// The result is named by `utc_datetime_text`; what it is, is not stated.
#[verifier::external_body]
fn timestamp_millis_string(millis: i64) -> (res: Option<String>)
    ensures
        match res { Some(s) => Some(s@), None => None } == utc_datetime_text(millis),
{
    chrono::DateTime::from_timestamp_millis(millis).map(|ts| ts.to_string())
}

/// The optional text, or nothing.
pub open spec fn or_empty(o: Option<Seq<char>>) -> Seq<char> {
    match o {
        Some(t) => t,
        None => Seq::empty(),
    }
}

/// What is shown under `label` for task `task_id` of which the actual state,
/// or else the configured state, is `task`; `update` is the displayed
/// moment of its last update.
pub open spec fn task_value_text(task: Option<Task>, label: TaskLabel, task_id: Seq<char>, update: Option<Seq<char>>) -> Seq<char> {
    match task {
        Some(t) => match label {
            TaskLabel::Healthy => match t.healthy { Some(h) => bool_text(h), None => Seq::empty() },
            TaskLabel::HostIpAddress => t.host@,
            TaskLabel::_LastestLog => match t.logs { Some(l) => l@, None => Seq::empty() },
            TaskLabel::LastUpdateAt => or_empty(update),
            TaskLabel::StagedAt => t.staged_at@,
            TaskLabel::StartedAt => t.started_at@,
            TaskLabel::State => t.state@,
            TaskLabel::StoppedAt => match t.stopped_at { Some(s) => s@, None => Seq::empty() },
            TaskLabel::Target => task_id,
        },
        None => Seq::empty(),
    }
}

/// The actual state of a task, or else its configured state.
pub open spec fn shown_task(s: TaskStatus) -> Option<Task> {
    match s.actual {
        Some(a) => Some(a),
        None => s.configuration,
    }
}

/// The text of an optional string, or an empty string.
fn string_or_empty(o: &Option<String>) -> (s: String)
    ensures
        s@ == match o { Some(t) => t@, None => Seq::<char>::empty() },
{
    match o {
        Some(t) => t.clone(),
        None => String::new(),
    }
}

/// What is shown under `label` for a task, given the displayed moment of its
/// last update.
pub fn task_value_with(status: &TaskStatus, label: TaskLabel, task_id: &str, update: Option<String>) -> (s: String)
    ensures
        s@ == task_value_text(shown_task(*status), label, task_id@, match update { Some(u) => Some(u@), None => None }),
{
    let task = match &status.actual {
        Some(a) => Some(a),
        None => match &status.configuration {
            Some(c) => Some(c),
            None => None,
        },
    };
    match task {
        Some(t) => match label {
            TaskLabel::Healthy => match t.healthy {
                Some(h) => bool_string(h),
                None => String::new(),
            },
            TaskLabel::HostIpAddress => t.host.clone(),
            TaskLabel::_LastestLog => string_or_empty(&t.logs),
            TaskLabel::LastUpdateAt => string_or_empty(&update),
            TaskLabel::StagedAt => t.staged_at.clone(),
            TaskLabel::StartedAt => t.started_at.clone(),
            TaskLabel::State => t.state.clone(),
            TaskLabel::StoppedAt => string_or_empty(&t.stopped_at),
            TaskLabel::Target => String::from_str(task_id),
        },
        None => String::new(),
    }
}

impl TaskStatus {
    /// What is shown under `label` for a task with identifier `task_id`.
    pub fn value(&self, label: TaskLabel, task_id: &str) -> (s: String)
        ensures
            s@ == task_value_text(shown_task(*self), label, task_id@, match shown_task(*self) {
                Some(t) => match t.last_update { Some(m) => utc_datetime_text(m), None => None },
                None => None,
            }),
    {
        let task = match &self.actual {
            Some(a) => Some(a),
            None => match &self.configuration {
                Some(c) => Some(c),
                None => None,
            },
        };
        let update = match task {
            Some(t) => match t.last_update {
                Some(m) => timestamp_millis_string(m),
                None => None,
            },
            None => None,
        };
        task_value_with(self, label, task_id, update)
    }
}

} // verus!
