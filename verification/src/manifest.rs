//! App catalog manifests: their configuration properties and resources as
//! they are described to the user.
use vstd::prelude::*;
use crate::text::{seq_join, views, join, str_equal, bool_text, bool_string, signed_decimal, signed_decimal_string};

verus! {

/// The type of a configuration property.
#[derive(Debug, PartialEq, Eq, Structural, Clone, Copy)]
pub enum PropertyKind {
    DnsZone,
    Number,
    String,
}

impl PropertyKind {
    /// The type as it is displayed.
    pub open spec fn text(self) -> Seq<char> {
        match self {
            PropertyKind::DnsZone => "dns-zone"@,
            PropertyKind::Number => "number"@,
            PropertyKind::String => "string"@,
        }
    }

    /// The type as it is displayed.
    pub fn as_str(&self) -> (s: &'static str)
        ensures
            s@ == self.text(),
    {
        match self {
            PropertyKind::DnsZone => "dns-zone",
            PropertyKind::Number => "number",
            PropertyKind::String => "string",
        }
    }
}

/// A configuration property of a manifest.
pub struct Property {
    pub description: String,
    pub kind: PropertyKind,
    pub enumeration: Option<Vec<String>>,
    pub default: Option<String>,
}

/// The view of an optional string.
pub open spec fn opt_text(o: Option<String>) -> Option<Seq<char>> {
    match o {
        Some(s) => Some(s@),
        None => None,
    }
}

/// The mathematical view of a [`Property`].
pub struct PropertyView {
    pub description: Seq<char>,
    pub kind: PropertyKind,
    pub enumeration: Option<Seq<Seq<char>>>,
    pub default: Option<Seq<char>>,
}

impl View for Property {
    type V = PropertyView;

    open spec fn view(&self) -> PropertyView {
        PropertyView {
            description: self.description@,
            kind: self.kind,
            enumeration: match &self.enumeration { Some(e) => Some(views(e@)), None => None },
            default: opt_text(self.default),
        }
    }
}

/// An option, with a star when it is the default.
pub open spec fn marked_option(value: Seq<char>, default: Option<Seq<char>>) -> Seq<char> {
    if default == Some(value) {
        value + "*"@
    } else {
        value
    }
}

/// The options, each marked with a star when it is the default.
pub open spec fn marked_options(values: Seq<Seq<char>>, default: Option<Seq<char>>) -> Seq<Seq<char>> {
    values.map_values(|v: Seq<char>| marked_option(v, default))
}

/// The options, each marked with a star when it is the default.
fn mark_options(values: &Vec<String>, default: &Option<String>) -> (res: Vec<String>)
    ensures
        views(res@) == marked_options(views(values@), opt_text(*default)),
{
    let mut res: Vec<String> = Vec::new();
    let mut i: usize = 0;
    while i < values.len()
        invariant
            i <= values.len(),
            views(res@) == marked_options(views(values@), opt_text(*default)).take(i as int),
        decreases values.len() - i,
    {
        let mut v = values[i].clone();
        let is_default = match default {
            Some(d) => str_equal(d.as_str(), values[i].as_str()),
            None => false,
        };
        if is_default {
            v.append("*");
        }
        let ghost before = views(res@);
        res.push(v);
        assert(views(res@) =~= before.push(marked_option(values@[i as int]@, opt_text(*default))));
        assert(marked_options(views(values@), opt_text(*default)).take(i + 1)
            =~= marked_options(views(values@), opt_text(*default)).take(i as int).push(marked_option(values@[i as int]@, opt_text(*default))));
        i = i + 1;
    }
    assert(marked_options(views(values@), opt_text(*default)).take(values.len() as int)
        =~= marked_options(views(values@), opt_text(*default)));
    res
}

/// How a property is described in a manifest's configuration: its type,
/// a star when it has no default, its description, and its options or its
/// non-empty default.
pub open spec fn property_text(p: PropertyView) -> Seq<char> {
    p.kind.text() + (if p.default is Some { Seq::<char>::empty() } else { "*"@ }) + ": "@ + p.description
        + match p.enumeration {
            Some(e) => "\noptions: "@ + seq_join(marked_options(e, p.default), ", "@),
            None => match p.default {
                Some(d) => if d.len() == 0 { Seq::<char>::empty() } else { "\ndefault: "@ + d },
                None => Seq::<char>::empty(),
            },
        }
}

/// How a property is described in a manifest's configuration.
pub fn property_to_string(property: &Property) -> (s: String)
    ensures
        s@ == property_text(property@),
{
    let mut s = String::from_str(property.kind.as_str());
    if property.default.is_none() {
        s.append("*");
    }
    s.append(": ");
    s.append(property.description.as_str());
    match &property.enumeration {
        Some(e) => {
            s.append("\noptions: ");
            let marked = mark_options(e, &property.default);
            let joined = join(&marked, ", ");
            s.append(joined.as_str());
        }
        None => match &property.default {
            Some(d) => {
                if d.unicode_len() > 0 {
                    s.append("\ndefault: ");
                    s.append(d.as_str());
                }
            }
            None => {}
        },
    }
    assert(s@ =~= property_text(property@));
    s
}

/// Labels under which app manifests are shown.
#[derive(Debug, PartialEq, Eq, Structural, Clone, Copy)]
pub enum ManifestLabel {
    ApiVersion,
    Configuration,
    Contact,
    Description,
    Draft,
    Id,
    Kind,
    LastModified,
    ManifestVersion,
    MoreInfo,
    Name,
    Resources,
    Vendor,
}

impl ManifestLabel {
    /// The text under which the label is shown.
    pub open spec fn text(self) -> Seq<char> {
        match self {
            ManifestLabel::ApiVersion => "api version"@,
            ManifestLabel::Configuration => "configuration"@,
            ManifestLabel::Contact => "contact"@,
            ManifestLabel::Description => "description"@,
            ManifestLabel::Draft => "draft"@,
            ManifestLabel::Id => "app"@,
            ManifestLabel::Kind => "kind"@,
            ManifestLabel::LastModified => "last modified"@,
            ManifestLabel::ManifestVersion => "version"@,
            ManifestLabel::MoreInfo => "more info"@,
            ManifestLabel::Name => "name"@,
            ManifestLabel::Resources => "resources"@,
            ManifestLabel::Vendor => "vendor"@,
        }
    }

    /// The text under which the label is shown.
    pub fn as_str(&self) -> (s: &'static str)
        ensures
            s@ == self.text(),
    {
        match self {
            ManifestLabel::ApiVersion => "api version",
            ManifestLabel::Configuration => "configuration",
            ManifestLabel::Contact => "contact",
            ManifestLabel::Description => "description",
            ManifestLabel::Draft => "draft",
            ManifestLabel::Id => "app",
            ManifestLabel::Kind => "kind",
            ManifestLabel::LastModified => "last modified",
            ManifestLabel::ManifestVersion => "version",
            ManifestLabel::MoreInfo => "more info",
            ManifestLabel::Name => "name",
            ManifestLabel::Resources => "resources",
            ManifestLabel::Vendor => "vendor",
        }
    }

    /// Whether the label shows the identifier of the subject.
    pub fn is_target_label(&self) -> (b: bool)
        ensures
            b == (*self == ManifestLabel::Id),
    {
        match self {
            ManifestLabel::Id => true,
            _ => false,
        }
    }
}

/// Labels under which app manifest configuration properties are shown.
#[derive(Debug, PartialEq, Eq, Structural, Clone, Copy)]
pub enum PropertyLabel {
    _Default,
    Description,
    Enum,
    Id,
    _Type,
}

impl PropertyLabel {
    /// The text under which the label is shown.
    pub open spec fn text(self) -> Seq<char> {
        match self {
            PropertyLabel::_Default => "default"@,
            PropertyLabel::Description => "description"@,
            PropertyLabel::Enum => "value"@,
            PropertyLabel::Id => "property"@,
            PropertyLabel::_Type => "type"@,
        }
    }

    /// The text under which the label is shown.
    pub fn as_str(&self) -> (s: &'static str)
        ensures
            s@ == self.text(),
    {
        match self {
            PropertyLabel::_Default => "default",
            PropertyLabel::Description => "description",
            PropertyLabel::Enum => "value",
            PropertyLabel::Id => "property",
            PropertyLabel::_Type => "type",
        }
    }

    /// Whether the label shows the identifier of the subject.
    pub fn is_target_label(&self) -> (b: bool)
        ensures
            b == (*self == PropertyLabel::Id),
    {
        match self {
            PropertyLabel::Id => true,
            _ => false,
        }
    }
}


/// The text shown under `label` for a property with identifier `target_id`.
pub open spec fn property_value_text(p: PropertyView, label: PropertyLabel, target_id: Seq<char>) -> Seq<char> {
    match label {
        PropertyLabel::_Default => match p.default { Some(d) => d, None => Seq::empty() },
        PropertyLabel::Description => p.description,
        PropertyLabel::Enum => match p.enumeration {
            Some(e) => seq_join(marked_options(e, p.default), ", "@),
            None => match p.default {
                Some(d) => "default: "@ + d,
                None => Seq::empty(),
            },
        },
        PropertyLabel::Id => target_id,
        PropertyLabel::_Type => p.kind.text(),
    }
}

impl Property {
    /// The text shown under `label` for this property, whose identifier is `target_id`.
    pub fn value(&self, label: PropertyLabel, target_id: &str) -> (s: String)
        ensures
            s@ == property_value_text(self@, label, target_id@),
    {
        match label {
            PropertyLabel::_Default => match &self.default {
                Some(d) => d.clone(),
                None => String::new(),
            },
            PropertyLabel::Description => self.description.clone(),
            PropertyLabel::Enum => match &self.enumeration {
                Some(e) => {
                    let marked = mark_options(e, &self.default);
                    join(&marked, ", ")
                }
                None => match &self.default {
                    Some(d) => {
                        let mut s = String::from_str("default: ");
                        s.append(d.as_str());
                        s
                    }
                    None => String::new(),
                },
            },
            PropertyLabel::Id => String::from_str(target_id),
            PropertyLabel::_Type => String::from_str(self.kind.as_str()),
        }
    }
}


/// A number in a manifest, which may also be a template to fill in.
pub enum Numerical {
    /// A floating-point number, as it is displayed.
    Float { text: String },
    Integer { value: i64 },
    Template { template: String },
}

/// How a number of a manifest is displayed.
pub open spec fn numerical_text(n: Numerical) -> Seq<char> {
    match n {
        Numerical::Float { text } => text@,
        Numerical::Integer { value } => signed_decimal(value as int),
        Numerical::Template { template } => template@,
    }
}

/// How a number of a manifest is displayed.
pub fn numerical_to_string(numerical: &Numerical) -> (s: String)
    ensures
        s@ == numerical_text(*numerical),
{
    match numerical {
        Numerical::Float { text } => text.clone(),
        Numerical::Integer { value } => signed_decimal_string(*value),
        Numerical::Template { template } => template.clone(),
    }
}

/// A port that an application resource exposes.
pub struct ExposedPort {
    pub port: String,
    pub vhost: String,
    pub auth: Option<String>,
    pub tls: Option<String>,
}

/// An application that a manifest deploys.
pub struct ApplicationResource {
    pub name: String,
    pub image: String,
    pub cpus: Numerical,
    pub mem: Numerical,
    pub instances: Numerical,
    pub single_instance: bool,
    pub needs_token: bool,
    /// The names of the secrets it uses.
    pub secrets: Option<Vec<String>>,
    pub exposed_ports: Option<Vec<ExposedPort>>,
    /// The path and port of its metrics export.
    pub metrics: Option<(String, i64)>,
    pub user: String,
    pub image_console: Option<String>,
    /// Its environment, one rendered line per variable.
    pub env_lines: Vec<String>,
}

/// A database that a manifest deploys.
pub struct DatabaseResource {
    pub name: String,
    pub cpus: Numerical,
    pub mem: Numerical,
    pub instances: Numerical,
    pub version: String,
    pub extensions: Vec<String>,
    pub snapshot_interval: Numerical,
    pub volume_size: Numerical,
}

/// A topic that a manifest creates.
pub struct TopicResource {
    pub name: String,
    pub partitions: i64,
    pub replication_factor: i64,
    /// Its Kafka properties, rendered as a table.
    pub kafka_properties: Option<String>,
}

/// A resource that a manifest depends upon. Certificates, secrets and
/// vhosts are known by their text alone.
pub enum Resource {
    Application(ApplicationResource),
    Bucket { name: String, encrypted: bool, versioned: bool },
    Certificate(String),
    Database(DatabaseResource),
    Secret(String),
    Topic(TopicResource),
    Vhost(String),
    Volume { name: String, size: Numerical },
}

/// The key under which a resource is listed: its kind and its name.
pub open spec fn resource_key(r: Resource) -> Seq<char> {
    match r {
        Resource::Application(a) => "application: "@ + a.name@,
        Resource::Bucket { name, .. } => "bucket: "@ + name@,
        Resource::Certificate(c) => "certificate: "@ + c@,
        Resource::Database(d) => "database: "@ + d.name@,
        Resource::Secret(s) => "secret: "@ + s@,
        Resource::Topic(t) => "topic: "@ + t.name@,
        Resource::Vhost(v) => "vhost: "@ + v@,
        Resource::Volume { name, .. } => "volume: "@ + name@,
    }
}

/// The key under which a resource is listed.
pub fn resource_to_key(resource: &Resource) -> (s: String)
    ensures
        s@ == resource_key(*resource),
{
    let (prefix, name) = match resource {
        Resource::Application(a) => ("application: ", a.name.as_str()),
        Resource::Bucket { name, .. } => ("bucket: ", name.as_str()),
        Resource::Certificate(c) => ("certificate: ", c.as_str()),
        Resource::Database(d) => ("database: ", d.name.as_str()),
        Resource::Secret(x) => ("secret: ", x.as_str()),
        Resource::Topic(t) => ("topic: ", t.name.as_str()),
        Resource::Vhost(v) => ("vhost: ", v.as_str()),
        Resource::Volume { name, .. } => ("volume: ", name.as_str()),
    };
    let mut s = String::from_str(prefix);
    s.append(name);
    s
}

/// The line of an exposed port: its port and vhost, and its authentication
/// and tls when they are given.
pub open spec fn exposed_port_line(p: ExposedPort) -> Seq<char> {
    "port: "@ + p.port@ + ", vhost: "@ + p.vhost@
        + match p.auth { Some(a) => ", auth: "@ + a@, None => Seq::<char>::empty() }
        + match p.tls { Some(t) => ", tls: "@ + t@, None => Seq::<char>::empty() }
}

/// The lines that describe an application resource.
pub open spec fn application_lines(a: ApplicationResource) -> Seq<Seq<char>> {
    seq![
        "image: "@ + a.image@,
        "cpus: "@ + numerical_text(a.cpus),
        "mem: "@ + numerical_text(a.mem) + " (MB)"@,
        "instances: "@ + numerical_text(a.instances),
        "single instance: "@ + bool_text(a.single_instance),
        "needs token: "@ + bool_text(a.needs_token)
    ]
        + match a.secrets {
            Some(names) => views(names@).map_values(|n: Seq<char>| "secret: "@ + n),
            None => Seq::<Seq<char>>::empty(),
        }
        + match a.exposed_ports {
            Some(ports) => ports@.map_values(|p: ExposedPort| exposed_port_line(p)),
            None => Seq::<Seq<char>>::empty(),
        }
        + match a.metrics {
            Some(m) => seq!["metrics: "@ + m.0@ + ":"@ + signed_decimal(m.1 as int)],
            None => Seq::<Seq<char>>::empty(),
        }
        + seq!["user: "@ + a.user@]
        + match a.image_console {
            Some(c) => seq!["image console: "@ + c@],
            None => Seq::<Seq<char>>::empty(),
        }
        + views(a.env_lines@)
}

/// The lines that describe a resource of a manifest.
pub open spec fn resource_lines(r: Resource) -> Seq<Seq<char>> {
    match r {
        Resource::Application(a) => application_lines(a),
        Resource::Bucket { encrypted, versioned, .. } => seq!["encrypted: "@ + bool_text(encrypted), "versioned: "@ + bool_text(versioned)],
        Resource::Certificate(c) => seq![c@],
        Resource::Database(d) => seq![
            "cpus: "@ + numerical_text(d.cpus),
            "mem: "@ + numerical_text(d.mem),
            "instances: "@ + numerical_text(d.instances),
            "version: "@ + d.version@,
            "extensions: "@ + seq_join(views(d.extensions@), ", "@),
            "snapshot interval: "@ + numerical_text(d.snapshot_interval),
            "volume size: "@ + numerical_text(d.volume_size)
        ],
        Resource::Secret(s) => seq![s@],
        Resource::Topic(t) => seq!["partitions: "@ + signed_decimal(t.partitions as int), "replication factor: "@ + signed_decimal(t.replication_factor as int)]
            + match t.kafka_properties {
                Some(k) => seq![k@],
                None => Seq::<Seq<char>>::empty(),
            },
        Resource::Vhost(v) => seq![v@],
        Resource::Volume { size, .. } => seq!["size: "@ + numerical_text(size) + " (GB)"@],
    }
}

/// `prefix` followed by `text`.
fn prefixed(prefix: &str, text: &str) -> (s: String)
    ensures
        s@ == prefix@ + text@,
{
    let mut s = String::from_str(prefix);
    s.append(text);
    s
}

/// Appends a copy of every string of `more`.
fn push_all(lines: &mut Vec<String>, more: &Vec<String>)
    ensures
        views(final(lines)@) == views(old(lines)@) + views(more@),
{
    let ghost start = views(lines@);
    let mut i: usize = 0;
    while i < more.len()
        invariant
            i <= more.len(),
            views(lines@) == start + views(more@).take(i as int),
        decreases more.len() - i,
    {
        let ghost before = views(lines@);
        lines.push(more[i].clone());
        assert(views(lines@) =~= before.push(more@[i as int]@));
        assert(views(more@).take(i + 1) =~= views(more@).take(i as int).push(more@[i as int]@));
        i = i + 1;
    }
    assert(views(more@).take(more.len() as int) =~= views(more@));
}

/// The lines that describe an application resource.
fn application_to_strings(a: &ApplicationResource) -> (lines: Vec<String>)
    ensures
        views(lines@) == application_lines(*a),
{
    let mut lines: Vec<String> = Vec::new();
    lines.push(prefixed("image: ", a.image.as_str()));
    let t = numerical_to_string(&a.cpus);
    lines.push(prefixed("cpus: ", t.as_str()));
    let t = numerical_to_string(&a.mem);
    let mut m = prefixed("mem: ", t.as_str());
    m.append(" (MB)");
    lines.push(m);
    let t = numerical_to_string(&a.instances);
    lines.push(prefixed("instances: ", t.as_str()));
    let t = bool_string(a.single_instance);
    lines.push(prefixed("single instance: ", t.as_str()));
    let t = bool_string(a.needs_token);
    lines.push(prefixed("needs token: ", t.as_str()));
    let ghost fixed = views(lines@);
    assert(fixed =~= seq![
        "image: "@ + a.image@,
        "cpus: "@ + numerical_text(a.cpus),
        "mem: "@ + numerical_text(a.mem) + " (MB)"@,
        "instances: "@ + numerical_text(a.instances),
        "single instance: "@ + bool_text(a.single_instance),
        "needs token: "@ + bool_text(a.needs_token)
    ]);
    match &a.secrets {
        Some(names) => {
            let mut i: usize = 0;
            while i < names.len()
                invariant
                    i <= names.len(),
                    views(lines@) == fixed + views(names@).map_values(|n: Seq<char>| "secret: "@ + n).take(i as int),
                decreases names.len() - i,
            {
                let ghost before = views(lines@);
                lines.push(prefixed("secret: ", names[i].as_str()));
                assert(views(lines@) =~= before.push("secret: "@ + names@[i as int]@));
                assert(views(names@).map_values(|n: Seq<char>| "secret: "@ + n).take(i + 1)
                    =~= views(names@).map_values(|n: Seq<char>| "secret: "@ + n).take(i as int).push("secret: "@ + names@[i as int]@));
                i = i + 1;
            }
            assert(views(names@).map_values(|n: Seq<char>| "secret: "@ + n).take(names.len() as int)
                =~= views(names@).map_values(|n: Seq<char>| "secret: "@ + n));
        }
        None => {
            assert(views(lines@) =~= fixed + Seq::<Seq<char>>::empty());
        }
    }
    let ghost with_secrets = views(lines@);
    match &a.exposed_ports {
        Some(ports) => {
            let mut i: usize = 0;
            while i < ports.len()
                invariant
                    i <= ports.len(),
                    views(lines@) == with_secrets + ports@.map_values(|p: ExposedPort| exposed_port_line(p)).take(i as int),
                decreases ports.len() - i,
            {
                let p = &ports[i];
                let mut line = prefixed("port: ", p.port.as_str());
                line.append(", vhost: ");
                line.append(p.vhost.as_str());
                match &p.auth {
                    Some(x) => {
                        line.append(", auth: ");
                        line.append(x.as_str());
                    }
                    None => {}
                }
                match &p.tls {
                    Some(x) => {
                        line.append(", tls: ");
                        line.append(x.as_str());
                    }
                    None => {}
                }
                assert(line@ =~= exposed_port_line(*p));
                let ghost before = views(lines@);
                lines.push(line);
                assert(views(lines@) =~= before.push(exposed_port_line(ports@[i as int])));
                assert(ports@.map_values(|p: ExposedPort| exposed_port_line(p)).take(i + 1)
                    =~= ports@.map_values(|p: ExposedPort| exposed_port_line(p)).take(i as int).push(exposed_port_line(ports@[i as int])));
                i = i + 1;
            }
            assert(ports@.map_values(|p: ExposedPort| exposed_port_line(p)).take(ports.len() as int)
                =~= ports@.map_values(|p: ExposedPort| exposed_port_line(p)));
        }
        None => {
            assert(views(lines@) =~= with_secrets + Seq::<Seq<char>>::empty());
        }
    }
    let ghost with_ports = views(lines@);
    match &a.metrics {
        Some((path, port)) => {
            let mut line = prefixed("metrics: ", path.as_str());
            line.append(":");
            let t = signed_decimal_string(*port);
            line.append(t.as_str());
            lines.push(line);
        }
        None => {}
    }
    let ghost with_metrics = views(lines@);
    assert(with_metrics =~= with_ports + match a.metrics {
        Some(m) => seq!["metrics: "@ + m.0@ + ":"@ + signed_decimal(m.1 as int)],
        None => Seq::<Seq<char>>::empty(),
    });
    lines.push(prefixed("user: ", a.user.as_str()));
    match &a.image_console {
        Some(c) => {
            lines.push(prefixed("image console: ", c.as_str()));
        }
        None => {}
    }
    let ghost with_console = views(lines@);
    assert(with_console =~= with_metrics + seq!["user: "@ + a.user@] + match a.image_console {
        Some(c) => seq!["image console: "@ + c@],
        None => Seq::<Seq<char>>::empty(),
    });
    push_all(&mut lines, &a.env_lines);
    assert(views(lines@) =~= application_lines(*a));
    lines
}

/// The lines that describe a resource of a manifest.
pub fn resource_to_strings(resource: &Resource) -> (lines: Vec<String>)
    ensures
        views(lines@) == resource_lines(*resource),
{
    match resource {
        Resource::Application(a) => application_to_strings(a),
        Resource::Bucket { encrypted, versioned, .. } => {
            let mut lines: Vec<String> = Vec::new();
            let t = bool_string(*encrypted);
            lines.push(prefixed("encrypted: ", t.as_str()));
            let t = bool_string(*versioned);
            lines.push(prefixed("versioned: ", t.as_str()));
            assert(views(lines@) =~= resource_lines(*resource));
            lines
        }
        Resource::Certificate(c) => {
            let lines = vec![c.clone()];
            assert(views(lines@) =~= resource_lines(*resource));
            lines
        }
        Resource::Database(d) => {
            let mut lines: Vec<String> = Vec::new();
            let t = numerical_to_string(&d.cpus);
            lines.push(prefixed("cpus: ", t.as_str()));
            let t = numerical_to_string(&d.mem);
            lines.push(prefixed("mem: ", t.as_str()));
            let t = numerical_to_string(&d.instances);
            lines.push(prefixed("instances: ", t.as_str()));
            lines.push(prefixed("version: ", d.version.as_str()));
            let t = join(&d.extensions, ", ");
            lines.push(prefixed("extensions: ", t.as_str()));
            let t = numerical_to_string(&d.snapshot_interval);
            lines.push(prefixed("snapshot interval: ", t.as_str()));
            let t = numerical_to_string(&d.volume_size);
            lines.push(prefixed("volume size: ", t.as_str()));
            assert(views(lines@) =~= resource_lines(*resource));
            lines
        }
        Resource::Secret(x) => {
            let lines = vec![x.clone()];
            assert(views(lines@) =~= resource_lines(*resource));
            lines
        }
        Resource::Topic(t) => {
            let mut lines: Vec<String> = Vec::new();
            let p = signed_decimal_string(t.partitions);
            lines.push(prefixed("partitions: ", p.as_str()));
            let r = signed_decimal_string(t.replication_factor);
            lines.push(prefixed("replication factor: ", r.as_str()));
            match &t.kafka_properties {
                Some(k) => lines.push(k.clone()),
                None => {}
            }
            assert(views(lines@) =~= resource_lines(*resource));
            lines
        }
        Resource::Vhost(v) => {
            let lines = vec![v.clone()];
            assert(views(lines@) =~= resource_lines(*resource));
            lines
        }
        Resource::Volume { size, .. } => {
            let t = numerical_to_string(size);
            let mut line = prefixed("size: ", t.as_str());
            line.append(" (GB)");
            let lines = vec![line];
            assert(views(lines@) =~= resource_lines(*resource));
            lines
        }
    }
}


/// An app catalog manifest.
pub struct Manifest {
    pub draft: bool,
    pub last_modified: String,
    pub id: String,
    pub name: String,
    /// The version, as it is displayed.
    pub version: String,
    pub vendor: String,
    pub kind: Option<String>,
    pub api_version: Option<String>,
    pub description: Option<String>,
    /// Further information, in markdown.
    pub more_info: Option<String>,
    pub contact: String,
    /// The configuration properties by identifier.
    pub configuration: Option<Vec<(String, Property)>>,
    pub resources: Vec<Resource>,
}

/// What is shown under a manifest label: a text, or a table of keys with
/// their lines.
#[derive(Debug, PartialEq)]
pub enum ManifestValue {
    Text(String),
    Table(Vec<(String, Vec<String>)>),
}

/// The mathematical view of a [`ManifestValue`].
pub enum ManifestValueView {
    Text(Seq<char>),
    Table(Seq<(Seq<char>, Seq<Seq<char>>)>),
}

impl View for ManifestValue {
    type V = ManifestValueView;

    open spec fn view(&self) -> ManifestValueView {
        match self {
            ManifestValue::Text(t) => ManifestValueView::Text(t@),
            ManifestValue::Table(rows) => ManifestValueView::Table(rows@.map_values(|r: (String, Vec<String>)| (r.0@, views(r.1@)))),
        }
    }
}

/// The optional text, or nothing.
pub open spec fn text_or_empty(o: Option<String>) -> Seq<char> {
    match o {
        Some(t) => t@,
        None => Seq::empty(),
    }
}

/// The optional text, or an empty string.
fn string_or_empty(o: &Option<String>) -> (s: String)
    ensures
        s@ == text_or_empty(*o),
{
    match o {
        Some(t) => t.clone(),
        None => String::new(),
    }
}

/// The configuration table: per property its identifier and description.
pub open spec fn configuration_table(properties: Seq<(String, Property)>) -> Seq<(Seq<char>, Seq<Seq<char>>)> {
    properties.map_values(|e: (String, Property)| (e.0@, seq![property_text(e.1@)]))
}

/// The resource table: per resource its key and its lines.
pub open spec fn resource_table(resources: Seq<Resource>) -> Seq<(Seq<char>, Seq<Seq<char>>)> {
    resources.map_values(|r: Resource| (resource_key(r), resource_lines(r)))
}

/// What is shown under `label` for a manifest with identifier `target_id`,
/// with `more_info` the rendered further information.
pub open spec fn manifest_value_view(m: Manifest, label: ManifestLabel, target_id: Seq<char>, more_info: Seq<char>) -> ManifestValueView {
    match label {
        ManifestLabel::ApiVersion => ManifestValueView::Text(text_or_empty(m.api_version)),
        ManifestLabel::Configuration => match m.configuration {
            Some(properties) => ManifestValueView::Table(configuration_table(properties@)),
            None => ManifestValueView::Text(Seq::empty()),
        },
        ManifestLabel::Contact => ManifestValueView::Text(m.contact@),
        ManifestLabel::Description => ManifestValueView::Text(text_or_empty(m.description)),
        ManifestLabel::Draft => ManifestValueView::Text(bool_text(m.draft)),
        ManifestLabel::Id => ManifestValueView::Text(target_id),
        ManifestLabel::Kind => ManifestValueView::Text(text_or_empty(m.kind)),
        ManifestLabel::LastModified => ManifestValueView::Text(m.last_modified@),
        ManifestLabel::ManifestVersion => ManifestValueView::Text(m.version@),
        ManifestLabel::MoreInfo => ManifestValueView::Text(if m.more_info is Some { more_info } else { Seq::empty() }),
        ManifestLabel::Name => ManifestValueView::Text(m.name@),
        ManifestLabel::Resources => ManifestValueView::Table(resource_table(m.resources@)),
        ManifestLabel::Vendor => ManifestValueView::Text(m.vendor@),
    }
}

/// Calls `termimad::text` on the markdown and renders the result. The
/// rendering depends on the environment (whether colors are switched off),
/// so nothing is claimed of the text.
#[verifier::external_body]
fn render_markdown(markdown: &str) -> (text: String)
{
    termimad::text(markdown).to_string()
}

/// What is shown under `label` for a manifest with identifier `target_id`,
/// given the rendered further information.
pub fn manifest_value(manifest: &Manifest, label: ManifestLabel, target_id: &str, more_info: &str) -> (v: ManifestValue)
    ensures
        v@ == manifest_value_view(*manifest, label, target_id@, more_info@),
{
    match label {
        ManifestLabel::ApiVersion => ManifestValue::Text(string_or_empty(&manifest.api_version)),
        ManifestLabel::Configuration => match &manifest.configuration {
            Some(properties) => {
                let mut rows: Vec<(String, Vec<String>)> = Vec::new();
                let mut i: usize = 0;
                while i < properties.len()
                    invariant
                        i <= properties.len(),
                        rows@.map_values(|r: (String, Vec<String>)| (r.0@, views(r.1@))) == configuration_table(properties@).take(i as int),
                    decreases properties.len() - i,
                {
                    let line = property_to_string(&properties[i].1);
                    let lines = vec![line];
                    assert(views(lines@) =~= seq![property_text(properties@[i as int].1@)]);
                    let ghost before = rows@.map_values(|r: (String, Vec<String>)| (r.0@, views(r.1@)));
                    rows.push((properties[i].0.clone(), lines));
                    assert(rows@.map_values(|r: (String, Vec<String>)| (r.0@, views(r.1@)))
                        =~= before.push((properties@[i as int].0@, seq![property_text(properties@[i as int].1@)])));
                    assert(configuration_table(properties@).take(i + 1)
                        =~= configuration_table(properties@).take(i as int).push((properties@[i as int].0@, seq![property_text(properties@[i as int].1@)])));
                    i = i + 1;
                }
                assert(configuration_table(properties@).take(properties.len() as int) =~= configuration_table(properties@));
                ManifestValue::Table(rows)
            }
            None => ManifestValue::Text(String::new()),
        },
        ManifestLabel::Contact => ManifestValue::Text(manifest.contact.clone()),
        ManifestLabel::Description => ManifestValue::Text(string_or_empty(&manifest.description)),
        ManifestLabel::Draft => ManifestValue::Text(bool_string(manifest.draft)),
        ManifestLabel::Id => ManifestValue::Text(String::from_str(target_id)),
        ManifestLabel::Kind => ManifestValue::Text(string_or_empty(&manifest.kind)),
        ManifestLabel::LastModified => ManifestValue::Text(manifest.last_modified.clone()),
        ManifestLabel::ManifestVersion => ManifestValue::Text(manifest.version.clone()),
        ManifestLabel::MoreInfo => {
            if manifest.more_info.is_some() {
                ManifestValue::Text(String::from_str(more_info))
            } else {
                ManifestValue::Text(String::new())
            }
        }
        ManifestLabel::Name => ManifestValue::Text(manifest.name.clone()),
        ManifestLabel::Resources => {
            let mut rows: Vec<(String, Vec<String>)> = Vec::new();
            let mut i: usize = 0;
            while i < manifest.resources.len()
                invariant
                    i <= manifest.resources.len(),
                    rows@.map_values(|r: (String, Vec<String>)| (r.0@, views(r.1@))) == resource_table(manifest.resources@).take(i as int),
                decreases manifest.resources.len() - i,
            {
                let r = &manifest.resources[i];
                let key = resource_to_key(r);
                let lines = resource_to_strings(r);
                let ghost before = rows@.map_values(|r: (String, Vec<String>)| (r.0@, views(r.1@)));
                rows.push((key, lines));
                assert(rows@.map_values(|r: (String, Vec<String>)| (r.0@, views(r.1@)))
                    =~= before.push((resource_key(*r), resource_lines(*r))));
                assert(resource_table(manifest.resources@).take(i + 1)
                    =~= resource_table(manifest.resources@).take(i as int).push((resource_key(*r), resource_lines(*r))));
                i = i + 1;
            }
            assert(resource_table(manifest.resources@).take(manifest.resources.len() as int) =~= resource_table(manifest.resources@));
            ManifestValue::Table(rows)
        }
        ManifestLabel::Vendor => ManifestValue::Text(manifest.vendor.clone()),
    }
}

impl Manifest {
    /// What is shown under `label` for this manifest, whose identifier is
    /// `target_id`; the further information is rendered from markdown.
    pub fn value(&self, label: ManifestLabel, target_id: &str) -> (v: ManifestValue)
        ensures
            label != ManifestLabel::MoreInfo ==> v@ == manifest_value_view(*self, label, target_id@, Seq::empty()),
            label == ManifestLabel::MoreInfo && self.more_info is None ==> v@ == ManifestValueView::Text(Seq::empty()),
            label == ManifestLabel::MoreInfo ==> v@ is Text,
    {
        let rendered = match &self.more_info {
            Some(markdown) => {
                if label == ManifestLabel::MoreInfo {
                    render_markdown(markdown.as_str())
                } else {
                    String::new()
                }
            }
            None => String::new(),
        };
        manifest_value(self, label, target_id, rendered.as_str())
    }
}

} // verus!
