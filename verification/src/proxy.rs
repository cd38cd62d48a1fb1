//! Kafka proxies: the resources that deploying a proxy creates, the
//! secrets that undeploying removes, and how a proxy is shown.
use vstd::prelude::*;
use crate::text::{lex_sorted, sorted_strings, seq_join, views, join, signed_decimal, signed_decimal_string, decimal, decimal_string};
use crate::value::{Value, ValueView, ColumnAlignment, some_or_hide_view, some_or_empty_view};

verus! {

/// The names of the resources that deploying the proxy of a bundle creates.
pub struct ProxyResourceNames {
    pub certificate: String,
    pub ca_certificate_secret: String,
    pub private_key_secret: String,
    pub server_certificate_secret: String,
}

/// The names of the resources that deploying the proxy of bundle `bundle_id`
/// creates: its certificate and the secrets of its ca certificate, private
/// key and server certificate.
pub fn proxy_resource_names(bundle_id: &str) -> (names: ProxyResourceNames)
    ensures
        names.certificate@ == bundle_id@ + "-cert"@,
        names.ca_certificate_secret@ == bundle_id@ + "-ca-cert"@,
        names.private_key_secret@ == bundle_id@ + "-key"@,
        names.server_certificate_secret@ == bundle_id@ + "-server-cert"@,
{
    let mut certificate = String::from_str(bundle_id);
    certificate.append("-cert");
    let mut ca_certificate_secret = String::from_str(bundle_id);
    ca_certificate_secret.append("-ca-cert");
    let mut private_key_secret = String::from_str(bundle_id);
    private_key_secret.append("-key");
    let mut server_certificate_secret = String::from_str(bundle_id);
    server_certificate_secret.append("-server-cert");
    ProxyResourceNames { certificate, ca_certificate_secret, private_key_secret, server_certificate_secret }
}

/// The errors for the resources of a proxy that exist already, in the
/// order certificate, ca certificate secret, private key secret, server
/// certificate secret.
pub open spec fn existing_resource_errors(
    names: ProxyResourceNames,
    certificate_exists: bool,
    ca_secret_exists: bool,
    key_secret_exists: bool,
    server_secret_exists: bool,
) -> Seq<Seq<char>> {
    (if certificate_exists { seq!["certificate"@ + " '"@ + names.certificate@ + "' already exists"@] } else { Seq::empty() })
        + (if ca_secret_exists { seq!["secret"@ + " '"@ + names.ca_certificate_secret@ + "' already exists"@] } else { Seq::empty() })
        + (if key_secret_exists { seq!["secret"@ + " '"@ + names.private_key_secret@ + "' already exists"@] } else { Seq::empty() })
        + (if server_secret_exists { seq!["secret"@ + " '"@ + names.server_certificate_secret@ + "' already exists"@] } else { Seq::empty() })
}

/// `kind` and `name` in the message that a resource already exists.
fn already_exists(kind: &str, name: &str) -> (m: String)
    ensures
        m@ == kind@ + " '"@ + name@ + "' already exists"@,
{
    let mut m = String::from_str(kind);
    m.append(" '");
    m.append(name);
    m.append("' already exists");
    m
}

/// The errors for the resources of a proxy that exist already. Deploying
/// is cancelled exactly when there is one.
pub fn existing_resources(
    names: &ProxyResourceNames,
    certificate_exists: bool,
    ca_secret_exists: bool,
    key_secret_exists: bool,
    server_secret_exists: bool,
) -> (errors: Vec<String>)
    ensures
        views(errors@) == existing_resource_errors(*names, certificate_exists, ca_secret_exists, key_secret_exists, server_secret_exists),
        errors@.len() == 0 <==> !(certificate_exists || ca_secret_exists || key_secret_exists || server_secret_exists),
{
    let mut errors: Vec<String> = Vec::new();
    if certificate_exists {
        errors.push(already_exists("certificate", names.certificate.as_str()));
    }
    if ca_secret_exists {
        errors.push(already_exists("secret", names.ca_certificate_secret.as_str()));
    }
    if key_secret_exists {
        errors.push(already_exists("secret", names.private_key_secret.as_str()));
    }
    if server_secret_exists {
        errors.push(already_exists("secret", names.server_certificate_secret.as_str()));
    }
    assert(views(errors@) =~= existing_resource_errors(*names, certificate_exists, ca_secret_exists, key_secret_exists, server_secret_exists));
    errors
}

/// The number of proxy instances, which cannot be zero.
pub fn proxy_instances(instances: u64) -> (res: Result<u64, String>)
    ensures
        instances > 0 ==> res == Ok::<u64, String>(instances),
        instances == 0 ==> (res matches Err(m) && m@ == "number of instances cannot be zero"@),
{
    if instances == 0 {
        Err(String::from_str("number of instances cannot be zero"))
    } else {
        Ok(instances)
    }
}

/// The zone of a proxy.
#[derive(Debug, PartialEq, Eq, Structural, Clone, Copy)]
pub enum KafkaProxyZone {
    Private,
    Public,
}

impl KafkaProxyZone {
    /// The zone as it is displayed.
    pub open spec fn text(self) -> Seq<char> {
        match self {
            KafkaProxyZone::Private => "private"@,
            KafkaProxyZone::Public => "public"@,
        }
    }

    /// The zone as it is displayed.
    pub fn as_str(&self) -> (s: &'static str)
        ensures
            s@ == self.text(),
    {
        match self {
            KafkaProxyZone::Private => "private",
            KafkaProxyZone::Public => "public",
        }
    }
}

/// The configuration of a Kafka proxy. Processor amounts are held as they
/// are displayed.
pub struct KafkaProxy {
    pub name: Option<String>,
    pub secret_name_ca_chain: String,
    pub certificate: String,
    pub cpus: String,
    pub mem: i64,
    pub instances: u64,
    pub enable_kafka_acl_groups: Option<bool>,
    /// The common name of each validation, if it has one.
    pub validations: Vec<Option<String>>,
    pub schema_store: Option<bool>,
    pub schema_store_cpus: Option<String>,
    pub schema_store_mem: Option<i64>,
    pub zone: KafkaProxyZone,
}

/// The proxy that deploying bundle `bundle_id` creates, with the given
/// processors, memory and instances: its acl groups enabled when the bundle
/// names an acl group, its schema store as the bundle says (with a tenth of
/// a processor and 256 MB), and one validation without a common name.
pub fn proxy_deployment(
    bundle_id: &str,
    names: &ProxyResourceNames,
    cpus: &str,
    mem: u64,
    instances: u64,
    acl_group_enabled: bool,
    enable_schema_store: bool,
    zone: KafkaProxyZone,
) -> (p: KafkaProxy)
    ensures
        (p.name matches Some(n) && n@ == bundle_id@),
        p.secret_name_ca_chain@ == names.ca_certificate_secret@,
        p.certificate@ == names.certificate@,
        p.cpus@ == cpus@,
        p.mem == mem as i64,
        p.instances == instances,
        p.enable_kafka_acl_groups == Some(acl_group_enabled),
        p.validations@.len() == 1 && p.validations@[0] is None,
        p.schema_store == Some(enable_schema_store),
        (p.schema_store_cpus matches Some(c) && c@ == "0.1"@),
        p.schema_store_mem == Some(256i64),
        p.zone == zone,
{
    KafkaProxy {
        name: Some(String::from_str(bundle_id)),
        secret_name_ca_chain: names.ca_certificate_secret.clone(),
        certificate: names.certificate.clone(),
        cpus: String::from_str(cpus),
        mem: #[verifier::truncate] (mem as i64),
        instances,
        enable_kafka_acl_groups: Some(acl_group_enabled),
        validations: vec![None],
        schema_store: Some(enable_schema_store),
        schema_store_cpus: Some(String::from_str("0.1")),
        schema_store_mem: Some(256),
        zone,
    }
}

/// The secrets of a certificate.
pub struct CertificateSecrets {
    pub cert_chain_secret: String,
    pub key_secret: String,
    pub passphrase_secret: Option<String>,
}

/// The certificate that deploying a proxy creates: the server certificate
/// secret as chain, the private key secret as key and no passphrase.
pub fn proxy_certificate(names: &ProxyResourceNames) -> (c: CertificateSecrets)
    ensures
        c.cert_chain_secret@ == names.server_certificate_secret@,
        c.key_secret@ == names.private_key_secret@,
        c.passphrase_secret is None,
{
    CertificateSecrets {
        cert_chain_secret: names.server_certificate_secret.clone(),
        key_secret: names.private_key_secret.clone(),
        passphrase_secret: None,
    }
}

/// The secrets that undeploying a proxy removes: the chain and key secrets
/// of its certificate, its ca chain secret, and the passphrase secret when
/// the certificate has one.
pub open spec fn undeploy_secrets(certificate: CertificateSecrets, ca_chain_secret: Seq<char>) -> Seq<Seq<char>> {
    seq![certificate.cert_chain_secret@, certificate.key_secret@, ca_chain_secret]
        + match certificate.passphrase_secret {
            Some(p) => seq![p@],
            None => Seq::<Seq<char>>::empty(),
        }
}

/// The secrets that undeploying a proxy removes.
pub fn certificate_secrets(certificate: &CertificateSecrets, secret_name_ca_chain: &str) -> (secrets: Vec<String>)
    ensures
        views(secrets@) == undeploy_secrets(*certificate, secret_name_ca_chain@),
{
    let mut secrets: Vec<String> = Vec::new();
    secrets.push(certificate.cert_chain_secret.clone());
    secrets.push(certificate.key_secret.clone());
    secrets.push(String::from_str(secret_name_ca_chain));
    match &certificate.passphrase_secret {
        Some(p) => secrets.push(p.clone()),
        None => {}
    }
    assert(views(secrets@) =~= undeploy_secrets(*certificate, secret_name_ca_chain@));
    secrets
}

/// The secrets shown with a proxy: its ca chain secret and, when its
/// certificate is known, the key, chain and passphrase secrets of the
/// certificate.
pub open spec fn shown_secrets(ca_chain_secret: Seq<char>, certificate: Option<CertificateSecrets>) -> Seq<Seq<char>> {
    seq![ca_chain_secret] + match certificate {
        Some(c) => seq![c.key_secret@, c.cert_chain_secret@] + match c.passphrase_secret {
            Some(p) => seq![p@],
            None => Seq::<Seq<char>>::empty(),
        },
        None => Seq::<Seq<char>>::empty(),
    }
}

/// The secrets shown with a proxy, in lexicographic order.
pub fn shown_secret_names(secret_name_ca_chain: &str, certificate: Option<&CertificateSecrets>) -> (names: Vec<String>)
    ensures
        lex_sorted(views(names@)),
        views(names@).to_multiset() == shown_secrets(secret_name_ca_chain@, match certificate { Some(c) => Some(*c), None => None }).to_multiset(),
{
    let mut names: Vec<String> = Vec::new();
    names.push(String::from_str(secret_name_ca_chain));
    match certificate {
        Some(c) => {
            names.push(c.key_secret.clone());
            names.push(c.cert_chain_secret.clone());
            match &c.passphrase_secret {
                Some(p) => names.push(p.clone()),
                None => {},
            }
        },
        None => {},
    }
    assert(views(names@) =~= shown_secrets(secret_name_ca_chain@, match certificate { Some(c) => Some(*c), None => None }));
    sorted_strings(names)
}

/// The question whether the secrets should be deleted: each name quoted,
/// separated by commas.
pub open spec fn delete_secrets_text(secrets: Seq<Seq<char>>) -> Seq<char> {
    "delete secrets "@ + seq_join(secrets.map_values(|s: Seq<char>| "'"@ + s + "'"@), ", "@) + "?"@
}

/// The question whether the secrets should be deleted.
pub fn delete_secrets_question(secrets: &Vec<String>) -> (q: String)
    ensures
        q@ == delete_secrets_text(views(secrets@)),
{
    let mut quoted: Vec<String> = Vec::new();
    let mut i: usize = 0;
    while i < secrets.len()
        invariant
            i <= secrets.len(),
            views(quoted@) == views(secrets@).map_values(|s: Seq<char>| "'"@ + s + "'"@).take(i as int),
        decreases secrets.len() - i,
    {
        let mut q = String::from_str("'");
        q.append(secrets[i].as_str());
        q.append("'");
        let ghost before = views(quoted@);
        quoted.push(q);
        assert(views(quoted@) =~= before.push("'"@ + secrets@[i as int]@ + "'"@));
        assert(views(secrets@).map_values(|s: Seq<char>| "'"@ + s + "'"@).take(i + 1)
            =~= views(secrets@).map_values(|s: Seq<char>| "'"@ + s + "'"@).take(i as int).push("'"@ + secrets@[i as int]@ + "'"@));
        i = i + 1;
    }
    assert(views(secrets@).map_values(|s: Seq<char>| "'"@ + s + "'"@).take(secrets.len() as int)
        =~= views(secrets@).map_values(|s: Seq<char>| "'"@ + s + "'"@));
    let mut q = String::from_str("delete secrets ");
    let joined = join(&quoted, ", ");
    q.append(joined.as_str());
    q.append("?");
    q
}

/// Labels under which Kafka proxies are shown.
#[derive(Debug, PartialEq, Eq, Structural, Clone, Copy)]
pub enum KafkaProxyLabel {
    AclGroupsEnabled,
    CaChainSecretName,
    Certificate,
    Cpus,
    Instances,
    Mem,
    Name,
    SchemaStore,
    Target,
    Validations,
    Zone,
}

impl KafkaProxyLabel {
    /// The text under which the label is shown.
    pub open spec fn text(self) -> Seq<char> {
        match self {
            KafkaProxyLabel::AclGroupsEnabled => "acl groups"@,
            KafkaProxyLabel::CaChainSecretName => "ca certificate secret"@,
            KafkaProxyLabel::Certificate => "certificate"@,
            KafkaProxyLabel::Cpus => "cpus"@,
            KafkaProxyLabel::Instances => "instances"@,
            KafkaProxyLabel::Mem => "memory"@,
            KafkaProxyLabel::Name => "name"@,
            KafkaProxyLabel::SchemaStore => "schema store"@,
            KafkaProxyLabel::Target => "proxy id"@,
            KafkaProxyLabel::Validations => "validations"@,
            KafkaProxyLabel::Zone => "zone"@,
        }
    }

    /// The text under which the label is shown.
    pub fn as_str(&self) -> (s: &'static str)
        ensures
            s@ == self.text(),
    {
        match self {
            KafkaProxyLabel::AclGroupsEnabled => "acl groups",
            KafkaProxyLabel::CaChainSecretName => "ca certificate secret",
            KafkaProxyLabel::Certificate => "certificate",
            KafkaProxyLabel::Cpus => "cpus",
            KafkaProxyLabel::Instances => "instances",
            KafkaProxyLabel::Mem => "memory",
            KafkaProxyLabel::Name => "name",
            KafkaProxyLabel::SchemaStore => "schema store",
            KafkaProxyLabel::Target => "proxy id",
            KafkaProxyLabel::Validations => "validations",
            KafkaProxyLabel::Zone => "zone",
        }
    }

    /// The text under which the label is shown as a column of a list.
    pub open spec fn list_text(self) -> Seq<char> {
        match self {
            KafkaProxyLabel::AclGroupsEnabled => "acl groups"@,
            KafkaProxyLabel::CaChainSecretName => "ca certificate"@,
            KafkaProxyLabel::Certificate => "certificate"@,
            KafkaProxyLabel::Cpus => "cpus"@,
            KafkaProxyLabel::Instances => "instances"@,
            KafkaProxyLabel::Mem => "memory"@,
            KafkaProxyLabel::Name => "proxy name"@,
            KafkaProxyLabel::SchemaStore => "schema store"@,
            KafkaProxyLabel::Target => "proxy id"@,
            KafkaProxyLabel::Validations => "validations"@,
            KafkaProxyLabel::Zone => "zone"@,
        }
    }

    /// The text under which the label is shown as a column of a list.
    pub fn as_str_for_list(&self) -> (s: &'static str)
        ensures
            s@ == self.list_text(),
    {
        match self {
            KafkaProxyLabel::AclGroupsEnabled => "acl groups",
            KafkaProxyLabel::CaChainSecretName => "ca certificate",
            KafkaProxyLabel::Certificate => "certificate",
            KafkaProxyLabel::Cpus => "cpus",
            KafkaProxyLabel::Instances => "instances",
            KafkaProxyLabel::Mem => "memory",
            KafkaProxyLabel::Name => "proxy name",
            KafkaProxyLabel::SchemaStore => "schema store",
            KafkaProxyLabel::Target => "proxy id",
            KafkaProxyLabel::Validations => "validations",
            KafkaProxyLabel::Zone => "zone",
        }
    }

    /// Whether the label shows the identifier of the subject.
    pub fn is_target_label(&self) -> (b: bool)
        ensures
            b == (*self == KafkaProxyLabel::Target),
    {
        match self {
            KafkaProxyLabel::Target => true,
            _ => false,
        }
    }

    /// How the values under the label are aligned in a column.
    pub fn column_alignment(&self) -> (c: ColumnAlignment)
        ensures
            c == (if *self == KafkaProxyLabel::Mem { ColumnAlignment::Right } else { ColumnAlignment::Left }),
    {
        match self {
            KafkaProxyLabel::Mem => ColumnAlignment::Right,
            _ => ColumnAlignment::Left,
        }
    }
}

/// Labels under which proxy certificate bundles are shown.
#[derive(Debug, PartialEq, Eq, Structural, Clone, Copy)]
pub enum ProxyBundleLabel {
    AclGroupName,
    Brokers,
    BundleDirectory,
    BundleName,
    CaCommonName,
    ClientId,
    DnsEntries,
    GroupId,
    NumberOfDsnRecords,
    PkiCaCertificateFilename,
    PkiClientCertificateFilename,
    PkiClientKeyFilename,
    Platform,
    PlatformDomain,
    ProxyCommonName,
    ProxyName,
    SchemaStore,
    SchemaStoreEndpoint,
    Tenant,
    VhostZone,
}

impl ProxyBundleLabel {
    /// The text under which the label is shown.
    pub open spec fn text(self) -> Seq<char> {
        match self {
            ProxyBundleLabel::AclGroupName => "acl group name"@,
            ProxyBundleLabel::Brokers => "brokers"@,
            ProxyBundleLabel::BundleDirectory => "bundle directory"@,
            ProxyBundleLabel::BundleName => "bundle"@,
            ProxyBundleLabel::CaCommonName => "ca common name"@,
            ProxyBundleLabel::ClientId => "client id"@,
            ProxyBundleLabel::DnsEntries => "dns entries"@,
            ProxyBundleLabel::GroupId => "group id"@,
            ProxyBundleLabel::NumberOfDsnRecords => "records"@,
            ProxyBundleLabel::PkiCaCertificateFilename => "ca certificate file"@,
            ProxyBundleLabel::PkiClientCertificateFilename => "client certificate file"@,
            ProxyBundleLabel::PkiClientKeyFilename => "client key file"@,
            ProxyBundleLabel::Platform => "platform"@,
            ProxyBundleLabel::PlatformDomain => "platform domain"@,
            ProxyBundleLabel::ProxyCommonName => "proxy common name"@,
            ProxyBundleLabel::ProxyName => "proxy name"@,
            ProxyBundleLabel::SchemaStore => "schema store"@,
            ProxyBundleLabel::SchemaStoreEndpoint => "schema store endpoint"@,
            ProxyBundleLabel::Tenant => "tenant"@,
            ProxyBundleLabel::VhostZone => "vhost zone"@,
        }
    }

    /// The text under which the label is shown.
    pub fn as_str(&self) -> (s: &'static str)
        ensures
            s@ == self.text(),
    {
        match self {
            ProxyBundleLabel::AclGroupName => "acl group name",
            ProxyBundleLabel::Brokers => "brokers",
            ProxyBundleLabel::BundleDirectory => "bundle directory",
            ProxyBundleLabel::BundleName => "bundle",
            ProxyBundleLabel::CaCommonName => "ca common name",
            ProxyBundleLabel::ClientId => "client id",
            ProxyBundleLabel::DnsEntries => "dns entries",
            ProxyBundleLabel::GroupId => "group id",
            ProxyBundleLabel::NumberOfDsnRecords => "records",
            ProxyBundleLabel::PkiCaCertificateFilename => "ca certificate file",
            ProxyBundleLabel::PkiClientCertificateFilename => "client certificate file",
            ProxyBundleLabel::PkiClientKeyFilename => "client key file",
            ProxyBundleLabel::Platform => "platform",
            ProxyBundleLabel::PlatformDomain => "platform domain",
            ProxyBundleLabel::ProxyCommonName => "proxy common name",
            ProxyBundleLabel::ProxyName => "proxy name",
            ProxyBundleLabel::SchemaStore => "schema store",
            ProxyBundleLabel::SchemaStoreEndpoint => "schema store endpoint",
            ProxyBundleLabel::Tenant => "tenant",
            ProxyBundleLabel::VhostZone => "vhost zone",
        }
    }

    /// Whether the label shows the identifier of the subject.
    pub fn is_target_label(&self) -> (b: bool)
        ensures
            b == (*self == ProxyBundleLabel::BundleName),
    {
        match self {
            ProxyBundleLabel::BundleName => true,
            _ => false,
        }
    }
}


/// The optional text, or `NA`.
pub open spec fn text_or_na(o: Option<Seq<char>>) -> Seq<char> {
    match o {
        Some(t) => t,
        None => "NA"@,
    }
}

/// The common names of the validations, empty for one without.
pub open spec fn common_names(validations: Seq<Option<String>>) -> Seq<Seq<char>> {
    validations.map_values(|v: Option<String>| match v { Some(n) => n@, None => Seq::<char>::empty() })
}

/// What is shown under `label` for a proxy with identifier `target_id`.
pub open spec fn kafka_proxy_value_view(p: KafkaProxy, label: KafkaProxyLabel, target_id: Seq<char>) -> ValueView {
    match label {
        KafkaProxyLabel::AclGroupsEnabled => some_or_hide_view(match p.enable_kafka_acl_groups {
            Some(enabled) => Some(if enabled { "enabled"@ } else { "disabled"@ }),
            None => None,
        }),
        KafkaProxyLabel::CaChainSecretName => ValueView::Target(p.secret_name_ca_chain@),
        KafkaProxyLabel::Certificate => ValueView::Target(p.certificate@),
        KafkaProxyLabel::Cpus => ValueView::Plain(p.cpus@),
        KafkaProxyLabel::Instances => ValueView::Plain(decimal(p.instances as nat)),
        KafkaProxyLabel::Mem => ValueView::Plain(signed_decimal(p.mem as int)),
        KafkaProxyLabel::Name => some_or_empty_view(match p.name { Some(n) => Some(n@), None => None }),
        KafkaProxyLabel::SchemaStore => ValueView::Plain(match p.schema_store {
            Some(enabled) => if enabled {
                "enabled (cpus: "@ + text_or_na(match p.schema_store_cpus { Some(c) => Some(c@), None => None }) + ", mem: "@
                    + text_or_na(match p.schema_store_mem { Some(m) => Some(signed_decimal(m as int)), None => None }) + ")"@
            } else {
                "disabled"@
            },
            None => "NA"@,
        }),
        KafkaProxyLabel::Target => ValueView::Target(target_id),
        KafkaProxyLabel::Validations => if p.validations@.len() == 0 {
            ValueView::Hide
        } else {
            ValueView::Plain(seq_join(common_names(p.validations@), "\n"@))
        },
        KafkaProxyLabel::Zone => ValueView::Plain(p.zone.text()),
    }
}

impl KafkaProxy {
    /// What is shown under `label` for this proxy, whose identifier is `target_id`.
    pub fn value(&self, label: KafkaProxyLabel, target_id: &str) -> (v: Value)
        ensures
            v@ == kafka_proxy_value_view(*self, label, target_id@),
    {
        match label {
            KafkaProxyLabel::AclGroupsEnabled => match self.enable_kafka_acl_groups {
                Some(enabled) => Value::plain(if enabled { "enabled" } else { "disabled" }),
                None => Value::Hide,
            },
            KafkaProxyLabel::CaChainSecretName => Value::target(self.secret_name_ca_chain.as_str()),
            KafkaProxyLabel::Certificate => Value::target(self.certificate.as_str()),
            KafkaProxyLabel::Cpus => Value::plain(self.cpus.as_str()),
            KafkaProxyLabel::Instances => Value::Plain(decimal_string(self.instances)),
            KafkaProxyLabel::Mem => Value::Plain(signed_decimal_string(self.mem)),
            KafkaProxyLabel::Name => match &self.name {
                Some(n) => Value::plain(n.as_str()),
                None => Value::Empty,
            },
            KafkaProxyLabel::SchemaStore => match self.schema_store {
                Some(enabled) => {
                    if enabled {
                        let mut s = String::from_str("enabled (cpus: ");
                        match &self.schema_store_cpus {
                            Some(c) => s.append(c.as_str()),
                            None => s.append("NA"),
                        }
                        s.append(", mem: ");
                        match self.schema_store_mem {
                            Some(m) => {
                                let t = signed_decimal_string(m);
                                s.append(t.as_str());
                            }
                            None => s.append("NA"),
                        }
                        s.append(")");
                        Value::Plain(s)
                    } else {
                        Value::plain("disabled")
                    }
                }
                None => Value::plain("NA"),
            },
            KafkaProxyLabel::Target => Value::target(target_id),
            KafkaProxyLabel::Validations => {
                if self.validations.len() == 0 {
                    Value::Hide
                } else {
                    let mut names: Vec<String> = Vec::new();
                    let mut i: usize = 0;
                    while i < self.validations.len()
                        invariant
                            i <= self.validations.len(),
                            views(names@) == common_names(self.validations@).take(i as int),
                        decreases self.validations.len() - i,
                    {
                        let n = match &self.validations[i] {
                            Some(n) => n.clone(),
                            None => String::new(),
                        };
                        let ghost before = views(names@);
                        names.push(n);
                        assert(views(names@) =~= before.push(common_names(self.validations@)[i as int]));
                        assert(common_names(self.validations@).take(i + 1)
                            =~= common_names(self.validations@).take(i as int).push(common_names(self.validations@)[i as int]));
                        i = i + 1;
                    }
                    assert(common_names(self.validations@).take(self.validations.len() as int) =~= common_names(self.validations@));
                    Value::Plain(join(&names, "\n"))
                }
            }
            KafkaProxyLabel::Zone => Value::plain(self.zone.as_str()),
        }
    }
}

} // verus!
