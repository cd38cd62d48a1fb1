//! Proxy certificate bundles: the choices made when a bundle is created and
//! how its configuration is shown.
use vstd::prelude::*;
use crate::proxy::KafkaProxyZone;
use crate::text::{decimal, decimal_string, str_equal};
use crate::value::{Value, ValueView, some_or_hide_view};

verus! {

/// The zone of a vhost.
#[derive(Debug, PartialEq, Eq, Structural, Clone, Copy)]
pub enum VhostZone {
    Private,
    Public,
}

impl VhostZone {
    /// The zone as it is displayed.
    pub open spec fn text(self) -> Seq<char> {
        match self {
            VhostZone::Private => "private"@,
            VhostZone::Public => "public"@,
        }
    }

    /// The zone as it is displayed.
    pub fn as_str(&self) -> (s: &'static str)
        ensures
            s@ == self.text(),
    {
        match self {
            VhostZone::Private => "private",
            VhostZone::Public => "public",
        }
    }
}

/// The zone of the proxy for a vhost zone.
pub fn kafka_proxy_zone(zone: VhostZone) -> (z: KafkaProxyZone)
    ensures
        z.text() == zone.text(),
{
    match zone {
        VhostZone::Private => KafkaProxyZone::Private,
        VhostZone::Public => KafkaProxyZone::Public,
    }
}

/// The zone named `text`: `private` or `public`, as `VhostZone::from_str`
/// of the api library reads it, which reports any other text as a
/// parameter error.
pub open spec fn vhost_zone_of(text: Seq<char>) -> Result<VhostZone, Seq<char>> {
    if text == "private"@ {
        Ok(VhostZone::Private)
    } else if text == "public"@ {
        Ok(VhostZone::Public)
    } else {
        Err("parameter error: invalid vhost zone '"@ + text + "'"@)
    }
}

/// The zone named `text`.
pub fn parse_vhost_zone(text: &str) -> (res: Result<VhostZone, String>)
    ensures
        match res { Ok(z) => Ok(z), Err(e) => Err(e@) } == vhost_zone_of(text@),
{
    proof {
        reveal_strlit("private");
        reveal_strlit("public");
    }
    if str_equal(text, "private") {
        Ok(VhostZone::Private)
    } else if str_equal(text, "public") {
        Ok(VhostZone::Public)
    } else {
        let mut m = String::from_str("parameter error: invalid vhost zone '");
        m.append(text);
        m.append("'");
        Err(m)
    }
}

/// The zone chosen for a new bundle: the one given as option, else the one
/// entered, where nothing entered means private.
pub open spec fn chosen_vhost_zone(option: Option<Seq<char>>, entered: Seq<char>) -> Result<VhostZone, Seq<char>> {
    match option {
        Some(o) => vhost_zone_of(o),
        None => if entered.len() == 0 { Ok(VhostZone::Private) } else { vhost_zone_of(entered) },
    }
}

/// The zone chosen for a new bundle, from the option or what the user entered.
pub fn choose_vhost_zone(option: Option<&str>, entered: &str) -> (res: Result<VhostZone, String>)
    ensures
        match res { Ok(z) => Ok(z), Err(e) => Err(e@) } == chosen_vhost_zone(match option { Some(o) => Some(o@), None => None }, entered@),
{
    match option {
        Some(o) => parse_vhost_zone(o),
        None => {
            if entered.unicode_len() == 0 {
                Ok(VhostZone::Private)
            } else {
                parse_vhost_zone(entered)
            }
        }
    }
}

/// The acl group entered for a new bundle, which cannot be empty.
pub fn entered_acl_group_id(entered: &str) -> (res: Result<String, String>)
    ensures
        entered@.len() > 0 ==> (res matches Ok(id) && id@ == entered@),
        entered@.len() == 0 ==> (res matches Err(m) && m@ == "acl group id cannot be empty"@),
{
    if entered.unicode_len() == 0 {
        Err(String::from_str("acl group id cannot be empty"))
    } else {
        Ok(String::from_str(entered))
    }
}

/// The acl group name entered for a new bundle, which cannot be empty.
pub fn entered_acl_group_name(entered: &str) -> (res: Result<String, String>)
    ensures
        entered@.len() > 0 ==> (res matches Ok(name) && name@ == entered@),
        entered@.len() == 0 ==> (res matches Err(m) && m@ == "acl group name cannot be empty"@),
{
    if entered.unicode_len() == 0 {
        Err(String::from_str("acl group name cannot be empty"))
    } else {
        Ok(String::from_str(entered))
    }
}

/// What the user entered, or the default when nothing was entered: the
/// user's name for the common name of the certificate authority, the bundle
/// name for the broker prefix.
pub fn entered_or_default(entered: &str, default_name: &str) -> (name: String)
    ensures
        name@ == if entered@.len() == 0 { default_name@ } else { entered@ },
{
    if entered.unicode_len() == 0 {
        String::from_str(default_name)
    } else {
        String::from_str(entered)
    }
}

/// The usual number of dns records of a proxy.
pub const DEFAULT_NUMBER_OF_DNS_RECORDS: u64 = 10;

/// What is done with the number of dns records asked for: fewer than the
/// usual ten need the user's confirmation, any other choice is the usual ten.
#[derive(Debug, PartialEq)]
pub enum DnsRecordsChoice {
    /// The usual number.
    Default,
    /// The user must confirm this smaller number.
    Confirm(u64),
}

/// What is done with the number of dns records asked for.
pub fn dns_records_choice(asked: Option<u64>) -> (c: DnsRecordsChoice)
    ensures
        match asked {
            Some(n) => if n < 10 { c == DnsRecordsChoice::Confirm(n) } else { c == DnsRecordsChoice::Default },
            None => c == DnsRecordsChoice::Default,
        },
{
    match asked {
        Some(n) => {
            if n < DEFAULT_NUMBER_OF_DNS_RECORDS {
                DnsRecordsChoice::Confirm(n)
            } else {
                DnsRecordsChoice::Default
            }
        }
        None => DnsRecordsChoice::Default,
    }
}

/// The number of dns records, given the number asked for and, when that is
/// fewer than the usual ten, whether the user confirmed it: the usual ten
/// when nothing or at least ten is asked for, the confirmed smaller number,
/// or the error `cancelled` when it is not confirmed.
pub fn number_of_dns_records(asked: Option<u64>, confirmed: bool) -> (res: Result<u64, String>)
    ensures
        match asked {
            Some(n) => if n < 10 {
                if confirmed { res == Ok::<u64, String>(n) } else { res is Err && res->Err_0@ == "cancelled"@ }
            } else {
                res == Ok::<u64, String>(10)
            },
            None => res == Ok::<u64, String>(10),
        },
{
    match dns_records_choice(asked) {
        DnsRecordsChoice::Default => Ok(DEFAULT_NUMBER_OF_DNS_RECORDS),
        DnsRecordsChoice::Confirm(n) => {
            if confirmed {
                Ok(n)
            } else {
                Err(String::from_str("cancelled"))
            }
        },
    }
}

/// The warning that a bundle exists already for a platform and tenant.
pub fn bundle_exists_warning(bundle_id: &str, platform: &str, tenant: &str) -> (m: String)
    ensures
        m@ == "proxy certificate bundle '"@ + bundle_id@ + "' already exists for '"@ + platform@ + "@"@ + tenant@ + "'"@,
{
    let mut m = String::from_str("proxy certificate bundle '");
    m.append(bundle_id);
    m.append("' already exists for '");
    m.append(platform);
    m.append("@");
    m.append(tenant);
    m.append("'");
    m
}

/// Whether creating a bundle goes on: it does unless the bundle exists and
/// the user declined to override it, which ends with `cancelled`.
pub fn bundle_override(exists: bool, override_confirmed: bool) -> (res: Result<(), String>)
    ensures
        exists && !override_confirmed ==> (res is Err && res->Err_0@ == "cancelled"@),
        !(exists && !override_confirmed) ==> res is Ok,
{
    if exists && !override_confirmed {
        Err(String::from_str("cancelled"))
    } else {
        Ok(())
    }
}

/// What is reported about storing a new bundle: in dry-run mode the warning
/// that it is not stored (`Err`), else where it was stored (`Ok`).
pub fn bundle_store_report(dry_run: bool, bundle_id: &str, directory: &str) -> (res: Result<String, String>)
    ensures
        dry_run ==> (res is Err && res->Err_0@ == "dry-run mode, proxy certificates bundle not stored"@),
        !dry_run ==> (res is Ok && res->Ok_0@ == "proxy certificates bundle '"@ + bundle_id@ + "' stored in directory '"@ + directory@ + "'"@),
{
    if dry_run {
        Err(String::from_str("dry-run mode, proxy certificates bundle not stored"))
    } else {
        let mut m = String::from_str("proxy certificates bundle '");
        m.append(bundle_id);
        m.append("' stored in directory '");
        m.append(directory);
        m.append("'");
        Ok(m)
    }
}

/// The question that confirms a smaller number of dns records.
pub fn dns_records_question(n: u64) -> (q: String)
    ensures
        q@ == "are you sure you want to set the number of dns records to "@ + decimal(n as nat) + "?"@,
{
    let mut q = String::from_str("are you sure you want to set the number of dns records to ");
    let d = decimal_string(n);
    q.append(d.as_str());
    q.append("?");
    q
}

/// The configuration of a proxy certificate bundle.
pub struct ProxyCertificateBundleConfig {
    pub acl_group_name: Option<String>,
    pub ca_common_name: String,
    pub enable_schema_store: bool,
    pub number_of_dns_records: u64,
    pub platform: String,
    pub proxy_name: String,
    pub tenant: String,
    pub vhost_zone: VhostZone,
}

/// Labels under which proxy certificate bundles are shown.
#[derive(Debug, PartialEq, Eq, Structural, Clone, Copy)]
pub enum BundleLabel {
    AclGroupName,
    BundleDirectory,
    BundleName,
    CaCommonName,
    DnsEntries,
    GroupId,
    NumberOfDsnRecords,
    Platform,
    PlatformDomain,
    ProxyCommonName,
    ProxyName,
    SchemaStore,
    Tenant,
    VhostZone,
}

impl BundleLabel {
    /// The text under which the label is shown.
    pub open spec fn text(self) -> Seq<char> {
        match self {
            BundleLabel::AclGroupName => "acl group name"@,
            BundleLabel::BundleDirectory => "directory"@,
            BundleLabel::BundleName => "bundle"@,
            BundleLabel::CaCommonName => "ca common name"@,
            BundleLabel::DnsEntries => "dns entries"@,
            BundleLabel::GroupId => "group id"@,
            BundleLabel::NumberOfDsnRecords => "records"@,
            BundleLabel::Platform => "platform"@,
            BundleLabel::PlatformDomain => "platform domain"@,
            BundleLabel::ProxyCommonName => "proxy common name"@,
            BundleLabel::ProxyName => "proxy name"@,
            BundleLabel::SchemaStore => "schema store"@,
            BundleLabel::Tenant => "tenant"@,
            BundleLabel::VhostZone => "vhost zone"@,
        }
    }

    /// The text under which the label is shown.
    pub fn as_str(&self) -> (s: &'static str)
        ensures
            s@ == self.text(),
    {
        match self {
            BundleLabel::AclGroupName => "acl group name",
            BundleLabel::BundleDirectory => "directory",
            BundleLabel::BundleName => "bundle",
            BundleLabel::CaCommonName => "ca common name",
            BundleLabel::DnsEntries => "dns entries",
            BundleLabel::GroupId => "group id",
            BundleLabel::NumberOfDsnRecords => "records",
            BundleLabel::Platform => "platform",
            BundleLabel::PlatformDomain => "platform domain",
            BundleLabel::ProxyCommonName => "proxy common name",
            BundleLabel::ProxyName => "proxy name",
            BundleLabel::SchemaStore => "schema store",
            BundleLabel::Tenant => "tenant",
            BundleLabel::VhostZone => "vhost zone",
        }
    }

    /// Whether the label shows the identifier of the subject.
    pub fn is_target_label(&self) -> (b: bool)
        ensures
            b == (*self == BundleLabel::BundleName),
    {
        match self {
            BundleLabel::BundleName => true,
            _ => false,
        }
    }
}


/// What is shown under `label` for the configuration of bundle `target_id`,
/// for the labels that the configuration's fields decide; `None` for the
/// labels derived from the platform (dns entries, group id, domain and
/// common name) and for the directory, which the configuration does not hold.
pub open spec fn bundle_value_view(c: ProxyCertificateBundleConfig, label: BundleLabel, target_id: Seq<char>) -> Option<ValueView> {
    match label {
        BundleLabel::AclGroupName => Some(some_or_hide_view(match c.acl_group_name { Some(a) => Some(a@), None => None })),
        BundleLabel::BundleName => Some(ValueView::Target(target_id)),
        BundleLabel::CaCommonName => Some(ValueView::Plain(c.ca_common_name@)),
        BundleLabel::NumberOfDsnRecords => Some(ValueView::Plain(decimal(c.number_of_dns_records as nat))),
        BundleLabel::Platform => Some(ValueView::Target(c.platform@)),
        BundleLabel::ProxyName => Some(ValueView::Target(c.proxy_name@)),
        BundleLabel::SchemaStore => Some(ValueView::Plain(if c.enable_schema_store { "enabled"@ } else { "disabled"@ })),
        BundleLabel::Tenant => Some(ValueView::Target(c.tenant@)),
        BundleLabel::VhostZone => Some(ValueView::Plain(c.vhost_zone.text())),
        _ => None,
    }
}

impl ProxyCertificateBundleConfig {
    /// What is shown under `label` for this configuration, of bundle
    /// `target_id`, for the labels that its fields decide.
    pub fn value(&self, label: BundleLabel, target_id: &str) -> (v: Option<Value>)
        ensures
            match v { Some(x) => Some(x@), None => None } == bundle_value_view(*self, label, target_id@),
    {
        match label {
            BundleLabel::AclGroupName => Some(match &self.acl_group_name {
                Some(a) => Value::plain(a.as_str()),
                None => Value::Hide,
            }),
            BundleLabel::BundleName => Some(Value::target(target_id)),
            BundleLabel::CaCommonName => Some(Value::plain(self.ca_common_name.as_str())),
            BundleLabel::NumberOfDsnRecords => Some(Value::plain_number(self.number_of_dns_records)),
            BundleLabel::Platform => Some(Value::target(self.platform.as_str())),
            BundleLabel::ProxyName => Some(Value::target(self.proxy_name.as_str())),
            BundleLabel::SchemaStore => Some(Value::plain(if self.enable_schema_store { "enabled" } else { "disabled" })),
            BundleLabel::Tenant => Some(Value::target(self.tenant.as_str())),
            BundleLabel::VhostZone => Some(Value::plain(self.vhost_zone.as_str())),
            _ => None,
        }
    }
}

/// What is shown under `label` for a bundle stored in `directory`.
pub fn stored_bundle_value(config: &ProxyCertificateBundleConfig, directory: &str, label: BundleLabel, target_id: &str) -> (v: Option<Value>)
    ensures
        label == BundleLabel::BundleDirectory ==> (v matches Some(x) && x@ == ValueView::Plain(directory@)),
        label != BundleLabel::BundleDirectory ==> match v { Some(x) => Some(x@), None => None } == bundle_value_view(*config, label, target_id@),
{
    match label {
        BundleLabel::BundleDirectory => Some(Value::plain(directory)),
        _ => config.value(label, target_id),
    }
}

} // verus!
