//! How certificates are shown: deployed certificates, certificate
//! configurations and locally generated certificates with their
//! distinguished names and subject alternative names.
use vstd::prelude::*;
use crate::certificate::{get_relative_distinguished_name, relative_distinguished_name, ActualCertificate};
use crate::platform::row_views;
use crate::text::{join, views, seq_join};
use crate::value::{Value, ValueView, some_or_hide_view, some_or_empty_view};

verus! {

/// Labels under which certificates are shown.
#[derive(Debug, PartialEq, Eq, Structural, Clone, Copy)]
pub enum CertificateLabel {
    CertChainSecret,
    CommonName,
    DistinguishedName,
    DnsNames,
    KeySecret,
    Kind,
    NotAfter,
    NotBefore,
    PassphraseSecret,
    SerialNumber,
    Target,
}

impl CertificateLabel {
    /// The text under which the label is shown.
    pub open spec fn text(self) -> Seq<char> {
        match self {
            CertificateLabel::CertChainSecret => "cert chain secret"@,
            CertificateLabel::CommonName => "common name"@,
            CertificateLabel::DistinguishedName => "distinguished name"@,
            CertificateLabel::DnsNames => "dns names"@,
            CertificateLabel::KeySecret => "key secret"@,
            CertificateLabel::Kind => "kind"@,
            CertificateLabel::NotAfter => "not after"@,
            CertificateLabel::NotBefore => "not before"@,
            CertificateLabel::PassphraseSecret => "pass phrase secret"@,
            CertificateLabel::SerialNumber => "serial number"@,
            CertificateLabel::Target => "certificate id"@,
        }
    }

    /// The text under which the label is shown.
    pub fn as_str(&self) -> (s: &'static str)
        ensures
            s@ == self.text(),
    {
        match self {
            CertificateLabel::CertChainSecret => "cert chain secret",
            CertificateLabel::CommonName => "common name",
            CertificateLabel::DistinguishedName => "distinguished name",
            CertificateLabel::DnsNames => "dns names",
            CertificateLabel::KeySecret => "key secret",
            CertificateLabel::Kind => "kind",
            CertificateLabel::NotAfter => "not after",
            CertificateLabel::NotBefore => "not before",
            CertificateLabel::PassphraseSecret => "pass phrase secret",
            CertificateLabel::SerialNumber => "serial number",
            CertificateLabel::Target => "certificate id",
        }
    }

    /// Whether the label shows the identifier of the subject.
    pub fn is_target_label(&self) -> (b: bool)
        ensures
            b == (*self == CertificateLabel::Target),
    {
        match self {
            CertificateLabel::Target => true,
            _ => false,
        }
    }
}


/// What is shown under `label` for a deployed certificate with identifier
/// `target_id`, with `days` the days ahead in which expiry is warned for,
/// and `kafka` whether the certificate is for a proxy when its vhost was
/// validated.
pub open spec fn actual_certificate_value_view(
    c: ActualCertificate,
    days: Option<u64>,
    kafka: Option<bool>,
    label: CertificateLabel,
    target_id: Seq<char>,
) -> ValueView {
    match label {
        CertificateLabel::CertChainSecret => ValueView::Target(c.cert_chain_secret@),
        CertificateLabel::CommonName => match relative_distinguished_name(c.distinguished_name@, "CN"@) {
            Some(cn) => ValueView::Plain(cn),
            None => ValueView::Error("error"@),
        },
        CertificateLabel::DistinguishedName => ValueView::DistinguishedName(c.distinguished_name@),
        CertificateLabel::DnsNames => ValueView::Plain(seq_join(views(c.dns_names@), "\n"@)),
        CertificateLabel::KeySecret => ValueView::Target(c.key_secret@),
        CertificateLabel::Kind => some_or_hide_view(match kafka {
            Some(k) => Some(if k { "proxy"@ } else { "vhost"@ }),
            None => None,
        }),
        CertificateLabel::NotAfter => ValueView::TimestampExpired { seconds: c.not_after, days },
        CertificateLabel::NotBefore => ValueView::TimestampNotBefore { seconds: c.not_before },
        CertificateLabel::PassphraseSecret => match c.passphrase_secret {
            Some(p) => ValueView::Target(p@),
            None => ValueView::Hide,
        },
        CertificateLabel::SerialNumber => ValueView::Plain(c.serial_number@),
        CertificateLabel::Target => ValueView::Target(target_id),
    }
}

/// What is shown under `label` for a deployed certificate.
pub fn actual_certificate_value(
    certificate: &ActualCertificate,
    days: Option<u64>,
    kafka: Option<bool>,
    label: CertificateLabel,
    target_id: &str,
) -> (v: Value)
    ensures
        v@ == actual_certificate_value_view(*certificate, days, kafka, label, target_id@),
{
    match label {
        CertificateLabel::CertChainSecret => Value::target(certificate.cert_chain_secret.as_str()),
        CertificateLabel::CommonName => {
            let cn = get_relative_distinguished_name(certificate.distinguished_name.as_str(), "CN");
            Value::some_or(cn, Value::error("error"))
        }
        CertificateLabel::DistinguishedName => Value::distinguished_name(certificate.distinguished_name.as_str()),
        CertificateLabel::DnsNames => Value::Plain(join(&certificate.dns_names, "\n")),
        CertificateLabel::KeySecret => Value::target(certificate.key_secret.as_str()),
        CertificateLabel::Kind => match kafka {
            Some(k) => Value::plain(if k { "proxy" } else { "vhost" }),
            None => Value::Hide,
        },
        CertificateLabel::NotAfter => Value::TimestampExpired { seconds: certificate.not_after, days },
        CertificateLabel::NotBefore => Value::TimestampNotBefore { seconds: certificate.not_before },
        CertificateLabel::PassphraseSecret => match &certificate.passphrase_secret {
            Some(p) => Value::target(p.as_str()),
            None => Value::Hide,
        },
        CertificateLabel::SerialNumber => Value::plain(certificate.serial_number.as_str()),
        CertificateLabel::Target => Value::target(target_id),
    }
}

/// The configuration of a certificate: the secrets it is made of.
pub struct Certificate {
    pub cert_chain_secret: String,
    pub key_secret: String,
    pub passphrase_secret: Option<String>,
}

/// What is shown under `label` for a certificate configuration.
pub open spec fn certificate_value_view(c: Certificate, label: CertificateLabel, target_id: Seq<char>) -> ValueView {
    match label {
        CertificateLabel::CertChainSecret => ValueView::Plain(c.cert_chain_secret@),
        CertificateLabel::KeySecret => ValueView::Plain(c.key_secret@),
        CertificateLabel::PassphraseSecret => some_or_empty_view(match c.passphrase_secret { Some(p) => Some(p@), None => None }),
        CertificateLabel::Target => ValueView::Target(target_id),
        _ => ValueView::Todo,
    }
}

impl Certificate {
    /// What is shown under `label` for this configuration, whose certificate
    /// has identifier `target_id`.
    pub fn value(&self, label: CertificateLabel, target_id: &str) -> (v: Value)
        ensures
            v@ == certificate_value_view(*self, label, target_id@),
    {
        match label {
            CertificateLabel::CertChainSecret => Value::plain(self.cert_chain_secret.as_str()),
            CertificateLabel::KeySecret => Value::plain(self.key_secret.as_str()),
            CertificateLabel::PassphraseSecret => match &self.passphrase_secret {
                Some(p) => Value::plain(p.as_str()),
                None => Value::Empty,
            },
            CertificateLabel::Target => Value::target(target_id),
            _ => Value::Todo,
        }
    }
}

/// The type of an attribute of a distinguished name.
#[derive(Debug, PartialEq, Eq, Structural, Clone, Copy)]
pub enum DnType {
    CountryName,
    LocalityName,
    StateOrProvinceName,
    OrganizationName,
    OrganizationalUnitName,
    CommonName,
    /// Any other type, custom types included.
    Other,
}

/// The short name of an attribute type, empty for other types.
pub open spec fn dn_type_text(t: DnType) -> Seq<char> {
    match t {
        DnType::CountryName => "C"@,
        DnType::LocalityName => "L"@,
        DnType::StateOrProvinceName => "ST"@,
        DnType::OrganizationName => "O"@,
        DnType::OrganizationalUnitName => "OU"@,
        DnType::CommonName => "CN"@,
        DnType::Other => ""@,
    }
}

/// The short name of an attribute type, empty for other types.
pub fn dn_type_name(dn_type: &DnType) -> (s: &'static str)
    ensures
        s@ == dn_type_text(*dn_type),
{
    match dn_type {
        DnType::CountryName => "C",
        DnType::LocalityName => "L",
        DnType::StateOrProvinceName => "ST",
        DnType::OrganizationName => "O",
        DnType::OrganizationalUnitName => "OU",
        DnType::CommonName => "CN",
        DnType::Other => "",
    }
}

/// The value of an attribute of a distinguished name.
pub enum DnValue {
    Ia5String(String),
    PrintableString(String),
    TeletexString(String),
    Utf8String(String),
    /// A value of another kind, which is shown as empty.
    Other,
}

/// The text of an attribute value, empty for other kinds.
pub open spec fn dn_value_text(v: DnValue) -> Seq<char> {
    match v {
        DnValue::Ia5String(s) => s@,
        DnValue::PrintableString(s) => s@,
        DnValue::TeletexString(s) => s@,
        DnValue::Utf8String(s) => s@,
        DnValue::Other => Seq::empty(),
    }
}

/// The text of an attribute value, empty for other kinds.
pub fn dn_value_string(dn_value: &DnValue) -> (s: String)
    ensures
        s@ == dn_value_text(*dn_value),
{
    match dn_value {
        DnValue::Ia5String(s) => s.clone(),
        DnValue::PrintableString(s) => s.clone(),
        DnValue::TeletexString(s) => s.clone(),
        DnValue::Utf8String(s) => s.clone(),
        DnValue::Other => String::new(),
    }
}

/// The text of the first attribute of type `target` in `attributes`.
pub open spec fn first_of_type(attributes: Seq<(DnType, DnValue)>, target: DnType) -> Option<Seq<char>>
    decreases attributes.len(),
{
    if attributes.len() == 0 {
        None
    } else if attributes[0].0 == target {
        Some(dn_value_text(attributes[0].1))
    } else {
        first_of_type(attributes.drop_first(), target)
    }
}

/// The text of the first attribute of type `target_rdn_type`, if any.
pub fn get_rdn_from_distinguished_name(distinguished_name: &Vec<(DnType, DnValue)>, target_rdn_type: DnType) -> (res: Option<String>)
    ensures
        match res { Some(s) => Some(s@), None => None } == first_of_type(distinguished_name@, target_rdn_type),
{
    let mut i: usize = 0;
    assert(distinguished_name@.skip(0) =~= distinguished_name@);
    while i < distinguished_name.len()
        invariant
            i <= distinguished_name.len(),
            first_of_type(distinguished_name@, target_rdn_type) == first_of_type(distinguished_name@.skip(i as int), target_rdn_type),
        decreases distinguished_name.len() - i,
    {
        assert(distinguished_name@.skip(i as int)[0] == distinguished_name@[i as int]);
        if distinguished_name[i].0 == target_rdn_type {
            return Some(dn_value_string(&distinguished_name[i].1));
        }
        assert(distinguished_name@.skip(i as int).drop_first() =~= distinguished_name@.skip(i + 1));
        i = i + 1;
    }
    None
}

/// The attributes by short type name; for a name that occurs twice the last
/// value counts.
pub open spec fn dn_attribute_map(attributes: Seq<(DnType, DnValue)>) -> Map<Seq<char>, Seq<char>>
    decreases attributes.len(),
{
    if attributes.len() == 0 {
        Map::empty()
    } else {
        dn_attribute_map(attributes.drop_last()).insert(dn_type_text(attributes.last().0), dn_value_text(attributes.last().1))
    }
}

/// Whether `rows` lists the map `m`: each key once, with its value, and every key of `m`.
pub open spec fn rows_list_map(rows: Seq<(Seq<char>, Seq<char>)>, m: Map<Seq<char>, Seq<char>>) -> bool {
    &&& forall|i: int, j: int| 0 <= i < j < rows.len() ==> (#[trigger] rows[i]).0 != (#[trigger] rows[j]).0
    &&& forall|i: int| 0 <= i < rows.len() ==> m.contains_key((#[trigger] rows[i]).0) && m[rows[i].0] == rows[i].1
    &&& forall|k: Seq<char>| #[trigger] m.contains_key(k) ==> exists|i: int| 0 <= i < rows.len() && (#[trigger] rows[i]).0 == k
}

/// Position of the row with key `key`, if any.
fn position_of_row(rows: &Vec<(String, String)>, key: &str) -> (res: Option<usize>)
    ensures
        match res {
            Some(j) => j < rows.len() && row_views(rows@)[j as int].0 == key@,
            None => forall|k: int| 0 <= k < rows.len() ==> (#[trigger] row_views(rows@)[k]).0 != key@,
        },
{
    let mut j: usize = 0;
    while j < rows.len()
        invariant
            j <= rows.len(),
            forall|k: int| 0 <= k < j ==> (#[trigger] row_views(rows@)[k]).0 != key@,
        decreases rows.len() - j,
    {
        if crate::text::str_equal(rows[j].0.as_str(), key) {
            return Some(j);
        }
        j = j + 1;
    }
    None
}

/// The attributes of a distinguished name by short type name, each name
/// once with its last value.
pub fn hashmap_from_distinguished_name(distinguished_name: &Vec<(DnType, DnValue)>) -> (rows: Vec<(String, String)>)
    ensures
        rows_list_map(row_views(rows@), dn_attribute_map(distinguished_name@)),
{
    let mut rows: Vec<(String, String)> = Vec::new();
    let mut i: usize = 0;
    assert(distinguished_name@.take(0) =~= Seq::<(DnType, DnValue)>::empty());
    while i < distinguished_name.len()
        invariant
            i <= distinguished_name.len(),
            rows_list_map(row_views(rows@), dn_attribute_map(distinguished_name@.take(i as int))),
        decreases distinguished_name.len() - i,
    {
        let ghost before = row_views(rows@);
        let ghost m = dn_attribute_map(distinguished_name@.take(i as int));
        assert(distinguished_name@.take(i + 1).drop_last() =~= distinguished_name@.take(i as int));
        let key = dn_type_name(&distinguished_name[i].0);
        let value = dn_value_string(&distinguished_name[i].1);
        let ghost m2 = m.insert(key@, value@);
        assert(dn_attribute_map(distinguished_name@.take(i + 1)) == m2);
        let position = position_of_row(&rows, key);
        if let Some(j) = position {
            rows.set(j, (String::from_str(key), value));
            let ghost after = row_views(rows@);
            assert(after =~= before.update(j as int, (key@, value@)));
            assert forall|a: int, b: int| 0 <= a < b < after.len() implies (#[trigger] after[a]).0 != (#[trigger] after[b]).0 by {
                assert(after[a].0 == before[a].0 && after[b].0 == before[b].0);
            }
            assert forall|k: Seq<char>| #[trigger] m2.contains_key(k) implies exists|x: int| 0 <= x < after.len() && (#[trigger] after[x]).0 == k by {
                if k != key@ {
                    let x = choose|x: int| 0 <= x < before.len() && (#[trigger] before[x]).0 == k;
                    assert(after[x].0 == k);
                } else {
                    assert(after[j as int].0 == k);
                }
            }
            assert forall|x: int| 0 <= x < after.len() implies m2.contains_key((#[trigger] after[x]).0) && m2[after[x].0] == after[x].1 by {
                if x != j {
                    assert(before[x].0 != before[j as int].0);
                }
            }
        } else {
            rows.push((String::from_str(key), value));
            let ghost after = row_views(rows@);
            assert(after =~= before.push((key@, value@)));
            assert forall|k: Seq<char>| #[trigger] m2.contains_key(k) implies exists|x: int| 0 <= x < after.len() && (#[trigger] after[x]).0 == k by {
                if k != key@ {
                    let x = choose|x: int| 0 <= x < before.len() && (#[trigger] before[x]).0 == k;
                    assert(after[x].0 == k);
                } else {
                    assert(after[before.len() as int].0 == k);
                }
            }
        }
        i = i + 1;
    }
    assert(distinguished_name@.take(distinguished_name.len() as int) =~= distinguished_name@);
    rows
}

/// A subject alternative name of a certificate.
pub enum SanType {
    Rfc822Name(String),
    DnsName(String),
    Uri(String),
    /// An ip address, as it is displayed.
    IpAddress(String),
    /// Another name with a utf8 value.
    Utf8OtherName(String),
    /// A name of another kind, which is shown as empty.
    Other,
}

/// How a subject alternative name is shown.
pub open spec fn san_text(s: SanType) -> Seq<char> {
    match s {
        SanType::Rfc822Name(x) => "rfc822: "@ + x@,
        SanType::DnsName(x) => "dns: "@ + x@,
        SanType::Uri(x) => "uri: "@ + x@,
        SanType::IpAddress(x) => "ip address: "@ + x@,
        SanType::Utf8OtherName(x) => "utf8: "@ + x@,
        SanType::Other => Seq::empty(),
    }
}

/// How a subject alternative name is shown.
pub fn san_to_string(san_type: &SanType) -> (s: String)
    ensures
        s@ == san_text(*san_type),
{
    let (prefix, x) = match san_type {
        SanType::Rfc822Name(x) => ("rfc822: ", x.as_str()),
        SanType::DnsName(x) => ("dns: ", x.as_str()),
        SanType::Uri(x) => ("uri: ", x.as_str()),
        SanType::IpAddress(x) => ("ip address: ", x.as_str()),
        SanType::Utf8OtherName(x) => ("utf8: ", x.as_str()),
        SanType::Other => {
            return String::new();
        }
    };
    let mut s = String::from_str(prefix);
    s.append(x);
    s
}

/// The parameters of a locally generated certificate. Moments are held as
/// they are displayed.
pub struct CertificateParams {
    pub distinguished_name: Vec<(DnType, DnValue)>,
    pub subject_alt_names: Vec<SanType>,
    pub not_after: String,
    pub not_before: String,
    pub serial_number: Option<String>,
}

/// How the subject alternative names are shown, one per line.
pub open spec fn san_lines(sans: Seq<SanType>) -> Seq<Seq<char>> {
    sans.map_values(|s: SanType| san_text(s))
}

/// What is shown under `label` for a locally generated certificate, when it
/// has a value there.
pub open spec fn generated_certificate_value_view(p: CertificateParams, label: CertificateLabel, target_id: Seq<char>) -> ValueView {
    match label {
        CertificateLabel::CommonName => match first_of_type(p.distinguished_name@, DnType::CommonName) {
            Some(cn) => ValueView::Plain(cn),
            None => ValueView::Error("error"@),
        },
        CertificateLabel::DnsNames => ValueView::Plain(seq_join(san_lines(p.subject_alt_names@), "\n"@)),
        CertificateLabel::NotAfter => ValueView::Plain(p.not_after@),
        CertificateLabel::NotBefore => ValueView::Plain(p.not_before@),
        CertificateLabel::SerialNumber => some_or_hide_view(match p.serial_number { Some(s) => Some(s@), None => None }),
        CertificateLabel::Target => ValueView::Target(target_id),
        _ => ValueView::Unreachable,
    }
}

impl CertificateParams {
    /// What is shown under `label` for this certificate, whose identifier is
    /// `target_id`. The distinguished name is shown by
    /// [`hashmap_from_distinguished_name`].
    pub fn value(&self, label: CertificateLabel, target_id: &str) -> (v: Value)
        ensures
            label != CertificateLabel::DistinguishedName ==> v@ == generated_certificate_value_view(*self, label, target_id@),
            label == CertificateLabel::DistinguishedName ==> (v@ matches ValueView::Table(rows)
                && rows_list_map(rows, dn_attribute_map(self.distinguished_name@))),
    {
        match label {
            CertificateLabel::CommonName => match get_rdn_from_distinguished_name(&self.distinguished_name, DnType::CommonName) {
                Some(cn) => Value::Plain(cn),
                None => Value::error("error"),
            },
            CertificateLabel::DistinguishedName => Value::Table(hashmap_from_distinguished_name(&self.distinguished_name)),
            CertificateLabel::DnsNames => {
                let mut lines: Vec<String> = Vec::new();
                let mut i: usize = 0;
                while i < self.subject_alt_names.len()
                    invariant
                        i <= self.subject_alt_names.len(),
                        views(lines@) == san_lines(self.subject_alt_names@).take(i as int),
                    decreases self.subject_alt_names.len() - i,
                {
                    let ghost before = views(lines@);
                    lines.push(san_to_string(&self.subject_alt_names[i]));
                    assert(views(lines@) =~= before.push(san_text(self.subject_alt_names@[i as int])));
                    assert(san_lines(self.subject_alt_names@).take(i + 1)
                        =~= san_lines(self.subject_alt_names@).take(i as int).push(san_text(self.subject_alt_names@[i as int])));
                    i = i + 1;
                }
                assert(san_lines(self.subject_alt_names@).take(self.subject_alt_names.len() as int) =~= san_lines(self.subject_alt_names@));
                Value::Plain(join(&lines, "\n"))
            }
            CertificateLabel::NotAfter => Value::plain(self.not_after.as_str()),
            CertificateLabel::NotBefore => Value::plain(self.not_before.as_str()),
            CertificateLabel::SerialNumber => match &self.serial_number {
                Some(s) => Value::plain(s.as_str()),
                None => Value::Hide,
            },
            CertificateLabel::Target => Value::target(target_id),
            _ => Value::Unreachable,
        }
    }
}

} // verus!
