//! How secrets are shown: their status, their metadata, and the
//! certificates and keys they hold.
use vstd::prelude::*;
use crate::issues::{notification_strings, notification_texts, notification_views};
use crate::secret::{SecretMetadata, SecretWithMetadata};
use crate::subjects::lines;
use crate::text::{join, seq_join, views};
use crate::value::{ColumnAlignment, Value, ValueView};

verus! {

/// Labels under which secrets are shown.
#[derive(Debug, PartialEq, Eq, Structural, Clone, Copy)]
pub enum SecretLabel {
    Bytes,
    Dependants,
    DerivedFrom,
    Description,
    Format,
    Issues,
    Kind,
    Label,
    Notifications,
    Provisioned,
    SecretId,
    SecretName,
    Size,
    System,
}

impl SecretLabel {
    /// The text under which the label is shown.
    pub open spec fn text(self) -> Seq<char> {
        match self {
            SecretLabel::Bytes => "bytes"@,
            SecretLabel::Dependants => "dependants"@,
            SecretLabel::DerivedFrom => "derived from"@,
            SecretLabel::Description => "description"@,
            SecretLabel::Format => "format"@,
            SecretLabel::Issues => "issues"@,
            SecretLabel::Kind => "kind"@,
            SecretLabel::Label => "label"@,
            SecretLabel::Notifications => "notifications"@,
            SecretLabel::Provisioned => "provisioned"@,
            SecretLabel::SecretId => "secret id"@,
            SecretLabel::SecretName => "secret name"@,
            SecretLabel::Size => "size"@,
            SecretLabel::System => "system"@,
        }
    }

    /// The text under which the label is shown.
    pub fn as_str(&self) -> (s: &'static str)
        ensures
            s@ == self.text(),
    {
        match self {
            SecretLabel::Bytes => "bytes",
            SecretLabel::Dependants => "dependants",
            SecretLabel::DerivedFrom => "derived from",
            SecretLabel::Description => "description",
            SecretLabel::Format => "format",
            SecretLabel::Issues => "issues",
            SecretLabel::Kind => "kind",
            SecretLabel::Label => "label",
            SecretLabel::Notifications => "notifications",
            SecretLabel::Provisioned => "provisioned",
            SecretLabel::SecretId => "secret id",
            SecretLabel::SecretName => "secret name",
            SecretLabel::Size => "size",
            SecretLabel::System => "system",
        }
    }

    /// Whether the label shows the identifier of the subject.
    pub fn is_target_label(&self) -> (b: bool)
        ensures
            b == (*self == SecretLabel::SecretName),
    {
        match self {
            SecretLabel::SecretName => true,
            _ => false,
        }
    }

    /// How the values under the label are aligned in a column.
    pub fn column_alignment(&self) -> (c: ColumnAlignment)
        ensures
            c == (if *self == SecretLabel::Bytes { ColumnAlignment::Right } else { ColumnAlignment::Left }),
    {
        match self {
            SecretLabel::Bytes => ColumnAlignment::Right,
            _ => ColumnAlignment::Left,
        }
    }
}

/// Labels under which secrets that hold certificates are shown.
#[derive(Debug, PartialEq, Eq, Structural, Clone, Copy)]
pub enum CertificateSecretLabel {
    Issuer,
    IssuerDistinguishedName,
    NotAfter,
    NotBefore,
    SecretName,
    SerialNumber,
    SubjectCommonName,
    SubjectDistinguishedName,
}

impl CertificateSecretLabel {
    /// The text under which the label is shown.
    pub open spec fn text(self) -> Seq<char> {
        match self {
            CertificateSecretLabel::Issuer => "issuer"@,
            CertificateSecretLabel::IssuerDistinguishedName => "issuer"@,
            CertificateSecretLabel::NotAfter => "not after"@,
            CertificateSecretLabel::NotBefore => "not before"@,
            CertificateSecretLabel::SecretName => "secret"@,
            CertificateSecretLabel::SerialNumber => "serial number"@,
            CertificateSecretLabel::SubjectCommonName => "subject common name"@,
            CertificateSecretLabel::SubjectDistinguishedName => "subject"@,
        }
    }

    /// The text under which the label is shown.
    pub fn as_str(&self) -> (s: &'static str)
        ensures
            s@ == self.text(),
    {
        match self {
            CertificateSecretLabel::Issuer => "issuer",
            CertificateSecretLabel::IssuerDistinguishedName => "issuer",
            CertificateSecretLabel::NotAfter => "not after",
            CertificateSecretLabel::NotBefore => "not before",
            CertificateSecretLabel::SecretName => "secret",
            CertificateSecretLabel::SerialNumber => "serial number",
            CertificateSecretLabel::SubjectCommonName => "subject common name",
            CertificateSecretLabel::SubjectDistinguishedName => "subject",
        }
    }

    /// Whether the label shows the identifier of the subject.
    pub fn is_target_label(&self) -> (b: bool)
        ensures
            b == (*self == CertificateSecretLabel::SecretName),
    {
        match self {
            CertificateSecretLabel::SecretName => true,
            _ => false,
        }
    }
}

/// Labels under which secrets that hold keys are shown.
#[derive(Debug, PartialEq, Eq, Structural, Clone, Copy)]
pub enum PkiSecretLabel {
    Algorithm,
    Labels,
    Private,
}

impl PkiSecretLabel {
    /// The text under which the label is shown.
    pub open spec fn text(self) -> Seq<char> {
        match self {
            PkiSecretLabel::Algorithm => "algorithm"@,
            PkiSecretLabel::Labels => "labels"@,
            PkiSecretLabel::Private => "private"@,
        }
    }

    /// The text under which the label is shown.
    pub fn as_str(&self) -> (s: &'static str)
        ensures
            s@ == self.text(),
    {
        match self {
            PkiSecretLabel::Algorithm => "algorithm",
            PkiSecretLabel::Labels => "labels",
            PkiSecretLabel::Private => "private",
        }
    }

    /// Whether the label shows the identifier of the subject.
    pub fn is_target_label(&self) -> (b: bool)
        ensures
            !b,
    {
        false
    }
}


/// What is shown under `label` for a secret with name `target_id`, for the
/// labels that its status and identifier decide; `None` for the labels that
/// its metadata decides.
pub open spec fn secret_status_value_view(s: SecretWithMetadata, label: SecretLabel, target_id: Seq<char>) -> Option<ValueView> {
    match label {
        SecretLabel::DerivedFrom => Some(match s.allocation_status {
            Some(a) => match a.derived_from {
                Some(d) => ValueView::Plain(d@),
                None => ValueView::Hide,
            },
            None => ValueView::Hide,
        }),
        SecretLabel::Notifications => Some(match s.allocation_status {
            Some(a) => if a.notifications@.len() > 0 {
                ValueView::Warning(lines(notification_texts(notification_views(a.notifications@))))
            } else {
                ValueView::Hide
            },
            None => ValueView::Hide,
        }),
        SecretLabel::Provisioned => Some(match s.allocation_status {
            Some(a) => ValueView::Plain(if a.provisioned { "yes"@ } else { "no"@ }),
            None => ValueView::Hide,
        }),
        SecretLabel::SecretId => Some(match s.id {
            Some(id) => ValueView::Target(id@),
            None => ValueView::Hide,
        }),
        SecretLabel::SecretName => Some(ValueView::Target(target_id)),
        SecretLabel::System => Some(ValueView::Plain(if s.id is Some { "yes"@ } else { "no"@ })),
        _ => None,
    }
}

/// What is shown under `label` for a secret, for the labels that its status
/// and identifier decide; `None` for the labels that its metadata decides.
pub fn secret_status_value(secret: &SecretWithMetadata, label: SecretLabel, target_id: &str) -> (v: Option<Value>)
    ensures
        match v { Some(x) => Some(x@), None => None } == secret_status_value_view(*secret, label, target_id@),
{
    match label {
        SecretLabel::DerivedFrom => Some(match &secret.allocation_status {
            Some(a) => match &a.derived_from {
                Some(d) => Value::plain(d.as_str()),
                None => Value::Hide,
            },
            None => Value::Hide,
        }),
        SecretLabel::Notifications => Some(match &secret.allocation_status {
            Some(a) => {
                if a.notifications.len() > 0 {
                    let texts = notification_strings(&a.notifications);
                    Value::Warning(join(&texts, "\n"))
                } else {
                    Value::Hide
                }
            }
            None => Value::Hide,
        }),
        SecretLabel::Provisioned => Some(match &secret.allocation_status {
            Some(a) => Value::plain(if a.provisioned { "yes" } else { "no" }),
            None => Value::Hide,
        }),
        SecretLabel::SecretId => Some(match &secret.id {
            Some(id) => Value::target(id.as_str()),
            None => Value::Hide,
        }),
        SecretLabel::SecretName => Some(Value::target(target_id)),
        SecretLabel::System => Some(Value::plain(if secret.id.is_some() { "yes" } else { "no" })),
        _ => None,
    }
}

/// The secret name as it is listed: system secrets, which have an
/// identifier, are marked with a star.
pub fn listed_secret_name(secret: &SecretWithMetadata, target_id: &str) -> (v: Value)
    ensures
        v@ == ValueView::Target(if secret.id is Some { target_id@ + "*"@ } else { target_id@ }),
{
    if secret.id.is_some() {
        let mut s = String::from_str(target_id);
        s.append("*");
        Value::Target(s)
    } else {
        Value::target(target_id)
    }
}

/// Secret metadata with the days ahead in which expiry is warned for.
pub struct SecretMetadataExpirationDays {
    pub metadata: SecretMetadata,
    pub days: Option<u64>,
}

impl SecretMetadataExpirationDays {
    /// Metadata with the days ahead in which expiry is warned for.
    pub fn new(metadata: SecretMetadata, days: Option<u64>) -> (m: Self)
        ensures
            m.metadata == metadata,
            m.days == days,
    {
        SecretMetadataExpirationDays { metadata, days }
    }
}

/// The key labels of a secret joined by slashes, or `None` when the secret
/// holds no key.
pub open spec fn key_labels_text(metadata: SecretMetadata) -> Option<Seq<char>> {
    match metadata {
        SecretMetadata::Pki { labels, .. } => Some(seq_join(views(labels@), "/"@)),
        _ => None,
    }
}

/// What is shown under the label of a secret with name `target_id` when its
/// key labels are asked for: the labels joined by slashes for a key, else
/// nothing; under the name label the name.
pub fn key_labels_value(metadata: &SecretMetadata, label: SecretLabel, target_id: &str) -> (v: Option<Value>)
    ensures
        label == SecretLabel::Label ==> (v matches Some(x) && x@ == match key_labels_text(*metadata) {
            Some(t) => ValueView::Plain(t),
            None => ValueView::Hide,
        }),
        label == SecretLabel::SecretName ==> (v matches Some(x) && x@ == ValueView::Target(target_id@)),
        label != SecretLabel::Label && label != SecretLabel::SecretName ==> v is None,
{
    match label {
        SecretLabel::Label => match metadata {
            SecretMetadata::Pki { labels, .. } => Some(Value::Plain(join(labels, "/"))),
            _ => Some(Value::Hide),
        },
        SecretLabel::SecretName => Some(Value::target(target_id)),
        _ => None,
    }
}

/// What is known of a certificate held in a secret. Moments are seconds
/// since the epoch.
pub struct CertificateSecretMetadata {
    pub issuer_common_name: String,
    pub issuer_distinguished_name: String,
    pub not_after: u64,
    pub not_before: u64,
    pub serial_number: String,
    pub subject_common_name: String,
    pub subject_distinguished_name: String,
    /// Whether the certificate was issued by its own subject.
    pub self_issued: bool,
}

/// What is shown under `label` for a certificate in a secret named
/// `target_id`, with `days` the days ahead in which expiry is warned for.
pub open spec fn certificate_secret_value_view(m: CertificateSecretMetadata, days: Option<u64>, label: CertificateSecretLabel, target_id: Seq<char>) -> ValueView {
    match label {
        CertificateSecretLabel::Issuer => if m.self_issued {
            ValueView::Warning("self-issued"@)
        } else {
            ValueView::Plain(m.issuer_common_name@)
        },
        CertificateSecretLabel::IssuerDistinguishedName => if m.self_issued {
            ValueView::Warning("self-issued"@)
        } else {
            ValueView::DistinguishedName(m.issuer_distinguished_name@)
        },
        CertificateSecretLabel::NotAfter => ValueView::TimestampExpired { seconds: m.not_after as i64, days },
        CertificateSecretLabel::NotBefore => ValueView::TimestampNotBefore { seconds: m.not_before as i64 },
        CertificateSecretLabel::SecretName => ValueView::Target(target_id),
        CertificateSecretLabel::SerialNumber => ValueView::Plain(m.serial_number@),
        CertificateSecretLabel::SubjectCommonName => ValueView::Plain(m.subject_common_name@),
        CertificateSecretLabel::SubjectDistinguishedName => ValueView::DistinguishedName(m.subject_distinguished_name@),
    }
}

impl CertificateSecretMetadata {
    /// What is shown under `label` for this certificate, held in the secret
    /// named `target_id`.
    pub fn value(&self, days: Option<u64>, label: CertificateSecretLabel, target_id: &str) -> (v: Value)
        ensures
            v@ == certificate_secret_value_view(*self, days, label, target_id@),
    {
        match label {
            CertificateSecretLabel::Issuer => {
                if self.self_issued {
                    Value::warn("self-issued")
                } else {
                    Value::plain(self.issuer_common_name.as_str())
                }
            }
            CertificateSecretLabel::IssuerDistinguishedName => {
                if self.self_issued {
                    Value::warn("self-issued")
                } else {
                    Value::distinguished_name(self.issuer_distinguished_name.as_str())
                }
            }
            CertificateSecretLabel::NotAfter => Value::TimestampExpired { seconds: self.not_after as i64, days },
            CertificateSecretLabel::NotBefore => Value::TimestampNotBefore { seconds: self.not_before as i64 },
            CertificateSecretLabel::SecretName => Value::target(target_id),
            CertificateSecretLabel::SerialNumber => Value::plain(self.serial_number.as_str()),
            CertificateSecretLabel::SubjectCommonName => Value::plain(self.subject_common_name.as_str()),
            CertificateSecretLabel::SubjectDistinguishedName => Value::distinguished_name(self.subject_distinguished_name.as_str()),
        }
    }
}

/// What is shown under `label` for a key with the given algorithm, labels
/// and privacy.
pub open spec fn pki_value_view(algorithm: Option<Seq<char>>, labels: Seq<Seq<char>>, private: bool, label: PkiSecretLabel) -> ValueView {
    match label {
        PkiSecretLabel::Algorithm => match algorithm {
            Some(a) => ValueView::Plain(a),
            None => ValueView::Warning("missing algorithm"@),
        },
        PkiSecretLabel::Labels => ValueView::Plain(seq_join(labels, "\n"@)),
        PkiSecretLabel::Private => ValueView::Plain(if private { "private"@ } else { "private/public"@ }),
    }
}

/// What is shown under `label` for a key held in a secret.
pub fn pki_value(algorithm: &Option<String>, labels: &Vec<String>, private: bool, label: PkiSecretLabel) -> (v: Value)
    ensures
        v@ == pki_value_view(match algorithm { Some(a) => Some(a@), None => None }, views(labels@), private, label),
{
    match label {
        PkiSecretLabel::Algorithm => match algorithm {
            Some(a) => Value::plain(a.as_str()),
            None => Value::warn("missing algorithm"),
        },
        PkiSecretLabel::Labels => Value::Plain(join(labels, "\n")),
        PkiSecretLabel::Private => Value::plain(if private { "private" } else { "private/public" }),
    }
}

} // verus!
