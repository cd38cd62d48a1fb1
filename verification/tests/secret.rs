use dsh::issues::{AllocationStatus, Issue, Notification, Severity};
use dsh::secret::{has_issues, issues_from_secret_metadata, list_secret_issues, CertificatePart, SecretMetadata, SecretSubject, SecretWithMetadata};
use dsh::secret_label::{
    key_labels_value, listed_secret_name, pki_value, secret_status_value, CertificateSecretLabel, CertificateSecretMetadata,
    PkiSecretLabel, SecretLabel, SecretMetadataExpirationDays,
};
use dsh::subjects::Dependant;
use dsh::value::{ColumnAlignment, Value};

const DAY: i64 = 86400;

fn secret(id: Option<&str>, metadata: SecretMetadata, status: Option<AllocationStatus>, dependants: Vec<Dependant>) -> SecretWithMetadata {
    SecretWithMetadata { name: "s".to_string(), id: id.map(|i| i.to_string()), metadata, allocation_status: status, dependants }
}

fn user() -> Dependant {
    Dependant::Proxy { proxy_id: "p".to_string(), instances: 1 }
}

#[test]
fn secret_subject() {
    let s = SecretSubject {};
    assert_eq!(s.subject(), "secret");
    assert_eq!(s.subject_command_about(), "Show, manage and list DSH secrets.");
    assert_eq!(s.subject_command_long_about(), "Show, manage and list secrets used by the services and apps on the DSH.");
    assert_eq!(s.subject_command_alias(), Some("s"));
}

#[test]
fn certificate_issues_in_metadata() {
    let now = 1_000 * DAY;
    let metadata = SecretMetadata::Certificate {
        parts: vec![
            CertificatePart { not_before: 0, not_after: (now - DAY) as u64 },
            CertificatePart { not_before: 0, not_after: (now + 5 * DAY) as u64 },
            CertificatePart { not_before: (now + DAY) as u64, not_after: (now + 100 * DAY) as u64 },
        ],
    };
    let issues = issues_from_secret_metadata(&metadata, Some(30), now);
    assert_eq!(
        issues,
        vec![
            Issue::Expired { not_after: now - DAY },
            Issue::ExpiresSoon { not_after: now + 5 * DAY, days: 30 },
            Issue::Before { not_before: now + DAY },
        ]
    );
    assert_eq!(issues_from_secret_metadata(&metadata, None, now).len(), 2);
}

#[test]
fn secret_issues() {
    let now = 0;
    assert_eq!(has_issues(&secret(None, SecretMetadata::Regular, None, vec![user()]), None, now), None);
    assert_eq!(has_issues(&secret(None, SecretMetadata::Regular, None, vec![]), None, now), Some(vec![Issue::NotUsed]));
    assert_eq!(has_issues(&secret(Some("system"), SecretMetadata::Regular, None, vec![]), None, now), None);
    let status = AllocationStatus {
        derived_from: None,
        notifications: vec![Notification { remove: true, description: "gone".to_string() }],
        provisioned: false,
    };
    let issues = has_issues(&secret(None, SecretMetadata::Regular, Some(status), vec![user()]), None, now).unwrap();
    assert_eq!(issues.len(), 2);
    assert_eq!(issues[0], Issue::NotProvisioned);
    assert_eq!(issues[1].severity(), Severity::Warning);
}

#[test]
fn secret_status_values() {
    let status = AllocationStatus { derived_from: Some("origin".to_string()), notifications: vec![], provisioned: true };
    let s = secret(Some("id-1"), SecretMetadata::Empty, Some(status), vec![]);
    assert_eq!(secret_status_value(&s, SecretLabel::DerivedFrom, "s"), Some(Value::Plain("origin".to_string())));
    assert_eq!(secret_status_value(&s, SecretLabel::Notifications, "s"), Some(Value::Hide));
    assert_eq!(secret_status_value(&s, SecretLabel::Provisioned, "s"), Some(Value::Plain("yes".to_string())));
    assert_eq!(secret_status_value(&s, SecretLabel::SecretId, "s"), Some(Value::Target("id-1".to_string())));
    assert_eq!(secret_status_value(&s, SecretLabel::System, "s"), Some(Value::Plain("yes".to_string())));
    assert_eq!(secret_status_value(&s, SecretLabel::Format, "s"), None);
    assert_eq!(listed_secret_name(&s, "s"), Value::Target("s*".to_string()));
    let plain = secret(None, SecretMetadata::Empty, None, vec![]);
    assert_eq!(secret_status_value(&plain, SecretLabel::Provisioned, "s"), Some(Value::Hide));
    assert_eq!(secret_status_value(&plain, SecretLabel::System, "s"), Some(Value::Plain("no".to_string())));
    assert_eq!(listed_secret_name(&plain, "s"), Value::Target("s".to_string()));
    assert_eq!(SecretLabel::Bytes.column_alignment(), ColumnAlignment::Right);
}

#[test]
fn key_values() {
    let pki = SecretMetadata::Pki { labels: vec!["a".to_string(), "b".to_string()], private: true, algorithm: None };
    assert_eq!(key_labels_value(&pki, SecretLabel::Label, "s"), Some(Value::Plain("a/b".to_string())));
    assert_eq!(key_labels_value(&SecretMetadata::Regular, SecretLabel::Label, "s"), Some(Value::Hide));
    assert_eq!(key_labels_value(&SecretMetadata::Regular, SecretLabel::Size, "s"), None);
    let labels = vec!["a".to_string(), "b".to_string()];
    assert_eq!(pki_value(&None, &labels, true, PkiSecretLabel::Algorithm), Value::Warning("missing algorithm".to_string()));
    assert_eq!(pki_value(&Some("rsa".to_string()), &labels, true, PkiSecretLabel::Algorithm), Value::Plain("rsa".to_string()));
    assert_eq!(pki_value(&None, &labels, true, PkiSecretLabel::Labels), Value::Plain("a\nb".to_string()));
    assert_eq!(pki_value(&None, &labels, false, PkiSecretLabel::Private), Value::Plain("private/public".to_string()));
    let m = SecretMetadataExpirationDays::new(SecretMetadata::Empty, Some(7));
    assert_eq!(m.days, Some(7));
}

#[test]
fn certificate_secret_values() {
    let m = CertificateSecretMetadata {
        issuer_common_name: "ca".to_string(),
        issuer_distinguished_name: "CN=ca".to_string(),
        not_after: 2000,
        not_before: 1000,
        serial_number: "01".to_string(),
        subject_common_name: "host".to_string(),
        subject_distinguished_name: "CN=host".to_string(),
        self_issued: false,
    };
    assert_eq!(m.value(Some(3), CertificateSecretLabel::Issuer, "s"), Value::Plain("ca".to_string()));
    assert_eq!(m.value(Some(3), CertificateSecretLabel::NotAfter, "s"), Value::TimestampExpired { seconds: 2000, days: Some(3) });
    assert_eq!(m.value(None, CertificateSecretLabel::NotBefore, "s"), Value::TimestampNotBefore { seconds: 1000 });
    assert_eq!(m.value(None, CertificateSecretLabel::SubjectDistinguishedName, "s"), Value::DistinguishedName("CN=host".to_string()));
    let own = CertificateSecretMetadata { self_issued: true, ..m };
    assert_eq!(own.value(None, CertificateSecretLabel::Issuer, "s"), Value::Warning("self-issued".to_string()));
    assert_eq!(own.value(None, CertificateSecretLabel::IssuerDistinguishedName, "s"), Value::Warning("self-issued".to_string()));
}

fn named(name: &str, metadata: SecretMetadata, dependants: Vec<Dependant>) -> SecretWithMetadata {
    SecretWithMetadata { name: name.to_string(), id: None, metadata, allocation_status: None, dependants }
}

#[test]
fn secret_issues_listed_per_issue() {
    let secrets = vec![
        named("a", SecretMetadata::Empty, vec![]),
        named("b", SecretMetadata::Regular, vec![user()]),
        named("c", SecretMetadata::Regular, vec![]),
    ];
    let rows = list_secret_issues(&secrets, None, false, 0);
    assert_eq!(
        rows,
        vec![("a".to_string(), Issue::Empty), ("a".to_string(), Issue::NotUsed), ("c".to_string(), Issue::NotUsed)]
    );
    let errors = list_secret_issues(&secrets, None, true, 0);
    assert_eq!(errors, vec![("a".to_string(), Issue::Empty)]);
    assert!(errors.iter().all(|(_, issue)| issue.severity() == Severity::Error));
}
