use dsh::certificate::{
    certificates_with_issues, distinguished_name_to_map, format_distinguished_name, has_issues, ActualCertificate, CertificateStatus,
    IssueDescription, IssueOrigin,
};
use dsh::certificate_delete::{certificate_configuration_secrets, delete_certificate_secrets_question, filter_existing_secrets};
use dsh::certificate_label::{
    actual_certificate_value, dn_type_name, get_rdn_from_distinguished_name, hashmap_from_distinguished_name, san_to_string, Certificate,
    CertificateLabel, CertificateParams, DnType, DnValue, SanType,
};
use dsh::issues::{AllocationStatus, Issue, Severity};
use dsh::secret::{CertificatePart, SecretMetadata, SecretWithMetadata};
use dsh::subjects::Dependant;
use dsh::value::Value;

const DAY: i64 = 86400;
const NOW: i64 = 1000 * DAY;

fn provisioned() -> AllocationStatus {
    AllocationStatus { derived_from: None, notifications: vec![], provisioned: true }
}

fn chain_secret() -> SecretWithMetadata {
    SecretWithMetadata {
        name: "chain".to_string(),
        id: None,
        metadata: SecretMetadata::Certificate { parts: vec![CertificatePart { not_before: 0, not_after: (NOW + 100 * DAY) as u64 }] },
        allocation_status: None,
        dependants: vec![Dependant::Proxy { proxy_id: "p".to_string(), instances: 1 }],
    }
}

fn actual(not_after: i64) -> ActualCertificate {
    ActualCertificate {
        cert_chain_secret: "chain".to_string(),
        key_secret: "key".to_string(),
        passphrase_secret: None,
        distinguished_name: "CN=host.example,O=Org".to_string(),
        dns_names: vec!["host.example".to_string(), "alt.example".to_string()],
        serial_number: "42".to_string(),
        not_after,
        not_before: 0,
    }
}

#[test]
fn certificate_issues_with_origins() {
    let status = CertificateStatus { status: provisioned(), actual: Some(actual(NOW - 1)) };
    let issues = has_issues(Some(&status), &vec![chain_secret()], Some(30), false, NOW).unwrap();
    assert_eq!(
        issues,
        vec![
            IssueDescription { origin: None, issue: Issue::Expired { not_after: NOW - 1 } },
            IssueDescription {
                origin: Some(IssueOrigin { attribute: "key".to_string(), name: "key".to_string(), subject: "secret".to_string() }),
                issue: Issue::NotFound,
            },
        ]
    );
}

#[test]
fn only_errors_leaves_out_warnings() {
    let status = CertificateStatus { status: provisioned(), actual: Some(actual(NOW + 5 * DAY)) };
    let key = SecretWithMetadata { name: "key".to_string(), ..chain_secret() };
    let all = has_issues(Some(&status), &vec![chain_secret(), key], Some(30), false, NOW).unwrap();
    assert_eq!(all, vec![IssueDescription { origin: None, issue: Issue::ExpiresSoon { not_after: NOW + 5 * DAY, days: 30 } }]);
    assert_eq!(all[0].issue.severity(), Severity::Warning);
    let key = SecretWithMetadata { name: "key".to_string(), ..chain_secret() };
    assert_eq!(has_issues(Some(&status), &vec![chain_secret(), key], Some(30), true, NOW), None);
}

#[test]
fn missing_status_is_an_issue() {
    let issues = has_issues(None, &vec![], None, true, NOW).unwrap();
    assert_eq!(issues, vec![IssueDescription { origin: None, issue: Issue::Unexpected { message: "could not get certificate status".to_string() } }]);
}

#[test]
fn certificates_listed_with_their_issues() {
    let ids = vec!["c1".to_string(), "c2".to_string()];
    let statuses = vec![None, Some(CertificateStatus { status: provisioned(), actual: None })];
    let listed = certificates_with_issues(&ids, &statuses, &vec![], None, false, NOW);
    assert_eq!(listed.len(), 1);
    assert_eq!(listed[0].0, "c1");
    assert_eq!(listed[0].1.len(), 1);
    let unprovisioned = AllocationStatus { provisioned: false, ..provisioned() };
    let statuses = vec![Some(CertificateStatus { status: unprovisioned, actual: None }), None];
    let listed = certificates_with_issues(&ids, &statuses, &vec![], None, false, NOW);
    assert_eq!(listed.iter().map(|(id, _)| id.clone()).collect::<Vec<_>>(), vec!["c1".to_string(), "c2".to_string()]);
    assert_eq!(listed[0].1, vec![IssueDescription { origin: None, issue: Issue::NotProvisioned }]);
}

#[test]
fn distinguished_name_maps() {
    let pairs = distinguished_name_to_map("CN=a,O=b,CN=c");
    assert_eq!(pairs.len(), 2);
    assert!(pairs.contains(&("CN", "c")));
    assert!(pairs.contains(&("O", "b")));
    let rows = format_distinguished_name("C=NL,X=y,CN=host,O=Org");
    assert_eq!(
        rows,
        vec![
            ("CN".to_string(), "host".to_string()),
            ("O".to_string(), "Org".to_string()),
            ("C".to_string(), "NL".to_string()),
            ("X".to_string(), "y".to_string()),
        ]
    );
}

#[test]
fn actual_certificate_values() {
    let a = actual(NOW);
    assert_eq!(actual_certificate_value(&a, Some(7), None, CertificateLabel::CommonName, "c"), Value::Plain("host.example".to_string()));
    assert_eq!(actual_certificate_value(&a, Some(7), None, CertificateLabel::DnsNames, "c"), Value::Plain("host.example\nalt.example".to_string()));
    assert_eq!(actual_certificate_value(&a, Some(7), None, CertificateLabel::NotAfter, "c"), Value::TimestampExpired { seconds: NOW, days: Some(7) });
    assert_eq!(actual_certificate_value(&a, None, Some(true), CertificateLabel::Kind, "c"), Value::Plain("proxy".to_string()));
    assert_eq!(actual_certificate_value(&a, None, None, CertificateLabel::Kind, "c"), Value::Hide);
    assert_eq!(actual_certificate_value(&a, None, None, CertificateLabel::PassphraseSecret, "c"), Value::Hide);
    let no_cn = ActualCertificate { distinguished_name: "O=Org".to_string(), ..actual(NOW) };
    assert_eq!(actual_certificate_value(&no_cn, None, None, CertificateLabel::CommonName, "c"), Value::Error("error".to_string()));
    let configuration = Certificate { cert_chain_secret: "chain".to_string(), key_secret: "key".to_string(), passphrase_secret: None };
    assert_eq!(configuration.value(CertificateLabel::PassphraseSecret, "c"), Value::Empty);
    assert_eq!(configuration.value(CertificateLabel::SerialNumber, "c"), Value::Todo);
}

#[test]
fn generated_certificate_names() {
    let dn = vec![
        (DnType::CommonName, DnValue::Utf8String("host".to_string())),
        (DnType::OrganizationalUnitName, DnValue::PrintableString("a".to_string())),
        (DnType::OrganizationalUnitName, DnValue::PrintableString("b".to_string())),
        (DnType::Other, DnValue::Other),
    ];
    assert_eq!(get_rdn_from_distinguished_name(&dn, DnType::OrganizationalUnitName), Some("a".to_string()));
    assert_eq!(get_rdn_from_distinguished_name(&dn, DnType::CountryName), None);
    assert_eq!(
        hashmap_from_distinguished_name(&dn),
        vec![("CN".to_string(), "host".to_string()), ("OU".to_string(), "b".to_string()), ("".to_string(), "".to_string())]
    );
    assert_eq!(dn_type_name(&DnType::StateOrProvinceName), "ST");
    assert_eq!(san_to_string(&SanType::DnsName("h".to_string())), "dns: h");
    assert_eq!(san_to_string(&SanType::IpAddress("10.0.0.1".to_string())), "ip address: 10.0.0.1");
    assert_eq!(san_to_string(&SanType::Other), "");
    let params = CertificateParams {
        distinguished_name: dn,
        subject_alt_names: vec![SanType::DnsName("h".to_string()), SanType::Uri("u".to_string())],
        not_after: "2030".to_string(),
        not_before: "2020".to_string(),
        serial_number: None,
    };
    assert_eq!(params.value(CertificateLabel::DnsNames, "c"), Value::Plain("dns: h\nuri: u".to_string()));
    assert_eq!(params.value(CertificateLabel::SerialNumber, "c"), Value::Hide);
    assert_eq!(params.value(CertificateLabel::CommonName, "c"), Value::Plain("host".to_string()));
    assert_eq!(params.value(CertificateLabel::KeySecret, "c"), Value::Unreachable);
}

#[test]
fn deleting_certificate_secrets() {
    let configuration = Certificate { cert_chain_secret: "chain".to_string(), key_secret: "key".to_string(), passphrase_secret: Some("pass".to_string()) };
    let secrets = certificate_configuration_secrets(&configuration);
    assert_eq!(secrets, vec!["chain", "key", "pass"]);
    let existing = filter_existing_secrets(&secrets, &vec![true, false, true]);
    assert_eq!(existing, vec!["chain", "pass"]);
    assert_eq!(delete_certificate_secrets_question(&existing), "delete certificate secrets 'chain, pass'?");
}
