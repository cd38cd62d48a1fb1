use dsh::proxy::{
    certificate_secrets, delete_secrets_question, existing_resources, proxy_certificate, proxy_deployment, proxy_instances,
    proxy_resource_names, shown_secret_names, CertificateSecrets, KafkaProxy, KafkaProxyLabel, KafkaProxyZone,
};
use dsh::text::sorted_strings;
use dsh::value::{ColumnAlignment, Value};

#[test]
fn resource_names_of_a_proxy_bundle() {
    let names = proxy_resource_names("my-proxy");
    assert_eq!(names.certificate, "my-proxy-cert");
    assert_eq!(names.ca_certificate_secret, "my-proxy-ca-cert");
    assert_eq!(names.private_key_secret, "my-proxy-key");
    assert_eq!(names.server_certificate_secret, "my-proxy-server-cert");
}

#[test]
fn existing_resources_cancel_deployment() {
    let names = proxy_resource_names("p");
    assert!(existing_resources(&names, false, false, false, false).is_empty());
    assert_eq!(
        existing_resources(&names, true, false, true, false),
        vec!["certificate 'p-cert' already exists".to_string(), "secret 'p-key' already exists".to_string()]
    );
    assert_eq!(existing_resources(&names, false, true, false, true), vec!["secret 'p-ca-cert' already exists", "secret 'p-server-cert' already exists"]);
}

#[test]
fn instances_cannot_be_zero() {
    assert_eq!(proxy_instances(3), Ok(3));
    assert_eq!(proxy_instances(0), Err("number of instances cannot be zero".to_string()));
}

#[test]
fn deployed_proxy_configuration() {
    let names = proxy_resource_names("p");
    let proxy = proxy_deployment("p", &names, "0.5", 512, 2, true, false, KafkaProxyZone::Public);
    assert_eq!(proxy.name, Some("p".to_string()));
    assert_eq!(proxy.secret_name_ca_chain, "p-ca-cert");
    assert_eq!(proxy.certificate, "p-cert");
    assert_eq!(proxy.cpus, "0.5");
    assert_eq!(proxy.mem, 512);
    assert_eq!(proxy.instances, 2);
    assert_eq!(proxy.enable_kafka_acl_groups, Some(true));
    assert_eq!(proxy.validations, vec![None]);
    assert_eq!(proxy.schema_store, Some(false));
    assert_eq!(proxy.schema_store_cpus, Some("0.1".to_string()));
    assert_eq!(proxy.schema_store_mem, Some(256));
    assert_eq!(proxy.zone, KafkaProxyZone::Public);
    let certificate = proxy_certificate(&names);
    assert_eq!(certificate.cert_chain_secret, "p-server-cert");
    assert_eq!(certificate.key_secret, "p-key");
    assert_eq!(certificate.passphrase_secret, None);
}

#[test]
fn undeploy_removes_certificate_secrets() {
    let with_passphrase =
        CertificateSecrets { cert_chain_secret: "chain".to_string(), key_secret: "key".to_string(), passphrase_secret: Some("pass".to_string()) };
    let secrets = certificate_secrets(&with_passphrase, "ca");
    assert_eq!(secrets, vec!["chain", "key", "ca", "pass"]);
    assert_eq!(delete_secrets_question(&secrets), "delete secrets 'chain', 'key', 'ca', 'pass'?");
    let without = CertificateSecrets { cert_chain_secret: "chain".to_string(), key_secret: "key".to_string(), passphrase_secret: None };
    assert_eq!(certificate_secrets(&without, "ca"), vec!["chain", "key", "ca"]);
    assert_eq!(delete_secrets_question(&vec![]), "delete secrets ?");
}

fn proxy(schema_store: Option<bool>) -> KafkaProxy {
    KafkaProxy {
        name: None,
        secret_name_ca_chain: "ca".to_string(),
        certificate: "cert".to_string(),
        cpus: "1".to_string(),
        mem: 2048,
        instances: 3,
        enable_kafka_acl_groups: None,
        validations: vec![Some("cn1".to_string()), None, Some("cn3".to_string())],
        schema_store,
        schema_store_cpus: None,
        schema_store_mem: Some(128),
        zone: KafkaProxyZone::Private,
    }
}

#[test]
fn kafka_proxy_values() {
    let p = proxy(Some(true));
    assert_eq!(p.value(KafkaProxyLabel::SchemaStore, "id"), Value::Plain("enabled (cpus: NA, mem: 128)".to_string()));
    assert_eq!(proxy(Some(false)).value(KafkaProxyLabel::SchemaStore, "id"), Value::Plain("disabled".to_string()));
    assert_eq!(proxy(None).value(KafkaProxyLabel::SchemaStore, "id"), Value::Plain("NA".to_string()));
    assert_eq!(p.value(KafkaProxyLabel::AclGroupsEnabled, "id"), Value::Hide);
    assert_eq!(p.value(KafkaProxyLabel::Name, "id"), Value::Empty);
    assert_eq!(p.value(KafkaProxyLabel::Validations, "id"), Value::Plain("cn1\n\ncn3".to_string()));
    assert_eq!(p.value(KafkaProxyLabel::Mem, "id"), Value::Plain("2048".to_string()));
    assert_eq!(p.value(KafkaProxyLabel::Instances, "id"), Value::Plain("3".to_string()));
    assert_eq!(p.value(KafkaProxyLabel::Zone, "id"), Value::Plain("private".to_string()));
    assert_eq!(p.value(KafkaProxyLabel::Target, "id"), Value::Target("id".to_string()));
    assert_eq!(KafkaProxyLabel::Mem.column_alignment(), ColumnAlignment::Right);
    assert_eq!(KafkaProxyLabel::Cpus.column_alignment(), ColumnAlignment::Left);
    assert_eq!(KafkaProxyLabel::CaChainSecretName.as_str_for_list(), "ca certificate");
}

#[test]
fn shown_secrets_are_sorted() {
    let certificate =
        CertificateSecrets { cert_chain_secret: "p-server-cert".to_string(), key_secret: "p-key".to_string(), passphrase_secret: Some("a-pass".to_string()) };
    assert_eq!(
        shown_secret_names("p-ca-cert", Some(&certificate)),
        vec!["a-pass".to_string(), "p-ca-cert".to_string(), "p-key".to_string(), "p-server-cert".to_string()]
    );
    assert_eq!(shown_secret_names("p-ca-cert", None), vec!["p-ca-cert".to_string()]);
}

#[test]
fn strings_sort_as_std_sorts_them() {
    let v: Vec<String> = ["b", "a", "B", "ab", "", "é", "b"].iter().map(|s| s.to_string()).collect();
    let mut expected = v.clone();
    expected.sort();
    assert_eq!(sorted_strings(v), expected);
}
