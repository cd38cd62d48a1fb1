use dsh::bundle::{
    choose_vhost_zone, dns_records_choice, dns_records_question, entered_acl_group_id, entered_acl_group_name, entered_or_default, parse_vhost_zone,
    stored_bundle_value, BundleLabel, DnsRecordsChoice, ProxyCertificateBundleConfig, VhostZone,
};
use dsh::value::Value;

#[test]
fn vhost_zones() {
    assert_eq!(parse_vhost_zone("private"), Ok(VhostZone::Private));
    assert_eq!(parse_vhost_zone("public"), Ok(VhostZone::Public));
    assert_eq!(parse_vhost_zone("PUBLIC"), Err("parameter error: invalid vhost zone 'PUBLIC'".to_string()));
    assert_eq!(choose_vhost_zone(None, ""), Ok(VhostZone::Private));
    assert_eq!(choose_vhost_zone(None, "public"), Ok(VhostZone::Public));
    assert_eq!(choose_vhost_zone(Some("public"), "private"), Ok(VhostZone::Public));
    assert!(choose_vhost_zone(Some(""), "").is_err());
}

#[test]
fn entered_values() {
    assert_eq!(entered_acl_group_id(""), Err("acl group id cannot be empty".to_string()));
    assert_eq!(entered_acl_group_id("group"), Ok("group".to_string()));
    assert_eq!(entered_acl_group_name(""), Err("acl group name cannot be empty".to_string()));
    assert_eq!(entered_acl_group_name("group"), Ok("group".to_string()));
    assert_eq!(entered_or_default("", "alice"), "alice");
    assert_eq!(entered_or_default("ca", "alice"), "ca");
}

#[test]
fn fewer_dns_records_need_confirmation() {
    assert!(matches!(dns_records_choice(None), DnsRecordsChoice::Default));
    assert!(matches!(dns_records_choice(Some(10)), DnsRecordsChoice::Default));
    assert!(matches!(dns_records_choice(Some(9)), DnsRecordsChoice::Confirm(9)));
    assert_eq!(dns_records_question(3), "are you sure you want to set the number of dns records to 3?");
}

#[test]
fn bundle_values() {
    let config = ProxyCertificateBundleConfig {
        acl_group_name: None,
        ca_common_name: "ca".to_string(),
        enable_schema_store: true,
        number_of_dns_records: 10,
        platform: "np-aws-lz-dsh".to_string(),
        proxy_name: "proxy".to_string(),
        tenant: "tenant".to_string(),
        vhost_zone: VhostZone::Public,
    };
    assert_eq!(config.value(BundleLabel::AclGroupName, "b"), Some(Value::Hide));
    assert_eq!(config.value(BundleLabel::SchemaStore, "b"), Some(Value::Plain("enabled".to_string())));
    assert_eq!(config.value(BundleLabel::NumberOfDsnRecords, "b"), Some(Value::Plain("10".to_string())));
    assert_eq!(config.value(BundleLabel::VhostZone, "b"), Some(Value::Plain("public".to_string())));
    assert_eq!(config.value(BundleLabel::Platform, "b"), Some(Value::Target("np-aws-lz-dsh".to_string())));
    assert_eq!(config.value(BundleLabel::GroupId, "b"), None);
    assert_eq!(stored_bundle_value(&config, "/home/bundles/b", BundleLabel::BundleDirectory, "b"), Some(Value::Plain("/home/bundles/b".to_string())));
    assert_eq!(stored_bundle_value(&config, "/d", BundleLabel::BundleName, "b"), Some(Value::Target("b".to_string())));
}
