use dsh::manifest::{
    manifest_value, numerical_to_string, property_to_string, resource_to_key, resource_to_strings, ApplicationResource,
    DatabaseResource, ExposedPort, Manifest, ManifestLabel, ManifestValue, Numerical, Property, PropertyKind, PropertyLabel,
    Resource, TopicResource,
};

fn property(kind: PropertyKind, default: Option<&str>, enumeration: Option<Vec<&str>>) -> Property {
    Property {
        description: "The size".to_string(),
        kind,
        enumeration: enumeration.map(|e| e.into_iter().map(|v| v.to_string()).collect()),
        default: default.map(|d| d.to_string()),
    }
}

#[test]
fn properties_are_described() {
    assert_eq!(property_to_string(&property(PropertyKind::Number, None, None)), "number*: The size");
    assert_eq!(property_to_string(&property(PropertyKind::Number, Some("4"), None)), "number: The size\ndefault: 4");
    assert_eq!(property_to_string(&property(PropertyKind::String, Some(""), None)), "string: The size");
    assert_eq!(
        property_to_string(&property(PropertyKind::DnsZone, Some("public"), Some(vec!["private", "public"]))),
        "dns-zone: The size\noptions: private, public*"
    );
    assert_eq!(property_to_string(&property(PropertyKind::String, None, Some(vec!["a", "b"]))), "string*: The size\noptions: a, b");
}

#[test]
fn property_values() {
    let p = property(PropertyKind::String, Some("b"), Some(vec!["a", "b"]));
    assert_eq!(p.value(PropertyLabel::Enum, "id"), "a, b*");
    assert_eq!(p.value(PropertyLabel::_Default, "id"), "b");
    assert_eq!(p.value(PropertyLabel::_Type, "id"), "string");
    assert_eq!(p.value(PropertyLabel::Id, "id"), "id");
    assert_eq!(p.value(PropertyLabel::Description, "id"), "The size");
    let q = property(PropertyKind::Number, Some("3"), None);
    assert_eq!(q.value(PropertyLabel::Enum, "id"), "default: 3");
    let r = property(PropertyKind::Number, None, None);
    assert_eq!(r.value(PropertyLabel::Enum, "id"), "");
    assert_eq!(r.value(PropertyLabel::_Default, "id"), "");
}

#[test]
fn numbers_are_displayed() {
    assert_eq!(numerical_to_string(&Numerical::Integer { value: -42 }), "-42");
    assert_eq!(numerical_to_string(&Numerical::Integer { value: i64::MIN }), "-9223372036854775808");
    assert_eq!(numerical_to_string(&Numerical::Integer { value: 0 }), "0");
    assert_eq!(numerical_to_string(&Numerical::Float { text: "0.5".to_string() }), "0.5");
    assert_eq!(numerical_to_string(&Numerical::Template { template: "${cpus}".to_string() }), "${cpus}");
}

fn application() -> ApplicationResource {
    ApplicationResource {
        name: "svc".to_string(),
        image: "registry/img:1".to_string(),
        cpus: Numerical::Float { text: "0.5".to_string() },
        mem: Numerical::Integer { value: 256 },
        instances: Numerical::Template { template: "${n}".to_string() },
        single_instance: false,
        needs_token: true,
        secrets: Some(vec!["s1".to_string()]),
        exposed_ports: Some(vec![ExposedPort { port: "8080".to_string(), vhost: "{ vhost('a') }".to_string(), auth: Some("basic".to_string()), tls: None }]),
        metrics: Some(("/metrics".to_string(), 9090)),
        user: "1000:1000".to_string(),
        image_console: None,
        env_lines: vec!["KEY: value".to_string()],
    }
}

#[test]
fn application_resources_are_described() {
    let r = Resource::Application(application());
    assert_eq!(resource_to_key(&r), "application: svc");
    assert_eq!(
        resource_to_strings(&r),
        vec![
            "image: registry/img:1",
            "cpus: 0.5",
            "mem: 256 (MB)",
            "instances: ${n}",
            "single instance: false",
            "needs token: true",
            "secret: s1",
            "port: 8080, vhost: { vhost('a') }, auth: basic",
            "metrics: /metrics:9090",
            "user: 1000:1000",
            "KEY: value",
        ]
    );
}

#[test]
fn other_resources_are_described() {
    let bucket = Resource::Bucket { name: "b".to_string(), encrypted: true, versioned: false };
    assert_eq!(resource_to_key(&bucket), "bucket: b");
    assert_eq!(resource_to_strings(&bucket), vec!["encrypted: true", "versioned: false"]);
    let database = Resource::Database(DatabaseResource {
        name: "db".to_string(),
        cpus: Numerical::Integer { value: 1 },
        mem: Numerical::Integer { value: 512 },
        instances: Numerical::Integer { value: 3 },
        version: "15".to_string(),
        extensions: vec!["postgis".to_string(), "pgcrypto".to_string()],
        snapshot_interval: Numerical::Integer { value: 60 },
        volume_size: Numerical::Integer { value: 10 },
    });
    assert_eq!(resource_to_key(&database), "database: db");
    assert_eq!(
        resource_to_strings(&database),
        vec!["cpus: 1", "mem: 512", "instances: 3", "version: 15", "extensions: postgis, pgcrypto", "snapshot interval: 60", "volume size: 10"]
    );
    let topic = Resource::Topic(TopicResource { name: "t".to_string(), partitions: 3, replication_factor: 2, kafka_properties: None });
    assert_eq!(resource_to_strings(&topic), vec!["partitions: 3", "replication factor: 2"]);
    let volume = Resource::Volume { name: "v".to_string(), size: Numerical::Integer { value: 5 } };
    assert_eq!(resource_to_key(&volume), "volume: v");
    assert_eq!(resource_to_strings(&volume), vec!["size: 5 (GB)"]);
    let secret = Resource::Secret("s:x".to_string());
    assert_eq!(resource_to_key(&secret), "secret: s:x");
    assert_eq!(resource_to_strings(&secret), vec!["s:x"]);
    assert_eq!(resource_to_key(&Resource::Vhost("v1".to_string())), "vhost: v1");
    assert_eq!(resource_to_key(&Resource::Certificate("c1".to_string())), "certificate: c1");
}

fn manifest() -> Manifest {
    Manifest {
        draft: false,
        last_modified: "2024".to_string(),
        id: "kpn/app".to_string(),
        name: "App".to_string(),
        version: "1.0.0".to_string(),
        vendor: "kpn".to_string(),
        kind: None,
        api_version: Some("v1".to_string()),
        description: None,
        more_info: None,
        contact: "me".to_string(),
        configuration: Some(vec![("size".to_string(), property(PropertyKind::Number, None, None))]),
        resources: vec![Resource::Bucket { name: "b".to_string(), encrypted: false, versioned: true }],
    }
}

#[test]
fn manifest_values() {
    let m = manifest();
    assert_eq!(manifest_value(&m, ManifestLabel::ApiVersion, "id", ""), ManifestValue::Text("v1".to_string()));
    assert_eq!(manifest_value(&m, ManifestLabel::Kind, "id", ""), ManifestValue::Text("".to_string()));
    assert_eq!(manifest_value(&m, ManifestLabel::Draft, "id", ""), ManifestValue::Text("false".to_string()));
    assert_eq!(manifest_value(&m, ManifestLabel::Id, "id", ""), ManifestValue::Text("id".to_string()));
    assert_eq!(
        manifest_value(&m, ManifestLabel::Configuration, "id", ""),
        ManifestValue::Table(vec![("size".to_string(), vec!["number*: The size".to_string()])])
    );
    assert_eq!(
        manifest_value(&m, ManifestLabel::Resources, "id", ""),
        ManifestValue::Table(vec![("bucket: b".to_string(), vec!["encrypted: false".to_string(), "versioned: true".to_string()])])
    );
    assert_eq!(manifest_value(&m, ManifestLabel::MoreInfo, "id", "rendered"), ManifestValue::Text("".to_string()));
    let mut with_info = manifest();
    with_info.more_info = Some("# Title".to_string());
    assert_eq!(manifest_value(&with_info, ManifestLabel::MoreInfo, "id", "rendered"), ManifestValue::Text("rendered".to_string()));
    assert_eq!(m.value(ManifestLabel::Vendor, "id"), ManifestValue::Text("kpn".to_string()));
    match with_info.value(ManifestLabel::MoreInfo, "id") {
        ManifestValue::Text(text) => assert!(text.contains("Title")),
        ManifestValue::Table(_) => panic!("more info is text"),
    }
    assert_eq!(ManifestLabel::Id.as_str(), "app");
}
