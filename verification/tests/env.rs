use dsh::env::{env_matches, ServiceEnvLabel, ServiceEnvMatches};

fn service(id: &str, instances: u64, matches: Vec<(&str, &str)>) -> ServiceEnvMatches {
    ServiceEnvMatches {
        service_id: id.to_string(),
        instances,
        matches: matches.into_iter().map(|(k, v)| (k.to_string(), v.to_string())).collect(),
    }
}

#[test]
fn env_matches_are_sorted_by_service_and_variable() {
    let services = vec![
        service("web", 1, vec![("URL", "x"), ("HOST", "y")]),
        service("api", 2, vec![("TOKEN", "z")]),
        service("old", 0, vec![("URL", "w")]),
    ];
    let found = env_matches(&services, true, false);
    let listed: Vec<(String, String)> = found.iter().map(|m| (m.service_id.clone(), m.env_var.clone())).collect();
    assert_eq!(
        listed,
        vec![
            ("api".to_string(), "TOKEN".to_string()),
            ("web".to_string(), "HOST".to_string()),
            ("web".to_string(), "URL".to_string()),
        ]
    );
    assert_eq!(found[0].value(ServiceEnvLabel::Instances), "2");
    assert_eq!(found[0].value(ServiceEnvLabel::Value), "z");
    assert_eq!(found[0].value(ServiceEnvLabel::Service), "api");
    assert_eq!(env_matches(&services, false, true).len(), 1);
    assert!(env_matches(&services, false, false).is_empty());
    assert_eq!(ServiceEnvLabel::EnvVar.as_str(), "environment variable");
}
