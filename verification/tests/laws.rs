use dsh::api::create_about;
use dsh::bundle::number_of_dns_records;
use dsh::certificate::{distinguished_name_to_map, format_distinguished_name, get_relative_distinguished_name};
use dsh::env::{find_env_matches, value_matches, TextQuery, ServiceEnv};
use dsh::lifecycle::{update_decision, update_explanation, updated_message, UpdateDecision};
use dsh::text::{key_value_lines, sorted_by_key};

fn pair(a: &str, b: &str) -> (String, String) {
    (a.to_string(), b.to_string())
}

#[test]
fn dns_records_after_confirmation() {
    assert_eq!(number_of_dns_records(None, false), Ok(10));
    assert_eq!(number_of_dns_records(Some(10), false), Ok(10));
    assert_eq!(number_of_dns_records(Some(4), true), Ok(4));
    assert_eq!(number_of_dns_records(Some(4), false), Err("cancelled".to_string()));
}

#[test]
fn service_update_decisions() {
    assert_eq!(update_decision("web", false, false, None, 2, None, 512, false), UpdateDecision::FromJson);
    assert_eq!(
        update_decision("web", false, false, Some(2), 2, Some(512), 512, false),
        UpdateDecision::Unchanged("provided arguments are equal to the current configuration, service not updated".to_string())
    );
    assert_eq!(
        update_decision("web", false, false, Some(3), 2, None, 512, true),
        UpdateDecision::Warn("dry-run mode, service not updated".to_string())
    );
    assert_eq!(
        update_decision("web", false, false, Some(3), 2, None, 512, false),
        UpdateDecision::Update { instances: 3, mem: 512, outcome: "service 'web' updated".to_string() }
    );
    assert_eq!(
        update_decision("web", true, true, None, 2, None, 512, false),
        UpdateDecision::Update { instances: 2, mem: 512, outcome: "service 'web' updated".to_string() }
    );
    assert_eq!(update_explanation("web", true), "update service 'web' from arguments");
    assert_eq!(update_explanation("web", false), "update service 'web' from json configuration");
    assert_eq!(updated_message("web"), "service 'web' updated");
}

#[test]
fn about_of_about_is_about() {
    for description in ["Get the configuration. Returns a json object.", "Version 1.2. Done..", "No sentence break...", ". starts", ""] {
        let about = create_about(description);
        assert!(description.starts_with(&about));
        assert!(!about.contains(". "));
        assert!(!about.ends_with('.'));
        assert_eq!(create_about(&about), about);
    }
}

#[test]
fn map_agrees_with_relative_distinguished_name() {
    let dn = "CN=host,O=Org,C=NL,junk,OU=unit";
    let map = distinguished_name_to_map(dn);
    for t in ["CN", "O", "C", "OU", "L", "junk"] {
        let from_map = map.iter().find(|(k, _)| *k == t).map(|(_, v)| *v);
        assert_eq!(from_map, get_relative_distinguished_name(dn, t));
    }
}

#[test]
fn reordered_standard_components_give_the_same_rows() {
    assert_eq!(format_distinguished_name("C=NL,CN=x"), format_distinguished_name("CN=x,C=NL"));
    assert_eq!(format_distinguished_name("C=NL,CN=x")[0], pair("CN", "x"));
    assert_eq!(
        format_distinguished_name("OU=u,ST=s,O=o,CN=c"),
        format_distinguished_name("CN=c,O=o,OU=u,ST=s")
    );
}

#[test]
fn environment_values_are_matched_exactly_or_by_pattern() {
    assert!(value_matches(&TextQuery::Exact("abc".to_string()), "abc"));
    assert!(!value_matches(&TextQuery::Exact("abc".to_string()), "abcd"));
    assert!(value_matches(&TextQuery::Pattern("b+c".to_string()), "abbcd"));
    assert!(!value_matches(&TextQuery::Pattern("^b".to_string()), "abc"));
    assert!(!value_matches(&TextQuery::Pattern("(".to_string()), "("));
}

#[test]
fn environment_matches_are_found_and_ordered() {
    let services = vec![
        ServiceEnv { service_id: "b".to_string(), instances: 1, env: vec![pair("Z", "kafka"), pair("A", "kafka-1")] },
        ServiceEnv { service_id: "a".to_string(), instances: 0, env: vec![pair("X", "kafka")] },
        ServiceEnv { service_id: "c".to_string(), instances: 2, env: vec![pair("Y", "other")] },
    ];
    let found = find_env_matches(&services, &TextQuery::Pattern("^kafka".to_string()), true, false);
    let keys: Vec<(String, String, String)> = found.iter().map(|m| (m.service_id.clone(), m.env_var.clone(), m.value.clone())).collect();
    assert_eq!(
        keys,
        vec![
            ("b".to_string(), "A".to_string(), "kafka-1".to_string()),
            ("b".to_string(), "Z".to_string(), "kafka".to_string())
        ]
    );
    let exact = find_env_matches(&services, &TextQuery::Exact("kafka".to_string()), true, true);
    let ids: Vec<String> = exact.iter().map(|m| m.service_id.clone()).collect();
    assert_eq!(ids, vec!["a".to_string(), "b".to_string()]);
}

#[test]
fn key_value_lines_by_key() {
    let sorted = sorted_by_key(vec![pair("a-b", "2"), pair("a", "1"), pair("B", "3")]);
    assert_eq!(key_value_lines(&sorted), vec!["B: 3".to_string(), "a: 1".to_string(), "a-b: 2".to_string()]);
}
