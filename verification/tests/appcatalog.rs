use dsh::appcatalog::{
    app_parameter_source, manifest_urn, missing_or_invalid_parameters_error, parse_app_parameter, validate_parameter,
    AppCatalogApp, AppCatalogAppConfiguration, AppCatalogAppConfigurationLabel, AppCatalogAppLabel, ParameterSource,
};
use dsh::manifest::{Property, PropertyKind};
use dsh::value::Value;

fn property(kind: PropertyKind, enumeration: Option<Vec<&str>>) -> Property {
    Property {
        description: "a property".to_string(),
        kind,
        enumeration: enumeration.map(|e| e.into_iter().map(|v| v.to_string()).collect()),
        default: None,
    }
}

#[test]
fn app_parameters_are_name_equals_value() {
    assert_eq!(parse_app_parameter("MY_PAR=value with space"), Ok(("MY_PAR".to_string(), "value with space".to_string())));
    assert_eq!(parse_app_parameter("Ab1=x=y"), Ok(("Ab1".to_string(), "x=y".to_string())));
    assert_eq!(parse_app_parameter("Ab="), Ok(("Ab".to_string(), "".to_string())));
    assert_eq!(parse_app_parameter("lower=x"), Err("illegal app parameter lower=x".to_string()));
    assert_eq!(parse_app_parameter("A=x"), Err("illegal app parameter A=x".to_string()));
    assert_eq!(parse_app_parameter("NOVALUE"), Err("illegal app parameter NOVALUE".to_string()));
}

#[test]
fn number_parameters_must_be_numbers() {
    let p = property(PropertyKind::Number, None);
    assert_eq!(validate_parameter("12.5e3", "size", &p), Ok("12.5e3".to_string()));
    assert_eq!(validate_parameter("-0", "size", &p), Ok("-0".to_string()));
    assert_eq!(validate_parameter("01", "size", &p), Err("property 'size' has illegal value \"01\", should be a number".to_string()));
    assert_eq!(validate_parameter("1.", "size", &p), Err("property 'size' has illegal value \"1.\", should be a number".to_string()));
}

#[test]
fn dns_zone_parameters_are_private_or_public() {
    let p = property(PropertyKind::DnsZone, None);
    assert_eq!(validate_parameter("private", "zone", &p), Ok("private".to_string()));
    assert_eq!(validate_parameter("public", "zone", &p), Ok("public".to_string()));
    assert_eq!(
        validate_parameter("internal", "zone", &p),
        Err("dns-zone property 'zone' has illegal value \"internal\", should be \"private\" or \"public\"".to_string())
    );
}

#[test]
fn enumerated_parameters_must_be_an_option() {
    let p = property(PropertyKind::String, Some(vec!["a", "b"]));
    assert_eq!(validate_parameter("b", "letter", &p), Ok("b".to_string()));
    assert_eq!(validate_parameter("c", "letter", &p), Err("property 'letter' has illegal value \"c\", should be one of \"a\", \"b\"".to_string()));
    let p = property(PropertyKind::Number, Some(vec!["1", "2"]));
    assert_eq!(validate_parameter("3", "n", &p), Err("property 'n' has illegal value \"3\", should be one of 1, 2".to_string()));
    let p = property(PropertyKind::String, None);
    assert_eq!(validate_parameter("anything", "s", &p), Ok("anything".to_string()));
}

#[test]
fn parameter_sources() {
    let default = Some("d".to_string());
    let given = "g".to_string();
    assert_eq!(app_parameter_source(Some(&given), &default, false, false), ParameterSource::Given("g".to_string()));
    assert_eq!(app_parameter_source(None, &default, true, true), ParameterSource::Default("d".to_string()));
    assert_eq!(app_parameter_source(None, &None, true, true), ParameterSource::Ask(None));
    assert_eq!(app_parameter_source(None, &default, true, false), ParameterSource::Ask(Some("d".to_string())));
    assert_eq!(app_parameter_source(None, &default, false, true), ParameterSource::Default("d".to_string()));
    assert_eq!(app_parameter_source(None, &None, false, true), ParameterSource::Missing);
    assert_eq!(app_parameter_source(None, &default, false, false), ParameterSource::Missing);
}

#[test]
fn missing_parameter_messages() {
    assert_eq!(missing_or_invalid_parameters_error(0), None);
    assert_eq!(missing_or_invalid_parameters_error(1), Some("missing or invalid parameter".to_string()));
    assert_eq!(missing_or_invalid_parameters_error(12), Some("12 missing or invalid parameters".to_string()));
}

#[test]
fn manifest_urns() {
    assert_eq!(manifest_urn("kpn/app", "1.2.3"), "appcatalog/manifest/kpn/app/1.2.3");
}

#[test]
fn app_configuration_hides_platform_entries() {
    let app = AppCatalogApp {
        manifest_urn: "appcatalog/manifest/x/1".to_string(),
        configuration: Some("{\"@gid\":\"1000\",\"b\":\"2\",\"a\":\"1\"}".to_string()),
    };
    assert_eq!(
        app.value(AppCatalogAppLabel::Configuration, "my-app"),
        Value::Table(vec![("a".to_string(), "1".to_string()), ("b".to_string(), "2".to_string())])
    );
    assert_eq!(app.value(AppCatalogAppLabel::ManifestUrn, "my-app"), Value::Plain("appcatalog/manifest/x/1".to_string()));
    assert_eq!(app.value(AppCatalogAppLabel::Target, "my-app"), Value::Target("my-app".to_string()));
    let broken = AppCatalogApp { manifest_urn: "u".to_string(), configuration: Some("not json".to_string()) };
    assert_eq!(broken.value(AppCatalogAppLabel::Configuration, "x"), Value::Error("error".to_string()));
    let none = AppCatalogApp { manifest_urn: "u".to_string(), configuration: None };
    assert_eq!(none.value(AppCatalogAppLabel::Configuration, "x"), Value::Empty);
}

#[test]
fn app_configuration_values() {
    let c = AppCatalogAppConfiguration {
        configuration: vec![("k".to_string(), "v".to_string())],
        manifest_urn: "urn".to_string(),
        name: "n".to_string(),
        stopped: true,
    };
    assert_eq!(c.value(AppCatalogAppConfigurationLabel::Configuration, "t"), Value::Table(vec![("k".to_string(), "v".to_string())]));
    assert_eq!(c.value(AppCatalogAppConfigurationLabel::Stopped, "t"), Value::Plain("true".to_string()));
    assert_eq!(c.value(AppCatalogAppConfigurationLabel::Name, "t"), Value::Target("t".to_string()));
    assert_eq!(AppCatalogAppConfigurationLabel::Configuration.as_str(), "app configuration");
}
