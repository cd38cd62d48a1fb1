use dsh::platform::{DshPlatformLabel, ProvidedArguments, RequiredArguments};

fn none() -> ProvidedArguments {
    ProvidedArguments { app_id: None, bucket_id: None, proxy_id: None, service_id: None, topic_id: None, vendor_id: None, vhost: None }
}

const NO_ARGUMENTS: RequiredArguments = RequiredArguments {
    app_id_required: false,
    bucket_id_required: false,
    proxy_id_required: false,
    service_id_required: false,
    topic_required: false,
    vendor_id_required: false,
    vhost_required: false,
};

#[test]
fn required_arguments_per_label() {
    assert_eq!(DshPlatformLabel::BucketName.required_arguments(), RequiredArguments { bucket_id_required: true, ..NO_ARGUMENTS });
    assert_eq!(
        DshPlatformLabel::TenantAppCatalogAppUrl.required_arguments(),
        RequiredArguments { app_id_required: true, vendor_id_required: true, ..NO_ARGUMENTS }
    );
    assert_eq!(DshPlatformLabel::TenantPublicAppDomain.required_arguments(), RequiredArguments { app_id_required: true, ..NO_ARGUMENTS });
    assert_eq!(DshPlatformLabel::InternalServiceDomain.required_arguments(), RequiredArguments { service_id_required: true, ..NO_ARGUMENTS });
    assert_eq!(DshPlatformLabel::HttpMessagingApiUrlMulti.required_arguments(), RequiredArguments { topic_required: true, ..NO_ARGUMENTS });
    assert_eq!(DshPlatformLabel::PublicVhostDomain.required_arguments(), RequiredArguments { vhost_required: true, ..NO_ARGUMENTS });
    assert_eq!(DshPlatformLabel::ProxyCommonName.required_arguments(), RequiredArguments { proxy_id_required: true, ..NO_ARGUMENTS });
    assert_eq!(DshPlatformLabel::InternalDomain.required_arguments(), NO_ARGUMENTS);
    assert_eq!(DshPlatformLabel::Alias.required_arguments(), NO_ARGUMENTS);
}

#[test]
fn required_arguments_must_be_provided() {
    let mut provided = none();
    assert!(DshPlatformLabel::InternalDomain.all_required_arguments_provided(&provided));
    assert!(!DshPlatformLabel::TenantAppCatalogAppUrl.all_required_arguments_provided(&provided));
    provided.app_id = Some("app".to_string());
    assert!(!DshPlatformLabel::TenantAppCatalogAppUrl.all_required_arguments_provided(&provided));
    assert!(DshPlatformLabel::TenantAppConsoleUrl.all_required_arguments_provided(&provided));
    provided.vendor_id = Some("kpn".to_string());
    assert!(DshPlatformLabel::TenantAppCatalogAppUrl.all_required_arguments_provided(&provided));
    assert!(!DshPlatformLabel::BucketName.all_required_arguments_provided(&provided));
}

#[test]
fn more_arguments_never_hide_a_parameter() {
    let labels = [
        DshPlatformLabel::BucketName,
        DshPlatformLabel::TenantAppCatalogAppUrl,
        DshPlatformLabel::ProxyBrokerVhost,
        DshPlatformLabel::PublicVhostDomain,
        DshPlatformLabel::InternalDomain,
    ];
    let fewer = ProvidedArguments { app_id: Some("a".to_string()), ..none() };
    let more = ProvidedArguments { app_id: Some("a".to_string()), proxy_id: Some("p".to_string()), vhost: Some("v".to_string()), ..none() };
    for label in labels {
        if label.all_required_arguments_provided(&fewer) {
            assert!(label.all_required_arguments_provided(&more));
        }
    }
}

#[test]
fn describe_lists_provided_arguments_in_order() {
    assert_eq!(none().describe(), None);
    let provided = ProvidedArguments { vhost: Some("my-vhost".to_string()), app_id: Some("my-app".to_string()), ..none() };
    assert_eq!(
        provided.describe(),
        Some(vec![("app".to_string(), "my-app".to_string()), ("vhost".to_string(), "my-vhost".to_string())])
    );
}

#[test]
fn platform_labels() {
    assert_eq!(DshPlatformLabel::TenantProxyPrivateBootstrapServers.as_str(), "proxy private bootstrap server");
    assert_eq!(DshPlatformLabel::HttpMessagingApiUrlMulti.as_str(), "http messaging api url (multi)");
    assert!(DshPlatformLabel::Parameter.is_target_label());
    assert!(!DshPlatformLabel::Alias.is_target_label());
}
