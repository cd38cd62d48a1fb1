use dsh::env::TextQuery;
use dsh::image::{find_images, rows_matching, image_rows, image_usages, list_images, ImageSubject, ImageUsage, ImageUsageLabel, ParsedImage, ServiceImage};

fn service(id: &str, instances: u64, image: &str) -> ServiceImage {
    ServiceImage { service_id: id.to_string(), instances, image: image.to_string() }
}

fn registry(tenant: &str, id: &str, version: &str) -> ParsedImage {
    ParsedImage::Registry { tenant: tenant.to_string(), id: id.to_string(), version: version.to_string() }
}

#[test]
fn image_subject() {
    let s = ImageSubject {};
    assert_eq!(s.subject(), "image");
    assert_eq!(s.subject_command_about(), "Show image usage.");
    assert_eq!(s.subject_command_long_about(), "Show which DSH components use an image.");
    assert_eq!(s.subject_command_alias(), Some("i"));
}

#[test]
fn image_strings_are_taken_apart() {
    let services = vec![
        service("reg", 1, "registry.cp.kpn-dsh.com/my-tenant/my-image:0.0.1"),
        service("app", 2, "APPCATALOG_REGISTRY/dsh-appcatalog/tenant/my-tenant/1234/1234/draft/kpn/my-image:0.0.2"),
        service("other", 1, "docker.io/library/nginx"),
    ];
    let usages = image_usages(&services, true, false);
    assert_eq!(usages.len(), 3);
    assert_eq!(usages[0].image, registry("my-tenant", "my-image", "0.0.1"));
    assert_eq!(
        usages[1].image,
        ParsedImage::App {
            stage: "draft".to_string(),
            supplier: "kpn".to_string(),
            tenant: "my-tenant".to_string(),
            id: "my-image".to_string(),
            version: "0.0.2".to_string()
        }
    );
    assert_eq!(usages[2].image, ParsedImage::Unrecognized { image: "docker.io/library/nginx".to_string() });
    assert_eq!(usages[0].image.source(), "harbor");
    assert_eq!(usages[1].image.source(), "app-catalog");
    assert_eq!(usages[2].image.source(), "");
    assert_eq!(usages[2].image.id(), "docker.io/library/nginx");
}

#[test]
fn started_and_stopped_services_are_filtered() {
    let services = vec![service("a", 1, "x"), service("b", 0, "y"), service("c", 0, "")];
    let started: Vec<String> = image_usages(&services, true, false).into_iter().map(|u| u.service_id).collect();
    assert_eq!(started, vec!["a".to_string()]);
    let stopped: Vec<String> = image_usages(&services, false, true).into_iter().map(|u| u.service_id).collect();
    assert_eq!(stopped, vec!["b".to_string()]);
    assert_eq!(image_usages(&services, false, false).len(), 0);
}

#[test]
fn images_are_listed_by_image_then_service() {
    let services = vec![
        service("web-2", 1, "registry.cp.kpn-dsh.com/t/web:2"),
        service("db", 1, "registry.cp.kpn-dsh.com/t/db:1"),
        service("web-1", 3, "registry.cp.kpn-dsh.com/t/web:1"),
    ];
    let rows = list_images(&services, true, true);
    let keys: Vec<(String, String)> = rows.iter().map(|(id, u)| (id.clone(), u.service_id.clone())).collect();
    assert_eq!(
        keys,
        vec![
            ("db".to_string(), "db".to_string()),
            ("web".to_string(), "web-1".to_string()),
            ("web".to_string(), "web-2".to_string())
        ]
    );
}

#[test]
fn image_rows_from_parsed_images() {
    let usages = vec![
        ImageUsage::new(registry("t", "b", "1"), "s2".to_string(), 1),
        ImageUsage::new(registry("t", "a", "1"), "s3".to_string(), 1),
        ImageUsage::new(registry("t", "b", "1"), "s1".to_string(), 1),
    ];
    let rows = image_rows(usages);
    let keys: Vec<(String, String)> = rows.iter().map(|(id, u)| (id.clone(), u.service_id.clone())).collect();
    assert_eq!(
        keys,
        vec![("a".to_string(), "s3".to_string()), ("b".to_string(), "s1".to_string()), ("b".to_string(), "s2".to_string())]
    );
}

#[test]
fn image_usage_values() {
    let app = ImageUsage::new(
        ParsedImage::App {
            stage: "release".to_string(),
            supplier: "kpn".to_string(),
            tenant: "tenant".to_string(),
            id: "img".to_string(),
            version: "1.2".to_string(),
        },
        "svc".to_string(),
        12,
    );
    assert_eq!(app.value(ImageUsageLabel::Id, "img"), "img");
    assert_eq!(app.value(ImageUsageLabel::Instances, "img"), "12");
    assert_eq!(app.value(ImageUsageLabel::Service, "img"), "svc");
    assert_eq!(app.value(ImageUsageLabel::Source, "img"), "app-catalog");
    assert_eq!(app.value(ImageUsageLabel::Stage, "img"), "release");
    assert_eq!(app.value(ImageUsageLabel::Supplier, "img"), "kpn");
    assert_eq!(app.value(ImageUsageLabel::Tenant, "img"), "tenant");
    assert_eq!(app.value(ImageUsageLabel::Version, "img"), "1.2");
    let other = ImageUsage::new(ParsedImage::Unrecognized { image: "x".to_string() }, "svc".to_string(), 0);
    assert_eq!(other.value(ImageUsageLabel::Stage, "x"), "");
    assert_eq!(other.value(ImageUsageLabel::Tenant, "x"), "");
    assert_eq!(other.value(ImageUsageLabel::Version, "x"), "");
    assert_eq!(ImageUsageLabel::Id.as_str(), "image id");
    assert_eq!(ImageUsageLabel::Instances.as_str(), "#");
    assert!(ImageUsageLabel::Id.is_target_label());
    assert!(!ImageUsageLabel::Service.is_target_label());
}

#[test]
fn images_found_by_query() {
    let services = vec![
        service("web-2", 1, "registry.cp.kpn-dsh.com/t/web:2"),
        service("db", 1, "registry.cp.kpn-dsh.com/t/db:1"),
        service("web-1", 3, "registry.cp.kpn-dsh.com/t/web:1"),
    ];
    let found = find_images(&services, &TextQuery::Exact("web".to_string()), true, true);
    let ids: Vec<String> = found.iter().map(|(_, u)| u.service_id.clone()).collect();
    assert_eq!(ids, vec!["web-1".to_string(), "web-2".to_string()]);
    let found = find_images(&services, &TextQuery::Pattern("^d".to_string()), true, true);
    assert_eq!(found.len(), 1);
    assert_eq!(found[0].0, "db");
    assert!(find_images(&services, &TextQuery::Exact("we".to_string()), true, true).is_empty());
    let kept = rows_matching(list_images(&services, true, true), &TextQuery::Pattern("b".to_string()));
    assert_eq!(kept.len(), 3);
}
