use dsh::metric::{metrics_usage_from_services, MetricUsage, MetricUsageLabel, Metrics, ServiceMetrics};

fn service(id: &str, instances: u64, metrics: Option<(&str, u64)>) -> ServiceMetrics {
    ServiceMetrics {
        service_id: id.to_string(),
        instances,
        metrics: metrics.map(|(path, port)| Metrics { path: path.to_string(), port }),
    }
}

fn listed(usages: &[MetricUsage]) -> Vec<(String, u64, String, u64)> {
    usages.iter().map(|m| (m.service_id.clone(), m.instances, m.path.clone(), m.port)).collect()
}

#[test]
fn metrics_are_listed_by_service_id() {
    let services = vec![
        service("zeta", 2, Some(("/metrics", 9090))),
        service("alpha", 0, Some(("/m", 8080))),
        service("beta", 1, None),
        service("gamma", 3, Some(("/prom", 9000))),
    ];
    assert_eq!(
        listed(&metrics_usage_from_services(&services, true, false)),
        vec![("gamma".to_string(), 3, "/prom".to_string(), 9000), ("zeta".to_string(), 2, "/metrics".to_string(), 9090)]
    );
    assert_eq!(listed(&metrics_usage_from_services(&services, false, true)), vec![("alpha".to_string(), 0, "/m".to_string(), 8080)]);
    assert_eq!(metrics_usage_from_services(&services, true, true).len(), 3);
    assert!(metrics_usage_from_services(&services, false, false).is_empty());
}

#[test]
fn metric_usage_values() {
    let m = MetricUsage::new("svc".to_string(), 4, "/metrics".to_string(), 9102);
    assert_eq!(m.value(MetricUsageLabel::Service), "svc");
    assert_eq!(m.value(MetricUsageLabel::Instances), "4");
    assert_eq!(m.value(MetricUsageLabel::Path), "/metrics");
    assert_eq!(m.value(MetricUsageLabel::Port), "9102");
    assert_eq!(MetricUsageLabel::Instances.as_str(), "#");
    assert!(!MetricUsageLabel::Service.is_target_label());
}
