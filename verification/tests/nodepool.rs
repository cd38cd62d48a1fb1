use dsh::nodepool::{nodepool_service_value, nodepool_usage_value, NodepoolActual, NodepoolLabel};
use dsh::value::Value;

#[test]
fn nodepool_values() {
    let pool = NodepoolActual { gpu_driver: "nvidia".to_string(), max_instances: 4 };
    assert_eq!(pool.value(NodepoolLabel::GpuDriver, "pool"), Value::Plain("nvidia".to_string()));
    assert_eq!(pool.value(NodepoolLabel::MaxInstances, "pool"), Value::Plain("4".to_string()));
    assert_eq!(pool.value(NodepoolLabel::ServiceId, "pool"), Value::NotApplicable);
    assert_eq!(nodepool_service_value("svc", 3, NodepoolLabel::ServiceInstances), Value::Plain("3".to_string()));
    assert_eq!(nodepool_service_value("svc", 3, NodepoolLabel::Target), Value::NotApplicable);
    let features = vec!["gpu".to_string(), "ssd".to_string()];
    assert_eq!(nodepool_usage_value(&pool, "svc", 3, &features, NodepoolLabel::NodeFeatures, "pool"), Value::Plain("gpu, ssd".to_string()));
    assert_eq!(nodepool_usage_value(&pool, "svc", 3, &features, NodepoolLabel::ServiceId, "pool"), Value::Target("svc".to_string()));
    assert_eq!(nodepool_usage_value(&pool, "svc", 3, &features, NodepoolLabel::Target, "pool"), Value::Target("pool".to_string()));
    assert_eq!(NodepoolLabel::ServiceInstances.as_str_for_list(), "# services");
}
