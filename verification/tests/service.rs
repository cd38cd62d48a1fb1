use dsh::service::{Application, ApplicationLabel, HealthCheck, ServiceLabel, Task, TaskLabel, TaskStatus};
use dsh::value::Value;

fn application() -> Application {
    Application {
        cpus: "0.1".to_string(),
        env: vec![("KEY".to_string(), "value".to_string())],
        exposed_ports: vec!["8080".to_string(), "9090".to_string()],
        health_check: Some(HealthCheck { protocol: Some("https".to_string()), port: 8080, path: "health".to_string() }),
        image: "registry.cp.kpn-dsh.com/tenant/app:1.0".to_string(),
        instances: 2,
        mem: 512,
        metrics: Some((9102, "/metrics".to_string())),
        needs_token: true,
        readable_streams: vec!["a".to_string(), "b".to_string()],
        secrets: vec!["s1".to_string(), "s2".to_string()],
        single_instance: false,
        spread_group: None,
        topics: vec![],
        user: "1000:1000".to_string(),
        volumes: vec!["/data".to_string()],
        writable_streams: vec!["w".to_string()],
    }
}

#[test]
fn service_values() {
    let a = application();
    assert_eq!(a.value(ServiceLabel::ExposedPorts, "svc", None), Value::Plain("8080,9090".to_string()));
    assert_eq!(a.value(ServiceLabel::HealthCheck, "svc", None), Value::Plain("https:8080/health".to_string()));
    assert_eq!(a.value(ServiceLabel::Metrics, "svc", None), Value::Plain("9102:/metrics".to_string()));
    assert_eq!(a.value(ServiceLabel::ReadableStreams, "svc", None), Value::Plain("a, b".to_string()));
    assert_eq!(a.value(ServiceLabel::Secrets, "svc", None), Value::Plain("s1, s2".to_string()));
    assert_eq!(a.value(ServiceLabel::Topics, "svc", None), Value::Plain("".to_string()));
    assert_eq!(a.value(ServiceLabel::SpreadGroup, "svc", None), Value::Plain("".to_string()));
    assert_eq!(a.value(ServiceLabel::Instances, "svc", None), Value::Plain("2".to_string()));
    assert_eq!(a.value(ServiceLabel::NeedsToken, "svc", None), Value::Plain("true".to_string()));
    assert_eq!(a.value(ServiceLabel::Target, "svc", None), Value::Plain("svc".to_string()));
    assert_eq!(a.value(ServiceLabel::Env, "svc", None), Value::Table(vec![("KEY".to_string(), "value".to_string())]));
    assert_eq!(a.value(ServiceLabel::Image, "svc", Some(("app", "tenant/app:1.0"))), Value::Plain("app:tenant/app:1.0".to_string()));
    assert_eq!(a.value(ServiceLabel::Image, "svc", None), Value::Plain("registry.cp.kpn-dsh.com/tenant/app:1.0".to_string()));
    let no_protocol = Application { health_check: Some(HealthCheck { protocol: None, port: 80, path: "ok".to_string() }), ..application() };
    assert_eq!(no_protocol.value(ServiceLabel::HealthCheck, "svc", None), Value::Plain("80/ok".to_string()));
    assert_eq!(ApplicationLabel::Cpus.service_label(), ServiceLabel::Cpus);
    assert_eq!(ServiceLabel::Instances.as_str_for_list(), "#");
}

fn task(last_update: Option<i64>) -> Task {
    Task {
        healthy: Some(true),
        host: "10.0.0.1".to_string(),
        logs: None,
        last_update,
        staged_at: "staged".to_string(),
        started_at: "started".to_string(),
        state: "TASK_RUNNING".to_string(),
        stopped_at: None,
    }
}

#[test]
fn task_values() {
    let status = TaskStatus { actual: Some(task(Some(0))), configuration: None };
    assert_eq!(status.value(TaskLabel::Healthy, "t"), "true");
    assert_eq!(status.value(TaskLabel::HostIpAddress, "t"), "10.0.0.1");
    assert_eq!(status.value(TaskLabel::LastUpdateAt, "t"), "1970-01-01 00:00:00 UTC");
    assert_eq!(status.value(TaskLabel::StoppedAt, "t"), "");
    assert_eq!(status.value(TaskLabel::Target, "t"), "t");
    let configured = TaskStatus { actual: None, configuration: Some(Task { state: "TASK_STAGING".to_string(), ..task(None) }) };
    assert_eq!(configured.value(TaskLabel::State, "t"), "TASK_STAGING");
    assert_eq!(configured.value(TaskLabel::LastUpdateAt, "t"), "");
    let empty = TaskStatus { actual: None, configuration: None };
    assert_eq!(empty.value(TaskLabel::State, "t"), "");
    assert_eq!(TaskLabel::HostIpAddress.as_str_for_list(), "host");
}
