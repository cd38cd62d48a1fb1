use dsh::bucket::{bucket_status_value, bucket_usage_value, dependant_to_tuple, Bucket, BucketLabel, BucketStatus};
use dsh::issues::{AllocationStatus, Notification};
use dsh::subjects::Dependant;
use dsh::value::Value;

#[test]
fn dependant_rows() {
    let app = Dependant::App { app_id: "a".to_string(), resources: vec!["bucket:b".to_string()] };
    assert_eq!(dependant_to_tuple(&app), ("app:a".to_string(), vec!["bucket:b".to_string()]));
    let service = Dependant::Application { application_id: "s".to_string(), instances: 2, injections: vec!["env".to_string(), "var".to_string()] };
    assert_eq!(dependant_to_tuple(&service), ("service:s".to_string(), vec!["env".to_string(), "var".to_string()]));
    let certificate = Dependant::Certificate { certificate_id: "c".to_string(), secret_kind: "key".to_string() };
    assert_eq!(dependant_to_tuple(&certificate), ("certificate:c".to_string(), vec!["key".to_string()]));
    let proxy = Dependant::Proxy { proxy_id: "p".to_string(), instances: 1 };
    assert_eq!(dependant_to_tuple(&proxy), ("proxy:p".to_string(), vec!["".to_string()]));
    let trifonius = Dependant::Trifonius { trifonius_id: "t".to_string(), instances: 1, injections: vec![] };
    assert_eq!(dependant_to_tuple(&trifonius), ("trifonius:t".to_string(), vec!["".to_string()]));
}

fn status() -> BucketStatus {
    BucketStatus {
        status: AllocationStatus {
            derived_from: None,
            notifications: vec![
                Notification { remove: false, description: "one".to_string() },
                Notification { remove: true, description: "two".to_string() },
            ],
            provisioned: true,
        },
        configuration: Some(Bucket { encrypted: true, versioned: false }),
    }
}

#[test]
fn bucket_status_values() {
    let s = status();
    assert_eq!(bucket_status_value(&s, "name", BucketLabel::Notifications, "b"), Value::Warning("one\ntwo".to_string()));
    assert_eq!(bucket_status_value(&s, "name", BucketLabel::Encrypted, "b"), Value::Plain("true".to_string()));
    assert_eq!(bucket_status_value(&s, "name", BucketLabel::Versioned, "b"), Value::Plain("false".to_string()));
    assert_eq!(bucket_status_value(&s, "name", BucketLabel::DerivedFrom, "b"), Value::Hide);
    assert_eq!(bucket_status_value(&s, "name", BucketLabel::Name, "b"), Value::Plain("name".to_string()));
    assert_eq!(bucket_status_value(&s, "name", BucketLabel::Dependants, "b"), Value::Hide);
    let unconfigured = BucketStatus { configuration: None, ..status() };
    assert_eq!(bucket_status_value(&unconfigured, "n", BucketLabel::Versioned, "b"), Value::Empty);
    assert_eq!(bucket_status_value(&unconfigured, "n", BucketLabel::Encrypted, "b"), Value::Plain("false".to_string()));
}

#[test]
fn bucket_usage_values() {
    let dependants = vec![Dependant::Proxy { proxy_id: "p".to_string(), instances: 1 }];
    assert_eq!(
        bucket_usage_value("bucket-id", &status(), "n", &dependants, BucketLabel::Dependants, "t"),
        Value::Rows(vec![("proxy:p".to_string(), vec!["".to_string()])])
    );
    assert_eq!(bucket_usage_value("bucket-id", &status(), "n", &dependants, BucketLabel::Target, "t"), Value::Target("bucket-id".to_string()));
    let b = Bucket { encrypted: false, versioned: true };
    assert_eq!(b.value(BucketLabel::Versioned, "t"), Value::Plain("true".to_string()));
    assert_eq!(b.value(BucketLabel::Provisioned, "t"), Value::NotApplicable);
    assert_eq!(BucketLabel::Target.as_str(), "bucket id");
}
