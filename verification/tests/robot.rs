use dsh::robot::{check_robot_secret, robot_targets, robot_value, RobotLabel, RobotSubject};
use dsh::value::Value;

#[test]
fn robot_subject() {
    let s = RobotSubject {};
    assert_eq!(s.subject(), "robot");
    assert_eq!(s.subject_command_about(), "Manage and store robot secrets.");
    assert_eq!(s.subject_command_long_about(), "Manage and store robot secrets.");
}

#[test]
fn robot_targets_per_platform_and_tenant() {
    let targets = vec![
        ("prod".to_string(), vec!["t1".to_string(), "t2".to_string()]),
        ("dev".to_string(), vec![]),
        ("test".to_string(), vec!["t3".to_string()]),
    ];
    assert_eq!(
        robot_targets(&targets),
        vec![
            ("prod".to_string(), "t1".to_string()),
            ("prod".to_string(), "t2".to_string()),
            ("test".to_string(), "t3".to_string()),
        ]
    );
    assert!(robot_targets(&vec![]).is_empty());
}

#[test]
fn robot_secret_must_not_be_empty() {
    assert_eq!(check_robot_secret(""), Err("robot secret cannot be empty, update cancelled".to_string()));
    assert_eq!(check_robot_secret("s3cr3t"), Ok(()));
}

#[test]
fn robot_values() {
    assert_eq!(robot_value("prod", "tenant", RobotLabel::PlatformName), Value::Plain("prod".to_string()));
    assert_eq!(robot_value("prod", "tenant", RobotLabel::TenantName), Value::Plain("tenant".to_string()));
    assert_eq!(RobotLabel::TenantName.as_str(), "tenant");
    assert!(RobotLabel::PlatformName.is_target_label());
}
