use dsh::lifecycle::{
    all_killed, missing_service_error, restart_explanation, restart_refusal, restart_stopped_message, restart_stopping_message, running_tasks,
    start_action, start_explanation, started_message, stop_action, stop_explanation, LifecycleAction, TaskRunState,
};

fn strings(v: &[&str]) -> Vec<String> {
    v.iter().map(|s| s.to_string()).collect()
}

#[test]
fn start_explanations() {
    assert_eq!(start_explanation("web", 1), "start service 'web'");
    assert_eq!(start_explanation("web", 3), "start 3 instances of service 'web'");
    assert_eq!(missing_service_error("web"), "service 'web' does not exist");
}

#[test]
fn starting_a_stopped_service_configures_the_requested_instances() {
    assert_eq!(
        start_action("web", 1, 0, false),
        LifecycleAction::Configure { instances: 1, outcome: "service 'web' started".to_string() }
    );
    assert_eq!(
        start_action("web", 4, 0, false),
        LifecycleAction::Configure { instances: 4, outcome: "service 'web' started (4 instances)".to_string() }
    );
}

#[test]
fn starting_a_running_service_changes_nothing() {
    assert_eq!(start_action("web", 2, 1, false), LifecycleAction::Warn("service 'web' already started".to_string()));
    assert_eq!(start_action("web", 2, 0, true), LifecycleAction::Warn("dry-run mode, service not started".to_string()));
}

#[test]
fn stopping_a_service() {
    assert_eq!(stop_explanation("web"), "stop service 'web'");
    assert_eq!(
        stop_action("web", 1, false),
        LifecycleAction::Configure { instances: 0, outcome: "service 'web' stopped".to_string() }
    );
    assert_eq!(
        stop_action("web", 5, false),
        LifecycleAction::Configure { instances: 0, outcome: "service 'web' stopped (5 instances)".to_string() }
    );
    assert_eq!(stop_action("web", 0, false), LifecycleAction::Warn("service 'web' already stopped".to_string()));
    assert_eq!(stop_action("web", 2, true), LifecycleAction::Warn("dry-run mode, service not stopped".to_string()));
}

#[test]
fn restart_refusals() {
    assert_eq!(restart_explanation("web"), "restart service 'web'");
    assert_eq!(restart_refusal("web", 0, false), Some("service 'web' not started".to_string()));
    assert_eq!(restart_refusal("web", 2, true), Some("dry-run mode, service not restarted".to_string()));
    assert_eq!(restart_refusal("web", 2, false), None);
}

#[test]
fn restart_waits_for_the_running_tasks() {
    let ids = strings(&["a", "b", "c", "d"]);
    let states = vec![Some(TaskRunState::Running), Some(TaskRunState::Killed), None, Some(TaskRunState::Running)];
    assert_eq!(running_tasks(&ids, &states), strings(&["a", "d"]));
    assert!(all_killed(&vec![Some(TaskRunState::Killed), Some(TaskRunState::Killed)]));
    assert!(!all_killed(&vec![Some(TaskRunState::Killed), Some(TaskRunState::Other)]));
    assert!(!all_killed(&vec![None]));
    assert!(all_killed(&vec![]));
}

#[test]
fn restart_messages() {
    assert_eq!(restart_stopping_message("web", 1), "stop service 'web'");
    assert_eq!(restart_stopping_message("web", 2), "stop service 'web' (2 instances)");
    assert_eq!(restart_stopping_message("web", 0), "stop service 'web' (0 instances)");
    assert_eq!(restart_stopped_message("web", 1), "\nservice 'web' stopped");
    assert_eq!(restart_stopped_message("web", 3), "\nservice 'web' stopped (3 instances)");
    assert_eq!(started_message("web", 1), "service 'web' started");
    assert_eq!(started_message("web", 2), "service 'web' started (2 instances)");
}
