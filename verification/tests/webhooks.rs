use action_hero::webhook::{
    accept_payload, check_event_type, conclude, workflow_filename, ErrorWrapper,
};

#[test]
fn delivery_without_header_is_refused() {
    let refusal = check_event_type(None).unwrap_err();
    assert!(matches!(refusal, ErrorWrapper::MissingHeader));
    assert_eq!(refusal.status_code(), 400);
    assert_eq!(refusal.body(), "Missing X-GitHub-Event header");
}

#[test]
fn other_event_is_ignored_by_name() {
    let refusal = check_event_type(Some("push")).unwrap_err();
    match &refusal {
        ErrorWrapper::IgnoredType(what) => assert_eq!(what, "push"),
        other => panic!("unexpected refusal {:?}", other),
    }
    assert_eq!(refusal.status_code(), 203);
    assert_eq!(refusal.body(), "Ignoring 'push' event");
    assert!(check_event_type(Some("Workflow_run")).is_err());
    assert!(check_event_type(Some("")).is_err());
}

#[test]
fn workflow_run_event_is_handled() {
    assert!(check_event_type(Some("workflow_run")).is_ok());
}

#[test]
fn other_action_is_ignored_by_name() {
    let refusal =
        accept_payload("requested", "octo", "hello", ".github/workflows/check.yaml").unwrap_err();
    match &refusal {
        ErrorWrapper::IgnoredAction(what) => assert_eq!(what, "requested"),
        other => panic!("unexpected refusal {:?}", other),
    }
    assert_eq!(refusal.status_code(), 203);
    assert_eq!(refusal.body(), "Ignoring 'requested' action");
}

#[test]
fn ignored_type_and_action_are_told_apart() {
    let kind = ErrorWrapper::IgnoredType("x".to_string());
    let action = ErrorWrapper::IgnoredAction("x".to_string());
    assert_ne!(kind.body(), action.body());
}

#[test]
fn completion_names_the_workflow() {
    let config = accept_payload("completed", "octo", "hello", ".github/workflows/check.yaml").unwrap();
    assert_eq!(config.owner, "octo");
    assert_eq!(config.repository, "hello");
    assert_eq!(config.workflow, "check.yaml");
    assert!(!config.devel);
}

#[test]
fn filename_is_the_last_segment() {
    assert_eq!(workflow_filename(".github/workflows/check.yaml"), "check.yaml");
    assert_eq!(workflow_filename("check.yaml"), "check.yaml");
    assert_eq!(workflow_filename("a/b/"), "");
    assert_eq!(workflow_filename(""), "");
    assert_eq!(workflow_filename("/"), "");
    assert_eq!(workflow_filename("a//b"), "b");
    for path in ["x/y/z", "", "/", "no-slash", "trailing/", "//"] {
        assert_eq!(workflow_filename(path), path.split('/').last().unwrap());
    }
}

#[test]
fn failure_and_bad_payload_have_their_statuses() {
    let failure = ErrorWrapper::Failure("connection reset".to_string());
    assert_eq!(failure.status_code(), 500);
    assert_eq!(failure.body(), "connection reset");
    let shape = ErrorWrapper::JsonFailure("missing field `action`".to_string());
    assert_eq!(shape.status_code(), 422);
    assert_eq!(shape.body(), "missing field `action`");
}

#[test]
fn projection_outcome_becomes_the_answer() {
    assert!(conclude(Ok("5c94".to_string())).is_ok());
    match conclude(Err("boom".to_string())) {
        Err(ErrorWrapper::Failure(detail)) => assert_eq!(detail, "boom"),
        other => panic!("unexpected answer {:?}", other),
    }
}
