use stack_deploy::convergence::{
    is_in_progress, BackendReply, Capability, Command, ConvergenceEngine, StackRequest,
    POLL_INTERVAL,
};
use stack_deploy::error::DeployError;
use stack_deploy::parameters::ResolvedParameter;

fn request() -> StackRequest {
    StackRequest::new(
        "myapp".to_string(),
        vec![ResolvedParameter { key: "Stage".to_string(), value: "dev".to_string() }],
        "https://bucket.s3.amazonaws.com/myapp/template.json".to_string(),
    )
}

fn status(text: &str) -> BackendReply {
    BackendReply::Status(Some(text.to_string()))
}

fn describe(delay: u64, report: Option<&str>) -> Command {
    Command::DescribeStack {
        stack_id: "stack-1".to_string(),
        delay,
        report: report.map(|r| r.to_string()),
    }
}

fn remote(context: &str) -> Command {
    Command::Abort { error: DeployError::RemoteState(context.to_string()) }
}

#[test]
fn the_request_acknowledges_named_identities() {
    let request = request();
    assert_eq!(request.capability, Capability::NamedIam);
    assert_eq!(request.stack_name, "myapp");
    assert_eq!(request.duplicate(), request);
}

#[test]
fn the_first_command_is_the_create() {
    let engine = ConvergenceEngine::new(request());
    assert_eq!(engine.next_command(), Command::CreateStack(request()));
}

#[test]
fn polling_repolls_twice_and_stops_at_create_complete() {
    let mut engine = ConvergenceEngine::new(request());
    engine.on_reply(BackendReply::Accepted("stack-1".to_string()));
    assert_eq!(engine.next_command(), describe(0, None));
    let mut delayed = 0;
    let mut last = None;
    for text in ["CREATE_IN_PROGRESS", "CREATE_IN_PROGRESS", "CREATE_COMPLETE"] {
        engine.on_reply(status(text));
        match engine.next_command() {
            Command::DescribeStack { stack_id, delay, report } => {
                assert_eq!(stack_id, "stack-1");
                assert_eq!(delay, 2);
                assert_eq!(report, Some(text.to_string()));
                delayed += 1;
            }
            other => last = Some(other),
        }
    }
    assert_eq!(delayed, 2);
    assert_eq!(last, Some(Command::Finish { status: "CREATE_COMPLETE".to_string() }));
}

#[test]
fn the_poll_interval_is_two_time_units() {
    assert_eq!(POLL_INTERVAL, 2);
}

#[test]
fn an_existing_stack_is_updated_with_the_same_request() {
    let mut engine = ConvergenceEngine::new(request());
    engine.on_reply(BackendReply::AlreadyExists);
    assert_eq!(engine.next_command(), Command::UpdateStack(request()));
    engine.on_reply(BackendReply::Accepted("stack-1".to_string()));
    assert_eq!(engine.next_command(), describe(0, None));
    engine.on_reply(status("UPDATE_IN_PROGRESS"));
    assert_eq!(engine.next_command(), describe(2, Some("UPDATE_IN_PROGRESS")));
    engine.on_reply(status("UPDATE_COMPLETE_CLEANUP_IN_PROGRESS"));
    assert_eq!(engine.next_command(), describe(2, Some("UPDATE_COMPLETE_CLEANUP_IN_PROGRESS")));
    engine.on_reply(status("UPDATE_COMPLETE"));
    assert_eq!(engine.next_command(), Command::Finish { status: "UPDATE_COMPLETE".to_string() });
}

#[test]
fn the_create_is_never_attempted_again() {
    let replies = vec![
        BackendReply::AlreadyExists,
        BackendReply::AlreadyExists,
        BackendReply::Accepted("stack-1".to_string()),
        status("X_IN_PROGRESS"),
        BackendReply::Failed("boom".to_string()),
    ];
    let mut engine = ConvergenceEngine::new(request());
    let mut creates = 0;
    let mut updates = 0;
    if matches!(engine.next_command(), Command::CreateStack(_)) {
        creates += 1;
    }
    for reply in replies {
        engine.on_reply(reply);
        match engine.next_command() {
            Command::CreateStack(_) => creates += 1,
            Command::UpdateStack(_) => updates += 1,
            _ => {}
        }
    }
    assert_eq!(creates, 1);
    assert_eq!(updates, 1);
}

#[test]
fn a_failed_create_is_fatal() {
    let mut engine = ConvergenceEngine::new(request());
    engine.on_reply(BackendReply::Failed("access denied".to_string()));
    assert_eq!(engine.next_command(), remote("access denied"));
}

#[test]
fn a_failed_update_is_fatal() {
    let mut engine = ConvergenceEngine::new(request());
    engine.on_reply(BackendReply::AlreadyExists);
    engine.on_reply(BackendReply::Failed("no updates are to be performed".to_string()));
    assert_eq!(engine.next_command(), remote("no updates are to be performed"));
}

#[test]
fn a_failed_poll_is_fatal_and_not_retried() {
    let mut engine = ConvergenceEngine::new(request());
    engine.on_reply(BackendReply::Accepted("stack-1".to_string()));
    engine.on_reply(status("CREATE_IN_PROGRESS"));
    engine.on_reply(BackendReply::Failed("throttled".to_string()));
    assert_eq!(engine.next_command(), remote("throttled"));
    engine.on_reply(status("CREATE_COMPLETE"));
    assert_eq!(engine.next_command(), remote("throttled"));
}

#[test]
fn a_missing_status_record_ends_the_polling() {
    let mut engine = ConvergenceEngine::new(request());
    engine.on_reply(BackendReply::Accepted("stack-1".to_string()));
    engine.on_reply(BackendReply::Status(None));
    assert_eq!(engine.next_command(), Command::Finish { status: "Unknown status".to_string() });
}

#[test]
fn a_failed_terminal_status_is_reported_like_any_other() {
    let mut engine = ConvergenceEngine::new(request());
    engine.on_reply(BackendReply::Accepted("stack-1".to_string()));
    engine.on_reply(status("ROLLBACK_COMPLETE"));
    assert_eq!(engine.next_command(), Command::Finish { status: "ROLLBACK_COMPLETE".to_string() });
    engine.on_reply(status("CREATE_IN_PROGRESS"));
    assert_eq!(engine.next_command(), Command::Finish { status: "ROLLBACK_COMPLETE".to_string() });
}

#[test]
fn a_reply_that_answers_no_command_is_fatal() {
    let unexpected = "unexpected reply from the stack backend";
    let mut creating = ConvergenceEngine::new(request());
    creating.on_reply(status("CREATE_COMPLETE"));
    assert_eq!(creating.next_command(), remote(unexpected));

    let mut updating = ConvergenceEngine::new(request());
    updating.on_reply(BackendReply::AlreadyExists);
    updating.on_reply(BackendReply::AlreadyExists);
    assert_eq!(updating.next_command(), remote(unexpected));

    let mut polling = ConvergenceEngine::new(request());
    polling.on_reply(BackendReply::Accepted("stack-1".to_string()));
    polling.on_reply(BackendReply::Accepted("stack-2".to_string()));
    assert_eq!(polling.next_command(), remote(unexpected));
}

#[test]
fn only_a_progress_suffix_is_non_terminal() {
    assert!(is_in_progress("CREATE_IN_PROGRESS"));
    assert!(is_in_progress("UPDATE_ROLLBACK_IN_PROGRESS"));
    assert!(is_in_progress("PROGRESS"));
    assert!(!is_in_progress("CREATE_COMPLETE"));
    assert!(!is_in_progress("CREATE_FAILED"));
    assert!(!is_in_progress("IN_PROGRESS_NOT"));
    assert!(!is_in_progress("in_progress"));
    assert!(!is_in_progress("Unknown status"));
    assert!(!is_in_progress(""));
}
