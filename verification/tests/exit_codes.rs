use cli_run::exit::{
    conclude, exit_code_for, final_exit_code, ChildStatus, Coordinator, ExecutionOutcome,
    ExitEvent, RunError, ABNORMAL_EXIT_CODE, FAULT_EXIT_CODE,
};
use cli_run::forward::{StreamFault, StreamId, StreamIoError};

fn exited(code: i32) -> ExitEvent {
    ExitEvent::ChildExited(ChildStatus::Exited(code))
}

fn drained(stream: StreamId) -> ExitEvent {
    ExitEvent::ForwarderFinished(stream, None)
}

fn run_to_end(events: &[ExitEvent]) -> ExecutionOutcome {
    let mut coordinator = Coordinator::new();
    for event in events {
        coordinator = coordinator.record(*event);
    }
    coordinator.finalize().expect("all three reports were made")
}

#[test]
fn exit_code_is_the_childs() {
    for code in [0, 1, 2, 42, 127, 255, -1, i32::MAX, i32::MIN] {
        assert_eq!(final_exit_code(ChildStatus::Exited(code)), code);
        let outcome =
            run_to_end(&[exited(code), drained(StreamId::Stdout), drained(StreamId::Stderr)]);
        assert_eq!(outcome.exit_code, code);
        assert_eq!(exit_code_for(&conclude(outcome)), code);
    }
}

#[test]
fn child_exiting_with_42_yields_42() {
    let outcome = run_to_end(&[exited(42), drained(StreamId::Stdout), drained(StreamId::Stderr)]);
    assert_eq!(outcome.exit_code, 42);
    assert!(outcome.forwarding_errors.is_empty());
    let result = conclude(outcome);
    assert!(matches!(result, Err(RunError::CommandFailed { code: 42, .. })));
    assert_eq!(exit_code_for(&result), 42);
}

#[test]
fn signaled_child_yields_the_sentinel() {
    assert_eq!(ABNORMAL_EXIT_CODE, 1);
    assert_eq!(final_exit_code(ChildStatus::Signaled), 1);
    let outcome = run_to_end(&[
        ExitEvent::ChildExited(ChildStatus::Signaled),
        drained(StreamId::Stdout),
        drained(StreamId::Stderr),
    ]);
    assert_eq!(outcome.exit_code, 1);
    assert!(matches!(conclude(outcome), Err(RunError::CommandFailed { code: 1, .. })));
}

#[test]
fn success_is_not_an_error() {
    let outcome = run_to_end(&[exited(0), drained(StreamId::Stdout), drained(StreamId::Stderr)]);
    let result = conclude(outcome);
    assert!(matches!(&result, Ok(outcome) if outcome.exit_code == 0));
    assert_eq!(exit_code_for(&result), 0);
}

#[test]
fn nothing_is_final_before_all_three_reports() {
    let coordinator = Coordinator::new();
    assert!(!coordinator.is_complete());
    assert!(coordinator.finalize().is_none());
    let coordinator = coordinator.record(exited(0));
    assert!(!coordinator.is_complete());
    assert!(coordinator.finalize().is_none());
    let coordinator = coordinator.record(drained(StreamId::Stdout));
    assert!(!coordinator.is_complete());
    assert!(coordinator.finalize().is_none());
    let coordinator = coordinator.record(drained(StreamId::Stderr));
    assert!(coordinator.is_complete());
    assert!(coordinator.finalize().is_some());
}

#[test]
fn both_forwarders_without_the_child_are_not_enough() {
    let coordinator = Coordinator::new()
        .record(drained(StreamId::Stdout))
        .record(drained(StreamId::Stderr))
        .record(drained(StreamId::Stdout));
    assert!(!coordinator.is_complete());
    assert!(coordinator.finalize().is_none());
}

#[test]
fn reports_may_come_in_any_order() {
    let a = exited(3);
    let b = ExitEvent::ForwarderFinished(StreamId::Stdout, Some(StreamFault::Write));
    let c = ExitEvent::ForwarderFinished(StreamId::Stderr, Some(StreamFault::Read));
    let orders = [[a, b, c], [a, c, b], [b, a, c], [b, c, a], [c, a, b], [c, b, a]];
    for order in orders {
        let outcome = run_to_end(&order);
        assert_eq!(outcome.exit_code, 3);
        assert_eq!(
            outcome.forwarding_errors,
            vec![
                StreamIoError { stream: StreamId::Stdout, fault: StreamFault::Write },
                StreamIoError { stream: StreamId::Stderr, fault: StreamFault::Read },
            ]
        );
    }
}

#[test]
fn the_first_report_of_each_kind_stands() {
    let outcome = run_to_end(&[
        exited(5),
        exited(6),
        ExitEvent::ForwarderFinished(StreamId::Stdout, None),
        ExitEvent::ForwarderFinished(StreamId::Stdout, Some(StreamFault::Flush)),
        ExitEvent::ForwarderFinished(StreamId::Stderr, Some(StreamFault::Read)),
        ExitEvent::ForwarderFinished(StreamId::Stderr, None),
    ]);
    assert_eq!(outcome.exit_code, 5);
    assert_eq!(
        outcome.forwarding_errors,
        vec![StreamIoError { stream: StreamId::Stderr, fault: StreamFault::Read }]
    );
}

#[test]
fn forwarding_errors_do_not_mask_the_exit_code() {
    let faulty = run_to_end(&[
        exited(0),
        ExitEvent::ForwarderFinished(StreamId::Stdout, Some(StreamFault::Write)),
        drained(StreamId::Stderr),
    ]);
    assert_eq!(faulty.exit_code, 0);
    assert_eq!(faulty.forwarding_errors.len(), 1);
    let result = conclude(faulty);
    assert!(matches!(&result, Ok(outcome) if outcome.forwarding_errors.len() == 1));
    assert_eq!(exit_code_for(&result), 0);
}

#[test]
fn a_failure_keeps_its_forwarding_errors() {
    let outcome = run_to_end(&[
        exited(9),
        drained(StreamId::Stdout),
        ExitEvent::ForwarderFinished(StreamId::Stderr, Some(StreamFault::Flush)),
    ]);
    match conclude(outcome) {
        Err(RunError::CommandFailed { code, forwarding_errors }) => {
            assert_eq!(code, 9);
            assert_eq!(
                forwarding_errors,
                vec![StreamIoError { stream: StreamId::Stderr, fault: StreamFault::Flush }]
            );
        }
        other => panic!("unexpected result {:?}", other),
    }
}

#[test]
fn faults_of_the_caller_report_the_fixed_code() {
    assert_eq!(FAULT_EXIT_CODE, 1);
    let path = Err(RunError::PathResolution { path: "/nowhere".to_string() });
    assert_eq!(exit_code_for(&path), 1);
    let spawn = Err(RunError::Spawn {
        executable: "missing".to_string(),
        os_error: Some(2),
        detail: "No such file or directory".to_string(),
    });
    assert_eq!(exit_code_for(&spawn), 1);
}
