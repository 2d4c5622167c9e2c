use extr::command::{AdapterError, CommandSpec};
use extr::error::DispatchError;
use extr::stage::{advance, has_ended, next_step, BatchStep, DispatchEvent, DispatchState};

fn built() -> CommandSpec {
    let mut cmd = CommandSpec::new("/usr/bin/unzip");
    cmd.arg("a.zip");
    cmd
}

#[test]
fn dispatch_runs_through_its_stages() {
    let s = advance(
        DispatchState::Unresolved,
        DispatchEvent::Resolved { binary: Ok("/usr/bin/unzip".to_string()) },
    );
    assert_eq!(s, DispatchState::Located { binary: "/usr/bin/unzip".to_string() });
    assert!(!has_ended(&s));
    let s = advance(s, DispatchEvent::Built { command: Ok(built()) });
    assert_eq!(s, DispatchState::Building { command: built() });
    let s = advance(s, DispatchEvent::DirectoryReady { result: Ok(()) });
    assert_eq!(s, DispatchState::Running { command: built() });
    assert!(!has_ended(&s));
    let s = advance(s, DispatchEvent::Exited { outcome: Ok(()) });
    assert_eq!(s, DispatchState::Succeeded);
    assert!(has_ended(&s));
}

#[test]
fn each_stage_can_fail() {
    let missing = DispatchError::NoTrustedTool {
        formats: vec!["zip".to_string()],
        candidates: vec!["unzip".to_string()],
    };
    let s = advance(DispatchState::Unresolved, DispatchEvent::Resolved { binary: Err(missing.clone()) });
    assert_eq!(s, DispatchState::Failed { error: missing });
    assert!(has_ended(&s));

    let located = DispatchState::Located { binary: "/usr/bin/x".to_string() };
    let refused = DispatchEvent::Built {
        command: Err(AdapterError { message: "Unsupported zip extraction tool: x".to_string() }),
    };
    assert_eq!(
        advance(located, refused),
        DispatchState::Failed {
            error: DispatchError::AdapterBuild {
                reason: "Unsupported zip extraction tool: x".to_string()
            }
        }
    );

    let building = DispatchState::Building { command: built() };
    let denied = DispatchEvent::DirectoryReady { result: Err("Permission denied".to_string()) };
    assert_eq!(
        advance(building, denied),
        DispatchState::Failed { error: DispatchError::Io { reason: "Permission denied".to_string() } }
    );

    let running = DispatchState::Running { command: built() };
    let failure = DispatchError::ExecutionFailure { status: "exit status: 2".to_string() };
    assert_eq!(
        advance(running, DispatchEvent::Exited { outcome: Err(failure.clone()) }),
        DispatchState::Failed { error: failure }
    );
}

#[test]
fn events_out_of_turn_change_nothing() {
    let s = advance(DispatchState::Unresolved, DispatchEvent::Exited { outcome: Ok(()) });
    assert_eq!(s, DispatchState::Unresolved);
    let s = advance(DispatchState::Succeeded, DispatchEvent::Exited {
        outcome: Err(DispatchError::Spawn { reason: "late".to_string() }),
    });
    assert_eq!(s, DispatchState::Succeeded);
    let failed = DispatchState::Failed { error: DispatchError::Io { reason: "x".to_string() } };
    let s = advance(failed, DispatchEvent::Resolved { binary: Ok("/bin/x".to_string()) });
    assert_eq!(s, DispatchState::Failed { error: DispatchError::Io { reason: "x".to_string() } });
    let s = advance(
        DispatchState::Located { binary: "/bin/x".to_string() },
        DispatchEvent::DirectoryReady { result: Ok(()) },
    );
    assert_eq!(s, DispatchState::Located { binary: "/bin/x".to_string() });
}

#[test]
fn batch_goes_on_in_order_and_stops_at_a_failure() {
    assert_eq!(next_step(3, 0, Ok(())), BatchStep::Extract { index: 0 });
    assert_eq!(next_step(3, 2, Ok(())), BatchStep::Extract { index: 2 });
    assert_eq!(next_step(3, 3, Ok(())), BatchStep::Done);
    assert_eq!(next_step(0, 0, Ok(())), BatchStep::Done);
    let failure = DispatchError::ExecutionFailure { status: "exit status: 1".to_string() };
    assert_eq!(next_step(3, 1, Err(failure.clone())), BatchStep::Stop { error: failure });
}

#[test]
fn failed_check_stops_the_batch_before_its_first_file() {
    let unsupported = DispatchError::UnsupportedFormat { file: "b.unknownext".to_string() };
    assert_eq!(
        next_step(2, 0, Err(unsupported.clone())),
        BatchStep::Stop { error: unsupported }
    );
}
