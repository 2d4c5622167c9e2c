use extr::error::DispatchError;
use extr::health::{availability, get_health_info, split_by_availability};
use extr::kind::ExtractorKind;
use extr::registry::{register_extractors, Registry};
use extr::resolve::Probe;
use extr::supervisor::{
    begin_supervision, on_event, outcome_of, stream_plan, supervise, ExitReport, StreamMode,
    StreamPlan, Supervision, SupervisorAction, SupervisorEvent, SupervisorStep, TICK_MILLIS,
};
use extr::trust::Platform;

#[test]
fn availability_follows_the_probes() {
    let names = vec!["a", "b", "c"];
    let probes = vec![
        Probe { located: Some("/usr/bin/a".to_string()), canonical: Some("/usr/bin/a".to_string()) },
        Probe { located: None, canonical: None },
        Probe { located: Some("/tmp/c".to_string()), canonical: Some("/tmp/c".to_string()) },
    ];
    assert_eq!(
        availability(Platform::Linux, &names, &probes),
        vec![("a".to_string(), true), ("b".to_string(), false), ("c".to_string(), false)]
    );
    assert_eq!(
        availability(Platform::Linux, &names, &vec![]),
        vec![("a".to_string(), false), ("b".to_string(), false), ("c".to_string(), false)]
    );
}

#[test]
fn health_info_lists_formats_in_order() {
    let mut registry = Registry::new();
    registry.insert("zip", ExtractorKind::Zip);
    registry.insert("gz", ExtractorKind::Gzip);
    let info = get_health_info(&registry, Platform::Other);
    assert_eq!(
        info,
        vec![
            ("gz".to_string(), vec![("gzip".to_string(), false), ("gunzip".to_string(), false)]),
            (
                "zip".to_string(),
                vec![
                    ("unzip".to_string(), false),
                    ("7z".to_string(), false),
                    ("bsdtar".to_string(), false),
                    ("jar".to_string(), false)
                ]
            ),
        ]
    );
}

#[test]
fn health_info_of_the_full_registry_is_sorted() {
    let info = get_health_info(&register_extractors(), Platform::Linux);
    assert_eq!(info.len(), 29);
    for pair in info.windows(2) {
        assert!(pair[0].0 < pair[1].0);
    }
    assert_eq!(info[0].0, "7z");
    assert_eq!(info[1].0, "arj");
    for (format, _) in &info {
        assert_eq!(format, &format.to_lowercase());
    }
    let z = info.iter().find(|(format, _)| format.as_str() == "z");
    assert_eq!(z.map(|(_, tools)| tools.len()), Some(1));
}

#[test]
fn report_puts_available_tools_first() {
    let binaries = vec![
        ("unzip".to_string(), false),
        ("7z".to_string(), true),
        ("bsdtar".to_string(), false),
        ("jar".to_string(), true),
    ];
    let (available, missing) = split_by_availability(&binaries);
    assert_eq!(available, vec!["7z", "jar"]);
    assert_eq!(missing, vec!["unzip", "bsdtar"]);
    assert_eq!(split_by_availability(&vec![]), (vec![], vec![]));
}

#[test]
fn streams_follow_verbosity() {
    assert_eq!(
        stream_plan(true),
        StreamPlan {
            stdin: StreamMode::Piped,
            stdout: StreamMode::Piped,
            stderr: StreamMode::Piped
        }
    );
    assert_eq!(
        stream_plan(false),
        StreamPlan {
            stdin: StreamMode::Piped,
            stdout: StreamMode::Discarded,
            stderr: StreamMode::Piped
        }
    );
    assert_eq!(TICK_MILLIS, 100);
}

#[test]
fn exit_status_decides_the_outcome() {
    let ok = ExitReport { success: true, description: "exit status: 0".to_string() };
    assert_eq!(outcome_of(ok), Ok(()));
    let failed = ExitReport { success: false, description: "exit status: 3".to_string() };
    let e = outcome_of(failed).unwrap_err();
    assert_eq!(e, DispatchError::ExecutionFailure { status: "exit status: 3".to_string() });
    assert_eq!(e.message(), "💥 Whoops! Command failed with exit status exit status: 3");
}

#[test]
fn only_an_exit_ends_the_wait() {
    assert_eq!(on_event(SupervisorEvent::StreamClosed), SupervisorAction::Wait);
    assert_eq!(on_event(SupervisorEvent::Tick { exit: None }), SupervisorAction::Wait);
    let done = SupervisorEvent::Tick {
        exit: Some(ExitReport { success: true, description: "exit status: 0".to_string() }),
    };
    assert_eq!(on_event(done), SupervisorAction::Finish { outcome: Ok(()) });
    let killed = SupervisorEvent::Tick {
        exit: Some(ExitReport { success: false, description: "signal: 9 (SIGKILL)".to_string() }),
    };
    assert_eq!(
        on_event(killed),
        SupervisorAction::Finish {
            outcome: Err(DispatchError::ExecutionFailure {
                status: "signal: 9 (SIGKILL)".to_string()
            })
        }
    );
}

#[test]
fn failed_start_and_failed_poll_end_the_wait() {
    let e = on_event(SupervisorEvent::SpawnFailed { reason: "No such file".to_string() });
    assert_eq!(
        e,
        SupervisorAction::Finish {
            outcome: Err(DispatchError::Spawn { reason: "No such file".to_string() })
        }
    );
    let p = on_event(SupervisorEvent::PollFailed { reason: "gone".to_string() });
    assert_eq!(
        p,
        SupervisorAction::Finish { outcome: Err(DispatchError::Io { reason: "gone".to_string() }) }
    );
    assert_eq!(DispatchError::Spawn { reason: "No such file".to_string() }.message(), "No such file");
    assert_eq!(DispatchError::Io { reason: "gone".to_string() }.message(), "gone");
}

fn exit(success: bool, description: &str) -> SupervisorEvent {
    SupervisorEvent::Tick {
        exit: Some(ExitReport { success, description: description.to_string() }),
    }
}

#[test]
fn running_supervision_counts_closed_streams_and_waits() {
    let s = begin_supervision(2);
    assert_eq!(s, Supervision { open_relays: 2, ended: None });
    let (s, step) = supervise(s, SupervisorEvent::StreamClosed);
    assert_eq!((s.open_relays, step), (1, SupervisorStep::Wait));
    let (s, step) = supervise(s, SupervisorEvent::Tick { exit: None });
    assert_eq!((s.open_relays, step), (1, SupervisorStep::Wait));
    let (s, step) = supervise(s, SupervisorEvent::StreamClosed);
    assert_eq!((s.open_relays, step), (0, SupervisorStep::Wait));
    let (s, step) = supervise(s, SupervisorEvent::StreamClosed);
    assert_eq!((s, step), (Supervision { open_relays: 0, ended: None }, SupervisorStep::Wait));
}

#[test]
fn supervision_finishes_at_once_when_no_relay_is_open() {
    let (s, step) = supervise(begin_supervision(0), exit(true, "exit status: 0"));
    assert_eq!(step, SupervisorStep::Finish);
    assert_eq!(s, Supervision { open_relays: 0, ended: Some(Ok(())) });
    let (s, step) = supervise(
        begin_supervision(0),
        SupervisorEvent::SpawnFailed { reason: "No such file".to_string() },
    );
    assert_eq!(step, SupervisorStep::Finish);
    assert_eq!(s.ended, Some(Err(DispatchError::Spawn { reason: "No such file".to_string() })));
}

#[test]
fn supervision_drains_open_relays_after_the_exit() {
    let failed = Err(DispatchError::ExecutionFailure { status: "exit status: 1".to_string() });
    let (s, step) = supervise(begin_supervision(2), exit(false, "exit status: 1"));
    assert_eq!(step, SupervisorStep::Drain);
    assert_eq!(s, Supervision { open_relays: 2, ended: Some(failed.clone()) });
    let (s, step) = supervise(s, SupervisorEvent::StreamClosed);
    assert_eq!((s.open_relays, step), (1, SupervisorStep::Drain));
    let (s, step) = supervise(s, SupervisorEvent::Tick { exit: None });
    assert_eq!((s.open_relays, step), (1, SupervisorStep::Drain));
    let (s, step) = supervise(s, SupervisorEvent::StreamClosed);
    assert_eq!(step, SupervisorStep::Finish);
    assert_eq!(s, Supervision { open_relays: 0, ended: Some(failed) });
}

#[test]
fn draining_gives_up_after_a_quiet_tick() {
    let (s, step) = supervise(begin_supervision(1), exit(true, "exit status: 0"));
    assert_eq!(step, SupervisorStep::Drain);
    let (s, step) = supervise(s, SupervisorEvent::DrainTimeout);
    assert_eq!(step, SupervisorStep::Finish);
    assert_eq!(s, Supervision { open_relays: 1, ended: Some(Ok(())) });
    assert_eq!(on_event(SupervisorEvent::DrainTimeout), SupervisorAction::Wait);
    let (s, step) = supervise(begin_supervision(1), SupervisorEvent::DrainTimeout);
    assert_eq!((s, step), (Supervision { open_relays: 1, ended: None }, SupervisorStep::Wait));
}
