use code_runner::config::Config;
use code_runner::lifecycle::{interpret_wait, Event, Lifecycle, Step, WaitOutcome};
use code_runner::logs::ContainerLogs;
use code_runner::models::{CodeExecutionRequest, Language};

fn python_request(code: &str, timeout: Option<u64>) -> CodeExecutionRequest {
    CodeExecutionRequest {
        code: code.to_string(),
        language: Language::Python,
        timeout,
        stdin: None,
    }
}

#[test]
fn start_plans_a_create_step_with_a_derived_name() {
    let config = Config::default();
    let request = python_request("print('hi')", Some(5));
    let (lifecycle, step) = Lifecycle::start(&request, &config);
    match step {
        Step::Create { name, config: container } => {
            assert!(name.starts_with("code_exec_"));
            assert_eq!(name.len(), "code_exec_".len() + 36);
            assert_eq!(container.image, "python:3.9-slim");
            assert_eq!(container.cmd.len(), 3);
            assert_eq!(container.cmd[0], "sh");
            assert_eq!(container.cmd[1], "-c");
            assert_eq!(
                container.cmd[2],
                "mkdir -p /app && echo 'print(\"hi\")' > /app/code.py && python /app/code.py"
            );
            assert_eq!(container.network_mode, "none");
            assert_eq!(container.memory_swap, 0);
            assert!(!container.auto_remove);
        },
        _ => panic!("the first step must create the container"),
    }
    assert!(!lifecycle.is_finished());
}

#[test]
fn execution_identifiers_are_fresh_per_run() {
    let config = Config::default();
    let request = python_request("pass", None);
    let (a, _) = Lifecycle::start(&request, &config);
    let (b, _) = Lifecycle::start(&request, &config);
    assert_eq!(a.execution_id.len(), 36);
    assert_eq!(b.execution_id.len(), 36);
    assert_ne!(a.execution_id, b.execution_id);
}

#[test]
fn completed_run_reports_the_containers_exit_status() {
    let config = Config::default();
    let request = python_request("print('hi')", Some(5));
    let (mut lifecycle, _) = Lifecycle::start(&request, &config);

    let step = lifecycle.advance(Event::Created { outcome: Ok("cid-1".to_string()) });
    assert!(matches!(step, Step::Start { .. }));

    let step = lifecycle.advance(Event::Started { outcome: Ok(()) });
    match &step {
        Step::Wait { container_id, timeout_secs } => {
            assert_eq!(container_id, "cid-1");
            assert_eq!(*timeout_secs, 5);
        },
        _ => panic!("a started container is waited on"),
    }

    let step = lifecycle.advance(Event::Waited {
        outcome: WaitOutcome::Completed { status_code: 0 },
        elapsed_ms: 42,
    });
    assert!(matches!(step, Step::CollectLogs { .. }));

    let logs = ContainerLogs { stdout: "hi\n".to_string(), stderr: String::new() };
    let step = lifecycle.advance(Event::LogsCollected { outcome: Ok(logs) });
    match &step {
        Step::Remove { container_id } => assert_eq!(container_id, "cid-1"),
        _ => panic!("logs are followed by removal"),
    }

    let step = lifecycle.advance(Event::Removed { outcome: Ok(()) });
    match step {
        Step::Done { outcome: Ok(response) } => {
            assert_eq!(response.exit_code, 0);
            assert!(response.stdout.contains("hi"));
            assert_eq!(response.stdout, "hi\n");
            assert!(!response.timed_out);
            assert_eq!(response.duration_ms, 42);
            assert_eq!(response.execution_id.len(), 36);
        },
        _ => panic!("a finished run delivers its result"),
    }
    assert!(lifecycle.is_finished());
    assert!(!lifecycle.expects(&Event::Removed { outcome: Ok(()) }));
}

#[test]
fn timed_out_run_kills_collects_and_removes() {
    let config = Config::default();
    let request = python_request("while True: pass", Some(1));
    let (mut lifecycle, _) = Lifecycle::start(&request, &config);

    lifecycle.advance(Event::Created { outcome: Ok("cid-2".to_string()) });
    let step = lifecycle.advance(Event::Started { outcome: Ok(()) });
    match &step {
        Step::Wait { timeout_secs, .. } => assert_eq!(*timeout_secs, 1),
        _ => panic!("a started container is waited on"),
    }

    let step = lifecycle.advance(Event::WaitTimedOut);
    match &step {
        Step::Kill { container_id } => assert_eq!(container_id, "cid-2"),
        _ => panic!("a timeout interrupts the container"),
    }

    let step = lifecycle.advance(Event::Killed { elapsed_ms: 1004 });
    assert!(matches!(step, Step::CollectLogs { .. }));

    let step = lifecycle.advance(Event::LogsCollected {
        outcome: Ok(ContainerLogs { stdout: String::new(), stderr: String::new() }),
    });
    assert!(matches!(step, Step::Remove { .. }));

    let step = lifecycle.advance(Event::Removed { outcome: Ok(()) });
    match step {
        Step::Done { outcome: Ok(response) } => {
            assert!(response.timed_out);
            assert_eq!(response.exit_code, -1);
            assert_eq!(response.duration_ms, 1004);
        },
        _ => panic!("a timed-out run still delivers its result"),
    }
}

#[test]
fn creation_failure_is_terminal_with_nothing_to_clean() {
    let config = Config::default();
    let request = python_request("pass", None);
    let (mut lifecycle, _) = Lifecycle::start(&request, &config);
    let step = lifecycle.advance(Event::Created { outcome: Err("no such image".to_string()) });
    match step {
        Step::Done { outcome: Err(message) } => assert_eq!(message, "no such image"),
        _ => panic!("a failed creation ends the run"),
    }
    assert!(lifecycle.is_finished());
    assert!(!lifecycle.remove_requested);
}

#[test]
fn start_failure_still_removes_the_created_container() {
    let config = Config::default();
    let request = python_request("pass", None);
    let (mut lifecycle, _) = Lifecycle::start(&request, &config);
    lifecycle.advance(Event::Created { outcome: Ok("cid-3".to_string()) });
    let step = lifecycle.advance(Event::Started { outcome: Err("cannot start".to_string()) });
    match &step {
        Step::Remove { container_id } => assert_eq!(container_id, "cid-3"),
        _ => panic!("a created container is removed even when starting fails"),
    }
    let step = lifecycle.advance(Event::Removed { outcome: Err("already gone".to_string()) });
    match step {
        Step::Done { outcome: Err(message) } => assert_eq!(message, "cannot start"),
        _ => panic!("the start failure is what the caller hears about"),
    }
    assert!(lifecycle.remove_requested);
}

#[test]
fn failed_wait_counts_as_failure_not_timeout() {
    let config = Config::default();
    let request = python_request("pass", None);
    let (mut lifecycle, _) = Lifecycle::start(&request, &config);
    lifecycle.advance(Event::Created { outcome: Ok("cid-4".to_string()) });
    lifecycle.advance(Event::Started { outcome: Ok(()) });
    lifecycle.advance(Event::Waited {
        outcome: WaitOutcome::Failed { message: "stream broke".to_string() },
        elapsed_ms: 7,
    });
    lifecycle.advance(Event::LogsCollected {
        outcome: Err("no logs".to_string()),
    });
    let step = lifecycle.advance(Event::Removed { outcome: Ok(()) });
    match step {
        Step::Done { outcome: Ok(response) } => {
            assert_eq!(response.exit_code, -1);
            assert!(!response.timed_out);
            assert_eq!(response.stdout, "");
            assert_eq!(response.stderr, "");
            assert_eq!(response.duration_ms, 7);
        },
        _ => panic!("a failed wait still delivers a result"),
    }
}

#[test]
fn removal_failure_never_overrides_the_result() {
    let config = Config::default();
    let request = python_request("print(2)", None);
    let (mut lifecycle, _) = Lifecycle::start(&request, &config);
    lifecycle.advance(Event::Created { outcome: Ok("cid-5".to_string()) });
    lifecycle.advance(Event::Started { outcome: Ok(()) });
    lifecycle.advance(Event::Waited {
        outcome: WaitOutcome::Completed { status_code: 3 },
        elapsed_ms: 11,
    });
    lifecycle.advance(Event::LogsCollected {
        outcome: Ok(ContainerLogs { stdout: "x".to_string(), stderr: "y".to_string() }),
    });
    let step = lifecycle.advance(Event::Removed { outcome: Err("daemon busy".to_string()) });
    match step {
        Step::Done { outcome: Ok(response) } => {
            assert_eq!(response.exit_code, 3);
            assert_eq!(response.stdout, "x");
            assert_eq!(response.stderr, "y");
        },
        _ => panic!("removal failure must not replace the outcome"),
    }
}

#[test]
fn delivered_outputs_are_truncated_independently() {
    let mut config = Config::default();
    config.execution.max_output_size = 4;
    let request = python_request("pass", None);
    let (mut lifecycle, _) = Lifecycle::start(&request, &config);
    lifecycle.advance(Event::Created { outcome: Ok("cid-6".to_string()) });
    lifecycle.advance(Event::Started { outcome: Ok(()) });
    lifecycle.advance(Event::Waited {
        outcome: WaitOutcome::Completed { status_code: 0 },
        elapsed_ms: 1,
    });
    lifecycle.advance(Event::LogsCollected {
        outcome: Ok(ContainerLogs { stdout: "123456".to_string(), stderr: "ab".to_string() }),
    });
    let step = lifecycle.advance(Event::Removed { outcome: Ok(()) });
    match step {
        Step::Done { outcome: Ok(response) } => {
            assert_eq!(response.stdout, "1234...\n[Output truncated]");
            assert_eq!(response.stderr, "ab");
        },
        _ => panic!("the run must finish"),
    }
}

#[test]
fn expects_follows_the_phase() {
    let config = Config::default();
    let request = python_request("pass", None);
    let (mut lifecycle, _) = Lifecycle::start(&request, &config);
    assert!(lifecycle.expects(&Event::Created { outcome: Ok("c".to_string()) }));
    assert!(!lifecycle.expects(&Event::WaitTimedOut));
    lifecycle.advance(Event::Created { outcome: Ok("c".to_string()) });
    assert!(lifecycle.expects(&Event::Started { outcome: Ok(()) }));
    assert!(!lifecycle.expects(&Event::Killed { elapsed_ms: 0 }));
}

#[test]
fn wait_stream_interpretation() {
    match interpret_wait(Some(Ok(5))) {
        WaitOutcome::Completed { status_code } => assert_eq!(status_code, 5),
        _ => panic!("a status code completes the wait"),
    }
    match interpret_wait(Some(Err("boom".to_string()))) {
        WaitOutcome::Failed { message } => assert_eq!(message, "boom"),
        _ => panic!("an errored stream item fails the wait"),
    }
    match interpret_wait(None) {
        WaitOutcome::Failed { message } => {
            assert_eq!(message, "Container stream ended unexpectedly")
        },
        _ => panic!("an ended stream fails the wait"),
    }
}
