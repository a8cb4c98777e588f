use inference_runtime::platform::{ServerKind, Variant};
use inference_runtime::process::{
    kill_tree_command, plan_stop, ProcessEvent, ProcessState, ServerProcess, StopPlan,
};

#[test]
fn absent_record_means_already_stopped() {
    let plan = plan_stop(None);
    assert!(matches!(plan, StopPlan::AlreadyStopped));
    assert!(!plan.removes_record());
}

#[test]
fn blank_record_is_only_removed() {
    for text in ["", " ", "\r\n", " \t \n"] {
        let plan = plan_stop(Some(text));
        assert!(matches!(plan, StopPlan::ClearRecord), "{:?}", text);
        assert!(plan.removes_record());
    }
}

#[test]
fn record_with_an_id_leads_to_a_kill() {
    let plan = plan_stop(Some("4242"));
    assert!(matches!(&plan, StopPlan::KillTree { pid } if pid == "4242"));
    assert!(plan.removes_record());
    assert!(matches!(plan_stop(Some(" 17\r\n")), StopPlan::KillTree { pid } if pid == "17"));
    assert!(matches!(plan_stop(Some("not a number")), StopPlan::KillTree { pid } if pid == "not a number"));
}

#[test]
fn stopping_twice_finds_nothing_the_second_time() {
    let mut record: Option<String> = Some("4242\n".to_string());
    for round in 0..2 {
        let plan = plan_stop(record.as_deref());
        if round == 1 {
            assert!(matches!(plan, StopPlan::AlreadyStopped));
        }
        if plan.removes_record() {
            record = None;
        }
        assert!(record.is_none());
    }
}

#[test]
fn kill_command_takes_the_whole_tree_by_force() {
    assert_eq!(kill_tree_command("4242"), vec!["taskkill", "/PID", "4242", "/T", "/F"]);
}

#[test]
fn process_goes_through_its_states() {
    let mut p = ServerProcess::new(ServerKind::LlamaCpp);
    assert_eq!(p.state, ProcessState::NotRunning);
    assert_eq!(p.pid, None);
    assert!(p.apply(ProcessEvent::StartRequested { variant: Variant::Cuda12, port: 8080 }));
    assert_eq!(p.state, ProcessState::Starting);
    assert_eq!(p.port, 8080);
    assert_eq!(p.variant, Some(Variant::Cuda12));
    assert!(p.apply(ProcessEvent::Spawned { pid: 77 }));
    assert_eq!(p.state, ProcessState::Running);
    assert_eq!(p.pid, Some(77));
    assert!(p.apply(ProcessEvent::StopRequested));
    assert_eq!(p.state, ProcessState::Stopping);
    assert!(p.apply(ProcessEvent::Stopped));
    assert_eq!(p.state, ProcessState::NotRunning);
    assert_eq!(p.pid, None);
    assert_eq!(p.kind, ServerKind::LlamaCpp);
}

#[test]
fn failed_spawn_goes_back_to_not_running() {
    let mut p = ServerProcess::new(ServerKind::Ollama);
    assert!(p.apply(ProcessEvent::StartRequested { variant: Variant::Cpu, port: 1 }));
    assert!(p.apply(ProcessEvent::SpawnFailed));
    assert_eq!(p.state, ProcessState::NotRunning);
    assert_eq!(p.pid, None);
}

#[test]
fn stop_is_accepted_when_nothing_runs() {
    let mut p = ServerProcess::new(ServerKind::LlamaCpp);
    assert!(p.apply(ProcessEvent::StopRequested));
    assert!(p.apply(ProcessEvent::Stopped));
    assert_eq!(p.state, ProcessState::NotRunning);
    assert!(p.apply(ProcessEvent::StopRequested));
    assert!(p.apply(ProcessEvent::Stopped));
    assert_eq!(p.state, ProcessState::NotRunning);
}

#[test]
fn events_that_do_not_fit_are_refused() {
    let mut p = ServerProcess::new(ServerKind::LlamaCpp);
    let before = p;
    assert!(!p.apply(ProcessEvent::Spawned { pid: 1 }));
    assert!(!p.apply(ProcessEvent::SpawnFailed));
    assert!(!p.apply(ProcessEvent::Stopped));
    assert_eq!(p, before);
    p.apply(ProcessEvent::StartRequested { variant: Variant::Cpu, port: 5 });
    p.apply(ProcessEvent::Spawned { pid: 9 });
    let running = p;
    assert!(!p.apply(ProcessEvent::StartRequested { variant: Variant::Vulkan, port: 6 }));
    assert!(!p.apply(ProcessEvent::Spawned { pid: 10 }));
    assert_eq!(p, running);
}
