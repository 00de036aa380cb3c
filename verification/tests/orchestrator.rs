use nephelios_cli::engine::{Action, ContainerState, ContainerStatus, ErrorKind};
use nephelios_cli::orchestrator::{
    up_version, DownState, Request, UpOutcome, UpState, VolumeState,
};
use nephelios_cli::service::NepheliosService;

fn service() -> NepheliosService {
    NepheliosService::new(Some("3030/tcp".to_string()), None)
}

/// An engine that holds at most the one container and a set of volumes, and
/// on which every request succeeds where it can.
struct FakeEngine {
    container: Option<ContainerStatus>,
    volumes: Vec<usize>,
    calls: Vec<Action>,
}

fn answer(engine: &mut FakeEngine, action: Action) -> bool {
    engine.calls.push(action);
    match action {
        Action::Connect => true,
        Action::ListContainers(status) => engine.container == Some(status),
        Action::PullImage => true,
        Action::ListVolume(i) => engine.volumes.contains(&i),
        Action::CreateVolume(i) => {
            engine.volumes.push(i);
            true
        }
        Action::CreateContainer => {
            if engine.container.is_some() {
                false
            } else {
                engine.container = Some(ContainerStatus::Exited);
                true
            }
        }
        Action::StartContainer => {
            if engine.container.is_some() {
                engine.container = Some(ContainerStatus::Running);
                true
            } else {
                false
            }
        }
        Action::StopContainer => {
            if engine.container.is_some() {
                engine.container = Some(ContainerStatus::Exited);
                true
            } else {
                false
            }
        }
    }
}

fn up_on(engine: &mut FakeEngine, s: &NepheliosService) -> Result<UpOutcome, ErrorKind> {
    let mut state = s.up_begin();
    loop {
        match state.action() {
            Some(action) => {
                let ok = answer(engine, action);
                state = s.up(state, ok);
            }
            None => return state.result().unwrap(),
        }
    }
}

fn down_on(engine: &mut FakeEngine, s: &NepheliosService) -> Result<(), ErrorKind> {
    let mut state = s.down_begin();
    loop {
        match state.action() {
            Some(action) => {
                let ok = answer(engine, action);
                state = s.down(state, ok);
            }
            None => return state.result().unwrap(),
        }
    }
}

fn fresh_trace() -> Vec<Action> {
    let mut expected = vec![
        Action::Connect,
        Action::ListContainers(ContainerStatus::Running),
        Action::ListContainers(ContainerStatus::Exited),
        Action::PullImage,
    ];
    for i in 0..6 {
        expected.push(Action::ListVolume(i));
        expected.push(Action::CreateVolume(i));
    }
    expected.push(Action::CreateContainer);
    expected.push(Action::StartContainer);
    expected
}

#[test]
fn up_on_a_fresh_engine_pulls_provisions_creates_and_starts() {
    let s = service();
    let mut engine = FakeEngine { container: None, volumes: vec![], calls: vec![] };
    assert_eq!(up_on(&mut engine, &s), Ok(UpOutcome::Started));
    assert_eq!(engine.calls, fresh_trace());
    assert_eq!(engine.volumes, vec![0, 1, 2, 3, 4, 5]);
    assert_eq!(engine.container, Some(ContainerStatus::Running));
    assert_eq!(s.pull_request(up_version()), "zuhowks/nephelios:latest");
    let spec = s.create_request(up_version());
    assert_eq!(spec.name, "nephelios");
    assert_eq!(spec.labels[0], ("com.nephelios.name".to_string(), "nephelios".to_string()));
    assert_eq!(spec.exposed_ports, vec!["3030/tcp".to_string()]);
    assert_eq!(s.start_request().container, "nephelios");
}

#[test]
fn run_up_on_a_fresh_script_issues_the_same_actions() {
    let s = service();
    let mut outcomes = vec![true, false, false, true];
    for _ in 0..6 {
        outcomes.push(false);
        outcomes.push(true);
    }
    outcomes.push(true);
    outcomes.push(true);
    let run = s.run_up(&outcomes);
    assert_eq!(run.actions, fresh_trace());
    assert_eq!(run.state, UpState::Finished(Ok(UpOutcome::Started)));
}

#[test]
fn run_up_stops_reading_outcomes_once_finished() {
    let s = service();
    let run = s.run_up(&vec![true, true, false, true, false]);
    assert_eq!(
        run.actions,
        vec![Action::Connect, Action::ListContainers(ContainerStatus::Running)]
    );
    assert_eq!(run.state, UpState::Finished(Ok(UpOutcome::AlreadyRunning)));
}

#[test]
fn run_up_with_a_short_script_stays_pending() {
    let s = service();
    let run = s.run_up(&vec![true, false]);
    assert_eq!(
        run.actions,
        vec![Action::Connect, Action::ListContainers(ContainerStatus::Running)]
    );
    assert_eq!(run.state, UpState::ProbingStopped);
    assert_eq!(run.state.action(), Some(Action::ListContainers(ContainerStatus::Exited)));
    assert_eq!(run.state.result(), None);
}

#[test]
fn up_on_a_running_container_changes_nothing() {
    let s = service();
    let mut engine =
        FakeEngine { container: Some(ContainerStatus::Running), volumes: vec![], calls: vec![] };
    assert_eq!(up_on(&mut engine, &s), Ok(UpOutcome::AlreadyRunning));
    assert_eq!(
        engine.calls,
        vec![Action::Connect, Action::ListContainers(ContainerStatus::Running)]
    );
    assert!(engine.calls.iter().all(|a| !a.mutates()));
}

#[test]
fn up_twice_creates_once() {
    let s = service();
    let mut engine = FakeEngine { container: None, volumes: vec![], calls: vec![] };
    assert_eq!(up_on(&mut engine, &s), Ok(UpOutcome::Started));
    let first = engine.calls.len();
    assert_eq!(up_on(&mut engine, &s), Ok(UpOutcome::AlreadyRunning));
    let creations = engine.calls.iter().filter(|a| **a == Action::CreateContainer).count();
    assert_eq!(creations, 1);
    assert_eq!(
        engine.calls[first..].to_vec(),
        vec![Action::Connect, Action::ListContainers(ContainerStatus::Running)]
    );
}

#[test]
fn up_on_a_stopped_container_only_starts_it() {
    let s = service();
    let mut engine =
        FakeEngine { container: Some(ContainerStatus::Exited), volumes: vec![], calls: vec![] };
    assert_eq!(up_on(&mut engine, &s), Ok(UpOutcome::Started));
    assert_eq!(
        engine.calls,
        vec![
            Action::Connect,
            Action::ListContainers(ContainerStatus::Running),
            Action::ListContainers(ContainerStatus::Exited),
            Action::StartContainer,
        ]
    );
    assert!(engine.volumes.is_empty());
}

#[test]
fn third_volume_failure_stops_provisioning() {
    let s = service();
    let outcomes =
        vec![true, false, false, true, false, true, false, true, false, false, true, true, true];
    let run = s.run_up(&outcomes);
    assert_eq!(
        run.actions,
        vec![
            Action::Connect,
            Action::ListContainers(ContainerStatus::Running),
            Action::ListContainers(ContainerStatus::Exited),
            Action::PullImage,
            Action::ListVolume(0),
            Action::CreateVolume(0),
            Action::ListVolume(1),
            Action::CreateVolume(1),
            Action::ListVolume(2),
            Action::CreateVolume(2),
        ]
    );
    assert_eq!(
        run.state,
        UpState::Finished(Err(ErrorKind::VolumeCreationFailed {
            volume_name: "grafana_dashboard"
        }))
    );
}

#[test]
fn existing_volumes_are_not_created_again() {
    let s = service();
    let mut engine = FakeEngine { container: None, volumes: vec![0, 2, 4], calls: vec![] };
    assert_eq!(up_on(&mut engine, &s), Ok(UpOutcome::Started));
    let created: Vec<Action> =
        engine.calls.iter().copied().filter(|a| matches!(a, Action::CreateVolume(_))).collect();
    assert_eq!(
        created,
        vec![Action::CreateVolume(1), Action::CreateVolume(3), Action::CreateVolume(5)]
    );
}

#[test]
fn ensure_volumes_steps_through_the_catalog() {
    let s = service();
    assert_eq!(s.first_volume(), VolumeState::Checking(0));
    assert_eq!(s.ensure_volumes(VolumeState::Checking(0), true), VolumeState::Checking(1));
    assert_eq!(s.ensure_volumes(VolumeState::Checking(0), false), VolumeState::Creating(0));
    assert_eq!(s.ensure_volumes(VolumeState::Creating(0), true), VolumeState::Checking(1));
    assert_eq!(s.ensure_volumes(VolumeState::Checking(5), true), VolumeState::Ready);
    assert_eq!(s.ensure_volumes(VolumeState::Creating(5), true), VolumeState::Ready);
    assert_eq!(
        s.ensure_volumes(VolumeState::Creating(3), false),
        VolumeState::Failed { volume_name: "prometheus_data" }
    );
    assert_eq!(s.ensure_volumes(VolumeState::Ready, false), VolumeState::Ready);
    assert_eq!(VolumeState::Checking(4).action(), Some(Action::ListVolume(4)));
    assert_eq!(VolumeState::Creating(4).action(), Some(Action::CreateVolume(4)));
    assert_eq!(VolumeState::Ready.action(), None);
    assert_eq!(VolumeState::Ready.result(), Some(Ok(())));
    assert_eq!(
        VolumeState::Failed { volume_name: "registry_data" }.result(),
        Some(Err(ErrorKind::VolumeCreationFailed { volume_name: "registry_data" }))
    );
    assert_eq!(VolumeState::Checking(1).result(), None);
}

#[test]
fn ensure_volumes_without_volumes_is_ready_at_once() {
    let mut s = service();
    s.volumes.clear();
    assert_eq!(s.first_volume(), VolumeState::Ready);
    assert_eq!(s.up(UpState::Pulling, true), UpState::Creating);
}

#[test]
fn up_fails_with_each_error_kind() {
    let s = service();
    assert_eq!(
        s.run_up(&vec![false]).state,
        UpState::Finished(Err(ErrorKind::EngineUnreachable))
    );
    assert_eq!(
        s.run_up(&vec![true, false, false, false]).state,
        UpState::Finished(Err(ErrorKind::ImagePullFailed))
    );
    assert_eq!(
        s.run_up(&vec![true, false, false, true, false, false]).state,
        UpState::Finished(Err(ErrorKind::VolumeCreationFailed { volume_name: "grafana_data" }))
    );
    assert_eq!(
        s.run_up(&vec![true, false, false, true, true, true, true, true, true, true, false])
            .state,
        UpState::Finished(Err(ErrorKind::ContainerCreationFailed))
    );
    assert_eq!(
        s.run_up(&vec![true, false, true, false]).state,
        UpState::Finished(Err(ErrorKind::ContainerStartFailed))
    );
}

#[test]
fn down_stops_once_without_looking() {
    let s = service();
    let mut engine =
        FakeEngine { container: Some(ContainerStatus::Running), volumes: vec![], calls: vec![] };
    assert_eq!(down_on(&mut engine, &s), Ok(()));
    assert_eq!(engine.calls, vec![Action::Connect, Action::StopContainer]);
    assert_eq!(engine.container, Some(ContainerStatus::Exited));
}

#[test]
fn down_on_an_absent_container_fails_with_stop_failed() {
    let s = service();
    let mut engine = FakeEngine { container: None, volumes: vec![], calls: vec![] };
    assert_eq!(down_on(&mut engine, &s), Err(ErrorKind::ContainerStopFailed));
    assert_eq!(engine.calls, vec![Action::Connect, Action::StopContainer]);
}

#[test]
fn down_without_an_engine_is_unreachable() {
    let s = service();
    let state = s.down(DownState::Connecting, false);
    assert_eq!(state.result(), Some(Err(ErrorKind::EngineUnreachable)));
    assert_eq!(state.action(), None);
    assert_eq!(s.down(state, true), state);
}

#[test]
fn only_queries_and_the_connection_leave_the_engine_unchanged() {
    assert!(!Action::Connect.mutates());
    assert!(!Action::ListContainers(ContainerStatus::Exited).mutates());
    assert!(!Action::ListVolume(0).mutates());
    assert!(Action::PullImage.mutates());
    assert!(Action::CreateVolume(0).mutates());
    assert!(Action::CreateContainer.mutates());
    assert!(Action::StartContainer.mutates());
    assert!(Action::StopContainer.mutates());
}

#[test]
fn observed_state_follows_the_bring_up() {
    assert_eq!(UpState::Connecting.observed(), ContainerState::Unknown);
    assert_eq!(UpState::ProbingStopped.observed(), ContainerState::Unknown);
    assert_eq!(UpState::Pulling.observed(), ContainerState::Absent);
    assert_eq!(UpState::CreatingVolume(2).observed(), ContainerState::Absent);
    assert_eq!(UpState::Creating.observed(), ContainerState::Absent);
    assert_eq!(UpState::Starting.observed(), ContainerState::Exited);
    assert_eq!(UpState::Finished(Ok(UpOutcome::Started)).observed(), ContainerState::Running);
    assert_eq!(
        UpState::Finished(Ok(UpOutcome::AlreadyRunning)).observed(),
        ContainerState::Running
    );
    assert_eq!(
        UpState::Finished(Err(ErrorKind::ImagePullFailed)).observed(),
        ContainerState::Unknown
    );
}

#[test]
fn requests_carry_the_details_of_each_action() {
    let s = service();
    assert!(matches!(s.request(Action::Connect), Some(Request::Connect)));
    match s.request(Action::ListContainers(ContainerStatus::Running)) {
        Some(Request::ListContainers(filters)) => {
            assert_eq!(filters.status, "running");
            assert_eq!(filters.label, "com.nephelios.name=nephelios");
        }
        _ => panic!("no container query"),
    }
    match s.request(Action::PullImage) {
        Some(Request::PullImage(image)) => assert_eq!(image, "zuhowks/nephelios:latest"),
        _ => panic!("no pull"),
    }
    match s.request(Action::ListVolume(3)) {
        Some(Request::ListVolumes(name)) => assert_eq!(name, "prometheus_data"),
        _ => panic!("no volume query"),
    }
    match s.request(Action::CreateVolume(5)) {
        Some(Request::CreateVolume(name)) => assert_eq!(name, "nephelios_data"),
        _ => panic!("no volume creation"),
    }
    match s.request(Action::CreateContainer) {
        Some(Request::CreateContainer(spec)) => {
            assert_eq!(spec.name, "nephelios");
            assert_eq!(spec.image, "zuhowks/nephelios:latest");
            assert_eq!(spec.binds.len(), 7);
            assert_eq!(
                spec.labels[0],
                ("com.nephelios.name".to_string(), "nephelios".to_string())
            );
            assert_eq!(spec.exposed_ports, vec!["3030/tcp".to_string()]);
        }
        _ => panic!("no container creation"),
    }
    match s.request(Action::StartContainer) {
        Some(Request::StartContainer(start)) => {
            assert_eq!(start.container, "nephelios");
            assert_eq!(start.detach_keys, "ctrl-d");
        }
        _ => panic!("no start"),
    }
    match s.request(Action::StopContainer) {
        Some(Request::StopContainer(name)) => assert_eq!(name, "nephelios"),
        _ => panic!("no stop"),
    }
}

#[test]
fn there_is_no_request_for_a_volume_outside_the_catalog() {
    let s = service();
    assert!(s.request(Action::ListVolume(6)).is_none());
    assert!(s.request(Action::CreateVolume(6)).is_none());
    assert_eq!(s.ensure_volumes(VolumeState::Checking(6), false), VolumeState::Ready);
    assert_eq!(s.ensure_volumes(VolumeState::Creating(9), false), VolumeState::Ready);
}
