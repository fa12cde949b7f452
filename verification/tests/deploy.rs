use dockerdeploy::config::BranchConfig;
use dockerdeploy::config::ContainerConfig;
use dockerdeploy::config::DockerDeployConfig;
use dockerdeploy::config::HeartbeatConfig;
use dockerdeploy::config::ImageConfig;
use dockerdeploy::config::MountConfig;
use dockerdeploy::config::PortConfig;
use dockerdeploy::controller::Action;
use dockerdeploy::controller::Controller;
use dockerdeploy::controller::FileChangeKind;
use dockerdeploy::controller::Input;
use dockerdeploy::controller::InspectOutcome;
use dockerdeploy::controller::Message;
use dockerdeploy::controller::Phase;
use dockerdeploy::controller::PullOutcome;
use dockerdeploy::controller::RemoveOutcome;
use dockerdeploy::controller::StartOutcome;

fn config(image: &str, tag: &str, container: &str) -> DockerDeployConfig {
    DockerDeployConfig {
        api_version: "1.40".to_string(),
        validation_key: None,
        server: None,
        image: ImageConfig {
            name: image.to_string(),
            tag: tag.to_string(),
        },
        container: ContainerConfig {
            name: container.to_string(),
            command: vec!["serve".to_string(), "--port".to_string()],
            ports: vec![PortConfig {
                host: 8080,
                target: 80,
            }],
            mounts: vec![MountConfig {
                host: "$PWD/data".to_string(),
                target: "/data".to_string(),
            }],
        },
        branch: BranchConfig {
            name: "master".to_string(),
            build_on_failure: false,
        },
        heartbeat: HeartbeatConfig {
            sleep_time: 10,
            endpoint: "/health".to_string(),
        },
    }
}

#[test]
fn test_creating_custom_controller() {
    let controller = Controller::new(config("img", "latest", "box"));
    assert_eq!(controller.phase, Phase::Idle);
}

#[test]
fn trigger_runs_pull_remove_start_in_order() {
    let mut c = Controller::new(config("img", "latest", "box"));

    match c.step(Input::Queue(Message::Trigger)) {
        Action::PullImage { name, tag } => {
            assert_eq!(name, "img");
            assert_eq!(tag, "latest");
        }
        other => panic!("expected a pull, got {:?}", other),
    }

    match c.step(Input::PullDone(PullOutcome::Pulled)) {
        Action::RemoveContainer { name } => assert_eq!(name, "box"),
        other => panic!("expected a remove, got {:?}", other),
    }

    match c.step(Input::RemoveDone(RemoveOutcome::Removed)) {
        Action::StartContainer(plan) => {
            assert_eq!(plan.name, "box");
            assert_eq!(plan.image, "img:latest");
            assert_eq!(plan.cmd, vec!["serve".to_string(), "--port".to_string()]);
        }
        other => panic!("expected a start, got {:?}", other),
    }

    assert!(matches!(
        c.step(Input::StartDone(StartOutcome::Started)),
        Action::Wait
    ));
    assert_eq!(c.phase, Phase::Idle);
}

#[test]
fn remove_not_found_counts_as_success() {
    // Removing a container that does not exist is an idempotent stop: the
    // pipeline proceeds to the start step exactly as after a real removal.
    let mut c = Controller::new(config("img", "latest", "box"));
    c.step(Input::Queue(Message::Trigger));
    c.step(Input::PullDone(PullOutcome::Pulled));
    let first = c.step(Input::RemoveDone(RemoveOutcome::NotFound));
    assert!(matches!(first, Action::StartContainer(_)));
    c.step(Input::StartDone(StartOutcome::Started));

    // A second deploy against the still-absent container behaves identically.
    c.step(Input::Queue(Message::Trigger));
    c.step(Input::PullDone(PullOutcome::Pulled));
    let second = c.step(Input::RemoveDone(RemoveOutcome::NotFound));
    assert!(matches!(second, Action::StartContainer(_)));
    c.step(Input::StartDone(StartOutcome::Started));
    assert_eq!(c.phase, Phase::Idle);
}

#[test]
fn pull_failure_aborts_pipeline() {
    let mut c = Controller::new(config("img", "latest", "box"));
    c.step(Input::Queue(Message::Trigger));
    assert!(matches!(
        c.step(Input::PullDone(PullOutcome::Failed)),
        Action::Wait
    ));
    assert_eq!(c.phase, Phase::Idle);
}

#[test]
fn remove_failure_aborts_pipeline() {
    let mut c = Controller::new(config("img", "latest", "box"));
    c.step(Input::Queue(Message::Trigger));
    c.step(Input::PullDone(PullOutcome::Pulled));
    assert!(matches!(
        c.step(Input::RemoveDone(RemoveOutcome::Failed)),
        Action::Wait
    ));
    assert_eq!(c.phase, Phase::Idle);
}

#[test]
fn start_failure_is_swallowed() {
    let mut c = Controller::new(config("img", "latest", "box"));
    c.step(Input::Queue(Message::Trigger));
    c.step(Input::PullDone(PullOutcome::Pulled));
    c.step(Input::RemoveDone(RemoveOutcome::Removed));
    assert!(matches!(
        c.step(Input::StartDone(StartOutcome::Failed)),
        Action::Wait
    ));
    assert_eq!(c.phase, Phase::Idle);
}

#[test]
fn serialized_triggers_run_exactly_n_pipelines() {
    let mut c = Controller::new(config("img", "latest", "box"));
    let n = 5;
    let mut pulls = 0;
    let mut starts = 0;
    for _ in 0..n {
        if matches!(c.step(Input::Queue(Message::Trigger)), Action::PullImage { .. }) {
            pulls += 1;
        }
        assert!(matches!(
            c.step(Input::PullDone(PullOutcome::Pulled)),
            Action::RemoveContainer { .. }
        ));
        if matches!(
            c.step(Input::RemoveDone(RemoveOutcome::Removed)),
            Action::StartContainer(_)
        ) {
            starts += 1;
        }
        assert!(matches!(
            c.step(Input::StartDone(StartOutcome::Started)),
            Action::Wait
        ));
        assert_eq!(c.phase, Phase::Idle);
    }
    assert_eq!(pulls, n);
    assert_eq!(starts, n);
}

#[test]
fn poll_enqueues_one_trigger_when_container_missing() {
    let mut c = Controller::new(config("img", "latest", "box"));
    match c.step(Input::Queue(Message::Poll)) {
        Action::InspectContainer { name } => assert_eq!(name, "box"),
        other => panic!("expected an inspection, got {:?}", other),
    }
    assert!(matches!(
        c.step(Input::InspectDone(InspectOutcome::NotFound)),
        Action::EnqueueTrigger
    ));
    assert_eq!(c.phase, Phase::Idle);
}

#[test]
fn poll_enqueues_nothing_when_container_runs() {
    let mut c = Controller::new(config("img", "latest", "box"));
    c.step(Input::Queue(Message::Poll));
    assert!(matches!(
        c.step(Input::InspectDone(InspectOutcome::Found)),
        Action::Wait
    ));
    assert_eq!(c.phase, Phase::Idle);
}

#[test]
fn poll_inspection_error_changes_nothing() {
    let mut c = Controller::new(config("img", "latest", "box"));
    c.step(Input::Queue(Message::Poll));
    assert!(matches!(
        c.step(Input::InspectDone(InspectOutcome::Failed)),
        Action::Wait
    ));
    assert_eq!(c.phase, Phase::Idle);
}

#[test]
fn reload_replaces_config_for_later_deploys() {
    let mut c = Controller::new(config("img", "latest", "box"));
    assert!(matches!(
        c.step(Input::Queue(Message::Reload(FileChangeKind::Modify))),
        Action::LoadConfig
    ));
    assert!(matches!(
        c.step(Input::ConfigLoaded(Some(config("img2", "v2", "box2")))),
        Action::Wait
    ));
    assert_eq!(c.phase, Phase::Idle);

    match c.step(Input::Queue(Message::Trigger)) {
        Action::PullImage { name, tag } => {
            assert_eq!(name, "img2");
            assert_eq!(tag, "v2");
        }
        other => panic!("expected a pull, got {:?}", other),
    }
    c.step(Input::PullDone(PullOutcome::Pulled));
    match c.step(Input::RemoveDone(RemoveOutcome::Removed)) {
        Action::StartContainer(plan) => {
            assert_eq!(plan.name, "box2");
            assert_eq!(plan.image, "img2:v2");
        }
        other => panic!("expected a start, got {:?}", other),
    }
}

#[test]
fn reload_ignores_other_change_kinds() {
    let mut c = Controller::new(config("img", "latest", "box"));
    for kind in [
        FileChangeKind::Access,
        FileChangeKind::Create,
        FileChangeKind::Remove,
        FileChangeKind::Other,
    ] {
        assert!(matches!(
            c.step(Input::Queue(Message::Reload(kind))),
            Action::Wait
        ));
        assert_eq!(c.phase, Phase::Idle);
    }
    // The old configuration is still in force.
    match c.step(Input::Queue(Message::Trigger)) {
        Action::PullImage { name, .. } => assert_eq!(name, "img"),
        other => panic!("expected a pull, got {:?}", other),
    }
}

#[test]
fn reload_parse_failure_keeps_old_config() {
    let mut c = Controller::new(config("img", "latest", "box"));
    c.step(Input::Queue(Message::Reload(FileChangeKind::Modify)));
    assert!(matches!(c.step(Input::ConfigLoaded(None)), Action::Wait));
    assert_eq!(c.phase, Phase::Idle);
    match c.step(Input::Queue(Message::Trigger)) {
        Action::PullImage { name, tag } => {
            assert_eq!(name, "img");
            assert_eq!(tag, "latest");
        }
        other => panic!("expected a pull, got {:?}", other),
    }
}

#[test]
fn queue_messages_mid_pipeline_change_nothing() {
    let mut c = Controller::new(config("img", "latest", "box"));
    c.step(Input::Queue(Message::Trigger));
    assert_eq!(c.phase, Phase::Pulling);
    // A message arriving out of turn is left to the queue; no state change.
    assert!(matches!(c.step(Input::Queue(Message::Poll)), Action::Wait));
    assert_eq!(c.phase, Phase::Pulling);
    assert!(matches!(
        c.step(Input::PullDone(PullOutcome::Pulled)),
        Action::RemoveContainer { .. }
    ));
}
