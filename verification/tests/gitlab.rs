use dockerdeploy::gitlab::Build;
use dockerdeploy::gitlab::Event;
use dockerdeploy::gitlab::ObjectAttributes;
use dockerdeploy::gitlab::Pipeline;
use dockerdeploy::gitlab::Status;
use dockerdeploy::gitlab::event_should_redeploy;

fn pipeline(branch: &str, statuses: Vec<Status>) -> Pipeline {
    Pipeline {
        builds: statuses.into_iter().map(|status| Build { status }).collect(),
        object_attributes: ObjectAttributes {
            object_ref: branch.to_string(),
        },
    }
}

#[test]
fn should_rerun_pipeline() {
    let event = Pipeline {
        builds: vec![
            Build {
                status: Status::Success,
            },
            Build {
                status: Status::Skipped,
            },
        ],
        object_attributes: ObjectAttributes {
            object_ref: "master".to_string(),
        },
    };

    assert!(
        event.should_rerun_pipeline(),
        "should_rerun_pipeline should be true, found false"
    );
}

#[test]
fn should_rerun_pipeline_non_master() {
    let event = Pipeline {
        builds: vec![
            Build {
                status: Status::Success,
            },
            Build {
                status: Status::Skipped,
            },
            Build {
                status: Status::Created,
            },
        ],
        object_attributes: ObjectAttributes {
            object_ref: "not-master".to_string(),
        },
    };

    assert!(
        !event.should_rerun_pipeline(),
        "should_rerun_pipeline should not run but did"
    );
}

#[test]
fn should_rerun_pipeline_failed_build() {
    let event = Pipeline {
        builds: vec![
            Build {
                status: Status::Success,
            },
            Build {
                status: Status::Failed,
            },
            Build {
                status: Status::Created,
            },
        ],
        object_attributes: ObjectAttributes {
            object_ref: "master".to_string(),
        },
    };

    assert!(
        !event.should_rerun_pipeline(),
        "should_rerun_pipeline should not run but did"
    );
}

#[test]
fn pending_build_vetoes_redeploy() {
    let event = pipeline(
        "master",
        vec![
            Status::Skipped,
            Status::Success,
            Status::Success,
            Status::Success,
            Status::Created,
        ],
    );
    assert!(!event.should_rerun_pipeline());
}

#[test]
fn empty_build_list_never_triggers() {
    let event = pipeline("master", Vec::new());
    assert!(!event.should_rerun_pipeline());
}

#[test]
fn configured_branch_is_compared_exactly() {
    let event = pipeline("release", vec![Status::Success]);
    assert!(event.should_redeploy("release"));
    assert!(!event.should_redeploy("master"));
    assert!(!event.should_redeploy("Release"));
}

#[test]
fn non_pipeline_events_never_redeploy() {
    for event in [
        Event::Push,
        Event::TagPush,
        Event::Build,
        Event::Issue,
        Event::Note,
        Event::MergeRequest,
        Event::WikiPage,
    ] {
        assert!(!event_should_redeploy(&event, "master"));
    }
}

#[test]
fn pipeline_event_redeploys_when_predicate_holds() {
    let event = Event::Pipeline(pipeline("master", vec![Status::Success, Status::Skipped]));
    assert!(event_should_redeploy(&event, "master"));
}
