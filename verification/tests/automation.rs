use camlet::appearance::ThemeId;
use camlet::automation::{await_preview, plan_automation_step, AutomationStep};
use camlet::state::{Action, CameraStatus};
use camlet::automation::{
    follow_up_on_camera_failure, follow_up_on_preview, LaunchFollowUp, ScriptProgress,
    SCREENSHOT_SETTLE_MILLIS,
};
use camlet::cli::AutomationMode;
use camlet::automation::{
    valid_filename, validate_and_expand, validate_delay, AutomationAction, AutomationError,
    AutomationSession, Script, ScriptAction,
};

fn script(actions: Vec<ScriptAction>) -> Script {
    Script {
        schema_version: 1,
        actions,
    }
}

#[test]
fn valid_fixture_expands_cycles_and_writes_lifecycle_markers() {
    let fixture = script(vec![
        ScriptAction::WaitForPreview,
        ScriptAction::ResizeCycle { repetitions: 2 },
        ScriptAction::Screenshot {
            file: "overlay.ppm".to_owned(),
        },
        ScriptAction::Quit,
    ]);
    let mut session = AutomationSession::from_script(&fixture, "output")
        .unwrap_or_else(|error| unreachable!("{error:?}"));

    let ready = session.start().unwrap_or_else(|| unreachable!());
    assert_eq!(ready.path, "output/ready.json");
    assert_eq!(
        ready.contents,
        "{\n  \"schemaVersion\": 1,\n  \"status\": \"ready\"\n}\n"
    );
    assert!(session.start().is_none());
    assert!(session.started());
    assert_eq!(session.next(), Some(AutomationAction::WaitForPreview));
    session.retry(AutomationAction::WaitForPreview);
    assert_eq!(session.next(), Some(AutomationAction::WaitForPreview));
    assert_eq!(
        session.next(),
        Some(AutomationAction::ResizeStep { grow: true })
    );
    assert_eq!(
        session.next(),
        Some(AutomationAction::ResizeStep { grow: false })
    );
    let complete = session.complete();
    assert_eq!(complete.path, "output/complete.json");
    assert_eq!(
        complete.contents,
        "{\n  \"schemaVersion\": 1,\n  \"status\": \"complete\"\n}\n"
    );
    assert_eq!(session.fail().path, "output/failed.json");
}

#[test]
fn rejects_traversal_unbounded_delay_and_missing_quit() {
    for action in [
        ScriptAction::Screenshot {
            file: "../private.ppm".to_owned(),
        },
        ScriptAction::Delay {
            milliseconds: 1_800_001,
        },
    ] {
        let fixture = script(vec![ScriptAction::WaitForPreview, action, ScriptAction::Quit]);
        assert_eq!(
            AutomationSession::from_script(&fixture, "out").map(|_| ()),
            Err(AutomationError::Schema)
        );
    }
    let missing_quit = script(vec![ScriptAction::WaitForPreview]);
    assert_eq!(
        validate_and_expand(&missing_quit).map(|_| ()),
        Err(AutomationError::Schema)
    );
}

#[test]
fn expansion_repeats_restarts_and_keeps_values() {
    let fixture = script(vec![
        ScriptAction::WaitForPreview,
        ScriptAction::SetTheme {
            value: ThemeId::Ember,
        },
        ScriptAction::RestartCamera { repetitions: 3 },
        ScriptAction::Delay {
            milliseconds: 1_800_000,
        },
        ScriptAction::Quit,
    ]);
    let actions: Vec<AutomationAction> = validate_and_expand(&fixture)
        .unwrap_or_else(|error| unreachable!("{error:?}"))
        .into_iter()
        .collect();
    assert_eq!(
        actions,
        vec![
            AutomationAction::WaitForPreview,
            AutomationAction::SetTheme(ThemeId::Ember),
            AutomationAction::RestartCamera,
            AutomationAction::RestartCamera,
            AutomationAction::RestartCamera,
            AutomationAction::Delay(1_800_000),
            AutomationAction::Quit,
        ]
    );
}

#[test]
fn schema_bounds_are_enforced() {
    let bad = [
        Script {
            schema_version: 2,
            actions: vec![ScriptAction::WaitForPreview, ScriptAction::Quit],
        },
        script(Vec::new()),
        script(vec![
            ScriptAction::WaitForPreview,
            ScriptAction::SetRingThickness { value: 25 },
            ScriptAction::Quit,
        ]),
        script(vec![
            ScriptAction::WaitForPreview,
            ScriptAction::SetCornerRoundness { value: 73 },
            ScriptAction::Quit,
        ]),
        script(vec![
            ScriptAction::WaitForPreview,
            ScriptAction::ResizeCycle { repetitions: 1_001 },
            ScriptAction::Quit,
        ]),
        script(vec![
            ScriptAction::WaitForPreview,
            ScriptAction::Quit,
            ScriptAction::Quit,
        ]),
        script(vec![ScriptAction::OpenMenu, ScriptAction::Quit]),
        script(vec![
            ScriptAction::WaitForPreview,
            ScriptAction::RestartCamera { repetitions: 1_000 },
            ScriptAction::RestartCamera { repetitions: 1_000 },
            ScriptAction::RestartCamera { repetitions: 1_000 },
            ScriptAction::RestartCamera { repetitions: 1_000 },
            ScriptAction::RestartCamera { repetitions: 1_000 },
            ScriptAction::RestartCamera { repetitions: 1_000 },
            ScriptAction::RestartCamera { repetitions: 1_000 },
            ScriptAction::RestartCamera { repetitions: 1_000 },
            ScriptAction::RestartCamera { repetitions: 1_000 },
            ScriptAction::RestartCamera { repetitions: 1_000 },
            ScriptAction::Quit,
        ]),
    ];
    for fixture in bad {
        assert_eq!(
            validate_and_expand(&fixture).map(|_| ()),
            Err(AutomationError::Schema)
        );
    }
    assert_eq!(validate_delay(1_800_000), Ok(1_800_000));
    assert_eq!(validate_delay(1_800_001), Err(AutomationError::Schema));
    assert_eq!(AutomationError::Schema.message(), "automation fixture is invalid");
}

#[test]
fn artifact_names_are_single_normal_components() {
    for name in ["overlay.ppm", "a/", "a/./.", ".hidden", "..."] {
        assert!(valid_filename(name), "{name}");
    }
    let long = "x".repeat(129);
    for name in ["", "/etc/passwd", "../x", "a/b", ".", "..", "./a", "a/..", long.as_str()] {
        assert!(!valid_filename(name), "{name}");
    }
    assert!(valid_filename(&"x".repeat(128)));
    assert!(!valid_filename(&"é".repeat(65)));
}

#[test]
fn scenario_steps_pace_the_application() {
    assert_eq!(
        plan_automation_step(AutomationAction::ResizeStep { grow: true }, 480),
        AutomationStep::Apply {
            action: Action::ResizeByStep {
                grow: true,
                maximum: 480
            },
            next_after_millis: 50
        }
    );
    assert_eq!(
        plan_automation_step(AutomationAction::RestartCamera, 480),
        AutomationStep::Apply {
            action: Action::RetryCamera,
            next_after_millis: 100
        }
    );
    assert_eq!(
        plan_automation_step(AutomationAction::Quit, 480),
        AutomationStep::Finish
    );
    assert_eq!(
        plan_automation_step(AutomationAction::SuspendResume(900), 480),
        AutomationStep::Suspend {
            resume_after_millis: 900
        }
    );

    let fixture = script(vec![ScriptAction::WaitForPreview, ScriptAction::Quit]);
    let mut session = AutomationSession::from_script(&fixture, "")
        .unwrap_or_else(|error| unreachable!("{error:?}"));
    assert_eq!(session.next(), Some(AutomationAction::WaitForPreview));
    assert_eq!(await_preview(&mut session, CameraStatus::Loading), Some(50));
    assert_eq!(session.next(), Some(AutomationAction::WaitForPreview));
    assert_eq!(await_preview(&mut session, CameraStatus::Preview), None);
    assert_eq!(session.next(), Some(AutomationAction::Quit));
    assert_eq!(session.output_path("a.json"), "a.json");
    assert_eq!(session.output_path("/abs/a.json"), "/abs/a.json");
}

#[test]
fn a_settled_launch_runs_or_fails_the_scenario() {
    assert_eq!(
        follow_up_on_preview(AutomationMode::Scripted, ScriptProgress::JustStarted, true, true, true),
        LaunchFollowUp::RunScript
    );
    assert_eq!(
        follow_up_on_preview(AutomationMode::Scripted, ScriptProgress::NotStarted, true, false, true),
        LaunchFollowUp::FailScript
    );
    assert_eq!(
        follow_up_on_preview(AutomationMode::Scripted, ScriptProgress::Running, true, true, true),
        LaunchFollowUp::Continue
    );
}

#[test]
fn a_settled_launch_takes_the_requested_screenshot_before_closing() {
    let none = ScriptProgress::NotStarted;
    assert_eq!(SCREENSHOT_SETTLE_MILLIS, 100);
    assert_eq!(
        follow_up_on_preview(AutomationMode::ExitAfterLaunch, none, true, true, true),
        LaunchFollowUp::CaptureScreenshot { after_millis: 100 }
    );
    assert_eq!(
        follow_up_on_preview(AutomationMode::ExitAfterLaunch, none, true, true, false),
        LaunchFollowUp::Shutdown
    );
    assert_eq!(
        follow_up_on_preview(AutomationMode::ExitAfterLaunch, none, false, true, true),
        LaunchFollowUp::Continue
    );
    assert_eq!(
        follow_up_on_preview(AutomationMode::Interactive, none, true, false, true),
        LaunchFollowUp::Continue
    );
}

#[test]
fn a_failed_camera_still_yields_the_launch_screenshot() {
    assert_eq!(
        follow_up_on_camera_failure(AutomationMode::Scripted, true, true),
        LaunchFollowUp::FailScript
    );
    assert_eq!(
        follow_up_on_camera_failure(AutomationMode::Interactive, false, true),
        LaunchFollowUp::CaptureScreenshot { after_millis: 100 }
    );
    assert_eq!(
        follow_up_on_camera_failure(AutomationMode::ExitAfterLaunch, true, false),
        LaunchFollowUp::Shutdown
    );
    assert_eq!(
        follow_up_on_camera_failure(AutomationMode::ExitAfterLaunch, false, false),
        LaunchFollowUp::Continue
    );
}
