use camlet::cli::{AutomationMode, Cli, CliAction, CliArgument, CliError};
use camlet::FrameSourceKind;

fn arguments(values: &[&str]) -> Vec<CliArgument> {
    values
        .iter()
        .map(|value| CliArgument::Unicode((*value).to_owned()))
        .collect()
}

fn text(value: &str) -> CliArgument {
    CliArgument::Unicode(value.to_owned())
}

#[test]
fn defaults_to_real_interactive_run() {
    let cli = Cli::parse(arguments(&[])).unwrap_or_else(|error| unreachable!("{error:?}"));

    assert_eq!(cli.action(), CliAction::Run);
    assert_eq!(cli.automation(), AutomationMode::Interactive);
    assert_eq!(cli.frame_source(), FrameSourceKind::Real);
}

#[test]
fn parses_synthetic_automatic_launch() {
    let cli = Cli::parse(arguments(&[
        "--frame-source",
        "synthetic",
        "--automation-exit",
    ]))
    .unwrap_or_else(|error| unreachable!("{error:?}"));

    assert_eq!(cli.action(), CliAction::Run);
    assert_eq!(cli.automation(), AutomationMode::ExitAfterLaunch);
    assert_eq!(cli.frame_source(), FrameSourceKind::Synthetic);
}

#[test]
fn parses_screenshot_path_without_manual_input() {
    let cli = Cli::parse(arguments(&[
        "--frame-source",
        "synthetic",
        "--screenshot",
        "artifacts/capture.ppm",
    ]))
    .unwrap_or_else(|error| unreachable!("{error:?}"));

    assert_eq!(cli.screenshot(), Some(&text("artifacts/capture.ppm")));
}

#[test]
fn parses_paired_scripted_automation_paths() {
    let cli = Cli::parse(arguments(&[
        "--frame-source",
        "synthetic",
        "--automation-script",
        "fixtures/automation/full-smoke.json",
        "--automation-output",
        "artifacts/smoke",
    ]))
    .unwrap_or_else(|error| unreachable!("{error:?}"));

    assert_eq!(cli.automation(), AutomationMode::Scripted);
    assert_eq!(
        cli.automation_script(),
        Some(&text("fixtures/automation/full-smoke.json"))
    );
    assert_eq!(cli.automation_output(), Some(&text("artifacts/smoke")));
}

#[test]
fn rejects_unpaired_or_conflicting_scripted_automation() {
    assert_eq!(
        Cli::parse(arguments(&["--automation-script", "fixture.json",])),
        Err(CliError::ConflictingOptions)
    );
    assert_eq!(
        Cli::parse(arguments(&[
            "--automation-script",
            "fixture.json",
            "--automation-output",
            "output",
            "--screenshot",
            "capture.ppm",
        ])),
        Err(CliError::ConflictingOptions)
    );
}

#[test]
fn parses_isolated_profile_directory() {
    let cli = Cli::parse(arguments(&["--profile-dir", "artifacts/test-profile"]))
        .unwrap_or_else(|error| unreachable!("{error:?}"));
    assert_eq!(cli.profile_directory(), Some(&text("artifacts/test-profile")));
}

#[test]
fn rejects_missing_frame_source() {
    assert_eq!(
        Cli::parse(arguments(&["--frame-source"])),
        Err(CliError::MissingValue("--frame-source"))
    );
}

#[test]
fn rejects_unknown_argument() {
    assert_eq!(
        Cli::parse(arguments(&["--camera"])),
        Err(CliError::UnknownArgument("--camera".to_owned()))
    );
}

#[test]
fn rejects_conflicting_actions() {
    assert_eq!(
        Cli::parse(arguments(&["--help", "--version"])),
        Err(CliError::ConflictingOptions)
    );
}

#[test]
fn repeated_and_empty_options_are_rejected() {
    assert_eq!(
        Cli::parse(arguments(&["--screenshot", "a.ppm", "--screenshot", "b.ppm"])),
        Err(CliError::DuplicateOption("--screenshot"))
    );
    assert_eq!(
        Cli::parse(arguments(&["--automation-exit", "--automation-script", "x"])),
        Err(CliError::DuplicateOption("--automation-script"))
    );
    assert_eq!(
        Cli::parse(arguments(&["--profile-dir", ""])),
        Err(CliError::MissingValue("--profile-dir"))
    );
    assert_eq!(
        Cli::parse(arguments(&["--frame-source", "webcam"])),
        Err(CliError::InvalidFrameSource("webcam".to_owned()))
    );
    assert_eq!(
        Cli::parse(arguments(&["-h", "--screenshot", "a.ppm"])),
        Err(CliError::ConflictingOptions)
    );
}

#[test]
fn non_unicode_arguments_are_rejected_but_accepted_as_paths() {
    assert_eq!(
        Cli::parse(vec![CliArgument::NonUnicode(vec![0xff])]),
        Err(CliError::NonUnicode(vec![0xff]))
    );
    let cli = Cli::parse(vec![
        text("--screenshot"),
        CliArgument::NonUnicode(vec![0xff, b'a']),
    ])
    .unwrap_or_else(|error| unreachable!("{error:?}"));
    assert_eq!(cli.screenshot(), Some(&CliArgument::NonUnicode(vec![0xff, b'a'])));
}

#[test]
fn help_and_errors_read_as_before() {
    assert!(Cli::help().starts_with("Camlet native camera overlay\n\nUsage: camlet [OPTIONS]"));
    assert_eq!(
        CliError::UnknownArgument("--x".to_owned()).message(),
        "unknown argument '--x'"
    );
    assert_eq!(
        CliError::DuplicateOption("--screenshot").message(),
        "--screenshot may only be used once"
    );
    assert_eq!(
        CliError::InvalidFrameSource("cam".to_owned()).message(),
        "invalid frame source 'cam'; expected real or synthetic"
    );
    let cli = Cli::parse(arguments(&["--automation-check"])).unwrap_or_else(|e| unreachable!("{e:?}"));
    assert_eq!(cli.action(), CliAction::AutomationCheck);
}
