use camlet::camera::CaptureRequest;
use camlet::worker::{
    CameraWorkerCommand, CaptureOutcome, WorkerState, WorkerStep, DEFAULT_FRAME_INTERVAL_NANOS,
    DEVICE_REFRESH_FRAMES, EMPTY_CAPTURE_PAUSE_NANOS,
};

#[test]
fn commands_map_to_steps_and_start_adopts_the_interval() {
    let mut state = WorkerState::new();
    assert!(state.waits_for_command());
    assert_eq!(state.frame_interval_nanos, DEFAULT_FRAME_INTERVAL_NANOS);
    assert_eq!(state.command(&CameraWorkerCommand::Enumerate), WorkerStep::Enumerate);
    let start = CameraWorkerCommand::Start {
        device_id: Some("camera".to_owned()),
        request: CaptureRequest {
            width: 640,
            height: 480,
            frame_interval_nanos: 16_000_000,
        },
    };
    assert_eq!(state.command(&start), WorkerStep::Start);
    assert_eq!(state.frame_interval_nanos, 16_000_000);
    assert!(!state.start_finished(true));
    assert!(!state.waits_for_command());
    assert_eq!(state.command(&CameraWorkerCommand::Stop), WorkerStep::Stop);
    assert!(state.waits_for_command());
    assert_eq!(state.command(&CameraWorkerCommand::Shutdown), WorkerStep::Shutdown);
}

#[test]
fn failed_start_stops_the_source_and_stays_idle() {
    let mut state = WorkerState::new();
    assert!(state.start_finished(false));
    assert!(state.waits_for_command());
}

#[test]
fn devices_refresh_every_period_of_captures() {
    let mut state = WorkerState::new();
    let _ = state.start_finished(true);
    for _ in 1..DEVICE_REFRESH_FRAMES {
        let follow_up = state.capture_finished(CaptureOutcome::Frame);
        assert!(!follow_up.refresh_devices);
        assert!(!follow_up.stop_source);
        assert_eq!(follow_up.pause_nanos, 0);
    }
    let follow_up = state.capture_finished(CaptureOutcome::Empty);
    assert!(follow_up.refresh_devices);
    assert_eq!(follow_up.pause_nanos, EMPTY_CAPTURE_PAUSE_NANOS);
    assert_eq!(state.frames_until_refresh, DEVICE_REFRESH_FRAMES);
}

#[test]
fn capture_failure_stops_the_stream() {
    let mut state = WorkerState::new();
    let _ = state.start_finished(true);
    let follow_up = state.capture_finished(CaptureOutcome::Failed);
    assert!(follow_up.stop_source);
    assert!(!state.running);
}
