//! The decisions of the dedicated camera thread. The thread itself (its channels, sleeps and
//! the frame source it owns) lives with the application; it asks this state machine what each
//! command and each capture means for the stream.

use vstd::prelude::*;
use crate::camera::{CameraDevice, CameraError, CaptureRequest, VideoFrame};

verus! {

/// Commands accepted by the dedicated camera thread.
#[derive(Debug, Clone, PartialEq, Eq)]
pub enum CameraWorkerCommand {
    /// Refresh the device list.
    Enumerate,
    /// Stop the old stream and start the selected device.
    Start {
        /// Stable device ID, or the backend default.
        device_id: Option<String>,
        /// Requested capture geometry and cadence.
        request: CaptureRequest,
    },
    /// Stop the active stream while retaining the worker.
    Stop,
    /// Stop the stream and terminate the worker.
    Shutdown,
}

/// Events emitted by the dedicated camera thread.
#[derive(Debug, PartialEq, Eq)]
pub enum CameraWorkerEvent {
    /// Result of device enumeration.
    Devices(Result<Vec<CameraDevice>, CameraError>),
    /// Result of starting or switching a stream.
    Started(Result<(), CameraError>),
    /// Newest decoded frame or an asynchronous capture failure.
    Frame(Result<VideoFrame, CameraError>),
    /// The source was stopped and released.
    Stopped,
}

/// Captures between two unprompted device refreshes while a stream runs.
pub const DEVICE_REFRESH_FRAMES: u16 = 150;

/// The frame interval assumed before the first start: about 30 frames per second.
pub const DEFAULT_FRAME_INTERVAL_NANOS: u64 = 33_000_000;

/// How long the thread rests when the source had no new frame.
pub const EMPTY_CAPTURE_PAUSE_NANOS: u64 = 5_000_000;

/// What the thread does for a command.
#[derive(Debug, Clone, Copy, PartialEq, Eq, Structural)]
pub enum WorkerStep {
    /// Enumerate the devices and send [`CameraWorkerEvent::Devices`].
    Enumerate,
    /// Start the source with the command's device and request, then report through
    /// [`WorkerState::start_finished`].
    Start,
    /// Stop the source and send [`CameraWorkerEvent::Stopped`].
    Stop,
    /// Leave the loop, stop the source and send [`CameraWorkerEvent::Stopped`].
    Shutdown,
}

/// What one call of the source's `latest_frame` gave.
#[derive(Debug, Clone, Copy, PartialEq, Eq, Structural)]
pub enum CaptureOutcome {
    /// A new frame, to be offered to the capacity-one frame slot.
    Frame,
    /// No new frame yet.
    Empty,
    /// A capture failure, to be sent as [`CameraWorkerEvent::Frame`] with the error.
    Failed,
}

/// What the thread does after a capture.
#[derive(Debug, Clone, Copy, PartialEq, Eq, Structural)]
pub struct CaptureFollowUp {
    /// Stop and release the source (after a failure).
    pub stop_source: bool,
    /// Rest this long before the next capture, besides pacing to the frame interval.
    pub pause_nanos: u64,
    /// Enumerate the devices and send [`CameraWorkerEvent::Devices`].
    pub refresh_devices: bool,
}

/// The thread's own state between two steps.
#[derive(Debug, Clone, Copy, PartialEq, Eq, Structural)]
pub struct WorkerState {
    /// Whether a stream is running, so that frames are captured between commands.
    pub running: bool,
    /// The requested time between two frames.
    pub frame_interval_nanos: u64,
    /// Captures left until the next unprompted device refresh.
    pub frames_until_refresh: u16,
}

/// Whether a state can be reached: the refresh countdown never rests at zero nor above its
/// period.
pub open spec fn worker_state_valid(state: WorkerState) -> bool {
    1 <= state.frames_until_refresh <= DEVICE_REFRESH_FRAMES
}

/// The step that a command asks for.
pub open spec fn command_step(command: CameraWorkerCommand) -> WorkerStep {
    match command {
        CameraWorkerCommand::Enumerate => WorkerStep::Enumerate,
        CameraWorkerCommand::Start { .. } => WorkerStep::Start,
        CameraWorkerCommand::Stop => WorkerStep::Stop,
        CameraWorkerCommand::Shutdown => WorkerStep::Shutdown,
    }
}

/// The state after the thread receives a command, before it acts on it.
pub open spec fn state_after_command(state: WorkerState, command: CameraWorkerCommand) -> WorkerState {
    match command {
        CameraWorkerCommand::Start { request, .. } => WorkerState {
            frame_interval_nanos: request.frame_interval_nanos,
            ..state
        },
        CameraWorkerCommand::Stop => WorkerState { running: false, ..state },
        _ => state,
    }
}

/// The state and follow-up after a capture.
pub open spec fn after_capture(state: WorkerState, outcome: CaptureOutcome) -> (
    WorkerState,
    CaptureFollowUp,
) {
    let countdown = if state.frames_until_refresh == 0 {
        0
    } else {
        state.frames_until_refresh - 1
    };
    let refresh = countdown == 0;
    let next = WorkerState {
        running: state.running && outcome != CaptureOutcome::Failed,
        frames_until_refresh: if refresh {
            DEVICE_REFRESH_FRAMES
        } else {
            countdown as u16
        },
        ..state
    };
    (
        next,
        CaptureFollowUp {
            stop_source: outcome == CaptureOutcome::Failed,
            pause_nanos: if outcome == CaptureOutcome::Empty {
                EMPTY_CAPTURE_PAUSE_NANOS
            } else {
                0
            },
            refresh_devices: refresh,
        },
    )
}

impl WorkerState {
    /// The state of a fresh thread: idle, with the default interval and a full countdown.
    pub fn new() -> (state: WorkerState)
        ensures
            !state.running,
            state.frame_interval_nanos == DEFAULT_FRAME_INTERVAL_NANOS,
            state.frames_until_refresh == DEVICE_REFRESH_FRAMES,
            worker_state_valid(state),
    {
        WorkerState {
            running: false,
            frame_interval_nanos: DEFAULT_FRAME_INTERVAL_NANOS,
            frames_until_refresh: DEVICE_REFRESH_FRAMES,
        }
    }

    /// Whether the thread blocks until the next command (no stream runs) rather than polling
    /// for one between captures.
    pub fn waits_for_command(&self) -> (wait: bool)
        ensures
            wait == !self.running,
    {
        !self.running
    }

    /// Takes in a command: a start adopts the requested interval, a stop ends the stream.
    pub fn command(&mut self, command: &CameraWorkerCommand) -> (step: WorkerStep)
        ensures
            step == command_step(*command),
            *final(self) == state_after_command(*old(self), *command),
    {
        match command {
            CameraWorkerCommand::Enumerate => WorkerStep::Enumerate,
            CameraWorkerCommand::Start { request, .. } => {
                self.frame_interval_nanos = request.frame_interval_nanos;
                WorkerStep::Start
            },
            CameraWorkerCommand::Stop => {
                self.running = false;
                WorkerStep::Stop
            },
            CameraWorkerCommand::Shutdown => WorkerStep::Shutdown,
        }
    }

    /// Takes in the result of a start: the stream runs exactly when it succeeded, and the
    /// countdown starts afresh. Returns whether the source must be stopped (it failed).
    pub fn start_finished(&mut self, succeeded: bool) -> (stop_source: bool)
        ensures
            stop_source == !succeeded,
            *final(self) == (WorkerState {
                running: succeeded,
                frames_until_refresh: DEVICE_REFRESH_FRAMES,
                ..*old(self)
            }),
    {
        self.running = succeeded;
        self.frames_until_refresh = DEVICE_REFRESH_FRAMES;
        !succeeded
    }

    /// Takes in a capture: a failure ends the stream, an empty capture asks for a short rest,
    /// and every capture counts down to the next device refresh.
    pub fn capture_finished(&mut self, outcome: CaptureOutcome) -> (follow_up: CaptureFollowUp)
        ensures
            (*final(self), follow_up) == after_capture(*old(self), outcome),
    {
        let countdown = self.frames_until_refresh.saturating_sub(1);
        let refresh = countdown == 0;
        self.running = self.running && outcome != CaptureOutcome::Failed;
        self.frames_until_refresh = if refresh {
            DEVICE_REFRESH_FRAMES
        } else {
            countdown
        };
        CaptureFollowUp {
            stop_source: outcome == CaptureOutcome::Failed,
            pause_nanos: if outcome == CaptureOutcome::Empty {
                EMPTY_CAPTURE_PAUSE_NANOS
            } else {
                0
            },
            refresh_devices: refresh,
        }
    }
}

/// Every step keeps the refresh countdown within its period.
pub proof fn lemma_worker_steps_keep_countdown(
    state: WorkerState,
    command: CameraWorkerCommand,
    outcome: CaptureOutcome,
    succeeded: bool,
)
    requires
        worker_state_valid(state),
    ensures
        worker_state_valid(state_after_command(state, command)),
        worker_state_valid(after_capture(state, outcome).0),
        worker_state_valid(WorkerState { running: succeeded, frames_until_refresh: DEVICE_REFRESH_FRAMES, ..state }),
{
}

/// Starting from a full countdown, the devices are refreshed on exactly every
/// [`DEVICE_REFRESH_FRAMES`]-th capture, whatever the captures gave.
pub proof fn lemma_refresh_period(state: WorkerState, outcome: CaptureOutcome)
    requires
        worker_state_valid(state),
    ensures
        after_capture(state, outcome).1.refresh_devices <==> state.frames_until_refresh == 1,
        !after_capture(state, outcome).1.refresh_devices ==> after_capture(
            state,
            outcome,
        ).0.frames_until_refresh == state.frames_until_refresh - 1,
{
}

} // verus!
