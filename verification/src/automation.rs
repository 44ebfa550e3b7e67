//! Validated, deterministic automation scenarios: a script of coarse steps is checked against
//! its bounds and expanded into the queue of single actions that drives the application.

use vstd::prelude::*;
use std::collections::VecDeque;
use crate::appearance::{OverlayShape, PreviewFitMode, ThemeId};
use crate::settings::CameraResolution;
use crate::text::chars_of;
use crate::state::{Action, CameraStatus};
use crate::cli::AutomationMode;

verus! {

broadcast use vstd::string::group_string_axioms;

/// The most actions one scenario may expand to.
pub const MAX_ACTIONS: usize = 10_000;

/// The most repetitions one repeated step may ask for.
pub const MAX_REPEAT: u16 = 1_000;

/// The longest wait one step may ask for: thirty minutes.
pub const MAX_DELAY_MILLIS: u64 = 1_800_000;

/// The thickest ring a script may select.
pub const MAX_SCRIPT_RING_THICKNESS: u8 = 24;

/// The roundest corner a script may select.
pub const MAX_SCRIPT_CORNER_ROUNDNESS: u8 = 72;

/// The longest artifact filename, in bytes.
pub const MAX_FILENAME_BYTES: usize = 128;

/// One validated action consumed by the application's update loop.
#[derive(Debug, Clone, PartialEq, Eq)]
pub enum AutomationAction {
    /// Confirm that a preview frame exists before continuing.
    WaitForPreview,
    /// Select a built-in theme.
    SetTheme(ThemeId),
    /// Select an overlay shape.
    SetShape(OverlayShape),
    /// Select camera fitting behavior.
    SetFit(PreviewFitMode),
    /// Select a ring width.
    SetRingThickness(u8),
    /// Select a corner radius.
    SetCornerRoundness(u8),
    /// Select a camera capture resolution.
    SetCameraResolution(CameraResolution),
    /// Resize by one product step.
    ResizeStep {
        /// Whether the window grows (else it shrinks).
        grow: bool,
    },
    /// Restart the selected camera.
    RestartCamera,
    /// Stop capture and resume it after this many milliseconds.
    SuspendResume(u64),
    /// Wait this many milliseconds while the application and capture continue running.
    Delay(u64),
    /// Open the root context menu through the production window path.
    OpenMenu,
    /// Open the advanced submenu through the production window path.
    OpenAdvancedMenu,
    /// Capture the real compositor output into this validated relative filename.
    Screenshot(String),
    /// Capture the open context-menu window into this validated relative filename.
    MenuScreenshot(String),
    /// Export redacted diagnostics into this validated relative filename.
    Diagnostics(String),
    /// Write completion evidence and shut down.
    Quit,
}

/// Privacy-safe automation configuration failure.
#[derive(Debug, Clone, Copy, PartialEq, Eq, Structural)]
pub enum AutomationError {
    /// Fixture could not be read.
    Read,
    /// Fixture did not match the bounded schema.
    Schema,
    /// Artifact directory or file could not be written.
    Output,
}

impl AutomationError {
    /// The message shown for the error.
    pub fn message(&self) -> (text: &'static str)
        ensures
            text@ == spec_automation_error_message(*self),
    {
        match self {
            AutomationError::Read => "automation fixture could not be read",
            AutomationError::Schema => "automation fixture is invalid",
            AutomationError::Output => "automation output could not be written",
        }
    }
}

/// The message shown for an automation error.
pub open spec fn spec_automation_error_message(error: AutomationError) -> Seq<char> {
    match error {
        AutomationError::Read => "automation fixture could not be read"@,
        AutomationError::Schema => "automation fixture is invalid"@,
        AutomationError::Output => "automation output could not be written"@,
    }
}

/// A scenario as written in its fixture, before validation.
#[derive(Debug, Clone, PartialEq, Eq)]
pub struct Script {
    /// Fixture format version; only 1 is understood.
    pub schema_version: u32,
    /// The scenario's steps in order.
    pub actions: Vec<ScriptAction>,
}

/// One step of a fixture.
#[derive(Debug, Clone, PartialEq, Eq)]
pub enum ScriptAction {
    /// Wait for a preview frame.
    WaitForPreview,
    /// Select a theme.
    SetTheme {
        /// The theme.
        value: ThemeId,
    },
    /// Select a shape.
    SetShape {
        /// The shape.
        value: OverlayShape,
    },
    /// Select a fit mode.
    SetFit {
        /// The fit mode.
        value: PreviewFitMode,
    },
    /// Select a ring width.
    SetRingThickness {
        /// The width.
        value: u8,
    },
    /// Select a corner radius.
    SetCornerRoundness {
        /// The radius.
        value: u8,
    },
    /// Select a capture resolution.
    SetCameraResolution {
        /// The resolution.
        value: CameraResolution,
    },
    /// Grow and shrink the window, this many times.
    ResizeCycle {
        /// How many grow-and-shrink pairs.
        repetitions: u16,
    },
    /// Restart the camera, this many times.
    RestartCamera {
        /// How many restarts.
        repetitions: u16,
    },
    /// Suspend capture and resume it after a wait.
    SuspendResume {
        /// The wait.
        milliseconds: u64,
    },
    /// Wait.
    Delay {
        /// The wait.
        milliseconds: u64,
    },
    /// Open the context menu.
    OpenMenu,
    /// Open the advanced submenu.
    OpenAdvancedMenu,
    /// Capture the overlay.
    Screenshot {
        /// Artifact filename.
        file: String,
    },
    /// Capture the context menu.
    MenuScreenshot {
        /// Artifact filename.
        file: String,
    },
    /// Export diagnostics.
    Diagnostics {
        /// Artifact filename.
        file: String,
    },
    /// Finish the scenario.
    Quit,
}

// ---------------------------------------------------------------------------------------------
// Filenames.
// ---------------------------------------------------------------------------------------------

/// The position of the first `/` at or after `from`, or the length of `s`.
pub open spec fn first_separator(s: Seq<char>, from: int) -> int
    decreases s.len() - from,
{
    if from < 0 || from >= s.len() {
        s.len() as int
    } else if s[from] == '/' {
        from
    } else {
        first_separator(s, from + 1)
    }
}

/// Whether `s[from..]` holds only separators and `.` parts, which path parsing drops.
pub open spec fn only_dropped_parts(s: Seq<char>, from: int) -> bool {
    forall|i: int|
        from <= i < s.len() ==> (#[trigger] s[i] == '/' || (s[i] == '.' && i > from && s[i - 1] == '/' && (i
            + 1 == s.len() || s[i + 1] == '/')))
}

/// Whether a filename names exactly one ordinary entry of a directory: not empty, at most
/// [`MAX_FILENAME_BYTES`] bytes, and its path has one component, a normal name. On Unix paths
/// that means it does not start at the root, its first part is neither `.` nor `..`, and
/// whatever follows that part is only separators and `.` parts.
pub open spec fn spec_valid_filename(s: Seq<char>) -> bool {
    let k = first_separator(s, 0);
    &&& s.len() > 0
    &&& vstd::utf8::encode_utf8(s).len() <= MAX_FILENAME_BYTES
    &&& k > 0
    &&& s.subrange(0, k) != "."@
    &&& s.subrange(0, k) != ".."@
    &&& only_dropped_parts(s, k)
}

/// Whether a filename names exactly one ordinary entry of a directory.
pub fn valid_filename(filename: &str) -> (valid: bool)
    ensures
        valid == spec_valid_filename(filename@),
{
    let s = chars_of(filename);
    let bytes = filename.as_bytes();
    if s.len() == 0 || bytes.len() > MAX_FILENAME_BYTES {
        return false;
    }
    let mut k: usize = 0;
    while k < s.len() && s[k] != '/'
        invariant
            k <= s.len(),
            s@ == filename@,
            first_separator(s@, 0) == first_separator(s@, k as int),
        decreases s.len() - k,
    {
        k = k + 1;
    }
    if k == 0 {
        return false;
    }
    proof {
        reveal_strlit(".");
        reveal_strlit("..");
        assert("."@.len() == 1 && "."@[0] == '.');
        assert(".."@.len() == 2 && ".."@[0] == '.' && ".."@[1] == '.');
    }
    if k == 1 && s[0] == '.' {
        assert(s@.subrange(0, 1) =~= "."@);
        return false;
    }
    if k == 2 && s[0] == '.' && s[1] == '.' {
        assert(s@.subrange(0, 2) =~= ".."@);
        return false;
    }
    assert(s@.subrange(0, k as int) != "."@) by {
        if s@.subrange(0, k as int) == "."@ {
            assert(s@.subrange(0, k as int)[0] == s@[0]);
        }
    }
    assert(s@.subrange(0, k as int) != ".."@) by {
        if s@.subrange(0, k as int) == ".."@ {
            assert(s@.subrange(0, k as int)[0] == s@[0]);
            assert(s@.subrange(0, k as int)[1] == s@[1]);
        }
    }
    let mut i: usize = k;
    while i < s.len()
        invariant
            k <= i <= s.len(),
            s@ == filename@,
            k == first_separator(s@, 0),
            k < s.len() ==> s@[k as int] == '/',
            forall|j: int|
                k <= j < i ==> (#[trigger] s@[j] == '/' || (s@[j] == '.' && j > k && s@[j - 1] == '/' && (j + 1
                    == s@.len() || s@[j + 1] == '/'))),
        decreases s.len() - i,
    {
        let c = s[i];
        if c != '/' {
            if !(c == '.' && i > k && s[i - 1] == '/' && (i + 1 == s.len() || s[i + 1] == '/')) {
                return false;
            }
        }
        i = i + 1;
    }
    true
}

// ---------------------------------------------------------------------------------------------
// Expansion.
// ---------------------------------------------------------------------------------------------

/// Whether a step stays within the bounds of the schema.
pub open spec fn script_action_valid(action: ScriptAction) -> bool {
    match action {
        ScriptAction::SetRingThickness { value } => value <= MAX_SCRIPT_RING_THICKNESS,
        ScriptAction::SetCornerRoundness { value } => value <= MAX_SCRIPT_CORNER_ROUNDNESS,
        ScriptAction::ResizeCycle { repetitions } => repetitions <= MAX_REPEAT,
        ScriptAction::RestartCamera { repetitions } => repetitions <= MAX_REPEAT,
        ScriptAction::SuspendResume { milliseconds } => milliseconds <= MAX_DELAY_MILLIS,
        ScriptAction::Delay { milliseconds } => milliseconds <= MAX_DELAY_MILLIS,
        ScriptAction::Screenshot { file } => spec_valid_filename(file@),
        ScriptAction::MenuScreenshot { file } => spec_valid_filename(file@),
        ScriptAction::Diagnostics { file } => spec_valid_filename(file@),
        _ => true,
    }
}

/// `repetitions` grow-then-shrink pairs.
pub open spec fn resize_steps(repetitions: nat) -> Seq<AutomationAction>
    decreases repetitions,
{
    if repetitions == 0 {
        Seq::empty()
    } else {
        resize_steps((repetitions - 1) as nat).push(AutomationAction::ResizeStep { grow: true }).push(
            AutomationAction::ResizeStep { grow: false },
        )
    }
}

/// The actions one valid step stands for.
pub open spec fn expand_action(action: ScriptAction) -> Seq<AutomationAction> {
    match action {
        ScriptAction::WaitForPreview => seq![AutomationAction::WaitForPreview],
        ScriptAction::SetTheme { value } => seq![AutomationAction::SetTheme(value)],
        ScriptAction::SetShape { value } => seq![AutomationAction::SetShape(value)],
        ScriptAction::SetFit { value } => seq![AutomationAction::SetFit(value)],
        ScriptAction::SetRingThickness { value } => seq![AutomationAction::SetRingThickness(value)],
        ScriptAction::SetCornerRoundness { value } => seq![
            AutomationAction::SetCornerRoundness(value),
        ],
        ScriptAction::SetCameraResolution { value } => seq![
            AutomationAction::SetCameraResolution(value),
        ],
        ScriptAction::ResizeCycle { repetitions } => resize_steps(repetitions as nat),
        ScriptAction::RestartCamera { repetitions } => Seq::new(
            repetitions as nat,
            |i: int| AutomationAction::RestartCamera,
        ),
        ScriptAction::SuspendResume { milliseconds } => seq![
            AutomationAction::SuspendResume(milliseconds),
        ],
        ScriptAction::Delay { milliseconds } => seq![AutomationAction::Delay(milliseconds)],
        ScriptAction::OpenMenu => seq![AutomationAction::OpenMenu],
        ScriptAction::OpenAdvancedMenu => seq![AutomationAction::OpenAdvancedMenu],
        ScriptAction::Screenshot { file } => seq![AutomationAction::Screenshot(file)],
        ScriptAction::MenuScreenshot { file } => seq![AutomationAction::MenuScreenshot(file)],
        ScriptAction::Diagnostics { file } => seq![AutomationAction::Diagnostics(file)],
        ScriptAction::Quit => seq![AutomationAction::Quit],
    }
}

/// The actions a sequence of steps stands for, in order.
pub open spec fn expand_all(actions: Seq<ScriptAction>) -> Seq<AutomationAction>
    decreases actions.len(),
{
    if actions.len() == 0 {
        Seq::empty()
    } else {
        expand_all(actions.drop_last()) + expand_action(actions.last())
    }
}

/// How many actions are [`AutomationAction::Quit`].
pub open spec fn quit_count(actions: Seq<AutomationAction>) -> nat
    decreases actions.len(),
{
    if actions.len() == 0 {
        0
    } else {
        quit_count(actions.drop_last()) + if actions.last() is Quit {
            1nat
        } else {
            0nat
        }
    }
}

/// Whether a script is accepted: version 1, at least one step, every step within bounds, at
/// most [`MAX_ACTIONS`] actions once expanded, starting with a wait for the preview and ending
/// with the only quit.
pub open spec fn script_accepted(script: Script) -> bool {
    let expanded = expand_all(script.actions@);
    &&& script.schema_version == 1
    &&& script.actions@.len() > 0
    &&& forall|i: int| 0 <= i < script.actions@.len() ==> script_action_valid(#[trigger] script.actions@[i])
    &&& expanded.len() <= MAX_ACTIONS
    &&& expanded.len() > 0
    &&& expanded[0] is WaitForPreview
    &&& expanded.last() is Quit
    &&& quit_count(expanded) == 1
}

/// Checks a wait against the thirty-minute bound.
pub fn validate_delay(milliseconds: u64) -> (delay: Result<u64, AutomationError>)
    ensures
        delay == (if milliseconds <= MAX_DELAY_MILLIS {
            Ok::<u64, AutomationError>(milliseconds)
        } else {
            Err(AutomationError::Schema)
        }),
{
    if milliseconds > MAX_DELAY_MILLIS {
        Err(AutomationError::Schema)
    } else {
        Ok(milliseconds)
    }
}

proof fn lemma_expand_all_prefix(actions: Seq<ScriptAction>, i: int)
    requires
        0 <= i < actions.len(),
    ensures
        expand_all(actions.take(i + 1)) == expand_all(actions.take(i)) + expand_action(actions[i]),
{
    assert(actions.take(i + 1).drop_last() =~= actions.take(i));
}

proof fn lemma_expand_all_grows(actions: Seq<ScriptAction>, i: int, j: int)
    requires
        0 <= i <= j <= actions.len(),
    ensures
        expand_all(actions.take(i)).len() <= expand_all(actions.take(j)).len(),
    decreases j - i,
{
    if i < j {
        lemma_expand_all_grows(actions, i, j - 1);
        lemma_expand_all_prefix(actions, j - 1);
    }
}

/// Appends the actions of one valid step.
fn push_expansion(actions: &mut VecDeque<AutomationAction>, step: &ScriptAction)
    requires
        script_action_valid(*step),
    ensures
        final(actions)@ == old(actions)@ + expand_action(*step),
{
    match step {
        ScriptAction::WaitForPreview => actions.push_back(AutomationAction::WaitForPreview),
        ScriptAction::SetTheme { value } => actions.push_back(AutomationAction::SetTheme(*value)),
        ScriptAction::SetShape { value } => actions.push_back(AutomationAction::SetShape(*value)),
        ScriptAction::SetFit { value } => actions.push_back(AutomationAction::SetFit(*value)),
        ScriptAction::SetRingThickness { value } => actions.push_back(
            AutomationAction::SetRingThickness(*value),
        ),
        ScriptAction::SetCornerRoundness { value } => actions.push_back(
            AutomationAction::SetCornerRoundness(*value),
        ),
        ScriptAction::SetCameraResolution { value } => actions.push_back(
            AutomationAction::SetCameraResolution(*value),
        ),
        ScriptAction::ResizeCycle { repetitions } => {
            let mut n: u16 = 0;
            while n < *repetitions
                invariant
                    n <= *repetitions,
                    actions@ == old(actions)@ + resize_steps(n as nat),
                decreases *repetitions - n,
            {
                actions.push_back(AutomationAction::ResizeStep { grow: true });
                actions.push_back(AutomationAction::ResizeStep { grow: false });
                n = n + 1;
                assert(actions@ =~= old(actions)@ + resize_steps(n as nat));
            }
        },
        ScriptAction::RestartCamera { repetitions } => {
            let mut n: u16 = 0;
            while n < *repetitions
                invariant
                    n <= *repetitions,
                    actions@ == old(actions)@ + Seq::new(
                        n as nat,
                        |i: int| AutomationAction::RestartCamera,
                    ),
                decreases *repetitions - n,
            {
                actions.push_back(AutomationAction::RestartCamera);
                n = n + 1;
                assert(actions@ =~= old(actions)@ + Seq::new(
                    n as nat,
                    |i: int| AutomationAction::RestartCamera,
                ));
            }
            assert(expand_action(*step) =~= Seq::new(
                *repetitions as nat,
                |i: int| AutomationAction::RestartCamera,
            ));
        },
        ScriptAction::SuspendResume { milliseconds } => actions.push_back(
            AutomationAction::SuspendResume(*milliseconds),
        ),
        ScriptAction::Delay { milliseconds } => actions.push_back(
            AutomationAction::Delay(*milliseconds),
        ),
        ScriptAction::OpenMenu => actions.push_back(AutomationAction::OpenMenu),
        ScriptAction::OpenAdvancedMenu => actions.push_back(AutomationAction::OpenAdvancedMenu),
        ScriptAction::Screenshot { file } => actions.push_back(
            AutomationAction::Screenshot(file.clone()),
        ),
        ScriptAction::MenuScreenshot { file } => actions.push_back(
            AutomationAction::MenuScreenshot(file.clone()),
        ),
        ScriptAction::Diagnostics { file } => actions.push_back(
            AutomationAction::Diagnostics(file.clone()),
        ),
        ScriptAction::Quit => actions.push_back(AutomationAction::Quit),
    }
    assert(actions@ =~= old(actions)@ + expand_action(*step));
}

/// Checks one step against the bounds of the schema.
fn step_valid(step: &ScriptAction) -> (valid: bool)
    ensures
        valid == script_action_valid(*step),
{
    match step {
        ScriptAction::SetRingThickness { value } => *value <= MAX_SCRIPT_RING_THICKNESS,
        ScriptAction::SetCornerRoundness { value } => *value <= MAX_SCRIPT_CORNER_ROUNDNESS,
        ScriptAction::ResizeCycle { repetitions } => *repetitions <= MAX_REPEAT,
        ScriptAction::RestartCamera { repetitions } => *repetitions <= MAX_REPEAT,
        ScriptAction::SuspendResume { milliseconds } => validate_delay(*milliseconds).is_ok(),
        ScriptAction::Delay { milliseconds } => validate_delay(*milliseconds).is_ok(),
        ScriptAction::Screenshot { file } => valid_filename(file.as_str()),
        ScriptAction::MenuScreenshot { file } => valid_filename(file.as_str()),
        ScriptAction::Diagnostics { file } => valid_filename(file.as_str()),
        _ => true,
    }
}

/// Counts the quit actions.
fn count_quits(actions: &VecDeque<AutomationAction>) -> (count: usize)
    ensures
        count == quit_count(actions@),
{
    let mut count: usize = 0;
    let mut i: usize = 0;
    while i < actions.len()
        invariant
            i <= actions.len(),
            count == quit_count(actions@.take(i as int)),
            count <= i,
        decreases actions.len() - i,
    {
        assert(actions@.take(i + 1).drop_last() =~= actions@.take(i as int));
        if matches!(actions[i], AutomationAction::Quit) {
            count = count + 1;
        }
        i = i + 1;
    }
    assert(actions@.take(actions.len() as int) =~= actions@);
    count
}

/// Validates a script and expands it into the queue of actions. Every failure is a schema
/// error, and the queue is given exactly when [`script_accepted`] holds.
pub fn validate_and_expand(script: &Script) -> (expanded: Result<
    VecDeque<AutomationAction>,
    AutomationError,
>)
    ensures
        match expanded {
            Ok(actions) => script_accepted(*script) && actions@ == expand_all(script.actions@),
            Err(error) => !script_accepted(*script) && error == AutomationError::Schema,
        },
{
    if script.schema_version != 1 || script.actions.len() == 0 {
        return Err(AutomationError::Schema);
    }
    let mut actions: VecDeque<AutomationAction> = VecDeque::new();
    let mut i: usize = 0;
    while i < script.actions.len()
        invariant
            i <= script.actions.len(),
            actions@ == expand_all(script.actions@.take(i as int)),
            actions@.len() <= MAX_ACTIONS,
            forall|j: int| 0 <= j < i ==> script_action_valid(#[trigger] script.actions@[j]),
        decreases script.actions.len() - i,
    {
        let step = &script.actions[i];
        proof {
            lemma_expand_all_prefix(script.actions@, i as int);
        }
        if !step_valid(step) {
            return Err(AutomationError::Schema);
        }
        push_expansion(&mut actions, step);
        if actions.len() > MAX_ACTIONS {
            proof {
                lemma_expand_all_grows(script.actions@, i + 1, script.actions@.len() as int);
                assert(script.actions@.take(script.actions@.len() as int) =~= script.actions@);
            }
            return Err(AutomationError::Schema);
        }
        i = i + 1;
    }
    assert(script.actions@.take(script.actions@.len() as int) =~= script.actions@);
    if actions.len() == 0 {
        return Err(AutomationError::Schema);
    }
    let starts_with_wait = match &actions[0] {
        AutomationAction::WaitForPreview => true,
        _ => false,
    };
    let ends_with_quit = match &actions[actions.len() - 1] {
        AutomationAction::Quit => true,
        _ => false,
    };
    if !starts_with_wait || !ends_with_quit || count_quits(&actions) != 1 {
        return Err(AutomationError::Schema);
    }
    Ok(actions)
}

// ---------------------------------------------------------------------------------------------
// The session.
// ---------------------------------------------------------------------------------------------

/// A file the session asks to be written into its output directory.
#[derive(Debug, Clone, PartialEq, Eq)]
pub struct Artifact {
    /// Where the file goes.
    pub path: String,
    /// The complete contents.
    pub contents: String,
}

/// The lifecycle marker with the given status.
pub open spec fn marker_text(status: Seq<char>) -> Seq<char> {
    "{\n  \"schemaVersion\": 1,\n  \"status\": \""@ + status + "\"\n}\n"@
}

/// What a session is: the actions still to run, where artifacts go, and whether the readiness
/// marker has been asked for.
pub ghost struct SessionState {
    /// The queue of actions, next first.
    pub actions: Seq<AutomationAction>,
    /// The output directory.
    pub output_directory: Seq<char>,
    /// Whether the scenario has started.
    pub started: bool,
}

/// Mutable scenario cursor and its isolated output directory.
#[derive(Debug, Clone)]
pub struct AutomationSession {
    actions: VecDeque<AutomationAction>,
    output_directory: String,
    started: bool,
}

impl View for AutomationSession {
    type V = SessionState;

    closed spec fn view(&self) -> SessionState {
        SessionState {
            actions: self.actions@,
            output_directory: self.output_directory@,
            started: self.started,
        }
    }
}

/// The action taken from a session, and the session after it.
pub open spec fn spec_next(state: SessionState) -> (Option<AutomationAction>, SessionState) {
    if state.actions.len() == 0 {
        (None, state)
    } else {
        (Some(state.actions[0]), SessionState { actions: state.actions.drop_first(), ..state })
    }
}

/// The session with an action put back at the front.
pub open spec fn spec_retry(state: SessionState, action: AutomationAction) -> SessionState {
    SessionState { actions: seq![action] + state.actions, ..state }
}

/// An action put back is the next one taken, and taking it restores the session.
pub proof fn lemma_retry_then_next(state: SessionState, action: AutomationAction)
    ensures
        spec_next(spec_retry(state, action)) == (Some(action), state),
{
    assert((seq![action] + state.actions).drop_first() =~= state.actions);
}

fn marker(status: &str) -> (text: String)
    ensures
        text@ == marker_text(status@),
{
    let mut text = String::new();
    text.append("{\n  \"schemaVersion\": 1,\n  \"status\": \"");
    text.append(status);
    text.append("\"\n}\n");
    text
}

impl AutomationSession {
    /// Validates and expands a script into a session that has not started, writing into
    /// `output_directory`. The directory itself is created by the caller.
    pub fn from_script(script: &Script, output_directory: &str) -> (session: Result<
        AutomationSession,
        AutomationError,
    >)
        ensures
            match session {
                Ok(s) => script_accepted(*script) && s@ == (SessionState {
                    actions: expand_all(script.actions@),
                    output_directory: output_directory@,
                    started: false,
                }),
                Err(error) => !script_accepted(*script) && error == AutomationError::Schema,
            },
    {
        match validate_and_expand(script) {
            Ok(actions) => Ok(
                AutomationSession {
                    actions,
                    output_directory: output_directory.to_owned(),
                    started: false,
                },
            ),
            Err(error) => Err(error),
        }
    }

    /// Marks the first usable preview. The first call gives the readiness marker to write;
    /// later calls give nothing.
    pub fn start(&mut self) -> (marker_file: Option<Artifact>)
        ensures
            final(self)@ == (SessionState { started: true, ..old(self)@ }),
            old(self)@.started ==> marker_file is None,
            !old(self)@.started ==> (marker_file matches Some(a) && a.path@ == crate::text::spec_join_path(
                old(self)@.output_directory,
                "ready.json"@,
            ) && a.contents@ == marker_text("ready"@)),
    {
        if self.started {
            return None;
        }
        self.started = true;
        Some(Artifact { path: self.output_path("ready.json"), contents: marker("ready") })
    }

    /// Takes the next action.
    pub fn next(&mut self) -> (action: Option<AutomationAction>)
        ensures
            (action, final(self)@) == spec_next(old(self)@),
    {
        self.actions.pop_front()
    }

    /// Returns an incomplete action to the front of the queue.
    pub fn retry(&mut self, action: AutomationAction)
        ensures
            final(self)@ == spec_retry(old(self)@, action),
    {
        self.actions.push_front(action);
        assert(self.actions@ =~= seq![action] + old(self)@.actions);
    }

    /// Whether the readiness marker has been asked for.
    pub fn started(&self) -> (started: bool)
        ensures
            started == self@.started,
    {
        self.started
    }

    /// The path of an artifact inside the output directory.
    pub fn output_path(&self, filename: &str) -> (path: String)
        ensures
            path@ == crate::text::spec_join_path(self@.output_directory, filename@),
    {
        crate::text::join_path(self.output_directory.as_str(), filename)
    }

    /// The completion marker to write when the scenario succeeded.
    pub fn complete(&self) -> (marker_file: Artifact)
        ensures
            marker_file.path@ == crate::text::spec_join_path(self@.output_directory, "complete.json"@),
            marker_file.contents@ == marker_text("complete"@),
    {
        Artifact { path: self.output_path("complete.json"), contents: marker("complete") }
    }

    /// The failure marker to write when the scenario failed; it carries no error details.
    pub fn fail(&self) -> (marker_file: Artifact)
        ensures
            marker_file.path@ == crate::text::spec_join_path(self@.output_directory, "failed.json"@),
            marker_file.contents@ == marker_text("failed"@),
    {
        Artifact { path: self.output_path("failed.json"), contents: marker("failed") }
    }
}

// ---------------------------------------------------------------------------------------------
// Driving a scenario.
// ---------------------------------------------------------------------------------------------

/// How long to wait before looking again for a preview, or after a window resize step.
pub const SHORT_AUTOMATION_PAUSE_MILLIS: u64 = 50;

/// How long a camera restart is given before the next action.
pub const RESTART_AUTOMATION_PAUSE_MILLIS: u64 = 100;

/// How long a menu window is given to open before the next action.
pub const MENU_AUTOMATION_PAUSE_MILLIS: u64 = 250;

/// What the application does for one action of a scenario.
#[derive(Debug, Clone, PartialEq, Eq)]
pub enum AutomationStep {
    /// Go on once the preview shows frames (see [`await_preview`]).
    AwaitPreview,
    /// Apply a product action, then take the next action after this many milliseconds.
    Apply {
        /// The product action.
        action: Action,
        /// The pause before the next action.
        next_after_millis: u64,
    },
    /// Stop the camera and resume it after this many milliseconds.
    Suspend {
        /// The pause before resuming.
        resume_after_millis: u64,
    },
    /// Take the next action after this many milliseconds.
    Wait {
        /// The pause.
        millis: u64,
    },
    /// Open the context menu, then take the next action after this many milliseconds.
    OpenMenu {
        /// The pause before the next action.
        next_after_millis: u64,
    },
    /// Open the advanced submenu, then take the next action after this many milliseconds.
    OpenAdvancedMenu {
        /// The pause before the next action.
        next_after_millis: u64,
    },
    /// Capture the overlay into this artifact.
    CaptureOverlay(String),
    /// Capture the context menu into this artifact.
    CaptureMenu(String),
    /// Export diagnostics into this artifact.
    ExportDiagnostics(String),
    /// Write the completion marker and shut down.
    Finish,
}

/// What the application does for an action, given the largest window size the monitor allows.
pub open spec fn spec_plan_step(action: AutomationAction, maximum: u16) -> AutomationStep {
    match action {
        AutomationAction::WaitForPreview => AutomationStep::AwaitPreview,
        AutomationAction::SetTheme(theme) => AutomationStep::Apply {
            action: Action::SetTheme(theme),
            next_after_millis: 0,
        },
        AutomationAction::SetShape(shape) => AutomationStep::Apply {
            action: Action::SetShape(shape),
            next_after_millis: 0,
        },
        AutomationAction::SetFit(fit) => AutomationStep::Apply {
            action: Action::SetFit(fit),
            next_after_millis: 0,
        },
        AutomationAction::SetRingThickness(value) => AutomationStep::Apply {
            action: Action::SetRingThickness(value),
            next_after_millis: 0,
        },
        AutomationAction::SetCornerRoundness(value) => AutomationStep::Apply {
            action: Action::SetCornerRoundness(value),
            next_after_millis: 0,
        },
        AutomationAction::SetCameraResolution(value) => AutomationStep::Apply {
            action: Action::SetCameraResolution(value),
            next_after_millis: 0,
        },
        AutomationAction::ResizeStep { grow } => AutomationStep::Apply {
            action: Action::ResizeByStep { grow, maximum },
            next_after_millis: SHORT_AUTOMATION_PAUSE_MILLIS,
        },
        AutomationAction::RestartCamera => AutomationStep::Apply {
            action: Action::RetryCamera,
            next_after_millis: RESTART_AUTOMATION_PAUSE_MILLIS,
        },
        AutomationAction::SuspendResume(millis) => AutomationStep::Suspend {
            resume_after_millis: millis,
        },
        AutomationAction::Delay(millis) => AutomationStep::Wait { millis },
        AutomationAction::OpenMenu => AutomationStep::OpenMenu {
            next_after_millis: MENU_AUTOMATION_PAUSE_MILLIS,
        },
        AutomationAction::OpenAdvancedMenu => AutomationStep::OpenAdvancedMenu {
            next_after_millis: MENU_AUTOMATION_PAUSE_MILLIS,
        },
        AutomationAction::Screenshot(file) => AutomationStep::CaptureOverlay(file),
        AutomationAction::MenuScreenshot(file) => AutomationStep::CaptureMenu(file),
        AutomationAction::Diagnostics(file) => AutomationStep::ExportDiagnostics(file),
        AutomationAction::Quit => AutomationStep::Finish,
    }
}

/// What the application does for an action: product changes go through the product state,
/// resize steps and restarts leave the window or camera a moment to settle, menus are given
/// time to open, and the quit action finishes the scenario.
pub fn plan_automation_step(action: AutomationAction, maximum: u16) -> (step: AutomationStep)
    ensures
        step == spec_plan_step(action, maximum),
{
    match action {
        AutomationAction::WaitForPreview => AutomationStep::AwaitPreview,
        AutomationAction::SetTheme(theme) => AutomationStep::Apply {
            action: Action::SetTheme(theme),
            next_after_millis: 0,
        },
        AutomationAction::SetShape(shape) => AutomationStep::Apply {
            action: Action::SetShape(shape),
            next_after_millis: 0,
        },
        AutomationAction::SetFit(fit) => AutomationStep::Apply {
            action: Action::SetFit(fit),
            next_after_millis: 0,
        },
        AutomationAction::SetRingThickness(value) => AutomationStep::Apply {
            action: Action::SetRingThickness(value),
            next_after_millis: 0,
        },
        AutomationAction::SetCornerRoundness(value) => AutomationStep::Apply {
            action: Action::SetCornerRoundness(value),
            next_after_millis: 0,
        },
        AutomationAction::SetCameraResolution(value) => AutomationStep::Apply {
            action: Action::SetCameraResolution(value),
            next_after_millis: 0,
        },
        AutomationAction::ResizeStep { grow } => AutomationStep::Apply {
            action: Action::ResizeByStep { grow, maximum },
            next_after_millis: SHORT_AUTOMATION_PAUSE_MILLIS,
        },
        AutomationAction::RestartCamera => AutomationStep::Apply {
            action: Action::RetryCamera,
            next_after_millis: RESTART_AUTOMATION_PAUSE_MILLIS,
        },
        AutomationAction::SuspendResume(millis) => AutomationStep::Suspend {
            resume_after_millis: millis,
        },
        AutomationAction::Delay(millis) => AutomationStep::Wait { millis },
        AutomationAction::OpenMenu => AutomationStep::OpenMenu {
            next_after_millis: MENU_AUTOMATION_PAUSE_MILLIS,
        },
        AutomationAction::OpenAdvancedMenu => AutomationStep::OpenAdvancedMenu {
            next_after_millis: MENU_AUTOMATION_PAUSE_MILLIS,
        },
        AutomationAction::Screenshot(file) => AutomationStep::CaptureOverlay(file),
        AutomationAction::MenuScreenshot(file) => AutomationStep::CaptureMenu(file),
        AutomationAction::Diagnostics(file) => AutomationStep::ExportDiagnostics(file),
        AutomationAction::Quit => AutomationStep::Finish,
    }
}

/// Waits for the preview: with frames showing the scenario goes on at once (`None`);
/// otherwise the wait goes back to the front of the queue and is looked at again after a short
/// pause.
pub fn await_preview(session: &mut AutomationSession, status: CameraStatus) -> (pause: Option<u64>)
    ensures
        status == CameraStatus::Preview ==> pause is None && final(session)@ == old(session)@,
        status != CameraStatus::Preview ==> pause == Some(SHORT_AUTOMATION_PAUSE_MILLIS)
            && final(session)@ == spec_retry(old(session)@, AutomationAction::WaitForPreview),
{
    if status == CameraStatus::Preview {
        None
    } else {
        session.retry(AutomationAction::WaitForPreview);
        Some(SHORT_AUTOMATION_PAUSE_MILLIS)
    }
}

/// How long the overlay is given to draw its first frame before a launch screenshot.
pub const SCREENSHOT_SETTLE_MILLIS: u64 = 100;

/// Where a scenario stands once the launch has settled.
#[derive(Debug, Clone, Copy, PartialEq, Eq, Structural)]
pub enum ScriptProgress {
    /// The scenario started just now: its started marker was written.
    JustStarted,
    /// The scenario was already running.
    Running,
    /// There is no scenario, or its started marker could not be written.
    NotStarted,
}

/// What the application does once the launch has settled: the preview shows frames, or the
/// camera failed.
#[derive(Debug, Clone, Copy, PartialEq, Eq, Structural)]
pub enum LaunchFollowUp {
    /// Take the scenario's first action.
    RunScript,
    /// Write the failure marker and shut down.
    FailScript,
    /// Capture the requested launch screenshot after this many milliseconds.
    CaptureScreenshot {
        /// The pause before the capture.
        after_millis: u64,
    },
    /// Shut down cleanly.
    Shutdown,
    /// Keep running.
    Continue,
}

/// Once the preview first shows frames: a scenario runs when it has just started and fails
/// when it could not start; otherwise, with a window open, a requested screenshot is taken of
/// the first frame, and a launch check shuts down.
pub fn follow_up_on_preview(
    mode: AutomationMode,
    script: ScriptProgress,
    window_open: bool,
    screenshot_waiting: bool,
    frame_shown: bool,
) -> (follow_up: LaunchFollowUp)
    ensures
        follow_up == (if mode == AutomationMode::Scripted {
            match script {
                ScriptProgress::JustStarted => LaunchFollowUp::RunScript,
                ScriptProgress::NotStarted => LaunchFollowUp::FailScript,
                ScriptProgress::Running => LaunchFollowUp::Continue,
            }
        } else if !window_open {
            LaunchFollowUp::Continue
        } else if screenshot_waiting && frame_shown {
            LaunchFollowUp::CaptureScreenshot { after_millis: SCREENSHOT_SETTLE_MILLIS }
        } else if mode == AutomationMode::ExitAfterLaunch {
            LaunchFollowUp::Shutdown
        } else {
            LaunchFollowUp::Continue
        }),
{
    if mode == AutomationMode::Scripted {
        match script {
            ScriptProgress::JustStarted => LaunchFollowUp::RunScript,
            ScriptProgress::NotStarted => LaunchFollowUp::FailScript,
            ScriptProgress::Running => LaunchFollowUp::Continue,
        }
    } else if !window_open {
        LaunchFollowUp::Continue
    } else if screenshot_waiting && frame_shown {
        LaunchFollowUp::CaptureScreenshot { after_millis: SCREENSHOT_SETTLE_MILLIS }
    } else if mode == AutomationMode::ExitAfterLaunch {
        LaunchFollowUp::Shutdown
    } else {
        LaunchFollowUp::Continue
    }
}

/// Once the camera has failed at launch: a scenario fails; otherwise a requested screenshot is
/// still taken (of the placeholder), and a launch check with a window open shuts down.
pub fn follow_up_on_camera_failure(
    mode: AutomationMode,
    window_open: bool,
    screenshot_waiting: bool,
) -> (follow_up: LaunchFollowUp)
    ensures
        follow_up == (if mode == AutomationMode::Scripted {
            LaunchFollowUp::FailScript
        } else if screenshot_waiting {
            LaunchFollowUp::CaptureScreenshot { after_millis: SCREENSHOT_SETTLE_MILLIS }
        } else if mode == AutomationMode::ExitAfterLaunch && window_open {
            LaunchFollowUp::Shutdown
        } else {
            LaunchFollowUp::Continue
        }),
{
    if mode == AutomationMode::Scripted {
        LaunchFollowUp::FailScript
    } else if screenshot_waiting {
        LaunchFollowUp::CaptureScreenshot { after_millis: SCREENSHOT_SETTLE_MILLIS }
    } else if mode == AutomationMode::ExitAfterLaunch && window_open {
        LaunchFollowUp::Shutdown
    } else {
        LaunchFollowUp::Continue
    }
}

} // verus!
