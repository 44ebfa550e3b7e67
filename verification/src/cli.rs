//! Command-line parsing, without reading process-global state: the arguments come in as a list
//! and a validated configuration or a typed error comes out.

use vstd::prelude::*;
use crate::FrameSourceKind;
use crate::text::str_equals;

verus! {

broadcast use vstd::string::group_string_axioms;

/// Optional unattended behavior used by packaged smoke tests.
#[derive(Debug, Clone, Copy, PartialEq, Eq, Structural)]
pub enum AutomationMode {
    /// Run until a user or operating-system close request.
    Interactive,
    /// Close automatically after the event loop has started.
    ExitAfterLaunch,
    /// Run a validated unattended scenario and close on its final action.
    Scripted,
}

impl Default for AutomationMode {
    fn default() -> (mode: AutomationMode)
        ensures
            mode == AutomationMode::Interactive,
    {
        AutomationMode::Interactive
    }
}

/// High-level command selected by command-line arguments.
#[derive(Debug, Clone, Copy, PartialEq, Eq, Structural)]
pub enum CliAction {
    /// Start the application.
    Run,
    /// Print help and exit.
    Help,
    /// Print the version and exit.
    Version,
    /// Validate the binary and configuration without opening a window.
    AutomationCheck,
}

/// One command-line argument as the operating system gave it: text, or bytes that are not
/// valid Unicode.
#[derive(Debug, Clone, PartialEq, Eq)]
pub enum CliArgument {
    /// A valid Unicode argument.
    Unicode(String),
    /// An argument that is not valid Unicode, as its platform bytes.
    NonUnicode(Vec<u8>),
}

/// Whether an argument is empty. Only text can be: the empty byte string is valid Unicode.
pub open spec fn argument_is_empty(argument: CliArgument) -> bool {
    match argument {
        CliArgument::Unicode(text) => text@.len() == 0,
        CliArgument::NonUnicode(bytes) => bytes@.len() == 0,
    }
}

/// Validated startup configuration.
#[derive(Debug, Clone, PartialEq, Eq)]
pub struct Cli {
    /// The requested top-level action.
    pub action: CliAction,
    /// The selected automation behavior.
    pub automation: AutomationMode,
    /// The selected frame source.
    pub frame_source: FrameSourceKind,
    /// Where to write an unattended screenshot.
    pub screenshot: Option<CliArgument>,
    /// A settings directory that replaces the platform one.
    pub profile_directory: Option<CliArgument>,
    /// The automation fixture to run.
    pub automation_script: Option<CliArgument>,
    /// Where automation artifacts go.
    pub automation_output: Option<CliArgument>,
}

/// Command-line validation failure.
#[derive(Debug, Clone, PartialEq, Eq)]
pub enum CliError {
    /// An argument was not valid Unicode; its platform bytes.
    NonUnicode(Vec<u8>),
    /// An unsupported argument was passed.
    UnknownArgument(String),
    /// An option requiring a value was last, or its value was empty.
    MissingValue(&'static str),
    /// A singleton option was repeated.
    DuplicateOption(&'static str),
    /// The frame-source value was not supported.
    InvalidFrameSource(String),
    /// Mutually exclusive actions were combined.
    ConflictingOptions,
}

/// The configuration before any argument: run interactively with the real camera.
pub open spec fn default_cli() -> Cli {
    Cli {
        action: CliAction::Run,
        automation: AutomationMode::Interactive,
        frame_source: FrameSourceKind::Real,
        screenshot: None,
        profile_directory: None,
        automation_script: None,
        automation_output: None,
    }
}

impl Default for Cli {
    fn default() -> (cli: Cli)
        ensures
            cli == default_cli(),
    {
        Cli {
            action: CliAction::Run,
            automation: AutomationMode::Interactive,
            frame_source: FrameSourceKind::Real,
            screenshot: None,
            profile_directory: None,
            automation_script: None,
            automation_output: None,
        }
    }
}

/// What parsing has seen so far: the configuration, and which singleton options were given.
pub ghost struct CliProgress {
    /// The configuration so far.
    pub cli: Cli,
    /// `--frame-source` was given.
    pub source_set: bool,
    /// `--screenshot` was given.
    pub screenshot_set: bool,
    /// `--profile-dir` was given.
    pub profile_set: bool,
    /// `--automation-script` was given.
    pub script_set: bool,
    /// `--automation-output` was given.
    pub output_set: bool,
}

/// The value after the option at `i`, when an option takes a path: missing when there is none
/// or it is empty.
pub open spec fn path_value(args: Seq<CliArgument>, i: int, option: &'static str) -> Result<
    CliArgument,
    CliError,
> {
    if i + 1 >= args.len() || argument_is_empty(args[i + 1]) {
        Err(CliError::MissingValue(option))
    } else {
        Ok(args[i + 1])
    }
}

/// The checks made once every argument is read: an action other than running excludes
/// automation and screenshots; a script needs an output directory and the reverse; scripted
/// automation excludes a screenshot.
pub open spec fn finish_cli(cli: Cli) -> Result<Cli, CliError> {
    if cli.action != CliAction::Run && (cli.automation != AutomationMode::Interactive
        || cli.screenshot is Some) {
        Err(CliError::ConflictingOptions)
    } else if (cli.automation_script is Some) != (cli.automation_output is Some) || (cli.automation
        == AutomationMode::Scripted && cli.screenshot is Some) {
        Err(CliError::ConflictingOptions)
    } else {
        Ok(cli)
    }
}

/// Selecting an action: only one action may be selected.
pub open spec fn with_action(p: CliProgress, action: CliAction) -> Result<CliProgress, CliError> {
    if p.cli.action != CliAction::Run {
        Err(CliError::ConflictingOptions)
    } else {
        Ok(CliProgress { cli: Cli { action, ..p.cli }, ..p })
    }
}

/// The result of parsing `args[i..]` after what `p` records.
pub open spec fn parse_from(args: Seq<CliArgument>, i: int, p: CliProgress) -> Result<Cli, CliError>
    decreases args.len() - i,
{
    if i < 0 || i >= args.len() {
        finish_cli(p.cli)
    } else {
        let argument = args[i];
        match argument {
            CliArgument::NonUnicode(bytes) => Err(CliError::NonUnicode(bytes)),
            CliArgument::Unicode(text) => {
                let name = text@;
                if name == "--help"@ || name == "-h"@ {
                    match with_action(p, CliAction::Help) {
                        Ok(next) => parse_from(args, i + 1, next),
                        Err(e) => Err(e),
                    }
                } else if name == "--version"@ || name == "-V"@ {
                    match with_action(p, CliAction::Version) {
                        Ok(next) => parse_from(args, i + 1, next),
                        Err(e) => Err(e),
                    }
                } else if name == "--automation-check"@ {
                    match with_action(p, CliAction::AutomationCheck) {
                        Ok(next) => parse_from(args, i + 1, next),
                        Err(e) => Err(e),
                    }
                } else if name == "--automation-exit"@ {
                    if p.cli.automation != AutomationMode::Interactive {
                        Err(CliError::DuplicateOption("--automation-exit"))
                    } else {
                        parse_from(
                            args,
                            i + 1,
                            CliProgress {
                                cli: Cli { automation: AutomationMode::ExitAfterLaunch, ..p.cli },
                                ..p
                            },
                        )
                    }
                } else if name == "--automation-script"@ {
                    if p.script_set || p.cli.automation != AutomationMode::Interactive {
                        Err(CliError::DuplicateOption("--automation-script"))
                    } else {
                        match path_value(args, i, "--automation-script") {
                            Err(e) => Err(e),
                            Ok(value) => parse_from(
                                args,
                                i + 2,
                                CliProgress {
                                    cli: Cli {
                                        automation_script: Some(value),
                                        automation: AutomationMode::Scripted,
                                        ..p.cli
                                    },
                                    script_set: true,
                                    ..p
                                },
                            ),
                        }
                    }
                } else if name == "--automation-output"@ {
                    if p.output_set {
                        Err(CliError::DuplicateOption("--automation-output"))
                    } else {
                        match path_value(args, i, "--automation-output") {
                            Err(e) => Err(e),
                            Ok(value) => parse_from(
                                args,
                                i + 2,
                                CliProgress {
                                    cli: Cli { automation_output: Some(value), ..p.cli },
                                    output_set: true,
                                    ..p
                                },
                            ),
                        }
                    }
                } else if name == "--frame-source"@ {
                    if p.source_set {
                        Err(CliError::DuplicateOption("--frame-source"))
                    } else if i + 1 >= args.len() {
                        Err(CliError::MissingValue("--frame-source"))
                    } else {
                        match args[i + 1] {
                            CliArgument::NonUnicode(bytes) => Err(CliError::NonUnicode(bytes)),
                            CliArgument::Unicode(value) => match FrameSourceKind::spec_parse(
                                value@,
                            ) {
                                None => Err(CliError::InvalidFrameSource(value)),
                                Some(kind) => parse_from(
                                    args,
                                    i + 2,
                                    CliProgress {
                                        cli: Cli { frame_source: kind, ..p.cli },
                                        source_set: true,
                                        ..p
                                    },
                                ),
                            },
                        }
                    }
                } else if name == "--screenshot"@ {
                    if p.screenshot_set {
                        Err(CliError::DuplicateOption("--screenshot"))
                    } else {
                        match path_value(args, i, "--screenshot") {
                            Err(e) => Err(e),
                            Ok(value) => parse_from(
                                args,
                                i + 2,
                                CliProgress {
                                    cli: Cli { screenshot: Some(value), ..p.cli },
                                    screenshot_set: true,
                                    ..p
                                },
                            ),
                        }
                    }
                } else if name == "--profile-dir"@ {
                    if p.profile_set {
                        Err(CliError::DuplicateOption("--profile-dir"))
                    } else {
                        match path_value(args, i, "--profile-dir") {
                            Err(e) => Err(e),
                            Ok(value) => parse_from(
                                args,
                                i + 2,
                                CliProgress {
                                    cli: Cli { profile_directory: Some(value), ..p.cli },
                                    profile_set: true,
                                    ..p
                                },
                            ),
                        }
                    }
                } else {
                    Err(CliError::UnknownArgument(text))
                }
            },
        }
    }
}

/// Whether a configuration keeps the command line's exclusions: only a plain run may automate
/// or take a screenshot; a script comes with an output directory and the reverse; scripted
/// automation is selected exactly when a script is given, and excludes a screenshot.
pub open spec fn cli_consistent(cli: Cli) -> bool {
    &&& cli.action != CliAction::Run ==> cli.automation == AutomationMode::Interactive
        && cli.screenshot is None
    &&& (cli.automation_script is Some <==> cli.automation_output is Some)
    &&& (cli.automation == AutomationMode::Scripted <==> cli.automation_script is Some)
    &&& cli.automation == AutomationMode::Scripted ==> cli.screenshot is None
}

/// The result of parsing a whole argument list.
pub open spec fn spec_parse_cli(args: Seq<CliArgument>) -> Result<Cli, CliError> {
    parse_from(
        args,
        0,
        CliProgress {
            cli: default_cli(),
            source_set: false,
            screenshot_set: false,
            profile_set: false,
            script_set: false,
            output_set: false,
        },
    )
}

/// One step of parsing at position `j` gives the same on two argument lists that agree from
/// `j` on, once the steps after it do.
#[verifier::rlimit(60)]
proof fn lemma_parse_step_reads_only_the_rest(
    a: Seq<CliArgument>,
    b: Seq<CliArgument>,
    j: int,
    p: CliProgress,
)
    requires
        a.len() == b.len(),
        0 <= j < a.len(),
        forall|k: int| j <= k < a.len() ==> a[k] == b[k],
        forall|q: CliProgress| #[trigger] parse_from(a, j + 1, q) == parse_from(b, j + 1, q),
        j + 2 <= a.len() ==> forall|q: CliProgress|
            #[trigger] parse_from(a, j + 2, q) == parse_from(b, j + 2, q),
    ensures
        parse_from(a, j, p) == parse_from(b, j, p),
{
    assert(a[j] == b[j]);
    if j + 1 < a.len() {
        assert(a[j + 1] == b[j + 1]);
    }
    assert(path_value(a, j, "--automation-script") == path_value(
        b,
        j,
        "--automation-script",
    ));
    assert(path_value(a, j, "--automation-output") == path_value(
        b,
        j,
        "--automation-output",
    ));
    assert(path_value(a, j, "--screenshot") == path_value(b, j, "--screenshot"));
    assert(path_value(a, j, "--profile-dir") == path_value(b, j, "--profile-dir"));
    match a[j] {
        CliArgument::NonUnicode(bytes) => {},
        CliArgument::Unicode(text) => {
            let name = text@;
            if name == "--help"@ || name == "-h"@ {
                if let Ok(next) = with_action(p, CliAction::Help) {
                    assert(parse_from(a, j, p) == parse_from(a, j + 1, next));
                    assert(parse_from(b, j, p) == parse_from(b, j + 1, next));
                }
            } else if name == "--version"@ || name == "-V"@ {
                if let Ok(next) = with_action(p, CliAction::Version) {
                    assert(parse_from(a, j, p) == parse_from(a, j + 1, next));
                    assert(parse_from(b, j, p) == parse_from(b, j + 1, next));
                }
            } else if name == "--automation-check"@ {
                if let Ok(next) = with_action(p, CliAction::AutomationCheck) {
                    assert(parse_from(a, j, p) == parse_from(a, j + 1, next));
                    assert(parse_from(b, j, p) == parse_from(b, j + 1, next));
                }
            } else if name == "--automation-exit"@ {
                if p.cli.automation == AutomationMode::Interactive {
                    let next = CliProgress {
                        cli: Cli { automation: AutomationMode::ExitAfterLaunch, ..p.cli },
                        ..p
                    };
                    assert(parse_from(a, j, p) == parse_from(a, j + 1, next));
                    assert(parse_from(b, j, p) == parse_from(b, j + 1, next));
                }
            } else if name == "--automation-script"@ {
                if !(p.script_set || p.cli.automation != AutomationMode::Interactive) {
                    if let Ok(value) = path_value(a, j, "--automation-script") {
                        let next = CliProgress {
                            cli: Cli {
                                automation_script: Some(value),
                                automation: AutomationMode::Scripted,
                                ..p.cli
                            },
                            script_set: true,
                            ..p
                        };
                        assert(parse_from(a, j, p) == parse_from(a, j + 2, next));
                        assert(parse_from(b, j, p) == parse_from(b, j + 2, next));
                    }
                }
            } else if name == "--automation-output"@ {
                if !p.output_set {
                    if let Ok(value) = path_value(a, j, "--automation-output") {
                        let next = CliProgress {
                            cli: Cli { automation_output: Some(value), ..p.cli },
                            output_set: true,
                            ..p
                        };
                        assert(parse_from(a, j, p) == parse_from(a, j + 2, next));
                        assert(parse_from(b, j, p) == parse_from(b, j + 2, next));
                    }
                }
            } else if name == "--frame-source"@ {
                if !p.source_set && j + 1 < a.len() {
                    if let CliArgument::Unicode(value) = a[j + 1] {
                        if let Some(kind) = FrameSourceKind::spec_parse(value@) {
                            let next = CliProgress {
                                cli: Cli { frame_source: kind, ..p.cli },
                                source_set: true,
                                ..p
                            };
                            assert(parse_from(a, j, p) == parse_from(a, j + 2, next));
                            assert(parse_from(b, j, p) == parse_from(b, j + 2, next));
                        }
                    }
                }
            } else if name == "--screenshot"@ {
                if !p.screenshot_set {
                    if let Ok(value) = path_value(a, j, "--screenshot") {
                        let next = CliProgress {
                            cli: Cli { screenshot: Some(value), ..p.cli },
                            screenshot_set: true,
                            ..p
                        };
                        assert(parse_from(a, j, p) == parse_from(a, j + 2, next));
                        assert(parse_from(b, j, p) == parse_from(b, j + 2, next));
                    }
                }
            } else if name == "--profile-dir"@ {
                if !p.profile_set {
                    if let Ok(value) = path_value(a, j, "--profile-dir") {
                        let next = CliProgress {
                            cli: Cli { profile_directory: Some(value), ..p.cli },
                            profile_set: true,
                            ..p
                        };
                        assert(parse_from(a, j, p) == parse_from(a, j + 2, next));
                        assert(parse_from(b, j, p) == parse_from(b, j + 2, next));
                    }
                }
            }
        },
    }
}

/// Parsing from position `j` reads only the arguments from `j` on.
proof fn lemma_parse_reads_only_the_rest(a: Seq<CliArgument>, b: Seq<CliArgument>, j: int)
    requires
        a.len() == b.len(),
        0 <= j,
        forall|k: int| j <= k < a.len() ==> a[k] == b[k],
    ensures
        forall|p: CliProgress| #[trigger] parse_from(a, j, p) == parse_from(b, j, p),
    decreases a.len() - j,
{
    if j < a.len() {
        lemma_parse_reads_only_the_rest(a, b, j + 1);
        if j + 2 <= a.len() {
            lemma_parse_reads_only_the_rest(a, b, j + 2);
        }
        assert forall|p: CliProgress| #[trigger] parse_from(a, j, p) == parse_from(b, j, p) by {
            lemma_parse_step_reads_only_the_rest(a, b, j, p);
        }
    }
}

/// `-V` is short for `--version` and `-h` for `--help`: a command line that starts with the
/// short form parses exactly as the one that starts with the long form, whatever follows; on
/// its own, `-V` asks for the version and `-h` for help.
pub proof fn lemma_short_options(short: String, long: String, rest: Seq<CliArgument>)
    requires
        (short@ == "-V"@ && long@ == "--version"@) || (short@ == "-h"@ && long@ == "--help"@),
    ensures
        spec_parse_cli(seq![CliArgument::Unicode(short)] + rest) == spec_parse_cli(
            seq![CliArgument::Unicode(long)] + rest,
        ),
        spec_parse_cli(seq![CliArgument::Unicode(short)]) == Ok::<Cli, CliError>(
            Cli {
                action: if short@ == "-V"@ {
                    CliAction::Version
                } else {
                    CliAction::Help
                },
                ..default_cli()
            },
        ),
{
    let a = seq![CliArgument::Unicode(short)] + rest;
    let b = seq![CliArgument::Unicode(long)] + rest;
    let single = seq![CliArgument::Unicode(short)];
    let start = CliProgress {
        cli: default_cli(),
        source_set: false,
        screenshot_set: false,
        profile_set: false,
        script_set: false,
        output_set: false,
    };
    reveal_strlit("-V");
    reveal_strlit("--version");
    reveal_strlit("-h");
    reveal_strlit("--help");
    assert(a[0] == CliArgument::Unicode(short));
    assert(b[0] == CliArgument::Unicode(long));
    assert(single[0] == CliArgument::Unicode(short));
    let action = if short@ == "-V"@ {
        CliAction::Version
    } else {
        CliAction::Help
    };
    let next = CliProgress { cli: Cli { action, ..start.cli }, ..start };
    assert(with_action(start, action) == Ok::<CliProgress, CliError>(next));
    assert("-V"@ != "--help"@ && "-V"@ != "-h"@ && "--version"@ != "--help"@
        && "--version"@ != "-h"@) by {
        assert("-V"@.len() != "--help"@.len());
        assert("-V"@[1] != "-h"@[1]);
        assert("--version"@.len() != "--help"@.len());
        assert("--version"@.len() != "-h"@.len());
    }
    assert(spec_parse_cli(a) == parse_from(a, 0, start));
    assert(spec_parse_cli(b) == parse_from(b, 0, start));
    assert(spec_parse_cli(single) == parse_from(single, 0, start));
    assert(spec_parse_cli(a) == parse_from(a, 1, next));
    assert(spec_parse_cli(b) == parse_from(b, 1, next));
    assert(spec_parse_cli(single) == parse_from(single, 1, next));
    lemma_parse_reads_only_the_rest(a, b, 1);
}

fn empty_argument(argument: &CliArgument) -> (empty: bool)
    ensures
        empty == argument_is_empty(*argument),
{
    match argument {
        CliArgument::Unicode(text) => crate::text::chars_of(text.as_str()).len() == 0,
        CliArgument::NonUnicode(bytes) => bytes.len() == 0,
    }
}

/// Takes the value of a path option from the front of the remaining arguments.
fn take_path(rest: &mut Vec<CliArgument>, option: &'static str) -> (value: Result<
    CliArgument,
    CliError,
>)
    ensures
        old(rest)@.len() == 0 ==> final(rest)@ == old(rest)@,
        old(rest)@.len() > 0 ==> final(rest)@ == old(rest)@.drop_first(),
        value == (if old(rest)@.len() == 0 || argument_is_empty(old(rest)@[0]) {
            Err::<CliArgument, CliError>(CliError::MissingValue(option))
        } else {
            Ok(old(rest)@[0])
        }),
{
    if rest.len() == 0 {
        return Err(CliError::MissingValue(option));
    }
    let value = rest.remove(0);
    assert(old(rest)@.remove(0) =~= old(rest)@.drop_first());
    if empty_argument(&value) {
        Err(CliError::MissingValue(option))
    } else {
        Ok(value)
    }
}

impl Cli {
    /// Selects a top-level action; only one may be selected.
    pub fn set_action(&mut self, action: CliAction) -> (result: Result<(), CliError>)
        ensures
            old(self).action != CliAction::Run ==> result == Err::<(), CliError>(
                CliError::ConflictingOptions,
            ) && *final(self) == *old(self),
            old(self).action == CliAction::Run ==> result is Ok && *final(self) == (Cli {
                action,
                ..*old(self)
            }),
    {
        if self.action != CliAction::Run {
            return Err(CliError::ConflictingOptions);
        }
        self.action = action;
        Ok(())
    }

    /// Parses command-line arguments (without the program name). A configuration that comes
    /// out never combines options that exclude each other.
    pub fn parse(arguments: Vec<CliArgument>) -> (parsed: Result<Cli, CliError>)
        ensures
            parsed == spec_parse_cli(arguments@),
            parsed matches Ok(cli) ==> cli_consistent(cli),
    {
        let ghost all = arguments@;
        let mut rest = arguments;
        let mut cli = Cli::default();
        let mut source_set = false;
        let mut screenshot_set = false;
        let mut profile_set = false;
        let mut script_set = false;
        let mut output_set = false;
        let ghost mut i: int = 0;
        while rest.len() > 0
            invariant
                0 <= i <= all.len(),
                all == arguments@,
                script_set <==> cli.automation_script is Some,
                cli.automation == AutomationMode::Scripted <==> script_set,
                rest@ == all.subrange(i, all.len() as int),
                spec_parse_cli(all) == parse_from(
                    all,
                    i,
                    CliProgress {
                        cli,
                        source_set,
                        screenshot_set,
                        profile_set,
                        script_set,
                        output_set,
                    },
                ),
            decreases rest.len(),
        {
            let argument = rest.remove(0);
            proof {
                assert(argument == all[i]);
                assert(rest@ =~= all.subrange(i + 1, all.len() as int));
            }
            let name = match argument {
                CliArgument::NonUnicode(bytes) => {
                    return Err(CliError::NonUnicode(bytes));
                },
                CliArgument::Unicode(text) => text,
            };
            if str_equals(name.as_str(), "--help") || str_equals(name.as_str(), "-h") {
                match cli.set_action(CliAction::Help) {
                    Ok(()) => {},
                    Err(e) => return Err(e),
                }
                proof { i = i + 1; }
            } else if str_equals(name.as_str(), "--version") || str_equals(name.as_str(), "-V") {
                match cli.set_action(CliAction::Version) {
                    Ok(()) => {},
                    Err(e) => return Err(e),
                }
                proof { i = i + 1; }
            } else if str_equals(name.as_str(), "--automation-check") {
                match cli.set_action(CliAction::AutomationCheck) {
                    Ok(()) => {},
                    Err(e) => return Err(e),
                }
                proof { i = i + 1; }
            } else if str_equals(name.as_str(), "--automation-exit") {
                if cli.automation != AutomationMode::Interactive {
                    return Err(CliError::DuplicateOption("--automation-exit"));
                }
                cli.automation = AutomationMode::ExitAfterLaunch;
                proof { i = i + 1; }
            } else if str_equals(name.as_str(), "--automation-script") {
                if script_set || cli.automation != AutomationMode::Interactive {
                    return Err(CliError::DuplicateOption("--automation-script"));
                }
                match take_path(&mut rest, "--automation-script") {
                    Err(e) => return Err(e),
                    Ok(value) => {
                        cli.automation_script = Some(value);
                    },
                }
                cli.automation = AutomationMode::Scripted;
                script_set = true;
                proof { i = i + 2; }
            } else if str_equals(name.as_str(), "--automation-output") {
                if output_set {
                    return Err(CliError::DuplicateOption("--automation-output"));
                }
                match take_path(&mut rest, "--automation-output") {
                    Err(e) => return Err(e),
                    Ok(value) => {
                        cli.automation_output = Some(value);
                    },
                }
                output_set = true;
                proof { i = i + 2; }
            } else if str_equals(name.as_str(), "--frame-source") {
                if source_set {
                    return Err(CliError::DuplicateOption("--frame-source"));
                }
                if rest.len() == 0 {
                    return Err(CliError::MissingValue("--frame-source"));
                }
                let next = rest.remove(0);
                let value = match next {
                    CliArgument::NonUnicode(bytes) => {
                        return Err(CliError::NonUnicode(bytes));
                    },
                    CliArgument::Unicode(value) => value,
                };
                match FrameSourceKind::parse(value.as_str()) {
                    None => {
                        return Err(CliError::InvalidFrameSource(value));
                    },
                    Some(kind) => {
                        cli.frame_source = kind;
                    },
                }
                source_set = true;
                proof { i = i + 2; }
            } else if str_equals(name.as_str(), "--screenshot") {
                if screenshot_set {
                    return Err(CliError::DuplicateOption("--screenshot"));
                }
                match take_path(&mut rest, "--screenshot") {
                    Err(e) => return Err(e),
                    Ok(value) => {
                        cli.screenshot = Some(value);
                    },
                }
                screenshot_set = true;
                proof { i = i + 2; }
            } else if str_equals(name.as_str(), "--profile-dir") {
                if profile_set {
                    return Err(CliError::DuplicateOption("--profile-dir"));
                }
                match take_path(&mut rest, "--profile-dir") {
                    Err(e) => return Err(e),
                    Ok(value) => {
                        cli.profile_directory = Some(value);
                    },
                }
                profile_set = true;
                proof { i = i + 2; }
            } else {
                return Err(CliError::UnknownArgument(name));
            }
            proof {
                assert(rest@ =~= all.subrange(i, all.len() as int));
            }
        }
        if cli.action != CliAction::Run && (cli.automation != AutomationMode::Interactive
            || cli.screenshot.is_some()) {
            return Err(CliError::ConflictingOptions);
        }
        if cli.automation_script.is_some() != cli.automation_output.is_some() || (cli.automation
            == AutomationMode::Scripted && cli.screenshot.is_some()) {
            return Err(CliError::ConflictingOptions);
        }
        Ok(cli)
    }

    /// Static usage text.
    pub fn help() -> (text: &'static str)
        ensures
            text@ == help_text(),
    {
        "Camlet native camera overlay\n\nUsage: camlet [OPTIONS]\n\nOptions:\n  --frame-source <real|synthetic>  Select the frame producer\n  --profile-dir <directory>       Override native settings directory\n  --screenshot <path.ppm>         Capture the native window over white and exit\n  --automation-check              Validate and exit without a window\n  --automation-exit               Open the window, then close automatically\n  --automation-script <file>      Run a validated unattended scenario\n  --automation-output <directory> Write scenario readiness/results here\n  -h, --help                      Print help\n  -V, --version                   Print version"
    }

    /// The requested top-level action.
    pub fn action(&self) -> (action: CliAction)
        ensures
            action == self.action,
    {
        self.action
    }

    /// The selected automation behavior.
    pub fn automation(&self) -> (mode: AutomationMode)
        ensures
            mode == self.automation,
    {
        self.automation
    }

    /// The selected frame source.
    pub fn frame_source(&self) -> (source: FrameSourceKind)
        ensures
            source == self.frame_source,
    {
        self.frame_source
    }

    /// The optional unattended screenshot destination.
    pub fn screenshot(&self) -> (path: Option<&CliArgument>)
        ensures
            path == match self.screenshot {
                Some(p) => Some(&p),
                None => None::<&CliArgument>,
            },
    {
        self.screenshot.as_ref()
    }

    /// The optional settings directory override used by tests and portable runs.
    pub fn profile_directory(&self) -> (path: Option<&CliArgument>)
        ensures
            path == match self.profile_directory {
                Some(p) => Some(&p),
                None => None::<&CliArgument>,
            },
    {
        self.profile_directory.as_ref()
    }

    /// The optional automation fixture.
    pub fn automation_script(&self) -> (path: Option<&CliArgument>)
        ensures
            path == match self.automation_script {
                Some(p) => Some(&p),
                None => None::<&CliArgument>,
            },
    {
        self.automation_script.as_ref()
    }

    /// The isolated automation artifact directory.
    pub fn automation_output(&self) -> (path: Option<&CliArgument>)
        ensures
            path == match self.automation_output {
                Some(p) => Some(&p),
                None => None::<&CliArgument>,
            },
    {
        self.automation_output.as_ref()
    }
}

/// The usage text.
pub open spec fn help_text() -> Seq<char> {
    "Camlet native camera overlay\n\nUsage: camlet [OPTIONS]\n\nOptions:\n  --frame-source <real|synthetic>  Select the frame producer\n  --profile-dir <directory>       Override native settings directory\n  --screenshot <path.ppm>         Capture the native window over white and exit\n  --automation-check              Validate and exit without a window\n  --automation-exit               Open the window, then close automatically\n  --automation-script <file>      Run a validated unattended scenario\n  --automation-output <directory> Write scenario readiness/results here\n  -h, --help                      Print help\n  -V, --version                   Print version"@
}

/// The message shown for a command-line error.
pub open spec fn spec_cli_error_message(error: CliError) -> Seq<char> {
    match error {
        CliError::NonUnicode(_) => "arguments must be valid Unicode"@,
        CliError::UnknownArgument(argument) => "unknown argument '"@ + argument@ + "'"@,
        CliError::MissingValue(option) => "missing value for "@ + option@,
        CliError::DuplicateOption(option) => option@ + " may only be used once"@,
        CliError::InvalidFrameSource(source) => "invalid frame source '"@ + source@
            + "'; expected real or synthetic"@,
        CliError::ConflictingOptions => "conflicting command options"@,
    }
}

impl CliError {
    /// The message shown for the error.
    pub fn message(&self) -> (text: String)
        ensures
            text@ == spec_cli_error_message(*self),
    {
        let mut text = String::new();
        match self {
            CliError::NonUnicode(_) => text.append("arguments must be valid Unicode"),
            CliError::UnknownArgument(argument) => {
                text.append("unknown argument '");
                text.append(argument.as_str());
                text.append("'");
            },
            CliError::MissingValue(option) => {
                text.append("missing value for ");
                text.append(option);
            },
            CliError::DuplicateOption(option) => {
                text.append(option);
                text.append(" may only be used once");
            },
            CliError::InvalidFrameSource(source) => {
                text.append("invalid frame source '");
                text.append(source.as_str());
                text.append("'; expected real or synthetic");
            },
            CliError::ConflictingOptions => text.append("conflicting command options"),
        }
        text
    }
}

} // verus!
