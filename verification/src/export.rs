//! Running the KiCad exporter: where its interpreter and modules are, and what
//! to do with each thing it reports.
//!
//! The export is a short exchange with the outside world. The caller runs the
//! exporter script, looks for its result file, reads it, perhaps keeps a copy
//! for debugging, and parses it. [`export_step`] decides, after each of these,
//! what is reported on the error stream and what happens next.

use vstd::prelude::*;

verus! {

/// The operating systems that KiCad's Python environment is known on.
#[derive(Clone, Copy, Debug, PartialEq, Eq)]
pub enum TargetOs {
    MacOs,
    Windows,
    Linux,
}

/// The environment variable that names the Python interpreter to run.
pub const PYTHON_INTERPRETER_VAR: &'static str = "KICAD_PYTHON_INTERPRETER";

/// The environment variable that names KiCad's Python module directory.
pub const SITE_PACKAGES_VAR: &'static str = "KICAD_PYTHON_SITE_PACKAGES";

/// The environment variable that asks for the exporter's diagnostics and a copy
/// of its result.
pub const DEBUG_VAR: &'static str = "PCB_RENDER_DEBUG";

/// The file name of the exporter script inside the working directory.
pub const SCRIPT_FILE: &'static str = "export_pcb3d.py";

/// The file name of the exporter's result inside the working directory.
pub const RESULT_FILE: &'static str = "export_result.json";

/// Where the debugging copy goes when the debug variable is `1` or `true`.
pub const DEFAULT_DEBUG_JSON: &'static str = "/tmp/pcb_render_debug.json";

/// The interpreter that KiCad ships on each system.
pub open spec fn default_interpreter(os: TargetOs) -> Seq<char> {
    match os {
        TargetOs::MacOs => "/Applications/KiCad/KiCad.app/Contents/Frameworks/Python.framework/Versions/Current/bin/python3"@,
        TargetOs::Windows => "C:\\Program Files\\KiCad\\9.0\\bin\\python.exe"@,
        TargetOs::Linux => "/usr/bin/python3"@,
    }
}

/// The Python interpreter to run: the one the environment names, else KiCad's.
pub fn python_interpreter(os: TargetOs, from_env: Option<String>) -> (p: String)
    ensures
        p@ == match from_env {
            Some(v) => v@,
            None => default_interpreter(os),
        },
{
    match from_env {
        Some(v) => v,
        None => match os {
            TargetOs::MacOs => "/Applications/KiCad/KiCad.app/Contents/Frameworks/Python.framework/Versions/Current/bin/python3".to_owned(),
            TargetOs::Windows => "C:\\Program Files\\KiCad\\9.0\\bin\\python.exe".to_owned(),
            TargetOs::Linux => "/usr/bin/python3".to_owned(),
        },
    }
}

/// The path components, below the user's home directory, of KiCad's Python
/// modules on Windows.
pub open spec fn windows_site_packages_components() -> Seq<Seq<char>> {
    seq!["Documents"@, "KiCad"@, "9.0"@, "3rdparty"@, "Python311"@, "site-packages"@]
}

/// The path components, below the user's home directory, of KiCad's Python
/// modules on Windows.
pub fn windows_site_packages_parts() -> (v: Vec<&'static str>)
    ensures
        v@.map_values(|s: &'static str| s@) == windows_site_packages_components(),
{
    let v = vec!["Documents", "KiCad", "9.0", "3rdparty", "Python311", "site-packages"];
    assert(v@.map_values(|s: &'static str| s@) =~= windows_site_packages_components());
    v
}

/// KiCad's Python module directory on macOS and Linux; on Windows it lies
/// under the user's home directory.
pub open spec fn default_site_packages(os: TargetOs, windows_default: Seq<char>) -> Seq<char> {
    match os {
        TargetOs::MacOs => "/Applications/KiCad/KiCad.app/Contents/Frameworks/Python.framework/Versions/Current/lib/python3.9/site-packages"@,
        TargetOs::Windows => windows_default,
        TargetOs::Linux => "/usr/lib/python3/dist-packages"@,
    }
}

/// The module path to give the interpreter: the one the environment names,
/// else KiCad's. `windows_default` is the Windows directory, made from the home
/// directory and [`windows_site_packages_parts`].
pub fn kicad_python_path(os: TargetOs, from_env: Option<String>, windows_default: String) -> (p:
    String)
    ensures
        p@ == match from_env {
            Some(v) => v@,
            None => default_site_packages(os, windows_default@),
        },
{
    match from_env {
        Some(v) => v,
        None => match os {
            TargetOs::MacOs => "/Applications/KiCad/KiCad.app/Contents/Frameworks/Python.framework/Versions/Current/lib/python3.9/site-packages".to_owned(),
            TargetOs::Windows => windows_default,
            TargetOs::Linux => "/usr/lib/python3/dist-packages".to_owned(),
        },
    }
}

/// Where the debugging copy of the result goes, given the debug variable's value.
pub open spec fn debug_json_target(value: Seq<char>) -> Seq<char> {
    if value == "1"@ || value == "true"@ {
        DEFAULT_DEBUG_JSON@
    } else {
        value
    }
}

/// Where the debugging copy of the result goes, given the debug variable's value.
pub fn debug_json_path(value: &str) -> (p: String)
    ensures
        p@ == debug_json_target(value@),
{
    let v = value.to_owned();
    let one = "1".to_owned();
    let yes = "true".to_owned();
    if v == one || v == yes {
        DEFAULT_DEBUG_JSON.to_owned()
    } else {
        v
    }
}

/// Where the export stands.
pub enum ExportState {
    /// The script is running.
    Running,
    /// The script succeeded; its standard output is kept for a later report.
    Checking { stdout: String },
    /// The result file is being read.
    Reading,
    /// The debugging copy is being written.
    Saving,
    /// The result is being parsed.
    Parsing,
    /// The export has failed.
    Stopped,
}

/// What the caller has just learnt.
pub enum ExportEvent {
    /// The script ended; its output streams, and whether debugging was asked for.
    ScriptFinished { success: bool, stderr: String, stdout: String, debug_requested: bool },
    /// Whether the result file exists.
    ResultChecked { exists: bool },
    /// The result was read; the debug variable's value, if it is set.
    ResultRead { debug_value: Option<String> },
    /// The debugging copy was written.
    DebugSaved,
}

/// What the caller is to do next.
pub enum ExportAction {
    /// Look for the result file.
    CheckResultFile,
    /// Read the result file.
    ReadResultFile,
    /// Write the result, as read, to this path.
    SaveDebugJson(String),
    /// Parse the result.
    ParseResult,
    /// Give up with this message.
    Fail(String),
}

/// The outcome of one step: lines for the error stream, the next action and state.
pub struct ExportStep {
    pub report: Vec<String>,
    pub action: ExportAction,
    pub next: ExportState,
}

/// [`ExportAction`] with its strings as character sequences.
pub enum ActionView {
    CheckResultFile,
    ReadResultFile,
    SaveDebugJson(Seq<char>),
    ParseResult,
    Fail(Seq<char>),
}

/// [`ExportState`] with its strings as character sequences.
pub enum StateView {
    Running,
    Checking(Seq<char>),
    Reading,
    Saving,
    Parsing,
    Stopped,
}

impl View for ExportAction {
    type V = ActionView;

    open spec fn view(&self) -> ActionView {
        match self {
            ExportAction::CheckResultFile => ActionView::CheckResultFile,
            ExportAction::ReadResultFile => ActionView::ReadResultFile,
            ExportAction::SaveDebugJson(p) => ActionView::SaveDebugJson(p@),
            ExportAction::ParseResult => ActionView::ParseResult,
            ExportAction::Fail(m) => ActionView::Fail(m@),
        }
    }
}

impl View for ExportState {
    type V = StateView;

    open spec fn view(&self) -> StateView {
        match self {
            ExportState::Running => StateView::Running,
            ExportState::Checking { stdout } => StateView::Checking(stdout@),
            ExportState::Reading => StateView::Reading,
            ExportState::Saving => StateView::Saving,
            ExportState::Parsing => StateView::Parsing,
            ExportState::Stopped => StateView::Stopped,
        }
    }
}

/// Whether an event is one that can follow the given state.
pub open spec fn event_fits(state: ExportState, event: ExportEvent) -> bool {
    match (state, event) {
        (ExportState::Running, ExportEvent::ScriptFinished { .. }) => true,
        (ExportState::Checking { .. }, ExportEvent::ResultChecked { .. }) => true,
        (ExportState::Reading, ExportEvent::ResultRead { .. }) => true,
        (ExportState::Saving, ExportEvent::DebugSaved) => true,
        _ => false,
    }
}

/// The report of the script's error stream: shown when there is something in it
/// and the script failed or debugging was asked for.
pub open spec fn stderr_report(success: bool, stderr: Seq<char>, debug_requested: bool) -> Seq<
    Seq<char>,
> {
    if stderr.len() > 0 && (!success || debug_requested) {
        seq!["Python script output:\n"@ + stderr]
    } else {
        Seq::empty()
    }
}

/// The report of the script's standard output.
pub open spec fn stdout_report(stdout: Seq<char>) -> Seq<char> {
    "Python stdout: "@ + stdout
}

/// The message when the script fails.
pub open spec fn script_failed_message(stderr: Seq<char>) -> Seq<char> {
    "Python export failed: "@ + stderr
}

/// The message when the script leaves no result file.
pub open spec fn missing_result_message() -> Seq<char> {
    "Export result file not created. Check Python output above."@
}

/// The report, action and next state after an event.
pub open spec fn export_transition(state: ExportState, event: ExportEvent) -> (
    Seq<Seq<char>>,
    ActionView,
    StateView,
) {
    match event {
        ExportEvent::ScriptFinished { success, stderr, stdout, debug_requested } => {
            let shown = stderr_report(success, stderr@, debug_requested);
            if success {
                (shown, ActionView::CheckResultFile, StateView::Checking(stdout@))
            } else {
                (
                    shown.push(stdout_report(stdout@)),
                    ActionView::Fail(script_failed_message(stderr@)),
                    StateView::Stopped,
                )
            }
        },
        ExportEvent::ResultChecked { exists } => {
            let stdout = match state {
                ExportState::Checking { stdout } => stdout@,
                _ => Seq::empty(),
            };
            if exists {
                (Seq::empty(), ActionView::ReadResultFile, StateView::Reading)
            } else {
                (
                    seq![stdout_report(stdout)],
                    ActionView::Fail(missing_result_message()),
                    StateView::Stopped,
                )
            }
        },
        ExportEvent::ResultRead { debug_value } => match debug_value {
            Some(v) => (
                Seq::empty(),
                ActionView::SaveDebugJson(debug_json_target(v@)),
                StateView::Saving,
            ),
            None => (Seq::empty(), ActionView::ParseResult, StateView::Parsing),
        },
        ExportEvent::DebugSaved => (Seq::empty(), ActionView::ParseResult, StateView::Parsing),
    }
}

/// Joins two strings.
fn join2(a: &str, b: &str) -> (s: String)
    ensures
        s@ == a@ + b@,
{
    let mut s = a.to_owned();
    s.append(b);
    s
}

/// Decides what follows an event of the export.
pub fn export_step(state: ExportState, event: ExportEvent) -> (step: ExportStep)
    requires
        event_fits(state, event),
    ensures
        (step.report@.map_values(|s: String| s@), step.action@, step.next@) == export_transition(
            state,
            event,
        ),
{
    let ghost st = state;
    let ghost ev = event;
    let mut report: Vec<String> = Vec::new();
    match event {
        ExportEvent::ScriptFinished { success, stderr, stdout, debug_requested } => {
            if !stderr.as_str().is_empty() && (!success || debug_requested) {
                report.push(join2("Python script output:\n", stderr.as_str()));
            }
            assert(report@.map_values(|s: String| s@) =~= stderr_report(
                success,
                stderr@,
                debug_requested,
            ));
            if success {
                ExportStep {
                    report,
                    action: ExportAction::CheckResultFile,
                    next: ExportState::Checking { stdout },
                }
            } else {
                report.push(join2("Python stdout: ", stdout.as_str()));
                assert(report@.map_values(|s: String| s@) =~= stderr_report(
                    success,
                    stderr@,
                    debug_requested,
                ).push(stdout_report(stdout@)));
                ExportStep {
                    report,
                    action: ExportAction::Fail(join2("Python export failed: ", stderr.as_str())),
                    next: ExportState::Stopped,
                }
            }
        },
        ExportEvent::ResultChecked { exists } => {
            if exists {
                assert(report@.map_values(|s: String| s@) =~= Seq::<Seq<char>>::empty());
                ExportStep {
                    report,
                    action: ExportAction::ReadResultFile,
                    next: ExportState::Reading,
                }
            } else {
                let stdout = match state {
                    ExportState::Checking { stdout } => stdout,
                    _ => String::new(),
                };
                report.push(join2("Python stdout: ", stdout.as_str()));
                assert(report@.map_values(|s: String| s@) =~= seq![stdout_report(stdout@)]);
                ExportStep {
                    report,
                    action: ExportAction::Fail(
                        "Export result file not created. Check Python output above.".to_owned(),
                    ),
                    next: ExportState::Stopped,
                }
            }
        },
        ExportEvent::ResultRead { debug_value } => {
            assert(report@.map_values(|s: String| s@) =~= Seq::<Seq<char>>::empty());
            match debug_value {
                Some(v) => ExportStep {
                    report,
                    action: ExportAction::SaveDebugJson(debug_json_path(v.as_str())),
                    next: ExportState::Saving,
                },
                None => ExportStep {
                    report,
                    action: ExportAction::ParseResult,
                    next: ExportState::Parsing,
                },
            }
        },
        ExportEvent::DebugSaved => {
            assert(report@.map_values(|s: String| s@) =~= Seq::<Seq<char>>::empty());
            ExportStep { report, action: ExportAction::ParseResult, next: ExportState::Parsing }
        },
    }
}


/// A failed script ends the export: the caller is told to fail with the
/// script's error output, and a stopped export accepts no further event, so
/// nothing is read or parsed after a failure.
pub proof fn lemma_failure_is_final(
    stderr: String,
    stdout: String,
    debug_requested: bool,
    later: ExportEvent,
)
    ensures
        export_transition(
            ExportState::Running,
            ExportEvent::ScriptFinished { success: false, stderr, stdout, debug_requested },
        ).1 == ActionView::Fail(script_failed_message(stderr@)),
        export_transition(
            ExportState::Running,
            ExportEvent::ScriptFinished { success: false, stderr, stdout, debug_requested },
        ).2 == StateView::Stopped,
        !event_fits(ExportState::Stopped, later),
{
}

/// The result is parsed only after it was read: the parse action comes only
/// from the reading or saving states.
pub proof fn lemma_parse_follows_read(state: ExportState, event: ExportEvent)
    requires
        event_fits(state, event),
        export_transition(state, event).1 == ActionView::ParseResult,
    ensures
        state is Reading || state is Saving,
{
}

} // verus!
