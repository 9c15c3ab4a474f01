use pcb_render::export::{
    debug_json_path, export_step, kicad_python_path, python_interpreter,
    windows_site_packages_parts, ExportAction, ExportEvent, ExportState, TargetOs,
};

fn finished(success: bool, stderr: &str, stdout: &str, debug: bool) -> ExportEvent {
    ExportEvent::ScriptFinished {
        success,
        stderr: stderr.to_string(),
        stdout: stdout.to_string(),
        debug_requested: debug,
    }
}

#[test]
fn interpreter_defaults_and_override() {
    assert_eq!(python_interpreter(TargetOs::Linux, None), "/usr/bin/python3");
    assert_eq!(python_interpreter(TargetOs::Windows, None), r"C:\Program Files\KiCad\9.0\bin\python.exe");
    assert_eq!(
        python_interpreter(TargetOs::MacOs, None),
        "/Applications/KiCad/KiCad.app/Contents/Frameworks/Python.framework/Versions/Current/bin/python3"
    );
    assert_eq!(python_interpreter(TargetOs::Linux, Some("/opt/py".to_string())), "/opt/py");
}

#[test]
fn site_packages_defaults_and_override() {
    assert_eq!(kicad_python_path(TargetOs::Linux, None, String::new()), "/usr/lib/python3/dist-packages");
    assert_eq!(
        kicad_python_path(TargetOs::MacOs, None, String::new()),
        "/Applications/KiCad/KiCad.app/Contents/Frameworks/Python.framework/Versions/Current/lib/python3.9/site-packages"
    );
    assert_eq!(kicad_python_path(TargetOs::Windows, None, "H\\site".to_string()), "H\\site");
    assert_eq!(kicad_python_path(TargetOs::Windows, Some("E".to_string()), "H".to_string()), "E");
    assert_eq!(
        windows_site_packages_parts(),
        vec!["Documents", "KiCad", "9.0", "3rdparty", "Python311", "site-packages"]
    );
}

#[test]
fn debug_json_targets() {
    assert_eq!(debug_json_path("1"), "/tmp/pcb_render_debug.json");
    assert_eq!(debug_json_path("true"), "/tmp/pcb_render_debug.json");
    assert_eq!(debug_json_path("TRUE"), "TRUE");
    assert_eq!(debug_json_path("/var/tmp/out.json"), "/var/tmp/out.json");
    assert_eq!(debug_json_path(""), "");
}

#[test]
fn failed_script_reports_and_fails() {
    let step = export_step(ExportState::Running, finished(false, "boom", "out", false));
    assert_eq!(step.report, vec!["Python script output:\nboom".to_string(), "Python stdout: out".to_string()]);
    assert!(matches!(step.action, ExportAction::Fail(ref m) if m == "Python export failed: boom"));
    assert!(matches!(step.next, ExportState::Stopped));
}

#[test]
fn failed_silent_script_reports_stdout_only() {
    let step = export_step(ExportState::Running, finished(false, "", "", true));
    assert_eq!(step.report, vec!["Python stdout: ".to_string()]);
    assert!(matches!(step.action, ExportAction::Fail(ref m) if m == "Python export failed: "));
}

#[test]
fn successful_script_shows_stderr_only_when_debugging() {
    let quiet = export_step(ExportState::Running, finished(true, "warning", "o", false));
    assert!(quiet.report.is_empty());
    assert!(matches!(quiet.action, ExportAction::CheckResultFile));
    assert!(matches!(quiet.next, ExportState::Checking { ref stdout } if stdout == "o"));
    let loud = export_step(ExportState::Running, finished(true, "warning", "o", true));
    assert_eq!(loud.report, vec!["Python script output:\nwarning".to_string()]);
}

#[test]
fn missing_result_file_fails() {
    let state = ExportState::Checking { stdout: "printed".to_string() };
    let step = export_step(state, ExportEvent::ResultChecked { exists: false });
    assert_eq!(step.report, vec!["Python stdout: printed".to_string()]);
    assert!(matches!(
        step.action,
        ExportAction::Fail(ref m) if m == "Export result file not created. Check Python output above."
    ));
    let state = ExportState::Checking { stdout: String::new() };
    let step = export_step(state, ExportEvent::ResultChecked { exists: true });
    assert!(step.report.is_empty());
    assert!(matches!(step.action, ExportAction::ReadResultFile));
    assert!(matches!(step.next, ExportState::Reading));
}

#[test]
fn result_read_saves_debug_copy_then_parses() {
    let step = export_step(ExportState::Reading, ExportEvent::ResultRead { debug_value: Some("1".to_string()) });
    assert!(matches!(step.action, ExportAction::SaveDebugJson(ref p) if p == "/tmp/pcb_render_debug.json"));
    assert!(matches!(step.next, ExportState::Saving));
    let step = export_step(ExportState::Saving, ExportEvent::DebugSaved);
    assert!(matches!(step.action, ExportAction::ParseResult));
    assert!(matches!(step.next, ExportState::Parsing));
    let step = export_step(ExportState::Reading, ExportEvent::ResultRead { debug_value: None });
    assert!(matches!(step.action, ExportAction::ParseResult));
    assert!(step.report.is_empty());
}
