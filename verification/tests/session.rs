use std::path::PathBuf;
use pcb_render::session::{
    check_inputs, no_sources_message, output_path, summary_message, FileAction, InputError, LayoutOutcome,
    RenderSession, RunSummary, NOTHING_RENDERED_MESSAGE, OUTPUT_WITH_MULTIPLE_INPUTS_MESSAGE,
    PCB3D_EXTENSION, RENDER_FAILED_MESSAGE,
};

#[test]
fn inputs_are_checked() {
    assert_eq!(check_inputs(0, false), Err(InputError::NoSources));
    assert_eq!(check_inputs(0, true), Err(InputError::NoSources));
    assert_eq!(check_inputs(2, true), Err(InputError::OutputWithMultipleInputs));
    assert_eq!(check_inputs(1, true), Ok(()));
    assert_eq!(check_inputs(3, false), Ok(()));
}

#[test]
fn messages() {
    assert_eq!(no_sources_message("/work"), "No .zen source files found in /work");
    assert_eq!(OUTPUT_WITH_MULTIPLE_INPUTS_MESSAGE, "Cannot specify --output with multiple input files");
    assert_eq!(RENDER_FAILED_MESSAGE, "Rendering failed with errors");
    assert_eq!(NOTHING_RENDERED_MESSAGE, "No files with layouts found to render.");
    assert_eq!(PCB3D_EXTENSION, "pcb3d");
}

#[test]
fn summary_messages_count_files() {
    assert_eq!(summary_message(1), "Successfully rendered 1 file.");
    assert_eq!(summary_message(2), "Successfully rendered 2 files.");
    assert_eq!(summary_message(0), "Successfully rendered 0 files.");
    assert_eq!(summary_message(12), "Successfully rendered 12 files.");
}

#[test]
fn layout_outcomes_decide_the_file() {
    let mut s = RenderSession::new();
    assert_eq!(s.record_layout(LayoutOutcome::Ready), FileAction::Render);
    assert_eq!(s.record_layout(LayoutOutcome::NoLayout), FileAction::SkipNoLayout);
    assert!(!s.has_errors());
    assert_eq!(s.finish(), RunSummary::NothingRendered);
    assert_eq!(s.record_layout(LayoutOutcome::Failed), FileAction::SkipFailed);
    assert!(s.has_errors());
    assert_eq!(s.finish(), RunSummary::Failed);
}

#[test]
fn renders_are_counted_and_opened_unless_asked_not_to() {
    let mut s = RenderSession::new();
    assert!(s.record_render(true, false));
    assert!(!s.record_render(true, true));
    assert_eq!(s.rendered_count(), 2);
    assert_eq!(s.finish(), RunSummary::Rendered(2));
    assert!(!s.record_render(false, false));
    assert!(s.has_errors());
    assert_eq!(s.rendered_count(), 2);
    assert_eq!(s.finish(), RunSummary::Failed);
}

#[test]
fn an_error_is_never_forgotten() {
    let mut s = RenderSession::new();
    s.record_build(true);
    s.record_build(false);
    s.record_layout(LayoutOutcome::Ready);
    s.record_render(true, true);
    assert!(s.has_errors());
    assert_eq!(s.finish(), RunSummary::Failed);
}

#[test]
fn a_clean_run_reports_its_count() {
    let mut s = RenderSession::new();
    for _ in 0..3 {
        s.record_build(false);
        assert_eq!(s.record_layout(LayoutOutcome::Ready), FileAction::Render);
        s.record_render(true, true);
    }
    s.record_build(false);
    s.record_layout(LayoutOutcome::NoLayout);
    assert_eq!(s.finish(), RunSummary::Rendered(3));
}

#[test]
fn archive_goes_to_given_path_or_beside_source() {
    let beside = PathBuf::from("boards/simple.zen").with_extension(PCB3D_EXTENSION);
    assert_eq!(output_path(None, beside.clone()), PathBuf::from("boards/simple.pcb3d"));
    assert_eq!(
        output_path(Some(PathBuf::from("custom_output.pcb3d")), beside),
        PathBuf::from("custom_output.pcb3d")
    );
}
