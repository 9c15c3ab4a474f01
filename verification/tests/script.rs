use pcb_render::script::{create_export_script, EXPORT_SCRIPT};

#[test]
fn export_script_text() {
    let s = create_export_script();
    assert_eq!(s, EXPORT_SCRIPT);
    assert!(s.contains("export_result.json"));
    assert!(s.contains("import pcbnew"));
    for key in ["wrl_path", "components_dir", "layers_dir", "bounds", "stackup", "boards", "pads"] {
        assert!(s.contains(&format!("\"{}\"", key)), "{}", key);
    }
}
