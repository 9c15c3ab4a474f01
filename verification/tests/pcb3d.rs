use pcb_render::pcb3d::{
    BOARDS_DIR, BOUNDS_TOML, COMPONENTS_DIR, LAYERS_DIR, PADS_DIR, PCB_WRL, STACKUP_TOML,
};
use pcb_render::{LayoutRenderResult, RenderOptions};
use std::path::PathBuf;

#[test]
fn archive_names() {
    assert_eq!(PCB_WRL, "pcb.wrl");
    assert_eq!(COMPONENTS_DIR, "components");
    assert_eq!(LAYERS_DIR, "layers");
    assert_eq!(BOARDS_DIR, "boards");
    assert_eq!(PADS_DIR, "pads");
    assert_eq!(BOUNDS_TOML, "bounds.toml");
    assert_eq!(STACKUP_TOML, "stackup.toml");
}

#[test]
fn plain_option_types() {
    let o = RenderOptions { no_open: true };
    assert!(o.no_open);
    let r = LayoutRenderResult {
        source_file: PathBuf::from("a.zen"),
        pcb_file: PathBuf::from("layout/layout.kicad_pcb"),
        output_path: PathBuf::from("a.pcb3d"),
    };
    assert_eq!(r.output_path.extension().unwrap(), "pcb3d");
    assert_eq!(r.source_file, PathBuf::from("a.zen"));
    assert_eq!(r.pcb_file.file_name().unwrap(), "layout.kicad_pcb");
}
