use pcb_render::names::{file_extension, has_extension};
use std::path::Path;

#[test]
fn extensions_of_file_names() {
    assert_eq!(file_extension("pcb.wrl"), Some("wrl".to_string()));
    assert_eq!(file_extension("a.b.svg"), Some("svg".to_string()));
    assert_eq!(file_extension("noext"), None);
    assert_eq!(file_extension(".wrl"), None);
    assert_eq!(file_extension("a."), Some(String::new()));
    assert_eq!(file_extension("..svg"), Some("svg".to_string()));
    assert_eq!(file_extension(""), None);
}

#[test]
fn extensions_agree_with_paths() {
    for name in ["pcb.wrl", "a.b.svg", "noext", ".wrl", "a.", "..svg", "R1.WRL", "x.wrl.bak", "ü.svg"] {
        let expected = Path::new(name).extension().map(|e| e.to_str().unwrap().to_string());
        assert_eq!(file_extension(name), expected, "{}", name);
        assert_eq!(has_extension(name, "wrl"), Path::new(name).extension().and_then(|e| e.to_str()) == Some("wrl"));
    }
}

#[test]
fn has_extension_is_exact() {
    assert!(has_extension("R1.wrl", "wrl"));
    assert!(!has_extension("R1.WRL", "wrl"));
    assert!(!has_extension(".wrl", "wrl"));
    assert!(!has_extension("R1.wrl.bak", "wrl"));
    assert!(has_extension("F.Cu.svg", "svg"));
}
