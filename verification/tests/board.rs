use pcb_render::board::{
    Bounds, DrillShape, Pad, PadFabType, PadShape, PadType, StackedBoard, Stackup,
};
use pcb_render::decimal::Fixed6;

fn fin(negative: bool, whole: u128, micros: u32) -> Fixed6 {
    Fixed6::Finite { negative, whole, micros }
}

#[test]
fn bounds_toml_matches_float_formatting() {
    let b = Bounds {
        top_left: (fin(false, 100, 0), fin(true, 2, 500_000)),
        size: (fin(false, 50, 250_000), fin(false, 0, 125_000)),
    };
    let expected = format!(
        "top_left = [ {:.6}, {:.6} ]\nsize = [ {:.6}, {:.6} ]",
        100.0f32, -2.5f32, 50.25f32, 0.125f32
    );
    assert_eq!(b.to_toml(), expected);
    assert_eq!(
        b.to_toml(),
        "top_left = [ 100.000000, -2.500000 ]\nsize = [ 50.250000, 0.125000 ]"
    );
}

#[test]
fn default_stackup_toml() {
    let s = Stackup::default();
    assert_eq!(
        s.to_toml(),
        "thickness_mm = 1.600000\nmask_color = \"GREEN\"\nmask_color_custom = [ 0.000000, 0.000000, 0.000000 ]\nsilks_color = \"WHITE\"\nsilks_color_custom = [ 0.000000, 0.000000, 0.000000 ]\nsurface_finish = \"HASL\""
    );
}

#[test]
fn custom_stackup_toml() {
    let s = Stackup {
        thickness_mm: fin(false, 0, 800_000),
        mask_color: "CUSTOM".to_string(),
        mask_color_custom: (fin(false, 0, 100_000), fin(false, 0, 200_000), fin(false, 0, 300_000)),
        silks_color: "BLACK".to_string(),
        silks_color_custom: (fin(false, 1, 0), fin(false, 0, 0), fin(false, 0, 500_000)),
        surface_finish: "ENIG".to_string(),
    };
    let expected = format!(
        "thickness_mm = {:.6}\nmask_color = \"{}\"\nmask_color_custom = [ {:.6}, {:.6}, {:.6} ]\nsilks_color = \"{}\"\nsilks_color_custom = [ {:.6}, {:.6}, {:.6} ]\nsurface_finish = \"{}\"",
        0.8f32, "CUSTOM", 0.1f32, 0.2f32, 0.3f32, "BLACK", 1.0f32, 0.0f32, 0.5f32, "ENIG"
    );
    assert_eq!(s.to_toml(), expected);
}

#[test]
fn pad_toml() {
    let p = Pad {
        position: (fin(false, 1, 500_000), fin(true, 3, 0)),
        is_flipped: true,
        has_model: false,
        is_tht_or_smd: true,
        has_paste: false,
        pad_type: PadType::Smd,
        shape: PadShape::RoundRect,
        size: (fin(false, 0, 600_000), fin(false, 0, 900_000)),
        rotation: fin(false, 1, 570_796),
        roundness: fin(false, 0, 250_000),
        drill_shape: DrillShape::Circular,
        drill_size: (fin(false, 0, 0), fin(false, 0, 0)),
        fab_type: PadFabType::NoProperty,
    };
    let expected = "position = [ 1.500000, -3.000000 ]\nis_flipped = true\nhas_model = false\nis_tht_or_smd = true\nhas_paste = false\npad_type = \"Smd\"\nshape = \"RoundRect\"\nsize = [ 0.600000, 0.900000 ]\nrotation = 1.570796\nroundness = 0.250000\ndrill_shape = \"Circular\"\ndrill_size = [ 0.000000, 0.000000 ]\nfab_type = \"None\"";
    assert_eq!(p.to_toml(), expected);
}

#[test]
fn stacked_board_toml() {
    let s = StackedBoard { offset: (fin(false, 0, 0), fin(true, 10, 0), fin(false, 1, 600_000)) };
    assert_eq!(s.to_toml(), "offset = [ 0.000000, -10.000000, 1.600000 ]");
}

#[test]
fn enum_labels() {
    assert_eq!(PadType::Unknown.label(), "Unknown");
    assert_eq!(PadType::Tht.label(), "Tht");
    assert_eq!(PadType::Npth.label(), "Npth");
    assert_eq!(PadShape::ChamferedRect.label(), "ChamferedRect");
    assert_eq!(PadShape::Trapezoid.label(), "Trapezoid");
    assert_eq!(DrillShape::Oval.label(), "Oval");
    assert_eq!(PadFabType::NoProperty.label(), "None");
    assert_eq!(PadFabType::TestPoint.label(), "TestPoint");
    assert_eq!(PadFabType::Castellated.label(), "Castellated");
}
