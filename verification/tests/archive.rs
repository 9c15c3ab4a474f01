use pcb_render::archive::{
    archive_entries, archive_head, component_entries, layer_entries, listing_entries,
    metadata_entries, ArchiveEntry, BoardExport, EntrySource, PythonExportResult,
};
use pcb_render::board::{
    Bounds, DrillShape, Pad, PadFabType, PadShape, PadType, StackedBoard, Stackup,
};
use pcb_render::decimal::Fixed6;
use std::collections::HashSet;

fn fin(whole: u128) -> Fixed6 {
    Fixed6::Finite { negative: false, whole, micros: 0 }
}

fn bounds(w: u128) -> Bounds {
    Bounds { top_left: (fin(0), fin(0)), size: (fin(w), fin(w)) }
}

fn pad() -> Pad {
    Pad {
        position: (fin(1), fin(2)),
        is_flipped: false,
        has_model: true,
        is_tht_or_smd: true,
        has_paste: true,
        pad_type: PadType::Tht,
        shape: PadShape::Circle,
        size: (fin(1), fin(1)),
        rotation: fin(0),
        roundness: fin(0),
        drill_shape: DrillShape::Circular,
        drill_size: (fin(0), fin(0)),
        fab_type: PadFabType::Bga,
    }
}

fn export() -> PythonExportResult {
    PythonExportResult {
        wrl_path: "/tmp/x/pcb.wrl".to_string(),
        components_dir: "/tmp/x/components".to_string(),
        layers_dir: "/tmp/x/layers".to_string(),
        bounds: bounds(100),
        stackup: Stackup::default(),
        boards: vec![(
            "main".to_string(),
            BoardExport {
                bounds: bounds(50),
                stacked_boards: vec![(
                    "daughter".to_string(),
                    StackedBoard { offset: (fin(0), fin(0), fin(5)) },
                )],
            },
        )],
        pads: vec![("R1-1".to_string(), pad()), ("R1-2".to_string(), pad())],
    }
}

fn name(e: &ArchiveEntry) -> &str {
    match e {
        ArchiveEntry::Directory(n) => n,
        ArchiveEntry::File(n, _) => n,
    }
}

fn names(v: &[String]) -> Vec<String> {
    v.to_vec()
}

#[test]
fn head_holds_model_and_directories() {
    let e = export();
    let head = archive_head(&e);
    assert_eq!(
        head,
        vec![
            ArchiveEntry::File("pcb.wrl".to_string(), EntrySource::Path("/tmp/x/pcb.wrl".to_string())),
            ArchiveEntry::Directory("components/".to_string()),
            ArchiveEntry::Directory("layers/".to_string()),
            ArchiveEntry::Directory("boards/".to_string()),
            ArchiveEntry::Directory("pads/".to_string()),
        ]
    );
}

#[test]
fn listing_keeps_only_the_extension_in_order() {
    let e = export();
    let listing = names(&[
        "R2.wrl".to_string(),
        "notes.txt".to_string(),
        ".wrl".to_string(),
        "C1.wrl".to_string(),
        "C1.WRL".to_string(),
    ]);
    let v = component_entries(&e, &listing);
    assert_eq!(
        v,
        vec![
            ArchiveEntry::File(
                "components/R2.wrl".to_string(),
                EntrySource::InDir("/tmp/x/components".to_string(), "R2.wrl".to_string())
            ),
            ArchiveEntry::File(
                "components/C1.wrl".to_string(),
                EntrySource::InDir("/tmp/x/components".to_string(), "C1.wrl".to_string())
            ),
        ]
    );
    let layers = layer_entries(&e, &names(&["F.Cu.svg".to_string(), "F.Cu.png".to_string()]));
    assert_eq!(
        layers,
        vec![ArchiveEntry::File(
            "layers/F.Cu.svg".to_string(),
            EntrySource::InDir("/tmp/x/layers".to_string(), "F.Cu.svg".to_string())
        )]
    );
    assert!(listing_entries("d", "s", &Vec::new(), "wrl").is_empty());
}

#[test]
fn metadata_describes_design_boards_and_pads() {
    let e = export();
    let v = metadata_entries(&e);
    let got: Vec<&str> = v.iter().map(name).collect();
    assert_eq!(
        got,
        vec![
            "layers/bounds.toml",
            "layers/stackup.toml",
            "boards/main/",
            "boards/main/bounds.toml",
            "boards/main/stacked_daughter.toml",
            "pads/R1-1.toml",
            "pads/R1-2.toml",
        ]
    );
    assert_eq!(v[0], ArchiveEntry::File("layers/bounds.toml".to_string(), EntrySource::Text(e.bounds.to_toml())));
    assert_eq!(v[1], ArchiveEntry::File("layers/stackup.toml".to_string(), EntrySource::Text(e.stackup.to_toml())));
    assert_eq!(
        v[4],
        ArchiveEntry::File(
            "boards/main/stacked_daughter.toml".to_string(),
            EntrySource::Text("offset = [ 0.000000, 0.000000, 5.000000 ]".to_string())
        )
    );
    assert_eq!(v[6], ArchiveEntry::File("pads/R1-2.toml".to_string(), EntrySource::Text(pad().to_toml())));
}

#[test]
fn whole_archive_in_order_with_distinct_names() {
    let e = export();
    let comps = names(&["R1.wrl".to_string(), "x.step".to_string()]);
    let layers = names(&["F.Cu.svg".to_string(), "B.Cu.svg".to_string()]);
    let v = archive_entries(&e, &comps, &layers);
    let got: Vec<&str> = v.iter().map(name).collect();
    assert_eq!(
        got,
        vec![
            "pcb.wrl",
            "components/",
            "layers/",
            "boards/",
            "pads/",
            "components/R1.wrl",
            "layers/F.Cu.svg",
            "layers/B.Cu.svg",
            "layers/bounds.toml",
            "layers/stackup.toml",
            "boards/main/",
            "boards/main/bounds.toml",
            "boards/main/stacked_daughter.toml",
            "pads/R1-1.toml",
            "pads/R1-2.toml",
        ]
    );
    let unique: HashSet<&str> = got.iter().copied().collect();
    assert_eq!(unique.len(), got.len());
}

#[test]
fn board_name_with_slash_can_clash() {
    let mut e = export();
    e.boards = vec![
        (
            "x".to_string(),
            BoardExport {
                bounds: bounds(1),
                stacked_boards: vec![("y/bounds".to_string(), StackedBoard { offset: (fin(0), fin(0), fin(0)) })],
            },
        ),
        ("x/stacked_y".to_string(), BoardExport { bounds: bounds(1), stacked_boards: Vec::new() }),
    ];
    let v = metadata_entries(&e);
    let got: Vec<&str> = v.iter().map(name).collect();
    let unique: HashSet<&str> = got.iter().copied().collect();
    assert!(unique.len() < got.len());
}

#[test]
fn archive_holds_every_stacked_board() {
    let mut e = export();
    e.boards[0].1.stacked_boards.push((
        "second".to_string(),
        StackedBoard { offset: (fin(1), fin(2), fin(3)) },
    ));
    let v = archive_entries(&e, &Vec::new(), &Vec::new());
    for (name, text) in [
        ("boards/main/stacked_daughter.toml", "offset = [ 0.000000, 0.000000, 5.000000 ]"),
        ("boards/main/stacked_second.toml", "offset = [ 1.000000, 2.000000, 3.000000 ]"),
    ] {
        assert!(v.contains(&ArchiveEntry::File(name.to_string(), EntrySource::Text(text.to_string()))));
    }
    assert!(v.contains(&ArchiveEntry::Directory("boards/main/".to_string())));
    assert!(v.contains(&ArchiveEntry::File("layers/stackup.toml".to_string(), EntrySource::Text(e.stackup.to_toml()))));
}
