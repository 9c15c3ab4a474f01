//! The exporter script that KiCad's Python runs.
//!
//! The script takes the board file and a working directory. It exports the
//! board's VRML model and component models and the SVG drawings of the copper,
//! paste, silkscreen and mask layers with `kicad-cli`, reads the outline,
//! stackup and pads through `pcbnew`, and writes `export_result.json` there.

use vstd::prelude::*;

verus! {

/// The text of the exporter script.
pub fn create_export_script() -> (s: String)
    ensures
        s@ == EXPORT_SCRIPT@,
{
    EXPORT_SCRIPT.to_owned()
}

/// The exporter script.
pub const EXPORT_SCRIPT: &'static str = r##""""Export a KiCad board for PCB3D packaging.

Usage: python3 export_pcb3d.py <board.kicad_pcb> <output_dir>

Writes <output_dir>/pcb.wrl, <output_dir>/components/*.wrl,
<output_dir>/layers/*.svg and <output_dir>/export_result.json.
"""

import json
import os
import shutil
import subprocess
import sys

import pcbnew

SVG_LAYERS = ["F.Cu", "B.Cu", "F.Paste", "B.Paste", "F.SilkS", "B.SilkS", "F.Mask", "B.Mask"]

PAD_TYPES = {
    "PAD_ATTRIB_PTH": "Tht",
    "PAD_ATTRIB_SMD": "Smd",
    "PAD_ATTRIB_CONN": "Conn",
    "PAD_ATTRIB_NPTH": "Npth",
}

PAD_SHAPES = {
    "PAD_SHAPE_CIRCLE": "Circle",
    "PAD_SHAPE_RECTANGLE": "Rect",
    "PAD_SHAPE_RECT": "Rect",
    "PAD_SHAPE_OVAL": "Oval",
    "PAD_SHAPE_TRAPEZOID": "Trapezoid",
    "PAD_SHAPE_ROUNDRECT": "RoundRect",
    "PAD_SHAPE_CHAMFERED_RECT": "ChamferedRect",
    "PAD_SHAPE_CUSTOM": "Custom",
}

DRILL_SHAPES = {
    "PAD_DRILL_SHAPE_CIRCLE": "Circular",
    "PAD_DRILL_SHAPE_OBLONG": "Oval",
}

FAB_TYPES = {
    "PAD_PROP_NONE": "None",
    "PAD_PROP_BGA": "Bga",
    "PAD_PROP_FIDUCIAL_GLBL": "Fiducial",
    "PAD_PROP_FIDUCIAL_LOCAL": "Fiducial",
    "PAD_PROP_TESTPOINT": "TestPoint",
    "PAD_PROP_HEATSINK": "Heatsink",
    "PAD_PROP_CASTELLATED": "Castellated",
    "PAD_PROP_MECHANICAL": "Mechanical",
}


def enum_name(value, table, default):
    for name, label in table.items():
        if hasattr(pcbnew, name) and getattr(pcbnew, name) == value:
            return label
    return default


def call(obj, method, *layer_args):
    fn = getattr(obj, method)
    try:
        return fn()
    except TypeError:
        return fn(*layer_args)


def mm(value):
    return pcbnew.ToMM(value)


def kicad_cli():
    return os.environ.get("KICAD_CLI") or shutil.which("kicad-cli") or "kicad-cli"


def run_cli(args):
    result = subprocess.run([kicad_cli()] + args, capture_output=True, text=True)
    if result.returncode != 0:
        sys.stderr.write(result.stdout)
        sys.stderr.write(result.stderr)
        raise SystemExit("kicad-cli " + " ".join(args[:3]) + " failed")


def export_models(pcb_file, out_dir):
    wrl_path = os.path.join(out_dir, "pcb.wrl")
    components_dir = os.path.join(out_dir, "components")
    os.makedirs(components_dir, exist_ok=True)
    run_cli(["pcb", "export", "vrml", "--units", "mm", "--models-dir", components_dir,
             "--models-relative", "-o", wrl_path, pcb_file])
    return wrl_path, components_dir


def export_layers(pcb_file, out_dir):
    layers_dir = os.path.join(out_dir, "layers")
    os.makedirs(layers_dir, exist_ok=True)
    for layer in SVG_LAYERS:
        target = os.path.join(layers_dir, layer + ".svg")
        run_cli(["pcb", "export", "svg", "--layers", layer, "--exclude-drawing-sheet",
                 "--page-size-mode", "2", "-o", target, pcb_file])
    return layers_dir


def board_bounds(board):
    box = board.GetBoardEdgesBoundingBox()
    return {
        "top_left": [mm(box.GetX()), mm(box.GetY())],
        "size": [mm(box.GetWidth()), mm(box.GetHeight())],
    }


def board_stackup(board):
    settings = board.GetDesignSettings()
    stackup = {
        "thickness_mm": mm(settings.GetBoardThickness()),
        "mask_color": "GREEN",
        "mask_color_custom": [0.0, 0.0, 0.0],
        "silks_color": "WHITE",
        "silks_color_custom": [0.0, 0.0, 0.0],
        "surface_finish": "HASL",
    }
    try:
        descriptor = settings.GetStackupDescriptor()
        finish = str(descriptor.m_FinishType).upper()
        if "ENIG" in finish:
            stackup["surface_finish"] = "ENIG"
        elif finish in ("NONE", "NOT SPECIFIED", ""):
            stackup["surface_finish"] = "NONE"
        for item in descriptor.GetList():
            color = str(item.GetColor()).upper()
            if not color or color.startswith("NOT"):
                continue
            name = str(item.GetLayerName())
            if name in ("F.Mask", "B.Mask"):
                stackup["mask_color"] = color.split()[0]
            elif name in ("F.SilkS", "B.SilkS", "F.Silkscreen", "B.Silkscreen"):
                stackup["silks_color"] = color.split()[0]
    except Exception:
        pass
    return stackup


def pad_entry(footprint, pad, origin):
    position = pad.GetPosition()
    size = call(pad, "GetSize", pcbnew.F_Cu)
    drill = pad.GetDrillSize()
    attribute = pad.GetAttribute()
    orientation = pad.GetOrientation()
    rotation = orientation.AsRadians() if hasattr(orientation, "AsRadians") else orientation
    return {
        "position": [mm(position.x) - origin[0], mm(position.y) - origin[1]],
        "is_flipped": bool(footprint.IsFlipped()),
        "has_model": len(footprint.Models()) > 0,
        "is_tht_or_smd": attribute in (getattr(pcbnew, "PAD_ATTRIB_PTH", None),
                                       getattr(pcbnew, "PAD_ATTRIB_SMD", None)),
        "has_paste": bool(pad.IsOnLayer(pcbnew.F_Paste) or pad.IsOnLayer(pcbnew.B_Paste)),
        "pad_type": enum_name(attribute, PAD_TYPES, "Unknown"),
        "shape": enum_name(call(pad, "GetShape", pcbnew.F_Cu), PAD_SHAPES, "Unknown"),
        "size": [mm(size.x), mm(size.y)],
        "rotation": float(rotation),
        "roundness": float(call(pad, "GetRoundRectRadiusRatio", pcbnew.F_Cu)),
        "drill_shape": enum_name(pad.GetDrillShape(), DRILL_SHAPES, "Unknown"),
        "drill_size": [mm(drill.x), mm(drill.y)],
        "fab_type": enum_name(pad.GetProperty(), FAB_TYPES, "None"),
    }


def board_pads(board, bounds):
    origin = bounds["top_left"]
    pads = {}
    for footprint in board.GetFootprints():
        reference = footprint.GetReference()
        for index, pad in enumerate(footprint.Pads()):
            name = "{}-{}".format(reference, pad.GetNumber() or index)
            while name in pads:
                name += "_"
            pads[name] = pad_entry(footprint, pad, origin)
    return pads


def main():
    if len(sys.argv) != 3:
        raise SystemExit("usage: export_pcb3d.py <board.kicad_pcb> <output_dir>")
    pcb_file, out_dir = sys.argv[1], sys.argv[2]
    board = pcbnew.LoadBoard(pcb_file)
    wrl_path, components_dir = export_models(pcb_file, out_dir)
    layers_dir = export_layers(pcb_file, out_dir)
    bounds = board_bounds(board)
    result = {
        "wrl_path": wrl_path,
        "components_dir": components_dir,
        "layers_dir": layers_dir,
        "bounds": bounds,
        "stackup": board_stackup(board),
        "boards": {},
        "pads": board_pads(board, bounds),
    }
    with open(os.path.join(out_dir, "export_result.json"), "w") as handle:
        json.dump(result, handle, indent=2)


if __name__ == "__main__":
    main()
"##;

} // verus!
