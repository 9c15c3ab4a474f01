//! Names of the files and directories inside a PCB3D archive.

use vstd::prelude::*;

verus! {

/// The board's main VRML model.
pub const PCB_WRL: &'static str = "pcb.wrl";

/// Directory of the component models.
pub const COMPONENTS_DIR: &'static str = "components";

/// Directory of the layer drawings.
pub const LAYERS_DIR: &'static str = "layers";

/// Directory of the per-board data.
pub const BOARDS_DIR: &'static str = "boards";

/// Directory of the per-pad data.
pub const PADS_DIR: &'static str = "pads";

/// File name of a bounds description.
pub const BOUNDS_TOML: &'static str = "bounds.toml";

/// File name of the stackup description.
pub const STACKUP_TOML: &'static str = "stackup.toml";

} // verus!
