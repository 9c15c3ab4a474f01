//! Rendering support for turning KiCad board exports into PCB3D archives.
//!
//! A PCB3D archive holds the board's VRML model, the component models, the
//! layer drawings and TOML descriptions of the outline, stackup, boards and
//! pads. The modules here decide every byte of text and every entry of the
//! archive; reading files, running KiCad and writing the archive are left to
//! the caller.

pub mod pcb3d;
pub mod decimal;
pub mod board;
pub mod board_laws;
pub mod names;
pub mod archive;
pub mod export;
pub mod script;
pub mod session;
pub mod archive_laws;

use std::path::PathBuf;
use vstd::prelude::*;

verus! {

#[verifier::external_type_specification]
#[verifier::external_body]
pub struct ExPathBuf(PathBuf);

/// Options for rendering a board to a PCB3D archive.
pub struct RenderOptions {
    /// Leave the archive unopened once it is written.
    pub no_open: bool,
}

/// The files involved in rendering one source file.
pub struct LayoutRenderResult {
    pub source_file: PathBuf,
    pub pcb_file: PathBuf,
    pub output_path: PathBuf,
}

} // verus!
